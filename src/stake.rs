use vstd::prelude::*;

use crate::amount::{scale, scaled};
use crate::error::ErrorCode;
use crate::state::{Policy, StakeInfo};

verus! {

/// The records a stake reads and writes: the caller's ledger entry, the
/// balance of the caller's personal stake vault, the caller's own token
/// balance, and the asset's number of decimals. Balances are in the asset's
/// smallest units; the entry counts whole units.
#[derive(Clone, Copy, Debug, PartialEq, Eq, Structural)]
pub struct Stake {
    pub stake_info_account: StakeInfo,
    pub stake_account: u64,
    pub user_token_account: u64,
    pub decimals: u8,
}

/// Why a stake of `amount` fails on `c`, if it does.
pub open spec fn stake_error(c: Stake, amount: u64, policy: Policy) -> Option<ErrorCode> {
    let cost = scaled(amount, c.decimals);
    if cost > c.user_token_account {
        Some(ErrorCode::InsufficientFunds)
    } else if c.stake_info_account.is_staked && !policy.allow_top_up {
        Some(ErrorCode::AlreadyStaked)
    } else if c.stake_info_account.stake_amount + amount > u64::MAX || c.stake_account + cost
        > u64::MAX {
        Some(ErrorCode::ArithmeticOverflow)
    } else {
        None
    }
}

/// The records after a successful stake of `amount` at time `now`.
pub open spec fn staked(c: Stake, amount: u64, now: u64) -> Stake {
    let cost = scaled(amount, c.decimals);
    Stake {
        stake_info_account: StakeInfo {
            stake_at_slot: now,
            is_staked: true,
            stake_amount: (c.stake_info_account.stake_amount + amount) as u64,
        },
        stake_account: (c.stake_account + cost) as u64,
        user_token_account: (c.user_token_account - cost) as u64,
        decimals: c.decimals,
    }
}

/// Stakes `amount` whole units at ledger time `now`: moves
/// `amount * 10^decimals` from the caller's balance into the personal stake
/// vault, adds `amount` to the recorded principal and restarts the stake
/// period. Returns the number of smallest units moved. On failure nothing
/// changes.
pub fn stake(ctx: &mut Stake, amount: u64, now: u64, policy: &Policy) -> (r: Result<
    u64,
    ErrorCode,
>)
    requires
        amount > 0,
    ensures
        match stake_error(*old(ctx), amount, *policy) {
            Some(e) => r == Err::<u64, ErrorCode>(e) && *final(ctx) == *old(ctx),
            None => r == Ok::<u64, ErrorCode>(scaled(amount, old(ctx).decimals) as u64)
                && *final(ctx) == staked(*old(ctx), amount, now),
        },
        r is Ok ==> final(ctx).stake_info_account.stake_amount
            == old(ctx).stake_info_account.stake_amount + amount,
        scaled(amount, old(ctx).decimals) > old(ctx).user_token_account ==> r
            == Err::<u64, ErrorCode>(ErrorCode::InsufficientFunds) && *final(ctx) == *old(ctx),
{
    let cost = match scale(amount, ctx.decimals) {
        Some(c) => c,
        None => return Err(ErrorCode::InsufficientFunds),
    };
    if ctx.user_token_account < cost {
        return Err(ErrorCode::InsufficientFunds);
    }
    if ctx.stake_info_account.is_staked && !policy.allow_top_up {
        return Err(ErrorCode::AlreadyStaked);
    }
    let total = match ctx.stake_info_account.stake_amount.checked_add(amount) {
        Some(t) => t,
        None => return Err(ErrorCode::ArithmeticOverflow),
    };
    let vault = match ctx.stake_account.checked_add(cost) {
        Some(v) => v,
        None => return Err(ErrorCode::ArithmeticOverflow),
    };
    ctx.stake_info_account = StakeInfo { stake_at_slot: now, is_staked: true, stake_amount: total };
    ctx.user_token_account = ctx.user_token_account - cost;
    ctx.stake_account = vault;
    Ok(cost)
}

} // verus!
