use vstd::prelude::*;

use crate::amount::{pow10, scale, scaled};
use crate::error::ErrorCode;
use crate::state::{Policy, StakeInfo, Withdrawal};

verus! {

/// The records a destake reads and writes: the shared reward vault's
/// balance, the caller's ledger entry, the balance of the caller's personal
/// stake vault, the caller's own token balance, and the asset's number of
/// decimals. Balances are in the asset's smallest units.
#[derive(Clone, Copy, Debug, PartialEq, Eq, Structural)]
pub struct DeStake {
    pub token_vault_account: u64,
    pub stake_info_account: StakeInfo,
    pub stake_account: u64,
    pub user_token_account: u64,
    pub decimals: u8,
}

/// The two transfers of a destake, in smallest units: the reward out of the
/// reward vault, then the principal out of the personal stake vault.
#[derive(Clone, Copy, Debug, PartialEq, Eq, Structural)]
pub struct Payout {
    pub reward: u64,
    pub principal: u64,
}

/// The reward for `elapsed` units of ledger time: a flat `10^decimals` per
/// unit, whatever the principal.
pub open spec fn reward_for(elapsed: int, decimals: u8) -> int {
    elapsed * pow10(decimals as nat)
}

/// The whole units that a destake of `amount` pays back under `policy`.
pub open spec fn withdrawn_units(c: DeStake, amount: u64, policy: Policy) -> u64 {
    match policy.withdrawal {
        Withdrawal::RecordedPrincipal => c.stake_info_account.stake_amount,
        Withdrawal::RequestedAmount => amount,
    }
}

/// Why a destake of `amount` at time `now` fails on `c`, if it does. The
/// last four cases are the two transfers failing: either rolls the whole
/// destake back.
pub open spec fn destake_error(c: DeStake, amount: u64, now: u64, policy: Policy) -> Option<
    ErrorCode,
> {
    let info = c.stake_info_account;
    let elapsed = now - info.stake_at_slot;
    let reward = reward_for(elapsed, c.decimals);
    let principal = scaled(withdrawn_units(c, amount, policy), c.decimals);
    if !policy.allow_top_up && !info.is_staked {
        Some(ErrorCode::NotStaked)
    } else if scaled(amount, c.decimals) > c.stake_account || amount > info.stake_amount {
        Some(ErrorCode::InsufficientFunds)
    } else if now < info.stake_at_slot {
        Some(ErrorCode::ArithmeticOverflow)
    } else if elapsed < policy.minimum_hold_period {
        Some(ErrorCode::StakeNotMatured)
    } else if reward > u64::MAX || principal > u64::MAX {
        Some(ErrorCode::ArithmeticOverflow)
    } else if reward > c.token_vault_account {
        Some(ErrorCode::InsufficientFunds)
    } else if c.user_token_account + reward > u64::MAX {
        Some(ErrorCode::ArithmeticOverflow)
    } else if principal > c.stake_account {
        Some(ErrorCode::InsufficientFunds)
    } else if c.user_token_account + reward + principal > u64::MAX {
        Some(ErrorCode::ArithmeticOverflow)
    } else {
        None
    }
}

/// What a successful destake of `amount` at time `now` transfers.
pub open spec fn destake_payout(c: DeStake, amount: u64, now: u64, policy: Policy) -> Payout {
    Payout {
        reward: reward_for(now - c.stake_info_account.stake_at_slot, c.decimals) as u64,
        principal: scaled(withdrawn_units(c, amount, policy), c.decimals) as u64,
    }
}

/// The records after a successful destake of `amount` at time `now`: both
/// transfers done, the principal reduced by `amount`, and the stake period
/// restarted at `now`.
pub open spec fn destaked(c: DeStake, amount: u64, now: u64, policy: Policy) -> DeStake {
    let p = destake_payout(c, amount, now, policy);
    let remaining = c.stake_info_account.stake_amount - amount;
    DeStake {
        token_vault_account: (c.token_vault_account - p.reward) as u64,
        stake_info_account: StakeInfo {
            stake_at_slot: now,
            is_staked: remaining > 0,
            stake_amount: remaining as u64,
        },
        stake_account: (c.stake_account - p.principal) as u64,
        user_token_account: (c.user_token_account + p.reward + p.principal) as u64,
        decimals: c.decimals,
    }
}

/// Destakes `amount` whole units at ledger time `now`: pays the reward for
/// the time since the stake period began out of the reward vault, then the
/// principal out of the personal stake vault, reduces the recorded principal
/// by `amount` and restarts the stake period at `now`. On failure nothing
/// changes.
pub fn destake(ctx: &mut DeStake, amount: u64, now: u64, policy: &Policy) -> (r: Result<
    Payout,
    ErrorCode,
>)
    ensures
        match destake_error(*old(ctx), amount, now, *policy) {
            Some(e) => r == Err::<Payout, ErrorCode>(e) && *final(ctx) == *old(ctx),
            None => r == Ok::<Payout, ErrorCode>(destake_payout(*old(ctx), amount, now, *policy))
                && *final(ctx) == destaked(*old(ctx), amount, now, *policy),
        },
        r is Ok ==> final(ctx).stake_info_account.stake_at_slot == now,
        r matches Ok(p) ==> p.reward == (now - old(ctx).stake_info_account.stake_at_slot) * pow10(
            old(ctx).decimals as nat,
        ),
        now >= old(ctx).stake_info_account.stake_at_slot && reward_for(
            now - old(ctx).stake_info_account.stake_at_slot,
            old(ctx).decimals,
        ) > old(ctx).token_vault_account ==> r is Err && *final(ctx) == *old(ctx),
{
    let info = ctx.stake_info_account;
    if !policy.allow_top_up && !info.is_staked {
        return Err(ErrorCode::NotStaked);
    }
    let requested = match scale(amount, ctx.decimals) {
        Some(v) => v,
        None => return Err(ErrorCode::InsufficientFunds),
    };
    if ctx.stake_account < requested || info.stake_amount < amount {
        return Err(ErrorCode::InsufficientFunds);
    }
    if now < info.stake_at_slot {
        return Err(ErrorCode::ArithmeticOverflow);
    }
    let elapsed = now - info.stake_at_slot;
    if elapsed < policy.minimum_hold_period {
        return Err(ErrorCode::StakeNotMatured);
    }
    let reward = match scale(elapsed, ctx.decimals) {
        Some(v) => v,
        None => return Err(ErrorCode::ArithmeticOverflow),
    };
    let units = match policy.withdrawal {
        Withdrawal::RecordedPrincipal => info.stake_amount,
        Withdrawal::RequestedAmount => amount,
    };
    let principal = match scale(units, ctx.decimals) {
        Some(v) => v,
        None => return Err(ErrorCode::ArithmeticOverflow),
    };
    if ctx.token_vault_account < reward {
        return Err(ErrorCode::InsufficientFunds);
    }
    let paid = match ctx.user_token_account.checked_add(reward) {
        Some(v) => v,
        None => return Err(ErrorCode::ArithmeticOverflow),
    };
    if ctx.stake_account < principal {
        return Err(ErrorCode::InsufficientFunds);
    }
    let received = match paid.checked_add(principal) {
        Some(v) => v,
        None => return Err(ErrorCode::ArithmeticOverflow),
    };
    ctx.token_vault_account = ctx.token_vault_account - reward;
    ctx.stake_account = ctx.stake_account - principal;
    ctx.user_token_account = received;
    let remaining = info.stake_amount - amount;
    ctx.stake_info_account = StakeInfo {
        stake_at_slot: now,
        is_staked: remaining > 0,
        stake_amount: remaining,
    };
    Ok(Payout { reward, principal })
}

/// The reward of a successful destake depends only on the elapsed ledger
/// time and the decimals: neither the recorded principal nor the requested
/// amount changes it.
pub proof fn lemma_reward_is_flat_rate(
    c1: DeStake,
    amount1: u64,
    c2: DeStake,
    amount2: u64,
    now: u64,
    policy: Policy,
)
    requires
        destake_error(c1, amount1, now, policy) is None,
        destake_error(c2, amount2, now, policy) is None,
        c1.stake_info_account.stake_at_slot == c2.stake_info_account.stake_at_slot,
        c1.decimals == c2.decimals,
    ensures
        destake_payout(c1, amount1, now, policy).reward == destake_payout(
            c2,
            amount2,
            now,
            policy,
        ).reward,
        destake_payout(c1, amount1, now, policy).reward == reward_for(
            now - c1.stake_info_account.stake_at_slot,
            c1.decimals,
        ),
{
}

} // verus!
