use vstd::prelude::*;

verus! {

/// The per-user ledger entry: when the open stake period began, whether a
/// position is open, and the whole units currently staked.
#[derive(Clone, Copy, Debug, PartialEq, Eq, Structural)]
pub struct StakeInfo {
    pub stake_at_slot: u64,
    pub is_staked: bool,
    pub stake_amount: u64,
}

impl StakeInfo {
    /// The entry as it is created on a user's first stake.
    pub fn new() -> (r: StakeInfo)
        ensures
            r.stake_at_slot == 0,
            !r.is_staked,
            r.stake_amount == 0,
    {
        StakeInfo { stake_at_slot: 0, is_staked: false, stake_amount: 0 }
    }
}

/// What a destake pays back out of the personal stake vault.
#[derive(Clone, Copy, Debug, PartialEq, Eq, Structural)]
pub enum Withdrawal {
    /// The whole recorded principal, whatever amount was requested; the entry
    /// is still reduced by the requested amount only.
    RecordedPrincipal,
    /// Exactly the requested amount, which is also what the entry loses.
    RequestedAmount,
}

/// The configurable rules of the ledger.
#[derive(Clone, Copy, Debug, PartialEq, Eq, Structural)]
pub struct Policy {
    /// Whether a stake on an open position adds to it (`true`) or is refused
    /// with `AlreadyStaked` (`false`).
    pub allow_top_up: bool,
    /// Ledger time that must pass after a stake before a destake is allowed.
    pub minimum_hold_period: u64,
    /// How much principal a destake returns.
    pub withdrawal: Withdrawal,
}

impl Policy {
    /// The default rules: deposits accumulate, no minimum holding period,
    /// and a destake returns the recorded principal.
    pub fn new() -> (r: Policy)
        ensures
            r.allow_top_up,
            r.minimum_hold_period == 0,
            r.withdrawal == Withdrawal::RecordedPrincipal,
    {
        Policy {
            allow_top_up: true,
            minimum_hold_period: 0,
            withdrawal: Withdrawal::RecordedPrincipal,
        }
    }
}

} // verus!
