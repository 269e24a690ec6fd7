use vstd::prelude::*;

verus! {

/// The ways an operation on the ledger can fail. A failed operation leaves
/// every record and balance as it was.
#[derive(Clone, Copy, Debug, PartialEq, Eq, Structural)]
pub enum ErrorCode {
    /// A stake or destake asks for more than the balance it draws on holds.
    InsufficientFunds,
    /// A second stake on an open position where top-ups are not allowed.
    AlreadyStaked,
    /// A destake without an open position where top-ups are not allowed.
    NotStaked,
    /// A destake before the minimum holding period has passed.
    StakeNotMatured,
    /// A scaled amount or a balance would leave the range of `u64`.
    ArithmeticOverflow,
    /// No bump seed yields a program-owned address for the given seeds.
    DerivationFailed,
    /// An account that the operation reads does not exist yet.
    AccountNotInitialized,
}

} // verus!
