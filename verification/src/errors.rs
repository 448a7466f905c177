use vstd::prelude::*;

verus! {

/// Stable error codes surfaced by every operation. Each aborts the whole
/// operation: no error leaves a partial mutation behind.
#[derive(Clone, Copy, Debug, PartialEq, Eq, Structural)]
pub enum ErrorCode {
    /// A proposal asked for more than the vault currently holds.
    InsufficientFunds,
    /// A proposal's requested duration is under the three-day minimum.
    ProposalTooShort,
    /// A deposit of less than one token unit.
    AmountTooLow,
    /// A contributor's cumulative deposit total would exceed `u64::MAX`.
    Overflow,
    /// The voter's stored direction already matches the vote being cast.
    AlreadyVoted,
    /// Unused by the canonical release logic, which applies no time lock.
    ProposalNotOver,
    /// Release was requested while the tally lacks a strict majority of upvotes.
    ProposalNotPassed,
}

} // verus!
