use vstd::prelude::*;

verus! {

/// Why an operation on the fund was refused.  Every operation fails as a
/// whole: when an `Err` comes back, no state it was handed has been changed.
#[derive(Clone, Copy, Debug, PartialEq, Eq, Structural)]
pub enum ErrorCode {
    /// A precondition or an economic guard failed: a misconfigured pool, a
    /// request that the record's state does not allow, or an amount that came
    /// out as zero so there is nothing to do.
    InvalidState,
    /// The withdrawal escrow period has not elapsed yet; the caller may try
    /// again later.
    EscrowNotElapsed,
    /// The record holds fewer shares than the pending withdrawal claims.
    InsufficientShares,
    /// A checked arithmetic step overflowed or divided by zero.
    MathError,
}

} // verus!
