use vstd::prelude::*;

verus! {

/// Why an operation on the ledger was refused. A refused operation changes nothing.
#[derive(Clone, Copy, Debug, PartialEq, Eq, Structural)]
pub enum LedgerError {
    /// A record with this id already exists.
    DuplicateId,
    /// No record has this id.
    NotFound,
    /// The caller does not hold the role that the operation needs.
    Unauthorized,
    /// The record's lifecycle state does not allow the operation.
    InvalidState,
    /// An argument is malformed: a non-positive price or amount, or shares
    /// that do not add up to the whole.
    InvalidArgument,
    /// Adding up the shares overflowed.
    ArithmeticOverflow,
    /// The stream is switched off.
    InactiveResource,
}

} // verus!
