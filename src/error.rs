//! The classes every refusal falls into, so callers can tell a retry with
//! other parameters from an asset that is gone.
use vstd::prelude::*;

verus! {

#[derive(Clone, Copy, Debug, PartialEq, Eq, Structural)]
pub enum ErrorKind {
    /// The operation is invalid in the record's current lifecycle state.
    State,
    /// The caller does not hold the required authority.
    Authorization,
    /// More was asked for than remains.
    Capacity,
    /// An input or a custody precondition does not hold.
    Validation,
    /// A fee, penalty or cost left the range of its integer type.
    Arithmetic,
    /// The operation was attempted outside its permitted window.
    Timing,
    /// A value or custody transfer was refused by the ledger.
    Transfer,
}

} // verus!
