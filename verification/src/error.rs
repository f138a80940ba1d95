use vstd::prelude::*;

verus! {

/// The failures an operation can surface.
#[derive(Debug, Clone, Copy, PartialEq, Eq, Structural)]
pub enum ContractError {
    /// The caller of a reset is not the owner recorded at initialization.
    Unauthorized,
    /// No record has been persisted yet.
    NotFound,
    /// A host-boundary failure: the record slot holds bytes that do not
    /// decode to a record.
    Std,
}

} // verus!
