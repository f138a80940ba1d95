use vstd::prelude::*;

verus! {

/// Request to create the one record, with its starting count.
/// The caller identity attached to the call becomes the owner.
#[derive(Debug, Clone, Copy, PartialEq, Eq, Structural)]
pub struct InstantiateMsg {
    pub count: i32,
}

/// The mutating operations.
#[derive(Debug, Clone, Copy, PartialEq, Eq, Structural)]
pub enum ExecuteMsg {
    /// Add one to the count (saturating at the maximum).
    Increment,
    /// Set the count to an arbitrary value; only the owner may do this.
    Reset { count: i32 },
}

/// The read-only operations.
#[derive(Debug, Clone, Copy, PartialEq, Eq, Structural)]
pub enum QueryMsg {
    GetCount,
}

/// Answer to [`QueryMsg::GetCount`].
#[derive(Debug, Clone, Copy, PartialEq, Eq, Structural)]
pub struct GetCountResponse {
    pub count: i32,
}

} // verus!
