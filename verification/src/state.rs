use vstd::prelude::*;

verus! {

/// The persisted record: the mutable count and the caller identity captured
/// at initialization (the host hands identities to the entry points as
/// strings; the record keeps their UTF-8 bytes).
#[derive(Debug, Clone, PartialEq, Eq)]
pub struct State {
    pub count: i32,
    pub owner: Vec<u8>,
}

/// Mathematical model of a record.
#[verifier::ext_equal]
pub struct StateV {
    pub count: int,
    pub owner: Seq<u8>,
}

impl View for State {
    type V = StateV;

    open spec fn view(&self) -> StateV {
        StateV { count: self.count as int, owner: self.owner@ }
    }
}

/// What one increment does to a count: add one, saturating at `i32::MAX`
/// (the chosen overflow policy; the count never wraps).
pub open spec fn inc_count(c: int) -> int {
    if c >= i32::MAX as int {
        i32::MAX as int
    } else {
        c + 1
    }
}

/// What an increment does to a record.
pub open spec fn spec_increment(s: StateV) -> StateV {
    StateV { count: inc_count(s.count), owner: s.owner }
}

/// Whether a caller may reset the record: exact equality with the owner.
pub open spec fn reset_allowed(s: StateV, sender: Seq<u8>) -> bool {
    sender == s.owner
}

/// What an authorized reset does to a record.
pub open spec fn spec_reset(s: StateV, count: int) -> StateV {
    StateV { count, owner: s.owner }
}

/// `n` increments in sequence.
pub open spec fn iter_increment(s: StateV, n: nat) -> StateV
    decreases n,
{
    if n == 0 {
        s
    } else {
        spec_increment(iter_increment(s, (n - 1) as nat))
    }
}

/// Law: the owner set at initialization is immutable — neither an increment
/// nor a reset (authorized or not; an unauthorized one changes nothing at
/// all) touches it.
pub proof fn lemma_owner_immutable(s: StateV, count: int)
    ensures
        spec_increment(s).owner == s.owner,
        spec_reset(s, count).owner == s.owner,
{
}

/// Law: increments compose exactly — as long as the count stays in range,
/// `n` increments add exactly `n`, with none skipped or double-applied.
pub proof fn lemma_increment_exact(s: StateV, n: nat)
    requires
        s.count + n <= i32::MAX as int,
    ensures
        iter_increment(s, n).count == s.count + n,
        iter_increment(s, n).owner == s.owner,
    decreases n,
{
    if n > 0 {
        lemma_increment_exact(s, (n - 1) as nat);
    }
}

} // verus!
