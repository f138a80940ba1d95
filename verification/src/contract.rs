use vstd::prelude::*;
use vstd::string::{StrSliceExecFns, StringSliceAdditionalSpecFns};

use cosmwasm_std::MemoryStorage;

use crate::bytes::bytes_eq;
use crate::codec::encode_state;
use crate::error::ContractError;
use crate::msg::{ExecuteMsg, GetCountResponse, InstantiateMsg, QueryMsg};
use crate::numfmt::{i32_chars, i32_string};
use crate::response::{attr, AttrV, Response};
use crate::state::{iter_increment, lemma_increment_exact, reset_allowed, spec_increment,
    spec_reset, State, StateV};
use crate::store::{load, save, slot_error, state_key, storage_contents, stored_state,
    version_key, version_tag_bytes, write_version_tag};

verus! {

/// A handler's result at the model level: the emitted attributes, or the
/// error.
pub open spec fn res_view(r: Result<Response, ContractError>) -> Result<
    Seq<AttrV>,
    ContractError,
> {
    match r {
        Ok(resp) => Ok(resp@),
        Err(e) => Err(e),
    }
}

/// Everything initialization does to a store holding `old_m`: it always
/// succeeds; the version tag and then the one record — the given count, the
/// caller as owner — are written, nothing else changes, and exactly three
/// attributes are emitted.
pub open spec fn init_post(
    old_m: Map<Seq<u8>, Seq<u8>>,
    new_m: Map<Seq<u8>, Seq<u8>>,
    sender: &str,
    count: i32,
    r: Result<Seq<AttrV>, ContractError>,
) -> bool {
    match r {
        Ok(attrs) => {
            &&& new_m == old_m.insert(
                version_key(),
                version_tag_bytes("crates.io:cwtemplate"@, "0.1.0"@),
            ).insert(
                state_key(),
                encode_state((StateV { count: count as int, owner: sender.spec_bytes() })),
            )
            &&& stored_state(new_m) == Some(
                (StateV { count: count as int, owner: sender.spec_bytes() }),
            )
            &&& attrs == seq![
                attr("method"@, "instantiate"@),
                attr("owner"@, sender@),
                attr("count"@, i32_chars(count as int)),
            ]
        },
        Err(_) => false,
    }
}

/// Everything an increment does: on success the stored record's count is
/// replaced by its increment (saturating at `i32::MAX`), the owner is kept,
/// and nothing else changes; on failure — exactly when no record can be read
/// — nothing is written.
pub open spec fn increment_post(
    old_m: Map<Seq<u8>, Seq<u8>>,
    new_m: Map<Seq<u8>, Seq<u8>>,
    r: Result<Seq<AttrV>, ContractError>,
) -> bool {
    match r {
        Ok(attrs) => {
            &&& stored_state(old_m) is Some
            &&& new_m == old_m.insert(
                state_key(),
                encode_state(spec_increment(stored_state(old_m)->Some_0)),
            )
            &&& stored_state(new_m) == Some(spec_increment(stored_state(old_m)->Some_0))
            &&& attrs == seq![attr("method"@, "try_increment"@)]
        },
        Err(e) => new_m == old_m && slot_error(old_m, e),
    }
}

/// Everything a reset does: it succeeds, with the count set to the given
/// value and the owner kept, exactly when the caller is the owner; an
/// unauthorized caller gets `Unauthorized` and the store is untouched; with
/// no readable record the read's error is surfaced and the store is
/// untouched.
pub open spec fn reset_post(
    old_m: Map<Seq<u8>, Seq<u8>>,
    new_m: Map<Seq<u8>, Seq<u8>>,
    sender: &str,
    count: i32,
    r: Result<Seq<AttrV>, ContractError>,
) -> bool {
    match r {
        Ok(attrs) => {
            &&& stored_state(old_m) is Some
            &&& reset_allowed(stored_state(old_m)->Some_0, sender.spec_bytes())
            &&& new_m == old_m.insert(
                state_key(),
                encode_state(spec_reset(stored_state(old_m)->Some_0, count as int)),
            )
            &&& stored_state(new_m) == Some(spec_reset(stored_state(old_m)->Some_0, count as int))
            &&& attrs == seq![attr("method"@, "try_reset"@)]
        },
        Err(e) => {
            &&& new_m == old_m
            &&& (e == ContractError::Unauthorized ==> stored_state(old_m) is Some
                && !reset_allowed(stored_state(old_m)->Some_0, sender.spec_bytes()))
            &&& (e != ContractError::Unauthorized ==> slot_error(old_m, e))
        },
    }
}

/// Everything a count query answers: the stored count exactly when a record
/// is stored, the read's error otherwise.
pub open spec fn query_post(
    m: Map<Seq<u8>, Seq<u8>>,
    r: Result<GetCountResponse, ContractError>,
) -> bool {
    match r {
        Ok(resp) => stored_state(m) is Some && resp.count as int == stored_state(m)->Some_0.count,
        Err(e) => slot_error(m, e),
    }
}

/// Create the one record: the caller becomes the immutable owner and the
/// given count the starting value.  Also tags the store for upgrade tooling.
pub fn instantiate(storage: &mut MemoryStorage, sender: &str, msg: InstantiateMsg) -> (r: Result<
    Response,
    ContractError,
>)
    ensures
        init_post(
            storage_contents(*old(storage)),
            storage_contents(*final(storage)),
            sender,
            msg.count,
            res_view(r),
        ),
{
    let _tagged = write_version_tag(storage, "crates.io:cwtemplate", "0.1.0");
    let state = State { count: msg.count, owner: sender.as_bytes_vec() };
    save(storage, &state);
    let count_str = i32_string(msg.count);
    let resp = Response::new().add_attribute("method", "instantiate").add_attribute(
        "owner",
        sender,
    ).add_attribute("count", count_str.as_str());
    proof {
        assert(state@ =~= (StateV { count: msg.count as int, owner: sender.spec_bytes() }));
        assert(resp@ =~= seq![
            attr("method"@, "instantiate"@),
            attr("owner"@, sender@),
            attr("count"@, i32_chars(msg.count as int)),
        ]);
    }
    Ok(resp)
}

/// Dispatch a mutating operation.
pub fn execute(storage: &mut MemoryStorage, sender: &str, msg: ExecuteMsg) -> (r: Result<
    Response,
    ContractError,
>)
    ensures
        match msg {
            ExecuteMsg::Increment => increment_post(
                storage_contents(*old(storage)),
                storage_contents(*final(storage)),
                res_view(r),
            ),
            ExecuteMsg::Reset { count } => reset_post(
                storage_contents(*old(storage)),
                storage_contents(*final(storage)),
                sender,
                count,
                res_view(r),
            ),
        },
{
    match msg {
        ExecuteMsg::Increment => try_increment(storage),
        ExecuteMsg::Reset { count } => try_reset(storage, sender, count),
    }
}

/// Atomically load the record, add one to its count (saturating at
/// `i32::MAX`), and persist it; with no record readable, nothing is written.
pub fn try_increment(storage: &mut MemoryStorage) -> (r: Result<Response, ContractError>)
    ensures
        increment_post(
            storage_contents(*old(storage)),
            storage_contents(*final(storage)),
            res_view(r),
        ),
{
    let state = match load(storage) {
        Ok(s) => s,
        Err(e) => {
            return Err(e);
        },
    };
    let new_count: i32 = if state.count == i32::MAX {
        i32::MAX
    } else {
        state.count + 1
    };
    let new_state = State { count: new_count, owner: state.owner };
    save(storage, &new_state);
    let resp = Response::new().add_attribute("method", "try_increment");
    proof {
        assert(new_state@ =~= spec_increment(
            stored_state(storage_contents(*old(storage)))->Some_0,
        ));
        assert(resp@ =~= seq![attr("method"@, "try_increment"@)]);
    }
    Ok(resp)
}

/// Atomically load the record and, only when the caller is the owner, set
/// its count to the given value and persist it.  The authorization check
/// comes strictly before any write: an unauthorized caller changes nothing.
pub fn try_reset(storage: &mut MemoryStorage, sender: &str, count: i32) -> (r: Result<
    Response,
    ContractError,
>)
    ensures
        reset_post(
            storage_contents(*old(storage)),
            storage_contents(*final(storage)),
            sender,
            count,
            res_view(r),
        ),
{
    let state = match load(storage) {
        Ok(s) => s,
        Err(e) => {
            return Err(e);
        },
    };
    if !bytes_eq(state.owner.as_slice(), sender.as_bytes()) {
        return Err(ContractError::Unauthorized);
    }
    let new_state = State { count, owner: state.owner };
    save(storage, &new_state);
    let resp = Response::new().add_attribute("method", "try_reset");
    proof {
        assert(new_state@ =~= spec_reset(
            stored_state(storage_contents(*old(storage)))->Some_0,
            count as int,
        ));
        assert(resp@ =~= seq![attr("method"@, "try_reset"@)]);
    }
    Ok(resp)
}

/// Dispatch a read-only operation.
pub fn query(storage: &MemoryStorage, msg: QueryMsg) -> (r: Result<GetCountResponse, ContractError>)
    ensures
        match msg {
            QueryMsg::GetCount => query_post(storage_contents(*storage), r),
        },
{
    match msg {
        QueryMsg::GetCount => query_count(storage),
    }
}

/// Answer the stored count.
pub fn query_count(storage: &MemoryStorage) -> (r: Result<GetCountResponse, ContractError>)
    ensures
        query_post(storage_contents(*storage), r),
{
    match load(storage) {
        Ok(state) => Ok(GetCountResponse { count: state.count }),
        Err(e) => Err(e),
    }
}

/// Law: with nothing persisted yet — the store empty — reading the record
/// can only fail, and only with `NotFound`.
pub proof fn lemma_uninitialized_not_found(e: ContractError)
    ensures
        stored_state(Map::<Seq<u8>, Seq<u8>>::empty()) is None,
        slot_error(Map::<Seq<u8>, Seq<u8>>::empty(), e) <==> e == ContractError::NotFound,
{
}

/// Law: a run of increments composes step by step — with the store holding
/// the record after `n - 1` increments of `s0`, one more successful
/// increment leaves the record after `n` increments of `s0`, whose count is
/// exactly `s0.count + n` as long as the count stays in range.
pub proof fn lemma_increment_run(
    old_m: Map<Seq<u8>, Seq<u8>>,
    new_m: Map<Seq<u8>, Seq<u8>>,
    attrs: Seq<AttrV>,
    s0: StateV,
    n: nat,
)
    requires
        n >= 1,
        s0.count + n <= i32::MAX as int,
        stored_state(old_m) == Some(iter_increment(s0, (n - 1) as nat)),
        increment_post(old_m, new_m, Ok(attrs)),
    ensures
        stored_state(new_m) == Some(iter_increment(s0, n)),
        iter_increment(s0, n).count == s0.count + n,
{
    lemma_increment_exact(s0, (n - 1) as nat);
    lemma_increment_exact(s0, n);
    assert(iter_increment(s0, n) == spec_increment(iter_increment(s0, (n - 1) as nat)));
}

} // verus!
