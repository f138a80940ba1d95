use vstd::prelude::*;
use vstd::string::StringSliceAdditionalSpecFns;

use cosmwasm_std::MemoryStorage;

use crate::codec::{decode_state, decode_state_vec, encode_state, encode_state_vec,
    lemma_codec_round_trip};
use crate::error::ContractError;
use crate::state::{State, StateV};

verus! {

#[verifier::external_type_specification]
#[verifier::external_body]
pub struct ExMemoryStorage(MemoryStorage);

/// What the host key-value store holds: raw bytes keyed by raw bytes.
pub uninterp spec fn storage_contents(s: MemoryStorage) -> Map<Seq<u8>, Seq<u8>>;

/// The fixed key of the record slot.
pub open spec fn state_key() -> Seq<u8> {
    "state".spec_bytes()
}

/// The fixed key under which the version-tagging helper writes.
pub open spec fn version_key() -> Seq<u8> {
    "contract_info".spec_bytes()
}

/// The record the store holds, if any: the bytes of the record slot,
/// decoded.
pub open spec fn stored_state(m: Map<Seq<u8>, Seq<u8>>) -> Option<StateV> {
    if m.contains_key(state_key()) {
        decode_state(m[state_key()])
    } else {
        None
    }
}

/// Which error reading the record slot of `m` gives: `NotFound` exactly when
/// the slot is absent, the opaque host error exactly when it holds bytes
/// that are not a record.
pub open spec fn slot_error(m: Map<Seq<u8>, Seq<u8>>, e: ContractError) -> bool {
    match e {
        ContractError::NotFound => !m.contains_key(state_key()),
        ContractError::Std => m.contains_key(state_key()) && decode_state(m[state_key()]) is None,
        ContractError::Unauthorized => false,
    }
}

/// Relies on `<MemoryStorage as cosmwasm_std::Storage>::get`: returns a copy
/// of the value stored under the key, `None` when the key is absent.
#[verifier::external_body]
fn storage_get(s: &MemoryStorage, key: &[u8]) -> (r: Option<Vec<u8>>)
    ensures
        match r {
            Some(v) => storage_contents(*s).contains_key(key@) && storage_contents(*s)[key@]
                == v@,
            None => !storage_contents(*s).contains_key(key@),
        },
{
    cosmwasm_std::Storage::get(s, key)
}

/// Relies on `<MemoryStorage as cosmwasm_std::Storage>::set`: stores the
/// value under the key, replacing any previous value.  It panics on an
/// empty value, so an empty value is excluded here; record images are never
/// empty.
#[verifier::external_body]
fn storage_set(s: &mut MemoryStorage, key: &[u8], value: &[u8])
    requires
        value@.len() > 0,
    ensures
        storage_contents(*final(s)) == storage_contents(*old(s)).insert(key@, value@),
{
    cosmwasm_std::Storage::set(s, key, value)
}

/// The bytes cw2 stores for a contract-name / version pair: its JSON image,
/// a function of the two strings alone.
pub uninterp spec fn version_tag_bytes(name: Seq<char>, version: Seq<char>) -> Seq<u8>;

/// Relies on `cw2::set_contract_version`: serializes a contract-name /
/// version pair — JSON of string data, which cannot fail and is never empty
/// — and stores it under cw2's fixed key `"contract_info"`.  It always
/// succeeds.
#[verifier::external_body]
pub(crate) fn write_version_tag(s: &mut MemoryStorage, name: &str, version: &str) -> (r: bool)
    ensures
        r,
        storage_contents(*final(s)) == storage_contents(*old(s)).insert(
            version_key(),
            version_tag_bytes(name@, version@),
        ),
{
    cw2::set_contract_version(s, name, version).is_ok()
}

fn record_key() -> (r: &'static [u8])
    ensures
        r@ == state_key(),
{
    "state".as_bytes()
}

/// Read the persisted record; fails with `NotFound` when none has been
/// persisted yet.
pub fn load(storage: &MemoryStorage) -> (r: Result<State, ContractError>)
    ensures
        match r {
            Ok(s) => stored_state(storage_contents(*storage)) == Some(s@),
            Err(e) => slot_error(storage_contents(*storage), e),
        },
{
    let key = record_key();
    match storage_get(storage, key) {
        None => Err(ContractError::NotFound),
        Some(bytes) => match decode_state_vec(bytes.as_slice()) {
            Some(s) => Ok(s),
            None => Err(ContractError::Std),
        },
    }
}

/// Persist the record, replacing the slot's previous contents.
pub fn save(storage: &mut MemoryStorage, state: &State)
    ensures
        storage_contents(*final(storage)) == storage_contents(*old(storage)).insert(
            state_key(),
            encode_state(state@),
        ),
        stored_state(storage_contents(*final(storage))) == Some(state@),
{
    let key = record_key();
    let bytes = encode_state_vec(state);
    storage_set(storage, key, bytes.as_slice());
    proof {
        lemma_codec_round_trip(state@);
    }
}

/// Law: loading finds exactly the record last persisted, whatever the store
/// held before.
pub proof fn lemma_save_then_load(m: Map<Seq<u8>, Seq<u8>>, s: StateV)
    requires
        i32::MIN as int <= s.count <= i32::MAX as int,
    ensures
        stored_state(m.insert(state_key(), encode_state(s))) == Some(s),
{
    lemma_codec_round_trip(s);
}

} // verus!
