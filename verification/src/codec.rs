use vstd::prelude::*;

use crate::state::{State, StateV};

verus! {

/// Little-endian byte image of a 32-bit value.
pub open spec fn u32_le_bytes(u: u32) -> Seq<u8> {
    seq![
        (u & 0xff) as u8,
        ((u >> 8) & 0xff) as u8,
        ((u >> 16) & 0xff) as u8,
        ((u >> 24) & 0xff) as u8,
    ]
}

/// The 32-bit value read back from four little-endian bytes.
pub open spec fn u32_from_le_bytes(b: Seq<u8>) -> u32
    recommends
        b.len() == 4,
{
    ((b[0] as u32) | ((b[1] as u32) << 8) | ((b[2] as u32) << 16) | ((b[3] as u32) << 24)) as u32
}

/// The two's-complement bit image of a count.
pub open spec fn count_bits(c: int) -> u32
    recommends
        i32::MIN as int <= c <= i32::MAX as int,
{
    (c as i32) as u32
}

/// The byte image of a record in its slot: four little-endian count bytes,
/// then the owner bytes.
pub open spec fn encode_state(s: StateV) -> Seq<u8>
    recommends
        i32::MIN as int <= s.count <= i32::MAX as int,
{
    u32_le_bytes(count_bits(s.count)) + s.owner
}

/// The record read back from slot bytes; `None` when the bytes cannot hold
/// a count.
pub open spec fn decode_state(b: Seq<u8>) -> Option<StateV> {
    if b.len() >= 4 {
        Some(
            StateV {
                count: (u32_from_le_bytes(b.take(4)) as i32) as int,
                owner: b.skip(4),
            },
        )
    } else {
        None
    }
}

/// Law: decoding an encoded record gives the record back, for every count in
/// range and every owner.
pub proof fn lemma_codec_round_trip(s: StateV)
    requires
        i32::MIN as int <= s.count <= i32::MAX as int,
    ensures
        decode_state(encode_state(s)) == Some(s),
{
    let u = count_bits(s.count);
    let e = encode_state(s);
    assert(e.take(4) =~= u32_le_bytes(u));
    assert(e.skip(4) =~= s.owner);
    assert(((((u & 0xff) as u8) as u32) | ((((u >> 8) & 0xff) as u8) as u32) << 8 | ((((u
        >> 16) & 0xff) as u8) as u32) << 16 | ((((u >> 24) & 0xff) as u8) as u32) << 24) as u32
        == u) by (bit_vector);
    assert(u32_from_le_bytes(u32_le_bytes(u)) == u);
    let x = s.count as i32;
    assert((x as u32) as i32 == x) by (bit_vector);
    assert(decode_state(e)->Some_0 =~= s);
}

/// Encode a record for its slot.
pub fn encode_state_vec(s: &State) -> (r: Vec<u8>)
    ensures
        r@ == encode_state(s@),
{
    let u: u32 = #[verifier::truncate] (s.count as u32);
    let mut v: Vec<u8> = Vec::new();
    v.push((u & 0xff) as u8);
    v.push(((u >> 8) & 0xff) as u8);
    v.push(((u >> 16) & 0xff) as u8);
    v.push(((u >> 24) & 0xff) as u8);
    assert(v@ =~= u32_le_bytes(u));
    let mut i: usize = 0;
    while i < s.owner.len()
        invariant
            i <= s.owner@.len(),
            v@ =~= u32_le_bytes(u) + s.owner@.take(i as int),
        decreases s.owner@.len() - i,
    {
        v.push(s.owner[i]);
        proof {
            assert(v@ =~= u32_le_bytes(u) + s.owner@.take(i + 1));
        }
        i = i + 1;
    }
    proof {
        assert(s.owner@.take(s.owner@.len() as int) =~= s.owner@);
        assert(v@ =~= encode_state(s@));
    }
    v
}

/// Decode slot bytes back to a record.
pub fn decode_state_vec(b: &[u8]) -> (r: Option<State>)
    ensures
        match r {
            Some(s) => decode_state(b@) == Some(s@),
            None => decode_state(b@) is None,
        },
{
    if b.len() < 4 {
        return None;
    }
    let u: u32 = (b[0] as u32) | ((b[1] as u32) << 8) | ((b[2] as u32) << 16) | ((b[3] as u32)
        << 24);
    let count: i32 = #[verifier::truncate] (u as i32);
    let mut owner: Vec<u8> = Vec::new();
    let mut i: usize = 4;
    while i < b.len()
        invariant
            4 <= i <= b@.len(),
            b@.len() >= 4,
            owner@ =~= b@.subrange(4, i as int),
        decreases b@.len() - i,
    {
        owner.push(b[i]);
        proof {
            assert(owner@ =~= b@.subrange(4, i + 1));
        }
        i = i + 1;
    }
    proof {
        assert(b@.take(4) =~= seq![b@[0], b@[1], b@[2], b@[3]]);
        assert(owner@ =~= b@.skip(4));
    }
    Some(State { count, owner })
}

} // verus!
