//! Payload coding: readings travel as their raw 64-bit patterns, eight
//! bytes each, least significant byte first.

use vstd::prelude::*;
use vstd::bytes::{
    lemma_auto_spec_u64_to_from_le_bytes, spec_u64_from_le_bytes, spec_u64_to_le_bytes,
    u64_from_le_bytes, u64_to_le_bytes,
};
use vstd::slice::slice_subrange;

verus! {

/// The bytes of a sequence of readings: eight per reading, in order.
pub open spec fn encoded(values: Seq<u64>) -> Seq<u8>
    decreases values.len(),
{
    if values.len() == 0 {
        Seq::empty()
    } else {
        encoded(values.drop_last()) + spec_u64_to_le_bytes(values.last())
    }
}

/// The readings of a payload: one per full group of eight bytes. A
/// trailing group of fewer bytes is dropped.
pub open spec fn decoded(bytes: Seq<u8>) -> Seq<u64> {
    Seq::new(
        (bytes.len() / 8) as nat,
        |i: int| spec_u64_from_le_bytes(bytes.subrange(8 * i, 8 * i + 8)),
    )
}

/// A payload of `n` readings has `8 * n` bytes, and its `i`-th group of
/// eight is the `i`-th reading.
pub proof fn lemma_encoded_groups(values: Seq<u64>)
    ensures
        encoded(values).len() == 8 * values.len(),
        forall|i: int|
            0 <= i < values.len() ==> #[trigger] encoded(values).subrange(8 * i, 8 * i + 8)
                == spec_u64_to_le_bytes(values[i]),
    decreases values.len(),
{
    lemma_auto_spec_u64_to_from_le_bytes();
    if values.len() > 0 {
        let front = values.drop_last();
        lemma_encoded_groups(front);
        let all = encoded(values);
        assert forall|i: int| 0 <= i < values.len() implies #[trigger] all.subrange(
            8 * i,
            8 * i + 8,
        ) == spec_u64_to_le_bytes(values[i]) by {
            if i < front.len() {
                assert(all.subrange(8 * i, 8 * i + 8) =~= encoded(front).subrange(
                    8 * i,
                    8 * i + 8,
                ));
                assert(front[i] == values[i]);
            } else {
                assert(all.subrange(8 * i, 8 * i + 8) =~= spec_u64_to_le_bytes(values.last()));
            }
        }
    }
}

/// Decoding undoes encoding.
pub proof fn lemma_decode_encode(values: Seq<u64>)
    ensures
        decoded(encoded(values)) == values,
{
    lemma_encoded_groups(values);
    lemma_auto_spec_u64_to_from_le_bytes();
    assert(decoded(encoded(values)) =~= values);
}

/// Encodes readings into a payload.
pub fn encode_payload(values: &Vec<u64>) -> (payload: Vec<u8>)
    ensures
        payload@ == encoded(values@),
        payload@.len() == 8 * values@.len(),
{
    let mut payload: Vec<u8> = Vec::new();
    let mut i: usize = 0;
    while i < values.len()
        invariant
            i <= values.len(),
            payload@ == encoded(values@.subrange(0, i as int)),
        decreases values.len() - i,
    {
        let mut bytes = u64_to_le_bytes(values[i]);
        proof {
            let next = values@.subrange(0, i as int + 1);
            assert(next.drop_last() =~= values@.subrange(0, i as int));
            assert(next.last() == values@[i as int]);
        }
        payload.append(&mut bytes);
        i += 1;
    }
    proof {
        assert(values@.subrange(0, values@.len() as int) =~= values@);
        lemma_encoded_groups(values@);
    }
    payload
}

/// Decodes a payload into readings. Only full groups of eight bytes
/// count.
pub fn decode_payload(payload: &Vec<u8>) -> (values: Vec<u64>)
    ensures
        values@ == decoded(payload@),
{
    let groups: usize = payload.len() / 8;
    let mut values: Vec<u64> = Vec::new();
    let mut i: usize = 0;
    while i < groups
        invariant
            i <= groups,
            groups == payload@.len() / 8,
            8 * groups <= payload.len(),
            values@.len() == i,
            forall|k: int|
                0 <= k < i ==> values@[k] == spec_u64_from_le_bytes(
                    payload@.subrange(8 * k, 8 * k + 8),
                ),
        decreases groups - i,
    {
        let chunk = slice_subrange(payload.as_slice(), 8 * i, 8 * i + 8);
        values.push(u64_from_le_bytes(chunk));
        i += 1;
    }
    assert(values@ =~= decoded(payload@));
    values
}

} // verus!
