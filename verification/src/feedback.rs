//! The feedback-stream decoder: fixed 38-byte records, each a four-byte
//! big-endian timestamp, a two-byte length field and a 32-byte device
//! identifier.
use vstd::prelude::*;
use vstd::slice::slice_subrange;

use crate::identifier::{convert_to_token, spec_hex_str};
use crate::wire::{be32_val, spec_be32_val};

verus! {

/// How many whole records a byte stream holds; a trailing partial record
/// does not count.
pub open spec fn spec_record_count(data: Seq<u8>) -> int {
    data.len() as int / 38
}

/// The timestamp of the record at a given index: its first four bytes,
/// big-endian.
pub open spec fn spec_record_time(data: Seq<u8>, i: int) -> u32
    recommends
        0 <= i < spec_record_count(data),
{
    spec_be32_val(data.subrange(38 * i, 38 * i + 4))
}

/// The identifier bytes of the record at a given index: its last 32
/// bytes. The two bytes between timestamp and identifier are the record's
/// length field, not otherwise interpreted.
pub open spec fn spec_record_token(data: Seq<u8>, i: int) -> Seq<u8>
    recommends
        0 <= i < spec_record_count(data),
{
    data.subrange(38 * i + 6, 38 * i + 38)
}

/// Reads the 32-bit big-endian timestamp that opens a feedback record.
pub fn convert_to_timestamp(binary: &[u8]) -> (r: u32)
    requires
        binary@.len() >= 4,
    ensures
        r == spec_be32_val(binary@.subrange(0, 4)),
{
    let head = slice_subrange(binary, 0, 4);
    be32_val(head)
}

/// Decodes every whole 38-byte record of a feedback stream, in stream
/// order, as a timestamp and the hexadecimal text of the identifier.
/// Trailing bytes short of a whole record are the end-of-stream signal
/// and are dropped without error.
pub fn decode_feedback(data: &[u8]) -> (r: Vec<(u32, String)>)
    ensures
        r@.len() == spec_record_count(data@),
        forall|i: int|
            0 <= i < r@.len() ==> (#[trigger] r@[i]).0 == spec_record_time(data@, i) && r@[i].1@
                == spec_hex_str(spec_record_token(data@, i)),
{
    let n = data.len() / 38;
    proof {
        assert(38 * (data@.len() as int / 38) <= data@.len()) by (nonlinear_arith);
    }
    let mut out: Vec<(u32, String)> = Vec::new();
    let mut k: usize = 0;
    while k < n
        invariant
            n == data@.len() as int / 38,
            38 * n <= data@.len(),
            data@.len() <= usize::MAX,
            k <= n,
            out@.len() == k,
            forall|i: int|
                0 <= i < k ==> (#[trigger] out@[i]).0 == spec_record_time(data@, i) && out@[i].1@
                    == spec_hex_str(spec_record_token(data@, i)),
        decreases n - k,
    {
        proof {
            assert(38 * (k + 1) <= 38 * n) by (nonlinear_arith)
                requires
                    k < n,
            ;
        }
        let base = k * 38;
        let time_slice = slice_subrange(data, base, base + 4);
        let time = be32_val(time_slice);
        let token_slice = slice_subrange(data, base + 6, base + 38);
        let token = convert_to_token(token_slice);
        proof {
            assert(time_slice@ == data@.subrange(38 * (k as int), 38 * (k as int) + 4));
            assert(token_slice@ == data@.subrange(38 * (k as int) + 6, 38 * (k as int) + 38));
        }
        out.push((time, token));
        k = k + 1;
    }
    out
}

/// A stream of whole records decodes to exactly one entry per record, and
/// appending bytes short of a whole record changes nothing: the decoder
/// yields the records before the truncated tail and no error.
pub proof fn lemma_feedback_ignores_partial_tail(data: Seq<u8>, tail: Seq<u8>)
    requires
        data.len() % 38 == 0,
        tail.len() < 38,
    ensures
        spec_record_count(data + tail) == spec_record_count(data),
        forall|i: int|
            0 <= i < spec_record_count(data) ==> spec_record_time(data + tail, i)
                == spec_record_time(data, i) && spec_record_token(data + tail, i)
                == spec_record_token(data, i),
{
    let whole = data + tail;
    assert(whole.len() == data.len() + tail.len());
    assert(whole.len() / 38 == data.len() / 38) by (nonlinear_arith)
        requires
            data.len() % 38 == 0 && tail.len() < 38 && whole.len() == data.len() + tail.len(),
    ;
    assert forall|i: int| 0 <= i < spec_record_count(data) implies spec_record_time(whole, i)
        == spec_record_time(data, i) && spec_record_token(whole, i) == spec_record_token(
        data,
        i,
    ) by {
        assert(38 * i + 38 <= data.len()) by (nonlinear_arith)
            requires
                0 <= i < data.len() / 38 && data.len() % 38 == 0,
        ;
        assert(whole.subrange(38 * i, 38 * i + 4) =~= data.subrange(38 * i, 38 * i + 4));
        assert(whole.subrange(38 * i + 6, 38 * i + 38) =~= data.subrange(
            38 * i + 6,
            38 * i + 38,
        ));
    }
}

} // verus!
