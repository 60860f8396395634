//! Reading the fields of a client request in order, where a field that the
//! request is too short to hold reads as zero (or as an empty string) and
//! consumes nothing.

use vstd::prelude::*;
use crate::packet::{PacketReader, le2, le4, le8, twos, lemma_le2_value, lemma_le4_value};

verus! {

/// The byte at `p` and the position after it; zero and `p` when the
/// request ends before.
pub open spec fn field_u8(d: Seq<u8>, p: int) -> (u8, int) {
    if 0 <= p < d.len() {
        (d[p], p + 1)
    } else {
        (0, p)
    }
}

/// The unsigned value of the two bytes at `p`, low byte first.
pub open spec fn value2(d: Seq<u8>, p: int) -> int {
    d[p] + 256 * d[p + 1]
}

/// The unsigned value of the four bytes at `p`, low byte first.
pub open spec fn value4(d: Seq<u8>, p: int) -> int {
    d[p] + 256 * d[p + 1] + 65536 * d[p + 2] + 16777216 * d[p + 3]
}

/// A 16-bit field at `p` and the position after it.
pub open spec fn field_u16(d: Seq<u8>, p: int) -> (u16, int) {
    if 0 <= p && p + 2 <= d.len() {
        (value2(d, p) as u16, p + 2)
    } else {
        (0, p)
    }
}

/// A signed 16-bit field (two's complement) at `p` and the position after it.
pub open spec fn field_i16(d: Seq<u8>, p: int) -> (i16, int) {
    if 0 <= p && p + 2 <= d.len() {
        ((if value2(d, p) >= 32768 {
            value2(d, p) - 65536
        } else {
            value2(d, p)
        }) as i16, p + 2)
    } else {
        (0, p)
    }
}

/// A 32-bit field at `p` and the position after it.
pub open spec fn field_u32(d: Seq<u8>, p: int) -> (u32, int) {
    if 0 <= p && p + 4 <= d.len() {
        (value4(d, p) as u32, p + 4)
    } else {
        (0, p)
    }
}

/// A signed 32-bit field (two's complement) at `p` and the position after
/// it.
pub open spec fn field_i32(d: Seq<u8>, p: int) -> (i32, int) {
    if 0 <= p && p + 4 <= d.len() {
        ((if value4(d, p) >= 2147483648 {
            value4(d, p) - 4294967296
        } else {
            value4(d, p)
        }) as i32, p + 4)
    } else {
        (0, p)
    }
}

/// A 64-bit field at `p` (low four bytes first) and the position after it.
pub open spec fn field_u64(d: Seq<u8>, p: int) -> (u64, int) {
    if 0 <= p && p + 8 <= d.len() {
        ((value4(d, p) + 4294967296 * value4(d, p + 4)) as u64, p + 8)
    } else {
        (0, p)
    }
}

/// A short string at `p` (a length byte, then that many bytes) and the
/// position after it; empty and `p` when the request ends before.
pub open spec fn field_sbyte(d: Seq<u8>, p: int) -> (Seq<u8>, int) {
    if 0 <= p < d.len() && p + 1 + d[p] <= d.len() {
        (d.subrange(p + 1, p + 1 + d[p]), p + 1 + d[p])
    } else {
        (Seq::empty(), p)
    }
}

/// A string at `p` (a two-byte length, then that many bytes) and the
/// position after it; empty and `p` when the request ends before.
pub open spec fn field_string(d: Seq<u8>, p: int) -> (Seq<u8>, int) {
    if 0 <= p && p + 2 <= d.len() && p + 2 + value2(d, p) <= d.len() {
        (d.subrange(p + 2, p + 2 + value2(d, p)), p + 2 + value2(d, p))
    } else {
        (Seq::empty(), p)
    }
}

/// Reads a byte, or zero.
pub fn take_u8(r: &mut PacketReader) -> (v: u8)
    requires
        old(r).wf(),
    ensures
        final(r).wf(),
        final(r).bytes() == old(r).bytes(),
        (v, final(r).position()) == field_u8(old(r).bytes(), old(r).position()),
{
    proof {
        r.lemma_position();
    }
    match r.read_u8() {
        Some(b) => b,
        None => 0,
    }
}

/// Reads a 16-bit number, or zero.
pub fn take_u16(r: &mut PacketReader) -> (v: u16)
    requires
        old(r).wf(),
    ensures
        final(r).wf(),
        final(r).bytes() == old(r).bytes(),
        (v, final(r).position()) == field_u16(old(r).bytes(), old(r).position()),
{
    let ghost d = r.bytes();
    let ghost p = r.position();
    proof {
        r.lemma_position();
    }
    match r.read_u16() {
        Some(x) => {
            proof {
                lemma_le2_value(x as int);
                assert(le2(x as int)[0] == d.subrange(p, p + 2)[0]);
                assert(le2(x as int)[1] == d.subrange(p, p + 2)[1]);
            }
            x
        },
        None => 0,
    }
}

/// Reads a signed 16-bit number, or zero.
pub fn take_i16(r: &mut PacketReader) -> (v: i16)
    requires
        old(r).wf(),
    ensures
        final(r).wf(),
        final(r).bytes() == old(r).bytes(),
        (v, final(r).position()) == field_i16(old(r).bytes(), old(r).position()),
{
    let ghost d = r.bytes();
    let ghost p = r.position();
    proof {
        r.lemma_position();
    }
    match r.read_i16() {
        Some(x) => {
            proof {
                vstd::arithmetic::power2::lemma2_to64();
                let u = twos(x as int, 16);
                lemma_le2_value(u);
                assert(le2(u)[0] == d.subrange(p, p + 2)[0]);
                assert(le2(u)[1] == d.subrange(p, p + 2)[1]);
            }
            x
        },
        None => 0,
    }
}

/// Reads a 32-bit number, or zero.
pub fn take_u32(r: &mut PacketReader) -> (v: u32)
    requires
        old(r).wf(),
    ensures
        final(r).wf(),
        final(r).bytes() == old(r).bytes(),
        (v, final(r).position()) == field_u32(old(r).bytes(), old(r).position()),
{
    let ghost d = r.bytes();
    let ghost p = r.position();
    proof {
        r.lemma_position();
    }
    match r.read_u32() {
        Some(x) => {
            proof {
                lemma_le4_value(x as int);
                let s = d.subrange(p, p + 4);
                assert(le4(x as int)[0] == s[0] && le4(x as int)[1] == s[1] && le4(x as int)[2] == s[2]
                    && le4(x as int)[3] == s[3]);
            }
            x
        },
        None => 0,
    }
}

/// Reads a signed 32-bit number, or zero.
pub fn take_i32(r: &mut PacketReader) -> (v: i32)
    requires
        old(r).wf(),
    ensures
        final(r).wf(),
        final(r).bytes() == old(r).bytes(),
        (v, final(r).position()) == field_i32(old(r).bytes(), old(r).position()),
{
    let ghost d = r.bytes();
    let ghost p = r.position();
    proof {
        r.lemma_position();
    }
    match r.read_i32() {
        Some(x) => {
            proof {
                vstd::arithmetic::power2::lemma2_to64();
                let u = twos(x as int, 32);
                lemma_le4_value(u);
                let s = d.subrange(p, p + 4);
                assert(le4(u)[0] == s[0] && le4(u)[1] == s[1] && le4(u)[2] == s[2] && le4(u)[3] == s[3]);
            }
            x
        },
        None => 0,
    }
}

/// Reads a 64-bit number, or zero.
pub fn take_u64(r: &mut PacketReader) -> (v: u64)
    requires
        old(r).wf(),
    ensures
        final(r).wf(),
        final(r).bytes() == old(r).bytes(),
        (v, final(r).position()) == field_u64(old(r).bytes(), old(r).position()),
{
    let ghost d = r.bytes();
    let ghost p = r.position();
    proof {
        r.lemma_position();
    }
    match r.read_u64() {
        Some(x) => {
            proof {
                let lo = x as int % 4294967296;
                let hi = x as int / 4294967296;
                assert(x as int == lo + 4294967296 * hi);
                lemma_le4_value(lo);
                lemma_le4_value(hi);
                let s = d.subrange(p, p + 8);
                assert(le8(x as int) == le4(lo) + le4(hi));
                assert(le4(lo)[0] == s[0] && le4(lo)[1] == s[1] && le4(lo)[2] == s[2] && le4(lo)[3] == s[3]);
                assert(le4(hi)[0] == s[4] && le4(hi)[1] == s[5] && le4(hi)[2] == s[6] && le4(hi)[3] == s[7]);
            }
            x
        },
        None => 0,
    }
}

/// Reads a short string, or the empty string.
pub fn take_sbyte_string(r: &mut PacketReader) -> (v: Vec<u8>)
    requires
        old(r).wf(),
    ensures
        final(r).wf(),
        final(r).bytes() == old(r).bytes(),
        (v@, final(r).position()) == field_sbyte(old(r).bytes(), old(r).position()),
{
    proof {
        r.lemma_position();
    }
    match r.read_sbyte_string() {
        Some(v) => v,
        None => Vec::new(),
    }
}

/// Reads a string with a two-byte length, or the empty string.
pub fn take_string(r: &mut PacketReader) -> (v: Vec<u8>)
    requires
        old(r).wf(),
    ensures
        final(r).wf(),
        final(r).bytes() == old(r).bytes(),
        (v@, final(r).position()) == field_string(old(r).bytes(), old(r).position()),
{
    let ghost d = r.bytes();
    let ghost p = r.position();
    proof {
        r.lemma_position();
    }
    match r.read_string() {
        Some(v) => {
            proof {
                lemma_le2_value(v@.len() as int);
                let s = d.subrange(p, p + 2);
                assert(le2(v@.len() as int)[0] == s[0] && le2(v@.len() as int)[1] == s[1]);
            }
            v
        },
        None => Vec::new(),
    }
}

/// A byte written at `pre.len()` is read back there, and reading moves past
/// it.
pub proof fn lemma_field_u8_written(pre: Seq<u8>, b: u8, post: Seq<u8>)
    ensures
        field_u8(pre + seq![b] + post, pre.len() as int) == (b, pre.len() + 1int),
{
    assert((pre + seq![b] + post)[pre.len() as int] == b);
}

/// A 32-bit number written at `pre.len()` is read back there, and reading
/// moves past its four bytes.
pub proof fn lemma_field_u32_written(pre: Seq<u8>, v: u32, post: Seq<u8>)
    ensures
        field_u32(pre + le4(v as int) + post, pre.len() as int) == (v, pre.len() + 4int),
{
    let d = pre + le4(v as int) + post;
    let p = pre.len() as int;
    lemma_le4_value(v as int);
    assert(d[p] == le4(v as int)[0] && d[p + 1] == le4(v as int)[1] && d[p + 2] == le4(v as int)[2]
        && d[p + 3] == le4(v as int)[3]);
    assert(value4(d, p) == v as int);
}

} // verus!
