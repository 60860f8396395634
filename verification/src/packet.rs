//! Game packets: an opcode byte and a payload whose numbers are written
//! little-endian, with strings prefixed by their byte length (two bytes for
//! ordinary strings, one byte for short "sbyte" strings).

use vstd::prelude::*;
use vstd::string::StringSliceAdditionalSpecFns;

verus! {

/// The two little-endian bytes of a number from 0 to 65535.
pub open spec fn le2(v: int) -> Seq<u8> {
    seq![(v % 256) as u8, ((v / 256) % 256) as u8]
}

/// The four little-endian bytes of a number from 0 to 2^32 - 1.
pub open spec fn le4(v: int) -> Seq<u8> {
    seq![
        (v % 256) as u8,
        ((v / 256) % 256) as u8,
        ((v / 65536) % 256) as u8,
        ((v / 16777216) % 256) as u8,
    ]
}

/// The eight little-endian bytes of a number from 0 to 2^64 - 1.
pub open spec fn le8(v: int) -> Seq<u8> {
    le4(v % 4294967296) + le4(v / 4294967296)
}

/// The UTF-8 bytes of a text.
pub open spec fn utf8(text: Seq<char>) -> Seq<u8> {
    vstd::utf8::encode_utf8(text)
}

/// A signed number in two's complement over `bits` bits, as an unsigned
/// number.
pub open spec fn twos(v: int, bits: nat) -> int {
    if v < 0 {
        v + vstd::arithmetic::power2::pow2(bits)
    } else {
        v
    }
}

/// Four bytes read back as a little-endian number give those bytes again.
pub proof fn lemma_le4_of_bytes(b0: u8, b1: u8, b2: u8, b3: u8)
    ensures
        le4(b0 + 256 * b1 + 65536 * b2 + 16777216 * b3) == seq![b0, b1, b2, b3],
{
    let v: int = b0 + 256 * b1 + 65536 * b2 + 16777216 * b3;
    assert(v % 256 == b0 as int) by (nonlinear_arith)
        requires
            v == b0 + 256 * b1 + 65536 * b2 + 16777216 * b3,
            0 <= b0 < 256,
            0 <= b1 < 256,
            0 <= b2 < 256,
            0 <= b3 < 256,
    ;
    assert((v / 256) % 256 == b1 as int) by (nonlinear_arith)
        requires
            v == b0 + 256 * b1 + 65536 * b2 + 16777216 * b3,
            0 <= b0 < 256,
            0 <= b1 < 256,
            0 <= b2 < 256,
            0 <= b3 < 256,
    ;
    assert((v / 65536) % 256 == b2 as int) by (nonlinear_arith)
        requires
            v == b0 + 256 * b1 + 65536 * b2 + 16777216 * b3,
            0 <= b0 < 256,
            0 <= b1 < 256,
            0 <= b2 < 256,
            0 <= b3 < 256,
    ;
    assert((v / 16777216) % 256 == b3 as int) by (nonlinear_arith)
        requires
            v == b0 + 256 * b1 + 65536 * b2 + 16777216 * b3,
            0 <= b0 < 256,
            0 <= b1 < 256,
            0 <= b2 < 256,
            0 <= b3 < 256,
    ;
    assert(le4(v) =~= seq![b0, b1, b2, b3]);
}

/// A packet under construction: its opcode and the payload written so far.
#[derive(Debug, Clone, PartialEq, Eq)]
pub struct Packet {
    pub opcode: u8,
    pub data: Vec<u8>,
}

impl Packet {
    /// An empty packet with the given opcode.
    pub fn new(opcode: u8) -> (r: Packet)
        ensures
            r.opcode == opcode,
            r.data@ == Seq::<u8>::empty(),
    {
        Packet { opcode, data: Vec::new() }
    }

    /// Appends one byte.
    pub fn write_u8(&mut self, v: u8)
        ensures
            final(self).opcode == old(self).opcode,
            final(self).data@ == old(self).data@.push(v),
    {
        self.data.push(v);
    }

    /// Appends a 16-bit number, low byte first.
    pub fn write_u16(&mut self, v: u16)
        ensures
            final(self).opcode == old(self).opcode,
            final(self).data@ == old(self).data@ + le2(v as int),
    {
        self.data.push((v % 256) as u8);
        self.data.push((v / 256) as u8);
        assert(self.data@ =~= old(self).data@ + le2(v as int));
    }

    /// Appends a signed 16-bit number in two's complement, low byte first.
    pub fn write_i16(&mut self, v: i16)
        ensures
            final(self).opcode == old(self).opcode,
            final(self).data@ == old(self).data@ + le2(twos(v as int, 16)),
    {
        let u: u16 = if v < 0 {
            (v as i32 + 65536) as u16
        } else {
            v as u16
        };
        proof {
            vstd::arithmetic::power2::lemma2_to64();
        }
        self.write_u16(u);
    }

    /// Appends a 32-bit number, low byte first.
    pub fn write_u32(&mut self, v: u32)
        ensures
            final(self).opcode == old(self).opcode,
            final(self).data@ == old(self).data@ + le4(v as int),
    {
        self.data.push((v % 256) as u8);
        self.data.push(((v / 256) % 256) as u8);
        self.data.push(((v / 65536) % 256) as u8);
        self.data.push((v / 16777216) as u8);
        assert(self.data@ =~= old(self).data@ + le4(v as int));
    }

    /// Appends a signed 32-bit number in two's complement, low byte first.
    pub fn write_i32(&mut self, v: i32)
        ensures
            final(self).opcode == old(self).opcode,
            final(self).data@ == old(self).data@ + le4(twos(v as int, 32)),
    {
        let u: u32 = if v < 0 {
            (v as i64 + 4294967296) as u32
        } else {
            v as u32
        };
        proof {
            vstd::arithmetic::power2::lemma2_to64();
        }
        self.write_u32(u);
    }

    /// Appends a 64-bit number, low byte first.
    pub fn write_u64(&mut self, v: u64)
        ensures
            final(self).opcode == old(self).opcode,
            final(self).data@ == old(self).data@ + le8(v as int),
    {
        let lo = (v % 4294967296) as u32;
        let hi = (v / 4294967296) as u32;
        self.write_u32(lo);
        self.write_u32(hi);
        assert(self.data@ =~= old(self).data@ + le8(v as int));
    }

    /// Appends raw bytes.
    pub fn write_bytes(&mut self, bytes: &[u8])
        ensures
            final(self).opcode == old(self).opcode,
            final(self).data@ == old(self).data@ + bytes@,
    {
        let mut i: usize = 0;
        while i < bytes.len()
            invariant
                i <= bytes@.len(),
                self.opcode == old(self).opcode,
                self.data@ == old(self).data@ + bytes@.take(i as int),
            decreases bytes@.len() - i,
        {
            self.data.push(bytes[i]);
            proof {
                assert(bytes@.take(i + 1) =~= bytes@.take(i as int).push(bytes@[i as int]));
            }
            i = i + 1;
        }
        assert(bytes@.take(bytes@.len() as int) =~= bytes@);
    }

    /// Appends a string: its byte length in two bytes, then its bytes.
    pub fn write_string(&mut self, s: &str)
        requires
            s.spec_bytes().len() <= u16::MAX,
        ensures
            final(self).opcode == old(self).opcode,
            final(self).data@ == old(self).data@ + le2(s.spec_bytes().len() as int) + s.spec_bytes(),
    {
        let bytes = s.as_bytes();
        self.write_u16(bytes.len() as u16);
        self.write_bytes(bytes);
        assert(self.data@ =~= old(self).data@ + le2(s.spec_bytes().len() as int) + s.spec_bytes());
    }

    /// Appends a short string: its byte length in one byte, then its bytes.
    pub fn write_sbyte_string(&mut self, s: &str)
        requires
            s.spec_bytes().len() <= u8::MAX,
        ensures
            final(self).opcode == old(self).opcode,
            final(self).data@ == old(self).data@ + seq![s.spec_bytes().len() as u8] + s.spec_bytes(),
    {
        let bytes = s.as_bytes();
        self.write_u8(bytes.len() as u8);
        self.write_bytes(bytes);
        assert(self.data@ =~= old(self).data@ + seq![s.spec_bytes().len() as u8] + s.spec_bytes());
    }

    /// The write position: the payload length so far.
    pub fn wpos(&self) -> (r: usize)
        ensures
            r == self.data@.len(),
    {
        self.data.len()
    }

    /// Overwrites two payload bytes at `offset` with a 16-bit number, low
    /// byte first.
    pub fn put_u16_at(&mut self, offset: usize, v: u16)
        requires
            offset + 2 <= old(self).data@.len(),
        ensures
            final(self).opcode == old(self).opcode,
            final(self).data@ == old(self).data@.update(offset as int, le2(v as int)[0]).update(
                offset + 1,
                le2(v as int)[1],
            ),
    {
        let n = self.data.len();
        assert(offset + 2 <= n);
        self.data.set(offset, (v % 256) as u8);
        self.data.set(offset + 1, (v / 256) as u8);
    }
}

/// A cursor over a received payload.
pub struct PacketReader<'a> {
    data: &'a [u8],
    pos: usize,
}

impl<'a> PacketReader<'a> {
    /// The payload that is read.
    pub closed spec fn bytes(&self) -> Seq<u8> {
        self.data@
    }

    /// How many bytes were read.
    pub closed spec fn position(&self) -> int {
        self.pos as int
    }

    /// The reader stays within its payload.
    pub closed spec fn wf(&self) -> bool {
        self.pos <= self.data@.len()
    }

    /// A reader stands within its payload.
    pub proof fn lemma_position(&self)
        requires
            self.wf(),
        ensures
            0 <= self.position() <= self.bytes().len(),
    {
    }

    /// A reader at the start of `data`.
    pub fn new(data: &'a [u8]) -> (r: PacketReader<'a>)
        ensures
            r.wf(),
            r.bytes() == data@,
            r.position() == 0,
    {
        PacketReader { data, pos: 0 }
    }

    /// The number of bytes not yet read.
    pub fn remaining(&self) -> (r: usize)
        requires
            self.wf(),
        ensures
            r == self.bytes().len() - self.position(),
    {
        self.data.len() - self.pos
    }

    /// Reads `n` bytes; `None`, and nothing consumed, when fewer remain.
    pub fn read_bytes(&mut self, n: usize) -> (r: Option<Vec<u8>>)
        requires
            old(self).wf(),
        ensures
            final(self).wf(),
            final(self).bytes() == old(self).bytes(),
            old(self).position() + n <= old(self).bytes().len() ==> (r matches Some(v) && v@
                == old(self).bytes().subrange(old(self).position(), old(self).position() + n)
                && final(self).position() == old(self).position() + n),
            old(self).position() + n > old(self).bytes().len() ==> r is None && final(self).position()
                == old(self).position(),
    {
        if n > self.data.len() - self.pos {
            return None;
        }
        let mut out: Vec<u8> = Vec::new();
        let start = self.pos;
        let len = self.data.len();
        let mut i: usize = 0;
        while i < n
            invariant
                len == self.data@.len(),
                start + n <= len,
                i <= n,
                self.pos == start,
                out@ == self.data@.subrange(start as int, start + i),
            decreases n - i,
        {
            out.push(self.data[start + i]);
            proof {
                assert(self.data@.subrange(start as int, start + i + 1) =~= self.data@.subrange(
                    start as int,
                    start + i,
                ).push(self.data@[start + i]));
            }
            i = i + 1;
        }
        self.pos = start + n;
        Some(out)
    }

    /// Reads one byte.
    pub fn read_u8(&mut self) -> (r: Option<u8>)
        requires
            old(self).wf(),
        ensures
            final(self).wf(),
            final(self).bytes() == old(self).bytes(),
            old(self).position() < old(self).bytes().len() ==> r == Some(
                old(self).bytes()[old(self).position()],
            ) && final(self).position() == old(self).position() + 1,
            old(self).position() >= old(self).bytes().len() ==> r is None && final(self).position()
                == old(self).position(),
    {
        if self.pos < self.data.len() {
            let b = self.data[self.pos];
            self.pos = self.pos + 1;
            Some(b)
        } else {
            None
        }
    }

    /// Reads a 16-bit number written low byte first.
    pub fn read_u16(&mut self) -> (r: Option<u16>)
        requires
            old(self).wf(),
        ensures
            final(self).wf(),
            final(self).bytes() == old(self).bytes(),
            old(self).position() + 2 <= old(self).bytes().len() ==> (r matches Some(v) && le2(v as int)
                == old(self).bytes().subrange(old(self).position(), old(self).position() + 2)
                && final(self).position() == old(self).position() + 2),
            old(self).position() + 2 > old(self).bytes().len() ==> r is None && final(self).position()
                == old(self).position(),
    {
        if self.data.len() - self.pos < 2 {
            return None;
        }
        let p = self.pos;
        let v: u16 = self.data[p] as u16 + self.data[p + 1] as u16 * 256;
        self.pos = p + 2;
        assert(le2(v as int) =~= self.data@.subrange(p as int, p + 2));
        Some(v)
    }

    /// Reads a 32-bit number written low byte first.
    pub fn read_u32(&mut self) -> (r: Option<u32>)
        requires
            old(self).wf(),
        ensures
            final(self).wf(),
            final(self).bytes() == old(self).bytes(),
            old(self).position() + 4 <= old(self).bytes().len() ==> (r matches Some(v) && le4(v as int)
                == old(self).bytes().subrange(old(self).position(), old(self).position() + 4)
                && final(self).position() == old(self).position() + 4),
            old(self).position() + 4 > old(self).bytes().len() ==> r is None && final(self).position()
                == old(self).position(),
    {
        if self.data.len() - self.pos < 4 {
            return None;
        }
        let p = self.pos;
        let b0 = self.data[p];
        let b1 = self.data[p + 1];
        let b2 = self.data[p + 2];
        let b3 = self.data[p + 3];
        let v: u32 = b0 as u32 + b1 as u32 * 256 + b2 as u32 * 65536 + b3 as u32 * 16777216;
        self.pos = p + 4;
        proof {
            lemma_le4_of_bytes(b0, b1, b2, b3);
            assert(self.data@.subrange(p as int, p + 4) =~= seq![b0, b1, b2, b3]);
        }
        Some(v)
    }

    /// Reads a signed 16-bit number in two's complement, low byte first.
    pub fn read_i16(&mut self) -> (r: Option<i16>)
        requires
            old(self).wf(),
        ensures
            final(self).wf(),
            final(self).bytes() == old(self).bytes(),
            old(self).position() + 2 <= old(self).bytes().len() ==> (r matches Some(v) && le2(twos(v as int, 16))
                == old(self).bytes().subrange(old(self).position(), old(self).position() + 2)
                && final(self).position() == old(self).position() + 2),
            old(self).position() + 2 > old(self).bytes().len() ==> r is None && final(self).position()
                == old(self).position(),
    {
        match self.read_u16() {
            Some(u) => {
                let v: i16 = if u >= 32768 {
                    (u as i32 - 65536) as i16
                } else {
                    u as i16
                };
                proof {
                    vstd::arithmetic::power2::lemma2_to64();
                }
                Some(v)
            },
            None => None,
        }
    }

    /// Reads a signed 32-bit number in two's complement, low byte first.
    pub fn read_i32(&mut self) -> (r: Option<i32>)
        requires
            old(self).wf(),
        ensures
            final(self).wf(),
            final(self).bytes() == old(self).bytes(),
            old(self).position() + 4 <= old(self).bytes().len() ==> (r matches Some(v) && le4(twos(v as int, 32))
                == old(self).bytes().subrange(old(self).position(), old(self).position() + 4)
                && final(self).position() == old(self).position() + 4),
            old(self).position() + 4 > old(self).bytes().len() ==> r is None && final(self).position()
                == old(self).position(),
    {
        match self.read_u32() {
            Some(u) => {
                let v: i32 = if u >= 2147483648 {
                    (u as i64 - 4294967296) as i32
                } else {
                    u as i32
                };
                proof {
                    vstd::arithmetic::power2::lemma2_to64();
                }
                Some(v)
            },
            None => None,
        }
    }

    /// Reads a 64-bit number written low byte first.
    pub fn read_u64(&mut self) -> (r: Option<u64>)
        requires
            old(self).wf(),
        ensures
            final(self).wf(),
            final(self).bytes() == old(self).bytes(),
            old(self).position() + 8 <= old(self).bytes().len() ==> (r matches Some(v) && le8(v as int)
                == old(self).bytes().subrange(old(self).position(), old(self).position() + 8)
                && final(self).position() == old(self).position() + 8),
            old(self).position() + 8 > old(self).bytes().len() ==> r is None && final(self).position()
                == old(self).position(),
    {
        if self.data.len() - self.pos < 8 {
            return None;
        }
        let ghost start = self.pos as int;
        let lo = self.read_u32();
        let hi = self.read_u32();
        match (lo, hi) {
            (Some(l), Some(h)) => {
                let v: u64 = l as u64 + h as u64 * 4294967296;
                assert(le8(v as int) =~= self.data@.subrange(start, start + 8)) by {
                    assert(v as int % 4294967296 == l);
                    assert(v as int / 4294967296 == h);
                    assert(self.data@.subrange(start, start + 8) =~= self.data@.subrange(start, start + 4)
                        + self.data@.subrange(start + 4, start + 8));
                }
                Some(v)
            },
            _ => None,
        }
    }

    /// Reads a string written with a two-byte length, as its bytes.
    pub fn read_string(&mut self) -> (r: Option<Vec<u8>>)
        requires
            old(self).wf(),
        ensures
            final(self).wf(),
            final(self).bytes() == old(self).bytes(),
            r matches Some(v) ==> v@.len() <= u16::MAX,
            r matches Some(v) ==> old(self).position() + 2 + v@.len() <= old(self).bytes().len()
                && le2(v@.len() as int) == old(self).bytes().subrange(
                old(self).position(),
                old(self).position() + 2,
            ) && v@ == old(self).bytes().subrange(
                old(self).position() + 2,
                old(self).position() + 2 + v@.len(),
            ) && final(self).position() == old(self).position() + 2 + v@.len(),
            r is None ==> final(self).position() == old(self).position() && !(old(self).position() + 2
                <= old(self).bytes().len() && old(self).position() + 2 + old(self).bytes()[old(self).position()]
                + 256 * old(self).bytes()[old(self).position() + 1] <= old(self).bytes().len()),
    {
        let start = self.pos;
        match self.read_u16() {
            Some(n) => match self.read_bytes(n as usize) {
                Some(v) => Some(v),
                None => {
                    self.pos = start;
                    None
                },
            },
            None => None,
        }
    }

    /// Reads a short string written with a one-byte length, as its bytes.
    pub fn read_sbyte_string(&mut self) -> (r: Option<Vec<u8>>)
        requires
            old(self).wf(),
        ensures
            final(self).wf(),
            final(self).bytes() == old(self).bytes(),
            r matches Some(v) ==> old(self).position() + 1 + v@.len() <= old(self).bytes().len()
                && v@.len() == old(self).bytes()[old(self).position()] && v@ == old(self).bytes().subrange(
                old(self).position() + 1,
                old(self).position() + 1 + v@.len(),
            ) && final(self).position() == old(self).position() + 1 + v@.len(),
            r is None ==> final(self).position() == old(self).position() && !(old(self).position()
                < old(self).bytes().len() && old(self).position() + 1 + old(self).bytes()[old(self).position()]
                <= old(self).bytes().len()),
    {
        let start = self.pos;
        match self.read_u8() {
            Some(n) => match self.read_bytes(n as usize) {
                Some(v) => Some(v),
                None => {
                    self.pos = start;
                    None
                },
            },
            None => None,
        }
    }
}

/// A number from 0 to 65535 is its low byte plus 256 times its high byte.
pub proof fn lemma_le2_value(v: int)
    requires
        0 <= v < 65536,
    ensures
        v == le2(v)[0] + 256 * le2(v)[1],
{
    assert(v == 256 * ((v / 256) % 256) + v % 256) by (nonlinear_arith)
        requires
            0 <= v < 65536,
    ;
}

/// A number from 0 to 2^32 - 1 is the sum of its bytes, each times its
/// power of 256.
pub proof fn lemma_le4_value(v: int)
    requires
        0 <= v < 4294967296,
    ensures
        v == le4(v)[0] + 256 * le4(v)[1] + 65536 * le4(v)[2] + 16777216 * le4(v)[3],
{
    assert(v == 16777216 * ((v / 16777216) % 256) + 65536 * ((v / 65536) % 256) + 256 * ((v / 256) % 256)
        + v % 256) by (nonlinear_arith)
        requires
            0 <= v < 4294967296,
    ;
}

/// A 16-bit number read back from the bytes that writing it produced is the
/// number written.
pub proof fn lemma_u16_round_trip(written: u16, read: u16)
    requires
        le2(read as int) == le2(written as int),
    ensures
        read == written,
{
    let (r, w) = (read as int, written as int);
    assert(le2(r)[0] == le2(w)[0] && le2(r)[1] == le2(w)[1]);
    assert(r == 256 * ((r / 256) % 256) + r % 256) by (nonlinear_arith)
        requires
            0 <= r < 65536,
    ;
    assert(w == 256 * ((w / 256) % 256) + w % 256) by (nonlinear_arith)
        requires
            0 <= w < 65536,
    ;
}

/// A 32-bit number read back from the bytes that writing it produced is the
/// number written.
pub proof fn lemma_u32_round_trip(written: u32, read: u32)
    requires
        le4(read as int) == le4(written as int),
    ensures
        read == written,
{
    let (r, w) = (read as int, written as int);
    assert(le4(r)[0] == le4(w)[0] && le4(r)[1] == le4(w)[1] && le4(r)[2] == le4(w)[2] && le4(r)[3]
        == le4(w)[3]);
    assert(r == 16777216 * ((r / 16777216) % 256) + 65536 * ((r / 65536) % 256) + 256 * ((r / 256) % 256)
        + r % 256) by (nonlinear_arith)
        requires
            0 <= r < 4294967296,
    ;
    assert(w == 16777216 * ((w / 16777216) % 256) + 65536 * ((w / 65536) % 256) + 256 * ((w / 256) % 256)
        + w % 256) by (nonlinear_arith)
        requires
            0 <= w < 4294967296,
    ;
}

/// A signed 32-bit number read back from the bytes that writing it produced
/// is the number written.
pub proof fn lemma_i32_round_trip(written: i32, read: i32)
    requires
        le4(twos(read as int, 32)) == le4(twos(written as int, 32)),
    ensures
        read == written,
{
    vstd::arithmetic::power2::lemma2_to64();
    let r = twos(read as int, 32);
    let w = twos(written as int, 32);
    assert(0 <= r < 4294967296 && 0 <= w < 4294967296);
    lemma_u32_round_trip(w as u32, r as u32);
}

/// A short string read back from the bytes that writing it produced has the
/// bytes written: the length byte and the bytes after it.
pub proof fn lemma_sbyte_string_round_trip(written: Seq<u8>, stream: Seq<u8>, at: int, read: Seq<u8>)
    requires
        written.len() <= u8::MAX,
        0 <= at,
        at + 1 + written.len() <= stream.len(),
        stream.subrange(at, at + 1 + written.len()) == seq![written.len() as u8] + written,
        at + 1 + read.len() <= stream.len(),
        read.len() == stream[at],
        read == stream.subrange(at + 1, at + 1 + read.len()),
    ensures
        read == written,
{
    assert(stream.subrange(at, at + 1 + written.len())[0] == stream[at]);
    assert(stream[at] == (seq![written.len() as u8] + written)[0]);
    assert(read.len() == written.len());
    assert(read =~= written) by {
        assert forall|k: int| 0 <= k < read.len() implies read[k] == written[k] by {
            assert(read[k] == stream[at + 1 + k]);
            assert(stream.subrange(at, at + 1 + written.len())[1 + k] == stream[at + 1 + k]);
        }
    }
}

} // verus!
