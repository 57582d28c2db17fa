//! Reading fixed-width numbers out of raw bytes.
//!
//! A byte sequence is cut into consecutive chunks of one sample's width and
//! every chunk is read as a little-endian number. Bytes at the end that do
//! not fill a whole chunk are dropped.

use vstd::arithmetic::div_mod::lemma_fundamental_div_mod_converse;
use vstd::prelude::*;

verus! {

/// The number that `chunk` denotes when its first byte is the least
/// significant one. Meant for chunks of one to four bytes.
pub open spec fn unsigned_le(chunk: Seq<u8>) -> int
    decreases chunk.len(),
{
    if chunk.len() == 0 {
        0
    } else {
        chunk[0] as int + 256 * unsigned_le(chunk.drop_first())
    }
}

/// Reads the unsigned number `value`, which fits in `bits` bits, as a two's
/// complement number of that many bits.
pub open spec fn twos_complement(value: int, bits: nat) -> int {
    if value < vstd::arithmetic::power2::pow2((bits - 1) as nat) {
        value
    } else {
        value - vstd::arithmetic::power2::pow2(bits)
    }
}

/// A numeric sample type that can be read from little-endian bytes.
pub trait LittleEndian: Copy {
    /// How many bytes one value takes.
    spec fn spec_width() -> nat;

    /// The value that a chunk of `spec_width()` bytes denotes.
    spec fn spec_from_le_bytes(chunk: Seq<u8>) -> Self;

    /// How many bytes one value takes.
    fn width() -> (width: usize)
        ensures
            width == Self::spec_width(),
            width > 0,
    ;

    /// Reads the value that starts at `bytes[start]`.
    fn read_le(bytes: &[u8], start: usize) -> (value: Self)
        requires
            start + Self::spec_width() <= bytes@.len(),
        ensures
            value == Self::spec_from_le_bytes(
                bytes@.subrange(start as int, start + Self::spec_width()),
            ),
    ;
}

/// What `unsigned_le` comes to on a chunk of one, two and four bytes.
pub proof fn lemma_unsigned_le_unfold(chunk: Seq<u8>)
    ensures
        chunk.len() == 1 ==> unsigned_le(chunk) == chunk[0] as int,
        chunk.len() == 2 ==> unsigned_le(chunk) == chunk[0] as int + 256 * (chunk[1] as int),
        chunk.len() == 4 ==> unsigned_le(chunk) == chunk[0] as int + 256 * (chunk[1] as int) + 65536
            * (chunk[2] as int) + 16777216 * (chunk[3] as int),
{
    reveal_with_fuel(unsigned_le, 5);
    if chunk.len() >= 1 {
        let rest1 = chunk.drop_first();
        if chunk.len() >= 2 {
            let rest2 = rest1.drop_first();
            assert(rest1[0] == chunk[1]);
            if chunk.len() == 4 {
                let rest3 = rest2.drop_first();
                assert(rest2[0] == chunk[2]);
                assert(rest3[0] == chunk[3]);
            }
        }
    }
}

/// The powers of two that the sample widths of this module need.
pub proof fn lemma_sample_powers()
    ensures
        vstd::arithmetic::power2::pow2(7) == 128,
        vstd::arithmetic::power2::pow2(8) == 256,
        vstd::arithmetic::power2::pow2(15) == 32768,
        vstd::arithmetic::power2::pow2(16) == 65536,
        vstd::arithmetic::power2::pow2(31) == 2147483648,
        vstd::arithmetic::power2::pow2(32) == 4294967296,
{
    vstd::arithmetic::power2::lemma2_to64();
}

impl LittleEndian for u8 {
    open spec fn spec_width() -> nat {
        1
    }

    open spec fn spec_from_le_bytes(chunk: Seq<u8>) -> u8 {
        unsigned_le(chunk) as u8
    }

    fn width() -> (width: usize) {
        1
    }

    fn read_le(bytes: &[u8], start: usize) -> (value: u8) {
        proof {
            lemma_unsigned_le_unfold(bytes@.subrange(start as int, start + 1));
        }
        bytes[start]
    }
}

impl LittleEndian for i8 {
    open spec fn spec_width() -> nat {
        1
    }

    open spec fn spec_from_le_bytes(chunk: Seq<u8>) -> i8 {
        twos_complement(unsigned_le(chunk), 8) as i8
    }

    fn width() -> (width: usize) {
        1
    }

    fn read_le(bytes: &[u8], start: usize) -> (value: i8) {
        proof {
            lemma_unsigned_le_unfold(bytes@.subrange(start as int, start + 1));
            lemma_sample_powers();
        }
        let raw: u8 = bytes[start];
        if raw < 128 {
            raw as i8
        } else {
            (raw as i16 - 256) as i8
        }
    }
}

impl LittleEndian for u16 {
    open spec fn spec_width() -> nat {
        2
    }

    open spec fn spec_from_le_bytes(chunk: Seq<u8>) -> u16 {
        unsigned_le(chunk) as u16
    }

    fn width() -> (width: usize) {
        2
    }

    fn read_le(bytes: &[u8], start: usize) -> (value: u16) {
        proof {
            lemma_unsigned_le_unfold(bytes@.subrange(start as int, start + 2));
        }
        let b0: u16 = bytes[start] as u16;
        let b1: u16 = bytes[start + 1] as u16;
        b0 + 256 * b1
    }
}

impl LittleEndian for i16 {
    open spec fn spec_width() -> nat {
        2
    }

    open spec fn spec_from_le_bytes(chunk: Seq<u8>) -> i16 {
        twos_complement(unsigned_le(chunk), 16) as i16
    }

    fn width() -> (width: usize) {
        2
    }

    fn read_le(bytes: &[u8], start: usize) -> (value: i16) {
        proof {
            lemma_unsigned_le_unfold(bytes@.subrange(start as int, start + 2));
            lemma_sample_powers();
        }
        let b0: i32 = bytes[start] as i32;
        let b1: i32 = bytes[start + 1] as i32;
        let raw: i32 = b0 + 256 * b1;
        if raw < 32768 {
            raw as i16
        } else {
            (raw - 65536) as i16
        }
    }
}

impl LittleEndian for u32 {
    open spec fn spec_width() -> nat {
        4
    }

    open spec fn spec_from_le_bytes(chunk: Seq<u8>) -> u32 {
        unsigned_le(chunk) as u32
    }

    fn width() -> (width: usize) {
        4
    }

    fn read_le(bytes: &[u8], start: usize) -> (value: u32) {
        proof {
            lemma_unsigned_le_unfold(bytes@.subrange(start as int, start + 4));
        }
        let b0: u32 = bytes[start] as u32;
        let b1: u32 = bytes[start + 1] as u32;
        let b2: u32 = bytes[start + 2] as u32;
        let b3: u32 = bytes[start + 3] as u32;
        b0 + 256 * b1 + 65536 * b2 + 16777216 * b3
    }
}

impl LittleEndian for i32 {
    open spec fn spec_width() -> nat {
        4
    }

    open spec fn spec_from_le_bytes(chunk: Seq<u8>) -> i32 {
        twos_complement(unsigned_le(chunk), 32) as i32
    }

    fn width() -> (width: usize) {
        4
    }

    fn read_le(bytes: &[u8], start: usize) -> (value: i32) {
        proof {
            lemma_unsigned_le_unfold(bytes@.subrange(start as int, start + 4));
            lemma_sample_powers();
        }
        let b0: i64 = bytes[start] as i64;
        let b1: i64 = bytes[start + 1] as i64;
        let b2: i64 = bytes[start + 2] as i64;
        let b3: i64 = bytes[start + 3] as i64;
        let raw: i64 = b0 + 256 * b1 + 65536 * b2 + 16777216 * b3;
        if raw < 2147483648 {
            raw as i32
        } else {
            (raw - 4294967296) as i32
        }
    }
}

/// The `index`-th chunk of `width` bytes in `bytes`.
pub open spec fn chunk_at(bytes: Seq<u8>, width: nat, index: int) -> Seq<u8> {
    bytes.subrange(index * width, index * width + width)
}

/// The samples that `bytes` holds: one for every whole chunk, in order.
pub open spec fn decoded<T: LittleEndian>(bytes: Seq<u8>) -> Seq<T> {
    Seq::new(
        bytes.len() / T::spec_width(),
        |index: int| T::spec_from_le_bytes(chunk_at(bytes, T::spec_width(), index)),
    )
}

/// Reads `bytes` as a sequence of little-endian values of type `T`.
pub fn to_type_little_endian<T: LittleEndian>(bytes: &[u8]) -> (samples: Vec<T>)
    ensures
        samples@ == decoded::<T>(bytes@),
{
    let width: usize = T::width();
    let len: usize = bytes.len();
    let mut samples: Vec<T> = Vec::new();
    let mut at: usize = 0;
    proof {
        assert(0 * width == 0) by (nonlinear_arith);
    }
    while len - at >= width
        invariant
            width == T::spec_width(),
            width > 0,
            len == bytes@.len(),
            at <= len,
            at == samples@.len() * width,
            forall|index: int|
                0 <= index < samples@.len() ==> samples@[index] == T::spec_from_le_bytes(
                    chunk_at(bytes@, T::spec_width(), index),
                ),
        decreases len - at,
    {
        let value: T = T::read_le(bytes, at);
        proof {
            assert((samples@.len() + 1) * width == samples@.len() * width + width)
                by (nonlinear_arith);
        }
        samples.push(value);
        at = at + width;
    }
    proof {
        let count = samples@.len() as int;
        assert(count * width == width * count) by (nonlinear_arith);
        lemma_fundamental_div_mod_converse(len as int, width as int, count, len - at);
        assert(samples@ =~= decoded::<T>(bytes@));
    }
    samples
}

/// Bytes at the end that do not fill a whole chunk take no part in the
/// result: cutting them off decodes to the same samples, one for every
/// whole chunk.
pub proof fn lemma_decoded_drops_remainder<T: LittleEndian>(bytes: Seq<u8>, width: nat)
    requires
        width == T::spec_width(),
        width > 0,
    ensures
        decoded::<T>(bytes).len() == bytes.len() / width,
        decoded::<T>(bytes.take(bytes.len() - bytes.len() % width)) == decoded::<T>(bytes),
{
    let count = (bytes.len() / width) as int;
    let whole = bytes.take(bytes.len() - bytes.len() % width);
    vstd::arithmetic::div_mod::lemma_fundamental_div_mod(bytes.len() as int, width as int);
    assert(whole.len() == width * count);
    assert(count * width == width * count) by (nonlinear_arith);
    lemma_fundamental_div_mod_converse(whole.len() as int, width as int, count, 0);
    assert forall|index: int| 0 <= index < count implies chunk_at(whole, width, index) == chunk_at(
        bytes,
        width,
        index,
    ) by {
        assert(index * width + width <= count * width) by (nonlinear_arith)
            requires
                0 <= index < count,
                width > 0,
        ;
        assert(0 <= index * width) by (nonlinear_arith)
            requires
                0 <= index,
                width > 0,
        ;
        assert(chunk_at(whole, width, index) =~= chunk_at(bytes, width, index));
    }
    assert(decoded::<T>(whole) =~= decoded::<T>(bytes));
}

} // verus!
