//! Big-endian integers on the wire.
//!
//! Every multi-byte field of a frame is an unsigned integer written most
//! significant byte first. The spec functions here say what such a field is
//! worth and which bytes spell a value; the executable functions read and
//! write them, and the lemmas relate the two directions.

use vstd::prelude::*;

verus! {

/// The value of the two bytes of `s` that start at `at`.
pub open spec fn be16(s: Seq<u8>, at: int) -> int
    recommends
        0 <= at,
        at + 2 <= s.len(),
{
    s[at] as int * 256 + s[at + 1] as int
}

/// The value of the four bytes of `s` that start at `at`.
pub open spec fn be32(s: Seq<u8>, at: int) -> int
    recommends
        0 <= at,
        at + 4 <= s.len(),
{
    be16(s, at) * 65536 + be16(s, at + 2)
}

/// The value of the eight bytes of `s` that start at `at`.
pub open spec fn be64(s: Seq<u8>, at: int) -> int
    recommends
        0 <= at,
        at + 8 <= s.len(),
{
    be32(s, at) * 4294967296 + be32(s, at + 4)
}

/// The two bytes that spell `x`, for `0 <= x < 2^16`.
pub open spec fn bytes16(x: int) -> Seq<u8>
    recommends
        0 <= x < 65536,
{
    seq![(x / 256) as u8, (x % 256) as u8]
}

/// The four bytes that spell `x`, for `0 <= x < 2^32`.
pub open spec fn bytes32(x: int) -> Seq<u8>
    recommends
        0 <= x < 4294967296,
{
    bytes16(x / 65536) + bytes16(x % 65536)
}

/// The eight bytes that spell `x`, for `0 <= x < 2^64`.
pub open spec fn bytes64(x: int) -> Seq<u8>
    recommends
        0 <= x < 18446744073709551616,
{
    bytes32(x / 4294967296) + bytes32(x % 4294967296)
}

/// A two-byte field is always below 2^16.
pub proof fn lemma_be16_range(s: Seq<u8>, at: int)
    ensures
        0 <= be16(s, at) < 65536,
{
}

/// A four-byte field is always below 2^32.
pub proof fn lemma_be32_range(s: Seq<u8>, at: int)
    ensures
        0 <= be32(s, at) < 4294967296,
{
}

/// An eight-byte field is always below 2^64.
pub proof fn lemma_be64_range(s: Seq<u8>, at: int)
    ensures
        0 <= be64(s, at) < 18446744073709551616,
{
    lemma_be32_range(s, at);
    lemma_be32_range(s, at + 4);
}

/// Reading the bytes that spell `x` gives `x` back.
pub proof fn lemma_be16_of_bytes16(x: int)
    requires
        0 <= x < 65536,
    ensures
        bytes16(x).len() == 2,
        be16(bytes16(x), 0) == x,
{
}

/// Reading the bytes that spell `x` gives `x` back.
pub proof fn lemma_be32_of_bytes32(x: int)
    requires
        0 <= x < 4294967296,
    ensures
        bytes32(x).len() == 4,
        be32(bytes32(x), 0) == x,
{
    let hi = x / 65536;
    let lo = x % 65536;
    lemma_be16_of_bytes16(hi);
    lemma_be16_of_bytes16(lo);
    let s = bytes32(x);
    assert(s[0] == bytes16(hi)[0] && s[1] == bytes16(hi)[1]);
    assert(s[2] == bytes16(lo)[0] && s[3] == bytes16(lo)[1]);
}

/// Reading the bytes that spell `x` gives `x` back.
pub proof fn lemma_be64_of_bytes64(x: int)
    requires
        0 <= x < 18446744073709551616,
    ensures
        bytes64(x).len() == 8,
        be64(bytes64(x), 0) == x,
{
    let hi = x / 4294967296;
    let lo = x % 4294967296;
    lemma_be32_of_bytes32(hi);
    lemma_be32_of_bytes32(lo);
    let s = bytes64(x);
    assert(s.subrange(0, 4) =~= bytes32(hi));
    assert(s.subrange(4, 8) =~= bytes32(lo));
    assert(bytes32(hi).subrange(0, 4) =~= bytes32(hi));
    assert(bytes32(lo).subrange(0, 4) =~= bytes32(lo));
    lemma_be32_window(s, 0, bytes32(hi), 0);
    lemma_be32_window(s, 4, bytes32(lo), 0);
}

/// Two buffers that agree on a two-byte window agree on its value.
pub proof fn lemma_be16_window(a: Seq<u8>, i: int, b: Seq<u8>, j: int)
    requires
        0 <= i,
        i + 2 <= a.len(),
        0 <= j,
        j + 2 <= b.len(),
        a.subrange(i, i + 2) == b.subrange(j, j + 2),
    ensures
        be16(a, i) == be16(b, j),
{
    let x = a.subrange(i, i + 2);
    let y = b.subrange(j, j + 2);
    assert(a[i] == x[0] && a[i + 1] == x[1]);
    assert(b[j] == y[0] && b[j + 1] == y[1]);
}

/// A field's value depends only on the bytes under it: two buffers that
/// agree on a four-byte window agree on its value.
pub proof fn lemma_be32_window(a: Seq<u8>, i: int, b: Seq<u8>, j: int)
    requires
        0 <= i,
        i + 4 <= a.len(),
        0 <= j,
        j + 4 <= b.len(),
        a.subrange(i, i + 4) == b.subrange(j, j + 4),
    ensures
        be32(a, i) == be32(b, j),
{
    let x = a.subrange(i, i + 4);
    let y = b.subrange(j, j + 4);
    assert(a[i] == x[0] && a[i + 1] == x[1] && a[i + 2] == x[2] && a[i + 3] == x[3]);
    assert(b[j] == y[0] && b[j + 1] == y[1] && b[j + 2] == y[2] && b[j + 3] == y[3]);
}

/// Two buffers that agree on an eight-byte window agree on its value.
pub proof fn lemma_be64_window(a: Seq<u8>, i: int, b: Seq<u8>, j: int)
    requires
        0 <= i,
        i + 8 <= a.len(),
        0 <= j,
        j + 8 <= b.len(),
        a.subrange(i, i + 8) == b.subrange(j, j + 8),
    ensures
        be64(a, i) == be64(b, j),
{
    let x = a.subrange(i, i + 8);
    let y = b.subrange(j, j + 8);
    assert(a.subrange(i, i + 4) =~= x.subrange(0, 4));
    assert(b.subrange(j, j + 4) =~= y.subrange(0, 4));
    assert(a.subrange(i + 4, i + 8) =~= x.subrange(4, 8));
    assert(b.subrange(j + 4, j + 8) =~= y.subrange(4, 8));
    lemma_be32_window(a, i, b, j);
    lemma_be32_window(a, i + 4, b, j + 4);
}

/// Two bytes that spell `x`, read somewhere inside a longer buffer.
pub proof fn lemma_be16_at(s: Seq<u8>, at: int, x: int)
    requires
        0 <= x < 65536,
        0 <= at,
        at + 2 <= s.len(),
        s.subrange(at, at + 2) == bytes16(x),
    ensures
        be16(s, at) == x,
{
    lemma_be16_of_bytes16(x);
    assert(bytes16(x).subrange(0, 2) =~= bytes16(x));
    lemma_be16_window(s, at, bytes16(x), 0);
}

/// Four bytes that spell `x`, read somewhere inside a longer buffer.
pub proof fn lemma_be32_at(s: Seq<u8>, at: int, x: int)
    requires
        0 <= x < 4294967296,
        0 <= at,
        at + 4 <= s.len(),
        s.subrange(at, at + 4) == bytes32(x),
    ensures
        be32(s, at) == x,
{
    lemma_be32_of_bytes32(x);
    assert(bytes32(x).subrange(0, 4) =~= bytes32(x));
    lemma_be32_window(s, at, bytes32(x), 0);
}

/// Eight bytes that spell `x`, read somewhere inside a longer buffer.
pub proof fn lemma_be64_at(s: Seq<u8>, at: int, x: int)
    requires
        0 <= x < 18446744073709551616,
        0 <= at,
        at + 8 <= s.len(),
        s.subrange(at, at + 8) == bytes64(x),
    ensures
        be64(s, at) == x,
{
    lemma_be64_of_bytes64(x);
    assert(bytes64(x).subrange(0, 8) =~= bytes64(x));
    lemma_be64_window(s, at, bytes64(x), 0);
}

/// The bytes under a two-byte field are the bytes that spell its value.
pub proof fn lemma_bytes16_of_be16(s: Seq<u8>, at: int)
    requires
        0 <= at,
        at + 2 <= s.len(),
    ensures
        bytes16(be16(s, at)) =~= s.subrange(at, at + 2),
{
}

/// The bytes under a four-byte field are the bytes that spell its value.
pub proof fn lemma_bytes32_of_be32(s: Seq<u8>, at: int)
    requires
        0 <= at,
        at + 4 <= s.len(),
    ensures
        bytes32(be32(s, at)) =~= s.subrange(at, at + 4),
{
    let x = be32(s, at);
    lemma_be16_range(s, at);
    lemma_be16_range(s, at + 2);
    assert(x / 65536 == be16(s, at));
    assert(x % 65536 == be16(s, at + 2));
    lemma_bytes16_of_be16(s, at);
    lemma_bytes16_of_be16(s, at + 2);
}

/// The bytes under an eight-byte field are the bytes that spell its value.
pub proof fn lemma_bytes64_of_be64(s: Seq<u8>, at: int)
    requires
        0 <= at,
        at + 8 <= s.len(),
    ensures
        bytes64(be64(s, at)) =~= s.subrange(at, at + 8),
{
    let x = be64(s, at);
    lemma_be32_range(s, at);
    lemma_be32_range(s, at + 4);
    assert(x / 4294967296 == be32(s, at));
    assert(x % 4294967296 == be32(s, at + 4));
    lemma_bytes32_of_be32(s, at);
    lemma_bytes32_of_be32(s, at + 4);
}

/// Reads the two-byte field of `b` that starts at `at`.
pub fn read_u16(b: &[u8], at: usize) -> (r: u16)
    requires
        at + 2 <= b.len(),
    ensures
        r as int == be16(b@, at as int),
{
    let hi: u16 = b[at] as u16;
    let lo: u16 = b[at + 1] as u16;
    hi * 256 + lo
}

/// Reads the four-byte field of `b` that starts at `at`.
pub fn read_u32(b: &[u8], at: usize) -> (r: u32)
    requires
        at + 4 <= b.len(),
    ensures
        r as int == be32(b@, at as int),
{
    let hi: u32 = read_u16(b, at) as u32;
    let lo: u32 = read_u16(b, at + 2) as u32;
    hi * 65536 + lo
}

/// Reads the eight-byte field of `b` that starts at `at`.
pub fn read_u64(b: &[u8], at: usize) -> (r: u64)
    requires
        at + 8 <= b.len(),
    ensures
        r as int == be64(b@, at as int),
{
    let hi: u64 = read_u32(b, at) as u64;
    let lo: u64 = read_u32(b, at + 4) as u64;
    hi * 4294967296 + lo
}

/// Appends a copy of `src`.
pub fn put_bytes(out: &mut Vec<u8>, src: &[u8])
    ensures
        final(out)@ =~= old(out)@ + src@,
{
    let mut i: usize = 0;
    while i < src.len()
        invariant
            i <= src.len(),
            out@ =~= old(out)@ + src@.subrange(0, i as int),
        decreases src.len() - i,
    {
        out.push(src[i]);
        i += 1;
    }
}

/// Appends the two bytes that spell `x`.
pub fn put_u16(out: &mut Vec<u8>, x: u16)
    ensures
        final(out)@ =~= old(out)@ + bytes16(x as int),
{
    out.push((x / 256) as u8);
    out.push((x % 256) as u8);
}

/// Appends the four bytes that spell `x`.
pub fn put_u32(out: &mut Vec<u8>, x: u32)
    ensures
        final(out)@ =~= old(out)@ + bytes32(x as int),
{
    put_u16(out, (x / 65536) as u16);
    put_u16(out, (x % 65536) as u16);
}

/// Appends the eight bytes that spell `x`.
pub fn put_u64(out: &mut Vec<u8>, x: u64)
    ensures
        final(out)@ =~= old(out)@ + bytes64(x as int),
{
    put_u32(out, (x / 4294967296) as u32);
    put_u32(out, (x % 4294967296) as u32);
}

} // verus!
