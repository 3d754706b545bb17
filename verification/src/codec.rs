//! Big-endian packing of fixed-width fields, shared by every encoder and
//! decoder of the crate.
//!
//! An encoder appends to a byte buffer. A decoder is handed the unread input
//! as a slice and reads a prefix of it; it never looks past the bytes that
//! the matching encoder would have written.

use vstd::prelude::*;

verus! {

/// Failures of the byte codecs.
#[derive(Clone, Copy, Debug, PartialEq, Eq, Hash)]
pub enum Error {
    /// The input ended before a fixed or declared length was read.
    InsufficientData,
    /// The tag of an announced address names no address format of BOLT 7.
    InvalidFormat,
    /// A numeric code is the code of no value of the type that is read.
    EnumValueNotKnown,
    /// A field that the byte layout needs is absent from the value.
    DataIntegrityError,
    /// A value was decoded, but bytes were left over after it.
    DataNotEntirelyConsumed,
}

impl Error {
    /// What went wrong, in words.
    pub fn description(&self) -> (text: &'static str)
        ensures
            text@ == match *self {
                Error::InsufficientData => "Unexpected end of data"@,
                Error::InvalidFormat => "Wrong Network Address Format"@,
                Error::EnumValueNotKnown => "Value is not known"@,
                Error::DataIntegrityError => "Required field is missing"@,
                Error::DataNotEntirelyConsumed => "Data were not consumed entirely"@,
            },
    {
        match self {
            Error::InsufficientData => "Unexpected end of data",
            Error::InvalidFormat => "Wrong Network Address Format",
            Error::EnumValueNotKnown => "Value is not known",
            Error::DataIntegrityError => "Required field is missing",
            Error::DataNotEntirelyConsumed => "Data were not consumed entirely",
        }
    }
}

/// Number of values that fit 24 bits.
pub const U24_LIMIT: u32 = 0x100_0000;

/// `n` zero bytes.
pub open spec fn zeros(n: nat) -> Seq<u8> {
    Seq::new(n, |i: int| 0u8)
}

/// The two bytes of `x`, most significant first.
pub open spec fn be16(x: u16) -> Seq<u8> {
    seq![(x / 256) as u8, (x % 256) as u8]
}

/// The number that two big-endian bytes stand for.
pub open spec fn from_be16(s: Seq<u8>) -> u16
    recommends
        s.len() == 2,
{
    (s[0] * 256 + s[1]) as u16
}

/// The three low bytes of `x`, most significant first.
pub open spec fn be24(x: u32) -> Seq<u8>
    recommends
        x < U24_LIMIT,
{
    seq![((x / 65536) % 256) as u8, ((x / 256) % 256) as u8, (x % 256) as u8]
}

/// The number that three big-endian bytes stand for.
pub open spec fn from_be24(s: Seq<u8>) -> u32
    recommends
        s.len() == 3,
{
    (s[0] * 65536 + s[1] * 256 + s[2]) as u32
}

/// Reading back what `be16` wrote gives the number again.
pub proof fn lemma_be16_round_trip(x: u16)
    ensures
        be16(x).len() == 2,
        from_be16(be16(x)) == x,
{
}

/// Two bytes are the big-endian form of the number they stand for.
pub proof fn lemma_from_be16_round_trip(s: Seq<u8>)
    requires
        s.len() == 2,
    ensures
        be16(from_be16(s)) == s,
{
    assert(be16(from_be16(s)) =~= s);
}

/// Reading back what `be24` wrote gives the number again, for every number
/// of at most 24 bits.
pub proof fn lemma_be24_round_trip(x: u32)
    requires
        x < U24_LIMIT,
    ensures
        be24(x).len() == 3,
        from_be24(be24(x)) == x,
{
    let a = (x / 65536) as int;
    let b = ((x / 256) % 256) as int;
    let c = (x % 256) as int;
    assert(a < 256);
    assert(a % 256 == a);
    assert(x / 256 == a * 256 + b);
    assert(x == (x / 256) * 256 + c);
    assert(a * 65536 + b * 256 + c == x);
}

/// Three bytes are the big-endian form of the number they stand for, and
/// that number has at most 24 bits.
pub proof fn lemma_from_be24_round_trip(s: Seq<u8>)
    requires
        s.len() == 3,
    ensures
        from_be24(s) < U24_LIMIT,
        be24(from_be24(s)) == s,
{
    let a = s[0] as int;
    let b = s[1] as int;
    let c = s[2] as int;
    let x = a * 65536 + b * 256 + c;
    assert(from_be24(s) == x);
    assert(x / 65536 == a);
    assert(x / 256 == a * 256 + b);
    assert((a * 256 + b) % 256 == b);
    assert(x % 256 == c);
    assert(be24(from_be24(s)) =~= s);
}

/// Appends one byte.
pub fn write_u8(e: &mut Vec<u8>, v: u8) -> (n: usize)
    ensures
        n == 1,
        final(e)@ == old(e)@.push(v),
{
    e.push(v);
    1
}

/// Appends `v` as two bytes, most significant first.
pub fn write_be16(e: &mut Vec<u8>, v: u16) -> (n: usize)
    ensures
        n == 2,
        final(e)@ == old(e)@ + be16(v),
{
    e.push((v / 256) as u8);
    e.push((v % 256) as u8);
    assert(e@ =~= old(e)@ + be16(v));
    2
}

/// Appends the three low bytes of `v`, most significant first.
pub fn write_be24(e: &mut Vec<u8>, v: u32) -> (n: usize)
    ensures
        n == 3,
        final(e)@ == old(e)@ + be24(v),
{
    e.push(((v / 65536) % 256) as u8);
    e.push(((v / 256) % 256) as u8);
    e.push((v % 256) as u8);
    assert(e@ =~= old(e)@ + be24(v));
    3
}

/// Appends a run of bytes as it stands, with no length in front.
pub fn write_bytes(e: &mut Vec<u8>, bytes: &[u8]) -> (n: usize)
    ensures
        n == bytes@.len(),
        final(e)@ == old(e)@ + bytes@,
{
    let mut i: usize = 0;
    while i < bytes.len()
        invariant
            i <= bytes@.len(),
            e@ == old(e)@ + bytes@.subrange(0, i as int),
        decreases bytes@.len() - i,
    {
        e.push(bytes[i]);
        i = i + 1;
        assert(e@ =~= old(e)@ + bytes@.subrange(0, i as int));
    }
    assert(bytes@.subrange(0, i as int) =~= bytes@);
    i
}

/// Whether `n` bytes can be read from `len` bytes of input at `pos`.
pub open spec fn in_reach(len: nat, pos: nat, n: nat) -> bool {
    pos + n <= len
}

/// Reads the byte at `pos`.
pub fn read_u8(d: &[u8], pos: usize) -> (r: Result<u8, Error>)
    ensures
        r == if in_reach(d@.len(), pos as nat, 1) {
            Ok::<u8, Error>(d@[pos as int])
        } else {
            Err::<u8, Error>(Error::InsufficientData)
        },
{
    if pos < d.len() {
        Ok(d[pos])
    } else {
        Err(Error::InsufficientData)
    }
}

/// Reads two bytes at `pos` as a big-endian number.
pub fn read_be16(d: &[u8], pos: usize) -> (r: Result<u16, Error>)
    ensures
        r == if in_reach(d@.len(), pos as nat, 2) {
            Ok::<u16, Error>(from_be16(d@.subrange(pos as int, pos + 2)))
        } else {
            Err::<u16, Error>(Error::InsufficientData)
        },
{
    if pos <= d.len() && d.len() - pos >= 2 {
        let hi: u16 = d[pos] as u16;
        let lo: u16 = d[pos + 1] as u16;
        Ok(hi * 256 + lo)
    } else {
        Err(Error::InsufficientData)
    }
}

/// Reads three bytes at `pos` as a big-endian number.
pub fn read_be24(d: &[u8], pos: usize) -> (r: Result<u32, Error>)
    ensures
        r == if in_reach(d@.len(), pos as nat, 3) {
            Ok::<u32, Error>(from_be24(d@.subrange(pos as int, pos + 3)))
        } else {
            Err::<u32, Error>(Error::InsufficientData)
        },
{
    if pos <= d.len() && d.len() - pos >= 3 {
        let b0: u32 = d[pos] as u32;
        let b1: u32 = d[pos + 1] as u32;
        let b2: u32 = d[pos + 2] as u32;
        Ok(b0 * 65536 + b1 * 256 + b2)
    } else {
        Err(Error::InsufficientData)
    }
}

/// Copies the `N` bytes of `d` that begin at `pos` into an array.
pub fn copy_array<const N: usize>(d: &[u8], pos: usize) -> (a: [u8; N])
    requires
        in_reach(d@.len(), pos as nat, N as nat),
    ensures
        a@ == d@.subrange(pos as int, pos + N),
{
    let len = d.len();
    let mut a: [u8; N] = [0u8; N];
    let mut i: usize = 0;
    while i < N
        invariant
            i <= N,
            pos + N <= len,
            len == d@.len(),
            forall|j: int| 0 <= j < i ==> a@[j] == d@[pos + j],
        decreases N - i,
    {
        a[i] = d[pos + i];
        i = i + 1;
    }
    assert(a@ =~= d@.subrange(pos as int, pos + N));
    a
}

/// Reads `N` bytes at `pos` into an array.
pub fn read_array<const N: usize>(d: &[u8], pos: usize) -> (r: Result<[u8; N], Error>)
    ensures
        match r {
            Ok(a) => in_reach(d@.len(), pos as nat, N as nat) && a@ == d@.subrange(
                pos as int,
                pos + N,
            ),
            Err(e) => !in_reach(d@.len(), pos as nat, N as nat) && e == Error::InsufficientData,
        },
{
    if pos <= d.len() && d.len() - pos >= N {
        Ok(copy_array::<N>(d, pos))
    } else {
        Err(Error::InsufficientData)
    }
}

} // verus!
