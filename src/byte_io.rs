use vstd::prelude::*;

use byteorder::{BigEndian, ByteOrder};

verus! {

/// The big-endian value of the two bytes of `s` at `at`.
pub open spec fn be16_at(s: Seq<u8>, at: int) -> int {
    s[at] as int * 0x100 + s[at + 1] as int
}

/// The big-endian value of the four bytes of `s` at `at`.
pub open spec fn be32_at(s: Seq<u8>, at: int) -> int {
    s[at] as int * 0x1000000 + s[at + 1] as int * 0x10000 + s[at + 2] as int * 0x100
        + s[at + 3] as int
}

/// The two bytes of `n`, most significant first.
pub open spec fn u16_be(n: u16) -> Seq<u8> {
    seq![(n / 0x100) as u8, (n % 0x100) as u8]
}

/// The four bytes of `n`, most significant first.
pub open spec fn u32_be(n: u32) -> Seq<u8> {
    seq![
        (n / 0x1000000) as u8,
        (n / 0x10000 % 0x100) as u8,
        (n / 0x100 % 0x100) as u8,
        (n % 0x100) as u8,
    ]
}

/// Relies on byteorder's `BigEndian::read_u16`: the two bytes at `at`, most significant first.
#[verifier::external_body]
pub(crate) fn read_u16_at(buf: &[u8], at: usize) -> (r: u16)
    requires
        at + 2 <= buf@.len(),
    ensures
        r as int == be16_at(buf@, at as int),
{
    BigEndian::read_u16(&buf[at..])
}

/// Relies on byteorder's `BigEndian::read_u32`: the four bytes at `at`, most significant first.
#[verifier::external_body]
pub(crate) fn read_u32_at(buf: &[u8], at: usize) -> (r: u32)
    requires
        at + 4 <= buf@.len(),
    ensures
        r as int == be32_at(buf@, at as int),
{
    BigEndian::read_u32(&buf[at..])
}

/// Relies on byteorder's `BigEndian::write_u16`: `n` as two bytes, most significant first.
#[verifier::external_body]
fn u16_bytes(n: u16) -> (r: [u8; 2])
    ensures
        r@ == u16_be(n),
{
    let mut b = [0u8; 2];
    BigEndian::write_u16(&mut b, n);
    b
}

/// Relies on byteorder's `BigEndian::write_u32`: `n` as four bytes, most significant first.
#[verifier::external_body]
fn u32_bytes(n: u32) -> (r: [u8; 4])
    ensures
        r@ == u32_be(n),
{
    let mut b = [0u8; 4];
    BigEndian::write_u32(&mut b, n);
    b
}

/// Appends `n` in big-endian order.
pub fn write_u16(out: &mut Vec<u8>, n: u16)
    ensures
        final(out)@ == old(out)@ + u16_be(n),
{
    let b = u16_bytes(n);
    out.push(b[0]);
    out.push(b[1]);
    assert(final(out)@ =~= old(out)@ + u16_be(n));
}

/// Appends `n` in big-endian order.
pub fn write_u32(out: &mut Vec<u8>, n: u32)
    ensures
        final(out)@ == old(out)@ + u32_be(n),
{
    let b = u32_bytes(n);
    out.push(b[0]);
    out.push(b[1]);
    out.push(b[2]);
    out.push(b[3]);
    assert(final(out)@ =~= old(out)@ + u32_be(n));
}

pub proof fn lemma_be_len(a: u16, b: u32)
    ensures
        u16_be(a).len() == 2,
        u32_be(b).len() == 4,
{
}

/// Reading back what `u16_be` wrote gives the value.
pub proof fn lemma_u16_be(n: u16)
    ensures
        u16_be(n).len() == 2,
        be16_at(u16_be(n), 0) == n as int,
{
}

/// Reading back what `u32_be` wrote gives the value.
pub proof fn lemma_u32_be(n: u32)
    ensures
        u32_be(n).len() == 4,
        be32_at(u32_be(n), 0) == n as int,
{
}

} // verus!
