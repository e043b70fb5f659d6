//! Little-endian 32-bit numbers, read and written through `byteorder`.

use byteorder::{ByteOrder, LittleEndian};
use vstd::arithmetic::div_mod::{lemma_fundamental_div_mod_converse, lemma_small_mod};
use vstd::prelude::*;

verus! {

/// The number that the first four bytes of `b` stand for, least significant
/// byte first.
pub open spec fn le_u32(b: Seq<u8>) -> int
    recommends
        b.len() >= 4,
{
    b[0] as int + 256 * (b[1] as int) + 65536 * (b[2] as int) + 16777216 * (b[3] as int)
}

/// The four bytes that stand for `n`, least significant byte first.
pub open spec fn u32_le_bytes(n: u32) -> Seq<u8> {
    seq![
        (n as int % 256) as u8,
        (n as int / 256 % 256) as u8,
        (n as int / 65536 % 256) as u8,
        (n as int / 16777216 % 256) as u8,
    ]
}

/// `byteorder::LittleEndian::read_u32`: the first four bytes of `buf`, read as
/// a little-endian number. It panics on a buffer of fewer than four bytes,
/// which the precondition leaves out.
#[verifier::external_body]
pub(crate) fn read_u32_le(buf: &[u8]) -> (n: u32)
    requires
        buf@.len() >= 4,
    ensures
        n as int == le_u32(buf@),
{
    LittleEndian::read_u32(buf)
}

/// `byteorder::LittleEndian::write_u32`: overwrites the first four bytes of
/// `buf` with `n` in little-endian order and leaves the rest as it was. It
/// panics on a buffer of fewer than four bytes, which the precondition leaves
/// out.
#[verifier::external_body]
pub(crate) fn write_u32_le(buf: &mut [u8], n: u32)
    requires
        old(buf)@.len() >= 4,
    ensures
        final(buf)@ == u32_le_bytes(n) + old(buf)@.subrange(4, old(buf)@.len() as int),
{
    LittleEndian::write_u32(buf, n)
}

/// Reading back what was written gives the number written.
pub proof fn lemma_le_u32_of_bytes(n: u32)
    ensures
        u32_le_bytes(n).len() == 4,
        le_u32(u32_le_bytes(n)) == n,
{
}

/// Four bytes are the encoding of the number they stand for, and that number
/// fits in 32 bits.
pub proof fn lemma_bytes_of_le_u32(b: Seq<u8>)
    requires
        b.len() == 4,
    ensures
        0 <= le_u32(b) <= u32::MAX,
        u32_le_bytes(le_u32(b) as u32) == b,
{
    let b0 = b[0] as int;
    let b1 = b[1] as int;
    let b2 = b[2] as int;
    let b3 = b[3] as int;
    let n = le_u32(b);
    lemma_fundamental_div_mod_converse(n, 256, b1 + 256 * b2 + 65536 * b3, b0);
    lemma_fundamental_div_mod_converse(n / 256, 256, b2 + 256 * b3, b1);
    lemma_fundamental_div_mod_converse(n, 65536, b2 + 256 * b3, b0 + 256 * b1);
    lemma_fundamental_div_mod_converse(n / 65536, 256, b3, b2);
    lemma_fundamental_div_mod_converse(n, 16777216, b3, b0 + 256 * b1 + 65536 * b2);
    lemma_small_mod(b3 as nat, 256);
    assert(u32_le_bytes(n as u32) =~= b);
}

} // verus!
