//! The wire form of a sensitivity value.
use vstd::prelude::*;

verus! {

/// The two bytes of `n`, most significant first.
pub open spec fn be_u16(n: u16) -> Seq<u8> {
    seq![(n / 256) as u8, (n % 256) as u8]
}

/// Relies on byteorder's `BigEndian::write_u16`, which copies `n.to_be_bytes()`
/// into the first two bytes of the buffer.
#[verifier::external_body]
fn big_endian_u16(n: u16) -> (r: [u8; 2])
    ensures
        r@ == be_u16(n),
{
    let mut buf: [u8; 2] = [0u8; 2];
    <byteorder::BigEndian as byteorder::ByteOrder>::write_u16(&mut buf, n);
    buf
}

/// The two bytes written to the `dpi` file for a sensitivity value.
pub fn encode_dpi(dpi: u16) -> (r: [u8; 2])
    ensures
        r@ == be_u16(dpi),
{
    big_endian_u16(dpi)
}

} // verus!
