//! Two-byte values in the byte order of the machine.
use vstd::endian::{endianness, Endian};
use vstd::prelude::*;

verus! {

/// The number that the bytes `b0, b1` spell in byte order `e`.
pub open spec fn u16_of_bytes(e: Endian, b0: u8, b1: u8) -> u16 {
    match e {
        Endian::Little => (b0 as int + 256 * b1 as int) as u16,
        Endian::Big => (b1 as int + 256 * b0 as int) as u16,
    }
}

/// The number that the bytes `b0, b1` spell in the machine's byte order.
pub open spec fn native_u16(b0: u8, b1: u8) -> u16 {
    u16_of_bytes(endianness(), b0, b1)
}

/// The two bytes of `n` in the machine's byte order.
pub open spec fn native_bytes(n: u16) -> Seq<u8> {
    match endianness() {
        Endian::Little => seq![(n % 256) as u8, (n / 256) as u8],
        Endian::Big => seq![(n / 256) as u8, (n % 256) as u8],
    }
}

/// Relies on `u16::from_ne_bytes`: the bytes are read in the machine's byte order.
#[verifier::external_body]
pub(crate) fn u16_from_ne_bytes(b0: u8, b1: u8) -> (r: u16)
    ensures
        r == native_u16(b0, b1),
{
    u16::from_ne_bytes([b0, b1])
}

/// Relies on `u16::to_ne_bytes`: the bytes are written in the machine's byte order.
#[verifier::external_body]
pub(crate) fn u16_to_ne_bytes(n: u16) -> (r: [u8; 2])
    ensures
        r@ == native_bytes(n),
{
    n.to_ne_bytes()
}

/// Writing a number and reading it back in the same byte order gives the number.
pub proof fn lemma_native_round_trip(n: u16)
    ensures
        native_bytes(n).len() == 2,
        native_u16(native_bytes(n)[0], native_bytes(n)[1]) == n,
{
}

} // verus!
