//! The loader's serial protocol: a transmission is announced with `!`,
//! followed by the image size as four big-endian bytes, then the image.

use vstd::prelude::*;

verus! {

/// The four bytes that carry `size`, most significant first.
pub open spec fn size_bytes(size: u32) -> Seq<u8> {
    seq![
        (size / 0x100_0000) as u8,
        ((size / 0x1_0000) % 0x100) as u8,
        ((size / 0x100) % 0x100) as u8,
        (size % 0x100) as u8,
    ]
}

/// The bytes that announce an image of `size` bytes to the bootloader.
pub fn transmit_size(size: u32) -> (r: [u8; 4])
    ensures
        r@ == size_bytes(size),
{
    assert((size >> 24u32) as u8 == size / 0x100_0000) by (bit_vector);
    assert((size >> 16u32) as u8 == (size / 0x1_0000) % 0x100) by (bit_vector);
    assert((size >> 8u32) as u8 == (size / 0x100) % 0x100) by (bit_vector);
    assert(size as u8 == size % 0x100) by (bit_vector);
    let buffer: [u8; 4] = [(size >> 24) as u8, (size >> 16) as u8, (size >> 8) as u8, size as u8];
    assert(buffer@ =~= size_bytes(size));
    buffer
}

/// The four size bytes give the size back.
pub proof fn lemma_size_bytes_round_trip(size: u32)
    ensures
        size_bytes(size)[0] * 0x100_0000 + size_bytes(size)[1] * 0x1_0000 + size_bytes(size)[2]
            * 0x100 + size_bytes(size)[3] == size,
{
    let b0 = (size / 0x100_0000) as u8;
    let b1 = ((size / 0x1_0000) % 0x100) as u8;
    let b2 = ((size / 0x100) % 0x100) as u8;
    let b3 = (size % 0x100) as u8;
    assert(b0 * 0x100_0000 + b1 * 0x1_0000 + b2 * 0x100 + b3 == size) by (nonlinear_arith)
        requires
            b0 == size / 0x100_0000,
            b1 == (size / 0x1_0000) % 0x100,
            b2 == (size / 0x100) % 0x100,
            b3 == size % 0x100,
    ;
}

/// The byte that announces a transmission.
pub const TRANSMISSION_START: u8 = 33;

/// The byte with which the bootloader asks for an image.
pub const TRANSMISSION_REQUEST: u8 = 63;

/// The bytes sent before an image of `size` bytes: the start byte and the
/// size.
pub fn transmission_header(size: u32) -> (r: Vec<u8>)
    ensures
        r@ == seq![TRANSMISSION_START] + size_bytes(size),
{
    let bytes = transmit_size(size);
    let mut header: Vec<u8> = Vec::new();
    header.push(TRANSMISSION_START);
    header.push(bytes[0]);
    header.push(bytes[1]);
    header.push(bytes[2]);
    header.push(bytes[3]);
    assert(header@ =~= seq![TRANSMISSION_START] + size_bytes(size));
    header
}

} // verus!
