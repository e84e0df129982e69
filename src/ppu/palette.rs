//! The fixed NES master palette: 64 palette indices to RGB.
use vstd::prelude::*;

verus! {

/// Red, green and blue of each of the 64 palette indices, in order.
pub const PALETTE_RGB: [u8; 192] = [
    0x66, 0x66, 0x66, 0x00, 0x2a, 0x88, 0x14, 0x12, 0xa7, 0x3b, 0x00, 0xa4,
    0x5c, 0x00, 0x7e, 0x6e, 0x00, 0x40, 0x6c, 0x06, 0x00, 0x56, 0x1d, 0x00,
    0x33, 0x35, 0x00, 0x0b, 0x48, 0x00, 0x00, 0x52, 0x00, 0x00, 0x4f, 0x08,
    0x00, 0x40, 0x4d, 0x00, 0x00, 0x00, 0x00, 0x00, 0x00, 0x00, 0x00, 0x00,
    0xad, 0xad, 0xad, 0x15, 0x5f, 0xd9, 0x42, 0x40, 0xff, 0x75, 0x27, 0xfe,
    0xa0, 0x1a, 0xcc, 0xb7, 0x1e, 0x7b, 0xb5, 0x31, 0x20, 0x99, 0x4e, 0x00,
    0x6b, 0x6d, 0x00, 0x38, 0x87, 0x00, 0x0c, 0x93, 0x00, 0x00, 0x8f, 0x32,
    0x00, 0x7c, 0x8d, 0x00, 0x00, 0x00, 0x00, 0x00, 0x00, 0x00, 0x00, 0x00,
    0xff, 0xfe, 0xff, 0x64, 0xb0, 0xff, 0x92, 0x90, 0xff, 0xc6, 0x76, 0xff,
    0xf3, 0x6a, 0xff, 0xfe, 0x6e, 0xcc, 0xfe, 0x81, 0x70, 0xea, 0x9e, 0x22,
    0xbc, 0xbe, 0x00, 0x88, 0xd8, 0x00, 0x5c, 0xe4, 0x30, 0x45, 0xe0, 0x82,
    0x48, 0xcd, 0xde, 0x4f, 0x4f, 0x4f, 0x00, 0x00, 0x00, 0x00, 0x00, 0x00,
    0xff, 0xfe, 0xff, 0xc0, 0xdf, 0xff, 0xd3, 0xd2, 0xff, 0xe8, 0xc8, 0xff,
    0xfb, 0xc2, 0xff, 0xfe, 0xc4, 0xea, 0xfe, 0xcc, 0xc5, 0xf7, 0xd8, 0xa5,
    0xe4, 0xe5, 0x94, 0xcf, 0xef, 0x96, 0xbd, 0xf4, 0xab, 0xb3, 0xf3, 0xcc,
    0xb5, 0xeb, 0xf2, 0xb8, 0xb8, 0xb8, 0x00, 0x00, 0x00, 0x00, 0x00, 0x00,
];

/// The RGB colour of a palette index.
pub fn rgb(index: u8) -> (r: (u8, u8, u8))
    requires
        index < 64,
    ensures
        r == (PALETTE_RGB@[3 * index as int], PALETTE_RGB@[3 * index as int + 1],
            PALETTE_RGB@[3 * index as int + 2]),
{
    let i = 3 * index as usize;
    (PALETTE_RGB[i], PALETTE_RGB[i + 1], PALETTE_RGB[i + 2])
}

} // verus!
