use vstd::prelude::*;

verus! {

/// Splits a color written as `0xRRGGBB` into its red, green and blue bytes.
pub fn hex_channels(color: u32) -> (r: (u8, u8, u8))
    requires
        color <= 0xffffff,
    ensures
        r.0 == color / 0x10000,
        r.1 == (color / 0x100) % 0x100,
        r.2 == color % 0x100,
{
    let red = (color & 0xff0000) >> 16;
    let green = (color & 0x00ff00) >> 8;
    let blue = color & 0x0000ff;
    assert(red == color / 0x10000 && red < 0x100) by (bit_vector)
        requires
            color <= 0xffffff,
            red == (color & 0xff0000) >> 16,
    ;
    assert(green == (color / 0x100) % 0x100) by (bit_vector)
        requires
            green == (color & 0x00ff00) >> 8,
    ;
    assert(blue == color % 0x100) by (bit_vector)
        requires
            blue == color & 0x0000ff,
    ;
    (red as u8, green as u8, blue as u8)
}

} // verus!
