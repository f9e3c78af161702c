//! Colors for profiler event markers.

use vstd::prelude::*;

verus! {

/// Packs a profiler event color in ARGB order; the alpha channel is always
/// 0xFF.
pub fn pix_color(red: u8, green: u8, blue: u8) -> (r: u64)
    ensures
        r == 0xff_00_00_00u64 | ((red as u64) << 16) | ((green as u64) << 8) | (blue as u64),
        (r >> 24) & 0xff == 0xff,
        (r >> 16) & 0xff == red,
        (r >> 8) & 0xff == green,
        r & 0xff == blue,
{
    let red: u64 = red as u64;
    let green: u64 = green as u64;
    let blue: u64 = blue as u64;
    let r = 0xff_00_00_00u64 | (red << 16) | (green << 8) | blue;
    proof {
        assert((r >> 24) & 0xff == 0xff && (r >> 16) & 0xff == red && (r >> 8) & 0xff == green && r
            & 0xff == blue) by (bit_vector)
            requires
                red <= 0xff,
                green <= 0xff,
                blue <= 0xff,
                r == 0xff_00_00_00u64 | (red << 16) | (green << 8) | blue,
        ;
    }
    r
}

} // verus!
