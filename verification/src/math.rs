//! Integer helpers shared by the renderer core.
//!
//! Transforms are carried as the raw bit patterns of their 32-bit float
//! entries: the core only rearranges and stores them, so their numeric
//! interpretation never enters the logic and stays with the caller.

use vstd::prelude::*;

verus! {

/// Ceiling division: the least number of groups of `y` covering `x`.
/// Used to size thread-group dispatches.
pub fn divide_and_round_up(x: u32, y: u32) -> (r: u32)
    requires
        y > 0,
        x + y - 1 <= u32::MAX,
    ensures
        r == (x + y - 1) / (y as int),
        x > 0 ==> (r - 1) * y < x,
        x <= r * y,
{
    let wide: u64 = ((x as u64) + (y as u64) - 1) / (y as u64);
    proof {
        vstd::arithmetic::div_mod::lemma_fundamental_div_mod((x + y - 1) as int, y as int);
        let q = (x + y - 1) as int / (y as int);
        let m = (x + y - 1) as int % (y as int);
        assert((x > 0 ==> (q - 1) * y < x) && x <= q * y) by (nonlinear_arith)
            requires
                (x + y - 1) as int == (y as int) * q + m,
                0 <= m < y,
                y > 0,
        ;
    }
    wide as u32
}

/// One row-major 3x4 matrix as the bit patterns of its entries.
pub type RowMajor3x4 = [u32; 12];

/// One column-major 4x4 matrix as the bit patterns of its entries, in the
/// usual graphics layout: entry (row r, column c) at index c * 4 + r.
pub type ColMajor4x4 = [u32; 16];

/// The entry of the row-major 3x4 truncation of the transpose of a
/// column-major 4x4 matrix: output index k holds input entry
/// (row k % 4, column k / 4) of the transpose, i.e. input entry
/// (row k / 4, column k % 4).
pub open spec fn spec_row_major_entry(m: Seq<u32>, k: int) -> u32 {
    m[(k % 4) * 4 + k / 4]
}

/// Converts a column-major 4x4 transform into the row-major 3x4 layout the
/// device's instance descriptors use: the transpose, truncated to its top
/// three rows.
pub fn mat4_to_row_marjor_float3x4(m: &ColMajor4x4) -> (r: RowMajor3x4)
    ensures
        forall|k: int| 0 <= k < 12 ==> r[k] == spec_row_major_entry(m@, k),
{
    [
        m[0],
        m[4],
        m[8],
        m[12],
        m[1],
        m[5],
        m[9],
        m[13],
        m[2],
        m[6],
        m[10],
        m[14],
    ]
}

/// The bit patterns of the identity 4x4 matrix (1.0f32 is 0x3F80_0000).
pub fn identity_col_major_4x4() -> (r: ColMajor4x4)
    ensures
        forall|k: int|
            0 <= k < 16 ==> r[k] == if k % 5 == 0 {
                0x3F80_0000u32
            } else {
                0u32
            },
{
    [
        0x3F80_0000u32,
        0u32,
        0u32,
        0u32,
        0u32,
        0x3F80_0000u32,
        0u32,
        0u32,
        0u32,
        0u32,
        0x3F80_0000u32,
        0u32,
        0u32,
        0u32,
        0u32,
        0x3F80_0000u32,
    ]
}

} // verus!
