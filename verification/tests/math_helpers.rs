//! Integer helpers: ceiling division, transform layout, profiler colors.

use render_core::math::{divide_and_round_up, identity_col_major_4x4, mat4_to_row_marjor_float3x4};
use render_core::pix::pix_color;

#[test]
fn ceiling_division_exact_values() {
    assert_eq!(divide_and_round_up(0, 8), 0);
    assert_eq!(divide_and_round_up(1, 8), 1);
    assert_eq!(divide_and_round_up(7, 8), 1);
    assert_eq!(divide_and_round_up(8, 8), 1);
    assert_eq!(divide_and_round_up(9, 8), 2);
    assert_eq!(divide_and_round_up(1280, 8), 160);
    assert_eq!(divide_and_round_up(721, 8), 91);
}

#[test]
fn row_major_3x4_is_the_truncated_transpose() {
    // Entry (r, c) of the column-major input at index c * 4 + r.
    let m: [u32; 16] = [0, 1, 2, 3, 4, 5, 6, 7, 8, 9, 10, 11, 12, 13, 14, 15];
    let r = mat4_to_row_marjor_float3x4(&m);
    assert_eq!(r, [0, 4, 8, 12, 1, 5, 9, 13, 2, 6, 10, 14]);
}

#[test]
fn identity_matrix_survives_the_layout_change() {
    let id = identity_col_major_4x4();
    let one = 1.0f32.to_bits();
    assert_eq!(id[0], one);
    assert_eq!(id[5], one);
    assert_eq!(id[10], one);
    assert_eq!(id[15], one);
    assert_eq!(id[1], 0);

    let r = mat4_to_row_marjor_float3x4(&id);
    for (k, &entry) in r.iter().enumerate() {
        let expected = if k % 5 == 0 { one } else { 0 };
        assert_eq!(entry, expected);
    }
}

#[test]
fn layout_matches_the_float_transpose() {
    // The bit-level layout change must agree with transposing the float
    // matrix and keeping its first three rows.
    let axis = glam::Vec3::new(0.3, 0.5, 0.8).normalize();
    let m = glam::Mat4::from_axis_angle(axis, 1.2)
        * glam::Mat4::from_translation(glam::Vec3::new(5.0, -2.0, 9.0));

    let mut bits = [0u32; 16];
    for (slot, entry) in bits.iter_mut().zip(m.to_cols_array()) {
        *slot = entry.to_bits();
    }
    let r = mat4_to_row_marjor_float3x4(&bits);

    let transposed = m.transpose().to_cols_array();
    for k in 0..12 {
        assert_eq!(r[k], transposed[k].to_bits());
    }
}

#[test]
fn pix_colors_pack_argb_with_full_alpha() {
    assert_eq!(pix_color(0, 255, 0), 0xFF00FF00);
    assert_eq!(pix_color(0, 0, 0), 0xFF000000);
    assert_eq!(pix_color(255, 255, 255), 0xFFFFFFFF);
    assert_eq!(pix_color(0x12, 0x34, 0x56), 0xFF123456);
}
