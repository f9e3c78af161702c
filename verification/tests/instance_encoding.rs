//! Packing and unpacking of the instance-descriptor bit fields.

use render_core::raytracing::{
    encode_instance_fields, pack_id_mask, pack_offset_flags, unpack_high8, unpack_low24, U24_MAX,
};

#[test]
fn encoding_round_trips_exact_fields() {
    let packed = encode_instance_fields(0xFF, 0x123456, 0, 0).unwrap();

    assert_eq!(unpack_low24(packed.0), 0x123456);
    assert_eq!(unpack_high8(packed.0), 0xFF);
    assert_eq!(unpack_low24(packed.1), 0);
    assert_eq!(unpack_high8(packed.1), 0);
}

#[test]
fn packed_fields_have_the_native_layout() {
    assert_eq!(pack_id_mask(0x123456, 0xFF), 0xFF123456);
    assert_eq!(pack_id_mask(0, 0), 0);
    assert_eq!(pack_id_mask(U24_MAX, 0xFF), 0xFFFFFFFF);
    assert_eq!(pack_offset_flags(0x00ABCD, 0x12), 0x1200ABCD);
}

#[test]
fn out_of_range_id_is_rejected() {
    assert!(encode_instance_fields(0xFF, U24_MAX + 1, 0, 0).is_none());
    assert!(encode_instance_fields(0xFF, U24_MAX, 0, 0).is_some());
}

#[test]
fn out_of_range_offset_is_rejected() {
    assert!(encode_instance_fields(0xFF, 0, 0, U24_MAX + 1).is_none());
    assert!(encode_instance_fields(0xFF, 0, 0, U24_MAX).is_some());
}

#[test]
fn out_of_range_mask_and_flags_are_rejected() {
    assert!(encode_instance_fields(0x100, 0, 0, 0).is_none());
    assert!(encode_instance_fields(0, 0, 0x100, 0).is_none());
}
