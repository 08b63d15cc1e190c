use ocmbox::msr::{from_le_bytes, oc_locked, to_le_bytes, FLEX_RATIO, FLEX_RATIO_OC_LOCK, OC_MBOX};

#[test]
fn register_numbers() {
    assert_eq!(OC_MBOX, 0x150);
    assert_eq!(FLEX_RATIO, 0x194);
    assert_eq!(FLEX_RATIO_OC_LOCK, 1 << 20);
}

#[test]
fn lock_bit_set() {
    assert!(oc_locked(0x10_0000));
    assert!(oc_locked(0xffff_ffff_ffff_ffff));
    assert!(oc_locked(0x0010_00ff));
}

#[test]
fn lock_bit_clear() {
    assert!(!oc_locked(0));
    assert!(!oc_locked(0x0008_0000));
    assert!(!oc_locked(0x0020_0000));
    assert!(!oc_locked(0xffff_ffff_ffef_ffff));
}

#[test]
fn le_bytes_of_value() {
    assert_eq!(
        to_le_bytes(0x0102_0304_0506_0708),
        [0x08, 0x07, 0x06, 0x05, 0x04, 0x03, 0x02, 0x01]
    );
    assert_eq!(to_le_bytes(0), [0; 8]);
    assert_eq!(to_le_bytes(u64::MAX), [0xff; 8]);
}

#[test]
fn value_of_le_bytes() {
    assert_eq!(
        from_le_bytes([0x08, 0x07, 0x06, 0x05, 0x04, 0x03, 0x02, 0x01]),
        0x0102_0304_0506_0708
    );
    assert_eq!(from_le_bytes([0x00, 0x00, 0x10, 0, 0, 0, 0, 0]), 0x10_0000);
    assert_eq!(from_le_bytes([0xff; 8]), u64::MAX);
}

#[test]
fn le_bytes_round_trip() {
    for v in [0u64, 1, 0x150, 0x8000_0010_0000_0000, 0xdead_beef_0bad_f00d, u64::MAX] {
        assert_eq!(from_le_bytes(to_le_bytes(v)), v);
        assert_eq!(u64::from_le_bytes(to_le_bytes(v)), v);
    }
}
