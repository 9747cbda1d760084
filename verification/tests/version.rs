use lyon_front::{pack_version, LyonVersion};

#[test]
fn version_is_one_zero_one() {
    assert_eq!(LyonVersion(), (1 << 24) | (0 << 16) | 1);
    assert_eq!(LyonVersion(), 16_777_217);
}

#[test]
fn pack_version_places_each_part() {
    assert_eq!(pack_version(0, 0, 0), 0);
    assert_eq!(pack_version(1, 2, 3), 0x0102_0003);
    assert_eq!(pack_version(255, 255, 65_535), u32::MAX);
}
