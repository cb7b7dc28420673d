use bwlaunch::BwapiVersion;

#[test]
fn test_crc() {
    assert_eq!(BwapiVersion::from_u32(0x71CB208B), Some(BwapiVersion::Bwapi440));
    assert_eq!(BwapiVersion::from_u32(0xD1E0DDDF), Some(BwapiVersion::Bwapi420));
    assert_eq!(BwapiVersion::from_u32(0x267BD0D5), Some(BwapiVersion::Bwapi412));
    assert_eq!(BwapiVersion::from_u32(0x4E39C88A), Some(BwapiVersion::Bwapi375));
    // BWAPI 375 is a replacement for 374
    assert_eq!(BwapiVersion::from_u32(0x41128276), Some(BwapiVersion::Bwapi375));
}

#[test]
fn unknown_checksums_give_no_version() {
    assert_eq!(BwapiVersion::from_u32(0), None);
    assert_eq!(BwapiVersion::from_u32(0xFFFF_FFFF), None);
    assert_eq!(BwapiVersion::from_u32(0x71CB208C), None);
}

#[test]
fn checksum_lookup_is_repeatable() {
    for crc in [0x71CB208Bu32, 0x41128276, 12345] {
        assert_eq!(BwapiVersion::from_u32(crc), BwapiVersion::from_u32(crc));
    }
}

#[test]
fn short_version_names() {
    assert_eq!(BwapiVersion::Bwapi375.version_short(), "375");
    assert_eq!(BwapiVersion::Bwapi412.version_short(), "412");
    assert_eq!(BwapiVersion::Bwapi420.version_short(), "420");
    assert_eq!(BwapiVersion::Bwapi440.version_short(), "440");
}
