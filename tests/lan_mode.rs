use bwlaunch::BwapiLanMode;

#[test]
fn lan_mode_spellings_agree() {
    let u = BwapiLanMode::parse("u").unwrap();
    assert_eq!(u, BwapiLanMode::LocalAreaNetworkUDP);
    assert_eq!(BwapiLanMode::parse("U").unwrap(), u);
    assert_eq!(BwapiLanMode::parse("localareanetworkudp").unwrap(), u);
    assert_eq!(BwapiLanMode::parse("LocalAreaNetworkUDP").unwrap(), u);
}

#[test]
fn local_pc_spellings() {
    for s in ["p", "P", "localpc", "LocalPC", "LOCALPC"] {
        assert_eq!(BwapiLanMode::parse(s).unwrap(), BwapiLanMode::LocalPC);
    }
}

#[test]
fn unknown_lan_mode_is_refused_with_its_text() {
    let err = BwapiLanMode::parse("x").unwrap_err();
    assert_eq!(err.input, "x");
    let err = BwapiLanMode::parse("Local Area Network").unwrap_err();
    assert_eq!(err.input, "Local Area Network");
    assert!(BwapiLanMode::parse("").is_err());
}

#[test]
fn lowered_names_are_matched_exactly() {
    assert_eq!(BwapiLanMode::from_lowercase("u"), Some(BwapiLanMode::LocalAreaNetworkUDP));
    assert_eq!(
        BwapiLanMode::from_lowercase("localareanetworkudp"),
        Some(BwapiLanMode::LocalAreaNetworkUDP)
    );
    assert_eq!(BwapiLanMode::from_lowercase("p"), Some(BwapiLanMode::LocalPC));
    assert_eq!(BwapiLanMode::from_lowercase("localpc"), Some(BwapiLanMode::LocalPC));
    assert_eq!(BwapiLanMode::from_lowercase("U"), None);
    assert_eq!(BwapiLanMode::from_lowercase("x"), None);
}

#[test]
fn lan_mode_labels() {
    assert_eq!(BwapiLanMode::LocalAreaNetworkUDP.label(), "Local Area Network (UDP)");
    assert_eq!(BwapiLanMode::LocalPC.label(), "Local PC");
}
