use caps_hangul::update::{
    available_version, is_newer, parse_semver, record_check, tag_from_header, tag_from_location,
    UpdateState, VERSION,
};

#[test]
fn extracts_tag_from_location() {
    assert_eq!(
        tag_from_location("https://github.com/o/r/releases/tag/v0.1.5").as_deref(),
        Some("v0.1.5")
    );
    assert_eq!(tag_from_location("https://github.com/o/r/releases"), None);
    assert_eq!(tag_from_location("https://github.com/o/r/releases/tag/"), None);
}

#[test]
fn compares_semver() {
    assert!(is_newer("v0.1.5", "0.1.4"));
    assert!(is_newer("1.0.0", "0.9.9"));
    assert!(is_newer("v0.2.0", "0.1.19"));
    assert!(!is_newer("v0.1.4", "0.1.4"));
    assert!(!is_newer("v0.0.9", "0.1.4"));
    assert!(!is_newer("not-a-version", "0.1.4"));
    assert!(!is_newer("v1.0", "0.1.4"));
}

#[test]
fn current_version_parses() {
    assert!(parse_semver(VERSION).is_some());
}

#[test]
fn tag_uses_last_marker() {
    assert_eq!(
        tag_from_location("/releases/tag/a/releases/tag/b2").as_deref(),
        Some("b2")
    );
    assert_eq!(tag_from_location("/releases/tag/x").as_deref(), Some("x"));
    assert_eq!(tag_from_location(""), None);
    assert_eq!(tag_from_location("/releases/ta"), None);
    assert_eq!(
        tag_from_location("https://github.com/o/r/releases/tag/한글").as_deref(),
        Some("한글")
    );
}

#[test]
fn semver_forms() {
    assert_eq!(parse_semver("v1.2.3"), Some((1, 2, 3)));
    assert_eq!(parse_semver("V1.2.3"), Some((1, 2, 3)));
    assert_eq!(parse_semver("1.2.3"), Some((1, 2, 3)));
    assert_eq!(parse_semver("vv1.2.3"), None);
    assert_eq!(parse_semver("1.2.3.4"), None);
    assert_eq!(parse_semver("1.2"), None);
    assert_eq!(parse_semver("1..3"), None);
    assert_eq!(parse_semver(""), None);
    assert_eq!(parse_semver("+1.+2.+3"), Some((1, 2, 3)));
    assert_eq!(parse_semver("1.2.-3"), None);
    assert_eq!(parse_semver("01.002.0003"), Some((1, 2, 3)));
    assert_eq!(
        parse_semver("18446744073709551615.0.0"),
        Some((18446744073709551615, 0, 0))
    );
    assert_eq!(parse_semver("18446744073709551616.0.0"), None);
    assert_eq!(parse_semver("1.2.3 "), None);
    assert_eq!(parse_semver("1.2.+"), None);
}

#[test]
fn semver_matches_std_parse() {
    for s in ["0.1.0", "v10.20.30", "1.2.x", "1.2.3.", ".1.2", "+5.0.0", "99999999999999999999.1.1"] {
        let t = s.strip_prefix('v').or_else(|| s.strip_prefix('V')).unwrap_or(s);
        let mut parts = t.split('.');
        let want = (|| {
            let a: u64 = parts.next()?.parse().ok()?;
            let b: u64 = parts.next()?.parse().ok()?;
            let c: u64 = parts.next()?.parse().ok()?;
            parts.next().is_none().then_some((a, b, c))
        })();
        assert_eq!(parse_semver(s), want, "mismatch for {s:?}");
    }
}

#[test]
fn newer_compares_major_first() {
    assert!(is_newer("2.0.0", "1.99.99"));
    assert!(!is_newer("1.99.99", "2.0.0"));
    assert!(is_newer("1.2.4", "1.2.3"));
    assert!(!is_newer("1.2.3", "not-a-version"));
}

#[test]
fn record_keeps_first_newer_tag() {
    assert_eq!(VERSION, "0.1.0");
    let mut st = UpdateState::new();
    assert_eq!(available_version(&st), None);
    assert!(!record_check(&mut st, None));
    assert!(!record_check(&mut st, Some("v0.1.0".to_string())));
    assert!(!record_check(&mut st, Some("v0.0.9".to_string())));
    assert!(!record_check(&mut st, Some("not-a-version".to_string())));
    assert_eq!(available_version(&st), None);
    assert!(record_check(&mut st, Some("v0.1.5".to_string())));
    assert_eq!(available_version(&st), Some("v0.1.5"));
    assert!(!record_check(&mut st, Some("v0.2.0".to_string())));
    assert!(!record_check(&mut st, None));
    assert_eq!(available_version(&st), Some("v0.1.5"));
}

#[test]
fn reported_tag_is_newer_than_this_version() {
    let mut st = UpdateState::new();
    for tag in ["v0.0.1", "0.1.0", "V0.1.0", "junk", "v1.0.0", "v0.0.2"] {
        record_check(&mut st, Some(tag.to_string()));
        if let Some(t) = available_version(&st) {
            assert!(is_newer(t, VERSION));
        }
    }
    assert_eq!(available_version(&st), Some("v1.0.0"));
}

#[test]
fn formatted_versions_parse_back() {
    for (a, b, c) in [(0u64, 0u64, 0u64), (1, 2, 3), (10, 20, 30), (u64::MAX, 0, u64::MAX), (7, 1000000, 99)] {
        assert_eq!(parse_semver(&format!("{a}.{b}.{c}")), Some((a, b, c)));
        assert_eq!(parse_semver(&format!("v{a}.{b}.{c}")), Some((a, b, c)));
        assert_eq!(parse_semver(&format!("V{a}.{b}.{c}")), Some((a, b, c)));
    }
}

#[test]
fn tag_from_utf16_header() {
    let text = "https://github.com/o/r/releases/tag/v0.1.5";
    let mut buf = [0u16; 512];
    let units: Vec<u16> = text.encode_utf16().collect();
    buf[..units.len()].copy_from_slice(&units);
    let len_bytes = (units.len() * 2) as u32;
    assert_eq!(tag_from_header(&buf, len_bytes).as_deref(), Some("v0.1.5"));
    // only the first bytes count
    assert_eq!(tag_from_header(&buf, 20), None);
    assert_eq!(tag_from_header(&buf, 0), None);
}
