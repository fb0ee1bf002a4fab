use leetify::{is_uuid_format, Id, LeetifyId, Steam64Id};

#[test]
fn test_player_id_conversion() {
    // Test Steam64 ID conversion (numeric, 17 digits)
    let id: Id = "76561198283431555".into();
    assert!(matches!(id, Id::Steam64(_)));

    // Test Leetify ID conversion (UUID format)
    let id: Id = "5ea07280-2399-4c7e-88ab-f2f7db0c449f".into();
    assert!(matches!(id, Id::Leetify(_)));

    // Test explicit Steam64 variant
    let id = Id::Steam64("76561198283431555".into());
    assert!(matches!(id, Id::Steam64(_)));

    // Test explicit Leetify variant
    let id = Id::Leetify("5ea07280-2399-4c7e-88ab-f2f7db0c449f".into());
    assert!(matches!(id, Id::Leetify(_)));

    // Test that numeric strings >= 15 digits are treated as Steam64
    let id: Id = "76561198000000000".into();
    assert!(matches!(id, Id::Steam64(_)));

    // Test that UUID format strings are treated as Leetify
    let id: Id = "00000000-0000-0000-0000-000000000000".into();
    assert!(matches!(id, Id::Leetify(_)));
}

#[test]
fn test_steam64_id_conversion() {
    let id: Steam64Id = "76561198000000000".into();
    assert_eq!(id.as_ref(), "76561198000000000");
}

#[test]
fn test_leetify_id_conversion() {
    let id: LeetifyId = "user-123".into();
    assert_eq!(id.as_ref(), "user-123");
}

#[test]
fn id_wrappers_from_owned_text() {
    let id = Steam64Id::from(String::from("76561198000000000"));
    assert_eq!(id, Steam64Id("76561198000000000".to_string()));
    let id = LeetifyId::from(String::from("5ea07280-2399-4c7e-88ab-f2f7db0c449f"));
    assert_eq!(id.0, "5ea07280-2399-4c7e-88ab-f2f7db0c449f");
    assert_eq!(id.clone(), id);
}

#[test]
fn id_from_explicit_variants() {
    let id: Id = Steam64Id::from("abc").into();
    assert_eq!(id, Id::Steam64(Steam64Id("abc".to_string())));
    let id: Id = LeetifyId::from("123456789012345").into();
    assert_eq!(id, Id::Leetify(LeetifyId("123456789012345".to_string())));
}

#[test]
fn uuid_format_accepts_the_shape() {
    assert!(is_uuid_format("5ea07280-2399-4c7e-88ab-f2f7db0c449f"));
    assert!(is_uuid_format("00000000-0000-0000-0000-000000000000"));
    assert!(is_uuid_format("ABCDEFAB-CDEF-abcd-efAB-0123456789aF"));
    assert!(is_uuid_format("12345678-1234-1234-1234-123456789012"));
}

#[test]
fn uuid_format_rejects_wrong_lengths() {
    assert!(!is_uuid_format(""));
    assert!(!is_uuid_format("5ea07280-2399-4c7e-88ab-f2f7db0c449"));
    assert!(!is_uuid_format("5ea07280-2399-4c7e-88ab-f2f7db0c449f0"));
    assert!(!is_uuid_format("5ea0728-02399-4c7e-88ab-f2f7db0c449f"));
    assert!(!is_uuid_format("5ea07280-2399-4c7e-88abf-2f7db0c449f"));
    assert!(!is_uuid_format("5ea0728023994c7e88abf2f7db0c449f"));
}

#[test]
fn uuid_format_rejects_wrong_group_counts() {
    assert!(!is_uuid_format("5ea07280-2399-4c7e-88ab"));
    assert!(!is_uuid_format("5ea07280-2399-4c7e-88ab-f2f7d-0c449f"));
    assert!(!is_uuid_format("5ea07280-2399-4c7e-88ab-f2f7db0c449-"));
    assert!(!is_uuid_format("-ea07280-2399-4c7e-88ab-f2f7db0c449f"));
    assert!(!is_uuid_format("------------------------------------"));
}

#[test]
fn uuid_format_rejects_other_characters() {
    assert!(!is_uuid_format("5ea0728g-2399-4c7e-88ab-f2f7db0c449f"));
    assert!(!is_uuid_format("5ea07280_2399_4c7e_88ab_f2f7db0c449f"));
    assert!(!is_uuid_format("5ea07280-2399-4c7e-88ab-f2f7db0c449 "));
    assert!(!is_uuid_format("5ea0728\u{e9}-2399-4c7e-88ab-f2f7db0c449f"));
    assert!(!is_uuid_format("5ea0728\u{ff10}-2399-4c7e-88ab-f2f7db0c449f"));
    // Eight bytes in the first group, yet not eight hexadecimal digits.
    assert!(!is_uuid_format("\u{e9}\u{e9}\u{e9}\u{e9}-2399-4c7e-88ab-f2f7db0c449f"));
}

#[test]
fn steam64_needs_fifteen_digits() {
    let id: Id = "123456789012345".into();
    assert_eq!(id, Id::Steam64(Steam64Id("123456789012345".to_string())));
    let id: Id = "12345678901234".into();
    assert_eq!(id, Id::Leetify(LeetifyId("12345678901234".to_string())));
    let id: Id = "1234567890123456789012345678901234567890".into();
    assert!(matches!(id, Id::Steam64(_)));
}

#[test]
fn steam64_needs_ascii_digits_only() {
    let id: Id = "7656119828343155a".into();
    assert!(matches!(id, Id::Leetify(_)));
    let id: Id = "76561198283431555 ".into();
    assert!(matches!(id, Id::Leetify(_)));
    let id: Id = "-76561198283431555".into();
    assert!(matches!(id, Id::Leetify(_)));
    let id: Id = "\u{661}\u{662}\u{663}\u{664}\u{665}\u{666}\u{667}\u{668}\u{669}\u{660}\u{661}\u{662}\u{663}\u{664}\u{665}".into();
    assert!(matches!(id, Id::Leetify(_)));
}

#[test]
fn unclear_text_is_taken_for_a_service_identifier() {
    let id: Id = "user-123".into();
    assert_eq!(id, Id::Leetify(LeetifyId("user-123".to_string())));
    let id: Id = "".into();
    assert_eq!(id, Id::Leetify(LeetifyId(String::new())));
    let id: Id = "not an identifier at all".into();
    assert!(matches!(id, Id::Leetify(_)));
}

#[test]
fn id_from_owned_text_agrees_with_borrowed() {
    for text in [
        "76561198283431555",
        "5ea07280-2399-4c7e-88ab-f2f7db0c449f",
        "00000000-0000-0000-0000-000000000000",
        "user-123",
        "12345678901234",
    ] {
        let borrowed: Id = text.into();
        let owned: Id = text.to_string().into();
        assert_eq!(borrowed, owned);
        let kept = match owned {
            Id::Steam64(id) => id.0,
            Id::Leetify(id) => id.0,
        };
        assert_eq!(kept, text);
    }
}

#[test]
fn id_clone_keeps_scheme_and_text() {
    let id: Id = "76561198283431555".into();
    assert_eq!(id.clone(), id);
    let id: Id = "5ea07280-2399-4c7e-88ab-f2f7db0c449f".into();
    assert_eq!(id.clone(), id);
}
