use leetify::DataSource;

#[test]
fn test_data_source_conversion() {
    let ds: DataSource = "faceit".into();
    assert!(matches!(ds, DataSource::FACEIT));
    assert_eq!(ds.as_str(), "faceit");

    let ds: DataSource = "matchmaking".into();
    assert!(matches!(ds, DataSource::Matchmaking));
    assert_eq!(ds.as_str(), "matchmaking");

    let ds: DataSource = "other".into();
    match ds {
        DataSource::Other(s) => assert_eq!(s, "other"),
        _ => panic!("Expected Other variant"),
    }
}

#[test]
fn data_source_text_round_trip() {
    for text in ["faceit", "matchmaking", "other", "", "FACEIT", "faceit ", "Matchmaking"] {
        let borrowed = DataSource::from(text);
        assert_eq!(borrowed.as_str(), text);
        let owned = DataSource::from(text.to_string());
        assert_eq!(owned.as_str(), text);
        assert_eq!(borrowed, owned);
    }
}

#[test]
fn data_source_names_are_case_sensitive() {
    assert_eq!(DataSource::from("FACEIT"), DataSource::Other("FACEIT".to_string()));
    assert_eq!(DataSource::from("Matchmaking"), DataSource::Other("Matchmaking".to_string()));
    assert_eq!(DataSource::from("faceit"), DataSource::FACEIT);
    assert_eq!(DataSource::from("matchmaking".to_string()), DataSource::Matchmaking);
}

#[test]
fn data_source_value_round_trip() {
    for source in [
        DataSource::FACEIT,
        DataSource::Matchmaking,
        DataSource::Other("other".to_string()),
        DataSource::Other(String::new()),
    ] {
        assert_eq!(DataSource::from(source.as_str()), source);
        assert_eq!(source.clone(), source);
    }
}

#[test]
fn other_with_a_known_name_is_read_as_that_source() {
    let odd = DataSource::Other("faceit".to_string());
    assert_eq!(odd.as_str(), "faceit");
    assert_eq!(DataSource::from(odd.as_str()), DataSource::FACEIT);
    let odd = DataSource::Other("matchmaking".to_string());
    assert_eq!(DataSource::from(odd.as_str()), DataSource::Matchmaking);
}
