use tower_sesh::{Id, IdParseError};

#[test]
fn id_text_has_22_characters_and_parses_back() {
    for value in [0i128, 1, -1, i128::MAX, i128::MIN, 123_456_789_012_345_678_901_234_567] {
        let id = Id(value);
        let text = id.to_string();
        assert_eq!(text.len(), 22);
        assert_eq!(Id::from_str(&text).unwrap(), id);
    }
}

#[test]
fn id_text_is_url_safe_base64_of_little_endian_bytes() {
    assert_eq!(Id(0).to_string(), "AAAAAAAAAAAAAAAAAAAAAA");
    assert_eq!(Id(1).to_string(), "AQAAAAAAAAAAAAAAAAAAAA");
    assert_eq!(Id(-1).to_string(), "_____________________w");
}

#[test]
fn bogus_text_is_refused() {
    assert!(matches!(Id::from_str("bogus"), Err(IdParseError::Decode(_))));
    assert!(matches!(Id::from_str("AA"), Err(IdParseError::InvalidLength(1))));
    // A final symbol whose unused bits are set is not the encoding of any bytes.
    assert!(matches!(Id::from_str("AB"), Err(IdParseError::Decode(_))));
    assert!(matches!(Id::from_str("AA=="), Err(IdParseError::Decode(_))));
    assert!(matches!(Id::from_str(""), Err(IdParseError::InvalidLength(0))));
    assert!(matches!(Id::from_str("AAAA"), Err(IdParseError::InvalidLength(3))));
    assert!(matches!(Id::from_str("not base64!"), Err(IdParseError::Decode(_))));
    assert!(matches!(Id::from_str("AAAAAAAAAAAAAAAAAAAAAAAAAAAA"), Err(IdParseError::Decode(_))));
}

#[test]
fn random_ids_differ() {
    assert_ne!(Id::random(), Id::random());
}
