use chat_server_v1::{ClientId, RoomCode};

#[test]
fn test_client_id_unique() {
    let id1 = ClientId::new();
    let id2 = ClientId::new();
    assert_ne!(id1, id2);
}

#[test]
fn test_room_code_length() {
    let code = RoomCode::generate();
    assert_eq!(code.0.len(), 6);
}

#[test]
fn test_room_code_uppercase() {
    let code = RoomCode::from_string("abc123".to_string());
    assert_eq!(code.0, "ABC123");
}

#[test]
fn client_id_carries_version_and_variant_bits() {
    for _ in 0..64 {
        let id = ClientId::new();
        assert_eq!((id.0 >> 76) & 0xf, 4);
        assert_eq!((id.0 >> 62) & 0x3, 2);
    }
}

#[test]
fn default_client_id_is_random() {
    let id1 = ClientId::default();
    let id2 = ClientId::default();
    assert_ne!(id1, id2);
    assert_eq!((id1.0 >> 76) & 0xf, 4);
}

#[test]
fn client_id_text_is_hyphenated_lowercase_hex() {
    let id = ClientId(0xa1a2a3a4b1b2c1c2d1d2d3d4d5d6d7d8);
    assert_eq!(id.to_string(), "a1a2a3a4-b1b2-c1c2-d1d2-d3d4d5d6d7d8");
    assert_eq!(ClientId(0).to_string(), "00000000-0000-0000-0000-000000000000");
    assert_eq!(ClientId(0xf).to_string(), "00000000-0000-0000-0000-00000000000f");
    assert_eq!(
        ClientId(u128::MAX).to_string(),
        "ffffffff-ffff-ffff-ffff-ffffffffffff"
    );
    assert_eq!(
        ClientId(0x0123456789abcdef0123456789abcdef).to_string(),
        "01234567-89ab-cdef-0123-456789abcdef"
    );
}

#[test]
fn client_id_equality_is_identity_of_bits() {
    assert_eq!(ClientId(7), ClientId(7));
    assert_ne!(ClientId(7), ClientId(8));
    let id = ClientId(7);
    let copy = id;
    assert_eq!(id, copy);
}

#[test]
fn generated_codes_are_six_uppercase_alphanumerics() {
    for _ in 0..500 {
        let code = RoomCode::generate();
        assert_eq!(code.0.chars().count(), 6);
        assert!(code
            .0
            .chars()
            .all(|c| c.is_ascii_uppercase() || c.is_ascii_digit()));
        assert!(code.is_canonical());
    }
}

#[test]
fn generated_codes_vary() {
    let first = RoomCode::generate();
    let mut differs = false;
    for _ in 0..50 {
        if RoomCode::generate() != first {
            differs = true;
        }
    }
    assert!(differs);
}

#[test]
fn from_string_canonicalizes_mixed_case() {
    assert_eq!(RoomCode::from_string("aBc1Z9".to_string()).0, "ABC1Z9");
    assert_eq!(RoomCode::from_string("XYZ789".to_string()).0, "XYZ789");
    assert_eq!(RoomCode::from_string(String::new()).0, "");
    assert_eq!(
        RoomCode::from_string("abc123".to_string()),
        RoomCode::from_string("ABC123".to_string())
    );
}

#[test]
fn from_string_follows_unicode_case_mapping() {
    assert_eq!(RoomCode::from_string("stra\u{df}e".to_string()).0, "STRASSE");
    assert_eq!(RoomCode::from_string("\u{e9}t\u{e9}".to_string()).0, "\u{c9}T\u{c9}");
}

#[test]
fn room_code_to_string_is_its_text() {
    let code = RoomCode::from_string("q1w2e3".to_string());
    assert_eq!(code.to_string(), "Q1W2E3");
    assert_eq!(RoomCode("kept as is".to_string()).to_string(), "kept as is");
}

#[test]
fn is_canonical_tells_the_generated_form() {
    assert!(RoomCode("ABC123".to_string()).is_canonical());
    assert!(RoomCode("000000".to_string()).is_canonical());
    assert!(RoomCode("ZZZZZZ".to_string()).is_canonical());
    assert!(!RoomCode("abc123".to_string()).is_canonical());
    assert!(!RoomCode("ABC12".to_string()).is_canonical());
    assert!(!RoomCode("ABC1234".to_string()).is_canonical());
    assert!(!RoomCode("ABC 12".to_string()).is_canonical());
    assert!(!RoomCode("ABC-12".to_string()).is_canonical());
    assert!(!RoomCode("\u{c9}BC123".to_string()).is_canonical());
    assert!(!RoomCode(String::new()).is_canonical());
}
