use deimos::token_key::DeimosTokenKey;

#[test]
fn to_base64_uses_url_safe_alphabet_with_padding() {
    let key = DeimosTokenKey::from_bytes(vec![0xfb, 0xff]);
    assert_eq!(key.to_base64(), "-_8=");
}

#[test]
fn to_base64_of_known_text() {
    let key = DeimosTokenKey::from_bytes(b"hello".to_vec());
    assert_eq!(key.to_base64(), "aGVsbG8=");
}

#[test]
fn from_base64_decodes_url_safe_text() {
    let key = DeimosTokenKey::from_base64("-_8=").unwrap();
    assert_eq!(key.as_bytes(), &[0xfb, 0xff]);
}

#[test]
fn from_base64_rejects_standard_alphabet_symbols() {
    assert!(DeimosTokenKey::from_base64("+/8=").is_err());
}

#[test]
fn from_base64_rejects_missing_padding() {
    assert!(DeimosTokenKey::from_base64("-_8").is_err());
}

#[test]
fn from_base64_rejects_garbage() {
    assert!(DeimosTokenKey::from_base64("***").is_err());
}

#[test]
fn base64_round_trip_of_random_sized_keys() {
    for len in 0..70usize {
        let bytes: Vec<u8> = (0..len).map(|i| (i * 37 + 11) as u8).collect();
        let key = DeimosTokenKey::from_bytes(bytes.clone());
        let text = key.to_base64();
        let back = DeimosTokenKey::from_base64(&text).unwrap();
        assert_eq!(back.to_bytes(), bytes);
    }
}

#[test]
fn debug_text_never_shows_the_key() {
    let key = DeimosTokenKey::from_bytes(vec![1, 2, 3]);
    assert_eq!(key.debug_text(), "LEAKED DEIMOS AUTH TOKEN");
}

#[test]
fn wipe_forgets_the_key() {
    let mut key = DeimosTokenKey::from_bytes(vec![9; 64]);
    key.wipe();
    assert!(key.as_bytes().is_empty());
}

#[test]
fn clone_keeps_the_bytes() {
    let key = DeimosTokenKey::from_bytes(vec![4, 5, 6]);
    let copy = key.clone();
    assert_eq!(copy.to_bytes(), vec![4, 5, 6]);
}

#[test]
fn encoded_length_is_four_per_three_bytes() {
    for n in 0..10usize {
        let key = DeimosTokenKey::from_bytes(vec![7u8; n]);
        assert_eq!(key.to_base64().len(), 4 * ((n + 2) / 3));
    }
    assert_eq!(DeimosTokenKey::from_bytes(vec![0u8; 64]).to_base64().len(), 88);
}
