use cfwgen::identity::generate_random_string;
use cfwgen::request::build_registration_request;

#[test]
fn maps_entropy_bytes_onto_the_alphabet_in_order() {
    let entropy = vec![0u8, 25, 26, 51, 52, 61];
    assert_eq!(generate_random_string(6, &entropy), "AZaz09");
}

#[test]
fn reduces_entropy_bytes_modulo_the_alphabet_size() {
    let entropy = vec![62u8, 255];
    // 62 wraps to 0 ('A'); 255 wraps to 7 ('H').
    assert_eq!(generate_random_string(2, &entropy), "AH");
}

#[test]
fn identifier_has_requested_length_and_alphabet() {
    let entropy: Vec<u8> = (0u8..=255).collect();
    let s = generate_random_string(200, &entropy);
    assert_eq!(s.chars().count(), 200);
    assert!(s.chars().all(|c| c.is_ascii_alphanumeric()));
}

#[test]
fn install_id_is_22_chars_and_suffix_is_134_chars() {
    let id_entropy = vec![7u8; 22];
    let suffix_entropy = vec![200u8; 134];
    let req = build_registration_request("KEY=", "2024-01-01T00:00:00+00:00", &id_entropy, &suffix_entropy);
    assert_eq!(req.install_id.chars().count(), 22);
    assert!(req.install_id.chars().all(|c| c.is_ascii_alphanumeric()));
    let (prefix, rest) = req.fcm_token.split_at(22);
    assert_eq!(prefix, req.install_id);
    assert!(rest.starts_with(":APA91b"));
    let suffix = &rest[":APA91b".len()..];
    assert_eq!(suffix.chars().count(), 134);
    assert!(suffix.chars().all(|c| c.is_ascii_alphanumeric()));
}

#[test]
fn distinct_entropy_gives_distinct_identities() {
    // Two pipeline runs draw fresh randomness; with differing draws the
    // identifiers and tokens differ.
    let first_id = vec![1u8; 22];
    let second_id = vec![2u8; 22];
    let suffix_a = vec![3u8; 134];
    let suffix_b = vec![4u8; 134];
    let a = build_registration_request("KEY=", "t", &first_id, &suffix_a);
    let b = build_registration_request("KEY=", "t", &second_id, &suffix_b);
    assert_ne!(a.install_id, b.install_id);
    assert_ne!(a.fcm_token, b.fcm_token);
}
