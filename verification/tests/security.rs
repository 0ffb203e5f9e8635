use desktop_layer::security::{hash_bytes, to_hex, validate_file};

#[test]
fn hex_renders_two_digits_per_byte() {
    assert_eq!(to_hex(&[]), "");
    assert_eq!(to_hex(&[0x00]), "00");
    assert_eq!(to_hex(&[0x00, 0xFF, 0x1A]), "00ff1a");
    assert_eq!(to_hex(&[0x9A, 0xBC, 0xDE, 0xF0]), "9abcdef0");
}

#[test]
fn hash_of_empty_input() {
    assert_eq!(
        hash_bytes(b""),
        "e3b0c44298fc1c149afbf4c8996fb92427ae41e4649b934ca495991b7852b855"
    );
}

#[test]
fn hash_of_known_input() {
    assert_eq!(
        hash_bytes(b"abc"),
        "ba7816bf8f01cfea414140de5dae2223b00361a396177a9cb410ff61f20015ad"
    );
}

#[test]
fn validate_accepts_matching_digest() {
    assert!(validate_file(
        b"abc",
        "ba7816bf8f01cfea414140de5dae2223b00361a396177a9cb410ff61f20015ad"
    ));
}

#[test]
fn validate_rejects_wrong_digest() {
    assert!(!validate_file(
        b"abc",
        "e3b0c44298fc1c149afbf4c8996fb92427ae41e4649b934ca495991b7852b855"
    ));
    assert!(!validate_file(b"abc", ""));
}

#[test]
fn validate_is_case_sensitive() {
    assert!(!validate_file(
        b"abc",
        "BA7816BF8F01CFEA414140DE5DAE2223B00361A396177A9CB410FF61F20015AD"
    ));
}
