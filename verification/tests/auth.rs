use ferrosonic::subsonic::auth::{
    generate_auth_params, generate_salt, generate_token, salt_from_indices, to_hex_lower,
};

#[test]
fn test_generate_token() {
    // Test with known values
    let token = generate_token("sesame", "c19b2d");
    assert_eq!(token, "26719a1196d2a940705a59634eb18eab");
}

#[test]
fn test_generate_salt_length() {
    let salt = generate_salt();
    assert_eq!(salt.len(), 16);
}

#[test]
fn test_auth_params() {
    let (salt, token) = generate_auth_params("password");
    assert_eq!(salt.len(), 16);
    assert_eq!(token.len(), 32); // MD5 hex is 32 chars
}

#[test]
fn salt_uses_digits_and_lowercase_letters() {
    for _ in 0..20 {
        let salt = generate_salt();
        assert!(salt.chars().all(|c| c.is_ascii_digit() || c.is_ascii_lowercase()));
    }
}

#[test]
fn token_matches_generated_salt() {
    let (salt, token) = generate_auth_params("password");
    assert_eq!(token, generate_token("password", &salt));
}

#[test]
fn salt_from_indices_maps_digits_then_letters() {
    let indices: [u8; 16] = [0, 1, 9, 10, 11, 35, 34, 20, 5, 5, 5, 5, 12, 13, 14, 15];
    assert_eq!(salt_from_indices(&indices), "019abzyk5555cdef");
}

#[test]
fn hex_is_lowercase_two_digits_per_byte() {
    assert_eq!(to_hex_lower(&[0x00, 0x0f, 0xa0, 0xff]), "000fa0ff");
    assert_eq!(to_hex_lower(&[]), "");
}

#[test]
fn token_of_empty_password_and_salt_is_md5_of_nothing() {
    assert_eq!(generate_token("", ""), "d41d8cd98f00b204e9800998ecf8427e");
}

#[test]
fn token_uses_utf8_bytes_of_password() {
    // md5("é") where é is encoded as 0xc3 0xa9
    assert_eq!(generate_token("é", ""), generate_token("\u{e9}", ""));
    assert_ne!(generate_token("é", "a"), generate_token("e", "a"));
}
