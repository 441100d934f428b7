use knowledge_vault::domain::user::{
    email_verdict, generate_pat, hash_pat, pat_from_bytes, validate_email, validate_password, ValidationError,
};

#[test]
fn password_under_12_chars_is_invalid() {
    assert_eq!(
        validate_password("short").unwrap_err(),
        ValidationError::PasswordTooShort
    );
}

#[test]
fn password_exactly_11_chars_is_invalid() {
    assert_eq!(
        validate_password("12345678901").unwrap_err(),
        ValidationError::PasswordTooShort
    );
}

#[test]
fn password_exactly_12_chars_is_valid() {
    assert!(validate_password("123456789012").is_ok());
}

#[test]
fn password_over_12_chars_is_valid() {
    assert!(validate_password("this_is_a_valid_password").is_ok());
}

#[test]
fn invalid_email_format_is_rejected() {
    assert!(validate_email("not-an-email").is_err());
}

#[test]
fn email_missing_domain_is_rejected() {
    assert!(validate_email("user@").is_err());
}

#[test]
fn valid_email_is_accepted() {
    assert!(validate_email("user@example.com").is_ok());
}

#[test]
fn valid_email_with_subdomain_is_accepted() {
    assert!(validate_email("admin@mail.example.org").is_ok());
}

#[test]
fn generate_pat_has_ens_prefix() {
    let token = generate_pat();
    assert!(token.starts_with("ens_"), "PAT must start with ens_");
}

#[test]
fn generate_pat_produces_unique_tokens() {
    let a = generate_pat();
    let b = generate_pat();
    assert_ne!(a, b);
}

#[test]
fn hash_pat_is_deterministic() {
    let token = "ens_testtoken";
    assert_eq!(hash_pat(token), hash_pat(token));
}

#[test]
fn hash_pat_differs_for_different_tokens() {
    assert_ne!(hash_pat("ens_aaa"), hash_pat("ens_bbb"));
}

#[test]
fn password_length_counts_characters_not_bytes() {
    // Seven two-byte characters make fourteen bytes but only seven characters.
    assert!(validate_password("ñññññññ").is_err());
    assert!(validate_password("éééééééééééé").is_ok());
    assert!(validate_password("ééééééééééé").is_err());
}

#[test]
fn hash_pat_is_the_lowercase_hex_sha256() {
    assert_eq!(
        hash_pat("ens_testtoken"),
        "00900d0dcfd643fc1953d1f150540cebad567c5dc08c601088d569a7ca7bca65"
    );
}

#[test]
fn generated_tokens_carry_43_base64url_characters() {
    let token = generate_pat();
    assert_eq!(token.len(), 4 + 43);
    assert!(token[4..].chars().all(|c| c.is_ascii_alphanumeric() || c == '-' || c == '_'));
}

#[test]
fn a_token_is_its_prefix_and_the_url_safe_base64_of_its_bytes() {
    let bytes: Vec<u8> = (0u8..32).collect();
    assert_eq!(pat_from_bytes(&bytes), "ens_AAECAwQFBgcICQoLDA0ODxAREhMUFRYXGBkaGxwdHh8");
}

#[test]
fn the_email_error_carries_the_parser_text() {
    let e = validate_email("not-an-email").unwrap_err();
    match &e {
        ValidationError::InvalidEmail(m) => assert!(!m.is_empty()),
        _ => panic!("expected an invalid email"),
    }
    assert!(e.to_string().starts_with("Invalid email: "));
    assert_eq!(email_verdict(None), Ok(()));
    assert_eq!(
        email_verdict(Some("bad".to_string())),
        Err(ValidationError::InvalidEmail("bad".to_string()))
    );
}

#[test]
fn the_short_password_error_says_twelve() {
    assert_eq!(
        ValidationError::PasswordTooShort.to_string(),
        "Password must be at least 12 characters"
    );
}
