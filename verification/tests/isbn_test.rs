use knowledge_vault::domain::work::{validate_isbn, WorkError, WorkStatus};

#[test]
fn valid_isbn13_is_accepted() {
    assert!(validate_isbn("9780132350884").is_ok());
}

#[test]
fn valid_isbn13_with_hyphens_is_accepted() {
    assert!(validate_isbn("978-0-13-235088-4").is_ok());
}

#[test]
fn isbn13_check_digit_mismatch_is_rejected() {
    let err = validate_isbn("9780132350885").unwrap_err();
    assert!(err.to_string().contains("check digit mismatch"));
}

#[test]
fn isbn13_with_non_digits_is_rejected() {
    let err = validate_isbn("978013235088X").unwrap_err();
    assert!(err.to_string().contains("only digits"));
}

#[test]
fn valid_isbn10_is_accepted() {
    assert!(validate_isbn("0132350882").is_ok());
}

#[test]
fn valid_isbn10_with_x_check_digit_is_accepted() {
    assert!(validate_isbn("080442957X").is_ok());
}

#[test]
fn valid_isbn10_with_hyphens_is_accepted() {
    assert!(validate_isbn("0-13-235088-2").is_ok());
}

#[test]
fn isbn10_check_digit_mismatch_is_rejected() {
    let err = validate_isbn("0132350883").unwrap_err();
    assert!(err.to_string().contains("check digit mismatch"));
}

#[test]
fn isbn10_invalid_check_char_is_rejected() {
    let err = validate_isbn("013235088Y").unwrap_err();
    assert!(err.to_string().contains("invalid check character"));
}

#[test]
fn too_short_isbn_is_rejected() {
    let err = validate_isbn("123456").unwrap_err();
    assert!(err.to_string().contains("expected 10 or 13"));
}

#[test]
fn eleven_digit_isbn_is_rejected() {
    let err = validate_isbn("12345678901").unwrap_err();
    assert!(err.to_string().contains("expected 10 or 13"));
}

#[test]
fn accepted_isbns_come_back_without_hyphens() {
    assert_eq!(validate_isbn("978-0-13-235088-4").ok(), Some("9780132350884".to_string()));
    assert_eq!(validate_isbn("0-13-235088-2").ok(), Some("0132350882".to_string()));
}

#[test]
fn a_normalised_isbn_is_accepted_unchanged() {
    let once = validate_isbn("978-0-13-235088-4").ok().unwrap();
    assert_eq!(validate_isbn(&once).ok(), Some(once.clone()));
}

#[test]
fn a_single_wrong_digit_is_detected() {
    // Each position of a valid ISBN-13 changed by one fails the check.
    let good: Vec<char> = "9780132350884".chars().collect();
    for i in 0..good.len() {
        let mut bad = good.clone();
        let d = bad[i].to_digit(10).unwrap();
        bad[i] = std::char::from_digit((d + 1) % 10, 10).unwrap();
        let s: String = bad.into_iter().collect();
        assert!(validate_isbn(&s).is_err(), "{s}");
    }
}

#[test]
fn the_length_error_names_the_byte_count() {
    let err = validate_isbn("123456").unwrap_err();
    match err {
        WorkError::InvalidIsbn(m) => assert_eq!(m, "Invalid ISBN — expected 10 or 13 digits, got 6"),
        _ => panic!("expected an invalid ISBN"),
    }
}

#[test]
fn work_statuses_have_their_stored_names() {
    assert_eq!(WorkStatus::Pending.as_str(), "pending");
    assert_eq!(WorkStatus::Processing.as_str(), "processing");
    assert_eq!(WorkStatus::Done.as_str(), "done");
    assert_eq!(WorkStatus::Failed.as_str(), "failed");
}
