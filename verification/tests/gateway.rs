use paygate::{Error, Gateway};

#[test]
fn plain_key_defaults_to_sixty_seconds() {
    let gateway = Gateway::new("abc123".to_string(), None).expect("a plain key must be accepted");
    assert_eq!(gateway.timeout_millis(), 60000);
}

#[test]
fn explicit_timeout_is_kept() {
    let gateway = Gateway::new("abc123".to_string(), Some(5000)).unwrap();
    assert_eq!(gateway.timeout_millis(), 5000);
}

#[test]
fn control_character_in_key_is_refused() {
    let outcome = Gateway::new("abc\u{7}123".to_string(), None);
    assert_eq!(
        outcome.err(),
        Some(Error::Unspecified(
            "could not create auth header: the API key is not a valid header value".to_string()
        ))
    );
}

#[test]
fn newline_in_key_is_refused() {
    let outcome = Gateway::new("abc\n123".to_string(), None);
    assert!(matches!(outcome, Err(Error::Unspecified(_))));
}

#[test]
fn delete_character_in_key_is_refused() {
    let outcome = Gateway::new("abc\u{7f}123".to_string(), None);
    assert!(matches!(outcome, Err(Error::Unspecified(_))));
}

#[test]
fn tab_and_spaces_in_key_are_accepted() {
    assert!(Gateway::new("abc\tdef ghi".to_string(), None).is_ok());
}
