use czn_core::errors::CoreError;
use czn_core::token::{interpret_token_file, token_file_payload};

#[test]
fn saving_then_loading_returns_the_token_with_blanks_stripped() {
    let payload = token_file_payload("  secret-token\r\n");
    assert_eq!(payload, "secret-token");
    let loaded = interpret_token_file(Some(payload.as_str())).unwrap();
    assert_eq!(loaded, "secret-token");
}

#[test]
fn an_already_clean_token_survives_the_round_trip_unchanged() {
    let payload = token_file_payload("tok.123");
    assert_eq!(payload, "tok.123");
    assert_eq!(interpret_token_file(Some(payload.as_str())).unwrap(), "tok.123");
}

#[test]
fn loading_with_no_token_file_fails_as_not_authenticated() {
    match interpret_token_file(None) {
        Err(CoreError::NotAuthenticated) => {}
        _ => panic!("a missing file must read as NotAuthenticated"),
    }
}

#[test]
fn a_file_of_blanks_alone_reads_as_not_authenticated() {
    match interpret_token_file(Some(" \t\r\n ")) {
        Err(CoreError::NotAuthenticated) => {}
        _ => panic!("a blank file must read as NotAuthenticated"),
    }
}

#[test]
fn unicode_whitespace_is_stripped_like_the_ascii_blanks() {
    // Vertical tab, no-break space, narrow no-break space, ideographic space.
    let payload = token_file_payload("\u{b}\u{a0}secret\u{202f}\u{3000}");
    assert_eq!(payload, "secret");
    assert_eq!(interpret_token_file(Some(payload.as_str())).unwrap(), "secret");
    match interpret_token_file(Some("\u{b}\u{a0}\u{2028}")) {
        Err(CoreError::NotAuthenticated) => {}
        _ => panic!("a file of Unicode whitespace alone must read as NotAuthenticated"),
    }
}
