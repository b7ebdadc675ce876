use hydroottawa_api::error::Error;
use hydroottawa_api::token::{bearer_token, is_all_visible, starts_with_bearer, token_header};

#[test]
fn bearer_value_yields_the_token() {
    assert_eq!(bearer_token(Some(b"Bearer abc123")).unwrap(), "abc123");
}

#[test]
fn value_without_prefix_is_an_invalid_format() {
    match bearer_token(Some(b"abc123")) {
        Err(Error::InvalidTokenFormat(why)) => {
            assert_eq!(why, "Token doesn't start with 'Bearer '")
        }
        _ => panic!("expected an invalid format"),
    }
}

#[test]
fn absent_header_is_missing() {
    match bearer_token(None) {
        Err(Error::MissingHeader(name)) => assert_eq!(name, "x-amzn-remapped-authorization"),
        _ => panic!("expected a missing header"),
    }
    assert_eq!(token_header(), "x-amzn-remapped-authorization");
}

#[test]
fn prefix_is_matched_exactly() {
    assert!(matches!(bearer_token(Some(b"bearer abc")), Err(Error::InvalidTokenFormat(_))));
    assert!(matches!(bearer_token(Some(b"Bearer")), Err(Error::InvalidTokenFormat(_))));
    assert!(matches!(bearer_token(Some(b"Bearerabc")), Err(Error::InvalidTokenFormat(_))));
    assert!(matches!(bearer_token(Some(b" Bearer abc")), Err(Error::InvalidTokenFormat(_))));
    assert!(matches!(bearer_token(Some(b"")), Err(Error::InvalidTokenFormat(_))));
    assert_eq!(bearer_token(Some(b"Bearer ")).unwrap(), "");
    assert_eq!(bearer_token(Some(b"Bearer  x")).unwrap(), " x");
    assert_eq!(bearer_token(Some(b"Bearer Bearer y")).unwrap(), "Bearer y");
    assert_eq!(bearer_token(Some(b"Bearer a.b-c_d~e\tf")).unwrap(), "a.b-c_d~e\tf");
}

#[test]
fn unreadable_value_is_an_invalid_header_value() {
    assert!(matches!(bearer_token(Some(b"Bearer ab\x00c")), Err(Error::InvalidHeaderValue)));
    assert!(matches!(bearer_token(Some(b"Bearer ab\x7fc")), Err(Error::InvalidHeaderValue)));
    assert!(matches!(bearer_token(Some(b"Bearer \xc3\xa9")), Err(Error::InvalidHeaderValue)));
    assert!(matches!(bearer_token(Some(b"\xffabc")), Err(Error::InvalidHeaderValue)));
}

#[test]
fn visible_bytes() {
    assert!(is_all_visible(b""));
    assert!(is_all_visible(b" ~\t"));
    assert!(!is_all_visible(b"\n"));
    assert!(!is_all_visible(&[31]));
    assert!(!is_all_visible(&[127]));
    assert!(!is_all_visible(&[128]));
    assert!(is_all_visible(&[32, 126, 9]));
}

#[test]
fn bearer_prefix_test() {
    assert!(starts_with_bearer(b"Bearer "));
    assert!(starts_with_bearer(b"Bearer x"));
    assert!(!starts_with_bearer(b"Bearer"));
    assert!(!starts_with_bearer(b"BEARER x"));
}
