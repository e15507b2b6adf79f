use auth_session::codec::decode_message;
use auth_session::codec::encode_response;
use auth_session::session::AuthSuccess;
use auth_session::session::Message;
use auth_session::session::Response;

#[test]
fn decode_login() {
    match decode_message("{\"type\":\"Login\",\"username\":\"alice\",\"password\":\"pw1\"}") {
        Some(Message::Login { username, password }) => {
            assert_eq!(username, "alice");
            assert_eq!(password, "pw1");
        },
        _ => panic!("expected Login"),
    }
}

#[test]
fn decode_logout() {
    assert!(matches!(decode_message("{\"type\":\"Logout\"}"), Some(Message::Logout)));
}

#[test]
fn decode_refresh_token() {
    match decode_message("{\"type\":\"RefreshToken\",\"token\":\"abc.def.ghi\"}") {
        Some(Message::RefreshToken { token }) => assert_eq!(token, "abc.def.ghi"),
        _ => panic!("expected RefreshToken"),
    }
}

#[test]
fn decode_allows_whitespace_and_any_field_order() {
    let raw = " {\t\"password\" : \"p\" ,\n\"type\" : \"Login\" , \"username\" : \"u\" } ";
    match decode_message(raw) {
        Some(Message::Login { username, password }) => {
            assert_eq!(username, "u");
            assert_eq!(password, "p");
        },
        _ => panic!("expected Login"),
    }
}

#[test]
fn decode_unescapes_string_contents() {
    let raw = "{\"type\":\"Login\",\"username\":\"a\\\"b\\\\c\",\"password\":\"\\u0041\\n\\t\\/\"}";
    match decode_message(raw) {
        Some(Message::Login { username, password }) => {
            assert_eq!(username, "a\"b\\c");
            assert_eq!(password, "A\n\t/");
        },
        _ => panic!("expected Login"),
    }
}

#[test]
fn decode_rejects_malformed_payloads() {
    assert!(decode_message("").is_none());
    assert!(decode_message("42").is_none());
    assert!(decode_message("not json").is_none());
    assert!(decode_message("{}").is_none());
    assert!(decode_message("{\"type\":\"Nope\"}").is_none());
    assert!(decode_message("{\"type\":\"Login\",\"username\":\"u\"}").is_none());
    assert!(decode_message("{\"type\":\"Logout\",\"type\":\"Logout\"}").is_none());
    assert!(decode_message("{\"type\":\"Logout\",\"extra\":\"x\"}").is_none());
    assert!(decode_message("{\"type\":\"Logout\"}trailing").is_none());
    assert!(decode_message("{\"type\":\"Logout\"").is_none());
    assert!(decode_message("{\"type\":1}").is_none());
    assert!(decode_message("{\"type\":\"RefreshToken\"}").is_none());
    assert!(decode_message("{\"type\":\"Login\",\"username\":\"u\",\"password\":\"p\",\"q\":\"r\"}").is_none());
}

#[test]
fn decode_rejects_bad_strings() {
    // Unescaped control character.
    assert!(decode_message("{\"type\":\"RefreshToken\",\"token\":\"a\nb\"}").is_none());
    // Unknown escape.
    assert!(decode_message("{\"type\":\"RefreshToken\",\"token\":\"\\q\"}").is_none());
    // Surrogate escape.
    assert!(decode_message("{\"type\":\"RefreshToken\",\"token\":\"\\uD800\"}").is_none());
    // Short hex escape.
    assert!(decode_message("{\"type\":\"RefreshToken\",\"token\":\"\\u00\"}").is_none());
}

#[test]
fn encode_bare_variants() {
    assert_eq!(encode_response(&Response::InvalidRequest), "{\"type\":\"InvalidRequest\"}");
    assert_eq!(encode_response(&Response::InvalidToken), "{\"type\":\"InvalidToken\"}");
    assert_eq!(encode_response(&Response::InvalidPassword), "{\"type\":\"InvalidPassword\"}");
    assert_eq!(encode_response(&Response::LoggedOut), "{\"type\":\"LoggedOut\"}");
    assert_eq!(encode_response(&Response::NotLoggedIn), "{\"type\":\"NotLoggedIn\"}");
}

#[test]
fn encode_success_and_registered_payloads() {
    let r = Response::Success(AuthSuccess { token: "t.k".to_string(), expires_at: 12345 });
    assert_eq!(
        encode_response(&r),
        "{\"type\":\"Success\",\"token\":\"t.k\",\"expires_at\":12345}",
    );
    let r = Response::Registered(AuthSuccess { token: "x".to_string(), expires_at: 0 });
    assert_eq!(
        encode_response(&r),
        "{\"type\":\"Registered\",\"token\":\"x\",\"expires_at\":0}",
    );
}

#[test]
fn encode_escapes_contents() {
    let r = Response::AlreadyAuthorized { username: "a\"b\\c\n\u{1}".to_string() };
    assert_eq!(
        encode_response(&r),
        "{\"type\":\"AlreadyAuthorized\",\"username\":\"a\\\"b\\\\c\\n\\u0001\"}",
    );
}

#[test]
fn encode_keeps_plain_unicode_unescaped() {
    let r = Response::AlreadyAuthorized { username: "k\u{e9}".to_string() };
    assert_eq!(
        encode_response(&r),
        "{\"type\":\"AlreadyAuthorized\",\"username\":\"k\u{e9}\"}",
    );
}
