use secure_chat_backend::middleware::auth::{authorization_token, token_rejected};
use secure_chat_backend::error::AppError;
use secure_chat_backend::server::{
    access_expiry_setting, fallback, health_check, host_setting, port_setting,
};
use secure_chat_backend::text::{joined, parse_i64, parse_u16, strip_prefix};

fn validation_text(e: AppError) -> String {
    match e {
        AppError::Validation(m) => m,
        _ => panic!("expected a validation error"),
    }
}

#[test]
fn parse_u16_reads_plain_and_signed_digits() {
    assert_eq!(parse_u16("3000"), Some(3000));
    assert_eq!(parse_u16("+80"), Some(80));
    assert_eq!(parse_u16("0"), Some(0));
    assert_eq!(parse_u16("65535"), Some(65535));
    assert_eq!(parse_u16("007"), Some(7));
}

#[test]
fn parse_u16_refuses_what_std_refuses() {
    for text in ["", "+", "-", "-1", "65536", " 1", "1 ", "1a", "++1", "99999999999999999999999"] {
        assert_eq!(parse_u16(text), text.parse::<u16>().ok(), "{text:?}");
        assert_eq!(parse_u16(text), None, "{text:?}");
    }
}

#[test]
fn parse_i64_covers_the_whole_range() {
    assert_eq!(parse_i64("-9223372036854775808"), Some(i64::MIN));
    assert_eq!(parse_i64("9223372036854775807"), Some(i64::MAX));
    assert_eq!(parse_i64("9223372036854775808"), None);
    assert_eq!(parse_i64("-9223372036854775809"), None);
    assert_eq!(parse_i64("-0"), Some(0));
    assert_eq!(parse_i64("+900"), Some(900));
    assert_eq!(parse_i64("-"), None);
    assert_eq!(parse_i64("--1"), None);
}

#[test]
fn parse_agrees_with_std_on_samples() {
    let samples = [
        "0", "1", "-1", "+1", "42", "-42", "12x", "x12", "", "+", "-", "٣", "1_000",
        "18446744073709551615", "-32768", "32767", "65535", "65536",
    ];
    for text in samples {
        assert_eq!(parse_i64(text), text.parse::<i64>().ok(), "{text:?}");
        assert_eq!(parse_u16(text), text.parse::<u16>().ok(), "{text:?}");
    }
}

#[test]
fn strip_prefix_and_concat() {
    assert_eq!(strip_prefix("Bearer abc", "Bearer ").as_deref(), Some("abc"));
    assert_eq!(strip_prefix("Bearer ", "Bearer ").as_deref(), Some(""));
    assert_eq!(strip_prefix("Basic abc", "Bearer "), None);
    assert_eq!(strip_prefix("Bear", "Bearer "), None);
    assert_eq!(strip_prefix("éé-x", "éé-").as_deref(), Some("x"));
    assert_eq!(joined("ab", "cd"), "abcd");
}

#[test]
fn authorization_header_needs_bearer_scheme() {
    assert_eq!(authorization_token(Some("Bearer tok.en.x")).ok().as_deref(), Some("tok.en.x"));
    let missing = authorization_token(None).err().unwrap();
    assert_eq!(validation_text(missing), "Missing authorization header");
    let wrong = authorization_token(Some("bearer tok")).err().unwrap();
    assert_eq!(validation_text(wrong), "Invalid authorization header format");
    let wrong = authorization_token(Some("Token tok")).err().unwrap();
    assert_eq!(validation_text(wrong), "Invalid authorization header format");
}

#[test]
fn rejected_token_names_the_reason() {
    assert_eq!(validation_text(token_rejected("ExpiredSignature")), "Invalid token: ExpiredSignature");
}

#[test]
fn server_settings_defaults() {
    assert_eq!(host_setting(None), "127.0.0.1");
    assert_eq!(host_setting(Some("0.0.0.0".to_string())), "0.0.0.0");
    assert_eq!(port_setting(None), Some(3000));
    assert_eq!(port_setting(Some("8080")), Some(8080));
    assert_eq!(port_setting(Some("http")), None);
    assert_eq!(access_expiry_setting(None), Some(900));
    assert_eq!(access_expiry_setting(Some("60")), Some(60));
    assert_eq!(access_expiry_setting(Some("1.5")), None);
}

#[test]
fn health_report_says_whether_database_answers() {
    let up = health_check(true, "2024-01-01T00:00:00Z".to_string(), "0.1.0".to_string());
    assert_eq!(up.status, "ok");
    assert_eq!(up.database, "connected");
    assert_eq!(up.timestamp, "2024-01-01T00:00:00Z");
    assert_eq!(up.version, "0.1.0");
    let down = health_check(false, String::new(), String::new());
    assert_eq!(down.database, "disconnected");
}

#[test]
fn fallback_names_method_and_path() {
    assert_eq!(fallback("GET", "/nowhere"), "No route found for GET /nowhere");
}
