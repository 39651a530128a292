use governor_error::decimal::u64_to_decimal;
use governor_error::errors::wait_message;
use governor_error::GovernorError;
use http::header::HeaderValue;
use http::{HeaderMap, StatusCode};

#[test]
fn decimal_of_small_numbers() {
    assert_eq!(u64_to_decimal(0), "0");
    assert_eq!(u64_to_decimal(7), "7");
    assert_eq!(u64_to_decimal(10), "10");
    assert_eq!(u64_to_decimal(42), "42");
    assert_eq!(u64_to_decimal(100), "100");
    assert_eq!(u64_to_decimal(1234567890), "1234567890");
}

#[test]
fn decimal_of_the_largest_number() {
    assert_eq!(u64_to_decimal(u64::MAX), "18446744073709551615");
    assert_eq!(u64_to_decimal(u64::MAX - 1), "18446744073709551614");
}

#[test]
fn decimal_round_powers_of_ten() {
    let mut power: u64 = 1;
    for zeros in 0..20 {
        let mut expected = String::from("1");
        for _ in 0..zeros {
            expected.push('0');
        }
        assert_eq!(u64_to_decimal(power), expected);
        if zeros < 19 {
            assert_eq!(u64_to_decimal(power * 10 - 1), "9".repeat(zeros + 1));
            power *= 10;
        }
    }
}

#[test]
fn decimal_agrees_with_std() {
    let mut n: u64 = 0x9E37_79B9_7F4A_7C15;
    for _ in 0..500 {
        n ^= n << 13;
        n ^= n >> 7;
        n ^= n << 17;
        assert_eq!(u64_to_decimal(n), n.to_string());
        assert_eq!(u64_to_decimal(n % 1000), (n % 1000).to_string());
    }
}

#[test]
fn wait_message_for_five_seconds() {
    assert_eq!(wait_message(5), "Too Many Requests! Wait for 5s");
    assert_eq!(wait_message(0), "Too Many Requests! Wait for 0s");
    assert_eq!(wait_message(120), "Too Many Requests! Wait for 120s");
}

#[test]
fn description_of_quota() {
    let error = GovernorError::TooManyRequests { wait_time: 30, headers: None };
    assert_eq!(error.description(), "Too Many Requests! Wait for 30s");
}

#[test]
fn description_of_quota_ignores_headers() {
    let mut headers = HeaderMap::new();
    headers.insert("retry-after", HeaderValue::from_static("30"));
    let error = GovernorError::TooManyRequests { wait_time: 30, headers: Some(headers) };
    assert_eq!(error.description(), "Too Many Requests! Wait for 30s");
}

#[test]
fn description_of_missing_key() {
    assert_eq!(GovernorError::UnableToExtractKey.description(), "Unable to extract key!");
}

#[test]
fn description_of_custom_is_fixed() {
    let error = GovernorError::Other {
        code: StatusCode::FORBIDDEN,
        msg: Some("blocked".to_string()),
        headers: None,
    };
    assert_eq!(error.description(), "Other Error");
    let error = GovernorError::Other { code: StatusCode::OK, msg: None, headers: None };
    assert_eq!(error.description(), "Other Error");
}

#[test]
fn description_leaves_the_value_usable() {
    let error = GovernorError::TooManyRequests { wait_time: 8, headers: None };
    let first = error.description();
    let second = error.description();
    assert_eq!(first, second);
    assert_eq!(error.render_http().body, first);
}

#[test]
fn clone_says_the_same() {
    let mut headers = HeaderMap::new();
    headers.insert("x-a", HeaderValue::from_static("1"));
    let error = GovernorError::Other {
        code: StatusCode::CONFLICT,
        msg: Some("twice".to_string()),
        headers: Some(headers),
    };
    let copy = error.clone();
    let first = error.render_http();
    let second = copy.render_http();
    assert_eq!(first.status, second.status);
    assert_eq!(first.body, second.body);
    assert_eq!(first.headers, second.headers);
    assert_eq!(first.status.as_u16(), 409);
    assert_eq!(first.body, "twice");
    assert_eq!(first.headers.get("x-a").unwrap(), "1");
}

#[test]
fn clone_of_each_variant() {
    let quota = GovernorError::TooManyRequests { wait_time: 4, headers: None };
    assert!(matches!(
        quota.clone(),
        GovernorError::TooManyRequests { wait_time: 4, headers: None }
    ));
    assert!(matches!(
        GovernorError::UnableToExtractKey.clone(),
        GovernorError::UnableToExtractKey
    ));
    let other = GovernorError::Other { code: StatusCode::GONE, msg: None, headers: None };
    match other.clone() {
        GovernorError::Other { code, msg, headers } => {
            assert_eq!(code, StatusCode::GONE);
            assert_eq!(msg, None);
            assert!(headers.is_none());
        }
        _ => panic!("a clone changed its variant"),
    }
}

#[test]
fn debug_names_the_variant() {
    let text = format!("{:?}", GovernorError::UnableToExtractKey);
    assert_eq!(text, "UnableToExtractKey");
}
