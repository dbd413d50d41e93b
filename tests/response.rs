use gw2lib::error::{ApiError, EndpointError};
use gw2lib::response::{
    classify_status, get_cache_expiry, get_expire_from_header, get_header, parse_number, response_failure,
    StatusClass,
};

fn headers(pairs: &[(&str, &str)]) -> Vec<(String, Vec<u8>)> {
    pairs.iter().map(|(n, v)| (n.to_string(), v.as_bytes().to_vec())).collect()
}

#[test]
fn rate_limited_penalizes() {
    let c = classify_status(429);
    assert_eq!(c, StatusClass::RateLimited);
    assert!(c.penalizes());
    assert!(!c.needs_body());
    assert_eq!(
        response_failure(429, String::new()),
        Some(EndpointError::ApiError(ApiError::RateLimited))
    );
}

#[test]
fn unauthorized_does_not_penalize() {
    let c = classify_status(401);
    assert_eq!(c, StatusClass::Unauthorized);
    assert!(!c.penalizes());
    assert_eq!(
        response_failure(401, String::new()),
        Some(EndpointError::ApiError(ApiError::Unauthorized))
    );
}

#[test]
fn other_failures_carry_status_and_body() {
    let c = classify_status(404);
    assert_eq!(c, StatusClass::Other);
    assert!(c.needs_body());
    assert!(!c.penalizes());
    assert_eq!(
        response_failure(404, "{\"text\":\"no such id\"}".to_string()),
        Some(EndpointError::ApiError(ApiError::Other(404, "{\"text\":\"no such id\"}".to_string())))
    );
    assert_eq!(classify_status(500), StatusClass::Other);
    assert_eq!(classify_status(199), StatusClass::Other);
    assert_eq!(classify_status(300), StatusClass::Other);
}

#[test]
fn success_range() {
    assert_eq!(classify_status(200), StatusClass::Success);
    assert_eq!(classify_status(206), StatusClass::Success);
    assert_eq!(classify_status(299), StatusClass::Success);
    assert_eq!(response_failure(200, "x".to_string()), None);
}

#[test]
fn numbers() {
    assert_eq!(parse_number(b"300"), Some(300));
    assert_eq!(parse_number(b"+7"), Some(7));
    assert_eq!(parse_number(b"0"), Some(0));
    assert_eq!(parse_number(b""), None);
    assert_eq!(parse_number(b"+"), None);
    assert_eq!(parse_number(b"-5"), None);
    assert_eq!(parse_number(b"max-age=300"), None);
    assert_eq!(parse_number(b"18446744073709551615"), Some(u64::MAX));
    assert_eq!(parse_number(b"18446744073709551616"), None);
    assert_eq!(parse_number(b"99999999999999999999x"), None);
}

#[test]
fn first_matching_header_counts() {
    let h = headers(&[("x-result-total", "12"), ("cache-control", "60"), ("x-result-total", "13")]);
    assert_eq!(get_header(&h, &"x-result-total".to_string()), Some(12));
    assert_eq!(get_header(&h, &"x-page-total".to_string()), None);
    let bad = headers(&[("x-result-total", "many")]);
    assert_eq!(get_header(&bad, &"x-result-total".to_string()), None);
}

#[test]
fn expiry_sources() {
    let with_header = headers(&[("cache-control", "60")]);
    let unreadable = headers(&[("cache-control", "public, max-age=300")]);
    let long = headers(&[("cache-control", "900")]);
    assert_eq!(get_expire_from_header(&with_header), 300);
    assert_eq!(get_expire_from_header(&long), 900);
    assert_eq!(get_cache_expiry(1000, 0, &long), 1900);
    assert_eq!(get_expire_from_header(&unreadable), 300);
    assert_eq!(get_expire_from_header(&Vec::new()), 300);
    assert_eq!(get_cache_expiry(1000, 0, &with_header), 1300);
    assert_eq!(get_cache_expiry(1000, 0, &unreadable), 1300);
    assert_eq!(get_cache_expiry(1000, 5, &with_header), 1005);
    assert_eq!(get_cache_expiry(u64::MAX - 1, 0, &Vec::new()), u64::MAX);
}
