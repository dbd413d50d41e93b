use gw2lib::endpoint::{Language, Schema};
use gw2lib::error::EndpointError;
use gw2lib::fingerprint::{fingerprint, Shape};
use gw2lib::request::{build_query, build_request, decimal_string, ids_query, item_path, page_query};
use gw2lib::specializations::Specialization;

const ACCOUNT: Schema = Schema {
    path: "v2/account",
    version: "2019-12-19T00:00:00.000Z",
    authenticated: true,
    locale: false,
    supports_all: false,
};

#[test]
fn localized_url_with_extra_query() {
    let url = build_query(
        &Specialization::schema(),
        "https://api.guildwars2.com",
        "v2/specializations",
        Language::De,
        Some("ids=1,2".to_string()),
    );
    assert_eq!(url, "https://api.guildwars2.com/v2/specializations?lang=de&ids=1,2");
}

#[test]
fn plain_urls() {
    let s = Specialization::schema();
    assert_eq!(
        build_query(&s, "http://h", "v2/specializations", Language::En, None),
        "http://h/v2/specializations?lang=en"
    );
    assert_eq!(build_query(&ACCOUNT, "http://h", "v2/account", Language::Fr, None), "http://h/v2/account?");
    assert_eq!(
        build_query(&ACCOUNT, "http://h", "v2/account", Language::Fr, Some("page=0".to_string())),
        "http://h/v2/account?page=0"
    );
}

#[test]
fn authenticated_resource_needs_key() {
    let r = build_request(&ACCOUNT, "http://h", "v2/account", Language::En, &None, None);
    assert!(matches!(r, Err(EndpointError::NotAuthenticated)));
}

#[test]
fn authenticated_request_carries_bearer() {
    let key = Some("SECRET-REDACTED".to_string());
    let r = build_request(&ACCOUNT, "http://h", "v2/account", Language::En, &key, None).unwrap();
    assert_eq!(r.url, "http://h/v2/account?");
    assert_eq!(
        r.headers,
        vec![
            ("X-Schema-Version".to_string(), "2019-12-19T00:00:00.000Z".to_string()),
            ("Authorization".to_string(), "Bearer SECRET-REDACTED".to_string()),
        ]
    );
}

#[test]
fn public_request_has_version_header_only() {
    let key = Some("k".to_string());
    let r = build_request(&Specialization::schema(), "http://h", "v2/specializations/72", Language::Es, &key, None)
        .unwrap();
    assert_eq!(r.url, "http://h/v2/specializations/72?lang=es");
    assert_eq!(
        r.headers,
        vec![("X-Schema-Version".to_string(), "2022-07-22T00:00:00.000Z".to_string())]
    );
}

#[test]
fn item_path_encodes_id() {
    assert_eq!(item_path("v2/skills", "14375"), "v2/skills/14375");
    assert_eq!(item_path("v2/professions", "Guardian"), "v2/professions/Guardian");
    assert_eq!(item_path("v2/things", "a b/c"), "v2/things/a%20b%2Fc");
    assert_eq!(item_path("v2/things", "é"), "v2/things/%C3%A9");
    assert_eq!(item_path("v2/things", "-._~"), "v2/things/-._~");
}

#[test]
fn queries() {
    assert_eq!(ids_query("1,2,3"), "ids=1,2,3");
    assert_eq!(page_query(0, 200), "page=0&page_size=200");
    assert_eq!(page_query(12, 5), "page=12&page_size=5");
    assert_eq!(decimal_string(0), "0");
    assert_eq!(decimal_string(1717), "1717");
    assert_eq!(decimal_string(u64::MAX), "18446744073709551615");
}

#[test]
fn fingerprints_tell_requests_apart() {
    let a = fingerprint(Shape::Item, "v2/skills", "42", Some(Language::En));
    assert_eq!(a, fingerprint(Shape::Item, "v2/skills", "42", Some(Language::En)));
    assert_ne!(a, fingerprint(Shape::Item, "v2/skills", "43", Some(Language::En)));
    assert_ne!(a, fingerprint(Shape::Item, "v2/skills", "42", Some(Language::De)));
    assert_ne!(a, fingerprint(Shape::Item, "v2/skills", "42", None));
    assert_ne!(a, fingerprint(Shape::IdList, "v2/skills", "42", Some(Language::En)));
    assert_ne!(
        fingerprint(Shape::Item, "v2/ab", "c", None),
        fingerprint(Shape::Item, "v2/a", "bc", None)
    );
}

#[test]
fn language_only_for_localized_resources() {
    assert_eq!(Specialization::schema().language_for(Language::Fr), Some(Language::Fr));
    assert_eq!(ACCOUNT.language_for(Language::Fr), None);
}

#[test]
fn language_codes() {
    assert_eq!(Language::En.as_str(), "en");
    assert_eq!(Language::Es.as_str(), "es");
    assert_eq!(Language::De.as_str(), "de");
    assert_eq!(Language::Fr.as_str(), "fr");
    assert_eq!(Language::Zh.as_str(), "zh");
}
