//! Building outbound requests: the URL with its path and query, and the
//! schema-version and authorization headers.

use vstd::prelude::*;
use vstd::string::StringExecFns;

use crate::endpoint::{Language, Schema};
use crate::error::EndpointError;

verus! {

/// Bytes that percent-encoding leaves as they are: ASCII letters, digits
/// and `-`, `.`, `_`, `~`.
pub open spec fn is_unreserved(b: u8) -> bool {
    (48 <= b <= 57) || (65 <= b <= 90) || (97 <= b <= 122) || b == 45 || b == 46 || b == 95
        || b == 126
}

/// The upper-case hexadecimal digit of `d < 16`, as an ASCII byte.
pub open spec fn hex_digit(d: u8) -> u8 {
    if d < 10 {
        (48 + d) as u8
    } else {
        (55 + d) as u8
    }
}

/// One byte percent-encoded: itself when unreserved, else `%` and two
/// upper-case hexadecimal digits.
pub open spec fn encode_byte(b: u8) -> Seq<u8> {
    if is_unreserved(b) {
        seq![b]
    } else {
        seq![37u8, hex_digit(b / 16), hex_digit(b % 16)]
    }
}

/// A byte string percent-encoded byte by byte.
pub open spec fn percent_encoded(bytes: Seq<u8>) -> Seq<u8>
    decreases bytes.len(),
{
    if bytes.len() == 0 {
        Seq::empty()
    } else {
        percent_encoded(bytes.drop_last()) + encode_byte(bytes.last())
    }
}

/// The text of a string of ASCII bytes.
pub open spec fn ascii_text(b: Seq<u8>) -> Seq<char> {
    b.map_values(|x: u8| x as char)
}

/// Relies on `urlencoding::encode`: it percent-encodes every byte of the
/// UTF-8 text except ASCII letters, digits and `-`, `_`, `.`, `~`, with
/// upper-case hexadecimal digits, so the result is ASCII.
#[verifier::external_body]
fn url_encode(s: &str) -> (r: String)
    ensures
        r@ == ascii_text(percent_encoded(vstd::utf8::encode_utf8(s@))),
{
    urlencoding::encode(s).into_owned()
}

/// The character of a decimal digit `d < 10`.
pub open spec fn digit_char(d: nat) -> char {
    if d == 0 {
        '0'
    } else if d == 1 {
        '1'
    } else if d == 2 {
        '2'
    } else if d == 3 {
        '3'
    } else if d == 4 {
        '4'
    } else if d == 5 {
        '5'
    } else if d == 6 {
        '6'
    } else if d == 7 {
        '7'
    } else if d == 8 {
        '8'
    } else {
        '9'
    }
}

/// The decimal writing of `n`, without sign or leading zeros.
pub open spec fn decimal(n: nat) -> Seq<char>
    decreases n,
{
    if n < 10 {
        seq![digit_char(n)]
    } else {
        decimal(n / 10) + seq![digit_char(n % 10)]
    }
}

fn digit_str(d: u64) -> (r: &'static str)
    requires
        d < 10,
    ensures
        r@ == seq![digit_char(d as nat)],
{
    proof {
        reveal_strlit("0");
        reveal_strlit("1");
        reveal_strlit("2");
        reveal_strlit("3");
        reveal_strlit("4");
        reveal_strlit("5");
        reveal_strlit("6");
        reveal_strlit("7");
        reveal_strlit("8");
        reveal_strlit("9");
    }
    if d == 0 {
        "0"
    } else if d == 1 {
        "1"
    } else if d == 2 {
        "2"
    } else if d == 3 {
        "3"
    } else if d == 4 {
        "4"
    } else if d == 5 {
        "5"
    } else if d == 6 {
        "6"
    } else if d == 7 {
        "7"
    } else if d == 8 {
        "8"
    } else {
        "9"
    }
}

/// `n` written in decimal.
pub fn decimal_string(n: u64) -> (r: String)
    ensures
        r@ == decimal(n as nat),
    decreases n,
{
    if n < 10 {
        String::from_str(digit_str(n))
    } else {
        let mut s = decimal_string(n / 10);
        s.append(digit_str(n % 10));
        s
    }
}

/// The text of an optional string.
pub open spec fn opt_text(o: Option<String>) -> Option<Seq<char>> {
    match o {
        Some(s) => Some(s@),
        None => None,
    }
}

/// The query of a request: `lang=<code>` for a localized resource, then
/// the extra query if any, joined by `&`.
pub open spec fn query_of(locale: bool, lang: Language, extra: Option<Seq<char>>) -> Seq<char> {
    if locale {
        match extra {
            Some(e) => "lang="@ + lang.code() + "&"@ + e,
            None => "lang="@ + lang.code(),
        }
    } else {
        match extra {
            Some(e) => e,
            None => Seq::empty(),
        }
    }
}

/// The URL of a request: `<host>/<path>?<query>`.
pub open spec fn url_of(host: Seq<char>, path: Seq<char>, query: Seq<char>) -> Seq<char> {
    host + "/"@ + path + "?"@ + query
}

/// The URL for `path` below `host`, with the language parameter when the
/// resource is localized and the extra query if any.
pub fn build_query(schema: &Schema, host: &str, path: &str, lang: Language, extra: Option<String>) -> (r:
    String)
    ensures
        r@ == url_of(host@, path@, query_of(schema.locale, lang, opt_text(extra))),
{
    let mut url = String::from_str(host);
    url.append("/");
    url.append(path);
    url.append("?");
    if schema.locale {
        url.append("lang=");
        url.append(lang.as_str());
        match &extra {
            Some(e) => {
                url.append("&");
                url.append(e.as_str());
            },
            None => {},
        }
    } else {
        match &extra {
            Some(e) => {
                url.append(e.as_str());
            },
            None => {},
        }
    }
    proof {
        lemma_url_shape(host@, path@, schema.locale, lang, opt_text(extra));
    }
    url
}

proof fn lemma_url_shape(host: Seq<char>, path: Seq<char>, locale: bool, lang: Language, extra: Option<
    Seq<char>,
>)
    ensures
        locale && extra is Some ==> url_of(host, path, query_of(locale, lang, extra)) =~= host
            + "/"@ + path + "?"@ + "lang="@ + lang.code() + "&"@ + extra->Some_0,
        locale && extra is None ==> url_of(host, path, query_of(locale, lang, extra)) =~= host
            + "/"@ + path + "?"@ + "lang="@ + lang.code(),
        !locale && extra is Some ==> url_of(host, path, query_of(locale, lang, extra)) =~= host
            + "/"@ + path + "?"@ + extra->Some_0,
        !locale && extra is None ==> url_of(host, path, query_of(locale, lang, extra)) =~= host
            + "/"@ + path + "?"@,
{
}

/// An outbound request: the URL and the headers, as name and value.
pub struct Request {
    pub url: String,
    pub headers: Vec<(String, String)>,
}

/// The headers of a request: the schema version always, and the bearer
/// key when the resource needs authentication.
pub open spec fn headers_of(schema: Schema, key: Option<Seq<char>>) -> Seq<(Seq<char>, Seq<char>)> {
    let version = seq![("X-Schema-Version"@, schema.version@)];
    if schema.authenticated && key is Some {
        version.push(("Authorization"@, "Bearer "@ + key->Some_0))
    } else {
        version
    }
}

/// The texts of a list of headers.
pub open spec fn header_texts(hs: Seq<(String, String)>) -> Seq<(Seq<char>, Seq<char>)> {
    hs.map_values(|h: (String, String)| (h.0@, h.1@))
}

/// Builds the request for `path` of a resource described by `schema`.
/// Asking for a resource that needs authentication without a key fails
/// with `NotAuthenticated` before anything is sent; otherwise the request
/// carries the URL of `build_query` and the headers of `headers_of`.
pub fn build_request(
    schema: &Schema,
    host: &str,
    path: &str,
    lang: Language,
    api_key: &Option<String>,
    extra: Option<String>,
) -> (r: Result<Request, EndpointError>)
    ensures
        (schema.authenticated && api_key is None) <==> r is Err,
        r is Err ==> r == Err::<Request, EndpointError>(EndpointError::NotAuthenticated),
        r matches Ok(req) ==> req.url@ == url_of(
            host@,
            path@,
            query_of(schema.locale, lang, opt_text(extra)),
        ),
        r matches Ok(req) ==> header_texts(req.headers@) == headers_of(
            *schema,
            opt_text(*api_key),
        ),
{
    if schema.authenticated && api_key.is_none() {
        return Err(EndpointError::NotAuthenticated);
    }
    let url = build_query(schema, host, path, lang, extra);
    let mut headers: Vec<(String, String)> = Vec::new();
    headers.push((String::from_str("X-Schema-Version"), String::from_str(schema.version)));
    if schema.authenticated {
        match api_key {
            Some(key) => {
                let mut value = String::from_str("Bearer ");
                value.append(key.as_str());
                headers.push((String::from_str("Authorization"), value));
            },
            None => {},
        }
    }
    assert(header_texts(headers@) =~= headers_of(*schema, opt_text(*api_key)));
    Ok(Request { url, headers })
}

/// The path of one record: `<path>/<id>`, the id percent-encoded.
pub fn item_path(path: &str, id: &str) -> (r: String)
    ensures
        r@ == path@ + "/"@ + ascii_text(percent_encoded(vstd::utf8::encode_utf8(id@))),
{
    let encoded = url_encode(id);
    let mut r = String::from_str(path);
    r.append("/");
    r.append(encoded.as_str());
    r
}

/// The bulk query for a comma-separated id list: `ids=<joined>`.
pub fn ids_query(joined: &str) -> (r: String)
    ensures
        r@ == "ids="@ + joined@,
{
    let mut r = String::from_str("ids=");
    r.append(joined);
    r
}

/// The query for one page: `page=<page>&page_size=<size>`.
pub fn page_query(page: u64, page_size: u8) -> (r: String)
    ensures
        r@ == "page="@ + decimal(page as nat) + "&page_size="@ + decimal(page_size as nat),
{
    let mut r = String::from_str("page=");
    let p = decimal_string(page);
    r.append(p.as_str());
    r.append("&page_size=");
    let s = decimal_string(page_size as u64);
    r.append(s.as_str());
    r
}

} // verus!
