//! Classifying responses by status, and reading the headers that set a
//! cached value's lifetime and a listing's total count.

use vstd::prelude::*;

use crate::error::{ApiError, EndpointError};

verus! {

/// The fewest seconds a value stays cached when no override is given: a
/// `cache-control` header below it is raised to it, and a missing or
/// unreadable one counts as it.
pub const DEFAULT_CACHE_SECONDS: u64 = 300;

/// What a response status means to the coordinator.
#[derive(Clone, Copy, Debug, PartialEq, Eq)]
pub enum StatusClass {
    /// 2xx: the body is parsed as the expected shape.
    Success,
    /// 401.
    Unauthorized,
    /// 429: the rate limiter is penalized.
    RateLimited,
    /// Any other status; the body text goes into the error.
    Other,
}

/// The class of a status.
pub open spec fn class_of(status: u16) -> StatusClass {
    if 200 <= status <= 299 {
        StatusClass::Success
    } else if status == 401 {
        StatusClass::Unauthorized
    } else if status == 429 {
        StatusClass::RateLimited
    } else {
        StatusClass::Other
    }
}

/// The class of a response status.
pub fn classify_status(status: u16) -> (r: StatusClass)
    ensures
        r == class_of(status),
{
    if 200 <= status && status <= 299 {
        StatusClass::Success
    } else if status == 401 {
        StatusClass::Unauthorized
    } else if status == 429 {
        StatusClass::RateLimited
    } else {
        StatusClass::Other
    }
}

impl StatusClass {
    /// Whether the rate limiter is penalized before the failure is
    /// reported: only for 429.
    pub fn penalizes(&self) -> (r: bool)
        ensures
            r == (*self == StatusClass::RateLimited),
    {
        match self {
            StatusClass::RateLimited => true,
            _ => false,
        }
    }

    /// Whether the failure carries the response body, which must then be
    /// read: only for a status outside 2xx, 401 and 429.
    pub fn needs_body(&self) -> (r: bool)
        ensures
            r == (*self == StatusClass::Other),
    {
        match self {
            StatusClass::Other => true,
            _ => false,
        }
    }
}

/// The failure a status stands for, if any.
pub open spec fn failure_of(status: u16, body: String) -> Option<EndpointError> {
    match class_of(status) {
        StatusClass::Success => None,
        StatusClass::Unauthorized => Some(EndpointError::ApiError(ApiError::Unauthorized)),
        StatusClass::RateLimited => Some(EndpointError::ApiError(ApiError::RateLimited)),
        StatusClass::Other => Some(EndpointError::ApiError(ApiError::Other(status, body))),
    }
}

/// The failure of a response with `status`: none for 2xx, `Unauthorized`
/// for 401, `RateLimited` for 429, and for any other status an API error
/// with the status and the body text.
pub fn response_failure(status: u16, body: String) -> (r: Option<EndpointError>)
    ensures
        r == failure_of(status, body),
{
    match classify_status(status) {
        StatusClass::Success => None,
        StatusClass::Unauthorized => Some(EndpointError::ApiError(ApiError::Unauthorized)),
        StatusClass::RateLimited => Some(EndpointError::ApiError(ApiError::RateLimited)),
        StatusClass::Other => Some(EndpointError::ApiError(ApiError::Other(status, body))),
    }
}

/// A 429 penalizes the rate limiter and fails with `RateLimited`; a 401
/// fails with `Unauthorized` and leaves the rate limiter alone.
pub proof fn lemma_failure_classification(body: String)
    ensures
        class_of(429) == StatusClass::RateLimited,
        failure_of(429, body) == Some(EndpointError::ApiError(ApiError::RateLimited)),
        class_of(401) == StatusClass::Unauthorized,
        class_of(401) != StatusClass::RateLimited,
        failure_of(401, body) == Some(EndpointError::ApiError(ApiError::Unauthorized)),
{
}

/// Whether a byte is an ASCII decimal digit.
pub open spec fn is_digit(b: u8) -> bool {
    48 <= b <= 57
}

/// The value of a string of decimal digits.
pub open spec fn digits_value(s: Seq<u8>) -> nat
    decreases s.len(),
{
    if s.len() == 0 {
        0
    } else {
        digits_value(s.drop_last()) * 10 + (s.last() - 48) as nat
    }
}

/// The digits of a number text: everything after an optional leading `+`.
pub open spec fn unsigned_digits(s: Seq<u8>) -> Seq<u8> {
    if s.len() > 0 && s[0] == 43 {
        s.drop_first()
    } else {
        s
    }
}

/// Whether every byte is a decimal digit.
pub open spec fn all_digits(d: Seq<u8>) -> bool {
    forall|i: int| 0 <= i < d.len() ==> is_digit(#[trigger] d[i])
}

/// The unsigned number a header value holds: one or more decimal digits,
/// after an optional `+`, whose value fits in 64 bits.
pub open spec fn number_of(s: Seq<u8>) -> Option<u64> {
    let d = unsigned_digits(s);
    if d.len() > 0 && all_digits(d) && digits_value(d) <= u64::MAX {
        Some(digits_value(d) as u64)
    } else {
        None
    }
}

/// Reads an unsigned decimal number from a header value.
pub fn parse_number(s: &[u8]) -> (r: Option<u64>)
    ensures
        r == number_of(s@),
{
    let mut start: usize = 0;
    if s.len() > 0 && s[0] == 43u8 {
        start = 1;
    }
    let ghost d = unsigned_digits(s@);
    assert(d =~= s@.subrange(start as int, s@.len() as int));
    if start >= s.len() {
        return None;
    }
    let mut value: u64 = 0;
    let mut i: usize = start;
    while i < s.len()
        invariant
            start <= i <= s@.len(),
            d == unsigned_digits(s@),
            d =~= s@.subrange(start as int, s@.len() as int),
            forall|j: int| start <= j < i ==> is_digit(#[trigger] s@[j]),
            value as nat == digits_value(s@.subrange(start as int, i as int)),
        decreases s@.len() - i,
    {
        let b = s[i];
        if b < 48u8 || b > 57u8 {
            assert(d[i - start] == s@[i as int]);
            assert(!is_digit(d[i - start]));
            assert(!all_digits(d));
            return None;
        }
        let digit = (b - 48u8) as u64;
        assert(s@.subrange(start as int, i + 1).drop_last() =~= s@.subrange(start as int, i as int));
        if value > (u64::MAX - digit) / 10 {
            proof {
                let p = s@.subrange(start as int, i + 1);
                assert(p.last() == b);
                assert(digits_value(p) == value * 10 + digit);
                if all_digits(d) {
                    assert(p =~= d.subrange(0, i + 1 - start));
                    lemma_digits_grow(p, d);
                }
                assert(value * 10 + digit > u64::MAX) by (nonlinear_arith)
                    requires
                        value > (u64::MAX - digit) / 10,
                        digit <= 9,
                ;
            }
            return None;
        }
        assert(value * 10 + digit <= u64::MAX) by (nonlinear_arith)
            requires
                value <= (u64::MAX - digit) / 10,
                digit <= 9,
        ;
        value = value * 10 + digit;
        i = i + 1;
    }
    assert(s@.subrange(start as int, i as int) =~= d);
    Some(value)
}

/// A number's digits are worth no more than the digits it starts.
proof fn lemma_digits_grow(p: Seq<u8>, d: Seq<u8>)
    requires
        p.len() <= d.len(),
        p =~= d.subrange(0, p.len() as int),
        forall|i: int| 0 <= i < d.len() ==> is_digit(#[trigger] d[i]),
    ensures
        digits_value(p) <= digits_value(d),
    decreases d.len(),
{
    if p.len() < d.len() {
        assert(p =~= d.drop_last().subrange(0, p.len() as int));
        lemma_digits_grow(p, d.drop_last());
        assert(digits_value(d) >= digits_value(d.drop_last()));
    } else {
        assert(p =~= d);
    }
}

/// The value of the first header named `name`, if there is one.
pub open spec fn header_value(headers: Seq<(Seq<char>, Seq<u8>)>, name: Seq<char>) -> Option<Seq<u8>>
    decreases headers.len(),
{
    if headers.len() == 0 {
        None
    } else if headers[0].0 == name {
        Some(headers[0].1)
    } else {
        header_value(headers.drop_first(), name)
    }
}

/// The texts of a list of headers with byte values.
pub open spec fn header_entries(headers: Seq<(String, Vec<u8>)>) -> Seq<(Seq<char>, Seq<u8>)> {
    headers.map_values(|h: (String, Vec<u8>)| (h.0@, h.1@))
}

/// The number held by the first header named `name`; `None` when there is
/// no such header or its value is no number.
pub fn get_header(headers: &Vec<(String, Vec<u8>)>, name: &String) -> (r: Option<u64>)
    ensures
        r == match header_value(header_entries(headers@), name@) {
            Some(v) => number_of(v),
            None => None,
        },
{
    let ghost all = header_entries(headers@);
    assert(all.subrange(0, all.len() as int) =~= all);
    let mut i: usize = 0;
    while i < headers.len()
        invariant
            i <= headers@.len(),
            all == header_entries(headers@),
            header_value(all, name@) == header_value(all.subrange(i as int, all.len() as int), name@),
        decreases headers@.len() - i,
    {
        let ghost rest = all.subrange(i as int, all.len() as int);
        assert(rest.drop_first() =~= all.subrange(i + 1, all.len() as int));
        if headers[i].0 == *name {
            return parse_number(headers[i].1.as_slice());
        }
        i = i + 1;
    }
    None
}

/// The lifetime of a fresh value: the override when it is not zero, else
/// the number in the `cache-control` header but at least
/// `DEFAULT_CACHE_SECONDS`, else `DEFAULT_CACHE_SECONDS`.
pub open spec fn lifetime_of(override_seconds: u64, cache_control: Option<u64>) -> u64 {
    if override_seconds != 0 {
        override_seconds
    } else {
        match cache_control {
            Some(s) => if s > 300 { s } else { 300 },
            None => 300,
        }
    }
}

/// The instant a value fetched at `now` expires: `now` plus its lifetime,
/// or the last representable instant when that sum does not fit.
pub open spec fn expiry_of(now: u64, override_seconds: u64, cache_control: Option<u64>) -> u64 {
    if now + lifetime_of(override_seconds, cache_control) <= u64::MAX {
        (now + lifetime_of(override_seconds, cache_control)) as u64
    } else {
        u64::MAX
    }
}

/// The seconds a fresh value stays cached, read from the response's
/// `cache-control` header: its number, but no fewer than
/// `DEFAULT_CACHE_SECONDS`.
pub fn get_expire_from_header(headers: &Vec<(String, Vec<u8>)>) -> (r: u64)
    ensures
        r == lifetime_of(
            0,
            match header_value(header_entries(headers@), "cache-control"@) {
                Some(v) => number_of(v),
                None => None,
            },
        ),
{
    let name = String::from_str("cache-control");
    match get_header(headers, &name) {
        Some(s) => {
            if s > DEFAULT_CACHE_SECONDS {
                s
            } else {
                DEFAULT_CACHE_SECONDS
            }
        },
        None => DEFAULT_CACHE_SECONDS,
    }
}

/// The instant at which a value fetched at `now` stops being valid.
pub fn get_cache_expiry(now: u64, override_seconds: u64, headers: &Vec<(String, Vec<u8>)>) -> (r: u64)
    ensures
        r == expiry_of(
            now,
            override_seconds,
            match header_value(header_entries(headers@), "cache-control"@) {
                Some(v) => number_of(v),
                None => None,
            },
        ),
{
    let lifetime = if override_seconds != 0 {
        override_seconds
    } else {
        get_expire_from_header(headers)
    };
    now.saturating_add(lifetime)
}

} // verus!
