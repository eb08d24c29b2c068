//! The HTTP resource checker: classification of a probe's status code against
//! the configured allow- or deny-list, the checker's error equivalence, and
//! construction-time validation of its configuration. The GET itself is
//! outside work; the library receives the response's status code (or the
//! transport error's description) and decides everything from there.

use vstd::prelude::*;

use crate::render::{decimal_of, u16_to_string};
use crate::sentinel::{ResourceError, Sentinel, SentinelImpl};

verus! {

/// An error of the HTTP checker. The first two arise from probes and drive
/// the alert lifecycle; the last two arise once, at construction, and abort
/// startup. Transport errors carry their rendered description.
#[derive(Debug, PartialEq, Eq)]
pub enum HttpSentinelError {
    /// The probe's transport failed (DNS, connection refused, timeout): a
    /// domain error worth alerting on, not an infrastructure fault.
    ReqwestHttpError { err: String },
    /// The response's status code fell on the wrong side of the configured
    /// list.
    NonSuccessfulHttpCode { code: u16 },
    /// A configured status code is outside the valid range.
    InvalidStatusCode { code: u16 },
    /// The configured URL does not parse.
    UrlParseError { url: String },
}

impl ResourceError for HttpSentinelError {
    open spec fn spec_description(&self) -> Seq<char> {
        match *self {
            HttpSentinelError::ReqwestHttpError { err } => "Reqwest HTTP error: "@ + err@,
            HttpSentinelError::NonSuccessfulHttpCode { code } => "Non-successful HTTP code: "@
                + decimal_of(code as nat),
            HttpSentinelError::InvalidStatusCode { code } => "Invalid status code: "@ + decimal_of(
                code as nat,
            ),
            HttpSentinelError::UrlParseError { url } => "Url parse error: "@ + url@,
        }
    }

    fn description(&self) -> (r: String) {
        match self {
            HttpSentinelError::ReqwestHttpError { err } => String::from_str(
                "Reqwest HTTP error: ",
            ).concat(err.as_str()),
            HttpSentinelError::NonSuccessfulHttpCode { code } => {
                let digits = u16_to_string(*code);
                String::from_str("Non-successful HTTP code: ").concat(digits.as_str())
            },
            HttpSentinelError::InvalidStatusCode { code } => {
                let digits = u16_to_string(*code);
                String::from_str("Invalid status code: ").concat(digits.as_str())
            },
            HttpSentinelError::UrlParseError { url } => String::from_str(
                "Url parse error: ",
            ).concat(url.as_str()),
        }
    }
}

/// The checker's error equivalence, used to suppress duplicate alerts: two
/// wrong status codes are the same error exactly when the codes match; a
/// wrong status code and a transport error are always different; every other
/// pair is treated as the same. (That last, deliberately coarse fallback
/// means in particular that any two transport errors count as one.)
pub open spec fn same_http_error(l: HttpSentinelError, r: HttpSentinelError) -> bool {
    match (l, r) {
        (
            HttpSentinelError::NonSuccessfulHttpCode { code: a },
            HttpSentinelError::NonSuccessfulHttpCode { code: b },
        ) => a == b,
        (
            HttpSentinelError::NonSuccessfulHttpCode { .. },
            HttpSentinelError::ReqwestHttpError { .. },
        ) => false,
        (
            HttpSentinelError::ReqwestHttpError { .. },
            HttpSentinelError::NonSuccessfulHttpCode { .. },
        ) => false,
        _ => true,
    }
}

/// Unvalidated status-code lists, as configuration carries them.
#[derive(Debug)]
pub enum HttpCodesRaw {
    Success(Vec<u16>),
    Error(Vec<u16>),
}

/// Validated status-code lists: in `Success` mode any response code not in
/// the list is an error; in `Error` mode any code in the list is.
#[derive(Debug)]
pub enum HttpCodes {
    Success(Vec<u16>),
    Error(Vec<u16>),
}

/// The range of status codes a response can carry (the range `StatusCode`
/// accepts).
pub open spec fn valid_status_code(code: u16) -> bool {
    100 <= code <= 999
}

/// The codes a raw list holds, whichever mode it is in.
pub open spec fn raw_codes(raw: HttpCodesRaw) -> Seq<u16> {
    match raw {
        HttpCodesRaw::Success(codes) => codes@,
        HttpCodesRaw::Error(codes) => codes@,
    }
}

pub open spec fn all_codes_valid(codes: Seq<u16>) -> bool {
    forall|i: int| 0 <= i < codes.len() ==> valid_status_code(#[trigger] codes[i])
}

/// `code` is the first invalid entry of `codes`.
pub open spec fn is_first_bad_code(codes: Seq<u16>, code: u16) -> bool {
    exists|i: int|
        {
            &&& 0 <= i < codes.len()
            &&& !valid_status_code(#[trigger] codes[i])
            &&& forall|j: int| 0 <= j < i ==> valid_status_code(#[trigger] codes[j])
            &&& code == codes[i]
        }
}

/// Validated lists keep the raw list's mode and codes.
pub open spec fn codes_match(raw: HttpCodesRaw, validated: HttpCodes) -> bool {
    match (raw, validated) {
        (HttpCodesRaw::Success(a), HttpCodes::Success(b)) => a@ == b@,
        (HttpCodesRaw::Error(a), HttpCodes::Error(b)) => a@ == b@,
        _ => false,
    }
}

/// Checks every entry of one list, returning it unchanged or the first
/// invalid code.
fn validate_codes(codes: Vec<u16>) -> (r: Result<Vec<u16>, HttpSentinelError>)
    ensures
        r matches Ok(v) ==> v == codes && all_codes_valid(codes@),
        r is Ok <==> all_codes_valid(codes@),
        r matches Err(e) ==> (e matches HttpSentinelError::InvalidStatusCode { code }
            && is_first_bad_code(codes@, code)),
{
    let mut i: usize = 0;
    while i < codes.len()
        invariant
            i <= codes.len(),
            forall|j: int| 0 <= j < i as int ==> valid_status_code(#[trigger] codes@[j]),
        decreases codes.len() - i,
    {
        let c = codes[i];
        if c < 100 || c > 999 {
            return Err(HttpSentinelError::InvalidStatusCode { code: c });
        }
        i = i + 1;
    }
    Ok(codes)
}

impl HttpCodes {
    /// Validates a raw list: every configured code must be one a response can
    /// carry; the first that is not aborts construction.
    pub fn try_from(value: HttpCodesRaw) -> (r: Result<HttpCodes, HttpSentinelError>)
        ensures
            r is Ok <==> all_codes_valid(raw_codes(value)),
            r matches Ok(v) ==> codes_match(value, v),
            r matches Err(e) ==> (e matches HttpSentinelError::InvalidStatusCode { code }
                && is_first_bad_code(raw_codes(value), code)),
    {
        match value {
            HttpCodesRaw::Success(codes) => match validate_codes(codes) {
                Ok(v) => Ok(HttpCodes::Success(v)),
                Err(e) => Err(e),
            },
            HttpCodesRaw::Error(codes) => match validate_codes(codes) {
                Ok(v) => Ok(HttpCodes::Error(v)),
                Err(e) => Err(e),
            },
        }
    }
}

/// The HTTP checker's configuration: a URL to probe and the code lists to
/// judge responses by.
#[derive(Debug)]
pub struct HttpSentinelConfig {
    pub url: String,
    pub codes: HttpCodesRaw,
}

/// Whether a string parses as a URL. A function of the string alone.
pub uninterp spec fn url_is_valid(s: Seq<char>) -> bool;

/// Relies on reqwest::Url::parse (the url crate's parser): whether a string
/// parses as a URL is a function of the string alone.
#[verifier::external_body]
fn url_parses(s: &String) -> (r: bool)
    ensures
        r == url_is_valid(s@),
{
    reqwest::Url::parse(s.as_str()).is_ok()
}

/// The HTTP checker bound to one resource: where to probe and how to judge
/// the answer. The client that performs the GET lives with the runner.
#[derive(Debug)]
pub struct HttpSentinel {
    pub url: String,
    pub codes: HttpCodes,
}

fn contains_code(codes: &Vec<u16>, x: u16) -> (r: bool)
    ensures
        r == codes@.contains(x),
{
    let mut i: usize = 0;
    while i < codes.len()
        invariant
            i <= codes.len(),
            forall|j: int| 0 <= j < i as int ==> codes@[j] != x,
        decreases codes.len() - i,
    {
        if codes[i] == x {
            return true;
        }
        i = i + 1;
    }
    proof {
        assert(!codes@.contains(x));
    }
    false
}

impl HttpSentinel {
    /// Validates an HTTP checker's configuration and builds the Sentinel that
    /// polls it: the URL must parse and every configured code must be valid,
    /// in that order. The Sentinel carries the resource's configured name,
    /// which every alert message quotes. Fails only at construction, never
    /// mid-run.
    pub fn create_sentinel(
        config: HttpSentinelConfig,
        interval: u64,
        notifiers: Vec<String>,
        resource_name: String,
    ) -> (r: Result<Sentinel<HttpSentinel>, HttpSentinelError>)
        ensures
            r is Ok <==> url_is_valid(config.url@) && all_codes_valid(raw_codes(config.codes)),
            r matches Ok(s) ==> {
                &&& s.sentinel_impl.url == config.url
                &&& codes_match(config.codes, s.sentinel_impl.codes)
                &&& s.phase is Checking
                &&& s.active_error is None
                &&& s.interval == interval
                &&& s.notifiers == notifiers
                &&& s.resource_name == resource_name
            },
            r matches Err(e) ==> (if !url_is_valid(config.url@) {
                e matches HttpSentinelError::UrlParseError { url } && url == config.url
            } else {
                e matches HttpSentinelError::InvalidStatusCode { code } && is_first_bad_code(
                    raw_codes(config.codes),
                    code,
                )
            }),
    {
        let HttpSentinelConfig { url, codes } = config;
        if !url_parses(&url) {
            return Err(HttpSentinelError::UrlParseError { url });
        }
        let codes = match HttpCodes::try_from(codes) {
            Ok(c) => c,
            Err(e) => {
                return Err(e);
            },
        };
        let sentinel_impl = HttpSentinel { url, codes };
        Ok(Sentinel::new(sentinel_impl, interval, notifiers, resource_name))
    }

    /// Judges one response's status code: in `Success` mode a code off the
    /// list is an error, in `Error` mode a code on the list is; otherwise the
    /// code passes through as the successful payload.
    pub fn classify_status(&self, code: u16) -> (r: Result<u16, HttpSentinelError>)
        ensures
            match self.codes {
                HttpCodes::Success(list) => if list@.contains(code) {
                    r == Ok::<u16, HttpSentinelError>(code)
                } else {
                    r == Err::<u16, HttpSentinelError>(
                        HttpSentinelError::NonSuccessfulHttpCode { code },
                    )
                },
                HttpCodes::Error(list) => if list@.contains(code) {
                    r == Err::<u16, HttpSentinelError>(
                        HttpSentinelError::NonSuccessfulHttpCode { code },
                    )
                } else {
                    r == Ok::<u16, HttpSentinelError>(code)
                },
            },
    {
        match &self.codes {
            HttpCodes::Success(list) => {
                if !contains_code(list, code) {
                    Err(HttpSentinelError::NonSuccessfulHttpCode { code })
                } else {
                    Ok(code)
                }
            },
            HttpCodes::Error(list) => {
                if contains_code(list, code) {
                    Err(HttpSentinelError::NonSuccessfulHttpCode { code })
                } else {
                    Ok(code)
                }
            },
        }
    }
}

impl SentinelImpl for HttpSentinel {
    type ResourceOk = u16;

    type ResourceErr = HttpSentinelError;

    open spec fn same_error(&self, left: &HttpSentinelError, right: &HttpSentinelError) -> bool {
        same_http_error(*left, *right)
    }

    fn compare_errors(&self, left: &HttpSentinelError, right: &HttpSentinelError) -> (r: bool) {
        match (left, right) {
            (
                HttpSentinelError::NonSuccessfulHttpCode { code: l },
                HttpSentinelError::NonSuccessfulHttpCode { code: r },
            ) => *l == *r,
            (
                HttpSentinelError::NonSuccessfulHttpCode { .. },
                HttpSentinelError::ReqwestHttpError { .. },
            ) => false,
            (
                HttpSentinelError::ReqwestHttpError { .. },
                HttpSentinelError::NonSuccessfulHttpCode { .. },
            ) => false,
            _ => true,
        }
    }
}

} // verus!
