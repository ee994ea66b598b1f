//! The cross-origin policy of the service, decided from the configured list
//! of origins.

use crate::error::AppError;
use vstd::prelude::*;
use vstd::string::*;

verus! {

/// Which origins may call the service.
#[derive(Debug)]
pub enum CorsPolicy {
    /// Any origin, for development.
    Permissive,
    /// The listed origins only, with the methods of [`cors_allowed_methods`],
    /// the request headers of [`cors_allowed_headers`], and answers cached
    /// for [`CORS_MAX_AGE_SECS`] seconds.
    Origins(Vec<String>),
}

/// How long a browser may cache the policy's answer, in seconds.
pub const CORS_MAX_AGE_SECS: u64 = 3600;

/// The methods that a restricted policy allows.
pub open spec fn allowed_method_names() -> Seq<Seq<char>> {
    seq!["GET"@, "POST"@, "OPTIONS"@]
}

/// The request headers that a restricted policy allows.
pub open spec fn allowed_header_names() -> Seq<Seq<char>> {
    seq!["content-type"@, "authorization"@]
}

/// The views of a list of fixed texts, in order.
pub open spec fn name_views(names: Seq<&'static str>) -> Seq<Seq<char>> {
    names.map_values(|name: &'static str| name@)
}

/// The methods that a restricted policy allows: `GET`, `POST` and `OPTIONS`,
/// and no other.
pub fn cors_allowed_methods() -> (methods: Vec<&'static str>)
    ensures
        name_views(methods@) == allowed_method_names(),
        methods@.len() == 3,
        methods@[0]@ == "GET"@,
        methods@[1]@ == "POST"@,
        methods@[2]@ == "OPTIONS"@,
{
    let mut methods: Vec<&'static str> = Vec::new();
    methods.push("GET");
    methods.push("POST");
    methods.push("OPTIONS");
    assert(name_views(methods@) =~= allowed_method_names());
    methods
}

/// The request headers that a restricted policy allows: `content-type` and
/// `authorization`, and no other.
pub fn cors_allowed_headers() -> (headers: Vec<&'static str>)
    ensures
        name_views(headers@) == allowed_header_names(),
        headers@.len() == 2,
        headers@[0]@ == "content-type"@,
        headers@[1]@ == "authorization"@,
{
    let mut headers: Vec<&'static str> = Vec::new();
    headers.push("content-type");
    headers.push("authorization");
    assert(name_views(headers@) =~= allowed_header_names());
    headers
}

/// A character that may stand in a header value: a tab, or anything that is
/// neither a control character nor DEL.
pub open spec fn header_char_ok(c: char) -> bool {
    (c as u32 >= 32 && c as u32 != 127) || c as u32 == 9
}

/// A text that can be a header value: each of its characters may stand in one.
pub open spec fn header_text_ok(text: Seq<char>) -> bool {
    forall|i: int| 0 <= i < text.len() ==> header_char_ok(#[trigger] text[i])
}

/// `at` is the first origin of the list that cannot be a header value.
pub open spec fn first_bad_origin(origins: Seq<String>, at: int) -> bool {
    &&& 0 <= at < origins.len()
    &&& !header_text_ok(origins[at]@)
    &&& forall|j: int| 0 <= j < at ==> header_text_ok(#[trigger] origins[j]@)
}

/// Every origin of the list can be a header value.
pub open spec fn all_origins_ok(origins: Seq<String>) -> bool {
    forall|j: int| 0 <= j < origins.len() ==> header_text_ok(#[trigger] origins[j]@)
}

/// Whether a text can be a header value.
///
/// Calls `HeaderValue::from_str` of the `http` crate, as `axum` hands it on,
/// and tells whether it succeeded. That function goes through the bytes of
/// the text and fails exactly when one is below 32 and not a tab, or is 127.
/// The bytes of a character outside ASCII are all above 127, so the rule can
/// be stated on characters.
#[verifier::external_body]
fn is_header_value(text: &str) -> (ok: bool)
    ensures
        ok == header_text_ok(text@),
{
    axum::http::HeaderValue::from_str(text).is_ok()
}

/// Decides the cross-origin policy for a configured list of origins.
///
/// An empty list means no restriction. Otherwise every origin must be usable
/// as a header value: the first that is not is reported as a configuration
/// error, and if all are, the policy admits exactly the listed origins.
pub fn cors_layer(origins: &Vec<String>) -> (outcome: Result<CorsPolicy, AppError>)
    ensures
        match outcome {
            Ok(CorsPolicy::Permissive) => origins@.len() == 0,
            Ok(CorsPolicy::Origins(admitted)) => origins@.len() > 0 && all_origins_ok(origins@)
                && admitted@ == origins@,
            Err(AppError::Config(message)) => exists|at: int|
                first_bad_origin(origins@, at) && message@ == "Invalid CORS origin: "@
                    + #[trigger] origins@[at]@,
            Err(_) => false,
        },
{
    if origins.len() == 0 {
        return Ok(CorsPolicy::Permissive);
    }
    let mut admitted: Vec<String> = Vec::new();
    let mut i: usize = 0;
    while i < origins.len()
        invariant
            i <= origins.len(),
            admitted@ == origins@.take(i as int),
            forall|j: int| 0 <= j < i ==> header_text_ok(#[trigger] origins@[j]@),
        decreases origins.len() - i,
    {
        let origin = &origins[i];
        if !is_header_value(origin.as_str()) {
            let message = String::from_str("Invalid CORS origin: ").concat(origin.as_str());
            assert(first_bad_origin(origins@, i as int));
            return Err(AppError::Config(message));
        }
        admitted.push(origin.clone());
        assert(admitted@ =~= origins@.take(i + 1));
        i += 1;
    }
    assert(origins@.take(i as int) =~= origins@);
    Ok(CorsPolicy::Origins(admitted))
}

} // verus!
