//! Interpretation of the upload service's JSON response body. The parsing
//! itself is serde_json's; what this module decides — when a body is
//! usable, and which fields the journal takes from it — is verified
//! against named descriptions of what serde_json returns.

use vstd::prelude::*;
use vstd::string::*;

verus! {

/// `serde_json::Value`, the parsed form of a response body. Opaque here;
/// the named field functions below say what the library reads from one.
#[verifier::external_type_specification]
#[verifier::external_body]
pub struct ExValue(serde_json::Value);

/// Whether `serde_json::from_str::<Value>` accepts the text as JSON — a
/// function of the text alone.
pub uninterp spec fn is_json(s: Seq<char>) -> bool;

/// The string at a top-level key of a parsed value: present exactly when
/// the value is an object carrying a string under that key.
pub uninterp spec fn str_field(v: serde_json::Value, key: Seq<char>) -> Option<Seq<char>>;

/// As [`str_field`], for fields holding an unsigned integer.
pub uninterp spec fn u64_field(v: serde_json::Value, key: Seq<char>) -> Option<u64>;

/// [`str_field`] as a function of the source text: parsing is
/// deterministic, so the fields of the value a text parses to are fixed by
/// the text alone.
pub uninterp spec fn str_field_of(s: Seq<char>, key: Seq<char>) -> Option<Seq<char>>;

/// As [`str_field_of`], for fields holding an unsigned integer.
pub uninterp spec fn u64_field_of(s: Seq<char>, key: Seq<char>) -> Option<u64>;

/// Relies on `serde_json::from_str::<Value>`: it returns `Ok` exactly on
/// valid JSON text, never panics, and is deterministic — equal texts parse
/// to values with equal fields.
#[verifier::external_body]
fn parse_json(s: &str) -> (r: Option<serde_json::Value>)
    ensures
        r is Some <==> is_json(s@),
        r matches Some(v) ==> forall|k: Seq<char>| #[trigger] str_field(v, k) == str_field_of(
            s@,
            k,
        ),
        r matches Some(v) ==> forall|k: Seq<char>| #[trigger] u64_field(v, k) == u64_field_of(
            s@,
            k,
        ),
{
    serde_json::from_str::<serde_json::Value>(s).ok()
}

/// Relies on `serde_json::Value::get` and `Value::as_str`: `get` returns
/// the member at a string key only for objects that carry the key, and
/// `as_str` returns the contained string only for JSON strings.
#[verifier::external_body]
fn get_str_field(v: &serde_json::Value, key: &str) -> (r: Option<String>)
    ensures
        r matches Some(x) ==> str_field(*v, key@) == Some(x@),
        r is None ==> str_field(*v, key@) is None,
{
    v.get(key).and_then(|f| f.as_str()).map(|t| t.to_string())
}

/// Relies on `serde_json::Value::get` and `Value::as_u64`: the unsigned
/// integer at a string key, where the value is an object carrying one
/// there.
#[verifier::external_body]
fn get_u64_field(v: &serde_json::Value, key: &str) -> (r: Option<u64>)
    ensures
        r == u64_field(*v, key@),
{
    v.get(key).and_then(|f| f.as_u64())
}

/// What the journal reads from an upload response: the secure URL
/// (required) and the pixel dimensions (present only in the richer
/// responses).
pub struct UploadResult {
    pub secure_url: String,
    pub width: Option<u64>,
    pub height: Option<u64>,
}

/// Why a response body was rejected.
#[derive(Clone, Copy, PartialEq, Eq, Structural, Debug)]
pub enum ResponseError {
    /// The body is not valid JSON.
    NotJson,
    /// The body is JSON but carries no string `secure_url` field.
    MissingSecureUrl,
}

/// Read an [`UploadResult`] out of a parsed response value: succeeds
/// exactly when the value carries a string `secure_url`, taken verbatim;
/// the dimensions are taken where present and left empty where not.
pub fn upload_result_from_value(v: &serde_json::Value) -> (r: Result<
    UploadResult,
    ResponseError,
>)
    ensures
        match r {
            Ok(u) => {
                &&& str_field(*v, "secure_url"@) == Some(u.secure_url@)
                &&& u.width == u64_field(*v, "width"@)
                &&& u.height == u64_field(*v, "height"@)
            },
            Err(e) => e == ResponseError::MissingSecureUrl && str_field(*v, "secure_url"@) is None,
        },
{
    let secure_url = match get_str_field(v, "secure_url") {
        Some(u) => u,
        None => {
            return Err(ResponseError::MissingSecureUrl);
        },
    };
    let width = get_u64_field(v, "width");
    let height = get_u64_field(v, "height");
    Ok(UploadResult { secure_url, width, height })
}

/// Interpret an upload response body: `Ok` exactly when the body is valid
/// JSON whose top level carries a string `secure_url`; otherwise the error
/// says which of the two ways the body failed.
pub fn parse_upload_response(body: &str) -> (r: Result<UploadResult, ResponseError>)
    ensures
        match r {
            Ok(u) => {
                &&& is_json(body@)
                &&& str_field_of(body@, "secure_url"@) == Some(u.secure_url@)
                &&& u.width == u64_field_of(body@, "width"@)
                &&& u.height == u64_field_of(body@, "height"@)
            },
            Err(ResponseError::NotJson) => !is_json(body@),
            Err(ResponseError::MissingSecureUrl) => is_json(body@) && str_field_of(
                body@,
                "secure_url"@,
            ) is None,
        },
{
    match parse_json(body) {
        None => Err(ResponseError::NotJson),
        Some(v) => upload_result_from_value(&v),
    }
}

} // verus!
