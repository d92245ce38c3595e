use vstd::prelude::*;

use crate::error::UploadError;
use crate::ingest::opt_view;

verus! {

/// The string member `key` of the JSON document `body`, where `body` parses as
/// JSON and holds an object with such a member whose value is a string.
pub uninterp spec fn json_string_member(body: Seq<u8>, key: Seq<char>) -> Option<Seq<char>>;

/// Relies on `serde_json::from_slice` to parse `body` into a `serde_json::Value`,
/// and on `Value::get` with `Value::as_str` to read member `key` as a string.
/// A body that does not parse, or has no such string member, gives `None`.
#[verifier::external_body]
fn string_member(body: &[u8], key: &str) -> (r: Option<String>)
    ensures
        opt_view(r) == json_string_member(body@, key@),
{
    let value: serde_json::Value = serde_json::from_slice(body).ok()?;
    value.get(key).and_then(|v| v.as_str()).map(|s| s.to_string())
}

/// The member of the backend's answer that carries the content id.
pub open spec fn content_id_key() -> Seq<char> {
    "Hash"@
}

/// An HTTP status in the success class.
pub open spec fn spec_is_success(status: u16) -> bool {
    200 <= status <= 299
}

/// Whether the backend's status means the store went through.
pub fn is_success(status: u16) -> (r: bool)
    ensures
        r == spec_is_success(status),
{
    200 <= status && status <= 299
}

/// How the storage backend answered one store request.
pub enum StoreOutcome {
    /// The backend could not be reached; holds the transport's diagnostic.
    Unreachable { detail: String },
    /// The backend answered with this status and this body.
    Answered { status: u16, body: Vec<u8> },
}

/// The content id that a content-id member yields: present and non-empty, or a failure.
pub open spec fn spec_content_id_from_member(member: Option<Seq<char>>) -> Result<
    Seq<char>,
    UploadError,
> {
    match member {
        Some(id) => if id.len() > 0 {
            Ok(id)
        } else {
            Err(UploadError::UpstreamMalformed)
        },
        None => Err(UploadError::UpstreamMalformed),
    }
}

/// What a store request yields: the content id, or why there is none.
pub open spec fn spec_content_id(outcome: StoreOutcome) -> Result<Seq<char>, UploadError> {
    match outcome {
        StoreOutcome::Unreachable { detail } => Err(UploadError::UpstreamUnavailable { detail }),
        StoreOutcome::Answered { status, body } => if !spec_is_success(status) {
            Err(UploadError::UpstreamRejected { status, body })
        } else {
            spec_content_id_from_member(json_string_member(body@, content_id_key()))
        },
    }
}

/// Turns the content-id member read from the backend's answer into a content id.
pub fn content_id_from_member(member: Option<String>) -> (r: Result<String, UploadError>)
    ensures
        match r {
            Ok(id) => spec_content_id_from_member(opt_view(member)) == Ok::<
                Seq<char>,
                UploadError,
            >(id@),
            Err(e) => spec_content_id_from_member(opt_view(member)) == Err::<
                Seq<char>,
                UploadError,
            >(e),
        },
{
    match member {
        Some(id) => if id.as_str().unicode_len() > 0 {
            Ok(id)
        } else {
            Err(UploadError::UpstreamMalformed)
        },
        None => Err(UploadError::UpstreamMalformed),
    }
}

/// Reads the content id out of the backend's answer. No outcome is retried.
pub fn resolve_content_id(outcome: StoreOutcome) -> (r: Result<String, UploadError>)
    ensures
        match r {
            Ok(id) => spec_content_id(outcome) == Ok::<Seq<char>, UploadError>(id@),
            Err(e) => spec_content_id(outcome) == Err::<Seq<char>, UploadError>(e),
        },
{
    match outcome {
        StoreOutcome::Unreachable { detail } => Err(UploadError::UpstreamUnavailable { detail }),
        StoreOutcome::Answered { status, body } => {
            if !is_success(status) {
                Err(UploadError::UpstreamRejected { status, body })
            } else {
                let member = string_member(body.as_slice(), "Hash");
                proof {
                    reveal_strlit("Hash");
                }
                content_id_from_member(member)
            }
        },
    }
}

} // verus!
