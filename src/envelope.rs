use vstd::prelude::*;
use vstd::string::StringExecFns;
use vstd::utf8::{decode_utf8, encode_utf8, valid_utf8};

use crate::text::{append_decimal, decimal, decode_utf8_bytes, header_text, is_header_text};

verus! {

/// The largest serialized envelope, in bytes, that the queue accepts.
pub const MAX_PAYLOAD_BYTES: usize = 256000;

/// Why a request could not be turned into a serialized envelope.
#[derive(Debug, Clone, Copy, PartialEq, Eq, Structural)]
pub enum BuildError {
    /// The request carries no client identifier header.
    MissingIdentifier,
    /// The identifier header's bytes are not text.
    InvalidIdentifierEncoding,
    /// The body is not valid UTF-8.
    InvalidBodyEncoding,
    /// The envelope could not be serialized.
    SerializationError,
    /// The serialized envelope is larger than `MAX_PAYLOAD_BYTES`.
    PayloadTooLarge,
}

/// What serde_json writes for a string: the JSON string literal, quotes
/// included, or `None` where it reports an error.
pub uninterp spec fn json_string_of(s: Seq<char>) -> Option<Seq<char>>;

/// serde_json's error type, carried through without looking inside.
#[verifier::external_type_specification]
#[verifier::external_body]
pub struct ExJsonError(serde_json::Error);

/// Relies on `serde_json::to_string` applied to a `str`: the JSON string
/// literal for the text. What it returns depends on the text alone.
#[verifier::external_body]
fn json_string(s: &str) -> (r: Result<String, serde_json::Error>)
    ensures
        r is Ok <==> json_string_of(s@) is Some,
        r is Ok ==> r->Ok_0@ == json_string_of(s@)->Some_0,
{
    serde_json::to_string(s)
}

/// The serialized envelope: a JSON object with the fields `received`, `from`
/// and `body`, in that order, with no whitespace. `from_json` and
/// `body_json` are the two strings already written as JSON string literals.
pub open spec fn envelope_text(received: u64, from_json: Seq<char>, body_json: Seq<char>) -> Seq<char> {
    "{\"received\":"@ + decimal(received as nat) + ",\"from\":"@ + from_json + ",\"body\":"@
        + body_json + "}"@
}

/// The envelope text, or `PayloadTooLarge` when its UTF-8 form is longer than
/// `MAX_PAYLOAD_BYTES`.
pub open spec fn framed(received: u64, from_json: Seq<char>, body_json: Seq<char>) -> Result<
    Seq<char>,
    BuildError,
> {
    let t = envelope_text(received, from_json, body_json);
    if encode_utf8(t).len() > MAX_PAYLOAD_BYTES {
        Err(BuildError::PayloadTooLarge)
    } else {
        Ok(t)
    }
}

/// What building an envelope gives for an identifier header's bytes (if
/// any), a body's bytes and the time of receipt in seconds.
pub open spec fn build_outcome(identifier: Option<Seq<u8>>, body: Seq<u8>, now: u64) -> Result<
    Seq<char>,
    BuildError,
> {
    match identifier {
        None => Err(BuildError::MissingIdentifier),
        Some(id) => {
            if !is_header_text(id) {
                Err(BuildError::InvalidIdentifierEncoding)
            } else if !valid_utf8(body) {
                Err(BuildError::InvalidBodyEncoding)
            } else {
                match (json_string_of(decode_utf8(id)), json_string_of(decode_utf8(body))) {
                    (Some(f), Some(b)) => framed(now, f, b),
                    _ => Err(BuildError::SerializationError),
                }
            }
        },
    }
}

/// A result with its text seen as characters.
pub open spec fn outcome_view(r: Result<String, BuildError>) -> Result<Seq<char>, BuildError> {
    match r {
        Ok(s) => Ok(s@),
        Err(e) => Err(e),
    }
}

/// Writes the envelope from the time of receipt and the two strings already
/// written as JSON string literals, and checks its size.
pub fn frame_envelope(received: u64, from_json: &str, body_json: &str) -> (r: Result<
    String,
    BuildError,
>)
    ensures
        outcome_view(r) == framed(received, from_json@, body_json@),
{
    let mut out = String::from_str("{\"received\":");
    append_decimal(&mut out, received);
    out.append(",\"from\":");
    out.append(from_json);
    out.append(",\"body\":");
    out.append(body_json);
    out.append("}");
    assert(out@ == envelope_text(received, from_json@, body_json@));
    let size = out.as_str().as_bytes().len();
    if size > MAX_PAYLOAD_BYTES {
        Err(BuildError::PayloadTooLarge)
    } else {
        Ok(out)
    }
}

/// Builds the serialized envelope for a request from its identifier header
/// (`None` when absent), its body and the time of receipt in seconds.
pub fn build(identifier: Option<&[u8]>, body: Vec<u8>, now: u64) -> (r: Result<String, BuildError>)
    ensures
        outcome_view(r) == build_outcome(
            match identifier {
                Some(id) => Some(id@),
                None => None,
            },
            body@,
            now,
        ),
{
    let raw = match identifier {
        Some(raw) => raw,
        None => return Err(BuildError::MissingIdentifier),
    };
    let from = match header_text(raw) {
        Some(from) => from,
        None => return Err(BuildError::InvalidIdentifierEncoding),
    };
    let text = match decode_utf8_bytes(body) {
        Some(text) => text,
        None => return Err(BuildError::InvalidBodyEncoding),
    };
    let from_json = match json_string(from.as_str()) {
        Ok(s) => s,
        Err(_) => return Err(BuildError::SerializationError),
    };
    let body_json = match json_string(text.as_str()) {
        Ok(s) => s,
        Err(_) => return Err(BuildError::SerializationError),
    };
    frame_envelope(now, from_json.as_str(), body_json.as_str())
}

} // verus!
