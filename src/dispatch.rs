use vstd::prelude::*;
use vstd::string::StringExecFns;
use vstd::utf8::{decode_utf8, encode_utf8, valid_utf8};

use crate::envelope::{
    build, build_outcome, envelope_text, json_string_of, BuildError,
    MAX_PAYLOAD_BYTES,
};
use crate::text::{is_header_text, lemma_ascii_is_utf8};

verus! {

/// Why a request ended without a message on the queue.
#[derive(Debug, Clone, Copy, PartialEq, Eq, Structural)]
pub enum Failure {
    /// The current time could not be read.
    ClockUnavailable,
    /// No queue address is configured.
    QueueUrlMissing,
    /// The request could not be turned into an envelope.
    Input(BuildError),
    /// The queue service did not accept the message.
    Publish,
}

/// What the host does next for a request.
#[derive(Debug, Clone, PartialEq, Eq)]
pub enum Action {
    /// Send `payload` once to the queue at `queue_url`, then answer with
    /// `publish_reply` of the outcome.
    Publish { queue_url: String, payload: String },
    /// Answer with `reject` of the failure; nothing is sent.
    Reject(Failure),
}

/// The decision that an `Action` carries, with its texts as characters.
pub enum Decision {
    Publish { queue_url: Seq<char>, payload: Seq<char> },
    Reject(Failure),
}

impl View for Action {
    type V = Decision;

    open spec fn view(&self) -> Decision {
        match self {
            Action::Publish { queue_url, payload } => Decision::Publish {
                queue_url: queue_url@,
                payload: payload@,
            },
            Action::Reject(f) => Decision::Reject(*f),
        }
    }
}

/// The HTTP answer to a request: a status code and a plain-text body.
#[derive(Debug, Clone, PartialEq, Eq)]
pub struct Reply {
    pub status: u16,
    pub text: String,
}

/// The short reason given to the caller for a failure.
pub open spec fn failure_reason(f: Failure) -> Seq<char> {
    match f {
        Failure::ClockUnavailable => "Could not get timestamp"@,
        Failure::QueueUrlMissing => "Could not parse queue url"@,
        Failure::Input(BuildError::MissingIdentifier) => "No user agent found"@,
        Failure::Input(BuildError::InvalidIdentifierEncoding) => "No valid user agent found"@,
        Failure::Input(BuildError::InvalidBodyEncoding) => "Could not parse body"@,
        Failure::Input(BuildError::SerializationError) => "Could not format JSON"@,
        Failure::Input(BuildError::PayloadTooLarge) => "Body too long"@,
        Failure::Publish => "Could not connect to queue"@,
    }
}

/// The reply to a failure: status 400 with the failure's reason.
pub open spec fn reject_reply(f: Failure) -> (u16, Seq<char>) {
    (400, failure_reason(f))
}

/// The reply once the queue has answered: 200 and `OK` when it accepted the
/// message, the reply to `Failure::Publish` otherwise.
pub open spec fn publish_outcome_reply(sent: bool) -> (u16, Seq<char>) {
    if sent {
        (200, "OK"@)
    } else {
        reject_reply(Failure::Publish)
    }
}

/// The decision for a request, given the time of receipt in seconds (`None`
/// when the clock could not be read), the configured queue address (if any),
/// the identifier header's bytes (if present) and the body's bytes.
pub open spec fn decide(
    now: Option<u64>,
    queue_url: Option<Seq<char>>,
    identifier: Option<Seq<u8>>,
    body: Seq<u8>,
) -> Decision {
    match now {
        None => Decision::Reject(Failure::ClockUnavailable),
        Some(t) => match queue_url {
            None => Decision::Reject(Failure::QueueUrlMissing),
            Some(url) => match build_outcome(identifier, body, t) {
                Ok(payload) => Decision::Publish { queue_url: url, payload },
                Err(e) => Decision::Reject(Failure::Input(e)),
            },
        },
    }
}

impl Failure {
    /// The short reason given to the caller.
    pub fn reason(&self) -> (r: String)
        ensures
            r@ == failure_reason(*self),
    {
        match self {
            Failure::ClockUnavailable => String::from_str("Could not get timestamp"),
            Failure::QueueUrlMissing => String::from_str("Could not parse queue url"),
            Failure::Input(BuildError::MissingIdentifier) => String::from_str(
                "No user agent found",
            ),
            Failure::Input(BuildError::InvalidIdentifierEncoding) => String::from_str(
                "No valid user agent found",
            ),
            Failure::Input(BuildError::InvalidBodyEncoding) => String::from_str(
                "Could not parse body",
            ),
            Failure::Input(BuildError::SerializationError) => String::from_str(
                "Could not format JSON",
            ),
            Failure::Input(BuildError::PayloadTooLarge) => String::from_str("Body too long"),
            Failure::Publish => String::from_str("Could not connect to queue"),
        }
    }
}

/// The reply to a failure.
pub fn reject(f: Failure) -> (r: Reply)
    ensures
        (r.status, r.text@) == reject_reply(f),
{
    Reply { status: 400, text: f.reason() }
}

/// The reply once the queue has answered; `sent` tells whether it accepted
/// the message.
pub fn publish_reply(sent: bool) -> (r: Reply)
    ensures
        (r.status, r.text@) == publish_outcome_reply(sent),
{
    if sent {
        Reply { status: 200, text: String::from_str("OK") }
    } else {
        reject(Failure::Publish)
    }
}

/// Decides what to do with a request: checks the clock reading and the
/// queue address, then builds the envelope to publish.
pub fn handle(
    now: Option<u64>,
    queue_url: Option<String>,
    identifier: Option<Vec<u8>>,
    body: Vec<u8>,
) -> (r: Action)
    ensures
        r@ == decide(
            now,
            match queue_url {
                Some(u) => Some(u@),
                None => None,
            },
            match identifier {
                Some(id) => Some(id@),
                None => None,
            },
            body@,
        ),
{
    let t = match now {
        Some(t) => t,
        None => return Action::Reject(Failure::ClockUnavailable),
    };
    let url = match queue_url {
        Some(url) => url,
        None => return Action::Reject(Failure::QueueUrlMissing),
    };
    let built = match &identifier {
        Some(id) => build(Some(id.as_slice()), body, t),
        None => build(None, body, t),
    };
    match built {
        Ok(payload) => Action::Publish { queue_url: url, payload },
        Err(e) => Action::Reject(Failure::Input(e)),
    }
}

/// A request with a clock reading, a queue address, an identifier header
/// that is text and a UTF-8 body, whose envelope serializes within
/// `MAX_PAYLOAD_BYTES`, is published once to that address: the payload holds
/// the time of receipt, the identifier's characters (byte for byte) and the
/// decoded body, each string as serde_json writes it; the queue's acceptance
/// is answered with 200 and `OK`.
pub proof fn valid_request_is_published(
    now: u64,
    queue_url: Seq<char>,
    identifier: Seq<u8>,
    body: Seq<u8>,
)
    requires
        is_header_text(identifier),
        valid_utf8(body),
        json_string_of(decode_utf8(identifier)) is Some,
        json_string_of(decode_utf8(body)) is Some,
        encode_utf8(
            envelope_text(
                now,
                json_string_of(decode_utf8(identifier))->Some_0,
                json_string_of(decode_utf8(body))->Some_0,
            ),
        ).len() <= MAX_PAYLOAD_BYTES,
    ensures
        decide(Some(now), Some(queue_url), Some(identifier), body) == (Decision::Publish {
            queue_url,
            payload: envelope_text(
                now,
                json_string_of(decode_utf8(identifier))->Some_0,
                json_string_of(decode_utf8(body))->Some_0,
            ),
        }),
        decode_utf8(identifier) == Seq::new(identifier.len(), |i: int| identifier[i] as char),
        publish_outcome_reply(true) == (200u16, "OK"@),
{
    lemma_ascii_is_utf8(identifier);
    assert(decode_utf8(identifier) =~= Seq::new(identifier.len(), |i: int| identifier[i] as char));
}

/// A request without an identifier header is answered with 400 and nothing
/// is published, whatever its body.
pub proof fn missing_identifier_is_rejected(
    now: Option<u64>,
    queue_url: Option<Seq<char>>,
    body: Seq<u8>,
)
    ensures
        decide(now, queue_url, None, body) is Reject,
        reject_reply(decide(now, queue_url, None, body)->Reject_0).0 == 400,
{
}

/// Every payload handed on for publishing fits in `MAX_PAYLOAD_BYTES` once
/// encoded as UTF-8.
pub proof fn published_payload_fits(
    now: Option<u64>,
    queue_url: Option<Seq<char>>,
    identifier: Option<Seq<u8>>,
    body: Seq<u8>,
)
    ensures
        decide(now, queue_url, identifier, body) is Publish ==> encode_utf8(
            decide(now, queue_url, identifier, body)->payload,
        ).len() <= MAX_PAYLOAD_BYTES,
{
}

/// A request whose envelope serializes to more than `MAX_PAYLOAD_BYTES` is
/// answered with 400 and nothing is published.
pub proof fn oversized_envelope_is_rejected(
    now: Option<u64>,
    queue_url: Option<Seq<char>>,
    identifier: Seq<u8>,
    body: Seq<u8>,
)
    requires
        is_header_text(identifier),
        valid_utf8(body),
        json_string_of(decode_utf8(identifier)) is Some,
        json_string_of(decode_utf8(body)) is Some,
        now is Some ==> encode_utf8(
            envelope_text(
                now->Some_0,
                json_string_of(decode_utf8(identifier))->Some_0,
                json_string_of(decode_utf8(body))->Some_0,
            ),
        ).len() > MAX_PAYLOAD_BYTES,
    ensures
        decide(now, queue_url, Some(identifier), body) is Reject,
        now is Some && queue_url is Some ==> decide(now, queue_url, Some(identifier), body)
            == Decision::Reject(Failure::Input(BuildError::PayloadTooLarge)),
        reject_reply(decide(now, queue_url, Some(identifier), body)->Reject_0).0 == 400,
{
}

} // verus!
