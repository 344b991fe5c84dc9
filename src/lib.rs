//! Relay of one HTTP request to a message queue: the request's client
//! identifier and body are wrapped in a timestamped envelope, serialized as
//! JSON, checked against the queue's size limit and handed on for publishing.

mod dispatch;
mod envelope;
mod text;

pub use dispatch::{handle, publish_reply, reject, Action, Failure, Reply};
pub use envelope::{build, frame_envelope, BuildError, MAX_PAYLOAD_BYTES};
pub use text::{append_decimal, decode_utf8_bytes, header_text};
