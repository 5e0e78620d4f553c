//! Classification of inbound protocol messages by their `type` tag.
use vstd::prelude::*;
use crate::text::str_eq;

verus! {

/// The kind of an inbound protocol message; every message maps to exactly one.
#[derive(Clone, Copy, Debug, PartialEq, Eq, Structural)]
pub enum ProtocolEvent {
    Results,
    SpeechStarted,
    UtteranceEnd,
    Metadata,
    Other,
}

/// The kind that a message whose `type` tag is `tag` belongs to.
pub open spec fn kind_of_tag(tag: Seq<char>) -> ProtocolEvent {
    if tag == "Results"@ {
        ProtocolEvent::Results
    } else if tag == "SpeechStarted"@ {
        ProtocolEvent::SpeechStarted
    } else if tag == "UtteranceEnd"@ {
        ProtocolEvent::UtteranceEnd
    } else if tag == "Metadata"@ {
        ProtocolEvent::Metadata
    } else {
        ProtocolEvent::Other
    }
}

/// Maps a message's `type` tag to its kind; unknown tags fall back to `Other`.
pub fn classify(tag: &str) -> (r: ProtocolEvent)
    ensures
        r == kind_of_tag(tag@),
{
    if str_eq(tag, "Results") {
        ProtocolEvent::Results
    } else if str_eq(tag, "SpeechStarted") {
        ProtocolEvent::SpeechStarted
    } else if str_eq(tag, "UtteranceEnd") {
        ProtocolEvent::UtteranceEnd
    } else if str_eq(tag, "Metadata") {
        ProtocolEvent::Metadata
    } else {
        ProtocolEvent::Other
    }
}

/// The `type` member of the JSON object that `text` encodes, when `text` is
/// one and that member is a string.
pub uninterp spec fn json_type_tag(text: Seq<char>) -> Option<Seq<char>>;

/// Relies on `serde_json::from_str::<serde_json::Value>` to decode the message
/// and on `Value::get` / `Value::as_str` to read its `type` member; the result
/// depends on the text alone.
#[verifier::external_body]
fn decode_type_tag(text: &str) -> (r: Option<String>)
    ensures
        r is Some == json_type_tag(text@) is Some,
        r matches Some(t) ==> t@ == json_type_tag(text@)->Some_0,
{
    let v: serde_json::Value = match serde_json::from_str(text) {
        Ok(v) => v,
        Err(_) => return None,
    };
    match v.get("type") {
        Some(t) => t.as_str().map(String::from),
        None => None,
    }
}

/// The kind of an inbound text message: `None` when it is not a JSON object
/// with a string `type` member, otherwise the kind its tag maps to.
pub fn message_kind(text: &str) -> (r: Option<ProtocolEvent>)
    ensures
        r == match json_type_tag(text@) {
            Some(t) => Some(kind_of_tag(t)),
            None => None,
        },
{
    match decode_type_tag(text) {
        Some(t) => Some(classify(t.as_str())),
        None => None,
    }
}

} // verus!
