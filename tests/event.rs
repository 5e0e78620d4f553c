use flux_turn_taking::event::{classify, message_kind, ProtocolEvent};

#[test]
fn tags_map_to_kinds() {
    assert_eq!(classify("Results"), ProtocolEvent::Results);
    assert_eq!(classify("SpeechStarted"), ProtocolEvent::SpeechStarted);
    assert_eq!(classify("UtteranceEnd"), ProtocolEvent::UtteranceEnd);
    assert_eq!(classify("Metadata"), ProtocolEvent::Metadata);
    assert_eq!(classify("TurnInfo"), ProtocolEvent::Other);
    assert_eq!(classify("results"), ProtocolEvent::Other);
    assert_eq!(classify(""), ProtocolEvent::Other);
}

#[test]
fn messages_are_decoded_before_classifying() {
    assert_eq!(message_kind(r#"{"type":"Results","channel":{}}"#), Some(ProtocolEvent::Results));
    assert_eq!(message_kind(r#"{"type":"Metadata"}"#), Some(ProtocolEvent::Metadata));
    assert_eq!(message_kind(r#"{"type":"Connected","x":1}"#), Some(ProtocolEvent::Other));
    assert_eq!(message_kind(r#"{"type":3}"#), None);
    assert_eq!(message_kind(r#"{"kind":"Results"}"#), None);
    assert_eq!(message_kind("not json"), None);
}
