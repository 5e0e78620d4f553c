use flux_turn_taking::connection::{decimal_string, listen_url};

#[test]
fn listen_url_uses_default_endpoint() {
    assert_eq!(
        listen_url(None, 44100, "linear16"),
        "wss://api.deepgram.com/v2/listen?model=flux-general-en&sample_rate=44100&encoding=linear16"
    );
}

#[test]
fn listen_url_trims_trailing_slashes() {
    assert_eq!(
        listen_url(Some("ws://localhost:8119//"), 16000, "mulaw"),
        "ws://localhost:8119/v2/listen?model=flux-general-en&sample_rate=16000&encoding=mulaw"
    );
}

#[test]
fn decimal_strings() {
    assert_eq!(decimal_string(0), "0");
    assert_eq!(decimal_string(7), "7");
    assert_eq!(decimal_string(10), "10");
    assert_eq!(decimal_string(u32::MAX as u64), "4294967295");
    assert_eq!(decimal_string(u64::MAX), "18446744073709551615");
}
