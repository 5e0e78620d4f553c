use flux_turn_taking::transcription::{prerecorded_url, transcription_url, ListenOptions, TranscribeArgs};

fn options() -> ListenOptions {
    ListenOptions {
        endpoint: None,
        encoding: None,
        sample_rate: None,
        channels: None,
        interim_results: None,
        punctuate: None,
        smart_format: None,
        model: None,
        redact: None,
        callback: None,
    }
}

fn args() -> TranscribeArgs {
    TranscribeArgs {
        file: "a.wav".to_string(),
        model: None,
        language: None,
        punctuate: None,
        smart_format: None,
        diarize: None,
        multichannel: false,
        sentiment: None,
        summarize: None,
        topics: None,
        intents: None,
        detect_entities: None,
        redact: None,
        encoding: None,
        output: "text".to_string(),
        endpoint: None,
    }
}

#[test]
fn live_url_uses_detected_format_by_default() {
    assert_eq!(
        transcription_url(&options(), 48000, 2),
        "wss://api.deepgram.com/v1/listen?encoding=linear16&sample_rate=48000&channels=2"
    );
}

#[test]
fn live_url_lists_every_option_and_encodes_the_callback() {
    let mut o = options();
    o.endpoint = Some("ws://localhost:8080".to_string());
    o.encoding = Some("mulaw".to_string());
    o.sample_rate = Some(8000);
    o.channels = Some(1);
    o.interim_results = Some(true);
    o.punctuate = Some(false);
    o.smart_format = Some(true);
    o.model = Some("nova-3".to_string());
    o.redact = Some("PII,pci,pii".to_string());
    o.callback = Some("https://x.io/cb?a=1 b".to_string());
    assert_eq!(
        transcription_url(&o, 44100, 2),
        "ws://localhost:8080/v1/listen?encoding=mulaw&sample_rate=8000&channels=1\
&interim_results=true&punctuate=false&smart_format=true&model=nova-3&redact=pii&redact=pci\
&callback=https%3A%2F%2Fx.io%2Fcb%3Fa%3D1%20b&callback_method=post"
    );
}

#[test]
fn prerecorded_url_with_no_options_has_an_empty_query() {
    assert_eq!(prerecorded_url(&args()), "https://api.deepgram.com/v1/listen?");
}

#[test]
fn prerecorded_url_lists_set_options_in_order() {
    let mut a = args();
    a.model = Some("nova-3".to_string());
    a.language = Some("es".to_string());
    a.diarize = Some(true);
    a.multichannel = true;
    a.summarize = Some("v2".to_string());
    a.intents = Some(false);
    a.redact = Some(" , ".to_string());
    a.encoding = Some("flac".to_string());
    a.endpoint = Some("http://localhost:1".to_string());
    assert_eq!(
        prerecorded_url(&a),
        "http://localhost:1/v1/listen?model=nova-3&language=es&diarize=true&multichannel=true\
&summarize=v2&intents=false&encoding=flac"
    );
}
