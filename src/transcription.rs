//! The live transcription client's listen URL, built from the detected audio
//! format and the user's options.
use vstd::prelude::*;
use crate::connection::{decimal, decimal_string};
use crate::redact::{joined, join, redact_query, redact_entities_of};
use crate::text::views;

verus! {

/// The service used when no endpoint override is given.
pub const TRANSCRIPTION_ENDPOINT: &'static str = "wss://api.deepgram.com";

/// The options of a live transcription session.
#[derive(Clone, Debug)]
pub struct ListenOptions {
    pub endpoint: Option<String>,
    pub encoding: Option<String>,
    pub sample_rate: Option<u32>,
    pub channels: Option<u16>,
    pub interim_results: Option<bool>,
    pub punctuate: Option<bool>,
    pub smart_format: Option<bool>,
    pub model: Option<String>,
    pub redact: Option<String>,
    pub callback: Option<String>,
}

/// `s` percent-encoded for a query: every byte of its UTF-8 form except
/// ASCII letters, digits and `-`, `_`, `.`, `~` becomes `%XX`.
pub uninterp spec fn percent_encoded_of(s: Seq<char>) -> Seq<char>;

/// Relies on `urlencoding::encode`, whose result depends on the text alone.
#[verifier::external_body]
fn url_encode(s: &str) -> (r: String)
    ensures
        r@ == percent_encoded_of(s@),
{
    urlencoding::encode(s).into_owned()
}

pub open spec fn bool_text(b: bool) -> Seq<char> {
    if b {
        "true"@
    } else {
        "false"@
    }
}

/// `<key>true` or `<key>false` for an optional flag, or nothing; `key`
/// ends with `=`.
pub open spec fn flag_param(key: Seq<char>, v: Option<bool>) -> Seq<Seq<char>> {
    match v {
        Some(b) => seq![key + bool_text(b)],
        None => Seq::empty(),
    }
}

/// The query parameters, in order: encoding (default `linear16`), sample rate
/// and channels (the detected ones unless overridden), then each option that
/// is set, the redaction list last.
pub open spec fn listen_params(o: ListenOptions, detected_rate: u32, detected_channels: u16) -> Seq<Seq<char>> {
    let encoding = match o.encoding {
        Some(e) => e@,
        None => "linear16"@,
    };
    let rate = match o.sample_rate {
        Some(r) => r,
        None => detected_rate,
    };
    let channels = match o.channels {
        Some(c) => c,
        None => detected_channels,
    };
    seq!["encoding="@ + encoding, "sample_rate="@ + decimal(rate as nat), "channels="@ + decimal(channels as nat)]
        + flag_param("interim_results="@, o.interim_results) + flag_param("punctuate="@, o.punctuate)
        + flag_param("smart_format="@, o.smart_format) + match o.model {
        Some(m) => seq!["model="@ + m@],
        None => Seq::empty(),
    } + redact_param(o.redact)
}

/// The full listen URL of a live transcription session.
pub open spec fn transcription_url_of(o: ListenOptions, detected_rate: u32, detected_channels: u16) -> Seq<char> {
    let base = match o.endpoint {
        Some(e) => e@,
        None => TRANSCRIPTION_ENDPOINT@,
    };
    base + "/v1/listen?"@ + joined(listen_params(o, detected_rate, detected_channels), "&"@)
        + match o.callback {
        Some(c) => "&callback="@ + percent_encoded_of(c@) + "&callback_method=post"@,
        None => Seq::empty(),
    }
}

fn push_param(params: &mut Vec<String>, name: &str, value: &str)
    ensures
        views(final(params)@) == views(old(params)@).push(name@ + value@),
{
    params.push(String::from_str(name).concat(value));
    assert(views(params@) =~= views(old(params)@).push(name@ + value@));
}

fn bool_str(b: bool) -> (r: &'static str)
    ensures
        r@ == bool_text(b),
{
    if b {
        "true"
    } else {
        "false"
    }
}

fn push_flag(params: &mut Vec<String>, key: &str, v: Option<bool>)
    ensures
        views(final(params)@) == views(old(params)@) + flag_param(key@, v),
{
    if let Some(b) = v {
        push_param(params, key, bool_str(b));
    }
    assert(views(params@) =~= views(old(params)@) + flag_param(key@, v));
}

fn base_params(o: &ListenOptions, detected_rate: u32, detected_channels: u16) -> (r: Vec<String>)
    ensures
        views(r@) == listen_params(*o, detected_rate, detected_channels).subrange(0, 3),
{
    let mut params: Vec<String> = Vec::new();
    match &o.encoding {
        Some(e) => push_param(&mut params, "encoding=", e.as_str()),
        None => push_param(&mut params, "encoding=", "linear16"),
    }
    let rate = match o.sample_rate {
        Some(r) => r,
        None => detected_rate,
    };
    let rate_text = decimal_string(rate as u64);
    push_param(&mut params, "sample_rate=", rate_text.as_str());
    let channels = match o.channels {
        Some(c) => c,
        None => detected_channels,
    };
    let channels_text = decimal_string(channels as u64);
    push_param(&mut params, "channels=", channels_text.as_str());
    assert(views(params@) =~= listen_params(*o, detected_rate, detected_channels).subrange(0, 3));
    params
}

/// The query parameters of a live transcription session, in order.
pub fn listen_param_list(o: &ListenOptions, detected_rate: u32, detected_channels: u16) -> (r: Vec<String>)
    ensures
        views(r@) == listen_params(*o, detected_rate, detected_channels),
{
    let ghost all = listen_params(*o, detected_rate, detected_channels);
    let mut params = base_params(o, detected_rate, detected_channels);
    push_flag(&mut params, "interim_results=", o.interim_results);
    push_flag(&mut params, "punctuate=", o.punctuate);
    push_flag(&mut params, "smart_format=", o.smart_format);
    let ghost with_flags = views(params@);
    if let Some(m) = &o.model {
        push_param(&mut params, "model=", m.as_str());
    }
    let ghost with_model = views(params@);
    assert(with_model =~= with_flags + match o.model {
        Some(m) => seq!["model="@ + m@],
        None => Seq::<Seq<char>>::empty(),
    });
    push_redact(&mut params, &o.redact);
    assert(views(params@) =~= all);
    params
}

/// Builds the listen URL of a live transcription session.
pub fn transcription_url(o: &ListenOptions, detected_rate: u32, detected_channels: u16) -> (r: String)
    ensures
        r@ == transcription_url_of(*o, detected_rate, detected_channels),
{
    let params = listen_param_list(o, detected_rate, detected_channels);
    let mut url = match &o.endpoint {
        Some(e) => e.clone(),
        None => String::from_str(TRANSCRIPTION_ENDPOINT),
    };
    url.append("/v1/listen?");
    let query = join(&params, "&");
    url.append(query.as_str());
    if let Some(c) = &o.callback {
        url.append("&callback=");
        let encoded = url_encode(c.as_str());
        url.append(encoded.as_str());
        url.append("&callback_method=post");
    }
    url
}

/// The service used for pre-recorded files when no endpoint override is given.
pub const PRERECORDED_ENDPOINT: &'static str = "https://api.deepgram.com";

/// The options of a pre-recorded file transcription.
#[derive(Clone, Debug)]
pub struct TranscribeArgs {
    /// Path to the audio file.
    pub file: String,
    pub model: Option<String>,
    pub language: Option<String>,
    pub punctuate: Option<bool>,
    pub smart_format: Option<bool>,
    pub diarize: Option<bool>,
    pub multichannel: bool,
    pub sentiment: Option<bool>,
    pub summarize: Option<String>,
    pub topics: Option<bool>,
    pub intents: Option<bool>,
    pub detect_entities: Option<bool>,
    pub redact: Option<String>,
    pub encoding: Option<String>,
    /// Output format: `json`, `verbose-json` or `text`.
    pub output: String,
    pub endpoint: Option<String>,
}

/// `<key><value>` for an optional text option, or nothing; `key` ends with `=`.
pub open spec fn text_param(key: Seq<char>, v: Option<String>) -> Seq<Seq<char>> {
    match v {
        Some(t) => seq![key + t@],
        None => Seq::empty(),
    }
}

/// The redaction parameter, when the option names an entity.
pub open spec fn redact_param(v: Option<String>) -> Seq<Seq<char>> {
    match v {
        Some(r) => if redact_entities_of(r@).len() > 0 {
            seq!["redact="@ + joined(redact_entities_of(r@), "&redact="@)]
        } else {
            Seq::empty()
        },
        None => Seq::empty(),
    }
}

/// The query parameters of a pre-recorded transcription, in order; only the
/// options that are set appear, and `multichannel` only when it is on.
pub open spec fn prerecorded_params(a: TranscribeArgs) -> Seq<Seq<char>> {
    text_param("model="@, a.model) + text_param("language="@, a.language) + flag_param(
        "punctuate="@,
        a.punctuate,
    ) + flag_param("smart_format="@, a.smart_format) + flag_param("diarize="@, a.diarize) + (if a.multichannel {
        seq!["multichannel=true"@]
    } else {
        Seq::empty()
    }) + flag_param("sentiment="@, a.sentiment) + text_param("summarize="@, a.summarize)
        + flag_param("topics="@, a.topics) + flag_param("intents="@, a.intents) + flag_param(
        "detect_entities="@,
        a.detect_entities,
    ) + redact_param(a.redact) + text_param("encoding="@, a.encoding)
}

/// The request URL of a pre-recorded transcription.
pub open spec fn prerecorded_url_of(a: TranscribeArgs) -> Seq<char> {
    let base = match a.endpoint {
        Some(e) => e@,
        None => PRERECORDED_ENDPOINT@,
    };
    base + "/v1/listen?"@ + joined(prerecorded_params(a), "&"@)
}

fn push_text_param(params: &mut Vec<String>, key: &str, v: &Option<String>)
    ensures
        views(final(params)@) == views(old(params)@) + text_param(key@, *v),
{
    if let Some(t) = v {
        push_param(params, key, t.as_str());
    }
    assert(views(params@) =~= views(old(params)@) + text_param(key@, *v));
}

fn push_redact(params: &mut Vec<String>, v: &Option<String>)
    ensures
        views(final(params)@) == views(old(params)@) + redact_param(*v),
{
    if let Some(value) = v {
        if let Some(q) = redact_query(value.as_str()) {
            params.push(q);
        }
    }
    assert(views(params@) =~= views(old(params)@) + redact_param(*v));
}

/// The query parameters of a pre-recorded transcription, in order.
pub fn prerecorded_param_list(a: &TranscribeArgs) -> (r: Vec<String>)
    ensures
        views(r@) == prerecorded_params(*a),
{
    let mut params: Vec<String> = Vec::new();
    push_text_param(&mut params, "model=", &a.model);
    push_text_param(&mut params, "language=", &a.language);
    push_flag(&mut params, "punctuate=", a.punctuate);
    push_flag(&mut params, "smart_format=", a.smart_format);
    push_flag(&mut params, "diarize=", a.diarize);
    let ghost before_multichannel = views(params@);
    if a.multichannel {
        params.push(String::from_str("multichannel=true"));
    }
    assert(views(params@) =~= before_multichannel + (if a.multichannel {
        seq!["multichannel=true"@]
    } else {
        Seq::empty()
    }));
    push_flag(&mut params, "sentiment=", a.sentiment);
    push_text_param(&mut params, "summarize=", &a.summarize);
    push_flag(&mut params, "topics=", a.topics);
    push_flag(&mut params, "intents=", a.intents);
    push_flag(&mut params, "detect_entities=", a.detect_entities);
    push_redact(&mut params, &a.redact);
    push_text_param(&mut params, "encoding=", &a.encoding);
    assert(views(params@) =~= prerecorded_params(*a));
    params
}

/// Builds the request URL of a pre-recorded transcription.
pub fn prerecorded_url(a: &TranscribeArgs) -> (r: String)
    ensures
        r@ == prerecorded_url_of(*a),
{
    let params = prerecorded_param_list(a);
    let mut url = match &a.endpoint {
        Some(e) => e.clone(),
        None => String::from_str(PRERECORDED_ENDPOINT),
    };
    url.append("/v1/listen?");
    let query = join(&params, "&");
    url.append(query.as_str());
    url
}

} // verus!
