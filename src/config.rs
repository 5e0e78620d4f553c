//! Settings of the text-to-speech terminal client: their defaults, the
//! environment overrides applied over a loaded file, and the config path shown
//! to the user.
use vstd::prelude::*;
use crate::text::{lowercase_of, to_lowercase};

verus! {

/// API connection settings.
#[derive(Clone, Debug)]
pub struct ApiConfig {
    /// The API key, when one is configured.
    pub key: Option<String>,
    /// The speech endpoint URL, when it is overridden.
    pub endpoint: Option<String>,
}

/// Audio output settings.
#[derive(Clone, Debug)]
pub struct AudioConfig {
    /// The audio encoding (mp3, linear16, mulaw, alaw, opus, flac, aac).
    pub format: Option<String>,
    /// The output sample rate in Hz.
    pub sample_rate: Option<u32>,
}

/// Opt-in switches for features still in development; all off by default.
#[derive(Clone, Copy, Debug, PartialEq, Eq, Structural)]
pub struct ExperimentalFlags {
    /// Play audio while it downloads.
    pub streaming_playback: bool,
    /// Accept SSML markup in the input text.
    pub ssml_support: bool,
}

/// The whole configuration.
#[derive(Clone, Debug)]
pub struct AppConfig {
    pub api: ApiConfig,
    pub audio: AudioConfig,
    pub experimental: ExperimentalFlags,
}

impl Default for ApiConfig {
    fn default() -> (r: ApiConfig)
        ensures
            r.key is None,
            r.endpoint is None,
    {
        ApiConfig { key: None, endpoint: None }
    }
}

impl Default for AudioConfig {
    fn default() -> (r: AudioConfig)
        ensures
            r.format is None,
            r.sample_rate is None,
    {
        AudioConfig { format: None, sample_rate: None }
    }
}

impl Default for ExperimentalFlags {
    fn default() -> (r: ExperimentalFlags)
        ensures
            !r.streaming_playback,
            !r.ssml_support,
    {
        ExperimentalFlags { streaming_playback: false, ssml_support: false }
    }
}

impl Default for AppConfig {
    fn default() -> (r: AppConfig)
        ensures
            r.api.key is None,
            r.api.endpoint is None,
            r.audio.format is None,
            r.audio.sample_rate is None,
            !r.experimental.streaming_playback,
            !r.experimental.ssml_support,
    {
        AppConfig {
            api: ApiConfig::default(),
            audio: AudioConfig::default(),
            experimental: ExperimentalFlags::default(),
        }
    }
}

/// The spellings of "on" that a flag accepts, once lowercased.
pub open spec fn is_truthy(lowered: Seq<char>) -> bool {
    lowered == "true"@ || lowered == "1"@ || lowered == "yes"@
}

/// Whether already-lowercased text spells "on".
pub fn truthy(lowered: &str) -> (r: bool)
    ensures
        r == is_truthy(lowered@),
{
    crate::text::str_eq(lowered, "true") || crate::text::str_eq(lowered, "1")
        || crate::text::str_eq(lowered, "yes")
}

/// Reads a flag value: `true`, `1` or `yes` in any letter case turn it on;
/// anything else turns it off.
pub fn parse_bool_env(val: &str) -> (r: bool)
    ensures
        r == is_truthy(lowercase_of(val@)),
{
    let lowered = to_lowercase(val);
    truthy(lowered.as_str())
}

pub open spec fn is_digit(c: char) -> bool {
    '0' <= c && c <= '9'
}

/// The number that a string of decimal digits denotes.
pub open spec fn digits_value(s: Seq<char>) -> nat
    decreases s.len(),
{
    if s.len() == 0 {
        0
    } else {
        digits_value(s.drop_last()) * 10 + ((s.last() as u32) - ('0' as u32)) as nat
    }
}

/// `s` without one leading `+`.
pub open spec fn unsigned_part(s: Seq<char>) -> Seq<char> {
    if s.len() > 0 && s[0] == '+' {
        s.drop_first()
    } else {
        s
    }
}

pub open spec fn all_digits(d: Seq<char>) -> bool {
    forall|i: int| 0 <= i < d.len() ==> is_digit(#[trigger] d[i])
}

/// What a decimal `u32` reads as: an optional `+`, then one or more digits
/// whose value fits; anything else is no number.
pub open spec fn u32_value_of(s: Seq<char>) -> Option<u32> {
    let d = unsigned_part(s);
    if d.len() > 0 && all_digits(d) && digits_value(d) <= u32::MAX {
        Some(digits_value(d) as u32)
    } else {
        None
    }
}

proof fn lemma_digits_value_grows(d: Seq<char>, j: int, k: int)
    requires
        0 <= j <= k <= d.len(),
        forall|i: int| 0 <= i < d.len() ==> is_digit(#[trigger] d[i]),
    ensures
        digits_value(d.subrange(0, j)) <= digits_value(d.subrange(0, k)),
    decreases k - j,
{
    if j < k {
        lemma_digits_value_grows(d, j, k - 1);
        assert(d.subrange(0, k).drop_last() =~= d.subrange(0, k - 1));
        assert(is_digit(d[k - 1]));
    }
}

/// Reads a decimal `u32`, as `str::parse::<u32>` does.
pub fn parse_u32(s: &str) -> (r: Option<u32>)
    ensures
        r == u32_value_of(s@),
{
    let n = s.unicode_len();
    let start: usize = if n > 0 && s.get_char(0) == '+' {
        1
    } else {
        0
    };
    let ghost d = unsigned_part(s@);
    assert(d =~= s@.subrange(start as int, n as int));
    if start == n {
        return None;
    }
    let mut acc: u64 = 0;
    let mut i: usize = start;
    while i < n
        invariant
            start <= i <= n,
            n == s@.len(),
            d == s@.subrange(start as int, n as int),
            d == unsigned_part(s@),
            acc as nat == digits_value(d.subrange(0, i - start)),
            acc <= u32::MAX,
            forall|k: int| 0 <= k < i - start ==> is_digit(#[trigger] d[k]),
        decreases n - i,
    {
        let c = s.get_char(i);
        assert(d[i - start] == c);
        if !('0' <= c && c <= '9') {
            assert(!is_digit(d[i - start]));
            return None;
        }
        let v = (c as u32 - '0' as u32) as u64;
        let ghost pre = d.subrange(0, i + 1 - start);
        assert(pre.drop_last() =~= d.subrange(0, i - start));
        assert(pre.last() == c);
        assert(digits_value(pre) == digits_value(d.subrange(0, i - start)) * 10 + v);
        acc = acc * 10 + v;
        i = i + 1;
        assert(forall|k: int| 0 <= k < i - start ==> is_digit(#[trigger] d[k]));
        if acc > u32::MAX as u64 {
            proof {
                if all_digits(d) {
                    lemma_digits_value_grows(d, i - start, d.len() as int);
                    assert(d.subrange(0, d.len() as int) =~= d);
                }
            }
            return None;
        }
    }
    assert(d.subrange(0, n - start) =~= d);
    Some(acc as u32)
}

/// Applies the environment's overrides to a loaded configuration: the audio
/// format as given, the sample rate when it reads as a number, and each flag
/// as [`parse_bool_env`] reads it. Each argument is the variable's value, or
/// `None` when it is unset.
pub fn apply_env_overrides(
    config: &mut AppConfig,
    audio_format: Option<String>,
    sample_rate: Option<&str>,
    streaming_playback: Option<&str>,
    ssml_support: Option<&str>,
)
    ensures
        final(config).api == old(config).api,
        final(config).audio.format == match audio_format {
            Some(f) => Some(f),
            None => old(config).audio.format,
        },
        final(config).audio.sample_rate == match sample_rate {
            Some(v) => match u32_value_of(v@) {
                Some(n) => Some(n),
                None => old(config).audio.sample_rate,
            },
            None => old(config).audio.sample_rate,
        },
        final(config).experimental.streaming_playback == match streaming_playback {
            Some(v) => is_truthy(lowercase_of(v@)),
            None => old(config).experimental.streaming_playback,
        },
        final(config).experimental.ssml_support == match ssml_support {
            Some(v) => is_truthy(lowercase_of(v@)),
            None => old(config).experimental.ssml_support,
        },
{
    if let Some(f) = audio_format {
        config.audio.format = Some(f);
    }
    if let Some(v) = sample_rate {
        if let Some(rate) = parse_u32(v) {
            config.audio.sample_rate = Some(rate);
        }
    }
    if let Some(v) = streaming_playback {
        config.experimental.streaming_playback = parse_bool_env(v);
    }
    if let Some(v) = ssml_support {
        config.experimental.ssml_support = parse_bool_env(v);
    }
}

/// The shown path when the home directory is unknown.
pub const FALLBACK_CONFIG_PATH: &'static str = "~/.config/tts-tui.toml";

/// `dir` with the component `name` added, separated by `/` unless `dir` is
/// empty or already ends with one.
pub open spec fn join_path(dir: Seq<char>, name: Seq<char>) -> Seq<char> {
    if dir.len() == 0 || dir.last() == '/' {
        dir + name
    } else {
        dir + seq!['/'] + name
    }
}

/// The config file path shown to the user: `<home>/.config/tts-tui.toml`, or
/// the fallback when the home directory is unknown.
pub open spec fn config_path_of(home: Option<Seq<char>>) -> Seq<char> {
    match home {
        Some(h) => join_path(join_path(h, ".config"@), "tts-tui.toml"@),
        None => FALLBACK_CONFIG_PATH@,
    }
}

fn join_component(dir: String, name: &str) -> (r: String)
    ensures
        r@ == join_path(dir@, name@),
{
    let n = dir.as_str().unicode_len();
    if n == 0 || dir.as_str().get_char(n - 1) == '/' {
        dir.concat(name)
    } else {
        proof {
            reveal_strlit("/");
        }
        let with_sep = dir.concat("/");
        with_sep.concat(name)
    }
}

/// The config file path to display, given the home directory (`None` when it
/// is unknown).
pub fn config_path_display(home: Option<&str>) -> (r: String)
    ensures
        r@ == config_path_of(
            match home {
                Some(h) => Some(h@),
                None => None,
            },
        ),
{
    match home {
        Some(h) => {
            let dir = join_component(String::from_str(h), ".config");
            join_component(dir, "tts-tui.toml")
        },
        None => String::from_str(FALLBACK_CONFIG_PATH),
    }
}

} // verus!
