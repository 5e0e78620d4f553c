//! The streaming endpoint a worker connects to, built from its settings.
use vstd::prelude::*;

verus! {

/// The service used when no endpoint override is given.
pub const DEFAULT_ENDPOINT: &'static str = "wss://api.deepgram.com";

/// `s` without its trailing `/` characters.
pub open spec fn trim_trailing_slashes(s: Seq<char>) -> Seq<char>
    decreases s.len(),
{
    if s.len() > 0 && s.last() == '/' {
        trim_trailing_slashes(s.drop_last())
    } else {
        s
    }
}

pub open spec fn digit_char(d: nat) -> char {
    seq!['0', '1', '2', '3', '4', '5', '6', '7', '8', '9'][d as int]
}

/// The decimal digits of `n`, without leading zeros.
pub open spec fn decimal(n: nat) -> Seq<char>
    decreases n,
{
    if n < 10 {
        seq![digit_char(n)]
    } else {
        decimal(n / 10).push(digit_char(n % 10))
    }
}

/// The listen URL: the endpoint (or the default service) without trailing
/// slashes, then the path with the model, sample rate and encoding.
pub open spec fn listen_url_of(endpoint: Option<Seq<char>>, sample_rate: nat, encoding: Seq<char>) -> Seq<char> {
    let base = match endpoint {
        Some(e) => e,
        None => DEFAULT_ENDPOINT@,
    };
    trim_trailing_slashes(base) + "/v2/listen?model=flux-general-en&sample_rate="@ + decimal(
        sample_rate,
    ) + "&encoding="@ + encoding
}

fn trim_slashes(s: &str) -> (r: &str)
    ensures
        r@ == trim_trailing_slashes(s@),
{
    let mut end = s.unicode_len();
    assert(s@.subrange(0, end as int) =~= s@);
    while end > 0 && s.get_char(end - 1) == '/'
        invariant
            end <= s@.len(),
            trim_trailing_slashes(s@.subrange(0, end as int)) == trim_trailing_slashes(s@),
        decreases end,
    {
        assert(s@.subrange(0, end as int).drop_last() =~= s@.subrange(0, end - 1));
        end = end - 1;
    }
    assert(s@.subrange(0, 0) =~= Seq::<char>::empty());
    s.substring_char(0, end)
}

fn digit_str(d: u64) -> (r: &'static str)
    requires
        d < 10,
    ensures
        r@ == seq![digit_char(d as nat)],
{
    proof {
        reveal_strlit("0");
        reveal_strlit("1");
        reveal_strlit("2");
        reveal_strlit("3");
        reveal_strlit("4");
        reveal_strlit("5");
        reveal_strlit("6");
        reveal_strlit("7");
        reveal_strlit("8");
        reveal_strlit("9");
    }
    let r = if d == 0 {
        "0"
    } else if d == 1 {
        "1"
    } else if d == 2 {
        "2"
    } else if d == 3 {
        "3"
    } else if d == 4 {
        "4"
    } else if d == 5 {
        "5"
    } else if d == 6 {
        "6"
    } else if d == 7 {
        "7"
    } else if d == 8 {
        "8"
    } else {
        "9"
    };
    assert(r@ =~= seq![digit_char(d as nat)]);
    r
}

/// The decimal representation of `n`.
pub fn decimal_string(n: u64) -> (r: String)
    ensures
        r@ == decimal(n as nat),
    decreases n,
{
    if n < 10 {
        String::from_str(digit_str(n))
    } else {
        let mut s = decimal_string(n / 10);
        s.append(digit_str(n % 10));
        s
    }
}

/// The URL a worker opens its session on.
pub fn listen_url(endpoint: Option<&str>, sample_rate: u32, encoding: &str) -> (r: String)
    ensures
        r@ == listen_url_of(
            match endpoint {
                Some(e) => Some(e@),
                None => None,
            },
            sample_rate as nat,
            encoding@,
        ),
{
    let base = match endpoint {
        Some(e) => e,
        None => DEFAULT_ENDPOINT,
    };
    let mut url = String::from_str(trim_slashes(base));
    url.append("/v2/listen?model=flux-general-en&sample_rate=");
    let rate = decimal_string(sample_rate as u64);
    url.append(rate.as_str());
    url.append("&encoding=");
    url.append(encoding);
    url
}

} // verus!
