//! Where the text-to-speech terminal client caches synthesised audio, and the
//! request URL it fetches it from.
use vstd::prelude::*;
use vstd::utf8::encode_utf8;
use crate::config::join_path;
use crate::text::push_char;

verus! {

/// The speech synthesis endpoint.
pub const SPEAK_URL: &'static str = "https://api.deepgram.com/v1/speak";

/// The SHA-256 digest of `data`.
pub uninterp spec fn sha256_of(data: Seq<u8>) -> Seq<u8>;

/// Relies on `sha2::Sha256` through `Digest::new`, `Digest::update` and
/// `Digest::finalize`: updating with two byte strings in turn hashes their
/// concatenation, and the digest is 32 bytes long.
#[verifier::external_body]
fn sha256_of_pair(a: &str, b: &str) -> (r: Vec<u8>)
    ensures
        r@ == sha256_of(encode_utf8(a@) + encode_utf8(b@)),
        r@.len() == 32,
{
    let mut hasher = <sha2::Sha256 as sha2::Digest>::new();
    sha2::Digest::update(&mut hasher, a);
    sha2::Digest::update(&mut hasher, b);
    sha2::Digest::finalize(hasher).to_vec()
}

pub open spec fn hex_digit(n: nat) -> char {
    seq!['0', '1', '2', '3', '4', '5', '6', '7', '8', '9', 'a', 'b', 'c', 'd', 'e', 'f'][n as int]
}

/// Two lowercase hexadecimal digits per byte, high digit first.
pub open spec fn hex_of(b: Seq<u8>) -> Seq<char>
    decreases b.len(),
{
    if b.len() == 0 {
        Seq::empty()
    } else {
        hex_of(b.drop_last()) + seq![hex_digit(b.last() as nat / 16), hex_digit(b.last() as nat % 16)]
    }
}

fn hex_char(n: u8) -> (r: char)
    requires
        n < 16,
    ensures
        r == hex_digit(n as nat),
{
    let digits: [char; 16] = ['0', '1', '2', '3', '4', '5', '6', '7', '8', '9', 'a', 'b', 'c', 'd', 'e', 'f'];
    assert(digits@ =~= seq!['0', '1', '2', '3', '4', '5', '6', '7', '8', '9', 'a', 'b', 'c', 'd', 'e', 'f']);
    digits[n as usize]
}

/// Formats bytes as lowercase hexadecimal.
pub fn hex_string(b: &Vec<u8>) -> (r: String)
    ensures
        r@ == hex_of(b@),
{
    let mut out = String::new();
    let mut i: usize = 0;
    assert(b@.subrange(0, 0) =~= Seq::<u8>::empty());
    while i < b.len()
        invariant
            i <= b@.len(),
            out@ == hex_of(b@.subrange(0, i as int)),
        decreases b@.len() - i,
    {
        let ghost pre = b@.subrange(0, i + 1);
        assert(pre.drop_last() =~= b@.subrange(0, i as int));
        assert(pre.last() == b@[i as int]);
        push_char(&mut out, hex_char(b[i] / 16));
        push_char(&mut out, hex_char(b[i] % 16));
        assert(out@ =~= hex_of(pre));
        i = i + 1;
    }
    assert(b@.subrange(0, b@.len() as int) =~= b@);
    out
}

/// The cache file of a text spoken in a voice: the SHA-256 of the text's
/// bytes followed by the voice id's, in hexadecimal, with `.mp3`, inside
/// `cache_dir`.
pub open spec fn cache_file_of(cache_dir: Seq<char>, text: Seq<char>, voice_id: Seq<char>) -> Seq<char> {
    join_path(cache_dir, hex_of(sha256_of(encode_utf8(text) + encode_utf8(voice_id))) + ".mp3"@)
}

/// The path of the cached audio for `text` spoken by `voice_id`.
pub fn get_cache_file_path(cache_dir: &str, text: &str, voice_id: &str) -> (r: String)
    ensures
        r@ == cache_file_of(cache_dir@, text@, voice_id@),
{
    let digest = sha256_of_pair(text, voice_id);
    let name = hex_string(&digest).concat(".mp3");
    let n = cache_dir.unicode_len();
    if n == 0 || cache_dir.get_char(n - 1) == '/' {
        String::from_str(cache_dir).concat(name.as_str())
    } else {
        proof {
            reveal_strlit("/");
        }
        String::from_str(cache_dir).concat("/").concat(name.as_str())
    }
}

/// The request URL that synthesises speech in `voice_id` as MP3.
pub fn speak_url(voice_id: &str) -> (r: String)
    ensures
        r@ == SPEAK_URL@ + "?model="@ + voice_id@ + "&encoding=mp3"@,
{
    String::from_str(SPEAK_URL).concat("?model=").concat(voice_id).concat("&encoding=mp3")
}

} // verus!
