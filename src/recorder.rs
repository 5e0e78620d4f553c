//! The recorder's choice of output format from the requested file name.
use vstd::prelude::*;

verus! {

#[derive(Clone, Copy, Debug, PartialEq, Eq, Structural)]
pub enum AudioFormat {
    Wav,
    Mp3,
}

/// The extension of the path `p`: what follows the last `.` of its file name,
/// unless the name has no `.` other than a leading one.
pub uninterp spec fn extension_of(p: Seq<char>) -> Option<Seq<char>>;

/// Relies on `std::path::Path::extension` (read back as UTF-8 text); the
/// result depends on the path's characters alone.
#[verifier::external_body]
fn path_extension(p: &str) -> (r: Option<String>)
    ensures
        match extension_of(p@) {
            Some(e) => r matches Some(s) && s@ == e,
            None => r is None,
        },
{
    std::path::Path::new(p).extension().and_then(|e| e.to_str()).map(|e| e.to_string())
}

/// The character code with ASCII capitals mapped to lowercase.
pub open spec fn ascii_lower_code(c: char) -> u32 {
    if 'A' <= c && c <= 'Z' {
        (c as u32 + 32) as u32
    } else {
        c as u32
    }
}

/// Equal up to the case of ASCII letters.
pub open spec fn eq_ignore_ascii_case(a: Seq<char>, b: Seq<char>) -> bool {
    a.len() == b.len() && forall|i: int| 0 <= i < a.len() ==> ascii_lower_code(#[trigger] a[i])
        == ascii_lower_code(b[i])
}

fn lower_code(c: char) -> (r: u32)
    ensures
        r == ascii_lower_code(c),
{
    if 'A' <= c && c <= 'Z' {
        c as u32 + 32
    } else {
        c as u32
    }
}

/// Compares two strings ignoring the case of ASCII letters.
pub fn eq_ignore_case(a: &str, b: &str) -> (r: bool)
    ensures
        r == eq_ignore_ascii_case(a@, b@),
{
    let n = a.unicode_len();
    if n != b.unicode_len() {
        return false;
    }
    let mut i: usize = 0;
    while i < n
        invariant
            n == a@.len(),
            n == b@.len(),
            i <= n,
            forall|j: int| 0 <= j < i ==> ascii_lower_code(#[trigger] a@[j]) == ascii_lower_code(b@[j]),
        decreases n - i,
    {
        if lower_code(a.get_char(i)) != lower_code(b.get_char(i)) {
            return false;
        }
        i = i + 1;
    }
    true
}

impl AudioFormat {
    /// MP3 when the path's extension is `mp3` in any letter case, WAV otherwise.
    pub fn from_path(path: &str) -> (r: AudioFormat)
        ensures
            r == match extension_of(path@) {
                Some(e) => if eq_ignore_ascii_case(e, "mp3"@) {
                    AudioFormat::Mp3
                } else {
                    AudioFormat::Wav
                },
                None => AudioFormat::Wav,
            },
    {
        match path_extension(path) {
            Some(ext) => if eq_ignore_case(ext.as_str(), "mp3") {
                AudioFormat::Mp3
            } else {
                AudioFormat::Wav
            },
            None => AudioFormat::Wav,
        }
    }
}

} // verus!
