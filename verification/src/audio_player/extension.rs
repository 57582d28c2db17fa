//! Which file extensions name a format that the player decodes.

use vstd::prelude::*;
use vstd::string::StringSliceAdditionalSpecFns;
use vstd::utf8::encode_utf8_decode_utf8;

verus! {

/// A borrowed text or none, by its characters.
pub open spec fn str_view(text: Option<&str>) -> Option<Seq<char>> {
    match text {
        Some(text) => Some(text@),
        None => None,
    }
}

/// Whether `extension` is one of the WAV family: `wav` or `wave`, in lower
/// case. No extension is none of them.
pub open spec fn is_wav_extension(extension: Option<Seq<char>>) -> bool {
    extension == Some("wav"@) || extension == Some("wave"@)
}

/// Whether two byte slices hold the same bytes.
fn same_bytes(left: &[u8], right: &[u8]) -> (same: bool)
    ensures
        same == (left@ == right@),
{
    if left.len() != right.len() {
        return false;
    }
    let mut at: usize = 0;
    while at < left.len()
        invariant
            left@.len() == right@.len(),
            at <= left@.len(),
            forall|i: int| 0 <= i < at ==> left@[i] == right@[i],
        decreases left@.len() - at,
    {
        if left[at] != right[at] {
            return false;
        }
        at = at + 1;
    }
    assert(left@ =~= right@);
    true
}

/// Whether two strings hold the same characters.
fn same_text(left: &str, right: &str) -> (same: bool)
    ensures
        same == (left@ == right@),
{
    let same: bool = same_bytes(left.as_bytes(), right.as_bytes());
    proof {
        encode_utf8_decode_utf8(left@);
        encode_utf8_decode_utf8(right@);
    }
    same
}

/// Whether a file with this extension is a WAV file.
pub fn has_wav_extension(extension: Option<&str>) -> (supported: bool)
    ensures
        supported == is_wav_extension(str_view(extension)),
{
    match extension {
        Some(text) => same_text(text, "wav") || same_text(text, "wave"),
        None => false,
    }
}

} // verus!
