//! Text that goes over the wire, and bytes that come in as text.

use vstd::prelude::*;
use vstd::utf8::{decode_utf8, valid_utf8};

verus! {

/// The text that `String::from_utf8_lossy` reads out of `bytes`.
pub uninterp spec fn utf8_lossy(bytes: Seq<u8>) -> Seq<char>;

/// `text` without the white space at its two ends, as `str::trim` leaves
/// it.
pub uninterp spec fn trimmed(text: Seq<char>) -> Seq<char>;

/// Reads `bytes` as text through `String::from_utf8_lossy`: bytes that are
/// valid UTF-8 give the text that they encode; any others give that text
/// with a replacement character for each flaw.
#[verifier::external_body]
pub(crate) fn lossy_text(bytes: &[u8]) -> (text: String)
    ensures
        text@ == utf8_lossy(bytes@),
        valid_utf8(bytes@) ==> text@ == decode_utf8(bytes@),
{
    String::from_utf8_lossy(bytes).into_owned()
}

/// The text that a run of bytes is read as: what the bytes encode where
/// they are valid UTF-8, and else that text with a replacement character
/// for each flaw.
pub open spec fn text_of(bytes: Seq<u8>) -> Seq<char> {
    if valid_utf8(bytes) {
        decode_utf8(bytes)
    } else {
        utf8_lossy(bytes)
    }
}

/// Reads `bytes` as text.
pub fn read_text(bytes: &[u8]) -> (text: String)
    ensures
        text@ == text_of(bytes@),
{
    lossy_text(bytes)
}

/// Text that was written out as UTF-8 is read back as it was.
pub proof fn written_text_is_read_back(text: Seq<char>)
    ensures
        valid_utf8(vstd::utf8::encode_utf8(text)),
        text_of(vstd::utf8::encode_utf8(text)) == text,
{
    vstd::utf8::encode_utf8_valid_utf8(text);
    vstd::utf8::encode_utf8_decode_utf8(text);
}

/// Strips the white space off both ends of `text` through `str::trim`.
#[verifier::external_body]
pub(crate) fn trim_text(text: &str) -> (stripped: String)
    ensures
        stripped@ == trimmed(text@),
{
    text.trim().to_string()
}

/// `head` followed by `tail`.
pub fn joined(head: &str, tail: &str) -> (text: String)
    ensures
        text@ == head@ + tail@,
{
    String::from_str(head).concat(tail)
}

/// Whether `text` begins with `prefix`.
pub fn begins_with(text: &str, prefix: &str) -> (begins: bool)
    ensures
        begins == prefix@.is_prefix_of(text@),
{
    let prefix_len = prefix.unicode_len();
    if text.unicode_len() < prefix_len {
        return false;
    }
    let mut index: usize = 0;
    while index < prefix_len
        invariant
            index <= prefix_len,
            prefix_len == prefix@.len(),
            prefix_len <= text@.len(),
            forall|j: int| 0 <= j < index ==> text@[j] == prefix@[j],
        decreases prefix_len - index,
    {
        if text.get_char(index) != prefix.get_char(index) {
            return false;
        }
        index += 1;
    }
    assert(prefix@ =~= text@.subrange(0, prefix@.len() as int));
    true
}

} // verus!
