//! The text of an element: CDATA wrappers are taken off, everything else is unescaped.

use crate::xml::{unescape, unescaped};
use vstd::prelude::*;
use vstd::string::StrSliceExecFns;

verus! {

/// The marker that opens a CDATA section.
pub open spec fn cdata_open() -> Seq<char> {
    "<![CDATA["@
}

/// The marker that closes a CDATA section.
pub open spec fn cdata_close() -> Seq<char> {
    "]]>"@
}

/// Whether a text is one CDATA section: it begins with the opening marker and
/// ends with the closing marker, and the two do not overlap.
pub open spec fn is_cdata(text: Seq<char>) -> bool {
    &&& text.len() >= cdata_open().len() + cdata_close().len()
    &&& text.subrange(0, cdata_open().len() as int) == cdata_open()
    &&& text.subrange(text.len() - cdata_close().len(), text.len() as int) == cdata_close()
}

/// A text without its CDATA wrapper, if it has one.
pub open spec fn unwrap_cdata(text: Seq<char>) -> Seq<char> {
    if is_cdata(text) {
        text.subrange(cdata_open().len() as int, text.len() - cdata_close().len())
    } else {
        text
    }
}

/// The text of an element as a post carries it: the inside of a CDATA section as
/// it stands, any other text unescaped; `None` where unescaping fails.
pub open spec fn element_text(raw: Seq<char>) -> Option<Seq<char>> {
    if is_cdata(raw) {
        Some(unwrap_cdata(raw))
    } else {
        unescaped(raw)
    }
}

/// Whether `pattern` stands in `text` at the character offset `at`.
fn matches_at(text: &str, at: usize, pattern: &str) -> (found: bool)
    requires
        at + pattern@.len() <= text@.len() <= usize::MAX,
    ensures
        found == (text@.subrange(at as int, at + pattern@.len()) == pattern@),
{
    let n = pattern.unicode_len();
    let mut i: usize = 0;
    while i < n
        invariant
            n == pattern@.len(),
            at + n <= text@.len() <= usize::MAX,
            i <= n,
            forall|j: int| 0 <= j < i ==> text@[at + j] == pattern@[j],
        decreases n - i,
    {
        if text.get_char(at + i) != pattern.get_char(i) {
            assert(text@.subrange(at as int, at + n)[i as int] != pattern@[i as int]);
            return false;
        }
        i += 1;
    }
    assert(text@.subrange(at as int, at + n) =~= pattern@);
    true
}

/// Whether a text is one CDATA section.
pub fn has_cdata_wrapper(text: &str) -> (wrapped: bool)
    ensures
        wrapped == is_cdata(text@),
{
    let n = text.unicode_len();
    let open = "<![CDATA[";
    let close = "]]>";
    let open_len = open.unicode_len();
    let close_len = close.unicode_len();
    proof {
        reveal_strlit("<![CDATA[");
        reveal_strlit("]]>");
    }
    if n < open_len + close_len {
        return false;
    }
    matches_at(text, 0, open) && matches_at(text, n - close_len, close)
}

/// Takes the CDATA wrapper off a text that has one, and copies any other text.
pub fn extract_text(text: &str) -> (r: String)
    ensures
        r@ == unwrap_cdata(text@),
{
    if has_cdata_wrapper(text) {
        proof {
            reveal_strlit("<![CDATA[");
            reveal_strlit("]]>");
        }
        let n = text.unicode_len();
        text.substring_char(9, n - 3).to_owned()
    } else {
        text.to_owned()
    }
}

/// The text of an element as a post carries it, or `None` where the text holds
/// an entity that cannot be resolved.
pub fn read_element_text(raw: &str) -> (r: Option<String>)
    ensures
        r is Some <==> element_text(raw@) is Some,
        r matches Some(text) ==> element_text(raw@) == Some(text@),
{
    if has_cdata_wrapper(raw) {
        Some(extract_text(raw))
    } else {
        match unescape(raw) {
            Ok(text) => Some(text),
            Err(_) => None,
        }
    }
}

} // verus!
