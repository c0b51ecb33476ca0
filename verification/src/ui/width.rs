//! Display width of text in terminal columns, as the `unicode-width` crate
//! measures it.

use vstd::prelude::*;

verus! {

/// The number of terminal columns that `unicode_width::UnicodeWidthStr::width`
/// gives for a string with these characters.
pub uninterp spec fn display_width(s: Seq<char>) -> usize;

/// Whether every character of `s` is printable ASCII (`' '` to `'~'`).
pub open spec fn is_printable_ascii(s: Seq<char>) -> bool {
    forall|i: int| 0 <= i < s.len() ==> 0x20 <= #[trigger] (s[i] as u32) <= 0x7E
}

/// The display width of `s`; a wrapper of `UnicodeWidthStr::width`.
///
/// Trusted: the result is the crate's width of `s`, named `display_width`. The
/// crate measures a string from its last character to its first, and every
/// printable ASCII character counts one column there whatever follows it, so
/// a string of printable ASCII characters is as wide as it is long. Beyond
/// that, the crate's tables (East Asian widths, emoji and script ligatures)
/// are not stated.
#[verifier::external_body]
pub fn str_width(s: &str) -> (w: usize)
    ensures
        w == display_width(s@),
        is_printable_ascii(s@) ==> w == s@.len(),
{
    unicode_width::UnicodeWidthStr::width(s)
}

} // verus!
