//! Text helpers shared by the other modules: ASCII lower-casing, joining
//! with a separator, and the displayed width of a text.

use unicode_width::UnicodeWidthStr;
use vstd::prelude::*;
use vstd::string::StringExecFns;

verus! {

/// The ASCII lower-case form of one character: `'A'..='Z'` map to
/// `'a'..='z'`, every other character is itself.
pub open spec fn ascii_lower(c: char) -> char {
    if 0x41 <= c as u32 && c as u32 <= 0x5a {
        ((c as u32) + 0x20) as char
    } else {
        c
    }
}

/// A text with every character replaced by its ASCII lower-case form.
pub open spec fn lowercase(text: Seq<char>) -> Seq<char> {
    Seq::new(text.len(), |i: int| ascii_lower(text[i]))
}

/// Whether a text holds no ASCII upper-case letter.
pub open spec fn is_lowercase(text: Seq<char>) -> bool {
    forall|i: int| 0 <= i < text.len() ==> !(0x41 <= text[i] as u32 && text[i] as u32 <= 0x5a)
}

/// The parts in order, with the separator between each two neighbours.
pub open spec fn joined(parts: Seq<Seq<char>>, separator: Seq<char>) -> Seq<char>
    decreases parts.len(),
{
    if parts.len() == 0 {
        Seq::empty()
    } else if parts.len() == 1 {
        parts[0]
    } else {
        joined(parts.drop_last(), separator) + separator + parts.last()
    }
}

/// The number of terminal columns that a text occupies.
pub uninterp spec fn display_width(text: Seq<char>) -> nat;

/// `str::to_ascii_lowercase` of std: a copy of the text in which each of the
/// ASCII letters `A` to `Z` is replaced by its lower-case letter and every
/// other character is kept.
#[verifier::external_body]
pub(crate) fn to_ascii_lowercase(text: &str) -> (lowered: String)
    ensures
        lowered@ == lowercase(text@),
{
    text.to_ascii_lowercase()
}

/// `unicode_width::UnicodeWidthStr::width` on `str`: the displayed width of
/// the text in columns, which depends on its characters alone.
#[verifier::external_body]
pub(crate) fn width_of(text: &str) -> (width: usize)
    ensures
        width == display_width(text@),
{
    UnicodeWidthStr::width(text)
}

/// Joins the parts with the separator between each two neighbours.
pub fn join(parts: &Vec<String>, separator: &str) -> (text: String)
    ensures
        text@ == joined(parts.deep_view(), separator@),
{
    let mut text = String::new();
    let mut i: usize = 0;
    while i < parts.len()
        invariant
            i <= parts.len(),
            text@ == joined(parts.deep_view().take(i as int), separator@),
        decreases parts.len() - i,
    {
        let ghost before = parts.deep_view().take(i as int);
        let ghost after = parts.deep_view().take(i + 1);
        if i > 0 {
            text.append(separator);
        }
        text.append(parts[i].as_str());
        proof {
            assert(after.drop_last() =~= before);
        }
        i += 1;
    }
    proof {
        assert(parts.deep_view().take(parts.len() as int) =~= parts.deep_view());
    }
    text
}

} // verus!
