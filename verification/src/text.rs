//! Blank-text detection for required-field validation: a textual field
//! counts as missing when it is absent or contains nothing but
//! whitespace.

use vstd::prelude::*;

verus! {

/// Whether a character has the Unicode white-space property.
pub uninterp spec fn whitespace_char(c: char) -> bool;

/// Relies on char::is_whitespace: whether a character has the Unicode
/// white-space property, a fixed function of the character alone.
pub assume_specification[ char::is_whitespace ](c: char) -> (r: bool)
    ensures
        r == whitespace_char(c),
;

/// A text is blank when every one of its characters is whitespace; the
/// empty text is blank.
pub open spec fn blank(s: Seq<char>) -> bool {
    forall|i: int| 0 <= i < s.len() ==> whitespace_char(s[i])
}

/// Whether the text trims down to nothing.
pub fn is_blank(s: &String) -> (r: bool)
    ensures
        r == blank(s@),
{
    let text = s.as_str();
    let n = text.unicode_len();
    let mut i: usize = 0;
    while i < n
        invariant
            i <= n,
            n == text@.len(),
            text@ == s@,
            forall|j: int| 0 <= j < i ==> whitespace_char(s@[j]),
        decreases n - i,
    {
        if !text.get_char(i).is_whitespace() {
            return false;
        }
        i = i + 1;
    }
    true
}

/// A required textual field is missing when it is absent or blank.
pub open spec fn missing_text(o: Option<Seq<char>>) -> bool {
    match o {
        None => true,
        Some(s) => blank(s),
    }
}

/// Whether a required textual field is absent or blank.
pub fn is_missing_text(o: &Option<String>) -> (r: bool)
    ensures
        r == missing_text(o.deep_view()),
{
    match o {
        None => true,
        Some(s) => is_blank(s),
    }
}

} // verus!
