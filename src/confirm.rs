//! Reading the operator's answer to a confirmation request.

use vstd::prelude::*;

verus! {

/// `s` without leading and trailing white space.
pub uninterp spec fn trim_of(s: Seq<char>) -> Seq<char>;

/// `s` in lower case.
pub uninterp spec fn lower_of(s: Seq<char>) -> Seq<char>;

/// Relies on str::trim: the result depends on the characters alone.
#[verifier::external_body]
fn trim(s: &str) -> (r: &str)
    ensures
        r@ == trim_of(s@),
{
    s.trim()
}

/// Relies on str::to_lowercase: the result depends on the characters alone,
/// and an empty text stays empty.
#[verifier::external_body]
fn lowercase(s: &str) -> (r: String)
    ensures
        r@ == lower_of(s@),
        s@.len() == 0 ==> r@.len() == 0,
{
    s.to_lowercase()
}

/// The decision that a normalised answer gives: yes for one starting with
/// `y`, no for one starting with `n`, and nothing (ask again) otherwise.
pub open spec fn answer_spec(a: Seq<char>) -> Option<bool> {
    if a.len() > 0 && a[0] == 'y' {
        Some(true)
    } else if a.len() > 0 && a[0] == 'n' {
        Some(false)
    } else {
        None
    }
}

/// Decides on an answer that is already trimmed and in lower case.
pub fn answer_decision(normalized: &str) -> (r: Option<bool>)
    ensures
        r == answer_spec(normalized@),
{
    if normalized.unicode_len() == 0 {
        return None;
    }
    let c = normalized.get_char(0);
    if c == 'y' {
        Some(true)
    } else if c == 'n' {
        Some(false)
    } else {
        None
    }
}

/// Reads a typed answer to "replace existing records?": it is trimmed and
/// lowered, then decided by `answer_decision`. `None` means ask again.
pub fn interpret_answer(line: &str) -> (r: Option<bool>)
    ensures
        r == answer_spec(lower_of(trim_of(line@))),
{
    let t = trim(line);
    let lower = lowercase(t);
    answer_decision(lower.as_str())
}

} // verus!
