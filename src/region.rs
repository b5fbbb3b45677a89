//! Region (prefecture) codes, the partition keys of the stored datasets.

use vstd::prelude::*;

verus! {

/// The value of an ASCII decimal digit.
pub open spec fn digit_value(c: char) -> int {
    c as int - '0' as int
}

pub open spec fn is_digit(c: char) -> bool {
    '0' <= c && c <= '9'
}

/// A region code is two decimal digits naming a number from 1 to 47.
pub open spec fn is_region_code(s: Seq<char>) -> bool {
    &&& s.len() == 2
    &&& is_digit(s[0])
    &&& is_digit(s[1])
    &&& 1 <= 10 * digit_value(s[0]) + digit_value(s[1]) <= 47
}

/// Decides whether `code` is a region (prefecture) code, "01" to "47".
pub fn is_prefecture_code(code: &str) -> (r: bool)
    ensures
        r == is_region_code(code@),
{
    if code.unicode_len() != 2 {
        return false;
    }
    let c0 = code.get_char(0);
    let c1 = code.get_char(1);
    if !('0' <= c0 && c0 <= '9' && '0' <= c1 && c1 <= '9') {
        return false;
    }
    let v: u32 = 10 * ((c0 as u32) - ('0' as u32)) + ((c1 as u32) - ('0' as u32));
    1 <= v && v <= 47
}

/// The pattern that matches every sub-region code of the region with
/// code `code`: the code followed by the any-suffix wildcard `%`.
pub fn key_pattern(code: &str) -> (r: String)
    ensures
        r@ == code@ + "%"@,
{
    let mut r = String::from_str(code);
    r.append("%");
    r
}

} // verus!
