//! EPSG codes: reading them from CRS names and naming them for the projection library.

use vstd::prelude::*;
use crate::properties::opt_view;
use crate::region::{digit_value, is_digit};

verus! {

/// The digits that follow `urn:ogc:def:crs:EPSG::` at its first occurrence
/// in a CRS name, or nothing where the name does not hold that prefix.
pub uninterp spec fn epsg_capture(name: Seq<char>) -> Option<Seq<char>>;

/// Relies on regex::Regex::captures: the text of capture group 1 of the
/// pattern `urn:ogc:def:crs:EPSG::(\d*)` at its leftmost match, which
/// depends on the searched text alone.
#[verifier::external_body]
fn capture_epsg_digits(name: &str) -> (r: Option<String>)
    ensures
        opt_view(r) == epsg_capture(name@),
{
    let re = regex::Regex::new(r"urn:ogc:def:crs:EPSG::(\d*)").unwrap();
    let caps = match re.captures(name) {
        Some(c) => c,
        None => return None,
    };
    match caps.get(1) {
        Some(m) => Some(m.as_str().to_string()),
        None => None,
    }
}

/// All characters are ASCII decimal digits.
pub open spec fn all_digits(s: Seq<char>) -> bool {
    forall|i: int| 0 <= i < s.len() ==> is_digit(#[trigger] s[i])
}

/// The number that a sequence of decimal digits writes.
pub open spec fn decimal_value(s: Seq<char>) -> nat
    decreases s.len(),
{
    if s.len() == 0 {
        0
    } else {
        (10 * decimal_value(s.drop_last()) + digit_value(s.last())) as nat
    }
}

/// Reading an EPSG code: one or more decimal digits, whose value fits `i32`.
pub open spec fn epsg_code_spec(s: Seq<char>) -> Option<i32> {
    if s.len() > 0 && all_digits(s) && decimal_value(s) <= i32::MAX {
        Some(decimal_value(s) as i32)
    } else {
        None
    }
}

proof fn lemma_decimal_grows(s: Seq<char>, i: int, j: int)
    requires
        0 <= i <= j <= s.len(),
        all_digits(s),
    ensures
        decimal_value(s.take(i)) <= decimal_value(s.take(j)),
    decreases j - i,
{
    if i < j {
        lemma_decimal_grows(s, i, j - 1);
        assert(s.take(j).drop_last() =~= s.take(j - 1));
    }
}

/// Reads the digits of an EPSG code.
pub fn parse_epsg_code(digits: &str) -> (r: Option<i32>)
    ensures
        r == epsg_code_spec(digits@),
{
    let n = digits.unicode_len();
    if n == 0 {
        return None;
    }
    let mut value: u64 = 0;
    let mut i: usize = 0;
    while i < n
        invariant
            n == digits@.len(),
            0 <= i <= n,
            value <= i32::MAX,
            all_digits(digits@.take(i as int)),
            value == decimal_value(digits@.take(i as int)),
        decreases n - i,
    {
        let c = digits.get_char(i);
        if !('0' <= c && c <= '9') {
            return None;
        }
        let next: u64 = value * 10 + ((c as u64) - ('0' as u64));
        proof {
            assert(digits@.take(i + 1).drop_last() =~= digits@.take(i as int));
            assert(digits@.take(i + 1).last() == c);
            assert forall|k: int| 0 <= k < i + 1 implies is_digit(
                #[trigger] digits@.take(i + 1)[k],
            ) by {
                if k < i {
                    assert(digits@.take(i + 1)[k] == digits@.take(i as int)[k]);
                }
            }
        }
        if next > 2147483647 {
            proof {
                if all_digits(digits@) {
                    lemma_decimal_grows(digits@, i + 1, n as int);
                    assert(digits@.take(n as int) =~= digits@);
                }
            }
            return None;
        }
        value = next;
        i = i + 1;
    }
    assert(digits@.take(n as int) =~= digits@);
    Some(value as i32)
}

/// The EPSG code named by a CRS name such as `urn:ogc:def:crs:EPSG::6668`,
/// or nothing where the name names none.
pub fn epsg_from_crs_name(name: &str) -> (r: Option<i32>)
    ensures
        r == match epsg_capture(name@) {
            Some(digits) => epsg_code_spec(digits),
            None => None,
        },
{
    match capture_epsg_digits(name) {
        Some(digits) => parse_epsg_code(digits.as_str()),
        None => None,
    }
}

/// The decimal digit character for `d`, below 10.
pub open spec fn digit_char(d: nat) -> char {
    (d + '0' as nat) as char
}

/// `n` written in decimal, without leading zeros.
pub open spec fn decimal_text(n: nat) -> Seq<char>
    decreases n,
{
    if n < 10 {
        seq![digit_char(n)]
    } else {
        decimal_text(n / 10) + seq![digit_char(n % 10)]
    }
}

/// `n` written in decimal, with a minus sign where it is negative.
pub open spec fn signed_text(n: int) -> Seq<char> {
    if n < 0 {
        seq!['-'] + decimal_text((-n) as nat)
    } else {
        decimal_text(n as nat)
    }
}

fn digit_str(d: u64) -> (r: &'static str)
    requires
        d < 10,
    ensures
        r@ == seq![digit_char(d as nat)],
{
    proof {
        reveal_strlit("0");
        reveal_strlit("1");
        reveal_strlit("2");
        reveal_strlit("3");
        reveal_strlit("4");
        reveal_strlit("5");
        reveal_strlit("6");
        reveal_strlit("7");
        reveal_strlit("8");
        reveal_strlit("9");
    }
    let r = if d == 0 {
        "0"
    } else if d == 1 {
        "1"
    } else if d == 2 {
        "2"
    } else if d == 3 {
        "3"
    } else if d == 4 {
        "4"
    } else if d == 5 {
        "5"
    } else if d == 6 {
        "6"
    } else if d == 7 {
        "7"
    } else if d == 8 {
        "8"
    } else {
        "9"
    };
    assert(r@ =~= seq![digit_char(d as nat)]);
    r
}

fn append_decimal(out: &mut String, n: u64)
    ensures
        final(out)@ == old(out)@ + decimal_text(n as nat),
    decreases n,
{
    if n >= 10 {
        append_decimal(out, n / 10);
    }
    out.append(digit_str(n % 10));
    assert(decimal_text(n as nat) == if n < 10 {
        seq![digit_char(n as nat)]
    } else {
        decimal_text((n / 10) as nat) + seq![digit_char((n % 10) as nat)]
    });
}

/// The name under which the projection library knows the coordinate
/// system with EPSG code `epsg`: `EPSG:` followed by the code.
pub fn crs_name(epsg: i32) -> (r: String)
    ensures
        r@ == "EPSG:"@ + signed_text(epsg as int),
{
    let mut r = String::from_str("EPSG:");
    if epsg < 0 {
        r.append("-");
        proof {
            reveal_strlit("-");
        }
        let magnitude: u64 = (0i64 - (epsg as i64)) as u64;
        append_decimal(&mut r, magnitude);
    } else {
        append_decimal(&mut r, epsg as u64);
    }
    r
}

} // verus!
