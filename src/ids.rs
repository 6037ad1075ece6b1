use crate::store::CatalogError;
use vstd::prelude::*;

verus! {

/// `c` is an ASCII decimal digit.
pub open spec fn is_digit(c: char) -> bool {
    '0' <= c && c <= '9'
}

/// A non-empty run of decimal digits.
pub open spec fn all_digits(s: Seq<char>) -> bool {
    s.len() > 0 && forall|i: int| 0 <= i < s.len() ==> is_digit(#[trigger] s[i])
}

/// The value of a run of decimal digits, most significant first.
pub open spec fn digits_value(s: Seq<char>) -> int
    decreases s.len(),
{
    if s.len() == 0 {
        0
    } else {
        digits_value(s.drop_last()) * 10 + (s.last() as int - '0' as int)
    }
}

/// The integer a decimal literal denotes: an optional `+` or `-` sign, then
/// one or more digits, nothing else.
pub open spec fn literal_value(s: Seq<char>) -> Option<int> {
    if s.len() > 0 && s[0] == '-' && all_digits(s.drop_first()) {
        Some(-digits_value(s.drop_first()))
    } else if s.len() > 0 && s[0] == '+' && all_digits(s.drop_first()) {
        Some(digits_value(s.drop_first()))
    } else if all_digits(s) {
        Some(digits_value(s))
    } else {
        None
    }
}

/// The `i64` a text denotes, if it is a decimal literal in range.
pub open spec fn parsed_i64(s: Seq<char>) -> Option<i64> {
    match literal_value(s) {
        Some(v) => if i64::MIN <= v <= i64::MAX {
            Some(v as i64)
        } else {
            None
        },
        None => None,
    }
}

/// Relies on `<i64 as FromStr>::from_str` (through `str::parse`): it accepts an
/// optional sign followed by decimal digits whose value fits, and rejects any
/// other text.
#[verifier::external_body]
fn parse_i64(s: &str) -> (r: Option<i64>)
    ensures
        r == parsed_i64(s@),
{
    s.parse::<i64>().ok()
}

/// Reads a record id from its text form.
pub fn parse_song_id(text: &str) -> (r: Result<i64, CatalogError>)
    ensures
        parsed_i64(text@) matches Some(v) ==> r == Ok::<i64, CatalogError>(v),
        parsed_i64(text@) is None ==> r == Err::<i64, _>(CatalogError::InvalidId),
{
    match parse_i64(text) {
        Some(v) => Ok(v),
        None => Err(CatalogError::InvalidId),
    }
}

} // verus!
