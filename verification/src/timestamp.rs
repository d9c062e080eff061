//! Timestamp formatting: a best-effort cosmetic transform of RFC 3339 UTC
//! timestamps into `YYYY-MM-DD HH:MM:SS`. Input of any other shape is
//! returned unchanged; the transform is total and never fails.

use vstd::prelude::*;
use vstd::string::StrSliceExecFns;
use vstd::string::StringExecFns;

verus! {

/// Whether `c` is a decimal digit.
pub open spec fn is_digit(c: char) -> bool {
    48 <= c as u32 <= 57
}

/// Whether positions `from..to` of `s` are all decimal digits.
pub open spec fn all_digits(s: Seq<char>, from: int, to: int) -> bool {
    forall|k: int| from <= k < to ==> is_digit(s[k])
}

/// The shape `YYYY-MM-DDTHH:MM:SS[.fraction]Z`: a full date, `T`, a full
/// time, an optional non-empty all-digit sub-second fraction, and a final
/// `Z` zone marker.
pub open spec fn is_timestamp_shape(s: Seq<char>) -> bool {
    &&& s.len() >= 20
    &&& all_digits(s, 0, 4)
    &&& s[4] == '-'
    &&& all_digits(s, 5, 7)
    &&& s[7] == '-'
    &&& all_digits(s, 8, 10)
    &&& s[10] == 'T'
    &&& all_digits(s, 11, 13)
    &&& s[13] == ':'
    &&& all_digits(s, 14, 16)
    &&& s[16] == ':'
    &&& all_digits(s, 17, 19)
    &&& s[s.len() - 1] == 'Z'
    &&& (s.len() == 20 || (s.len() >= 22 && s[19] == '.' && all_digits(s, 20, s.len() - 1)))
}

/// What the formatter returns: date and time joined by a space, fraction
/// and zone marker dropped, for input of the expected shape; the input
/// itself otherwise.
pub open spec fn spec_format_timestamp(s: Seq<char>) -> Seq<char> {
    if is_timestamp_shape(s) {
        s.subrange(0, 10) + seq![' '] + s.subrange(11, 19)
    } else {
        s
    }
}

/// Whether character `i` of `s` is a decimal digit.
fn char_at_is_digit(s: &str, i: usize) -> (r: bool)
    requires
        i < s@.len(),
    ensures
        r == is_digit(s@[i as int]),
{
    let c = s.get_char(i);
    let u = c as u32;
    48 <= u && u <= 57
}

/// Decides `is_timestamp_shape` for the characters of `s`.
fn timestamp_has_shape(s: &str) -> (r: bool)
    ensures
        r == is_timestamp_shape(s@),
{
    let n = s.unicode_len();
    if n < 20 {
        return false;
    }
    let date_ok = char_at_is_digit(s, 0) && char_at_is_digit(s, 1) && char_at_is_digit(s, 2)
        && char_at_is_digit(s, 3) && s.get_char(4) == '-' && char_at_is_digit(s, 5)
        && char_at_is_digit(s, 6) && s.get_char(7) == '-' && char_at_is_digit(s, 8)
        && char_at_is_digit(s, 9);
    let time_ok = s.get_char(10) == 'T' && char_at_is_digit(s, 11) && char_at_is_digit(s, 12)
        && s.get_char(13) == ':' && char_at_is_digit(s, 14) && char_at_is_digit(s, 15)
        && s.get_char(16) == ':' && char_at_is_digit(s, 17) && char_at_is_digit(s, 18);
    if !(date_ok && time_ok && s.get_char(n - 1) == 'Z') {
        return false;
    }
    if n == 20 {
        return true;
    }
    if n < 22 || s.get_char(19) != '.' {
        return false;
    }
    let mut i: usize = 20;
    while i < n - 1
        invariant
            20 <= i <= n - 1,
            n == s@.len(),
            n >= 22,
            all_digits(s@, 20, i as int),
        decreases n - 1 - i,
    {
        if !char_at_is_digit(s, i) {
            return false;
        }
        i = i + 1;
    }
    true
}

/// Formats an RFC 3339 UTC timestamp as `YYYY-MM-DD HH:MM:SS`, dropping
/// any sub-second fraction and the zone marker. Input that does not have
/// that shape comes back unchanged.
pub fn format_timestamp(timestamp: &str) -> (r: String)
    ensures
        r@ == spec_format_timestamp(timestamp@),
{
    if timestamp_has_shape(timestamp) {
        let mut r = String::from_str(timestamp.substring_char(0, 10));
        r.append(" ");
        r.append(timestamp.substring_char(11, 19));
        proof {
            reveal_strlit(" ");
            assert(" "@ =~= seq![' ']);
            assert(r@ =~= spec_format_timestamp(timestamp@));
        }
        r
    } else {
        String::from_str(timestamp)
    }
}

} // verus!
