//! The wall clock, rendered as an RFC 3339 timestamp.

use vstd::prelude::*;
use chrono::Utc;

verus! {

/// The alphabet of the timestamp format: decimal digits and the punctuation
/// of date, time and offset.
pub open spec fn rfc3339_char(c: char) -> bool {
    ||| c == '-'
    ||| c == ':'
    ||| c == 'T'
    ||| c == '.'
    ||| c == '+'
    ||| 48 <= c as u32 <= 57
}

/// Shape of every timestamp the clock can return: at least the nineteen
/// characters of date and time plus the six of the offset, drawn from the
/// format's alphabet, ending in the zero UTC offset.
pub open spec fn rfc3339_shaped(s: Seq<char>) -> bool {
    &&& s.len() >= 25
    &&& (forall|i: int| 0 <= i < s.len() ==> rfc3339_char(#[trigger] s[i]))
    &&& s.subrange(s.len() as int - 6, s.len() as int) == "+00:00"@
}

/// Relies on chrono's Utc::now and DateTime::to_rfc3339: the current wall
/// clock as `YYYY-MM-DDTHH:MM:SS`, optional fractional seconds, and the
/// offset `+00:00`, which is how that crate writes the zero UTC offset when
/// `Z` is not requested. The value depends on the clock, so only the shape
/// is stated.
#[verifier::external_body]
pub fn now_rfc3339() -> (r: String)
    ensures
        rfc3339_shaped(r@),
{
    Utc::now().to_rfc3339()
}

} // verus!
