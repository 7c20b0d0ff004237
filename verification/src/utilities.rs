use vstd::prelude::*;
use chrono::Datelike;

verus! {

/// Relies on chrono's `Utc::now` and `Datelike::num_days_from_ce`: the current
/// UTC date as a day number (days counted from the start of the common era),
/// the time of day discarded. The result depends on the machine clock, so
/// nothing is promised of it.
#[verifier::external_body]
pub fn get_current_date() -> i64 {
    chrono::Utc::now().date_naive().num_days_from_ce() as i64
}

/// What `str::trim` returns for a given character sequence.
pub uninterp spec fn trim_of(s: Seq<char>) -> Seq<char>;

/// Relies on `str::trim`: removes leading and trailing whitespace; the result
/// depends on the characters alone.
#[verifier::external_body]
pub(crate) fn trimmed(s: &String) -> (r: String)
    ensures
        r@ == trim_of(s@),
{
    String::from_str(s.trim())
}

} // verus!
