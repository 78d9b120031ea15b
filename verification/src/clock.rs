//! Today's date as plain values, and the expiry date derived from it.

use vstd::prelude::*;
use chrono::Datelike;
use crate::date_rule::{make_date_expire, matches_expire_pattern, lemma_expire_pattern};

verus! {

/// Relies on chrono's `Local::now` and `Datelike::year` / `Datelike::month`:
/// the month number of a valid calendar date starts from 1 and ranges from
/// 1 to 12. Nothing is promised of the year, which the clock decides.
#[verifier::external_body]
fn local_year_month() -> (r: (i32, u32))
    ensures
        1 <= r.1 <= 12,
{
    let today = chrono::Local::now().date_naive();
    (today.year(), today.month())
}

/// The expiry date computed from today's local date, or `None` when today's
/// target year would leave the four-digit year format. Whatever the clock
/// returned, a returned string matches the pattern `\d{4}-\d{2}-01`.
pub fn date_expire_today() -> (r: Option<String>)
    ensures
        r matches Some(s) ==> matches_expire_pattern(s@),
{
    let (year, month) = local_year_month();
    let in_range: bool = if month == 1 {
        1 <= year && year <= 10000
    } else {
        0 <= year && year <= 9999
    };
    if in_range {
        let s = make_date_expire(year, month);
        proof {
            lemma_expire_pattern(year as int, month as int);
        }
        Some(s)
    } else {
        None
    }
}

} // verus!
