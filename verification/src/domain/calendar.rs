use vstd::prelude::*;

verus! {

/// Today's date by the clock of this machine, read in UTC, as the text that
/// `chrono` prints for a date. Calls `chrono::Utc::now`, then `naive_utc`,
/// `date` and the date's `Display`. Nothing is claimed of the text, which
/// differs from one call to the next; `chrono` prints a date of the years 0
/// to 9999 as year, month and day with `-` between them. `Utc::now` does not
/// return where the clock is set before 1970.
#[verifier::external_body]
pub(crate) fn today_utc() -> String {
    chrono::Utc::now().naive_utc().date().to_string()
}

} // verus!
