//! The health report of the gateway.

use crate::outcome::STATUS_OK;
use vstd::prelude::*;

verus! {

/// Whether `c` is one of the ten decimal digits.
pub open spec fn is_digit(c: char) -> bool {
    0x30 <= c as u32 <= 0x39
}

/// Whether `s` writes a year: four digits, or a sign and four digits or more.
pub open spec fn is_year(s: Seq<char>) -> bool {
    if s.len() == 4 {
        forall|i: int| 0 <= i < 4 ==> is_digit(#[trigger] s[i])
    } else {
        &&& s.len() >= 5
        &&& s[0] == '+' || s[0] == '-'
        &&& forall|i: int| 1 <= i < s.len() ==> is_digit(#[trigger] s[i])
    }
}

/// Whether `s` has the form `YYYY-MM-DDTHH:MM:SSZ`: a date and a time of day
/// to the second, in UTC.
pub open spec fn is_utc_timestamp(s: Seq<char>) -> bool {
    let n = s.len() as int;
    &&& n >= 20
    &&& is_year(s.subrange(0, n - 16))
    &&& s[n - 16] == '-'
    &&& is_digit(s[n - 15])
    &&& is_digit(s[n - 14])
    &&& s[n - 13] == '-'
    &&& is_digit(s[n - 12])
    &&& is_digit(s[n - 11])
    &&& s[n - 10] == 'T'
    &&& is_digit(s[n - 9])
    &&& is_digit(s[n - 8])
    &&& s[n - 7] == ':'
    &&& is_digit(s[n - 6])
    &&& is_digit(s[n - 5])
    &&& s[n - 4] == ':'
    &&& is_digit(s[n - 3])
    &&& is_digit(s[n - 2])
    &&& s[n - 1] == 'Z'
}

/// The present instant in UTC as text: the reading of
/// `std::time::SystemTime::now`, taken over by chrono's conversion of a
/// `SystemTime` into a `DateTime<Utc>`, and written by
/// `chrono::DateTime::to_rfc3339_opts` with whole seconds and `Z` for the
/// zero offset. Which instant it is depends on the system clock alone, so
/// only the form is claimed: it writes the year (four digits from 0 to 9999,
/// else a sign and at least four digits), then month, day, hour, minute and
/// second with two digits each, and `Z`. The conversion takes a clock on
/// either side of 1970, as far as the years that chrono can hold.
#[verifier::external_body]
fn utc_now_to_the_second() -> (text: String)
    ensures
        is_utc_timestamp(text@),
{
    chrono::DateTime::<chrono::Utc>::from(std::time::SystemTime::now()).to_rfc3339_opts(
        chrono::SecondsFormat::Secs,
        true,
    )
}

/// What the health endpoint answers.
#[derive(Debug, PartialEq, Eq)]
pub struct Status {
    pub status: String,
    pub timestamp: String,
    pub message: String,
}

/// What a `Status` holds, as text.
pub struct StatusView {
    pub status: Seq<char>,
    pub timestamp: Seq<char>,
    pub message: Seq<char>,
}

impl View for Status {
    type V = StatusView;

    open spec fn view(&self) -> StatusView {
        StatusView { status: self.status@, timestamp: self.timestamp@, message: self.message@ }
    }
}

/// The report of a running gateway that was asked at `timestamp`.
pub open spec fn running_at(timestamp: Seq<char>) -> StatusView {
    StatusView { status: "OK"@, timestamp, message: "API is running"@ }
}

impl Status {
    /// The report of a running gateway, stamped with `timestamp`.
    pub fn at(timestamp: String) -> (r: Status)
        ensures
            r@ == running_at(timestamp@),
    {
        Status {
            status: String::from_str("OK"),
            timestamp,
            message: String::from_str("API is running"),
        }
    }
}

/// The health report: always that of a running gateway, stamped with the
/// present instant in UTC to the second.
pub fn status() -> (r: Status)
    ensures
        r@ == running_at(r@.timestamp),
        is_utc_timestamp(r@.timestamp),
{
    Status::at(utc_now_to_the_second())
}

/// The answer to a health check: the status 200, on every call, and the
/// health report as its body.
pub fn health_response() -> (r: (u16, Status))
    ensures
        r.0 == 200,
        r.1@ == running_at(r.1@.timestamp),
        is_utc_timestamp(r.1@.timestamp),
{
    (STATUS_OK, status())
}

/// A timestamp is twenty characters long exactly where its year is written
/// without a sign, in four digits.
pub proof fn lemma_unsigned_year_gives_twenty_characters(s: Seq<char>)
    requires
        is_utc_timestamp(s),
    ensures
        s.len() == 20 <==> is_digit(s[0]),
        s.len() == 20 <==> s.subrange(0, s.len() - 16).len() == 4,
        s.len() > 20 <==> s[0] == '+' || s[0] == '-',
{
    let year = s.subrange(0, s.len() - 16);
    assert(year[0] == s[0]);
}

} // verus!
