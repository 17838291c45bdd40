//! The date-derived token that names the day's check-in thread, and the
//! texts built from it.

use vstd::prelude::*;
use vstd::string::StringExecFns;
use crate::decimal::{decimal, push_decimal, push_signed_decimal, signed_decimal};

verus! {

/// A calendar date as year, month and day numbers.
#[derive(Clone, Copy, Debug, PartialEq, Eq, Structural)]
pub struct CalendarDate {
    pub year: i32,
    pub month: u32,
    pub day: u32,
}

impl CalendarDate {
    /// Whether month and day lie in the ranges a calendar uses.
    pub open spec fn in_calendar_range(self) -> bool {
        1 <= self.month <= 12 && 1 <= self.day <= 31
    }
}

/// The token for `date`: year, month and day separated by slashes inside
/// lenticular brackets, none of them padded.
pub open spec fn token_text(date: CalendarDate) -> Seq<char> {
    "【"@ + signed_decimal(date.year as int) + "/"@ + decimal(date.month as nat) + "/"@ + decimal(
        date.day as nat,
    ) + "】"@
}

/// The attribute lookup that matches any link whose title holds `token`.
pub open spec fn selector_text(token: Seq<char>) -> Seq<char> {
    "a[title*='"@ + token + "']"@
}

/// The reply that is posted: the greeting followed by `token`.
pub open spec fn reply_content(token: Seq<char>) -> Seq<char> {
    "签到喵~"@ + token
}

/// Reads the machine's local date through `chrono::Local::now`, taking the
/// year, month and day that `chrono::Datelike` reports for it. Nothing is
/// claimed about which date comes back, only that the month lies in 1..=12
/// and the day in 1..=31, as chrono documents for those two accessors.
#[verifier::external_body]
fn local_date_now() -> (date: CalendarDate)
    ensures
        date.in_calendar_range(),
{
    let now = chrono::Local::now();
    CalendarDate {
        year: chrono::Datelike::year(&now),
        month: chrono::Datelike::month(&now),
        day: chrono::Datelike::day(&now),
    }
}

/// The current local date.
pub fn today() -> (date: CalendarDate)
    ensures
        date.in_calendar_range(),
{
    local_date_now()
}

/// Builds the token for `date`.
pub fn token(date: CalendarDate) -> (t: String)
    ensures
        t@ == token_text(date),
{
    let mut t = String::from_str("【");
    push_signed_decimal(&mut t, date.year);
    t.append("/");
    push_decimal(&mut t, date.month as u64);
    t.append("/");
    push_decimal(&mut t, date.day as u64);
    t.append("】");
    t
}

/// Builds the token for the current local date.
pub fn today_token() -> (t: String)
    ensures
        exists|date: CalendarDate| date.in_calendar_range() && t@ == token_text(date),
{
    let date = today();
    token(date)
}

/// Builds the lookup expression for the link whose title holds `token`.
pub fn thread_selector(token: &str) -> (s: String)
    ensures
        s@ == selector_text(token@),
{
    let mut s = String::from_str("a[title*='");
    s.append(token);
    s.append("']");
    s
}

/// Builds the reply for the thread named by `token`.
pub fn reply_text(token: &str) -> (s: String)
    ensures
        s@ == reply_content(token@),
{
    let mut s = String::from_str("签到喵~");
    s.append(token);
    s
}

} // verus!
