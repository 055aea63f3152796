//! Instants at which warnings are recorded, and their text form.

use crate::text::text_view;
use std::fmt::Write;
use vstd::prelude::*;

verus! {

/// The text `chrono` gives for the instant `seconds` seconds after the Unix
/// epoch, in UTC, as year-month-day hour:minute:second; `None` where `chrono`
/// has no such instant.
pub uninterp spec fn utc_text(seconds: i64) -> Option<Seq<char>>;

/// The text form of the instant `seconds` seconds after the Unix epoch; empty
/// where there is none.
pub open spec fn stamp_text(seconds: i64) -> Seq<char> {
    match utc_text(seconds) {
        Some(text) => text,
        None => Seq::empty(),
    }
}

/// The seconds of the instant `minutes` minutes after the instant `seconds`.
pub open spec fn minutes_later(seconds: i64, minutes: u64) -> int {
    seconds + 60 * minutes
}

/// Calls `chrono::DateTime::from_timestamp` and prints the instant through
/// `chrono::DateTime::format` with the pattern `%Y-%m-%d %H:%M:%S`. Trusted:
/// the result is a function of `seconds` alone, named `utc_text`; it is `None`
/// where `chrono` cannot represent or print the instant.
#[verifier::external_body]
fn render_utc(seconds: i64) -> (text: Option<String>)
    ensures
        text_view(text) == utc_text(seconds),
{
    let instant = chrono::DateTime::from_timestamp(seconds, 0)?;
    let mut text = String::new();
    match write!(text, "{}", instant.format("%Y-%m-%d %H:%M:%S")) {
        Ok(()) => Some(text),
        Err(_) => None,
    }
}

/// The seconds since the Unix epoch of the UTC instant that `chrono` reads from
/// `text` as year-month-day hour:minute:second; `None` where `chrono` reads no
/// instant from it.
pub uninterp spec fn utc_seconds(text: Seq<char>) -> Option<i64>;

/// Calls `chrono::NaiveDateTime::parse_from_str` with the pattern
/// `%Y-%m-%d %H:%M:%S` and takes the seconds of the instant, read as UTC.
/// Trusted: the result is a function of `text` alone, named `utc_seconds`; it
/// is `None` where `chrono` refuses the text.
#[verifier::external_body]
fn parse_utc(text: &str) -> (seconds: Option<i64>)
    ensures
        seconds == utc_seconds(text@),
{
    match chrono::NaiveDateTime::parse_from_str(text, "%Y-%m-%d %H:%M:%S") {
        Ok(instant) => Some(instant.and_utc().timestamp()),
        Err(_) => None,
    }
}

/// An instant, in whole seconds since the Unix epoch, that has a text form.
#[derive(Clone, Copy, Debug)]
pub struct Timestamp {
    seconds: i64,
}

impl Timestamp {
    #[verifier::type_invariant]
    spec fn printable(self) -> bool {
        utc_text(self.seconds) is Some
    }

    /// Seconds since the Unix epoch.
    pub closed spec fn spec_seconds(self) -> i64 {
        self.seconds
    }

    /// The instant `seconds` seconds after the Unix epoch, if it has a text
    /// form.
    pub fn from_unix(seconds: i64) -> (stamp: Option<Timestamp>)
        ensures
            stamp is Some <==> utc_text(seconds) is Some,
            stamp matches Some(s) ==> s.spec_seconds() == seconds,
    {
        match render_utc(seconds) {
            Some(_) => Some(Timestamp { seconds }),
            None => None,
        }
    }

    /// The instant that `text` stands for as `YYYY-MM-DD HH:MM:SS`, in UTC, if
    /// it stands for one that has a text form.
    pub fn parse(text: &str) -> (stamp: Option<Timestamp>)
        ensures
            stamp is Some <==> (utc_seconds(text@) matches Some(seconds) && utc_text(seconds)
                is Some),
            stamp matches Some(s) ==> utc_seconds(text@) == Some(s.spec_seconds()),
    {
        match parse_utc(text) {
            Some(seconds) => Timestamp::from_unix(seconds),
            None => None,
        }
    }

    /// Seconds since the Unix epoch.
    #[verifier::when_used_as_spec(spec_seconds)]
    pub fn seconds(self) -> (seconds: i64)
        ensures
            seconds == self.spec_seconds(),
    {
        self.seconds
    }

    /// The instant `minutes` minutes after this one, if it is within reach:
    /// its seconds fit and it has a text form.
    pub fn plus_minutes(self, minutes: u64) -> (later: Option<Timestamp>)
        ensures
            later is Some <==> minutes_later(self.spec_seconds(), minutes) <= i64::MAX && utc_text(
                minutes_later(self.spec_seconds(), minutes) as i64,
            ) is Some,
            later matches Some(t) ==> t.spec_seconds() == minutes_later(
                self.spec_seconds(),
                minutes,
            ),
    {
        let later: i128 = self.seconds as i128 + 60 * (minutes as i128);
        if later > i64::MAX as i128 {
            None
        } else {
            Timestamp::from_unix(later as i64)
        }
    }

    /// The instant as `YYYY-MM-DD HH:MM:SS`, in UTC.
    pub fn text(self) -> (text: String)
        ensures
            utc_text(self.spec_seconds()) == Some(text@),
            text@ == stamp_text(self.spec_seconds()),
    {
        proof {
            use_type_invariant(&self);
        }
        match render_utc(self.seconds) {
            Some(text) => text,
            // Never taken: a timestamp is an instant that has a text form.
            None => String::new(),
        }
    }
}

} // verus!
