//! UTC instants and the one place where the crate leans on chrono.
//!
//! The hub emits timestamps as ISO-8601-like text. The crate stores an
//! accepted timestamp as plain signed milliseconds since the Unix epoch, so
//! that everything downstream of the one parsing call is ordinary verified
//! code over integers.
use vstd::prelude::*;

verus! {

/// A UTC instant: signed milliseconds since the Unix epoch.
#[derive(Clone, Copy, PartialEq, Eq, Structural, Debug)]
pub struct Instant {
    pub epoch_millis: i64,
}

/// The instant that chrono reads out of the given text, if the text is a
/// well-formed timestamp. Which texts are accepted, and which instant an
/// accepted text denotes, depend on the characters alone; no short
/// description of chrono's grammar is attempted here.
pub uninterp spec fn utc_instant_of(s: Seq<char>) -> Option<i64>;

/// Relies on chrono: `str::parse::<chrono::DateTime<chrono::Utc>>` accepts or
/// rejects a text as a function of its characters alone, and
/// `timestamp_millis` turns an accepted value into one integer. Neither call
/// panics.
#[verifier::external_body]
fn parse_utc_millis(s: &str) -> (r: Option<i64>)
    ensures
        r == utc_instant_of(s@),
{
    match s.parse::<chrono::DateTime<chrono::Utc>>() {
        Ok(t) => Some(t.timestamp_millis()),
        Err(_) => None,
    }
}

/// Parse a hub timestamp text into an [`Instant`].
pub fn parse_instant(s: &str) -> (r: Option<Instant>)
    ensures
        match utc_instant_of(s@) {
            Some(m) => r == Some(Instant { epoch_millis: m }),
            None => r is None,
        },
{
    match parse_utc_millis(s) {
        Some(m) => Some(Instant { epoch_millis: m }),
        None => None,
    }
}

} // verus!
