//! Interval size of the per-microinverter telemetry.

use vstd::prelude::*;
use crate::text::joined;
use crate::text::same_text;

verus! {

/// How finely the service buckets microinverter telemetry.
#[derive(Clone, Copy, Debug, PartialEq, Eq, Structural)]
pub enum Granularity {
    Week,
    Day,
    FifteenMinutes,
}

/// The wire token of each granularity.
pub open spec fn granularity_token(g: Granularity) -> Seq<char> {
    match g {
        Granularity::Week => "week"@,
        Granularity::Day => "day"@,
        Granularity::FifteenMinutes => "15mins"@,
    }
}

/// The granularity named by a wire token, if any.
pub open spec fn granularity_of_token(s: Seq<char>) -> Option<Granularity> {
    if s == "week"@ {
        Some(Granularity::Week)
    } else if s == "day"@ {
        Some(Granularity::Day)
    } else if s == "15mins"@ {
        Some(Granularity::FifteenMinutes)
    } else {
        None
    }
}

/// A token that names no granularity; it keeps the token as received.
#[derive(Clone, Debug)]
pub struct InvalidGranularity(pub String);

impl InvalidGranularity {
    /// The human-readable message, `Invalid granularity "<token>"`.
    pub fn message(&self) -> (r: String)
        ensures
            r@ == "Invalid granularity \""@ + self.0@ + "\""@,
    {
        let mut s = joined("Invalid granularity \"", self.0.as_str());
        s.append("\"");
        s
    }

    /// Same as [`InvalidGranularity::message`].
    pub fn to_string(&self) -> (r: String)
        ensures
            r@ == "Invalid granularity \""@ + self.0@ + "\""@,
    {
        self.message()
    }
}

impl Granularity {
    /// The wire token: `week`, `day` or `15mins`.
    pub fn as_str(&self) -> (r: &'static str)
        ensures
            r@ == granularity_token(*self),
    {
        match self {
            Granularity::Week => "week",
            Granularity::Day => "day",
            Granularity::FifteenMinutes => "15mins",
        }
    }

    /// The wire token as an owned string.
    pub fn to_string(&self) -> (r: String)
        ensures
            r@ == granularity_token(*self),
    {
        String::from_str(self.as_str())
    }

    /// Reads a wire token; any token other than the three known ones is an
    /// error that carries it.
    pub fn parse(s: &str) -> (r: Result<Granularity, InvalidGranularity>)
        ensures
            match granularity_of_token(s@) {
                Some(g) => r == Ok::<Granularity, InvalidGranularity>(g),
                None => r is Err && r->Err_0.0@ == s@,
            },
    {
        if same_text(s, "week") {
            Ok(Granularity::Week)
        } else if same_text(s, "day") {
            Ok(Granularity::Day)
        } else if same_text(s, "15mins") {
            Ok(Granularity::FifteenMinutes)
        } else {
            Err(InvalidGranularity(String::from_str(s)))
        }
    }
}

impl std::str::FromStr for Granularity {
    type Err = InvalidGranularity;

    fn from_str(s: &str) -> (r: Result<Granularity, InvalidGranularity>)
        ensures
            match granularity_of_token(s@) {
                Some(g) => r == Ok::<Granularity, InvalidGranularity>(g),
                None => r is Err && r->Err_0.0@ == s@,
            },
    {
        Granularity::parse(s)
    }
}

/// Writing a granularity and reading the token back gives the same value, and
/// a token is accepted exactly when it is the token of some granularity.
pub proof fn lemma_granularity_round_trip(g: Granularity, s: Seq<char>)
    ensures
        granularity_of_token(granularity_token(g)) == Some(g),
        granularity_of_token(s) is Some ==> granularity_token(granularity_of_token(s)->0) == s,
{
    reveal_strlit("week");
    reveal_strlit("day");
    reveal_strlit("15mins");
    assert("day"@.len() != "week"@.len());
    assert("15mins"@.len() != "week"@.len());
    assert("15mins"@.len() != "day"@.len());
}

} // verus!
