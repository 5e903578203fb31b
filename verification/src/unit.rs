//! The four units in which a duration is reported, and how a token names one.

use crate::error::TimerError;
use crate::tokens::{empty_stream, push_group, push_ident, tokens, Delim, Token};
use proc_macro2::TokenStream;
use vstd::prelude::*;
use vstd::string::StringExecFns;

verus! {

/// The granularity of a reported duration.
#[derive(Clone, Copy, Debug, PartialEq, Eq, Structural)]
pub enum TimeUnit {
    /// Whole seconds.
    S,
    /// Whole milliseconds.
    MS,
    /// Whole microseconds.
    US,
    /// Whole nanoseconds.
    NS,
}

/// The upper-case form of a text, as `str::to_uppercase` gives it.
pub uninterp spec fn uppercase(text: Seq<char>) -> Seq<char>;

/// `str::to_uppercase`: the upper-case form of the text, which depends on the
/// text alone.
#[verifier::external_body]
fn to_uppercase(text: &str) -> (upper: String)
    ensures
        upper@ == uppercase(text@),
{
    text.to_uppercase()
}

/// Whether two texts hold the same characters.
fn same_text(a: &str, b: &str) -> (same: bool)
    ensures
        same == (a@ == b@),
{
    String::from_str(a) == String::from_str(b)
}

impl TimeUnit {
    /// The canonical short name of the unit.
    pub open spec fn short_name(self) -> Seq<char> {
        match self {
            TimeUnit::S => "s"@,
            TimeUnit::MS => "ms"@,
            TimeUnit::US => "us"@,
            TimeUnit::NS => "ns"@,
        }
    }

    /// The method of `std::time::Duration` that reads a duration in this unit.
    pub open spec fn accessor(self) -> Seq<char> {
        match self {
            TimeUnit::S => "as_secs"@,
            TimeUnit::MS => "as_millis"@,
            TimeUnit::US => "as_micros"@,
            TimeUnit::NS => "as_nanos"@,
        }
    }

    /// The tokens that read a duration in this unit: the accessor, called with no
    /// argument.
    pub open spec fn quoted(self) -> Seq<Token> {
        seq![Token::Ident(self.accessor()), Token::Group(Delim::Parenthesis, Seq::empty())]
    }

    /// The unit that an upper-case token names, if it names one.
    pub open spec fn of_upper(upper: Seq<char>) -> Option<TimeUnit> {
        if upper == "S"@ {
            Some(TimeUnit::S)
        } else if upper == "MS"@ {
            Some(TimeUnit::MS)
        } else if upper == "US"@ {
            Some(TimeUnit::US)
        } else if upper == "NS"@ {
            Some(TimeUnit::NS)
        } else {
            None
        }
    }

    /// The unit that a token names without regard to letter case, if it names one:
    /// the token is put into upper case and then read.
    pub open spec fn of_token(token: Seq<char>) -> Option<TimeUnit> {
        Self::of_upper(uppercase(token))
    }

    /// The canonical short name of the unit: `s`, `ms`, `us` or `ns`.
    pub fn as_str(&self) -> (name: &'static str)
        ensures
            name@ == self.short_name(),
    {
        match self {
            TimeUnit::S => "s",
            TimeUnit::MS => "ms",
            TimeUnit::US => "us",
            TimeUnit::NS => "ns",
        }
    }

    /// The canonical short name of the unit, as an owned text.
    pub fn to_string(&self) -> (name: String)
        ensures
            name@ == self.short_name(),
    {
        String::from_str(self.as_str())
    }

    /// The tokens that select, from a measured duration, the number to report.
    pub fn quote(self) -> (ts: TokenStream)
        ensures
            tokens(ts) == self.quoted(),
    {
        let accessor = match self {
            TimeUnit::S => "as_secs",
            TimeUnit::MS => "as_millis",
            TimeUnit::US => "as_micros",
            TimeUnit::NS => "as_nanos",
        };
        proof {
            reveal_strlit("as_secs");
            reveal_strlit("as_millis");
            reveal_strlit("as_micros");
            reveal_strlit("as_nanos");
        }
        let mut ts = empty_stream();
        push_ident(&mut ts, accessor);
        push_group(&mut ts, Delim::Parenthesis, empty_stream());
        ts
    }

    /// Reads a token that is already in upper case: exactly `S`, `MS`, `US` and `NS`
    /// name a unit.
    pub fn from_upper(upper: &str) -> (unit: Option<TimeUnit>)
        ensures
            unit == Self::of_upper(upper@),
    {
        if same_text(upper, "S") {
            Some(TimeUnit::S)
        } else if same_text(upper, "MS") {
            Some(TimeUnit::MS)
        } else if same_text(upper, "US") {
            Some(TimeUnit::US)
        } else if same_text(upper, "NS") {
            Some(TimeUnit::NS)
        } else {
            None
        }
    }

    /// Resolves a token to a unit, whatever the case of its letters: `ms`, `Ms`,
    /// `mS` and `MS` all name milliseconds. Two tokens are the same here where
    /// their upper-case forms are. A token that names none of the four units is
    /// refused.
    pub fn from(token: &str) -> (res: Result<TimeUnit, TimerError>)
        ensures
            res == match Self::of_token(token@) {
                Some(unit) => Ok::<TimeUnit, TimerError>(unit),
                None => Err(TimerError::InvalidTimeUnit),
            },
    {
        let upper = to_uppercase(token);
        match Self::from_upper(upper.as_str()) {
            Some(unit) => Ok(unit),
            None => Err(TimerError::InvalidTimeUnit),
        }
    }
}

} // verus!
