//! The ways in which a transformation is refused.

use vstd::prelude::*;

verus! {

/// Why no replacement function was produced.
#[derive(Clone, Copy, Debug, PartialEq, Eq, Structural)]
pub enum TimerError {
    /// The directive has more than two arguments.
    TooManyArguments,
    /// The first argument is not one of the unit tokens `s`, `ms`, `us`, `ns`.
    InvalidTimeUnit,
    /// The second argument is not a string literal.
    InvalidFormatLiteral,
    /// The annotated item is not a function.
    UnsupportedTargetKind,
}

/// The construct in the source that an error points at.
#[derive(Clone, Copy, Debug, PartialEq, Eq, Structural)]
pub enum ErrorSite {
    /// The directive as a whole.
    Directive,
    /// One argument of the directive, by its position.
    Argument(usize),
    /// The annotated item.
    Item,
}

impl TimerError {
    /// The text that describes the error to the author of the annotated code.
    pub open spec fn message_text(self) -> Seq<char> {
        match self {
            TimerError::TooManyArguments =>
                "Invalid arguments, usage: [(TimeUnit[, OutputFormatString])]"@,
            TimerError::InvalidTimeUnit =>
                "Invalid unit of time, only `s`, `ms`, `us`, `ns` are supported"@,
            TimerError::InvalidFormatLiteral =>
                "Invalid FormatString, the usage is similar with macro `println!` or `format!`"@,
            TimerError::UnsupportedTargetKind => "only functions are supported"@,
        }
    }

    /// The construct at fault: the whole directive where it is too long, the first
    /// argument for a bad unit, the second for a bad format, the item otherwise.
    pub open spec fn site_of(self) -> ErrorSite {
        match self {
            TimerError::TooManyArguments => ErrorSite::Directive,
            TimerError::InvalidTimeUnit => ErrorSite::Argument(0),
            TimerError::InvalidFormatLiteral => ErrorSite::Argument(1),
            TimerError::UnsupportedTargetKind => ErrorSite::Item,
        }
    }

    /// A descriptive message for this error.
    pub fn message(&self) -> (text: &'static str)
        ensures
            text@ == self.message_text(),
    {
        match self {
            TimerError::TooManyArguments =>
                "Invalid arguments, usage: [(TimeUnit[, OutputFormatString])]",
            TimerError::InvalidTimeUnit =>
                "Invalid unit of time, only `s`, `ms`, `us`, `ns` are supported",
            TimerError::InvalidFormatLiteral =>
                "Invalid FormatString, the usage is similar with macro `println!` or `format!`",
            TimerError::UnsupportedTargetKind => "only functions are supported",
        }
    }

    /// The construct that the message is to be attached to.
    pub fn site(&self) -> (site: ErrorSite)
        ensures
            site == self.site_of(),
    {
        match self {
            TimerError::TooManyArguments => ErrorSite::Directive,
            TimerError::InvalidTimeUnit => ErrorSite::Argument(0),
            TimerError::InvalidFormatLiteral => ErrorSite::Argument(1),
            TimerError::UnsupportedTargetKind => ErrorSite::Item,
        }
    }
}

} // verus!
