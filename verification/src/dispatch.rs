//! The four entry points, one for each sink that a report can go to.

use crate::directive::{format_of_arg, unit_of_arg, DirectiveArg};
use crate::error::TimerError;
use crate::synth::{alone, builder, joint, outcome, transform, word};
use crate::target::SourceItem;
use crate::tokens::{empty_stream, push_ident, push_punct, tokens, Spacing, Token};
use proc_macro2::TokenStream;
use vstd::prelude::*;

verus! {

/// Where the report of a measurement goes.
#[derive(Clone, Copy, Debug, PartialEq, Eq, Structural)]
pub enum Sink {
    /// The console, through `println!`.
    Println,
    /// The log, at level info, through `log::info!`.
    LogInfo,
    /// The log, at level debug, through `log::debug!`.
    LogDebug,
    /// The log, at level trace, through `log::trace!`.
    LogTrace,
}

impl Sink {
    /// The name of the macro in the `log` crate, for the sinks that go there.
    pub open spec fn level(self) -> Option<Seq<char>> {
        match self {
            Sink::Println => None,
            Sink::LogInfo => Some("info"@),
            Sink::LogDebug => Some("debug"@),
            Sink::LogTrace => Some("trace"@),
        }
    }

    /// The tokens that invoke the sink: `println!`, or `log::<level>!`.
    pub open spec fn quoted(self) -> Seq<Token> {
        match self.level() {
            None => seq![word("println"@), alone('!')],
            Some(level) => seq![word("log"@), joint(':'), alone(':'), word(level), alone('!')],
        }
    }

    /// The tokens that invoke the sink, to be followed by the arguments in
    /// parentheses.
    pub fn quote(self) -> (ts: TokenStream)
        ensures
            tokens(ts) == self.quoted(),
    {
        proof {
            reveal_strlit("println");
            reveal_strlit("log");
            reveal_strlit("info");
            reveal_strlit("debug");
            reveal_strlit("trace");
        }
        let mut ts = empty_stream();
        match self {
            Sink::Println => {
                push_ident(&mut ts, "println");
            },
            Sink::LogInfo => {
                push_ident(&mut ts, "log");
                push_punct(&mut ts, ':', Spacing::Joint);
                push_punct(&mut ts, ':', Spacing::Alone);
                push_ident(&mut ts, "info");
            },
            Sink::LogDebug => {
                push_ident(&mut ts, "log");
                push_punct(&mut ts, ':', Spacing::Joint);
                push_punct(&mut ts, ':', Spacing::Alone);
                push_ident(&mut ts, "debug");
            },
            Sink::LogTrace => {
                push_ident(&mut ts, "log");
                push_punct(&mut ts, ':', Spacing::Joint);
                push_punct(&mut ts, ':', Spacing::Alone);
                push_ident(&mut ts, "trace");
            },
        }
        push_punct(&mut ts, '!', Spacing::Alone);
        assert(tokens(ts) =~= self.quoted());
        ts
    }
}

/// Wraps the function in `body` so that each call prints its duration with
/// `println!`.
///
/// The directive takes no, one or two arguments: the unit, one of `s`, `ms` (the
/// default), `us` and `ns`, and the template of the report, a string literal with
/// one placeholder for the number.
pub fn timer_println(args: &Vec<DirectiveArg>, body: &SourceItem) -> (res: Result<
    TokenStream,
    TimerError,
>)
    ensures
        outcome(res) == transform(args.deep_view(), body.deep_view(), Sink::Println.quoted()),
        res == Err::<TokenStream, TimerError>(TimerError::UnsupportedTargetKind) <==> body is Other,
        res == Err::<TokenStream, TimerError>(TimerError::TooManyArguments) <==> body is Function
            && args.len() > 2,
        res == Err::<TokenStream, TimerError>(TimerError::InvalidTimeUnit) <==> body is Function
            && 1 <= args.len() <= 2 && unit_of_arg(args.deep_view()[0]) is None,
        res == Err::<TokenStream, TimerError>(TimerError::InvalidFormatLiteral) <==> body
            is Function && args.len() == 2 && unit_of_arg(args.deep_view()[0]) is Some
            && format_of_arg(args.deep_view()[1]) is None,
{
    builder(args, body, &Sink::Println.quote())
}

/// Wraps the function in `body` so that each call logs its duration with
/// `log::info!`. The directive is that of [`timer_println`].
pub fn timer_log_info(args: &Vec<DirectiveArg>, body: &SourceItem) -> (res: Result<
    TokenStream,
    TimerError,
>)
    ensures
        outcome(res) == transform(args.deep_view(), body.deep_view(), Sink::LogInfo.quoted()),
        res == Err::<TokenStream, TimerError>(TimerError::UnsupportedTargetKind) <==> body is Other,
        res == Err::<TokenStream, TimerError>(TimerError::TooManyArguments) <==> body is Function
            && args.len() > 2,
        res == Err::<TokenStream, TimerError>(TimerError::InvalidTimeUnit) <==> body is Function
            && 1 <= args.len() <= 2 && unit_of_arg(args.deep_view()[0]) is None,
        res == Err::<TokenStream, TimerError>(TimerError::InvalidFormatLiteral) <==> body
            is Function && args.len() == 2 && unit_of_arg(args.deep_view()[0]) is Some
            && format_of_arg(args.deep_view()[1]) is None,
{
    builder(args, body, &Sink::LogInfo.quote())
}

/// Wraps the function in `body` so that each call logs its duration with
/// `log::debug!`. The directive is that of [`timer_println`].
pub fn timer_log_debug(args: &Vec<DirectiveArg>, body: &SourceItem) -> (res: Result<
    TokenStream,
    TimerError,
>)
    ensures
        outcome(res) == transform(args.deep_view(), body.deep_view(), Sink::LogDebug.quoted()),
        res == Err::<TokenStream, TimerError>(TimerError::UnsupportedTargetKind) <==> body is Other,
        res == Err::<TokenStream, TimerError>(TimerError::TooManyArguments) <==> body is Function
            && args.len() > 2,
        res == Err::<TokenStream, TimerError>(TimerError::InvalidTimeUnit) <==> body is Function
            && 1 <= args.len() <= 2 && unit_of_arg(args.deep_view()[0]) is None,
        res == Err::<TokenStream, TimerError>(TimerError::InvalidFormatLiteral) <==> body
            is Function && args.len() == 2 && unit_of_arg(args.deep_view()[0]) is Some
            && format_of_arg(args.deep_view()[1]) is None,
{
    builder(args, body, &Sink::LogDebug.quote())
}

/// Wraps the function in `body` so that each call logs its duration with
/// `log::trace!`. The directive is that of [`timer_println`].
pub fn timer_log_trace(args: &Vec<DirectiveArg>, body: &SourceItem) -> (res: Result<
    TokenStream,
    TimerError,
>)
    ensures
        outcome(res) == transform(args.deep_view(), body.deep_view(), Sink::LogTrace.quoted()),
        res == Err::<TokenStream, TimerError>(TimerError::UnsupportedTargetKind) <==> body is Other,
        res == Err::<TokenStream, TimerError>(TimerError::TooManyArguments) <==> body is Function
            && args.len() > 2,
        res == Err::<TokenStream, TimerError>(TimerError::InvalidTimeUnit) <==> body is Function
            && 1 <= args.len() <= 2 && unit_of_arg(args.deep_view()[0]) is None,
        res == Err::<TokenStream, TimerError>(TimerError::InvalidFormatLiteral) <==> body
            is Function && args.len() == 2 && unit_of_arg(args.deep_view()[0]) is Some
            && format_of_arg(args.deep_view()[1]) is None,
{
    builder(args, body, &Sink::LogTrace.quote())
}

} // verus!
