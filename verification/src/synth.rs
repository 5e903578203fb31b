//! The synthesis of the replacement function.
//!
//! The replacement keeps the attributes, the visibility and the signature of the
//! function it stands in for. Its body reads the clock, runs the function's own
//! statements inside a closure that is called on the spot, reports the elapsed
//! time through the sink and returns what the closure returned:
//!
//! ```text
//! let now_<suffix> = std::time::Instant::now();
//! let result_<suffix> = (move || { <statements> })();
//! <sink>(<format>, now_<suffix>.elapsed().<accessor>());
//! return result_<suffix>;
//! ```
//!
//! The statements run once, in their order and in a scope of their own: a
//! `return` among them leaves the closure, not the replacement, so the report is
//! made on every path on which the statements come to an end.

use crate::directive::{
    directive_of, format_of_arg, parse_args, unit_of_arg, ArgView, Directive, DirectiveArg,
    DirectiveView,
};
use crate::error::TimerError;
use crate::target::{parse_body, token_lists, FunctionParts, ItemView, PartsView, SourceItem};
use crate::tokens::{
    empty_stream, is_word, is_word_char, push_group, push_ident, push_punct, push_str_literal,
    push_stream, tokens, Delim, Spacing, Token,
};
use crate::unit::TimeUnit;
use proc_macro2::TokenStream;
use vstd::prelude::*;
use vstd::string::StringExecFns;

verus! {

/// The suffix of the two variables that the replacement body declares. It is
/// fixed, so that the same input always gives the same output, and long enough
/// that no name written by hand is likely to equal one of them.
pub const UID_SUFFIX: &'static str =
    "x7bf707c839bc2554fa3f1913a8dc699b68236726c5da18b31f660948ca7f542a267de9b";

/// The name of an injected variable: the stem, `_`, and the fixed suffix.
pub open spec fn injected_name(stem: Seq<char>) -> Seq<char> {
    stem + "_"@ + UID_SUFFIX@
}

/// The variable that holds the start timestamp.
pub open spec fn now_name() -> Seq<char> {
    injected_name("now"@)
}

/// The variable that holds what the function's statements came to.
pub open spec fn result_name() -> Seq<char> {
    injected_name("result"@)
}

/// A word token.
pub open spec fn word(text: Seq<char>) -> Token {
    Token::Ident(text)
}

/// A punctuation character that ends its operator.
pub open spec fn alone(ch: char) -> Token {
    Token::Punct(ch, Spacing::Alone)
}

/// A punctuation character that the next one continues.
pub open spec fn joint(ch: char) -> Token {
    Token::Punct(ch, Spacing::Joint)
}

/// A group in parentheses.
pub open spec fn parens(inner: Seq<Token>) -> Token {
    Token::Group(Delim::Parenthesis, inner)
}

/// A group in braces.
pub open spec fn braces(inner: Seq<Token>) -> Token {
    Token::Group(Delim::Brace, inner)
}

/// `let now_<suffix> = std::time::Instant::now();`
pub open spec fn start_statement() -> Seq<Token> {
    seq![
        word("let"@),
        word(now_name()),
        alone('='),
        word("std"@),
        joint(':'),
        alone(':'),
        word("time"@),
        joint(':'),
        alone(':'),
        word("Instant"@),
        joint(':'),
        alone(':'),
        word("now"@),
        parens(Seq::empty()),
        alone(';'),
    ]
}

/// `let result_<suffix> = (move || { <statements> })();`
pub open spec fn run_statement(stmts: Seq<Token>) -> Seq<Token> {
    seq![
        word("let"@),
        word(result_name()),
        alone('='),
        parens(seq![word("move"@), joint('|'), alone('|'), braces(stmts)]),
        parens(Seq::empty()),
        alone(';'),
    ]
}

/// What the sink is given: `<format>, now_<suffix>.elapsed().<accessor>()`, the
/// format as a string literal.
pub open spec fn report_arguments(format: Seq<char>, unit: TimeUnit) -> Seq<Token> {
    seq![
        Token::Str(format),
        alone(','),
        word(now_name()),
        alone('.'),
        word("elapsed"@),
        parens(Seq::empty()),
        alone('.'),
    ] + unit.quoted()
}

/// `<sink>(<format>, now_<suffix>.elapsed().<accessor>());`
pub open spec fn report_statement(sink: Seq<Token>, format: Seq<char>, unit: TimeUnit) -> Seq<
    Token,
> {
    sink + seq![parens(report_arguments(format, unit)), alone(';')]
}

/// `return result_<suffix>;`
pub open spec fn return_statement() -> Seq<Token> {
    seq![word("return"@), word(result_name()), alone(';')]
}

/// The body of the replacement: the four statements, in this order, around the
/// function's own statements.
pub open spec fn timed_body(stmts: Seq<Token>, directive: DirectiveView, sink: Seq<Token>) -> Seq<
    Token,
> {
    start_statement() + run_statement(stmts) + report_statement(
        sink,
        directive.format,
        directive.unit,
    ) + return_statement()
}

/// The replacement function: attributes, visibility and signature as they were,
/// then the new body in braces.
pub open spec fn timed_function(parts: PartsView, directive: DirectiveView, sink: Seq<Token>) -> Seq<
    Token,
> {
    parts.attrs.flatten() + parts.vis + parts.sig + seq![
        braces(timed_body(parts.stmts.flatten(), directive, sink)),
    ]
}

/// What the transformation gives for a directive, an item and a sink: the tokens
/// of the replacement function, or the reason why there is none.
///
/// The item is checked first, then the directive.
pub open spec fn transform(args: Seq<ArgView>, item: ItemView, sink: Seq<Token>) -> Result<
    Seq<Token>,
    TimerError,
> {
    match item {
        ItemView::Other => Err(TimerError::UnsupportedTargetKind),
        ItemView::Function(parts) => match directive_of(args, parts.name) {
            Err(error) => Err(error),
            Ok(directive) => Ok(timed_function(parts, directive, sink)),
        },
    }
}

/// What a run of the transformation came to, with the stream read as its tokens.
pub open spec fn outcome(res: Result<TokenStream, TimerError>) -> Result<Seq<Token>, TimerError> {
    match res {
        Ok(ts) => Ok(tokens(ts)),
        Err(error) => Err(error),
    }
}

/// The fixed suffix is made of 72 letters and digits.
proof fn uid_suffix_is_plain()
    ensures
        UID_SUFFIX@.len() == 72,
        forall|i: int| 0 <= i < UID_SUFFIX@.len() ==> is_word_char(#[trigger] UID_SUFFIX@[i]),
{
    reveal_strlit("x7bf707c839bc2554fa3f1913a8dc699b68236726c5da18b31f660948ca7f542a267de9b");
}

/// Builds the name of an injected variable from its stem.
fn injected_ident(stem: &str) -> (name: String)
    requires
        is_word(stem@),
    ensures
        name@ == injected_name(stem@),
        is_word(name@),
{
    proof {
        reveal_strlit("_");
        uid_suffix_is_plain();
    }
    let mut name = String::from_str(stem);
    name.append("_");
    name.append(UID_SUFFIX);
    name
}

/// Appends the path separator `::`.
fn push_path_sep(ts: &mut TokenStream)
    ensures
        tokens(*final(ts)) == tokens(*old(ts)) + seq![joint(':'), alone(':')],
{
    push_punct(ts, ':', Spacing::Joint);
    push_punct(ts, ':', Spacing::Alone);
    assert(tokens(*ts) =~= tokens(*old(ts)) + seq![joint(':'), alone(':')]);
}

/// Appends an empty pair of parentheses.
fn push_unit_call(ts: &mut TokenStream)
    ensures
        tokens(*final(ts)) == tokens(*old(ts)).push(parens(Seq::empty())),
{
    push_group(ts, Delim::Parenthesis, empty_stream());
}

/// Appends every stream of a list, in the order of the list.
fn push_all(ts: &mut TokenStream, streams: &Vec<TokenStream>)
    ensures
        tokens(*final(ts)) == tokens(*old(ts)) + token_lists(streams@).flatten(),
{
    let mut i: usize = 0;
    assert(token_lists(streams@).take(0) =~= Seq::<Seq<Token>>::empty());
    while i < streams.len()
        invariant
            i <= streams.len(),
            tokens(*ts) == tokens(*old(ts)) + token_lists(streams@).take(i as int).flatten(),
        decreases streams.len() - i,
    {
        push_stream(ts, &streams[i]);
        proof {
            let lists = token_lists(streams@);
            assert(lists.take(i + 1) =~= lists.take(i as int).push(lists[i as int]));
            lists.take(i as int).lemma_flatten_push(lists[i as int]);
        }
        i = i + 1;
    }
    assert(token_lists(streams@).take(i as int) =~= token_lists(streams@));
}

/// Appends the statement that records the start timestamp.
fn push_start(ts: &mut TokenStream)
    ensures
        tokens(*final(ts)) == tokens(*old(ts)) + start_statement(),
{
    proof {
        reveal_strlit("let");
        reveal_strlit("now");
        reveal_strlit("std");
        reveal_strlit("time");
        reveal_strlit("Instant");
    }
    let v_now = injected_ident("now");
    push_ident(ts, "let");
    push_ident(ts, v_now.as_str());
    push_punct(ts, '=', Spacing::Alone);
    push_ident(ts, "std");
    push_path_sep(ts);
    push_ident(ts, "time");
    push_path_sep(ts);
    push_ident(ts, "Instant");
    push_path_sep(ts);
    push_ident(ts, "now");
    push_unit_call(ts);
    push_punct(ts, ';', Spacing::Alone);
    assert(tokens(*ts) =~= tokens(*old(ts)) + start_statement());
}

/// Appends the statement that runs the function's own statements and keeps what
/// they came to.
fn push_run(ts: &mut TokenStream, stmts: &Vec<TokenStream>)
    ensures
        tokens(*final(ts)) == tokens(*old(ts)) + run_statement(token_lists(stmts@).flatten()),
{
    proof {
        reveal_strlit("let");
        reveal_strlit("result");
        reveal_strlit("move");
    }
    let v_result = injected_ident("result");
    let mut block = empty_stream();
    push_all(&mut block, stmts);
    assert(tokens(block) =~= token_lists(stmts@).flatten());
    let mut closure = empty_stream();
    push_ident(&mut closure, "move");
    push_punct(&mut closure, '|', Spacing::Joint);
    push_punct(&mut closure, '|', Spacing::Alone);
    push_group(&mut closure, Delim::Brace, block);
    assert(tokens(closure) =~= seq![
        word("move"@),
        joint('|'),
        alone('|'),
        braces(token_lists(stmts@).flatten()),
    ]);
    push_ident(ts, "let");
    push_ident(ts, v_result.as_str());
    push_punct(ts, '=', Spacing::Alone);
    push_group(ts, Delim::Parenthesis, closure);
    push_unit_call(ts);
    push_punct(ts, ';', Spacing::Alone);
    assert(tokens(*ts) =~= tokens(*old(ts)) + run_statement(token_lists(stmts@).flatten()));
}

/// Appends the statement that hands the template and the measured number to the
/// sink.
fn push_report(ts: &mut TokenStream, outputter: &TokenStream, format: &str, unit: TimeUnit)
    ensures
        tokens(*final(ts)) == tokens(*old(ts)) + report_statement(
            tokens(*outputter),
            format@,
            unit,
        ),
{
    proof {
        reveal_strlit("now");
        reveal_strlit("elapsed");
    }
    let t_formatter = unit.quote();
    let v_now = injected_ident("now");
    let mut arguments = empty_stream();
    push_str_literal(&mut arguments, format);
    push_punct(&mut arguments, ',', Spacing::Alone);
    push_ident(&mut arguments, v_now.as_str());
    push_punct(&mut arguments, '.', Spacing::Alone);
    push_ident(&mut arguments, "elapsed");
    push_unit_call(&mut arguments);
    push_punct(&mut arguments, '.', Spacing::Alone);
    push_stream(&mut arguments, &t_formatter);
    assert(tokens(arguments) =~= report_arguments(format@, unit));
    push_stream(ts, outputter);
    push_group(ts, Delim::Parenthesis, arguments);
    push_punct(ts, ';', Spacing::Alone);
    assert(tokens(*ts) =~= tokens(*old(ts)) + report_statement(tokens(*outputter), format@, unit));
}

/// Appends the statement that returns the kept result.
fn push_return(ts: &mut TokenStream)
    ensures
        tokens(*final(ts)) == tokens(*old(ts)) + return_statement(),
{
    proof {
        reveal_strlit("return");
        reveal_strlit("result");
    }
    let v_result = injected_ident("result");
    push_ident(ts, "return");
    push_ident(ts, v_result.as_str());
    push_punct(ts, ';', Spacing::Alone);
    assert(tokens(*ts) =~= tokens(*old(ts)) + return_statement());
}

/// Synthesizes the replacement for a function from its parts, a validated
/// directive and the tokens that invoke the sink.
///
/// The attributes, the visibility and the signature are passed through as they
/// are; the statements are wrapped, not rewritten.
pub fn synthesize(directive: &Directive, parts: &FunctionParts, outputter: &TokenStream) -> (ts:
    TokenStream)
    ensures
        tokens(ts) == timed_function(parts.deep_view(), directive.deep_view(), tokens(*outputter)),
{
    let mut block = empty_stream();
    push_start(&mut block);
    push_run(&mut block, &parts.stmts);
    push_report(&mut block, outputter, directive.format.as_str(), directive.unit);
    push_return(&mut block);
    assert(tokens(block) =~= timed_body(
        parts.deep_view().stmts.flatten(),
        directive.deep_view(),
        tokens(*outputter),
    ));
    let mut ts = empty_stream();
    push_all(&mut ts, &parts.attrs);
    push_stream(&mut ts, &parts.vis);
    push_stream(&mut ts, &parts.sig);
    push_group(&mut ts, Delim::Brace, block);
    assert(tokens(ts) =~= timed_function(
        parts.deep_view(),
        directive.deep_view(),
        tokens(*outputter),
    ));
    ts
}

/// Transforms the item `body` as the directive `args` asks, reporting through
/// `outputter`: decomposes the item, validates the directive against the name of
/// the function, and synthesizes the replacement.
///
/// The result is fixed by what the inputs hold: it is the replacement that
/// [`transform`] describes, or the error that it names. An item that is not a
/// function is refused whatever the directive says. On a function, a directive of
/// more than two arguments is refused whatever they are; of one or two
/// arguments, a first that names no unit is refused; and after a unit, a second
/// that is no string literal. Every other input gives a replacement.
pub fn builder(args: &Vec<DirectiveArg>, body: &SourceItem, outputter: &TokenStream) -> (res:
    Result<TokenStream, TimerError>)
    ensures
        outcome(res) == transform(args.deep_view(), body.deep_view(), tokens(*outputter)),
        res == Err::<TokenStream, TimerError>(TimerError::UnsupportedTargetKind) <==> body is Other,
        res == Err::<TokenStream, TimerError>(TimerError::TooManyArguments) <==> body is Function
            && args.len() > 2,
        res == Err::<TokenStream, TimerError>(TimerError::InvalidTimeUnit) <==> body is Function
            && 1 <= args.len() <= 2 && unit_of_arg(args.deep_view()[0]) is None,
        res == Err::<TokenStream, TimerError>(TimerError::InvalidFormatLiteral) <==> body
            is Function && args.len() == 2 && unit_of_arg(args.deep_view()[0]) is Some
            && format_of_arg(args.deep_view()[1]) is None,
{
    let parts = match parse_body(body) {
        Ok(parts) => parts,
        Err(error) => {
            return Err(error);
        },
    };
    let directive = match parse_args(args, parts.name.as_str()) {
        Ok(directive) => directive,
        Err(error) => {
            return Err(error);
        },
    };
    Ok(synthesize(&directive, parts, outputter))
}

/// Synthesis is reproducible: two runs on directives, parts and sinks that hold
/// the same give the same tokens in the same order.
pub proof fn synthesis_is_reproducible(
    directive1: Directive,
    parts1: FunctionParts,
    outputter1: TokenStream,
    ts1: TokenStream,
    directive2: Directive,
    parts2: FunctionParts,
    outputter2: TokenStream,
    ts2: TokenStream,
)
    requires
        directive1.deep_view() == directive2.deep_view(),
        parts1.deep_view() == parts2.deep_view(),
        tokens(outputter1) == tokens(outputter2),
        tokens(ts1) == timed_function(
            parts1.deep_view(),
            directive1.deep_view(),
            tokens(outputter1),
        ),
        tokens(ts2) == timed_function(
            parts2.deep_view(),
            directive2.deep_view(),
            tokens(outputter2),
        ),
    ensures
        tokens(ts1) == tokens(ts2),
{
}

/// The whole transformation is reproducible: two runs on directives, items and
/// sinks that hold the same both give the same tokens, or both fail with the same
/// error.
pub proof fn transformation_is_reproducible(
    args1: Vec<DirectiveArg>,
    body1: SourceItem,
    outputter1: TokenStream,
    res1: Result<TokenStream, TimerError>,
    args2: Vec<DirectiveArg>,
    body2: SourceItem,
    outputter2: TokenStream,
    res2: Result<TokenStream, TimerError>,
)
    requires
        args1.deep_view() == args2.deep_view(),
        body1.deep_view() == body2.deep_view(),
        tokens(outputter1) == tokens(outputter2),
        outcome(res1) == transform(args1.deep_view(), body1.deep_view(), tokens(outputter1)),
        outcome(res2) == transform(args2.deep_view(), body2.deep_view(), tokens(outputter2)),
    ensures
        res1 matches Ok(ts1) ==> res2 matches Ok(ts2) && tokens(ts1) == tokens(ts2),
        res1 matches Err(error) ==> res2 == Err::<TokenStream, TimerError>(error),
{
}

/// Without an explicit template the report is made with the default one: on a
/// function named `f`, a directive that gives only the unit, or nothing at all,
/// makes the replacement hand the sink the literal `"fn:f cost {}"` followed by
/// the short name of the unit, milliseconds where none is given.
pub proof fn default_format_is_reported(
    args: Seq<ArgView>,
    parts: PartsView,
    sink: Seq<Token>,
    unit: TimeUnit,
)
    requires
        args.len() == 0 && unit == TimeUnit::MS || args.len() == 1 && unit_of_arg(args[0]) == Some(
            unit,
        ),
    ensures
        ({
            let format = "fn:"@ + parts.name + " cost {}"@ + unit.short_name();
            &&& transform(args, ItemView::Function(parts), sink) == Ok::<Seq<Token>, TimerError>(
                timed_function(parts, DirectiveView { unit, format }, sink),
            )
            &&& report_arguments(format, unit)[0] == Token::Str(format)
        }),
{
}

/// The replacement keeps the declaration: its tokens are the attributes, the
/// visibility and the signature of the function, each as it was and in this
/// order, followed by one group in braces, the new body.
pub proof fn replacement_keeps_declaration(
    parts: PartsView,
    directive: DirectiveView,
    sink: Seq<Token>,
)
    ensures
        ({
            let out = timed_function(parts, directive, sink);
            let head = parts.attrs.flatten() + parts.vis + parts.sig;
            &&& out.len() == head.len() + 1
            &&& out.subrange(0, head.len() as int) == head
            &&& out.last() == braces(timed_body(parts.stmts.flatten(), directive, sink))
        }),
{
    let out = timed_function(parts, directive, sink);
    let head = parts.attrs.flatten() + parts.vis + parts.sig;
    assert(out.subrange(0, head.len() as int) =~= head);
}

/// The two injected variables have different names, and each name is a single
/// plain word that ends in the fixed suffix.
pub proof fn injected_names_are_distinct_words()
    ensures
        now_name() != result_name(),
        is_word(now_name()),
        is_word(result_name()),
        now_name().subrange(now_name().len() - UID_SUFFIX@.len(), now_name().len() as int)
            == UID_SUFFIX@,
        result_name().subrange(
            result_name().len() - UID_SUFFIX@.len(),
            result_name().len() as int,
        ) == UID_SUFFIX@,
{
    reveal_strlit("now");
    reveal_strlit("result");
    reveal_strlit("_");
    uid_suffix_is_plain();
    assert(now_name().len() != result_name().len());
    assert(now_name().subrange(now_name().len() - UID_SUFFIX@.len(), now_name().len() as int)
        =~= UID_SUFFIX@);
    assert(result_name().subrange(
        result_name().len() - UID_SUFFIX@.len(),
        result_name().len() as int,
    ) =~= UID_SUFFIX@);
}

} // verus!
