//! The token streams of `proc_macro2`, and what the crate assumes of them.
//!
//! A stream is kept as the opaque value that `proc_macro2` hands out, so that
//! tokens taken from a caller keep their source locations. Contracts speak of a
//! stream through [`tokens`], the sequence of token trees it holds.
//!
//! Nothing in this file is proved. The functions at its end call `proc_macro2`
//! and `quote`, and their contracts say what those crates do to the tokens of a
//! stream; everything else in the crate is verified against these contracts.

use proc_macro2::{Delimiter, Group, Ident, Punct, Span, TokenStream};
use quote::{ToTokens, TokenStreamExt};
use vstd::prelude::*;

verus! {

/// `proc_macro2::TokenStream`, carried as an opaque value.
#[verifier::external_type_specification]
#[verifier::external_body]
pub struct ExTokenStream(TokenStream);

/// How a group of tokens is delimited.
#[derive(Clone, Copy, Debug, PartialEq, Eq, Structural)]
pub enum Delim {
    /// `( ... )`
    Parenthesis,
    /// `{ ... }`
    Brace,
    /// `[ ... ]`
    Bracket,
    /// No visible delimiter.
    Invisible,
}

/// Whether a punctuation character is followed immediately by another one.
#[derive(Clone, Copy, Debug, PartialEq, Eq, Structural)]
pub enum Spacing {
    /// The next token is no part of the same operator.
    Alone,
    /// The next punctuation character continues the operator, as the first `:` of `::`.
    Joint,
}

/// One token tree of a stream, without its source location: what
/// `proc_macro2::TokenTree` holds, but for the span.
pub enum Token {
    /// A word: an identifier or a keyword, by its text.
    Ident(Seq<char>),
    /// A punctuation character and its spacing.
    Punct(char, Spacing),
    /// A plain string literal `"..."`, by the text it denotes: the characters
    /// between the quotes, with every escape resolved.
    Str(Seq<char>),
    /// Any other literal, such as a number, a character or a raw string, by its
    /// source text.
    Literal(Seq<char>),
    /// A delimited group and the tokens inside it.
    Group(Delim, Seq<Token>),
}

/// The token trees that a stream holds, in their order, each without its span.
pub uninterp spec fn tokens(ts: TokenStream) -> Seq<Token>;

/// A character that may begin a plain word.
pub open spec fn is_word_start(c: char) -> bool {
    ('a' <= c && c <= 'z') || ('A' <= c && c <= 'Z') || c == '_'
}

/// A character that may continue a plain word.
pub open spec fn is_word_char(c: char) -> bool {
    is_word_start(c) || ('0' <= c && c <= '9')
}

/// Text that is one identifier or keyword to every Rust lexer: a letter of ASCII
/// or `_`, followed by letters of ASCII, digits and `_`.
pub open spec fn is_word(s: Seq<char>) -> bool {
    &&& s.len() > 0
    &&& is_word_start(s[0])
    &&& forall|i: int| 0 <= i < s.len() ==> is_word_char(#[trigger] s[i])
}

/// The punctuation characters of the language, which are those that
/// `proc_macro2::Punct::new` accepts.
pub open spec fn is_punct_char(c: char) -> bool {
    c == '!' || c == '#' || c == '$' || c == '%' || c == '&' || c == '\'' || c == '*' || c == '+'
        || c == ',' || c == '-' || c == '.' || c == '/' || c == ':' || c == ';' || c == '<'
        || c == '=' || c == '>' || c == '?' || c == '@' || c == '^' || c == '|' || c == '~'
}

/// `proc_macro2::TokenStream::new`: a stream that holds no token.
#[verifier::external_body]
pub(crate) fn empty_stream() -> (ts: TokenStream)
    ensures
        tokens(ts) == Seq::<Token>::empty(),
{
    TokenStream::new()
}

/// `proc_macro2::Ident::new` with the span of the call site, appended by
/// `quote::TokenStreamExt::append`: the stream gains one word at its end and is
/// otherwise unchanged. `Ident::new` panics on text that is no identifier; a
/// plain word always is one.
#[verifier::external_body]
pub(crate) fn push_ident(ts: &mut TokenStream, word: &str)
    requires
        is_word(word@),
    ensures
        tokens(*final(ts)) == tokens(*old(ts)).push(Token::Ident(word@)),
{
    ts.append(Ident::new(word, Span::call_site()));
}

/// `proc_macro2::Punct::new`, appended by `quote::TokenStreamExt::append`: the
/// stream gains one punctuation character at its end and is otherwise unchanged.
/// `Punct::new` panics on any character outside the language's punctuation.
#[verifier::external_body]
pub(crate) fn push_punct(ts: &mut TokenStream, ch: char, spacing: Spacing)
    requires
        is_punct_char(ch),
    ensures
        tokens(*final(ts)) == tokens(*old(ts)).push(Token::Punct(ch, spacing)),
{
    ts.append(Punct::new(ch, match spacing {
        Spacing::Alone => proc_macro2::Spacing::Alone,
        Spacing::Joint => proc_macro2::Spacing::Joint,
    }));
}

/// `quote::ToTokens::to_tokens` of a `str`, which appends
/// `proc_macro2::Literal::string` of it: the stream gains, at its end, one string
/// literal that denotes the text, and is otherwise unchanged.
#[verifier::external_body]
pub(crate) fn push_str_literal(ts: &mut TokenStream, text: &str)
    ensures
        tokens(*final(ts)) == tokens(*old(ts)).push(Token::Str(text@)),
{
    text.to_tokens(ts);
}

/// `proc_macro2::Group::new`, appended by `quote::TokenStreamExt::append`: the
/// stream gains one group at its end, which holds the tokens of `inner` inside
/// the delimiter, and is otherwise unchanged.
#[verifier::external_body]
pub(crate) fn push_group(ts: &mut TokenStream, delim: Delim, inner: TokenStream)
    ensures
        tokens(*final(ts)) == tokens(*old(ts)).push(Token::Group(delim, tokens(inner))),
{
    ts.append(Group::new(match delim {
        Delim::Parenthesis => Delimiter::Parenthesis,
        Delim::Brace => Delimiter::Brace,
        Delim::Bracket => Delimiter::Bracket,
        Delim::Invisible => Delimiter::None,
    }, inner));
}

/// `quote::ToTokens::to_tokens` of a `TokenStream`, which extends the target by a
/// clone of it: the stream gains the tokens of `other` at its end, in their
/// order, and is otherwise unchanged.
#[verifier::external_body]
pub(crate) fn push_stream(ts: &mut TokenStream, other: &TokenStream)
    ensures
        tokens(*final(ts)) == tokens(*old(ts)) + tokens(*other),
{
    other.to_tokens(ts);
}

} // verus!
