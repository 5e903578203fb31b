//! The annotated item, and the parts of a function that the transformation keeps.

use crate::error::TimerError;
use crate::tokens::{tokens, Token};
use proc_macro2::TokenStream;
use vstd::prelude::*;

verus! {

/// A function declaration, split into the parts that are passed through and the
/// body that is wrapped. Each part is kept as the tokens it was written with.
#[derive(Debug)]
pub struct FunctionParts {
    /// The attributes on the function, in their order.
    pub attrs: Vec<TokenStream>,
    /// The visibility marker; empty where the function has none.
    pub vis: TokenStream,
    /// The signature: from `fn`, or the qualifiers before it, to the return type.
    pub sig: TokenStream,
    /// The name of the function, as the signature declares it.
    pub name: String,
    /// The statements of the body, in their order.
    pub stmts: Vec<TokenStream>,
}

/// The mathematical form of a [`FunctionParts`]: each part as the tokens it
/// holds.
pub struct PartsView {
    /// The tokens of each attribute.
    pub attrs: Seq<Seq<Token>>,
    /// The tokens of the visibility marker.
    pub vis: Seq<Token>,
    /// The tokens of the signature.
    pub sig: Seq<Token>,
    /// The characters of the name.
    pub name: Seq<char>,
    /// The tokens of each statement.
    pub stmts: Seq<Seq<Token>>,
}

/// The tokens of each stream of a list.
pub open spec fn token_lists(streams: Seq<TokenStream>) -> Seq<Seq<Token>> {
    Seq::new(streams.len(), |i: int| tokens(streams[i]))
}

impl DeepView for FunctionParts {
    type V = PartsView;

    open spec fn deep_view(&self) -> PartsView {
        PartsView {
            attrs: token_lists(self.attrs@),
            vis: tokens(self.vis),
            sig: tokens(self.sig),
            name: self.name@,
            stmts: token_lists(self.stmts@),
        }
    }
}

/// The item that a directive is attached to.
#[derive(Debug)]
pub enum SourceItem {
    /// A function declaration.
    Function(FunctionParts),
    /// Any other construct: a struct, a module, a constant and so on.
    Other,
}

/// The mathematical form of a [`SourceItem`].
pub enum ItemView {
    /// A function declaration, by its parts.
    Function(PartsView),
    /// Any other construct.
    Other,
}

impl DeepView for SourceItem {
    type V = ItemView;

    open spec fn deep_view(&self) -> ItemView {
        match *self {
            SourceItem::Function(parts) => ItemView::Function(parts.deep_view()),
            SourceItem::Other => ItemView::Other,
        }
    }
}

/// Checks that the annotated item is a function and hands out its parts as they
/// are. Any other construct is refused.
pub fn parse_body(body: &SourceItem) -> (res: Result<&FunctionParts, TimerError>)
    ensures
        match *body {
            SourceItem::Function(parts) => res == Ok::<&FunctionParts, TimerError>(&parts),
            SourceItem::Other => res == Err::<&FunctionParts, TimerError>(
                TimerError::UnsupportedTargetKind,
            ),
        },
{
    match body {
        SourceItem::Function(parts) => Ok(parts),
        SourceItem::Other => Err(TimerError::UnsupportedTargetKind),
    }
}

} // verus!
