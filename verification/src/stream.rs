//! Token streams and the facts about them that the rest of the crate relies
//! on.
//!
//! A stream is modelled by the sequence of token trees it holds,
//! [`stream_items`]. The functions below are thin calls into `proc_macro2` and
//! `syn`; their contracts are taken on trust.

use proc_macro2::Span;
use proc_macro2::TokenStream;
use proc_macro2::TokenTree;
use vstd::prelude::*;

verus! {

#[verifier::external_type_specification]
#[verifier::external_body]
pub struct ExTokenStream(TokenStream);

#[verifier::external_type_specification]
#[verifier::external_body]
pub struct ExTokenTree(TokenTree);

/// The token trees that a stream holds, in order.
pub uninterp spec fn stream_items(stream: TokenStream) -> Seq<TokenTree>;

/// The default-spacing rendering of a sequence of token trees, as
/// `TokenStream`'s `Display` writes it.
pub uninterp spec fn canonical_text(items: Seq<TokenTree>) -> Seq<char>;

/// The span that a token tree carries.
pub uninterp spec fn token_span(token: TokenTree) -> Span;

/// The token trees that a stream gains when it is extended with `token`.
///
/// This is the token itself, except that a stream built outside a compiler
/// session keeps a negative literal as a minus sign followed by the magnitude.
pub uninterp spec fn stored_form(token: TokenTree) -> Seq<TokenTree>;

/// Extending a stream with `token` stores the token as it is. This holds of
/// every token tree that a stream holds: a negative literal is split on its
/// way in and the lexer makes none, so no stream ever holds one.
pub open spec fn stored_whole(token: TokenTree) -> bool {
    stored_form(token) == seq![token]
}

/// `Clone` for `TokenStream`: the copy holds the same token trees.
pub assume_specification[ <TokenStream as Clone>::clone ](stream: &TokenStream) -> (copy:
    TokenStream)
    ensures
        stream_items(copy) == stream_items(*stream),
;

/// `TokenStream::new`: a stream without token trees.
#[verifier::external_body]
pub(crate) fn empty_stream() -> (stream: TokenStream)
    ensures
        stream_items(stream).len() == 0,
{
    TokenStream::new()
}

/// `TokenStream::is_empty`: whether the stream holds no token tree.
#[verifier::external_body]
pub(crate) fn stream_is_empty(stream: &TokenStream) -> (empty: bool)
    ensures
        empty == (stream_items(*stream).len() == 0),
{
    stream.is_empty()
}

/// `TokenStream`'s `Display`, through `to_string`: the default-spacing
/// rendering of the stream's token trees. A stream without token trees is
/// written as the empty string.
#[verifier::external_body]
pub(crate) fn stream_to_string(stream: &TokenStream) -> (text: String)
    ensures
        text@ == canonical_text(stream_items(*stream)),
        stream_items(*stream).len() == 0 ==> text@.len() == 0,
{
    stream.to_string()
}

/// `TokenStream::into_iter` on a copy of the stream: its token trees, in
/// order. Each of them is one that a stream stores as it is.
#[verifier::external_body]
pub(crate) fn stream_tokens(stream: &TokenStream) -> (tokens: Vec<TokenTree>)
    ensures
        tokens@ == stream_items(*stream),
        forall|i: int| 0 <= i < tokens@.len() ==> stored_whole(#[trigger] tokens@[i]),
{
    stream.clone().into_iter().collect()
}

/// `TokenTree::span`: the span stored in the token tree.
#[verifier::external_body]
pub(crate) fn span_of_token(token: &TokenTree) -> (span: Span)
    ensures
        span == token_span(*token),
{
    token.span()
}

/// `Extend<TokenTree>` for `TokenStream`, with one token tree: what the stream
/// held stays in front, and the stored form of `token`, which is never empty,
/// follows. Stream and token have to come from the same side, the compiler or
/// this process: `proc_macro2` does not mix the two.
#[verifier::external_body]
pub(crate) fn push_token(stream: &mut TokenStream, token: TokenTree)
    ensures
        stream_items(*final(stream)) == stream_items(*old(stream)) + stored_form(token),
        stream_items(*final(stream)).len() > stream_items(*old(stream)).len(),
{
    stream.extend([token]);
}

/// `syn::spanned::Spanned::span` on a stream: a span standing for all of its
/// token trees. A stream of one token tree is given the span of that token
/// tree. A longer one is given the join of its first and last span, or the
/// first span where that join is refused, and an empty one the call site, so
/// nothing is promised of those.
#[verifier::external_body]
pub(crate) fn stream_span(stream: &TokenStream) -> (span: Span)
    ensures
        stream_items(*stream).len() == 1 ==> span == token_span(stream_items(*stream)[0]),
{
    syn::spanned::Spanned::span(stream)
}

} // verus!
