//! A cursor over the token trees that a `syn` parse buffer has not handed out
//! yet.
//!
//! A parse buffer advances behind a shared reference, so a buffer that others
//! can reach may move at any time. [`TokenCursor`] therefore owns its buffer:
//! it is made from a buffer of its own, most often a fork of the stream being
//! parsed, and gives the buffer back when it is done. Every step takes
//! `&mut self`. A cursor is modelled by the sequence of token trees still
//! ahead of it.

use crate::stream::stored_whole;
use proc_macro2::TokenTree;
use syn::parse::ParseBuffer;
use vstd::prelude::*;

verus! {

#[verifier::external_type_specification]
#[verifier::external_body]
pub struct ExParseBuffer<'a>(ParseBuffer<'a>);

#[verifier::external_type_specification]
#[verifier::external_body]
pub struct ExSynError(syn::Error);

/// The token trees that a parse buffer has not handed out yet, in order.
pub uninterp spec fn unparsed(input: ParseBuffer) -> Seq<TokenTree>;

/// Whether `syn` sees a `<` at the front of `rest`.
pub uninterp spec fn tag_open_ahead(rest: Seq<TokenTree>) -> bool;

/// Whether `syn` sees a group in curly braces at the front of `rest`.
pub uninterp spec fn brace_ahead(rest: Seq<TokenTree>) -> bool;

/// Whether `syn` sees a string literal at the front of `rest`.
pub uninterp spec fn string_literal_ahead(rest: Seq<TokenTree>) -> bool;

/// The front of `rest` opens one of the recognized node forms: a tag, a
/// braced block or a quoted string.
pub open spec fn node_start(rest: Seq<TokenTree>) -> bool {
    tag_open_ahead(rest) || brace_ahead(rest) || string_literal_ahead(rest)
}

/// The cursor could not produce a token tree.
#[derive(Debug)]
pub struct ParseError {
    cause: syn::Error,
}

impl ParseError {
    /// The error as the parse buffer reported it, with its position.
    pub closed spec fn cause(&self) -> syn::Error {
        self.cause
    }

    /// Hands the underlying error back for reporting.
    pub fn into_inner(self) -> (cause: syn::Error)
        ensures
            cause == self.cause(),
    {
        self.cause
    }
}

/// A position in a buffered token stream, with the buffer that holds it.
pub struct TokenCursor<'a> {
    input: ParseBuffer<'a>,
}

impl<'a> View for TokenCursor<'a> {
    type V = Seq<TokenTree>;

    /// The token trees still ahead.
    closed spec fn view(&self) -> Seq<TokenTree> {
        unparsed(self.input)
    }
}

impl<'a> TokenCursor<'a> {
    /// A cursor at the position of `input`, which it takes over.
    pub fn new(input: ParseBuffer<'a>) -> (cursor: Self)
        ensures
            cursor@ == unparsed(input),
    {
        TokenCursor { input }
    }

    /// Gives the buffer back, at the position that the cursor reached.
    pub fn into_inner(self) -> (input: ParseBuffer<'a>)
        ensures
            unparsed(input) == self@,
    {
        self.input
    }

    /// `ParseBuffer::is_empty`: whether no token tree is left.
    #[verifier::external_body]
    fn at_end(&self) -> (empty: bool)
        ensures
            empty == (unparsed(self.input).len() == 0),
    {
        self.input.is_empty()
    }

    /// `ParseBuffer::peek` for the token `<`. The buffer does not move.
    #[verifier::external_body]
    fn peek_tag_open(&self) -> (found: bool)
        ensures
            found == tag_open_ahead(unparsed(self.input)),
    {
        self.input.peek(syn::token::Lt)
    }

    /// `ParseBuffer::peek` for a group in curly braces. The buffer does not
    /// move.
    #[verifier::external_body]
    fn peek_brace(&self) -> (found: bool)
        ensures
            found == brace_ahead(unparsed(self.input)),
    {
        self.input.peek(syn::token::Brace)
    }

    /// `ParseBuffer::peek` for a string literal. The buffer does not move.
    #[verifier::external_body]
    fn peek_string_literal(&self) -> (found: bool)
        ensures
            found == string_literal_ahead(unparsed(self.input)),
    {
        self.input.peek(syn::LitStr)
    }

    /// `ParseBuffer::parse::<TokenTree>`: hands out the next token tree and
    /// steps past it. It fails only where no token tree is left, and then
    /// leaves the buffer where it was. A buffer is filled from a stream, so
    /// what it hands out is a token tree that a stream held, and a stream
    /// stores such a token tree as it is.
    #[verifier::external_body]
    fn parse_token_tree(&mut self) -> (next: Result<TokenTree, syn::Error>)
        ensures
            unparsed(old(self).input).len() > 0 ==> next is Ok && next->Ok_0 == unparsed(
                old(self).input,
            )[0] && unparsed(final(self).input) == unparsed(old(self).input).skip(1),
            unparsed(old(self).input).len() == 0 ==> next is Err && unparsed(final(self).input)
                == unparsed(old(self).input),
            next is Ok ==> stored_whole(next->Ok_0),
    {
        self.input.parse::<TokenTree>()
    }

    /// Whether the input is exhausted.
    pub fn is_empty(&self) -> (empty: bool)
        ensures
            empty == (self@.len() == 0),
    {
        self.at_end()
    }

    /// Whether the next token opens a recognized node.
    pub fn at_node_start(&self) -> (found: bool)
        ensures
            found == node_start(self@),
    {
        self.peek_tag_open() || self.peek_brace() || self.peek_string_literal()
    }

    /// Consumes one token tree.
    ///
    /// Succeeds exactly when a token tree is left; on failure the cursor stays
    /// where it was. The token tree handed out is one that a stream stores as
    /// it is.
    pub fn next_token(&mut self) -> (next: Result<TokenTree, ParseError>)
        ensures
            old(self)@.len() > 0 ==> next is Ok && next->Ok_0 == old(self)@[0] && final(self)@
                == old(self)@.skip(1),
            old(self)@.len() == 0 ==> next is Err && final(self)@ == old(self)@,
            next is Ok ==> stored_whole(next->Ok_0),
    {
        match self.parse_token_tree() {
            Ok(token) => Ok(token),
            Err(cause) => Err(ParseError { cause }),
        }
    }
}

} // verus!
