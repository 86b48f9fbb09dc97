//! Raw text: the run of tokens between two recognized nodes, and the ways of
//! turning it back into a string.

use crate::cursor::node_start;
use crate::cursor::ParseError;
use crate::cursor::TokenCursor;
use crate::span::join;
use crate::span::source_text;
use crate::stream::canonical_text;
use crate::stream::empty_stream;
use crate::stream::push_token;
use crate::stream::span_of_token;
use crate::stream::stream_is_empty;
use crate::stream::stream_items;
use crate::stream::stream_span;
use crate::stream::stream_to_string;
use crate::stream::stream_tokens;
use crate::stream::token_span;
use crate::text::encloses;
use crate::text::first_available;
use crate::text::try_strip_context;
use crate::text::ContextMismatch;
use proc_macro2::Span;
use proc_macro2::TokenStream;
use proc_macro2::TokenTree;
use vstd::prelude::*;

verus! {

/// Raw unquoted text.
///
/// It owns the tokens that lie between two recognized nodes and, once the
/// enclosing container has seen all of its children, the spans of the two
/// neighbours, from which the text can be recovered with its whitespace.
#[derive(Clone, Debug)]
pub struct RawText {
    token_stream: TokenStream,
    // The span that ends just before the first token, and the one that starts
    // just after the last.
    context_span: Option<(Span, Span)>,
}

/// What a [`RawText`] stands for: its token trees and its two neighbours.
pub struct RawTextView {
    pub tokens: Seq<TokenTree>,
    pub context: Option<(Span, Span)>,
}

impl View for RawText {
    type V = RawTextView;

    closed spec fn view(&self) -> RawTextView {
        RawTextView { tokens: stream_items(self.token_stream), context: self.context_span }
    }
}

/// How many token trees at the front of `rest` are raw text: those before the
/// first position at which a node starts or the input ends.
pub open spec fn filler_len(rest: Seq<TokenTree>) -> nat
    decreases rest.len(),
{
    if rest.len() == 0 || node_start(rest) {
        0
    } else {
        1 + filler_len(rest.skip(1))
    }
}

impl RawText {
    /// The raw text over the tokens of `stream`, with no neighbours known.
    pub closed spec fn of_stream(stream: TokenStream) -> RawText {
        RawText { token_stream: stream, context_span: None }
    }

    /// This raw text with its neighbours set to `before` and `after`.
    pub closed spec fn with_context(self, before: Span, after: Span) -> RawText {
        RawText { token_stream: self.token_stream, context_span: Some((before, after)) }
    }

    /// Records the spans of the nodes right before and right after this text.
    pub fn set_tag_spans(&mut self, before: Span, after: Span)
        ensures
            *final(self) == old(self).with_context(before, after),
            final(self)@.tokens == old(self)@.tokens,
            final(self)@.context == Some((before, after)),
    {
        self.context_span = Some((before, after));
    }

    /// The tokens, rendered with default spacing.
    ///
    /// This always yields a string; an empty raw text yields the empty one.
    pub fn to_token_stream_string(&self) -> (text: String)
        ensures
            text@ == canonical_text(self@.tokens),
            self@.tokens.len() == 0 ==> text@.len() == 0,
    {
        stream_to_string(&self.token_stream)
    }

    /// Tries to recover the text as it was written.
    ///
    /// With `with_whitespaces`, the result is what lay between the two
    /// neighbours, whitespace and comments included; it needs the neighbours
    /// to be set. Without it, the result is the text of the tokens themselves;
    /// it needs at least one token. Either way `None` is returned where the
    /// process cannot map the spans back to source. Neighbours whose texts do
    /// not fit inside the text that covers them count as unavailable here;
    /// [`RawText::try_source_text`] tells them apart.
    pub fn to_source_text(&self, with_whitespaces: bool) -> (text: Option<String>)
        ensures
            with_whitespaces && self@.context is None ==> text is None,
            !with_whitespaces && self@.tokens.len() == 0 ==> text is None,
    {
        match self.try_source_text(with_whitespaces) {
            Ok(text) => text,
            Err(_) => None,
        }
    }

    /// Tries to recover the text as it was written, and reports neighbours
    /// that do not fit.
    ///
    /// `Ok` is as in [`RawText::to_source_text`]: the text, or `None` where it
    /// is unavailable. `Err` comes only with `with_whitespaces`, where the
    /// process gave the text of both neighbours and of the span that joins
    /// them, and the neighbours' texts do not open and close the joined text
    /// without overlapping. The error holds the three texts. A caller that
    /// treats this as a broken invariant stops here.
    pub fn try_source_text(&self, with_whitespaces: bool) -> (text: Result<
        Option<String>,
        ContextMismatch,
    >)
        ensures
            with_whitespaces && self@.context is None ==> text is Ok && text->Ok_0 is None,
            !with_whitespaces ==> text is Ok,
            !with_whitespaces && self@.tokens.len() == 0 ==> text->Ok_0 is None,
            text is Err ==> with_whitespaces && self@.context is Some && !encloses(
                text->Err_0.full@,
                text->Err_0.before@,
                text->Err_0.after@,
            ),
    {
        if with_whitespaces {
            let (start, end) = match self.context_span {
                Some(pair) => pair,
                None => {
                    return Ok(None);
                },
            };
            let full = match join(start, end) {
                Some(span) => span,
                None => {
                    return Ok(None);
                },
            };
            let full_text = match source_text(full) {
                Some(text) => text,
                None => {
                    return Ok(None);
                },
            };
            let start_text = match source_text(start) {
                Some(text) => text,
                None => {
                    return Ok(None);
                },
            };
            let end_text = match source_text(end) {
                Some(text) => text,
                None => {
                    return Ok(None);
                },
            };
            match try_strip_context(full_text.as_str(), start_text.as_str(), end_text.as_str()) {
                Ok(middle) => Ok(Some(middle)),
                Err(mismatch) => Err(mismatch),
            }
        } else {
            match self.join_spans() {
                Some(span) => Ok(source_text(span)),
                None => Ok(None),
            }
        }
    }

    /// One span over all tokens, or nothing.
    ///
    /// The spans of the tokens are joined one after another, in order. A
    /// single token needs no joining and gives its own span. With no tokens,
    /// or where a join is refused, there is no span.
    pub fn join_spans(&self) -> (joined: Option<Span>)
        ensures
            self@.tokens.len() == 0 ==> joined is None,
            self@.tokens.len() == 1 ==> joined == Some(token_span(self@.tokens[0])),
    {
        let tokens = stream_tokens(&self.token_stream);
        let mut span: Option<Span> = None;
        let mut i: usize = 0;
        while i < tokens.len()
            invariant
                i <= tokens.len(),
                tokens@ == self@.tokens,
                (i == 0) == (span is None),
                i == 1 ==> span == Some(token_span(tokens@[0])),
            decreases tokens.len() - i,
        {
            let next = span_of_token(&tokens[i]);
            let joined = match span {
                Some(so_far) => match join(so_far, next) {
                    Some(wider) => wider,
                    None => {
                        return None;
                    },
                },
                None => next,
            };
            span = Some(joined);
            i = i + 1;
        }
        span
    }

    /// Whether there are no tokens.
    pub fn is_empty(&self) -> (empty: bool)
        ensures
            empty == (self@.tokens.len() == 0),
    {
        stream_is_empty(&self.token_stream)
    }

    /// The best string available: the text between the neighbours if it can
    /// be recovered, else the text of the tokens if that can, else the
    /// default rendering.
    ///
    /// The three candidates have no effect besides their result, so all are
    /// computed and [`first_available`] chooses among them. A raw text with
    /// no tokens and no neighbours has only the last, which is empty.
    /// Neighbours whose texts do not fit count as unavailable here;
    /// [`RawText::try_string_best`] tells them apart.
    pub fn to_string_best(&self) -> (best: String)
        ensures
            self@.context is None && self@.tokens.len() == 0 ==> best@ == canonical_text(
                self@.tokens,
            ) && best@.len() == 0,
    {
        let exact = self.to_source_text(true);
        let own = self.to_source_text(false);
        let canonical = self.to_token_stream_string();
        first_available(exact, own, canonical)
    }

    /// The best string available, or the report of neighbours that do not
    /// fit.
    ///
    /// `Ok` is chosen as in [`RawText::to_string_best`]. `Err` is the error of
    /// [`RawText::try_source_text`] with whitespace, handed on: where the
    /// text between the neighbours is neither there nor unavailable, no
    /// lesser text takes its place.
    pub fn try_string_best(&self) -> (best: Result<String, ContextMismatch>)
        ensures
            self@.context is None ==> best is Ok,
            self@.context is None && self@.tokens.len() == 0 ==> best->Ok_0@ == canonical_text(
                self@.tokens,
            ) && best->Ok_0@.len() == 0,
            best is Err ==> self@.context is Some && !encloses(
                best->Err_0.full@,
                best->Err_0.before@,
                best->Err_0.after@,
            ),
    {
        let exact = match self.try_source_text(true) {
            Ok(text) => text,
            Err(mismatch) => {
                return Err(mismatch);
            },
        };
        let own = self.to_source_text(false);
        let canonical = self.to_token_stream_string();
        Ok(first_available(exact, own, canonical))
    }

    /// A span that stands for the whole raw text.
    ///
    /// A single token stands for itself. With more tokens the span is the
    /// join of the first and the last where the process can build one, and
    /// with none it is the call site; both are for the process to say.
    pub fn span(&self) -> (span: Span)
        ensures
            self@.tokens.len() == 1 ==> span == token_span(self@.tokens[0]),
    {
        stream_span(&self.token_stream)
    }

    /// The tokens.
    pub fn token_stream(&self) -> (stream: &TokenStream)
        ensures
            stream_items(*stream) == self@.tokens,
    {
        &self.token_stream
    }

    /// The neighbours, if they were set.
    pub fn context_span(&self) -> (context: Option<(Span, Span)>)
        ensures
            context == self@.context,
    {
        self.context_span
    }

    /// Reads raw text off the cursor: every token tree up to the first
    /// position at which a node starts or the input ends.
    ///
    /// The raw text holds exactly the token trees that the cursor moved past,
    /// in order. Reading nothing is fine and gives an empty raw text. The
    /// result has no neighbours yet.
    pub fn parse(cursor: &mut TokenCursor<'_>) -> (parsed: Result<RawText, ParseError>)
        ensures
            parsed is Ok,
            parsed->Ok_0@.context is None,
            parsed->Ok_0@.tokens == old(cursor)@.take(filler_len(old(cursor)@) as int),
            parsed->Ok_0@.tokens.len() == filler_len(old(cursor)@),
            final(cursor)@ == old(cursor)@.skip(filler_len(old(cursor)@) as int),
            parsed->Ok_0@.tokens + final(cursor)@ == old(cursor)@,
            final(cursor)@.len() == 0 || node_start(final(cursor)@),
            node_start(old(cursor)@) ==> parsed->Ok_0@.tokens.len() == 0 && final(cursor)@ == old(
                cursor,
            )@,
            old(cursor)@.len() > 0 && !node_start(old(cursor)@) ==> parsed->Ok_0@.tokens.len() > 0,
    {
        let mut token_stream = empty_stream();
        let ghost mut taken: int = 0;
        proof {
            lemma_filler_is_maximal(cursor@);
            assert(stream_items(token_stream) =~= cursor@.take(0));
        }
        while !cursor.at_node_start() && !cursor.is_empty()
            invariant
                0 <= taken <= old(cursor)@.len(),
                cursor@ == old(cursor)@.skip(taken),
                taken + filler_len(cursor@) == filler_len(old(cursor)@),
                stream_items(token_stream) == old(cursor)@.take(taken),
            decreases cursor@.len(),
        {
            let ghost rest = cursor@;
            let token = match cursor.next_token() {
                Ok(token) => token,
                Err(error) => {
                    return Err(error);
                },
            };
            push_token(&mut token_stream, token);
            proof {
                let all = old(cursor)@;
                assert(token == all[taken]);
                assert(all.take(taken) + seq![token] =~= all.take(taken + 1));
                assert(rest.skip(1) =~= all.skip(taken + 1));
                taken = taken + 1;
            }
        }
        proof {
            let all = old(cursor)@;
            assert(all.skip(0) =~= all);
            assert(all.take(taken) + all.skip(taken) =~= all);
        }
        Ok(RawText { token_stream, context_span: None })
    }
}

impl From<TokenStream> for RawText {
    /// Raw text over tokens that were not read off a cursor.
    fn from(token_stream: TokenStream) -> (raw: Self) {
        RawText { token_stream, context_span: None }
    }
}

impl vstd::std_specs::convert::FromSpecImpl<TokenStream> for RawText {
    open spec fn obeys_from_spec() -> bool {
        true
    }

    open spec fn from_spec(token_stream: TokenStream) -> Self {
        RawText::of_stream(token_stream)
    }
}

impl Default for RawText {
    /// The raw text with no tokens and no neighbours.
    fn default() -> (raw: Self)
        ensures
            raw@.tokens.len() == 0,
            raw@.context is None,
    {
        RawText { token_stream: empty_stream(), context_span: None }
    }
}

/// Raw text is a maximal run. Where tokens are left and the first of them
/// starts no node, at least one token is raw text. The run ends at the first
/// position at which a node starts, or at the end of the input if there is no
/// such position: no node starts at any position inside the run. Right
/// after the run there is no further raw text, so two raw texts never follow
/// one another.
pub proof fn lemma_filler_is_maximal(rest: Seq<TokenTree>)
    ensures
        filler_len(rest) <= rest.len(),
        rest.len() > 0 && !node_start(rest) ==> filler_len(rest) >= 1,
        filler_len(rest) == rest.len() || node_start(rest.skip(filler_len(rest) as int)),
        forall|i: int| 0 <= i < filler_len(rest) ==> !node_start(#[trigger] rest.skip(i)),
        filler_len(rest.skip(filler_len(rest) as int)) == 0,
    decreases rest.len(),
{
    if rest.len() == 0 || node_start(rest) {
        assert(rest.skip(0) =~= rest);
    } else {
        let tail = rest.skip(1);
        lemma_filler_is_maximal(tail);
        let n = filler_len(tail) as int;
        assert(tail.skip(n) =~= rest.skip(n + 1));
        assert forall|i: int| 0 <= i < filler_len(rest) implies !node_start(
            #[trigger] rest.skip(i),
        ) by {
            if i == 0 {
                assert(rest.skip(0) =~= rest);
            } else {
                assert(tail.skip(i - 1) =~= rest.skip(i));
            }
        }
    }
}

/// The raw text ends at the first position at which a node starts or the
/// input ends, and nowhere else: a position `end` with no node start before
/// it, which is the end of the input or a node start itself, is where the raw
/// text ends. Without any node start, all of the input is raw text.
pub proof fn lemma_filler_ends_at(rest: Seq<TokenTree>, end: int)
    requires
        0 <= end <= rest.len(),
        forall|i: int| 0 <= i < end ==> !node_start(#[trigger] rest.skip(i)),
        end == rest.len() || node_start(rest.skip(end)),
    ensures
        filler_len(rest) == end,
        rest.take(filler_len(rest) as int) == rest.take(end),
        end == rest.len() ==> rest.take(filler_len(rest) as int) == rest,
    decreases rest.len(),
{
    assert(rest.skip(0) =~= rest);
    if end > 0 {
        let tail = rest.skip(1);
        assert forall|i: int| 0 <= i < end - 1 implies !node_start(#[trigger] tail.skip(i)) by {
            assert(tail.skip(i) =~= rest.skip(i + 1));
        }
        assert(tail.skip(end - 1) =~= rest.skip(end));
        lemma_filler_ends_at(tail, end - 1);
    }
    if end == rest.len() {
        assert(rest.take(end) =~= rest);
    }
}

/// Where a node starts right at the front, there is no raw text: nothing is
/// consumed and nothing is held.
pub proof fn lemma_node_start_gives_empty_text(rest: Seq<TokenTree>)
    requires
        node_start(rest),
    ensures
        filler_len(rest) == 0,
        rest.take(0).len() == 0,
        rest.skip(0) == rest,
{
    assert(rest.skip(0) =~= rest);
}

/// A raw text made from a stream holds the stream's token trees and has no
/// neighbours.
pub proof fn lemma_of_stream_view(stream: TokenStream)
    ensures
        RawText::of_stream(stream)@ == (RawTextView {
            tokens: stream_items(stream),
            context: None,
        }),
{
}

/// Setting the neighbours changes nothing else.
pub proof fn lemma_with_context_view(raw: RawText, before: Span, after: Span)
    ensures
        raw.with_context(before, after)@ == (RawTextView {
            tokens: raw@.tokens,
            context: Some((before, after)),
        }),
{
}

} // verus!
