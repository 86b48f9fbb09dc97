//! Source spans: opaque handles to a region of the source that was tokenized.
//!
//! A span can be merged with another and asked for the text it covers. Both
//! answers depend on whether the surrounding process still maps tokens back
//! to source, so nothing is known of them beforehand: callers handle
//! every outcome.

use proc_macro2::Span;
use vstd::prelude::*;

verus! {

#[verifier::external_type_specification]
#[verifier::external_body]
pub struct ExSpan(Span);

/// `Clone` for `Span`, which is a `Copy` type: the copy is the span itself.
pub assume_specification[ <Span as Clone>::clone ](span: &Span) -> (copy: Span)
    ensures
        copy == *span,
;

/// `Span::join`: a span that covers both arguments, where the process can
/// build one. Nothing is promised of the outcome.
#[verifier::external_body]
pub(crate) fn join(first: Span, second: Span) -> (joined: Option<Span>) {
    first.join(second)
}

/// `Span::source_text`: the source behind a span, where the process still has
/// it. Nothing is promised of the outcome.
#[verifier::external_body]
pub(crate) fn source_text(span: Span) -> (text: Option<String>) {
    span.source_text()
}

} // verus!
