//! The children of one container, and the assignment of neighbours to the raw
//! text among them.

use crate::raw_text::RawText;
use crate::stream::token_span;
use proc_macro2::Span;
use vstd::prelude::*;

verus! {

/// One child of a container.
///
/// The grammar of the recognized forms lives elsewhere; here each of them is
/// known by the span that stands for it.
#[derive(Clone, Debug)]
pub enum Node {
    /// A tag with its attributes and children.
    Element(Span),
    /// An expression in curly braces.
    Block(Span),
    /// A quoted string.
    Text(Span),
    /// Unquoted text.
    RawText(RawText),
    /// A form that the embedding application added.
    Custom(Span),
}

impl Node {
    /// The span of the node where it is known beforehand: the one that a
    /// recognized form carries, or the span of the only token of a raw text.
    /// The span of any other raw text is for the process to say.
    pub open spec fn own_span(self) -> Option<Span> {
        match self {
            Node::Element(span) => Some(span),
            Node::Block(span) => Some(span),
            Node::Text(span) => Some(span),
            Node::RawText(text) => if text@.tokens.len() == 1 {
                Some(token_span(text@.tokens[0]))
            } else {
                None
            },
            Node::Custom(span) => Some(span),
        }
    }

    /// This node after its neighbours were found to be `before` and `after`:
    /// raw text records them, anything else stays as it is.
    pub open spec fn in_window(self, before: Span, after: Span) -> Node {
        match self {
            Node::RawText(text) => Node::RawText(text.with_context(before, after)),
            other => other,
        }
    }

    /// A span that stands for the node.
    pub fn span(&self) -> (span: Span)
        ensures
            self.own_span() matches Some(own) ==> span == own,
    {
        match self {
            Node::Element(span) => *span,
            Node::Block(span) => *span,
            Node::Text(span) => *span,
            Node::RawText(text) => text.span(),
            Node::Custom(span) => *span,
        }
    }
}

/// `spans` is a boundary list of `children` inside a container whose opening
/// delimiter ends at `open_tag_end` and whose closing delimiter, if it has
/// one, starts at `close_tag_start`: the opening boundary, one span for each
/// child, then the closing boundary.
pub open spec fn boundaries(
    spans: Seq<Span>,
    open_tag_end: Span,
    close_tag_start: Option<Span>,
    children: Seq<Node>,
) -> bool {
    &&& spans.len() == children.len() + 1 + if close_tag_start is Some {
        1int
    } else {
        0int
    }
    &&& spans[0] == open_tag_end
    &&& forall|i: int|
        0 <= i < children.len() ==> ((#[trigger] children[i]).own_span() matches Some(own)
            ==> spans[i + 1] == own)
    &&& close_tag_start matches Some(close) ==> spans[children.len() as int + 1] == close
}

/// The children after each of them was shown the window of three boundaries
/// around it: child `i` sits at `spans[i + 1]`, between `spans[i]` and
/// `spans[i + 2]`. A child without a full window stays as it is.
pub open spec fn windowed(spans: Seq<Span>, children: Seq<Node>) -> Seq<Node> {
    Seq::new(
        children.len(),
        |i: int|
            if i + 2 < spans.len() {
                children[i].in_window(spans[i], spans[i + 2])
            } else {
                children[i]
            },
    )
}

/// The boundary list of `children`: the end of the opening delimiter, the
/// span of each child, and the start of the closing delimiter if there is
/// one.
pub fn boundary_spans(
    open_tag_end: Span,
    close_tag_start: Option<Span>,
    children: &Vec<Node>,
) -> (spans: Vec<Span>)
    ensures
        boundaries(spans@, open_tag_end, close_tag_start, children@),
{
    let mut spans: Vec<Span> = Vec::new();
    spans.push(open_tag_end);
    let mut i: usize = 0;
    while i < children.len()
        invariant
            i <= children.len(),
            spans@.len() == i + 1,
            spans@[0] == open_tag_end,
            forall|j: int|
                0 <= j < i ==> ((#[trigger] children@[j]).own_span() matches Some(own)
                    ==> spans@[j + 1] == own),
        decreases children.len() - i,
    {
        spans.push(children[i].span());
        i = i + 1;
    }
    match close_tag_start {
        Some(close) => {
            spans.push(close);
        },
        None => {},
    }
    spans
}

/// Gives each raw text among `children` the boundaries on either side of it
/// in `spans`.
pub fn set_windows(spans: &Vec<Span>, children: Vec<Node>) -> (result: Vec<Node>)
    ensures
        result@ == windowed(spans@, children@),
{
    let mut children = children;
    let ghost given = children@;
    // Child `i` has a full window when `i + 2` is a position of `spans`.
    let windows: usize = if spans.len() >= 2 {
        spans.len() - 2
    } else {
        0
    };
    let mut i: usize = 0;
    while i < children.len() && i < windows
        invariant
            i <= children.len(),
            spans@.len() <= usize::MAX,
            windows == if spans@.len() >= 2 {
                spans@.len() - 2
            } else {
                0
            },
            children@.len() == given.len(),
            forall|j: int| 0 <= j < i ==> children@[j] == windowed(spans@, given)[j],
            forall|j: int| i <= j < given.len() ==> children@[j] == given[j],
        decreases children.len() - i,
    {
        let before_span = spans[i];
        let after_span = spans[i + 2];
        match &mut children[i] {
            Node::RawText(text) => {
                text.set_tag_spans(before_span, after_span);
            },
            _ => {},
        }
        i = i + 1;
    }
    assert(children@ =~= windowed(spans@, given));
    children
}

/// No two raw texts are neighbours.
pub open spec fn no_adjacent_raw_text(children: Seq<Node>) -> bool {
    forall|i: int|
        #![trigger children[i]]
        0 <= i < children.len() - 1 ==> !(children[i] is RawText && children[i + 1] is RawText)
}

/// Whether no two raw texts among `children` are neighbours.
pub fn check_no_adjacent_raw_text(children: &Vec<Node>) -> (holds: bool)
    ensures
        holds == no_adjacent_raw_text(children@),
{
    let mut i: usize = 1;
    while i < children.len()
        invariant
            1 <= i,
            forall|j: int|
                #![trigger children@[j]]
                0 <= j < i - 1 ==> !(children@[j] is RawText && children@[j + 1] is RawText),
        decreases children.len() - i,
    {
        let left = matches!(children[i - 1], Node::RawText(_));
        let right = matches!(children[i], Node::RawText(_));
        if left && right {
            assert(children@[i - 1] is RawText && children@[i - 1 + 1] is RawText);
            return false;
        }
        i = i + 1;
    }
    true
}

/// The first child looks back at the end of the opening delimiter, and the
/// last child looks ahead at the start of the closing delimiter when there is
/// one.
pub proof fn lemma_outer_windows(
    spans: Seq<Span>,
    open_tag_end: Span,
    close_tag_start: Option<Span>,
    children: Seq<Node>,
)
    requires
        boundaries(spans, open_tag_end, close_tag_start, children),
        children.len() > 0,
    ensures
        spans.len() > 2 ==> windowed(spans, children)[0] == children[0].in_window(
            open_tag_end,
            spans[2],
        ),
        close_tag_start matches Some(close) ==> windowed(spans, children).last()
            == children.last().in_window(spans[children.len() - 1], close),
{
}

/// Where no two raw texts are neighbours, the spans computed for raw text
/// reach no window that matters: the outcome is fixed by the two delimiters
/// and by the spans that the other children carry.
pub proof fn lemma_windows_are_determined(
    first: Seq<Span>,
    second: Seq<Span>,
    open_tag_end: Span,
    close_tag_start: Option<Span>,
    children: Seq<Node>,
)
    requires
        boundaries(first, open_tag_end, close_tag_start, children),
        boundaries(second, open_tag_end, close_tag_start, children),
        no_adjacent_raw_text(children),
    ensures
        windowed(first, children) == windowed(second, children),
{
    assert forall|i: int| 0 <= i < children.len() implies windowed(first, children)[i]
        == windowed(second, children)[i] by {
        if children[i] is RawText && i + 2 < first.len() {
            if i > 0 {
                assert(!(children[i - 1] is RawText && children[i - 1 + 1] is RawText));
                assert(children[i - 1].own_span() is Some);
            }
            if i + 1 < children.len() {
                assert(!(children[i] is RawText && children[i + 1] is RawText));
                assert(children[i + 1].own_span() is Some);
            }
        }
    }
    assert(windowed(first, children) =~= windowed(second, children));
}

impl RawText {
    /// Tells every raw text among the children of a container what lies right
    /// before and right after it.
    ///
    /// The boundary list is the end of the opening delimiter, the span of
    /// each child, and the start of the closing delimiter if there is one.
    /// Child `i` is at position `i + 1` of that list and receives the entries
    /// at `i` and `i + 2`. Where the list ends before `i + 2`, as for the last
    /// child of a container without closing delimiter, the child is left as
    /// it is, and so is every child that is not raw text.
    pub fn vec_set_context(
        open_tag_end: Span,
        close_tag_start: Option<Span>,
        children: Vec<Node>,
    ) -> (result: Vec<Node>)
        ensures
            exists|spans: Seq<Span>| #[trigger]
                boundaries(spans, open_tag_end, close_tag_start, children@) && result@ == windowed(
                    spans,
                    children@,
                ),
    {
        let spans = boundary_spans(open_tag_end, close_tag_start, &children);
        set_windows(&spans, children)
    }
}

} // verus!
