//! Text arithmetic on recovered source: cutting the text of two neighbours off
//! the text that covers them, and choosing the most faithful text available.
//!
//! Everything here works on plain strings and is independent of where the
//! strings came from.

use vstd::prelude::*;
use vstd::string::*;

verus! {

/// `before` opens `full`, `after` closes it, and the two do not overlap.
pub open spec fn encloses(full: Seq<char>, before: Seq<char>, after: Seq<char>) -> bool {
    &&& before.len() + after.len() <= full.len()
    &&& before.is_prefix_of(full)
    &&& after.is_suffix_of(full)
}

/// What is left of `full` once `before.len()` characters are dropped from its
/// front and `after.len()` characters from its back.
pub open spec fn between(full: Seq<char>, before: Seq<char>, after: Seq<char>) -> Seq<char>
    recommends
        before.len() + after.len() <= full.len(),
{
    full.subrange(before.len() as int, full.len() - after.len())
}

/// The text chosen among three candidates ordered from most to least
/// faithful: the first one that is present.
pub open spec fn best_of(
    exact: Option<Seq<char>>,
    own: Option<Seq<char>>,
    canonical: Seq<char>,
) -> Seq<char> {
    match exact {
        Some(text) => text,
        None => match own {
            Some(text) => text,
            None => canonical,
        },
    }
}

/// The texts of two neighbours that do not lie inside the text said to cover
/// them, or that overlap there.
///
/// Neighbours nest inside the span that joins them, so a mismatch is no
/// matter of input: it means that the spans were not what they were taken
/// for.
#[derive(Clone, Debug, PartialEq, Eq)]
pub struct ContextMismatch {
    /// The text of the span that joins the two neighbours.
    pub full: String,
    /// The text of the left neighbour.
    pub before: String,
    /// The text of the right neighbour.
    pub after: String,
}

/// Whether `text` begins with `prefix`.
pub fn starts_with(text: &str, prefix: &str) -> (found: bool)
    ensures
        found == prefix@.is_prefix_of(text@),
{
    let text_len: usize = text.unicode_len();
    let prefix_len: usize = prefix.unicode_len();
    if prefix_len > text_len {
        return false;
    }
    let head = text.substring_char(0, prefix_len).to_owned();
    let wanted = prefix.to_owned();
    head == wanted
}

/// Whether `text` ends with `suffix`.
pub fn ends_with(text: &str, suffix: &str) -> (found: bool)
    ensures
        found == suffix@.is_suffix_of(text@),
{
    let text_len: usize = text.unicode_len();
    let suffix_len: usize = suffix.unicode_len();
    if suffix_len > text_len {
        return false;
    }
    let tail = text.substring_char(text_len - suffix_len, text_len).to_owned();
    let wanted = suffix.to_owned();
    tail == wanted
}

/// Removes the text of the left neighbour from the front of `full` and the
/// text of the right neighbour from its back.
///
/// The neighbours must lie inside `full` without overlapping; the result is
/// then the one string `middle` with `before + middle + after == full`.
pub fn strip_context(full: &str, before: &str, after: &str) -> (middle: String)
    requires
        encloses(full@, before@, after@),
    ensures
        middle@ == between(full@, before@, after@),
        middle@.len() == full@.len() - before@.len() - after@.len(),
        before@ + middle@ + after@ == full@,
{
    let full_len: usize = full.unicode_len();
    let from: usize = before.unicode_len();
    let to: usize = full_len - after.unicode_len();
    let middle = full.substring_char(from, to).to_owned();
    assert(before@ + middle@ + after@ =~= full@);
    middle
}

/// [`strip_context`] for texts that are not known to fit: where the
/// neighbours do not lie inside `full`, or overlap there, the three texts come
/// back as a [`ContextMismatch`].
pub fn try_strip_context(full: &str, before: &str, after: &str) -> (middle: Result<
    String,
    ContextMismatch,
>)
    ensures
        encloses(full@, before@, after@) ==> middle is Ok && middle->Ok_0@ == between(
            full@,
            before@,
            after@,
        ),
        !encloses(full@, before@, after@) ==> middle is Err && middle->Err_0.full@ == full@
            && middle->Err_0.before@ == before@ && middle->Err_0.after@ == after@,
{
    let full_len: usize = full.unicode_len();
    let before_len: usize = before.unicode_len();
    let after_len: usize = after.unicode_len();
    let fits = before_len <= full_len && after_len <= full_len - before_len;
    if fits && starts_with(full, before) && ends_with(full, after) {
        Ok(strip_context(full, before, after))
    } else {
        Err(ContextMismatch { full: full.to_owned(), before: before.to_owned(), after: after.to_owned() })
    }
}

/// Picks the most faithful of three candidate texts: `exact` if present, else
/// `own` if present, else `canonical`, which is always there.
pub fn first_available(exact: Option<String>, own: Option<String>, canonical: String) -> (best:
    String)
    ensures
        best@ == best_of(
            match exact {
                Some(text) => Some(text@),
                None => None,
            },
            match own {
                Some(text) => Some(text@),
                None => None,
            },
            canonical@,
        ),
        exact is Some ==> best == exact->Some_0,
        exact is None && own is Some ==> best == own->Some_0,
        exact is None && own is None ==> best == canonical,
{
    match exact {
        Some(text) => text,
        None => match own {
            Some(text) => text,
            None => canonical,
        },
    }
}

} // verus!
