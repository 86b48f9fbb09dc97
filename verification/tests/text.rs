use raw_text::text::ends_with;
use raw_text::text::first_available;
use raw_text::text::starts_with;
use raw_text::text::strip_context;
use raw_text::text::try_strip_context;
use raw_text::text::ContextMismatch;

#[test]
fn strip_removes_both_neighbours() {
    assert_eq!(strip_context("> hello {x}", ">", "{x}"), " hello ");
    assert_eq!(strip_context("><", ">", "<"), "");
    assert_eq!(strip_context("abc", "", ""), "abc");
    assert_eq!(strip_context("abc", "abc", ""), "");
    assert_eq!(strip_context("abc", "", "abc"), "");
    assert_eq!(strip_context("", "", ""), "");
}

#[test]
fn strip_length_is_full_minus_neighbours() {
    let full = "<div>  spaced   out  </div>";
    let middle = strip_context(full, "<div>", "</div>");
    assert_eq!(middle.len(), full.len() - "<div>".len() - "</div>".len());
    assert_eq!(middle, "  spaced   out  ");
    assert_eq!(format!("{}{}{}", "<div>", middle, "</div>"), full);
}

#[test]
fn strip_counts_characters_not_bytes() {
    assert_eq!(strip_context("«grüße»", "«", "»"), "grüße");
    assert_eq!(strip_context("é→日本語←é", "é→", "←é"), "日本語");
    assert_eq!(try_strip_context("«grüße»", "«", "»"), Ok("grüße".to_string()));
}

fn mismatch(full: &str, before: &str, after: &str) -> Result<String, ContextMismatch> {
    Err(ContextMismatch {
        full: full.to_string(),
        before: before.to_string(),
        after: after.to_string(),
    })
}

#[test]
fn try_strip_agrees_where_the_neighbours_fit() {
    assert_eq!(
        try_strip_context("> hello {x}", ">", "{x}"),
        Ok(" hello ".to_string())
    );
    assert_eq!(try_strip_context("><", ">", "<"), Ok(String::new()));
    assert_eq!(try_strip_context("", "", ""), Ok(String::new()));
    assert_eq!(try_strip_context("aa", "a", "a"), Ok(String::new()));
}

#[test]
fn try_strip_reports_what_does_not_fit() {
    // Not at the front.
    assert_eq!(
        try_strip_context("> hello {x}", "<", "{x}"),
        mismatch("> hello {x}", "<", "{x}")
    );
    // Not at the back.
    assert_eq!(
        try_strip_context("> hello {x}", ">", "{y}"),
        mismatch("> hello {x}", ">", "{y}")
    );
    // Longer than the whole.
    assert_eq!(try_strip_context("ab", "abc", ""), mismatch("ab", "abc", ""));
    assert_eq!(try_strip_context("ab", "", "abc"), mismatch("ab", "", "abc"));
    // Both fit, but they overlap.
    assert_eq!(try_strip_context("aa", "aa", "aa"), mismatch("aa", "aa", "aa"));
    assert_eq!(try_strip_context("aba", "ab", "ba"), mismatch("aba", "ab", "ba"));
}

#[test]
fn prefix_and_suffix() {
    assert!(starts_with("hello", ""));
    assert!(starts_with("hello", "he"));
    assert!(starts_with("hello", "hello"));
    assert!(!starts_with("hello", "hello!"));
    assert!(!starts_with("hello", "el"));
    assert!(starts_with("", ""));
    assert!(!starts_with("", "a"));
    assert!(ends_with("hello", ""));
    assert!(ends_with("hello", "lo"));
    assert!(ends_with("hello", "hello"));
    assert!(!ends_with("hello", "ohello"));
    assert!(!ends_with("hello", "ll"));
    assert!(starts_with("日本語", "日"));
    assert!(ends_with("日本語", "語"));
    assert!(!ends_with("日本語", "本"));
}

#[test]
fn first_available_prefers_the_most_faithful() {
    let exact = Some(" hello ".to_string());
    let own = Some("hello".to_string());
    let canonical = "h e l l o".to_string();
    assert_eq!(
        first_available(exact.clone(), own.clone(), canonical.clone()),
        " hello "
    );
    assert_eq!(
        first_available(exact.clone(), None, canonical.clone()),
        " hello "
    );
    assert_eq!(
        first_available(None, own.clone(), canonical.clone()),
        "hello"
    );
    assert_eq!(first_available(None, None, canonical.clone()), "h e l l o");
    assert_eq!(
        first_available(Some(String::new()), own, canonical),
        ""
    );
}
