use proc_macro2::TokenStream;
use proc_macro2::TokenTree;
use raw_text::cursor::TokenCursor;
use raw_text::RawText;
use syn::parse::discouraged::Speculative;
use syn::parse::ParseStream;
use syn::parse::Parser;

/// Reads raw text off the front of `source` and returns it with what was
/// left behind.
fn split(source: &str) -> (RawText, TokenStream) {
    let parser = |input: ParseStream| -> syn::Result<(RawText, TokenStream)> {
        let mut cursor = TokenCursor::new(input.fork());
        let raw = match RawText::parse(&mut cursor) {
            Ok(raw) => raw,
            Err(error) => return Err(error.into_inner()),
        };
        input.advance_to(&cursor.into_inner());
        let rest: TokenStream = input.parse()?;
        Ok((raw, rest))
    };
    parser.parse_str(source).unwrap()
}

fn count(stream: &TokenStream) -> usize {
    stream.clone().into_iter().count()
}

#[test]
fn stops_at_tag_open() {
    let (raw, rest) = split("hello world <div> more");
    assert_eq!(raw.to_token_stream_string(), "hello world");
    assert_eq!(count(raw.token_stream()), 2);
    assert_eq!(rest.to_string(), "< div > more");
    assert!(raw.context_span().is_none());
}

#[test]
fn stops_at_brace_group() {
    let (raw, rest) = split("a b {x} c");
    assert_eq!(raw.to_token_stream_string(), "a b");
    assert_eq!(rest.to_string(), "{ x } c");
}

#[test]
fn stops_at_string_literal() {
    let (raw, rest) = split("a b \"quoted\" c");
    assert_eq!(raw.to_token_stream_string(), "a b");
    assert_eq!(rest.to_string(), "\"quoted\" c");
}

#[test]
fn runs_to_the_end_of_input() {
    let (raw, rest) = split("just some words");
    assert_eq!(count(raw.token_stream()), 3);
    assert_eq!(raw.to_token_stream_string(), "just some words");
    assert!(rest.is_empty());
}

#[test]
fn consumes_at_least_one_token_before_a_node() {
    let (raw, rest) = split("x <a>");
    assert!(!raw.is_empty());
    assert_eq!(count(raw.token_stream()), 1);
    assert_eq!(count(&rest), 3);
}

#[test]
fn tag_open_in_front_gives_empty_text() {
    let (raw, rest) = split("<a> text");
    assert!(raw.is_empty());
    assert_eq!(count(raw.token_stream()), 0);
    assert_eq!(count(&rest), 4);
}

#[test]
fn brace_in_front_gives_empty_text() {
    let (raw, rest) = split("{x} text");
    assert!(raw.is_empty());
    assert_eq!(count(&rest), 2);
}

#[test]
fn string_literal_in_front_gives_empty_text() {
    let (raw, rest) = split("\"s\" text");
    assert!(raw.is_empty());
    assert_eq!(count(&rest), 2);
}

#[test]
fn empty_input_gives_empty_text() {
    let (raw, rest) = split("");
    assert!(raw.is_empty());
    assert!(rest.is_empty());
    assert_eq!(raw.to_token_stream_string(), "");
}

#[test]
fn other_groups_and_literals_are_text() {
    let (raw, rest) = split("f(a, b) [1] 42 'c' b\"bytes\" <x>");
    // `f`, `(a, b)`, `[1]`, `42`, `'c'`, `b"bytes"`
    assert_eq!(count(raw.token_stream()), 6);
    assert_eq!(count(&rest), 3);
}

#[test]
fn less_or_equal_starts_like_a_tag() {
    let (raw, rest) = split("a <= b");
    assert_eq!(raw.to_token_stream_string(), "a");
    assert_eq!(count(&rest), 3);
}

#[test]
fn parsing_again_at_a_node_start_consumes_nothing() {
    let parser = |input: ParseStream| -> syn::Result<(RawText, RawText, TokenStream)> {
        let mut cursor = TokenCursor::new(input.fork());
        let first = RawText::parse(&mut cursor).map_err(|error| error.into_inner())?;
        let second = RawText::parse(&mut cursor).map_err(|error| error.into_inner())?;
        input.advance_to(&cursor.into_inner());
        let rest: TokenStream = input.parse()?;
        Ok((first, second, rest))
    };
    let (first, second, rest) = parser.parse_str("one two {three}").unwrap();
    assert_eq!(count(first.token_stream()), 2);
    assert!(second.is_empty());
    assert_eq!(count(&rest), 1);
}

#[test]
fn cursor_reports_position() {
    let parser = |input: ParseStream| -> syn::Result<Vec<(bool, bool)>> {
        let mut cursor = TokenCursor::new(input.fork());
        let mut seen = Vec::new();
        seen.push((cursor.is_empty(), cursor.at_node_start()));
        let word: TokenTree = cursor.next_token().map_err(|error| error.into_inner())?;
        assert_eq!(word.to_string(), "word");
        seen.push((cursor.is_empty(), cursor.at_node_start()));
        let group = cursor.next_token().map_err(|error| error.into_inner())?;
        assert_eq!(group.to_string(), "{ x }");
        seen.push((cursor.is_empty(), cursor.at_node_start()));
        input.advance_to(&cursor.into_inner());
        Ok(seen)
    };
    let seen = parser.parse_str("word {x}").unwrap();
    assert_eq!(seen, vec![(false, false), (false, true), (true, false)]);
}

#[test]
fn next_token_fails_at_the_end_and_stays() {
    let parser = |input: ParseStream| -> syn::Result<String> {
        let mut cursor = TokenCursor::new(input.fork());
        let message = match cursor.next_token() {
            Ok(_) => panic!("no token tree was left"),
            Err(error) => error.into_inner().to_string(),
        };
        assert!(cursor.is_empty());
        Ok(message)
    };
    let message = parser.parse_str("").unwrap();
    assert!(message.contains("expected token tree"));
}

#[test]
fn spans_of_parsed_tokens_give_back_the_source() {
    let (raw, _rest) = split("some   spaced\n words <a>");
    assert_eq!(
        raw.to_source_text(false),
        Some("some   spaced\n words".to_string())
    );
    assert_eq!(raw.to_token_stream_string(), "some spaced words");
    assert_eq!(raw.to_string_best(), "some   spaced\n words");
}

#[test]
fn raw_text_holds_exactly_what_the_cursor_passed() {
    let source = "one (two three) 4 + five <tag>";
    let all: Vec<TokenTree> = source
        .parse::<TokenStream>()
        .unwrap()
        .into_iter()
        .collect();
    let (raw, rest) = split(source);
    let held: Vec<String> = raw
        .token_stream()
        .clone()
        .into_iter()
        .map(|token| token.to_string())
        .collect();
    let left: Vec<String> = rest.into_iter().map(|token| token.to_string()).collect();
    let given: Vec<String> = all.iter().map(|token| token.to_string()).collect();
    assert_eq!(held.len(), 5);
    assert_eq!(held[..], given[..5]);
    assert_eq!(left[..], given[5..]);
}

#[test]
fn input_without_a_node_is_taken_whole() {
    let source = "a - 1 b . c";
    let (raw, rest) = split(source);
    assert_eq!(count(raw.token_stream()), 6);
    assert_eq!(
        raw.token_stream().to_string(),
        source.parse::<TokenStream>().unwrap().to_string()
    );
    assert!(rest.is_empty());
}

#[test]
fn the_stream_stays_put_until_it_is_advanced() {
    let parser = |input: ParseStream| -> syn::Result<(usize, usize, usize)> {
        let mut cursor = TokenCursor::new(input.fork());
        let raw = RawText::parse(&mut cursor).map_err(|error| error.into_inner())?;
        let before = count(&input.fork().parse::<TokenStream>()?);
        let reached = cursor.into_inner();
        let ahead = count(&reached.fork().parse::<TokenStream>()?);
        input.advance_to(&reached);
        let after = count(&input.parse::<TokenStream>()?);
        assert_eq!(count(raw.token_stream()), 2);
        Ok((before, ahead, after))
    };
    assert_eq!(parser.parse_str("two words {x} y").unwrap(), (4, 2, 2));
}
