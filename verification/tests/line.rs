use git_tidy::git::line::Line;

#[test]
fn line_is_head() {
    let sut = Line::parse("* Hello World");
    assert!(sut.is_head());
}

#[test]
fn split_words() {
    let sut = Line::parse("Hello World");
    let expected = ["Hello", "World"];
    assert_eq!(sut.components(), expected);
}

#[test]
fn line_split_components() {
    let line = Line::parse("Hello [inside square brackets] World");
    let expected = ["Hello", "[inside square brackets]", "World"];
    assert_eq!(line.components(), expected);
}

#[test]
fn line_empty_line() {
    let line = Line::parse("");
    let expected: [&str; 0] = [];
    assert_eq!(line.components(), expected);
}

#[test]
fn components_leave_the_marker_out() {
    let line = Line::parse("* main 73b4084 message");
    let expected = ["main", "73b4084", "message"];
    assert_eq!(line.components(), expected);
}

#[test]
fn whitespace_only_line_has_no_tokens() {
    let line = Line::parse(" \t \u{a0}\u{2003}\r ");
    let expected: [&str; 0] = [];
    assert_eq!(line.components(), expected);
    assert!(!line.is_head());
}

#[test]
fn bracketed_span_ends_at_the_first_closing_bracket() {
    let line = Line::parse("[a b] c] [d [e] f]");
    let expected = ["[a b]", "c]", "[d [e]", "f]"];
    assert_eq!(line.components(), expected);
}

#[test]
fn adjacent_spans_are_tokens_of_their_own() {
    let line = Line::parse("[a b][c d]e f");
    let expected = ["[a b]", "[c d]", "e", "f"];
    assert_eq!(line.components(), expected);
}

#[test]
fn unmatched_bracket_is_an_ordinary_character() {
    let line = Line::parse("[origin/main ahead");
    let expected = ["[origin/main", "ahead"];
    assert_eq!(line.components(), expected);
}

#[test]
fn bracket_inside_a_word_opens_no_span() {
    let line = Line::parse("x[a b] y");
    let expected = ["x[a", "b]", "y"];
    assert_eq!(line.components(), expected);
}

#[test]
fn span_does_not_cross_a_line_feed() {
    let line = Line::parse("[a\nb] [c d]");
    let expected = ["[a", "b]", "[c d]"];
    assert_eq!(line.components(), expected);
}

#[test]
fn tokens_hold_characters_beyond_ascii() {
    let line = Line::parse("  größe\u{3000}[знак ✓]  日本語 ");
    let expected = ["größe", "[знак ✓]", "日本語"];
    assert_eq!(line.components(), expected);
}

#[test]
fn marker_must_be_a_token_of_its_own() {
    assert!(!Line::parse("*main 73b4084 message").is_head());
    assert!(!Line::parse("main * 73b4084").is_head());
    assert!(Line::parse("   *").is_head());
}

#[test]
fn line_text_joins_the_tokens_with_commas() {
    assert_eq!(
        Line::parse("* main 73b4084 [origin/main: gone] msg").to_string(),
        "*,main,73b4084,[origin/main: gone],msg"
    );
    assert_eq!(Line::parse("  one  ").to_string(), "one");
    assert_eq!(Line::parse("").to_string(), "");
}
