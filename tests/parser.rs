use prism::ast::{Expression, Pipeline, Query, Span};
use prism::parse;
use prism::parser::ParseError;

fn count_stages(q: &Query) -> Vec<(Span, Option<(Span, String)>)> {
    q.pipelines
        .iter()
        .map(|p| match p {
            Pipeline::Count(c) => (
                c.span,
                c.by.as_ref().map(|e| match e {
                    Expression::Column(col) => (col.name.span, col.name.name.clone()),
                }),
            ),
        })
        .collect()
}

#[test]
fn parser_basic_count() {
    let q = parse("http_requests | count").unwrap();
    assert_eq!(q.span, Span { start: 0, end: 21 });
    assert_eq!(q.table.span, Span { start: 0, end: 13 });
    assert_eq!(q.table.name, "http_requests");
    assert_eq!(count_stages(&q), vec![(Span { start: 16, end: 21 }, None)]);
}

#[test]
fn parse_count_by_column() {
    let q = parse("http_requests | count by method").unwrap();
    assert_eq!(q.span, Span { start: 0, end: 31 });
    assert_eq!(
        count_stages(&q),
        vec![(
            Span { start: 16, end: 31 },
            Some((Span { start: 25, end: 31 }, "method".to_string()))
        )]
    );
    match &q.pipelines[0] {
        Pipeline::Count(c) => match c.by.as_ref().unwrap() {
            Expression::Column(col) => assert_eq!(col.span, Span { start: 25, end: 31 }),
        },
    }
}

#[test]
fn parse_bare_table_and_blanks() {
    let q = parse("  logs2 \n").unwrap();
    assert_eq!(q.table.name, "logs2");
    assert_eq!(q.table.span, Span { start: 2, end: 7 });
    assert_eq!(q.span, Span { start: 2, end: 7 });
    assert!(q.pipelines.is_empty());
}

#[test]
fn parse_several_stages_in_order() {
    let q = parse("t|count|count by a_1").unwrap();
    assert_eq!(
        count_stages(&q),
        vec![
            (Span { start: 2, end: 7 }, None),
            (Span { start: 8, end: 20 }, Some((Span { start: 17, end: 20 }, "a_1".to_string()))),
        ]
    );
    assert_eq!(q.span, Span { start: 0, end: 20 });
}

#[test]
fn parse_is_deterministic() {
    let text = "http_requests | count by method | count";
    let a = parse(text).unwrap();
    let b = parse(text).unwrap();
    assert_eq!(a.span, b.span);
    assert_eq!(a.table.span, b.table.span);
    assert_eq!(a.table.name, b.table.name);
    assert_eq!(count_stages(&a), count_stages(&b));
    assert_eq!(parse("t | by").unwrap_err(), parse("t | by").unwrap_err());
}

#[test]
fn parse_empty_text_is_eof() {
    assert_eq!(parse("").unwrap_err(), ParseError::UnrecognizedEof { location: 0 });
    assert_eq!(parse("   ").unwrap_err(), ParseError::UnrecognizedEof { location: 3 });
}

#[test]
fn parse_missing_stage_is_eof() {
    assert_eq!(parse("t |").unwrap_err(), ParseError::UnrecognizedEof { location: 3 });
    assert_eq!(parse("t | count by").unwrap_err(), ParseError::UnrecognizedEof { location: 12 });
}

#[test]
fn parse_keyword_as_table_is_unrecognized() {
    assert_eq!(
        parse("count | count").unwrap_err(),
        ParseError::UnrecognizedToken { start: 0, end: 5 }
    );
}

#[test]
fn parse_wrong_stage_is_unrecognized() {
    assert_eq!(parse("t | by").unwrap_err(), ParseError::UnrecognizedToken { start: 4, end: 6 });
    assert_eq!(parse("t u").unwrap_err(), ParseError::UnrecognizedToken { start: 2, end: 3 });
    assert_eq!(
        parse("t | count by count").unwrap_err(),
        ParseError::UnrecognizedToken { start: 13, end: 18 }
    );
    assert_eq!(parse("t | countby x").unwrap_err(), ParseError::UnrecognizedToken { start: 4, end: 11 });
}

#[test]
fn parse_invalid_character() {
    assert_eq!(parse("t | count $").unwrap_err(), ParseError::InvalidToken { location: 10 });
    assert_eq!(parse("t | count é").unwrap_err(), ParseError::InvalidToken { location: 10 });
    assert_eq!(parse("t-x").unwrap_err(), ParseError::InvalidToken { location: 1 });
}

#[test]
fn parse_reports_grammar_error_before_later_invalid_character() {
    assert_eq!(parse("a b $").unwrap_err(), ParseError::UnrecognizedToken { start: 2, end: 3 });
    assert_eq!(parse("a b é").unwrap_err(), ParseError::UnrecognizedToken { start: 2, end: 3 });
}
