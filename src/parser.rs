//! The PQL grammar:
//!
//! ```text
//! query    := word ('|' stage)*
//! stage    := 'count' ('by' word)?
//! word     := [A-Za-z_][A-Za-z0-9_]*     (but not 'count' or 'by')
//! ```
//!
//! Blanks between tokens are skipped. Tokens are read lazily: an error
//! reports the first place where the text stops fitting the grammar, and a
//! character that starts no token is reported only when the parser reaches
//! it. Every token is ASCII, so the character positions up to the first
//! error are also byte offsets into the text.

use vstd::prelude::*;
use vstd::string::*;
use vstd::utf8::is_ascii_chars;

use crate::ast::{
    ColumnExpression, ColumnExpressionView, Count, CountView, Expression, ExpressionView,
    Identifier, IdentifierView, Pipeline, PipelineView, Query, QueryView, Span, pipelines_view,
};

verus! {

#[derive(Clone, Copy, Debug, PartialEq, Eq, Structural)]
pub enum TokenKind {
    Word,
    Count,
    By,
    Bar,
}

#[derive(Clone, Copy, Debug, PartialEq, Eq, Structural)]
pub struct Token {
    pub kind: TokenKind,
    pub start: usize,
    pub end: usize,
}

/// Why a text is not a query. Positions are byte offsets into the text.
#[derive(Clone, Copy, Debug, PartialEq, Eq, Structural)]
pub enum ParseError {
    /// The character at `location` starts no token.
    InvalidToken { location: usize },
    /// The token at `[start, end)` is not allowed where it stands.
    UnrecognizedToken { start: usize, end: usize },
    /// The text ended where the grammar asks for one more token.
    UnrecognizedEof { location: usize },
}

pub open spec fn is_blank(c: char) -> bool {
    c == ' ' || c == '\t' || c == '\n' || c == '\r' || c == '\u{b}' || c == '\u{c}'
}

pub open spec fn is_word_start(c: char) -> bool {
    ('a' <= c && c <= 'z') || ('A' <= c && c <= 'Z') || c == '_'
}

pub open spec fn is_word_char(c: char) -> bool {
    is_word_start(c) || ('0' <= c && c <= '9')
}

/// The end of the run of word characters that starts at `i`.
pub open spec fn word_end(s: Seq<char>, i: int) -> int
    decreases s.len() - i,
{
    if 0 <= i < s.len() && is_word_char(s[i]) {
        word_end(s, i + 1)
    } else {
        i
    }
}

/// Keywords take precedence over words.
pub open spec fn word_kind(w: Seq<char>) -> TokenKind {
    if w == "count"@ {
        TokenKind::Count
    } else if w == "by"@ {
        TokenKind::By
    } else {
        TokenKind::Word
    }
}

/// The tokens of `s` from position `i` on, up to the first character that
/// starts no token, and the position of that character if there is one.
pub open spec fn lex_from(s: Seq<char>, i: int) -> (Seq<Token>, Option<usize>)
    decreases s.len() - i via lex_from_decreases
{
    if i < 0 || i >= s.len() {
        (Seq::empty(), None)
    } else if is_blank(s[i]) {
        lex_from(s, i + 1)
    } else if s[i] == '|' {
        let rest = lex_from(s, i + 1);
        (seq![Token { kind: TokenKind::Bar, start: i as usize, end: (i + 1) as usize }] + rest.0, rest.1)
    } else if is_word_start(s[i]) {
        let e = word_end(s, i + 1);
        let rest = lex_from(s, e);
        (
            seq![Token { kind: word_kind(s.subrange(i, e)), start: i as usize, end: e as usize }]
                + rest.0,
            rest.1,
        )
    } else {
        (Seq::empty(), Some(i as usize))
    }
}

proof fn lemma_word_end(s: Seq<char>, i: int)
    requires
        0 <= i <= s.len(),
    ensures
        i <= word_end(s, i) <= s.len(),
        forall|j: int| i <= j < word_end(s, i) ==> is_word_char(#[trigger] s[j]),
        word_end(s, i) < s.len() ==> !is_word_char(s[word_end(s, i)]),
    decreases s.len() - i,
{
    if i < s.len() && is_word_char(s[i]) {
        lemma_word_end(s, i + 1);
    }
}

#[via_fn]
proof fn lex_from_decreases(s: Seq<char>, i: int) {
    if 0 <= i < s.len() && is_word_start(s[i]) {
        lemma_word_end(s, i + 1);
    }
}

/// The error for a parser that asks for one more token where the tokens end.
pub open spec fn missing_token(s: Seq<char>, stop: Option<usize>) -> ParseError {
    match stop {
        Some(p) => ParseError::InvalidToken { location: p },
        None => ParseError::UnrecognizedEof { location: s.len() as usize },
    }
}

pub open spec fn unexpected(t: Token) -> ParseError {
    ParseError::UnrecognizedToken { start: t.start, end: t.end }
}

pub open spec fn identifier_of(s: Seq<char>, t: Token) -> IdentifierView {
    IdentifierView {
        span: Span { start: t.start, end: t.end },
        name: s.subrange(t.start as int, t.end as int),
    }
}

pub open spec fn prepend<T, E>(pre: Seq<T>, r: Result<Seq<T>, E>) -> Result<Seq<T>, E> {
    match r {
        Ok(v) => Ok(pre + v),
        Err(e) => Err(e),
    }
}

/// The stages read from the token at index `k` on.
pub open spec fn stages_from(s: Seq<char>, toks: Seq<Token>, stop: Option<usize>, k: int) -> Result<
    Seq<PipelineView>,
    ParseError,
>
    decreases toks.len() - k,
{
    if k < 0 || k >= toks.len() {
        match stop {
            Some(_) => Err(missing_token(s, stop)),
            None => Ok(Seq::empty()),
        }
    } else if toks[k].kind != TokenKind::Bar {
        Err(unexpected(toks[k]))
    } else if k + 1 >= toks.len() {
        Err(missing_token(s, stop))
    } else if toks[k + 1].kind != TokenKind::Count {
        Err(unexpected(toks[k + 1]))
    } else if k + 2 < toks.len() && toks[k + 2].kind == TokenKind::By {
        if k + 3 >= toks.len() {
            Err(missing_token(s, stop))
        } else if toks[k + 3].kind != TokenKind::Word {
            Err(unexpected(toks[k + 3]))
        } else {
            let column = identifier_of(s, toks[k + 3]);
            let stage = PipelineView::Count(
                CountView {
                    span: Span { start: toks[k + 1].start, end: toks[k + 3].end },
                    by: Some(
                        ExpressionView::Column(ColumnExpressionView { span: column.span, name: column }),
                    ),
                },
            );
            prepend(seq![stage], stages_from(s, toks, stop, k + 4))
        }
    } else {
        let stage = PipelineView::Count(
            CountView { span: Span { start: toks[k + 1].start, end: toks[k + 1].end }, by: None },
        );
        prepend(seq![stage], stages_from(s, toks, stop, k + 2))
    }
}

/// The query that a token list reads as.
pub open spec fn parse_tokens(s: Seq<char>, toks: Seq<Token>, stop: Option<usize>) -> Result<
    QueryView,
    ParseError,
> {
    if toks.len() == 0 {
        Err(missing_token(s, stop))
    } else if toks[0].kind != TokenKind::Word {
        Err(unexpected(toks[0]))
    } else {
        match stages_from(s, toks, stop, 1) {
            Ok(stages) => Ok(
                QueryView {
                    span: Span { start: toks[0].start, end: toks.last().end },
                    table: identifier_of(s, toks[0]),
                    pipelines: stages,
                },
            ),
            Err(e) => Err(e),
        }
    }
}

/// What the text `s` parses to.
pub open spec fn parse_spec(s: Seq<char>) -> Result<QueryView, ParseError> {
    parse_tokens(s, lex_from(s, 0).0, lex_from(s, 0).1)
}

/// Whether `c` is one of the 128 ASCII characters.
pub open spec fn is_ascii_char(c: char) -> bool {
    '\0' <= c <= '\u{7f}'
}

/// The longest prefix of `input` made of ASCII characters.
fn ascii_prefix(input: &str) -> (r: &str)
    ensures
        is_ascii_chars(r@),
        r@.len() <= input@.len(),
        r@ == input@.subrange(0, r@.len() as int),
        r@.len() < input@.len() ==> !is_ascii_char(input@[r@.len() as int]),
{
    if input.is_ascii() {
        assert(input@ =~= input@.subrange(0, input@.len() as int));
        return input;
    }
    let n = input.unicode_len();
    let mut i: usize = 0;
    while i < n && is_ascii_code(input.get_char(i) as u32)
        invariant
            n == input@.len(),
            i <= n,
            forall|j: int| 0 <= j < i ==> is_ascii_char(#[trigger] input@[j]),
        decreases n - i,
    {
        i = i + 1;
    }
    let r = input.substring_char(0, i);
    assert(is_ascii_chars(r@)) by {
        assert forall|j: int| 0 <= j < r@.len() implies '\0' <= #[trigger] r@[j] <= '\u{7f}' by {
            assert(r@[j] == input@[j]);
        }
    }
    r
}

fn is_ascii_code(c: u32) -> (r: bool)
    ensures
        r == (c <= 0x7f),
{
    c <= 0x7f
}

fn is_blank_byte(b: u8) -> (r: bool)
    ensures
        r == (b == 32 || b == 9 || b == 10 || b == 13 || b == 11 || b == 12),
{
    b == 32 || b == 9 || b == 10 || b == 13 || b == 11 || b == 12
}

fn is_word_start_byte(b: u8) -> (r: bool)
    ensures
        r == ((97 <= b && b <= 122) || (65 <= b && b <= 90) || b == 95),
{
    (97 <= b && b <= 122) || (65 <= b && b <= 90) || b == 95
}

fn is_word_byte(b: u8) -> (r: bool)
    ensures
        r == ((97 <= b && b <= 122) || (65 <= b && b <= 90) || b == 95 || (48 <= b && b <= 57)),
{
    is_word_start_byte(b) || (48 <= b && b <= 57)
}

proof fn lemma_ascii_byte(c: char, b: u8)
    requires
        is_ascii_char(c),
        c as u8 == b,
    ensures
        is_blank(c) == (b == 32 || b == 9 || b == 10 || b == 13 || b == 11 || b == 12),
        is_word_start(c) == ((97 <= b && b <= 122) || (65 <= b && b <= 90) || b == 95),
        is_word_char(c) == ((97 <= b && b <= 122) || (65 <= b && b <= 90) || b == 95 || (48 <= b
            && b <= 57)),
        (c == '|') == (b == 124),
{
}

fn word_kind_of(w: &str) -> (r: TokenKind)
    ensures
        r == word_kind(w@),
{
    let o = w.to_owned();
    if o == "count".to_owned() {
        TokenKind::Count
    } else if o == "by".to_owned() {
        TokenKind::By
    } else {
        TokenKind::Word
    }
}

/// Splits `input` into tokens. `prefix` is its longest ASCII prefix and `n`
/// its length in characters.
fn lex(input: &str, prefix: &str, n: usize) -> (r: (Vec<Token>, Option<usize>))
    requires
        n == input@.len(),
        is_ascii_chars(prefix@),
        prefix@.len() <= n,
        prefix@ == input@.subrange(0, prefix@.len() as int),
        prefix@.len() < n ==> !is_ascii_char(input@[prefix@.len() as int]),
    ensures
        r.0@ == lex_from(input@, 0).0,
        r.1 == lex_from(input@, 0).1,
        forall|j: int|
            0 <= j < r.0@.len() ==> (#[trigger] r.0@[j]).start < r.0@[j].end <= prefix@.len(),
{
    let ghost s = input@;
    let p = prefix.unicode_len();
    let mut toks: Vec<Token> = Vec::new();
    let mut i: usize = 0;
    assert(toks@ + lex_from(s, 0).0 =~= lex_from(s, 0).0);
    while i < p
        invariant
            s == input@,
            p == prefix@.len(),
            n == s.len(),
            is_ascii_chars(prefix@),
            p <= n,
            prefix@ == s.subrange(0, p as int),
            p < n ==> !is_ascii_char(s[p as int]),
            i <= p,
            lex_from(s, 0).0 == toks@ + lex_from(s, i as int).0,
            lex_from(s, 0).1 == lex_from(s, i as int).1,
            forall|j: int| 0 <= j < toks@.len() ==> (#[trigger] toks@[j]).start < toks@[j].end <= i,
        decreases p - i,
    {
        let b = prefix.get_ascii(i);
        proof {
            assert(s[i as int] == prefix@[i as int]);
            lemma_ascii_byte(s[i as int], b);
        }
        if is_blank_byte(b) {
            i = i + 1;
        } else if b == 124 {
            let ghost old_toks = toks@;
            let t = Token { kind: TokenKind::Bar, start: i, end: i + 1 };
            toks.push(t);
            assert(toks@ + lex_from(s, i + 1).0 =~= old_toks + lex_from(s, i as int).0);
            i = i + 1;
        } else if is_word_start_byte(b) {
            let mut e: usize = i + 1;
            proof {
                lemma_word_end(s, e as int);
            }
            while e < p && is_word_byte(prefix.get_ascii(e))
                invariant
                    s == input@,
                    p == prefix@.len(),
                    n == s.len(),
                    is_ascii_chars(prefix@),
                    prefix@ == s.subrange(0, p as int),
                    i < e <= p,
                    p <= n,
                    word_end(s, i + 1) == word_end(s, e as int),
                    e <= word_end(s, e as int),
                decreases p - e,
            {
                proof {
                    assert(s[e as int] == prefix@[e as int]);
                    lemma_ascii_byte(s[e as int], prefix@[e as int] as u8);
                    lemma_word_end(s, e as int + 1);
                }
                e = e + 1;
            }
            proof {
                lemma_word_end(s, e as int);
                if e < p {
                    assert(s[e as int] == prefix@[e as int]);
                    lemma_ascii_byte(s[e as int], prefix@[e as int] as u8);
                } else if e < n {
                    assert(!is_ascii_char(s[e as int]));
                }
            }
            let w = prefix.substring_ascii(i, e);
            assert(w@ =~= s.subrange(i as int, e as int));
            let kind = word_kind_of(w);
            let ghost old_toks = toks@;
            toks.push(Token { kind, start: i, end: e });
            assert(toks@ + lex_from(s, e as int).0 =~= old_toks + lex_from(s, i as int).0);
            i = e;
        } else {
            assert(lex_from(s, i as int).0 =~= Seq::<Token>::empty());
            assert(toks@ + Seq::<Token>::empty() =~= toks@);
            return (toks, Some(i));
        }
    }
    assert(toks@ + Seq::<Token>::empty() =~= toks@);
    if p < n {
        (toks, Some(p))
    } else {
        (toks, None)
    }
}

/// The view of what [`parse`] returned.
pub open spec fn parse_outcome(r: Result<Query, ParseError>) -> Result<QueryView, ParseError> {
    match r {
        Ok(q) => Ok(q@),
        Err(e) => Err(e),
    }
}

/// Parsing one text twice gives structurally identical results: the same
/// tree with the same spans, or the same error.
pub proof fn lemma_parse_deterministic(
    text: &str,
    first: Result<Query, ParseError>,
    second: Result<Query, ParseError>,
)
    requires
        parse_spec(text@) == parse_outcome(first),
        parse_spec(text@) == parse_outcome(second),
    ensures
        parse_outcome(first) == parse_outcome(second),
        first is Ok <==> second is Ok,
{
}

fn missing(n: usize, stop: Option<usize>) -> (r: ParseError)
    ensures
        forall|s: Seq<char>| s.len() == n ==> r == #[trigger] missing_token(s, stop),
{
    match stop {
        Some(p) => ParseError::InvalidToken { location: p },
        None => ParseError::UnrecognizedEof { location: n },
    }
}

fn identifier_at(prefix: &str, t: Token, Ghost(s): Ghost<Seq<char>>) -> (r: Identifier)
    requires
        is_ascii_chars(prefix@),
        t.start <= t.end <= prefix@.len(),
        prefix@.len() <= s.len(),
        prefix@ == s.subrange(0, prefix@.len() as int),
    ensures
        r@ == identifier_of(s, t),
{
    let name = prefix.substring_ascii(t.start, t.end).to_owned();
    assert(name@ =~= s.subrange(t.start as int, t.end as int));
    Identifier { span: Span { start: t.start, end: t.end }, name }
}

/// Parses a query.
pub fn parse(input: &str) -> (r: Result<Query, ParseError>)
    ensures
        parse_spec(input@) == parse_outcome(r),
{
    let ghost s = input@;
    let n = input.unicode_len();
    let prefix = ascii_prefix(input);
    let (toks, stop) = lex(input, prefix, n);
    let ghost tk = toks@;
    if toks.len() == 0 {
        return Err(missing(n, stop));
    }
    let first = toks[0];
    if first.kind != TokenKind::Word {
        return Err(ParseError::UnrecognizedToken { start: first.start, end: first.end });
    }
    let table = identifier_at(prefix, first, Ghost(s));
    let mut pipelines: Vec<Pipeline> = Vec::new();
    let mut k: usize = 1;
    assert(pipelines_view(pipelines@) =~= Seq::<PipelineView>::empty());
    assert(stages_from(s, tk, stop, 1) == prepend(
        pipelines_view(pipelines@),
        stages_from(s, tk, stop, 1),
    )) by {
        match stages_from(s, tk, stop, 1) {
            Ok(v) => {
                assert(Seq::<PipelineView>::empty() + v =~= v);
            },
            Err(_) => {},
        }
    }
    while k < toks.len()
        invariant
            s == input@,
            n == s.len(),
            tk == toks@,
            tk == lex_from(s, 0).0,
            stop == lex_from(s, 0).1,
            tk[0] == first,
            first.kind == TokenKind::Word,
            table@ == identifier_of(s, first),
            is_ascii_chars(prefix@),
            prefix@.len() <= s.len(),
            prefix@ == s.subrange(0, prefix@.len() as int),
            forall|j: int| 0 <= j < tk.len() ==> (#[trigger] tk[j]).start < tk[j].end <= prefix@.len(),
            1 <= k <= tk.len(),
            stages_from(s, tk, stop, 1) == prepend(pipelines_view(pipelines@), stages_from(s, tk, stop, k as int)),
        decreases tk.len() - k,
    {
        let t = toks[k];
        if t.kind != TokenKind::Bar {
            return Err(ParseError::UnrecognizedToken { start: t.start, end: t.end });
        }
        if k + 1 >= toks.len() {
            return Err(missing(n, stop));
        }
        let c = toks[k + 1];
        if c.kind != TokenKind::Count {
            return Err(ParseError::UnrecognizedToken { start: c.start, end: c.end });
        }
        let ghost before = pipelines_view(pipelines@);
        let next: usize;
        if k + 2 < toks.len() && toks[k + 2].kind == TokenKind::By {
            if k + 3 >= toks.len() {
                return Err(missing(n, stop));
            }
            let w = toks[k + 3];
            if w.kind != TokenKind::Word {
                return Err(ParseError::UnrecognizedToken { start: w.start, end: w.end });
            }
            let column = identifier_at(prefix, w, Ghost(s));
            let stage = Pipeline::Count(
                Count {
                    span: Span { start: c.start, end: w.end },
                    by: Some(Expression::Column(ColumnExpression { span: column.span, name: column })),
                },
            );
            pipelines.push(stage);
            next = k + 4;
        } else {
            pipelines.push(Pipeline::Count(Count { span: Span { start: c.start, end: c.end }, by: None }));
            next = k + 2;
        }
        proof {
            assert(pipelines_view(pipelines@) =~= before.push(pipelines@.last()@));
            match stages_from(s, tk, stop, next as int) {
                Ok(v) => {
                    assert(before + (seq![pipelines@.last()@] + v) =~= pipelines_view(pipelines@) + v);
                },
                Err(_) => {},
            }
        }
        k = next;
    }
    match stop {
        Some(p) => {
            return Err(ParseError::InvalidToken { location: p });
        },
        None => {},
    }
    assert(pipelines_view(pipelines@) + Seq::<PipelineView>::empty() =~= pipelines_view(pipelines@));
    let last = toks[toks.len() - 1];
    Ok(Query { span: Span { start: first.start, end: last.end }, table, pipelines })
}

} // verus!
