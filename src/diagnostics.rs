//! Compiler diagnostics: a severity, a stable code, a message rendered from
//! a template with named placeholders, labelled spans and notes. They are
//! plain data and are collected by the lowering pass.

use vstd::prelude::*;

use crate::ast::Span;

verus! {

#[derive(Clone, Copy, Debug, PartialEq, Eq, Structural)]
pub enum Severity {
    Error,
}

#[derive(Clone, Copy, Debug, PartialEq, Eq, Structural)]
pub enum LabelStyle {
    Primary,
    Secondary,
}

/// A span of a source file, pointed at by a diagnostic.
#[derive(Clone, Debug)]
pub struct Label {
    pub style: LabelStyle,
    pub file_id: usize,
    pub range: Span,
    pub message: String,
}

#[derive(Clone, Debug)]
pub struct Diagnostic {
    pub severity: Severity,
    pub code: Option<String>,
    pub message: String,
    pub labels: Vec<Label>,
    pub notes: Vec<String>,
}

pub struct LabelView {
    pub style: LabelStyle,
    pub file_id: usize,
    pub range: Span,
    pub message: Seq<char>,
}

pub struct DiagnosticView {
    pub severity: Severity,
    pub code: Option<Seq<char>>,
    pub message: Seq<char>,
    pub labels: Seq<LabelView>,
    pub notes: Seq<Seq<char>>,
}

impl View for Label {
    type V = LabelView;

    open spec fn view(&self) -> LabelView {
        LabelView {
            style: self.style,
            file_id: self.file_id,
            range: self.range,
            message: self.message@,
        }
    }
}

impl View for Diagnostic {
    type V = DiagnosticView;

    open spec fn view(&self) -> DiagnosticView {
        DiagnosticView {
            severity: self.severity,
            code: match self.code {
                Some(c) => Some(c@),
                None => None,
            },
            message: self.message@,
            labels: self.labels@.map_values(|l: Label| l@),
            notes: self.notes@.map_values(|n: String| n@),
        }
    }
}

/// The views of a list of diagnostics, in order.
pub open spec fn diagnostics_view(d: Seq<Diagnostic>) -> Seq<DiagnosticView> {
    d.map_values(|x: Diagnostic| x@)
}

impl Label {
    /// A primary label with no message of its own.
    pub fn primary(file_id: usize, range: Span) -> (r: Label)
        ensures
            r@ == (LabelView { style: LabelStyle::Primary, file_id, range, message: Seq::empty() }),
    {
        Label { style: LabelStyle::Primary, file_id, range, message: String::new() }
    }
}

impl Diagnostic {
    /// Adds labels after the ones the diagnostic already has.
    pub fn with_labels(self, labels: Vec<Label>) -> (r: Diagnostic)
        ensures
            r@ == (DiagnosticView { labels: self@.labels + labels@.map_values(|l: Label| l@), ..self@ }),
    {
        let mut d = self;
        let mut more = labels;
        let ghost before = d.labels@;
        d.labels.append(&mut more);
        proof {
            assert(d.labels@.map_values(|l: Label| l@) =~= before.map_values(|l: Label| l@)
                + labels@.map_values(|l: Label| l@));
        }
        d
    }
}

/// The end of the placeholder name that starts at `i`.
pub open spec fn placeholder_end(t: Seq<char>, i: int) -> int
    decreases t.len() - i,
{
    if 0 <= i < t.len() && t[i] != '{' && t[i] != '}' && t[i] != ':' {
        placeholder_end(t, i + 1)
    } else {
        i
    }
}

/// The text that a template stands for once each `{name}` placeholder is
/// replaced by the value bound to `name`. Defined only for templates made of
/// such placeholders and characters other than braces, all of whose names
/// are bound.
pub open spec fn fill_template(t: Seq<char>, vars: Map<Seq<char>, Seq<char>>) -> Option<Seq<char>>
    decreases t.len(),
{
    if t.len() == 0 {
        Some(Seq::empty())
    } else if t[0] == '{' {
        let e = placeholder_end(t, 1);
        if 1 < e < t.len() && t[e] == '}' && vars.contains_key(t.subrange(1, e)) {
            match fill_template(t.subrange(e + 1, t.len() as int), vars) {
                Some(rest) => Some(vars[t.subrange(1, e)] + rest),
                None => None,
            }
        } else {
            None
        }
    } else if t[0] == '}' {
        None
    } else {
        match fill_template(t.drop_first(), vars) {
            Some(rest) => Some(seq![t[0]] + rest),
            None => None,
        }
    }
}

/// The bindings of a list of name/value pairs; a later pair wins over an
/// earlier one with the same name.
pub open spec fn vars_map(v: Seq<(String, String)>) -> Map<Seq<char>, Seq<char>>
    decreases v.len(),
{
    if v.len() == 0 {
        Map::empty()
    } else {
        vars_map(v.drop_last()).insert(v.last().0@, v.last().1@)
    }
}

/// Relies on `strfmt::strfmt`: every `{name}` placeholder of the template is
/// replaced by the value bound to `name` in a map collected from `vars`, and
/// every other character is copied.
#[verifier::external_body]
fn render(template: &str, vars: Vec<(String, String)>) -> (r: Option<String>)
    ensures
        fill_template(template@, vars_map(vars@)) is Some ==> r is Some,
        fill_template(template@, vars_map(vars@)) is Some ==> r->Some_0@ == fill_template(
            template@,
            vars_map(vars@),
        )->Some_0,
{
    let map: std::collections::HashMap<String, String> = vars.into_iter().collect();
    strfmt::strfmt(template, &map).ok()
}

proof fn lemma_fill_text(a: Seq<char>, rest: Seq<char>, vars: Map<Seq<char>, Seq<char>>)
    requires
        forall|i: int| 0 <= i < a.len() ==> #[trigger] a[i] != '{' && a[i] != '}',
    ensures
        fill_template(a + rest, vars) == match fill_template(rest, vars) {
            Some(r) => Some(a + r),
            None => None,
        },
    decreases a.len(),
{
    if a.len() == 0 {
        assert(a + rest =~= rest);
        match fill_template(rest, vars) {
            Some(r) => {
                assert(a + r =~= r);
            },
            None => {},
        }
    } else {
        assert((a + rest).drop_first() =~= a.drop_first() + rest);
        lemma_fill_text(a.drop_first(), rest, vars);
        match fill_template(rest, vars) {
            Some(r) => {
                assert(seq![a[0]] + (a.drop_first() + r) =~= a + r);
            },
            None => {},
        }
    }
}

proof fn lemma_placeholder_end(t: Seq<char>, i: int, e: int)
    requires
        1 <= i <= e < t.len(),
        t[e] == '}',
        forall|j: int| 1 <= j < e ==> #[trigger] t[j] != '{' && t[j] != '}' && t[j] != ':',
    ensures
        placeholder_end(t, i) == e,
    decreases e - i,
{
    if i < e {
        lemma_placeholder_end(t, i + 1, e);
    }
}

proof fn lemma_fill_placeholder(k: Seq<char>, rest: Seq<char>, vars: Map<Seq<char>, Seq<char>>)
    requires
        k.len() > 0,
        forall|i: int| 0 <= i < k.len() ==> #[trigger] k[i] != '{' && k[i] != '}' && k[i] != ':',
        vars.contains_key(k),
    ensures
        fill_template(seq!['{'] + k + seq!['}'] + rest, vars) == match fill_template(rest, vars) {
            Some(r) => Some(vars[k] + r),
            None => None,
        },
{
    let t = seq!['{'] + k + seq!['}'] + rest;
    let e = k.len() as int + 1;
    assert forall|j: int| 1 <= j < e implies #[trigger] t[j] != '{' && t[j] != '}' && t[j] != ':' by {
        assert(t[j] == k[j - 1]);
    }
    lemma_placeholder_end(t, 1, e);
    assert(t.subrange(1, e) =~= k);
    assert(t.subrange(e + 1, t.len() as int) =~= rest);
}

/// The message for a table that the catalog does not know.
pub open spec fn table_missing_message(table: Seq<char>) -> Seq<char> {
    "table `"@ + table + "` does not exist"@
}

/// The message for a column that the queried table does not have.
pub open spec fn column_missing_message(column: Seq<char>, table: Seq<char>) -> Seq<char> {
    "column `"@ + column + "` does not exist on table `"@ + table + "`"@
}

/// An error with the given code and message, and no labels or notes yet.
pub open spec fn error_view(code: Seq<char>, message: Seq<char>) -> DiagnosticView {
    DiagnosticView {
        severity: Severity::Error,
        code: Some(code),
        message,
        labels: Seq::empty(),
        notes: Seq::empty(),
    }
}

fn error_with(code: &str, message: String) -> (d: Diagnostic)
    ensures
        d@ == error_view(code@, message@),
{
    let d = Diagnostic {
        severity: Severity::Error,
        code: Some(code.to_owned()),
        message,
        labels: Vec::new(),
        notes: Vec::new(),
    };
    assert(d.labels@.map_values(|l: Label| l@) =~= Seq::<LabelView>::empty());
    assert(d.notes@.map_values(|n: String| n@) =~= Seq::<Seq<char>>::empty());
    d
}

/// `table `{table}` does not exist`, code `E0001`.
pub fn table_does_not_exist(table: &str) -> (d: Diagnostic)
    ensures
        d@ == error_view("E0001"@, table_missing_message(table@)),
{
    let mut vars: Vec<(String, String)> = Vec::new();
    vars.push(("table".to_owned(), table.to_owned()));
    let message = match render("table `{table}` does not exist", vars) {
        Some(m) => m,
        None => String::new(),
    };
    proof {
        reveal_strlit("table `{table}` does not exist");
        reveal_strlit("table `");
        reveal_strlit("table");
        reveal_strlit("` does not exist");
        let t = "table `{table}` does not exist"@;
        let bindings = vars_map(vars@);
        assert(vars@.drop_last() =~= Seq::<(String, String)>::empty());
        assert(vars_map(Seq::<(String, String)>::empty()) == Map::<Seq<char>, Seq<char>>::empty());
        assert(bindings =~= Map::<Seq<char>, Seq<char>>::empty().insert("table"@, table@));
        assert(t =~= "table `"@ + (seq!['{'] + "table"@ + seq!['}'] + "` does not exist"@));
        lemma_fill_text("` does not exist"@, Seq::empty(), bindings);
        assert("` does not exist"@ + Seq::<char>::empty() =~= "` does not exist"@);
        lemma_fill_placeholder("table"@, "` does not exist"@, bindings);
        lemma_fill_text("table `"@, seq!['{'] + "table"@ + seq!['}'] + "` does not exist"@, bindings);
        assert("table `"@ + (table@ + "` does not exist"@) =~= table_missing_message(table@));
    }
    error_with("E0001", message)
}

/// `column `{column}` does not exist on table `{table}``, code `E0001`.
pub fn column_does_not_exist(column: &str, table: &str) -> (d: Diagnostic)
    ensures
        d@ == error_view("E0001"@, column_missing_message(column@, table@)),
{
    let mut vars: Vec<(String, String)> = Vec::new();
    vars.push(("column".to_owned(), column.to_owned()));
    vars.push(("table".to_owned(), table.to_owned()));
    let message = match render("column `{column}` does not exist on table `{table}`", vars) {
        Some(m) => m,
        None => String::new(),
    };
    proof {
        reveal_strlit("column `{column}` does not exist on table `{table}`");
        reveal_strlit("column `");
        reveal_strlit("column");
        reveal_strlit("` does not exist on table `");
        reveal_strlit("table");
        reveal_strlit("`");
        let t = "column `{column}` does not exist on table `{table}`"@;
        let bindings = vars_map(vars@);
        assert(vars@.drop_last().drop_last() =~= Seq::<(String, String)>::empty());
        assert(vars@.drop_last() =~= seq![vars@[0]]);
        assert(vars_map(Seq::<(String, String)>::empty()) == Map::<Seq<char>, Seq<char>>::empty());
        assert(vars_map(vars@.drop_last()) =~= Map::<Seq<char>, Seq<char>>::empty().insert(
            "column"@,
            column@,
        ));
        assert(bindings =~= Map::<Seq<char>, Seq<char>>::empty().insert("column"@, column@).insert(
            "table"@,
            table@,
        ));
        assert("column"@.len() != "table"@.len());
        let tail = "` does not exist on table `"@ + (seq!['{'] + "table"@ + seq!['}'] + "`"@);
        assert(t =~= "column `"@ + (seq!['{'] + "column"@ + seq!['}'] + tail));
        lemma_fill_text("`"@, Seq::empty(), bindings);
        assert("`"@ + Seq::<char>::empty() =~= "`"@);
        lemma_fill_placeholder("table"@, "`"@, bindings);
        lemma_fill_text("` does not exist on table `"@, seq!['{'] + "table"@ + seq!['}'] + "`"@, bindings);
        lemma_fill_placeholder("column"@, tail, bindings);
        lemma_fill_text("column `"@, seq!['{'] + "column"@ + seq!['}'] + tail, bindings);
        assert("column `"@ + (column@ + ("` does not exist on table `"@ + (table@ + "`"@)))
            =~= column_missing_message(column@, table@));
    }
    error_with("E0001", message)
}

} // verus!
