//! The syntax tree of a PQL query. Every node carries the byte range of the
//! query text that it was read from.

use vstd::prelude::*;

verus! {

/// A byte range `[start, end)` of the query text.
#[derive(Clone, Copy, Debug, PartialEq, Eq, Structural)]
pub struct Span {
    pub start: usize,
    pub end: usize,
}

impl Span {
    pub fn new(start: usize, end: usize) -> (r: Span)
        ensures
            r == (Span { start, end }),
    {
        Span { start, end }
    }
}

/// A name with the span that it was read from.
#[derive(Clone, Debug)]
pub struct Identifier {
    pub span: Span,
    pub name: String,
}

/// A reference to a column of the queried table.
#[derive(Clone, Debug)]
pub struct ColumnExpression {
    pub span: Span,
    pub name: Identifier,
}

#[derive(Clone, Debug)]
pub enum Expression {
    Column(ColumnExpression),
}

/// The `count` stage, with an optional `by` expression to group on.
#[derive(Clone, Debug)]
pub struct Count {
    pub span: Span,
    pub by: Option<Expression>,
}

/// One `|`-separated stage of a query.
#[derive(Clone, Debug)]
pub enum Pipeline {
    Count(Count),
}

/// A whole query: the table it reads and the stages applied to it, in order.
#[derive(Clone, Debug)]
pub struct Query {
    pub span: Span,
    pub table: Identifier,
    pub pipelines: Vec<Pipeline>,
}

pub struct IdentifierView {
    pub span: Span,
    pub name: Seq<char>,
}

pub struct ColumnExpressionView {
    pub span: Span,
    pub name: IdentifierView,
}

pub enum ExpressionView {
    Column(ColumnExpressionView),
}

pub struct CountView {
    pub span: Span,
    pub by: Option<ExpressionView>,
}

pub enum PipelineView {
    Count(CountView),
}

pub struct QueryView {
    pub span: Span,
    pub table: IdentifierView,
    pub pipelines: Seq<PipelineView>,
}

impl View for Identifier {
    type V = IdentifierView;

    open spec fn view(&self) -> IdentifierView {
        IdentifierView { span: self.span, name: self.name@ }
    }
}

impl View for ColumnExpression {
    type V = ColumnExpressionView;

    open spec fn view(&self) -> ColumnExpressionView {
        ColumnExpressionView { span: self.span, name: self.name@ }
    }
}

impl View for Expression {
    type V = ExpressionView;

    open spec fn view(&self) -> ExpressionView {
        match self {
            Expression::Column(c) => ExpressionView::Column(c@),
        }
    }
}

impl View for Count {
    type V = CountView;

    open spec fn view(&self) -> CountView {
        CountView {
            span: self.span,
            by: match self.by {
                Some(e) => Some(e@),
                None => None,
            },
        }
    }
}

impl View for Pipeline {
    type V = PipelineView;

    open spec fn view(&self) -> PipelineView {
        match self {
            Pipeline::Count(c) => PipelineView::Count(c@),
        }
    }
}

/// The views of a list of stages, in order.
pub open spec fn pipelines_view(p: Seq<Pipeline>) -> Seq<PipelineView> {
    p.map_values(|x: Pipeline| x@)
}

impl View for Query {
    type V = QueryView;

    open spec fn view(&self) -> QueryView {
        QueryView { span: self.span, table: self.table@, pipelines: pipelines_view(self.pipelines@) }
    }
}

} // verus!
