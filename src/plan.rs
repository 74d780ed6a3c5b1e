//! The logical plan that lowering produces: a scan of a fully qualified
//! table, with aggregate operators stacked on top of it.

use vstd::prelude::*;

verus! {

/// A table named by catalog, schema (the tenant) and table name.
#[derive(Clone, Debug, PartialEq)]
pub struct TableReference {
    pub catalog: String,
    pub schema: String,
    pub table: String,
}

#[derive(Clone, Copy, Debug, PartialEq, Eq, Structural)]
pub enum AggregateFunction {
    /// `COUNT(*)`: the number of rows.
    CountAll,
}

#[derive(Debug)]
pub enum LogicalPlan {
    TableScan { table: TableReference },
    Aggregate {
        input: Box<LogicalPlan>,
        /// The columns to group on; none for a single group of all rows.
        group_by: Vec<String>,
        aggregates: Vec<AggregateFunction>,
    },
}

pub struct TableReferenceView {
    pub catalog: Seq<char>,
    pub schema: Seq<char>,
    pub table: Seq<char>,
}

pub enum LogicalPlanView {
    TableScan { table: TableReferenceView },
    Aggregate {
        input: Box<LogicalPlanView>,
        group_by: Seq<Seq<char>>,
        aggregates: Seq<AggregateFunction>,
    },
}

impl View for TableReference {
    type V = TableReferenceView;

    open spec fn view(&self) -> TableReferenceView {
        TableReferenceView { catalog: self.catalog@, schema: self.schema@, table: self.table@ }
    }
}

/// The views of a list of names, in order.
pub open spec fn names_view(v: Seq<String>) -> Seq<Seq<char>> {
    v.map_values(|s: String| s@)
}

pub open spec fn plan_view(p: LogicalPlan) -> LogicalPlanView
    decreases p,
{
    match p {
        LogicalPlan::TableScan { table } => LogicalPlanView::TableScan { table: table@ },
        LogicalPlan::Aggregate { input, group_by, aggregates } => LogicalPlanView::Aggregate {
            input: Box::new(plan_view(*input)),
            group_by: names_view(group_by@),
            aggregates: aggregates@,
        },
    }
}

impl View for LogicalPlan {
    type V = LogicalPlanView;

    open spec fn view(&self) -> LogicalPlanView {
        plan_view(*self)
    }
}

/// The table that a plan reads, found under its operators.
pub open spec fn scanned_table(p: LogicalPlanView) -> TableReferenceView
    decreases p,
{
    match p {
        LogicalPlanView::TableScan { table } => table,
        LogicalPlanView::Aggregate { input, .. } => scanned_table(*input),
    }
}

impl LogicalPlan {
    /// A plan that reads every row of `table`.
    pub fn scan(table: TableReference) -> (r: LogicalPlan)
        ensures
            r@ == (LogicalPlanView::TableScan { table: table@ }),
    {
        LogicalPlan::TableScan { table }
    }

    /// This plan with an aggregate on top of it.
    pub fn aggregate(self, group_by: Vec<String>, aggregates: Vec<AggregateFunction>) -> (r: LogicalPlan)
        ensures
            r@ == (LogicalPlanView::Aggregate {
                input: Box::new(self@),
                group_by: names_view(group_by@),
                aggregates: aggregates@,
            }),
    {
        LogicalPlan::Aggregate { input: Box::new(self), group_by, aggregates }
    }
}

} // verus!
