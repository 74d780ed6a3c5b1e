//! Semantic analysis: resolves the queried table in the tenant's catalog,
//! checks the columns that stages refer to, and builds the logical plan.
//! Problems are collected as diagnostics; lowering fails exactly when it
//! collects one.

use vstd::prelude::*;

use crate::ast::{Expression, ExpressionView, Pipeline, PipelineView, Query, QueryView, Span, pipelines_view};
use crate::diagnostics::{
    column_does_not_exist, column_missing_message, diagnostics_view, error_view, table_does_not_exist,
    table_missing_message, Diagnostic, DiagnosticView, Label, LabelStyle, LabelView,
};
use crate::meta::{columns_view, TableColumn, TableColumnView};
use crate::plan::{
    names_view, scanned_table, AggregateFunction, LogicalPlan, LogicalPlanView, TableReference,
    TableReferenceView,
};

verus! {

#[derive(Clone, Copy, Debug, PartialEq, Eq, Structural)]
pub enum LowerError {
    /// The query is invalid; the reasons are in the lowerer's diagnostics.
    InvalidQuery,
}

/// What lowering needs to know about the session: whose tables are read, and
/// what they look like.
pub trait QueryContext {
    /// The tenant whose tables the query reads.
    spec fn tenant(&self) -> Seq<char>;

    /// The columns of the tenant's table `name`, if there is such a table.
    spec fn table_schema(&self, name: Seq<char>) -> Option<Seq<TableColumnView>>;

    fn get_tenant_id(&self) -> (r: &str)
        ensures
            r@ == self.tenant(),
    ;

    fn resolve_table(&self, name: &str) -> (r: Option<Vec<TableColumn>>)
        ensures
            self.table_schema(name@) == match r {
                Some(c) => Some(columns_view(c@)),
                None => None,
            },
    ;
}

/// The catalog under which every tenant's tables are found.
pub open spec fn catalog_name() -> Seq<char> {
    "prism"@
}

/// The fully qualified name of the tenant's table: tenants are told apart
/// by the schema component.
pub open spec fn scan_reference(tenant: Seq<char>, table: Seq<char>) -> TableReferenceView {
    TableReferenceView { catalog: catalog_name(), schema: tenant, table }
}

pub open spec fn has_column(columns: Seq<TableColumnView>, name: Seq<char>) -> bool {
    exists|i: int| 0 <= i < columns.len() && #[trigger] columns[i].name == name
}

/// `d` with a primary label on `span` added.
pub open spec fn labelled(d: DiagnosticView, file_id: usize, span: Span) -> DiagnosticView {
    DiagnosticView {
        labels: d.labels + seq![
            LabelView { style: LabelStyle::Primary, file_id, range: span, message: Seq::empty() },
        ],
        ..d
    }
}

/// The diagnostics of one stage: one for a group-by column that the table
/// does not have, none otherwise.
pub open spec fn stage_diagnostics(
    columns: Seq<TableColumnView>,
    table_name: Seq<char>,
    file_id: usize,
    stage: PipelineView,
) -> Seq<DiagnosticView> {
    match stage {
        PipelineView::Count(c) => match c.by {
            Some(ExpressionView::Column(col)) => if has_column(columns, col.name.name) {
                Seq::empty()
            } else {
                seq![
                    labelled(
                        error_view("E0001"@, column_missing_message(col.name.name, table_name)),
                        file_id,
                        col.name.span,
                    ),
                ]
            },
            None => Seq::empty(),
        },
    }
}

/// The diagnostics of a list of stages, stage by stage in order.
pub open spec fn stages_diagnostics(
    columns: Seq<TableColumnView>,
    table_name: Seq<char>,
    file_id: usize,
    stages: Seq<PipelineView>,
) -> Seq<DiagnosticView>
    decreases stages.len(),
{
    if stages.len() == 0 {
        Seq::empty()
    } else {
        stages_diagnostics(columns, table_name, file_id, stages.drop_last()) + stage_diagnostics(
            columns,
            table_name,
            file_id,
            stages.last(),
        )
    }
}

/// The operator that a valid stage puts on top of `p`.
pub open spec fn stage_plan(p: LogicalPlanView, stage: PipelineView) -> LogicalPlanView {
    match stage {
        PipelineView::Count(c) => LogicalPlanView::Aggregate {
            input: Box::new(p),
            group_by: match c.by {
                Some(ExpressionView::Column(col)) => seq![col.name.name],
                None => Seq::empty(),
            },
            aggregates: seq![AggregateFunction::CountAll],
        },
    }
}

/// The stages folded over `p` from left to right.
pub open spec fn stages_plan(p: LogicalPlanView, stages: Seq<PipelineView>) -> LogicalPlanView
    decreases stages.len(),
{
    if stages.len() == 0 {
        p
    } else {
        stage_plan(stages_plan(p, stages.drop_last()), stages.last())
    }
}

/// What lowering a query yields: a plan, or none and the reasons.
pub struct Lowering {
    pub plan: Option<LogicalPlanView>,
    pub diagnostics: Seq<DiagnosticView>,
}

/// Lowering of query `q` for `tenant`, whose table has the columns `schema`
/// (none if the table does not exist). A missing table stops lowering with
/// one diagnostic; otherwise every stage is checked and the plan exists
/// exactly when no stage has a diagnostic.
pub open spec fn lowering(
    tenant: Seq<char>,
    schema: Option<Seq<TableColumnView>>,
    table_name: Seq<char>,
    file_id: usize,
    q: QueryView,
) -> Lowering {
    match schema {
        None => Lowering {
            plan: None,
            diagnostics: seq![
                labelled(error_view("E0001"@, table_missing_message(q.table.name)), file_id, q.table.span),
            ],
        },
        Some(columns) => {
            let d = stages_diagnostics(columns, table_name, file_id, q.pipelines);
            Lowering {
                plan: if d.len() == 0 {
                    Some(
                        stages_plan(
                            LogicalPlanView::TableScan { table: scan_reference(tenant, q.table.name) },
                            q.pipelines,
                        ),
                    )
                } else {
                    None
                },
                diagnostics: d,
            }
        },
    }
}

/// Lowering succeeds exactly when it collects no diagnostic: never a plan
/// with diagnostics, never a failure without one.
pub proof fn lemma_lowering_fails_iff_diagnostics(
    tenant: Seq<char>,
    schema: Option<Seq<TableColumnView>>,
    table_name: Seq<char>,
    file_id: usize,
    q: QueryView,
)
    ensures
        lowering(tenant, schema, table_name, file_id, q).plan is Some <==> lowering(
            tenant,
            schema,
            table_name,
            file_id,
            q,
        ).diagnostics.len() == 0,
{
}

proof fn lemma_stages_keep_scan(p: LogicalPlanView, stages: Seq<PipelineView>)
    ensures
        scanned_table(stages_plan(p, stages)) == scanned_table(p),
    decreases stages.len(),
{
    if stages.len() > 0 {
        lemma_stages_keep_scan(p, stages.drop_last());
    }
}

/// A lowered plan reads the queried table under the catalog and the
/// tenant's schema, so plans of two distinct tenants never read the same
/// table, whatever the query.
pub proof fn lemma_tenant_isolation(
    t1: Seq<char>,
    t2: Seq<char>,
    schema1: Option<Seq<TableColumnView>>,
    schema2: Option<Seq<TableColumnView>>,
    table_name: Seq<char>,
    file_id: usize,
    q: QueryView,
)
    requires
        t1 != t2,
    ensures
        lowering(t1, schema1, table_name, file_id, q).plan matches Some(first) ==> scanned_table(first)
            == scan_reference(t1, q.table.name),
        lowering(t2, schema2, table_name, file_id, q).plan matches Some(second) ==> scanned_table(second)
            == scan_reference(t2, q.table.name),
        lowering(t1, schema1, table_name, file_id, q).plan matches Some(first) ==> lowering(
            t2,
            schema2,
            table_name,
            file_id,
            q,
        ).plan matches Some(second) ==> scanned_table(first).schema != scanned_table(second).schema,
{
    let scan1 = LogicalPlanView::TableScan { table: scan_reference(t1, q.table.name) };
    let scan2 = LogicalPlanView::TableScan { table: scan_reference(t2, q.table.name) };
    lemma_stages_keep_scan(scan1, q.pipelines);
    lemma_stages_keep_scan(scan2, q.pipelines);
}

/// Lowers queries against one table, collecting diagnostics as it goes.
pub struct Lowerer<C: QueryContext> {
    ctx: C,
    file_id: usize,
    diagnostics: Vec<Diagnostic>,
    table_name: String,
}

fn count_all() -> (r: Vec<AggregateFunction>)
    ensures
        r@ == seq![AggregateFunction::CountAll],
{
    let mut r = Vec::new();
    r.push(AggregateFunction::CountAll);
    r
}

fn primary_label(file_id: usize, span: Span) -> (r: Vec<Label>)
    ensures
        r@.map_values(|l: Label| l@) == seq![
            LabelView { style: LabelStyle::Primary, file_id, range: span, message: Seq::<char>::empty() },
        ],
{
    let mut r = Vec::new();
    r.push(Label::primary(file_id, span));
    assert(r@.map_values(|l: Label| l@) =~= seq![
        LabelView { style: LabelStyle::Primary, file_id, range: span, message: Seq::<char>::empty() },
    ]);
    r
}

fn has_column_named(columns: &Vec<TableColumn>, name: &String) -> (r: bool)
    ensures
        r == has_column(columns_view(columns@), name@),
{
    let mut i: usize = 0;
    while i < columns.len()
        invariant
            i <= columns@.len(),
            forall|j: int| 0 <= j < i ==> columns@[j].name@ != name@,
        decreases columns@.len() - i,
    {
        if columns[i].name == *name {
            assert(columns_view(columns@)[i as int].name == name@);
            return true;
        }
        i = i + 1;
    }
    assert forall|j: int| 0 <= j < columns_view(columns@).len() implies #[trigger] columns_view(
        columns@,
    )[j].name != name@ by {
        assert(columns_view(columns@)[j].name == columns@[j].name@);
    }
    false
}

impl<C: QueryContext> Lowerer<C> {
    pub closed spec fn context(&self) -> C {
        self.ctx
    }

    pub closed spec fn file(&self) -> usize {
        self.file_id
    }

    /// The table name that column diagnostics mention.
    pub closed spec fn table(&self) -> Seq<char> {
        self.table_name@
    }

    /// The diagnostics collected so far, in order.
    pub closed spec fn collected(&self) -> Seq<DiagnosticView> {
        diagnostics_view(self.diagnostics@)
    }

    /// What lowering `q` with this lowerer yields.
    pub open spec fn outcome(&self, q: QueryView) -> Lowering {
        lowering(
            self.context().tenant(),
            self.context().table_schema(q.table.name),
            self.table(),
            self.file(),
            q,
        )
    }

    pub fn new(ctx: C, file_id: usize, table_name: String) -> (r: Self)
        ensures
            r.context() == ctx,
            r.file() == file_id,
            r.table() == table_name@,
            r.collected() == Seq::<DiagnosticView>::empty(),
    {
        let r = Lowerer { ctx, file_id, diagnostics: Vec::new(), table_name };
        assert(r.collected() =~= Seq::<DiagnosticView>::empty());
        r
    }

    pub fn diagnostics(&self) -> (r: &[Diagnostic])
        ensures
            diagnostics_view(r@) == self.collected(),
    {
        self.diagnostics.as_slice()
    }

    /// Lowers `query`. The diagnostics it finds are added to the lowerer's;
    /// it returns a plan exactly when it finds none.
    pub fn lower(&mut self, query: Query) -> (r: Result<LogicalPlan, LowerError>)
        ensures
            final(self).context() == old(self).context(),
            final(self).file() == old(self).file(),
            final(self).table() == old(self).table(),
            final(self).collected() == old(self).collected() + old(self).outcome(query@).diagnostics,
            match r {
                Ok(p) => old(self).outcome(query@).plan == Some(p@),
                Err(e) => old(self).outcome(query@).plan is None && e == LowerError::InvalidQuery,
            },
    {
        let ghost q = query@;
        let ghost start = diagnostics_view(self.diagnostics@);
        let ghost out = self.outcome(q);
        let columns = match self.ctx.resolve_table(query.table.name.as_str()) {
            Some(c) => c,
            None => {
                let d = table_does_not_exist(query.table.name.as_str()).with_labels(
                    primary_label(self.file_id, query.table.span),
                );
                self.diagnostics.push(d);
                assert(diagnostics_view(self.diagnostics@) =~= start + out.diagnostics);
                return Err(LowerError::InvalidQuery);
            },
        };
        let ghost cv = columns_view(columns@);
        let ghost pv = q.pipelines;
        let tenant = self.ctx.get_tenant_id().to_owned();
        let mut plan = LogicalPlan::scan(
            TableReference { catalog: "prism".to_owned(), schema: tenant, table: query.table.name.clone() },
        );
        let ghost scan = plan@;
        let mut failed = false;
        let n = query.pipelines.len();
        let mut i: usize = 0;
        assert(pv.take(0) =~= Seq::<PipelineView>::empty());
        assert(start + Seq::<DiagnosticView>::empty() =~= start);
        while i < n
            invariant
                n == query.pipelines@.len(),
                q == query@,
                pv == q.pipelines,
                pv == pipelines_view(query.pipelines@),
                self.ctx == old(self).ctx,
                self.file_id == old(self).file_id,
                self.table_name == old(self).table_name,
                start == diagnostics_view(old(self).diagnostics@),
                out == old(self).outcome(q),
                Some(cv) == old(self).ctx.table_schema(q.table.name),
                cv == columns_view(columns@),
                scan == (LogicalPlanView::TableScan {
                    table: scan_reference(old(self).ctx.tenant(), q.table.name),
                }),
                i <= n,
                diagnostics_view(self.diagnostics@) == start + stages_diagnostics(
                    cv,
                    self.table_name@,
                    self.file_id,
                    pv.take(i as int),
                ),
                failed == (stages_diagnostics(cv, self.table_name@, self.file_id, pv.take(i as int)).len()
                    > 0),
                !failed ==> plan@ == stages_plan(scan, pv.take(i as int)),
            decreases n - i,
        {
            let ghost before = diagnostics_view(self.diagnostics@);
            assert(pv.take(i + 1).drop_last() =~= pv.take(i as int));
            assert(pv.take(i + 1).last() == query.pipelines@[i as int]@);
            let ghost stage = pv[i as int];
            match &query.pipelines[i] {
                Pipeline::Count(count) => {
                    assert(stage == PipelineView::Count(count@));
                    match &count.by {
                        None => {
                            plan = plan.aggregate(Vec::new(), count_all());
                            proof {
                                assert(plan@ == stage_plan(stages_plan(scan, pv.take(i as int)), pv[i as int])
                                    || failed) by {
                                    if !failed {
                                        assert(names_view(Seq::<String>::empty()) =~= Seq::<Seq<char>>::empty());
                                    }
                                }
                                assert(before + Seq::<DiagnosticView>::empty() =~= before);
                                assert(stage_diagnostics(cv, self.table_name@, self.file_id, stage)
                                    =~= Seq::<DiagnosticView>::empty());
                            }
                        },
                        Some(Expression::Column(col)) => {
                            assert(count@.by == Some(ExpressionView::Column(col@)));
                            if has_column_named(&columns, &col.name.name) {
                                let mut group_by: Vec<String> = Vec::new();
                                group_by.push(col.name.name.clone());
                                proof {
                                    assert(names_view(group_by@) =~= seq![col.name.name@]);
                                }
                                plan = plan.aggregate(group_by, count_all());
                                assert(before + Seq::<DiagnosticView>::empty() =~= before);
                                assert(stage_diagnostics(cv, self.table_name@, self.file_id, stage)
                                    =~= Seq::<DiagnosticView>::empty());
                            } else {
                                let d = column_does_not_exist(
                                    col.name.name.as_str(),
                                    self.table_name.as_str(),
                                ).with_labels(primary_label(self.file_id, col.name.span));
                                self.diagnostics.push(d);
                                failed = true;
                                assert(diagnostics_view(self.diagnostics@) =~= before + seq![d@]);
                                assert(stage_diagnostics(cv, self.table_name@, self.file_id, stage)
                                    =~= seq![d@]);
                            }
                        },
                    }
                },
            }
            proof {
                assert(start + stages_diagnostics(cv, self.table_name@, self.file_id, pv.take(i + 1))
                    =~= diagnostics_view(self.diagnostics@));
            }
            i = i + 1;
        }
        assert(pv.take(n as int) =~= pv);
        if failed {
            Err(LowerError::InvalidQuery)
        } else {
            Ok(plan)
        }
    }
}

/// Lowers `query` for the context's tenant. On failure, returns the
/// diagnostics that explain it, which are never empty.
pub fn lower<C: QueryContext>(query: Query, ctx: C, file_id: usize) -> (r: Result<
    LogicalPlan,
    Vec<Diagnostic>,
>)
    ensures
        ({
            let out = lowering(
                ctx.tenant(),
                ctx.table_schema(query.table.name@),
                query.table.name@,
                file_id,
                query@,
            );
            match r {
                Ok(p) => out.plan == Some(p@) && out.diagnostics.len() == 0,
                Err(d) => out.plan is None && diagnostics_view(d@) == out.diagnostics && d@.len() > 0,
            }
        }),
{
    let table_name = query.table.name.clone();
    let mut lowerer = Lowerer::new(ctx, file_id, table_name);
    let ghost q = query@;
    let r = lowerer.lower(query);
    proof {
        lemma_lowering_fails_iff_diagnostics(
            ctx.tenant(),
            ctx.table_schema(q.table.name),
            q.table.name,
            file_id,
            q,
        );
        assert(Seq::<DiagnosticView>::empty() + lowerer.outcome(q).diagnostics =~= lowerer.outcome(
            q,
        ).diagnostics);
    }
    match r {
        Ok(plan) => Ok(plan),
        Err(_) => Err(lowerer.diagnostics),
    }
}

} // verus!
