use prism::ast::Span;
use prism::context::StaticQueryContext;
use prism::diagnostics::{LabelStyle, Severity};
use prism::lower::{LowerError, Lowerer};
use prism::meta::TableColumn;
use prism::plan::{AggregateFunction, LogicalPlan};
use prism::{lower, parse};

fn context() -> StaticQueryContext {
    let mut ctx = StaticQueryContext::new("tenant");
    ctx.add_table(
        "http_requests",
        vec![
            TableColumn { name: "bytes".to_string(), column_type: 1 },
            TableColumn { name: "method".to_string(), column_type: 2 },
        ],
    );
    ctx
}

fn scan_of(plan: &LogicalPlan) -> (String, String, String) {
    match plan {
        LogicalPlan::TableScan { table } => {
            (table.catalog.clone(), table.schema.clone(), table.table.clone())
        }
        LogicalPlan::Aggregate { input, .. } => scan_of(input),
    }
}

fn top_aggregate(plan: &LogicalPlan) -> (Vec<String>, Vec<AggregateFunction>, &LogicalPlan) {
    match plan {
        LogicalPlan::Aggregate { input, group_by, aggregates } => {
            (group_by.clone(), aggregates.clone(), input)
        }
        LogicalPlan::TableScan { .. } => panic!("expected an aggregate"),
    }
}

fn scan_ref(tenant: &str) -> (String, String, String) {
    ("prism".to_string(), tenant.to_string(), "http_requests".to_string())
}

#[test]
fn lower_basic_count() {
    let query = parse("http_requests | count").unwrap();
    let mut lowerer = Lowerer::new(context(), 1, "http_requests".to_string());
    let plan = lowerer.lower(query).unwrap();
    let (group_by, aggregates, input) = top_aggregate(&plan);
    assert!(group_by.is_empty());
    assert_eq!(aggregates, vec![AggregateFunction::CountAll]);
    assert!(matches!(input, LogicalPlan::TableScan { .. }));
    assert_eq!(scan_of(&plan), scan_ref("tenant"));
    assert!(lowerer.diagnostics().is_empty());
}

#[test]
fn basic_count_by() {
    let query = parse("http_requests | count by method").unwrap();
    let mut lowerer = Lowerer::new(context(), 1, "http_requests".to_string());
    let plan = lowerer.lower(query).unwrap();
    let (group_by, aggregates, input) = top_aggregate(&plan);
    assert_eq!(group_by, vec!["method".to_string()]);
    assert_eq!(aggregates, vec![AggregateFunction::CountAll]);
    assert!(matches!(input, LogicalPlan::TableScan { .. }));
    assert_eq!(scan_of(&plan), scan_ref("tenant"));
    assert!(lowerer.diagnostics().is_empty());
}

#[test]
fn count_by_invalid_column() {
    let query = parse("http_requests | count by something").unwrap();
    let mut lowerer = Lowerer::new(context(), 1, "http_requests".to_string());
    assert_eq!(lowerer.lower(query).unwrap_err(), LowerError::InvalidQuery);
    let diags = lowerer.diagnostics();
    assert_eq!(diags.len(), 1);
    let d = &diags[0];
    assert_eq!(d.severity, Severity::Error);
    assert_eq!(d.code.as_deref(), Some("E0001"));
    assert_eq!(d.message, "column `something` does not exist on table `http_requests`");
    assert_eq!(d.labels.len(), 1);
    assert_eq!(d.labels[0].style, LabelStyle::Primary);
    assert_eq!(d.labels[0].file_id, 1);
    assert_eq!(d.labels[0].range, Span { start: 25, end: 34 });
    assert_eq!(d.labels[0].message, "");
    assert!(d.notes.is_empty());
}

#[test]
fn missing_table_short_circuits() {
    let query = parse("http_requests2 | count by something").unwrap();
    let diags = lower(query, context(), 1).unwrap_err();
    assert_eq!(diags.len(), 1);
    assert_eq!(diags[0].code.as_deref(), Some("E0001"));
    assert_eq!(diags[0].message, "table `http_requests2` does not exist");
    assert_eq!(diags[0].labels.len(), 1);
    assert_eq!(diags[0].labels[0].range, Span { start: 0, end: 14 });
}

#[test]
fn missing_table_scenario() {
    let query = parse("http_requests2 | count").unwrap();
    let diags = lower(query, context(), 7).unwrap_err();
    assert_eq!(diags.len(), 1);
    assert_eq!(diags[0].message, "table `http_requests2` does not exist");
    assert_eq!(diags[0].labels[0].file_id, 7);
}

#[test]
fn diagnostics_accumulate_across_stages() {
    let query = parse("http_requests | count by a | count | count by b").unwrap();
    let diags = lower(query, context(), 1).unwrap_err();
    assert_eq!(diags.len(), 2);
    assert_eq!(diags[0].message, "column `a` does not exist on table `http_requests`");
    assert_eq!(diags[0].labels[0].range, Span { start: 25, end: 26 });
    assert_eq!(diags[1].message, "column `b` does not exist on table `http_requests`");
    assert_eq!(diags[1].labels[0].range, Span { start: 46, end: 47 });
}

#[test]
fn success_means_no_diagnostics() {
    for text in ["http_requests", "http_requests | count | count by bytes", "http_requests | count by x"] {
        let query = parse(text).unwrap();
        let mut lowerer = Lowerer::new(context(), 1, "http_requests".to_string());
        let r = lowerer.lower(query);
        assert_eq!(r.is_ok(), lowerer.diagnostics().is_empty());
    }
}

#[test]
fn stages_fold_left_to_right() {
    let query = parse("http_requests | count by method | count").unwrap();
    let plan = lower(query, context(), 1).unwrap();
    let (outer_group, _, inner) = top_aggregate(&plan);
    assert!(outer_group.is_empty());
    let (inner_group, _, scan) = top_aggregate(inner);
    assert_eq!(inner_group, vec!["method".to_string()]);
    assert!(matches!(scan, LogicalPlan::TableScan { .. }));
}

#[test]
fn bare_table_is_a_scan() {
    let plan = lower(parse("http_requests").unwrap(), context(), 1).unwrap();
    assert!(matches!(plan, LogicalPlan::TableScan { .. }));
    assert_eq!(scan_of(&plan), scan_ref("tenant"));
}

#[test]
fn tenants_are_isolated() {
    let mut other = StaticQueryContext::new("other");
    other.add_table("http_requests", vec![TableColumn { name: "method".to_string(), column_type: 2 }]);
    let a = lower(parse("http_requests | count").unwrap(), context(), 1).unwrap();
    let b = lower(parse("http_requests | count").unwrap(), other, 1).unwrap();
    assert_eq!(scan_of(&a), scan_ref("tenant"));
    assert_eq!(scan_of(&b), scan_ref("other"));
    assert_ne!(scan_of(&a).1, scan_of(&b).1);
}

#[test]
fn lowerer_keeps_earlier_diagnostics() {
    let mut lowerer = Lowerer::new(context(), 1, "http_requests".to_string());
    assert!(lowerer.lower(parse("http_requests | count by nope").unwrap()).is_err());
    assert!(lowerer.lower(parse("http_requests | count").unwrap()).is_ok());
    assert_eq!(lowerer.diagnostics().len(), 1);
}
