use sql_plan_bridge::ast::BinOp;
use sql_plan_bridge::ast::Distinct;
use sql_plan_bridge::ast::GroupByExpr;
use sql_plan_bridge::ast::Ident;
use sql_plan_bridge::ast::LimitClause;
use sql_plan_bridge::ast::ObjectName;
use sql_plan_bridge::ast::Offset;
use sql_plan_bridge::ast::OrderBy;
use sql_plan_bridge::ast::OrderByExpr;
use sql_plan_bridge::ast::OrderByKind;
use sql_plan_bridge::ast::OrderByOptions;
use sql_plan_bridge::ast::Query;
use sql_plan_bridge::ast::Select;
use sql_plan_bridge::ast::SelectFlavor;
use sql_plan_bridge::ast::SelectInto;
use sql_plan_bridge::ast::SelectItem;
use sql_plan_bridge::ast::SetExpr;
use sql_plan_bridge::ast::SetOperator;
use sql_plan_bridge::ast::SetQuantifier;
use sql_plan_bridge::ast::SqlExpr;
use sql_plan_bridge::ast::TableFactor;
use sql_plan_bridge::ast::TableWithJoins;
use sql_plan_bridge::context::PlannerContext;
use sql_plan_bridge::errors::PlanError;
use sql_plan_bridge::plan::DistinctKind;
use sql_plan_bridge::plan::DistinctOn;
use sql_plan_bridge::plan::Plan;
use sql_plan_bridge::plan::PlanExpr;
use sql_plan_bridge::plan::SortExpr;
use sql_plan_bridge::plan::TableReference;
use sql_plan_bridge::planner::to_order_by_exprs_with_select;
use sql_plan_bridge::planner::QueryPlanner;
use sql_plan_bridge::simple::SimpleDelegate;
use std::sync::Arc;

fn ident(name: &str) -> Ident {
    Ident { value: name.to_string(), quoted: false }
}

fn table_name(name: &str) -> ObjectName {
    ObjectName { parts: vec![ident(name)] }
}

fn select_from(table: &str) -> Select {
    Select {
        distinct: None,
        top: None,
        projection: vec![SelectItem::Wildcard],
        into: None,
        from: vec![TableWithJoins {
            relation: TableFactor::Table {
                name: table_name(table),
                alias: None,
                args: None,
                with_hints: vec![],
                version: None,
                partitions: vec![],
                index_hints: vec![],
            },
            joins: vec![],
        }],
        lateral_views: vec![],
        selection: None,
        group_by: GroupByExpr::Expressions(vec![]),
        cluster_by: vec![],
        distribute_by: vec![],
        sort_by: vec![],
        having: None,
        named_window: vec![],
        qualify: None,
        value_table_mode: None,
        flavor: SelectFlavor::Standard,
    }
}

fn bare_query(table: &str) -> Query {
    Query {
        with: None,
        body: Box::new(SetExpr::Select(Box::new(select_from(table)))),
        order_by: None,
        limit_clause: None,
        fetch: None,
        locks: vec![],
        for_clause: None,
    }
}

fn scan(table: &str) -> Plan {
    Plan::TableScan { name: table.to_string() }
}

#[test]
fn bare_select_query_is_exactly_the_delegated_plan() {
    let delegate = SimpleDelegate;
    let planner = QueryPlanner::new(&delegate);
    let mut ctx = PlannerContext::new();
    let plan = planner.query_to_plan(bare_query("t"), &mut ctx).unwrap();
    assert_eq!(plan, scan("t"));
}

#[test]
fn bare_set_operation_query_is_exactly_the_delegated_plan() {
    let delegate = SimpleDelegate;
    let planner = QueryPlanner::new(&delegate);
    let mut ctx = PlannerContext::new();
    let body = SetExpr::SetOperation {
        op: SetOperator::Union,
        quantifier: SetQuantifier::All,
        left: Box::new(SetExpr::Select(Box::new(select_from("a")))),
        right: Box::new(SetExpr::Select(Box::new(select_from("b")))),
    };
    let query = Query { body: Box::new(body), ..bare_query("t") };
    let plan = planner.query_to_plan(query, &mut ctx).unwrap();
    assert_eq!(plan, Plan::EmptyRelation);
}

#[test]
fn limit_without_clause_returns_input_unchanged() {
    let delegate = SimpleDelegate;
    let planner = QueryPlanner::new(&delegate);
    let ctx = PlannerContext::new();
    let out = planner.limit(scan("t"), None, &ctx).unwrap();
    assert_eq!(out, scan("t"));
}

#[test]
fn limit_with_absent_skip_and_fetch_returns_input_unchanged() {
    let delegate = SimpleDelegate;
    let planner = QueryPlanner::new(&delegate);
    let ctx = PlannerContext::new();
    let clause = LimitClause::LimitOffset { limit: None, offset: None, limit_by: vec![] };
    let out = planner.limit(scan("t"), Some(clause), &ctx).unwrap();
    assert_eq!(out, scan("t"));
}

#[test]
fn limit_by_is_rejected_as_not_implemented() {
    let delegate = SimpleDelegate;
    let planner = QueryPlanner::new(&delegate);
    let ctx = PlannerContext::new();
    let clause = LimitClause::LimitOffset {
        limit: None,
        offset: None,
        limit_by: vec![SqlExpr::Number(1)],
    };
    match planner.limit(scan("t"), Some(clause), &ctx) {
        Err(PlanError::NotImplemented(msg)) => {
            assert_eq!(msg, "LIMIT BY clause is not supported yet");
        }
        other => panic!("expected NotImplemented, got {:?}", other),
    }
}

#[test]
fn limit_by_is_rejected_whatever_skip_and_fetch_hold() {
    let delegate = SimpleDelegate;
    let planner = QueryPlanner::new(&delegate);
    let ctx = PlannerContext::new();
    let clause = LimitClause::LimitOffset {
        limit: Some(SqlExpr::Number(10)),
        offset: Some(Offset { value: SqlExpr::Number(5) }),
        limit_by: vec![SqlExpr::Number(1), SqlExpr::Number(2)],
    };
    match planner.limit(scan("t"), Some(clause), &ctx) {
        Err(PlanError::NotImplemented(msg)) => {
            assert_eq!(msg, "LIMIT BY clause is not supported yet");
        }
        other => panic!("expected NotImplemented, got {:?}", other),
    }
}

#[test]
fn limit_wraps_input_with_resolved_skip_and_fetch() {
    let delegate = SimpleDelegate;
    let planner = QueryPlanner::new(&delegate);
    let ctx = PlannerContext::new();
    let clause = LimitClause::LimitOffset {
        limit: Some(SqlExpr::Number(10)),
        offset: Some(Offset { value: SqlExpr::Number(5) }),
        limit_by: vec![],
    };
    let out = planner.limit(scan("t"), Some(clause), &ctx).unwrap();
    assert_eq!(
        out,
        Plan::Limit {
            skip: Some(PlanExpr::Literal(5)),
            fetch: Some(PlanExpr::Literal(10)),
            input: Box::new(scan("t")),
        }
    );
}

#[test]
fn limit_comma_form_resolves_both_offset_and_limit() {
    let delegate = SimpleDelegate;
    let planner = QueryPlanner::new(&delegate);
    let ctx = PlannerContext::new();
    let clause = LimitClause::OffsetCommaLimit {
        offset: SqlExpr::Number(3),
        limit: SqlExpr::Number(7),
    };
    let out = planner.limit(scan("t"), Some(clause), &ctx).unwrap();
    assert_eq!(
        out,
        Plan::Limit {
            skip: Some(PlanExpr::Literal(3)),
            fetch: Some(PlanExpr::Literal(7)),
            input: Box::new(scan("t")),
        }
    );
}

#[test]
fn limit_propagates_delegated_expression_failure() {
    let delegate = SimpleDelegate;
    let planner = QueryPlanner::new(&delegate);
    let ctx = PlannerContext::new();
    let clause = LimitClause::LimitOffset {
        limit: Some(SqlExpr::Identifier(ident("n"))),
        offset: None,
        limit_by: vec![],
    };
    match planner.limit(scan("t"), Some(clause), &ctx) {
        Err(PlanError::Planning(_)) => {}
        other => panic!("expected a planning failure, got {:?}", other),
    }
}

fn x_asc() -> SortExpr {
    SortExpr { expr: PlanExpr::Column { name: "x".to_string() }, asc: true, nulls_first: false }
}

#[test]
fn order_by_attaches_sort_list_to_distinct_on_without_a_sort_node() {
    let delegate = SimpleDelegate;
    let planner = QueryPlanner::new(&delegate);
    let plan = Plan::Distinct(DistinctKind::On(DistinctOn {
        on_expr: vec![PlanExpr::Column { name: "k".to_string() }],
        select_expr: vec![PlanExpr::Column { name: "x".to_string() }],
        sort_expr: None,
        input: Box::new(scan("t")),
    }));
    let out = planner.order_by(plan, vec![x_asc()]).unwrap();
    assert_eq!(
        out,
        Plan::Distinct(DistinctKind::On(DistinctOn {
            on_expr: vec![PlanExpr::Column { name: "k".to_string() }],
            select_expr: vec![PlanExpr::Column { name: "x".to_string() }],
            sort_expr: Some(vec![x_asc()]),
            input: Box::new(scan("t")),
        }))
    );
}

#[test]
fn order_by_wraps_other_plans_in_a_sort_node() {
    let delegate = SimpleDelegate;
    let planner = QueryPlanner::new(&delegate);
    let plan = Plan::Projection {
        exprs: vec![PlanExpr::Column { name: "x".to_string() }],
        input: Box::new(scan("t")),
    };
    let out = planner.order_by(plan, vec![x_asc()]).unwrap();
    assert_eq!(
        out,
        Plan::Sort {
            exprs: vec![x_asc()],
            input: Box::new(Plan::Projection {
                exprs: vec![PlanExpr::Column { name: "x".to_string() }],
                input: Box::new(scan("t")),
            }),
        }
    );
}

#[test]
fn order_by_with_empty_list_is_a_no_op() {
    let delegate = SimpleDelegate;
    let planner = QueryPlanner::new(&delegate);
    let out = planner.order_by(scan("t"), vec![]).unwrap();
    assert_eq!(out, scan("t"));
}

#[test]
fn select_into_without_target_returns_input_unchanged() {
    let delegate = SimpleDelegate;
    let planner = QueryPlanner::new(&delegate);
    let out = planner.select_into(scan("t"), None).unwrap();
    assert_eq!(out, scan("t"));
}

#[test]
fn select_into_wraps_input_in_a_create_memory_table_node() {
    let delegate = SimpleDelegate;
    let planner = QueryPlanner::new(&delegate);
    let out = planner
        .select_into(scan("t"), Some(SelectInto { name: table_name("target") }))
        .unwrap();
    match out {
        Plan::Ddl(cmt) => {
            assert_eq!(cmt.name, TableReference::Bare { table: "target".to_string() });
            assert!(cmt.constraints.is_empty());
            assert!(cmt.column_defaults.is_empty());
            assert!(!cmt.if_not_exists);
            assert!(!cmt.or_replace);
            assert!(!cmt.temporary);
            assert_eq!(*cmt.input, scan("t"));
        }
        other => panic!("expected a DDL node, got {:?}", other),
    }
}

#[test]
fn order_by_all_desc_expands_over_plain_columns() {
    let order_by = OrderBy {
        kind: OrderByKind::All(OrderByOptions { asc: Some(false), nulls_first: None }),
        interpolate: false,
    };
    let select_exprs = vec![
        PlanExpr::Column { name: "colA".to_string() },
        PlanExpr::Column { name: "colB".to_string() },
    ];
    let out = to_order_by_exprs_with_select(Some(order_by), Some(&select_exprs)).unwrap();
    let expected_options = OrderByOptions { asc: Some(false), nulls_first: None };
    assert_eq!(out.len(), 2);
    assert_eq!(
        out[0],
        OrderByExpr {
            expr: SqlExpr::Identifier(Ident { value: "colA".to_string(), quoted: false }),
            options: expected_options,
        }
    );
    assert_eq!(
        out[1],
        OrderByExpr {
            expr: SqlExpr::Identifier(Ident { value: "colB".to_string(), quoted: false }),
            options: expected_options,
        }
    );
}

#[test]
fn order_by_all_rejects_non_column_select_outputs() {
    let order_by = OrderBy {
        kind: OrderByKind::All(OrderByOptions { asc: None, nulls_first: None }),
        interpolate: false,
    };
    let select_exprs = vec![
        PlanExpr::Column { name: "colA".to_string() },
        PlanExpr::ScalarFunction { name: "abs".to_string(), args: vec![PlanExpr::Literal(1)] },
    ];
    match to_order_by_exprs_with_select(Some(order_by), Some(&select_exprs)) {
        Err(PlanError::NotImplemented(msg)) => {
            assert_eq!(msg, "ORDER BY ALL is not supported for non-column expressions");
        }
        other => panic!("expected NotImplemented, got {:?}", other),
    }
}

#[test]
fn order_by_interpolate_is_rejected() {
    let order_by = OrderBy {
        kind: OrderByKind::Expressions(vec![]),
        interpolate: true,
    };
    match to_order_by_exprs_with_select(Some(order_by), None) {
        Err(PlanError::NotImplemented(msg)) => {
            assert_eq!(msg, "ORDER BY INTERPOLATE is not supported");
        }
        other => panic!("expected NotImplemented, got {:?}", other),
    }
}

#[test]
fn explicit_order_by_expressions_are_returned_verbatim() {
    let entry = OrderByExpr {
        expr: SqlExpr::Identifier(ident("x")),
        options: OrderByOptions { asc: Some(true), nulls_first: Some(true) },
    };
    let order_by = OrderBy {
        kind: OrderByKind::Expressions(vec![entry]),
        interpolate: false,
    };
    let out = to_order_by_exprs_with_select(Some(order_by), None).unwrap();
    assert_eq!(out.len(), 1);
    assert_eq!(
        out[0],
        OrderByExpr {
            expr: SqlExpr::Identifier(ident("x")),
            options: OrderByOptions { asc: Some(true), nulls_first: Some(true) },
        }
    );
}

#[test]
fn no_order_by_yields_an_empty_list() {
    let out = to_order_by_exprs_with_select(None, None).unwrap();
    assert!(out.is_empty());
}

#[test]
fn select_into_is_applied_after_limit() {
    let delegate = SimpleDelegate;
    let planner = QueryPlanner::new(&delegate);
    let mut ctx = PlannerContext::new();
    let mut select = select_from("t");
    select.into = Some(SelectInto { name: table_name("target") });
    let query = Query {
        with: None,
        body: Box::new(SetExpr::Select(Box::new(select))),
        order_by: None,
        limit_clause: Some(LimitClause::LimitOffset {
            limit: Some(SqlExpr::Number(10)),
            offset: None,
            limit_by: vec![],
        }),
        fetch: None,
        locks: vec![],
        for_clause: None,
    };
    let plan = planner.query_to_plan(query, &mut ctx).unwrap();
    match plan {
        Plan::Ddl(cmt) => match *cmt.input {
            Plan::Limit { ref fetch, ref input, .. } => {
                assert_eq!(*fetch, Some(PlanExpr::Literal(10)));
                assert_eq!(**input, scan("t"));
            }
            ref other => panic!("expected the limit under the DDL node, got {:?}", other),
        },
        other => panic!("expected a DDL node, got {:?}", other),
    }
}

#[test]
fn set_expression_order_by_is_resolved_against_the_delegated_plan() {
    let delegate = SimpleDelegate;
    let planner = QueryPlanner::new(&delegate);
    let mut ctx = PlannerContext::new();
    let body = SetExpr::SetOperation {
        op: SetOperator::Union,
        quantifier: SetQuantifier::Plain,
        left: Box::new(SetExpr::Select(Box::new(select_from("a")))),
        right: Box::new(SetExpr::Select(Box::new(select_from("b")))),
    };
    let query = Query {
        with: None,
        body: Box::new(body),
        order_by: Some(OrderBy {
            kind: OrderByKind::Expressions(vec![OrderByExpr {
                expr: SqlExpr::Identifier(ident("x")),
                options: OrderByOptions { asc: Some(true), nulls_first: None },
            }]),
            interpolate: false,
        }),
        limit_clause: None,
        fetch: None,
        locks: vec![],
        for_clause: None,
    };
    let plan = planner.query_to_plan(query, &mut ctx).unwrap();
    assert_eq!(
        plan,
        Plan::Sort {
            exprs: vec![SortExpr {
                expr: PlanExpr::Column { name: "x".to_string() },
                asc: true,
                nulls_first: false,
            }],
            input: Box::new(Plan::EmptyRelation),
        }
    );
}

#[test]
fn outer_context_is_left_untouched_by_with_clauses() {
    let delegate = SimpleDelegate;
    let planner = QueryPlanner::new(&delegate);
    let mut ctx = PlannerContext::new();
    let query = Query {
        with: Some(sql_plan_bridge::ast::With {
            recursive: false,
            cte_tables: vec![sql_plan_bridge::ast::Cte {
                alias: ident("c"),
                query: Box::new(bare_query("t")),
            }],
        }),
        ..bare_query("t")
    };
    let plan = planner.query_to_plan(query, &mut ctx).unwrap();
    assert_eq!(plan, scan("t"));
    assert!(ctx.get_cte(&"c".to_string()).is_none());
}

#[test]
fn context_lookup_finds_the_latest_binding() {
    let mut ctx = PlannerContext::new();
    ctx.insert_cte("c".to_string(), Arc::new(Plan::EmptyRelation));
    ctx.insert_cte("c".to_string(), Arc::new(scan("t")));
    let got = ctx.get_cte(&"c".to_string()).expect("binding must be present");
    assert_eq!(**got, scan("t"));
    assert!(ctx.get_cte(&"missing".to_string()).is_none());
}

#[test]
fn child_scope_insertions_do_not_leak_to_the_parent() {
    let mut parent = PlannerContext::new();
    parent.insert_cte("a".to_string(), Arc::new(scan("t")));
    let mut child = parent.child_scope();
    child.insert_cte("b".to_string(), Arc::new(Plan::EmptyRelation));
    assert!(child.get_cte(&"a".to_string()).is_some());
    assert!(child.get_cte(&"b".to_string()).is_some());
    assert!(parent.get_cte(&"b".to_string()).is_none());
}

#[test]
fn distinct_select_body_keeps_its_modifier_away_from_the_planner() {
    // The INTO target is detached before delegation; other SELECT fields
    // pass through to the delegate untouched.
    let delegate = SimpleDelegate;
    let planner = QueryPlanner::new(&delegate);
    let mut ctx = PlannerContext::new();
    let mut select = select_from("t");
    select.distinct = Some(Distinct::Plain);
    select.selection = Some(SqlExpr::BinaryOp {
        op: BinOp::Eq,
        left: Box::new(SqlExpr::Identifier(ident("x"))),
        right: Box::new(SqlExpr::Number(1)),
    });
    let query = Query {
        body: Box::new(SetExpr::Select(Box::new(select))),
        ..bare_query("t")
    };
    let plan = planner.query_to_plan(query, &mut ctx).unwrap();
    assert_eq!(plan, scan("t"));
}

#[test]
fn deep_union_chain_plans_without_exhausting_the_stack() {
    let delegate = SimpleDelegate;
    let planner = QueryPlanner::new(&delegate);
    let mut ctx = PlannerContext::new();
    let mut body = SetExpr::Select(Box::new(select_from("t0")));
    for i in 1..300 {
        body = SetExpr::SetOperation {
            op: SetOperator::Union,
            quantifier: SetQuantifier::All,
            left: Box::new(body),
            right: Box::new(SetExpr::Select(Box::new(select_from(&format!("t{}", i))))),
        };
    }
    let query = Query { body: Box::new(body), ..bare_query("t") };
    let plan = planner.query_to_plan(query, &mut ctx).unwrap();
    assert_eq!(plan, Plan::EmptyRelation);
}

#[test]
fn stack_allowance_can_be_raised_and_restored() {
    let mut ctx = PlannerContext::new();
    let prior = ctx.set_stack_allowance(sql_plan_bridge::context::SET_EXPR_STACK_ALLOWANCE);
    assert_eq!(prior, sql_plan_bridge::context::DEFAULT_STACK_ALLOWANCE);
    let raised = ctx.set_stack_allowance(prior);
    assert_eq!(raised, sql_plan_bridge::context::SET_EXPR_STACK_ALLOWANCE);
}
