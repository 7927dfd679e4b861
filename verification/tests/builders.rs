use sql_plan_bridge::ast::BinOp;
use sql_plan_bridge::ast::GroupByExpr;
use sql_plan_bridge::ast::Ident;
use sql_plan_bridge::ast::LimitClause;
use sql_plan_bridge::ast::ObjectName;
use sql_plan_bridge::ast::OrderByKind;
use sql_plan_bridge::ast::OrderByOptions;
use sql_plan_bridge::ast::SelectFlavor;
use sql_plan_bridge::ast::SelectItem;
use sql_plan_bridge::ast::SetExpr;
use sql_plan_bridge::ast::SqlExpr;
use sql_plan_bridge::ast::TableAlias;
use sql_plan_bridge::ast::TableFactor;
use sql_plan_bridge::builders::DerivedRelationBuilder;
use sql_plan_bridge::builders::QueryBuilder;
use sql_plan_bridge::builders::RelationBuilder;
use sql_plan_bridge::builders::SelectBuilder;
use sql_plan_bridge::builders::TableRelationBuilder;
use sql_plan_bridge::builders::TableWithJoinsBuilder;
use sql_plan_bridge::builders::UnnestRelationBuilder;
use sql_plan_bridge::errors::BuilderError;
use sql_plan_bridge::errors::UninitializedFieldError;

fn ident(name: &str) -> Ident {
    Ident { value: name.to_string(), quoted: false }
}

fn column(name: &str) -> SqlExpr {
    SqlExpr::Identifier(ident(name))
}

fn and(left: SqlExpr, right: SqlExpr) -> SqlExpr {
    SqlExpr::BinaryOp { op: BinOp::And, left: Box::new(left), right: Box::new(right) }
}

fn values_body() -> Box<SetExpr> {
    Box::new(SetExpr::Values(vec![vec![SqlExpr::Number(1)]]))
}

#[test]
fn query_builder_without_body_fails_with_uninitialized_body() {
    let builder = QueryBuilder::default();
    match builder.build() {
        Err(BuilderError::UninitializedField(field)) => assert_eq!(field, "body"),
        other => panic!("expected UninitializedField(\"body\"), got {:?}", other),
    }
}

#[test]
fn query_builder_with_body_succeeds_and_keeps_the_body_exactly() {
    let mut builder = QueryBuilder::default();
    builder.body(values_body());
    let query = builder.build().unwrap();
    assert_eq!(query.body, values_body());
    assert_eq!(query.with, None);
    assert_eq!(query.order_by, None);
    assert_eq!(
        query.limit_clause,
        Some(LimitClause::LimitOffset { limit: None, offset: None, limit_by: vec![] })
    );
    assert_eq!(query.fetch, None);
    assert!(query.locks.is_empty());
    assert_eq!(query.for_clause, None);
}

#[test]
fn query_builder_collapses_limit_fields_into_one_clause() {
    let mut builder = QueryBuilder::default();
    builder.body(values_body());
    builder.limit(Some(SqlExpr::Number(10)));
    builder.offset(Some(sql_plan_bridge::ast::Offset { value: SqlExpr::Number(5) }));
    builder.order_by(OrderByKind::All(OrderByOptions { asc: None, nulls_first: None }));
    let query = builder.build().unwrap();
    assert_eq!(
        query.limit_clause,
        Some(LimitClause::LimitOffset {
            limit: Some(SqlExpr::Number(10)),
            offset: Some(sql_plan_bridge::ast::Offset { value: SqlExpr::Number(5) }),
            limit_by: vec![],
        })
    );
    let order_by = query.order_by.expect("order-by kind must be kept");
    assert!(!order_by.interpolate);
    assert_eq!(order_by.kind, OrderByKind::All(OrderByOptions { asc: None, nulls_first: None }));
}

#[test]
fn query_builder_take_body_leaves_no_body_behind() {
    let mut builder = QueryBuilder::default();
    builder.body(values_body());
    let taken = builder.take_body();
    assert_eq!(taken, Some(values_body()));
    match builder.build() {
        Err(BuilderError::UninitializedField(field)) => assert_eq!(field, "body"),
        other => panic!("expected UninitializedField(\"body\"), got {:?}", other),
    }
}

#[test]
fn query_builder_distinct_union_flag_round_trips() {
    let mut builder = QueryBuilder::default();
    assert!(!builder.is_distinct_union());
    builder.distinct_union();
    assert!(builder.is_distinct_union());
}

#[test]
fn select_builder_default_finalizes_successfully() {
    let select = SelectBuilder::default().build().unwrap();
    assert_eq!(select.group_by, GroupByExpr::Expressions(vec![]));
    assert_eq!(select.flavor, SelectFlavor::Standard);
    assert!(select.projection.is_empty());
    assert!(select.from.is_empty());
    assert_eq!(select.selection, None);
}

#[test]
fn select_builder_cleared_group_by_fails() {
    let mut builder = SelectBuilder::default();
    builder.clear_group_by();
    match builder.build() {
        Err(BuilderError::UninitializedField(field)) => assert_eq!(field, "group_by"),
        other => panic!("expected UninitializedField(\"group_by\"), got {:?}", other),
    }
}

#[test]
fn select_builder_cleared_flavor_fails() {
    let mut builder = SelectBuilder::default();
    builder.clear_flavor();
    match builder.build() {
        Err(BuilderError::UninitializedField(field)) => assert_eq!(field, "flavor"),
        other => panic!("expected UninitializedField(\"flavor\"), got {:?}", other),
    }
}

#[test]
fn selection_combines_two_predicates_by_conjunction() {
    let mut builder = SelectBuilder::default();
    builder.selection(Some(column("p1")));
    builder.selection(Some(column("p2")));
    let select = builder.build().unwrap();
    assert_eq!(select.selection, Some(and(column("p1"), column("p2"))));
}

#[test]
fn selection_none_never_clears_an_existing_predicate() {
    let mut builder = SelectBuilder::default();
    builder.selection(Some(column("p1")));
    builder.selection(None);
    let select = builder.build().unwrap();
    assert_eq!(select.selection, Some(column("p1")));
}

#[test]
fn replace_mark_substitutes_every_occurrence() {
    let mut builder = SelectBuilder::default();
    // (mark AND x) AND mark: the placeholder occurs exactly twice.
    builder.selection(Some(and(and(column("mark"), column("x")), column("mark"))));
    builder.replace_mark(&column("mark"), &column("cond"));
    let select = builder.build().unwrap();
    assert_eq!(
        select.selection,
        Some(and(and(column("cond"), column("x")), column("cond")))
    );
}

#[test]
fn replace_mark_without_occurrences_leaves_the_tree_unchanged() {
    let mut builder = SelectBuilder::default();
    builder.selection(Some(and(column("a"), column("b"))));
    builder.replace_mark(&column("mark"), &column("cond"));
    let select = builder.build().unwrap();
    assert_eq!(select.selection, Some(and(column("a"), column("b"))));
}

#[test]
fn projection_can_be_popped_for_incremental_rebuild() {
    let mut builder = SelectBuilder::default();
    builder.projection(vec![SelectItem::Unnamed(column("x")), SelectItem::Wildcard]);
    assert!(builder.already_projected());
    let popped = builder.pop_projections();
    assert_eq!(popped, vec![SelectItem::Unnamed(column("x")), SelectItem::Wildcard]);
    assert!(!builder.already_projected());
}

fn table_relation(name: &str) -> RelationBuilder {
    let mut table = TableRelationBuilder::default();
    table.name(ObjectName { parts: vec![ident(name)] });
    let mut relation = RelationBuilder::default();
    relation.table(table);
    relation
}

#[test]
fn select_builder_from_items_are_built_in_order() {
    let mut builder = SelectBuilder::default();
    let mut twj = TableWithJoinsBuilder::default();
    twj.relation(table_relation("t"));
    builder.push_from(twj);
    let select = builder.build().unwrap();
    assert_eq!(select.from.len(), 1);
    match &select.from[0].relation {
        TableFactor::Table { name, alias, args, with_hints, version, partitions, index_hints } => {
            assert_eq!(name.parts, vec![ident("t")]);
            assert_eq!(*alias, None);
            assert_eq!(*args, None);
            assert!(with_hints.is_empty());
            assert_eq!(*version, None);
            assert!(partitions.is_empty());
            assert!(index_hints.is_empty());
        }
        other => panic!("expected a base table, got {:?}", other),
    }
}

#[test]
fn select_builder_omits_from_items_with_an_empty_relation() {
    let mut builder = SelectBuilder::default();
    let mut empty_twj = TableWithJoinsBuilder::default();
    let mut empty_relation = RelationBuilder::default();
    empty_relation.empty();
    empty_twj.relation(empty_relation);
    builder.push_from(empty_twj);
    let mut table_twj = TableWithJoinsBuilder::default();
    table_twj.relation(table_relation("t"));
    builder.push_from(table_twj);
    let select = builder.build().unwrap();
    assert_eq!(select.from.len(), 1);
}

#[test]
fn select_builder_from_failure_propagates() {
    let mut builder = SelectBuilder::default();
    builder.push_from(TableWithJoinsBuilder::default());
    match builder.build() {
        Err(BuilderError::UninitializedField(field)) => assert_eq!(field, "relation"),
        other => panic!("expected UninitializedField(\"relation\"), got {:?}", other),
    }
}

#[test]
fn select_builder_pop_from_returns_the_last_item() {
    let mut builder = SelectBuilder::default();
    let mut twj = TableWithJoinsBuilder::default();
    twj.relation(table_relation("t"));
    builder.push_from(twj);
    let popped = builder.pop_from();
    assert!(popped.is_some());
    assert!(builder.pop_from().is_none());
}

#[test]
fn relation_builder_empty_finalizes_to_no_relation() {
    let mut relation = RelationBuilder::default();
    relation.empty();
    assert!(relation.has_relation());
    let out = relation.build().unwrap();
    assert_eq!(out, None);
}

#[test]
fn relation_builder_without_a_kind_fails() {
    let relation = RelationBuilder::default();
    assert!(!relation.has_relation());
    match relation.build() {
        Err(BuilderError::UninitializedField(field)) => assert_eq!(field, "relation"),
        other => panic!("expected UninitializedField(\"relation\"), got {:?}", other),
    }
}

#[test]
fn relation_builder_alias_reaches_the_active_kind() {
    let mut relation = table_relation("t");
    relation.alias(Some(TableAlias { name: ident("a"), columns: vec![] }));
    let out = relation.build().unwrap().expect("a concrete relation");
    match out {
        TableFactor::Table { alias, .. } => {
            assert_eq!(alias, Some(TableAlias { name: ident("a"), columns: vec![] }));
        }
        other => panic!("expected a base table, got {:?}", other),
    }
}

#[test]
fn relation_builder_alias_is_ignored_on_empty_and_unset() {
    let mut unset = RelationBuilder::default();
    unset.alias(Some(TableAlias { name: ident("a"), columns: vec![] }));
    match unset.build() {
        Err(BuilderError::UninitializedField(field)) => assert_eq!(field, "relation"),
        other => panic!("expected UninitializedField(\"relation\"), got {:?}", other),
    }
    let mut empty = RelationBuilder::default();
    empty.empty();
    empty.alias(Some(TableAlias { name: ident("a"), columns: vec![] }));
    assert_eq!(empty.build().unwrap(), None);
}

#[test]
fn table_relation_builder_requires_a_name() {
    let table = TableRelationBuilder::default();
    match table.build() {
        Err(BuilderError::UninitializedField(field)) => assert_eq!(field, "name"),
        other => panic!("expected UninitializedField(\"name\"), got {:?}", other),
    }
}

#[test]
fn derived_relation_builder_requires_lateral_then_subquery() {
    let derived = DerivedRelationBuilder::default();
    match derived.build() {
        Err(BuilderError::UninitializedField(field)) => assert_eq!(field, "lateral"),
        other => panic!("expected UninitializedField(\"lateral\"), got {:?}", other),
    }
    let mut derived = DerivedRelationBuilder::default();
    derived.lateral(false);
    match derived.build() {
        Err(BuilderError::UninitializedField(field)) => assert_eq!(field, "subquery"),
        other => panic!("expected UninitializedField(\"subquery\"), got {:?}", other),
    }
}

#[test]
fn unnest_relation_builder_applies_defaults() {
    let mut unnest = UnnestRelationBuilder::default();
    unnest.array_exprs(vec![column("xs")]);
    let out = unnest.build().unwrap();
    match out {
        TableFactor::Unnest { alias, array_exprs, with_offset, with_offset_alias, with_ordinality } => {
            assert_eq!(alias, None);
            assert_eq!(array_exprs, vec![column("xs")]);
            assert!(!with_offset);
            assert_eq!(with_offset_alias, None);
            assert!(!with_ordinality);
        }
        other => panic!("expected an UNNEST relation, got {:?}", other),
    }
}

#[test]
fn table_with_joins_builder_keeps_its_joins() {
    let mut twj = TableWithJoinsBuilder::default();
    twj.relation(table_relation("t"));
    twj.push_join(sql_plan_bridge::ast::Join {
        relation: TableFactor::Table {
            name: ObjectName { parts: vec![ident("u")] },
            alias: None,
            args: None,
            with_hints: vec![],
            version: None,
            partitions: vec![],
            index_hints: vec![],
        },
        kind: sql_plan_bridge::ast::JoinKind::Inner,
        constraint: Some(column("c")),
    });
    let out = twj.build().unwrap().expect("a concrete FROM item");
    assert_eq!(out.joins.len(), 1);
    assert_eq!(out.joins[0].kind, sql_plan_bridge::ast::JoinKind::Inner);
}

#[test]
fn uninitialized_field_error_carries_the_field_name() {
    let err = UninitializedFieldError::new("body");
    assert_eq!(err.field_name(), "body");
    match BuilderError::from(err) {
        BuilderError::UninitializedField(field) => assert_eq!(field, "body"),
        other => panic!("expected UninitializedField, got {:?}", other),
    }
    match BuilderError::from("broken".to_string()) {
        BuilderError::ValidationError(msg) => assert_eq!(msg, "broken"),
        other => panic!("expected ValidationError, got {:?}", other),
    }
}

#[test]
fn error_messages_name_the_problem() {
    let err = UninitializedFieldError::new("body");
    assert_eq!(err.message(), "Field not initialized: body");
    let be = BuilderError::UninitializedField("group_by");
    assert_eq!(be.message(), "`group_by` must be initialized");
    let ve = BuilderError::ValidationError("inconsistent fields".to_string());
    assert_eq!(ve.message(), "inconsistent fields");
}
