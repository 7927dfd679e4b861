//! Model of the logical-plan intermediate representation.
//!
//! A plan is a tree of operators, each owning its children.  The forward
//! planner wraps a delegated plan with `Sort`, `Limit` and
//! `CreateMemoryTable` operators and pattern-matches the distinct-on
//! operator; everything else it carries through untouched.  As in
//! [`crate::ast`], each executable type has a mathematical twin reached
//! through `view`.

use vstd::prelude::*;

verus! {

/// A scalar expression of the plan language.
#[derive(Debug, PartialEq, Eq)]
pub enum PlanExpr {
    /// A resolved column reference.
    Column { name: String },
    /// An integer literal.
    Literal(i64),
    /// A scalar function call.
    ScalarFunction { name: String, args: Vec<PlanExpr> },
}

/// Mathematical image of a [`PlanExpr`].
pub enum SpecPlanExpr {
    Column { name: Seq<char> },
    Literal(int),
    ScalarFunction { name: Seq<char>, args: Seq<SpecPlanExpr> },
}

pub open spec fn view_plan_expr(e: PlanExpr) -> SpecPlanExpr
    decreases e,
{
    match e {
        PlanExpr::Column { name } => SpecPlanExpr::Column { name: name@ },
        PlanExpr::Literal(n) => SpecPlanExpr::Literal(n as int),
        PlanExpr::ScalarFunction { name, args } => SpecPlanExpr::ScalarFunction {
            name: name@,
            args: view_plan_expr_seq(args@),
        },
    }
}

pub open spec fn view_plan_expr_seq(s: Seq<PlanExpr>) -> Seq<SpecPlanExpr>
    decreases s,
{
    if s.len() == 0 {
        Seq::empty()
    } else {
        seq![view_plan_expr(s[0])] + view_plan_expr_seq(s.subrange(1, s.len() as int))
    }
}

impl View for PlanExpr {
    type V = SpecPlanExpr;

    open spec fn view(&self) -> SpecPlanExpr {
        view_plan_expr(*self)
    }
}

impl DeepView for PlanExpr {
    type V = SpecPlanExpr;

    open spec fn deep_view(&self) -> SpecPlanExpr {
        view_plan_expr(*self)
    }
}

/// One resolved sort key: an expression, a direction, and a null ordering.
#[derive(Debug, PartialEq, Eq)]
pub struct SortExpr {
    pub expr: PlanExpr,
    pub asc: bool,
    pub nulls_first: bool,
}

/// Mathematical image of a [`SortExpr`].
pub struct SpecSortExpr {
    pub expr: SpecPlanExpr,
    pub asc: bool,
    pub nulls_first: bool,
}

impl View for SortExpr {
    type V = SpecSortExpr;

    open spec fn view(&self) -> SpecSortExpr {
        SpecSortExpr { expr: self.expr@, asc: self.asc, nulls_first: self.nulls_first }
    }
}

impl DeepView for SortExpr {
    type V = SpecSortExpr;

    open spec fn deep_view(&self) -> SpecSortExpr {
        self.view()
    }
}

/// A resolved table reference, with up to three name parts.
#[derive(Debug, PartialEq, Eq)]
pub enum TableReference {
    Bare { table: String },
    Partial { schema: String, table: String },
    Full { catalog: String, schema: String, table: String },
}

/// Mathematical image of a [`TableReference`].
pub enum SpecTableReference {
    Bare { table: Seq<char> },
    Partial { schema: Seq<char>, table: Seq<char> },
    Full { catalog: Seq<char>, schema: Seq<char>, table: Seq<char> },
}

impl View for TableReference {
    type V = SpecTableReference;

    open spec fn view(&self) -> SpecTableReference {
        match self {
            TableReference::Bare { table } => SpecTableReference::Bare { table: table@ },
            TableReference::Partial { schema, table } => SpecTableReference::Partial {
                schema: schema@,
                table: table@,
            },
            TableReference::Full { catalog, schema, table } => SpecTableReference::Full {
                catalog: catalog@,
                schema: schema@,
                table: table@,
            },
        }
    }
}

/// A table constraint carried by a DDL node.
#[derive(Debug, PartialEq, Eq)]
pub enum Constraint {
    PrimaryKey(Vec<u64>),
    Unique(Vec<u64>),
}

/// Mathematical image of a [`Constraint`].
pub enum SpecConstraint {
    PrimaryKey(Seq<u64>),
    Unique(Seq<u64>),
}

impl View for Constraint {
    type V = SpecConstraint;

    open spec fn view(&self) -> SpecConstraint {
        match self {
            Constraint::PrimaryKey(v) => SpecConstraint::PrimaryKey(v@),
            Constraint::Unique(v) => SpecConstraint::Unique(v@),
        }
    }
}

impl DeepView for Constraint {
    type V = SpecConstraint;

    open spec fn deep_view(&self) -> SpecConstraint {
        self.view()
    }
}

/// A schema: the ordered field names a plan node exposes.  The forward
/// planner only ever hands the empty schema to its expression-planning
/// delegate, so that LIMIT and OFFSET expressions cannot name columns.
#[derive(Debug, PartialEq, Eq)]
pub struct DfSchema {
    pub fields: Vec<String>,
}

/// Mathematical image of a [`DfSchema`].
pub struct SpecDfSchema {
    pub fields: Seq<Seq<char>>,
}

impl View for DfSchema {
    type V = SpecDfSchema;

    open spec fn view(&self) -> SpecDfSchema {
        SpecDfSchema { fields: self.fields.deep_view() }
    }
}

impl DfSchema {
    /// The schema with no fields.
    pub fn empty() -> (s: DfSchema)
        ensures
            s@.fields =~= Seq::<Seq<char>>::empty(),
    {
        DfSchema { fields: Vec::new() }
    }
}

// ---------------------------------------------------------------------------
// The plan operators.
// ---------------------------------------------------------------------------

/// The distinct-on operator: deduplicate by the `on_expr` key set, retaining
/// the first row per key according to `sort_expr` when one is attached.
#[derive(Debug, PartialEq, Eq)]
pub struct DistinctOn {
    pub on_expr: Vec<PlanExpr>,
    pub select_expr: Vec<PlanExpr>,
    pub sort_expr: Option<Vec<SortExpr>>,
    pub input: Box<Plan>,
}

/// The two forms of the distinct operator.
#[derive(Debug, PartialEq, Eq)]
pub enum DistinctKind {
    All(Box<Plan>),
    On(DistinctOn),
}

/// The create-memory-table DDL operator: materialize the input plan's result
/// under a new table name.
#[derive(Debug, PartialEq, Eq)]
pub struct CreateMemoryTable {
    pub name: TableReference,
    pub constraints: Vec<Constraint>,
    pub input: Box<Plan>,
    pub if_not_exists: bool,
    pub or_replace: bool,
    pub temporary: bool,
    pub column_defaults: Vec<(String, PlanExpr)>,
}

/// A logical-plan operator tree.
#[derive(Debug, PartialEq, Eq)]
pub enum Plan {
    /// A scan of a named base table.
    TableScan { name: String },
    /// A relation producing no rows.
    EmptyRelation,
    /// A projection of expressions over its input.
    Projection { exprs: Vec<PlanExpr>, input: Box<Plan> },
    /// A filter by a predicate.
    Filter { predicate: PlanExpr, input: Box<Plan> },
    /// A sort by the given keys.
    Sort { exprs: Vec<SortExpr>, input: Box<Plan> },
    /// A skip/fetch window over its input.
    Limit { skip: Option<PlanExpr>, fetch: Option<PlanExpr>, input: Box<Plan> },
    /// Duplicate removal.
    Distinct(DistinctKind),
    /// The create-memory-table DDL statement.
    Ddl(CreateMemoryTable),
}

/// Mathematical image of a [`DistinctOn`].
pub struct SpecDistinctOn {
    pub on_expr: Seq<SpecPlanExpr>,
    pub select_expr: Seq<SpecPlanExpr>,
    pub sort_expr: Option<Seq<SpecSortExpr>>,
    pub input: Box<SpecPlan>,
}

/// Mathematical image of a [`DistinctKind`].
pub enum SpecDistinctKind {
    All(Box<SpecPlan>),
    On(SpecDistinctOn),
}

/// Mathematical image of a [`CreateMemoryTable`].
pub struct SpecCreateMemoryTable {
    pub name: SpecTableReference,
    pub constraints: Seq<SpecConstraint>,
    pub input: Box<SpecPlan>,
    pub if_not_exists: bool,
    pub or_replace: bool,
    pub temporary: bool,
    pub column_defaults: Seq<(Seq<char>, SpecPlanExpr)>,
}

/// Mathematical image of a [`Plan`].
pub enum SpecPlan {
    TableScan { name: Seq<char> },
    EmptyRelation,
    Projection { exprs: Seq<SpecPlanExpr>, input: Box<SpecPlan> },
    Filter { predicate: SpecPlanExpr, input: Box<SpecPlan> },
    Sort { exprs: Seq<SpecSortExpr>, input: Box<SpecPlan> },
    Limit { skip: Option<SpecPlanExpr>, fetch: Option<SpecPlanExpr>, input: Box<SpecPlan> },
    Distinct(SpecDistinctKind),
    Ddl(SpecCreateMemoryTable),
}

pub open spec fn view_plan(p: Plan) -> SpecPlan
    decreases p,
{
    match p {
        Plan::TableScan { name } => SpecPlan::TableScan { name: name@ },
        Plan::EmptyRelation => SpecPlan::EmptyRelation,
        Plan::Projection { exprs, input } => SpecPlan::Projection {
            exprs: view_plan_expr_seq(exprs@),
            input: Box::new(view_plan(*input)),
        },
        Plan::Filter { predicate, input } => SpecPlan::Filter {
            predicate: predicate@,
            input: Box::new(view_plan(*input)),
        },
        Plan::Sort { exprs, input } => SpecPlan::Sort {
            exprs: exprs.deep_view(),
            input: Box::new(view_plan(*input)),
        },
        Plan::Limit { skip, fetch, input } => SpecPlan::Limit {
            skip: match skip {
                Some(e) => Some(e@),
                None => None,
            },
            fetch: match fetch {
                Some(e) => Some(e@),
                None => None,
            },
            input: Box::new(view_plan(*input)),
        },
        Plan::Distinct(d) => SpecPlan::Distinct(view_distinct_kind(d)),
        Plan::Ddl(c) => SpecPlan::Ddl(view_create_memory_table(c)),
    }
}

pub open spec fn view_distinct_kind(d: DistinctKind) -> SpecDistinctKind
    decreases d,
{
    match d {
        DistinctKind::All(p) => SpecDistinctKind::All(Box::new(view_plan(*p))),
        DistinctKind::On(o) => SpecDistinctKind::On(view_distinct_on(o)),
    }
}

pub open spec fn view_distinct_on(o: DistinctOn) -> SpecDistinctOn
    decreases o,
{
    SpecDistinctOn {
        on_expr: view_plan_expr_seq(o.on_expr@),
        select_expr: view_plan_expr_seq(o.select_expr@),
        sort_expr: match o.sort_expr {
            Some(s) => Some(s.deep_view()),
            None => None,
        },
        input: Box::new(view_plan(*o.input)),
    }
}

pub open spec fn view_create_memory_table(c: CreateMemoryTable) -> SpecCreateMemoryTable
    decreases c,
{
    SpecCreateMemoryTable {
        name: c.name@,
        constraints: c.constraints.deep_view(),
        input: Box::new(view_plan(*c.input)),
        if_not_exists: c.if_not_exists,
        or_replace: c.or_replace,
        temporary: c.temporary,
        column_defaults: c.column_defaults.deep_view(),
    }
}

impl View for Plan {
    type V = SpecPlan;

    open spec fn view(&self) -> SpecPlan {
        view_plan(*self)
    }
}

impl View for DistinctKind {
    type V = SpecDistinctKind;

    open spec fn view(&self) -> SpecDistinctKind {
        view_distinct_kind(*self)
    }
}

impl View for DistinctOn {
    type V = SpecDistinctOn;

    open spec fn view(&self) -> SpecDistinctOn {
        view_distinct_on(*self)
    }
}

impl View for CreateMemoryTable {
    type V = SpecCreateMemoryTable;

    open spec fn view(&self) -> SpecCreateMemoryTable {
        view_create_memory_table(*self)
    }
}

impl DistinctOn {
    /// Attach a sort-expression list to this distinct-on node, replacing any
    /// earlier one.  The keys become the tie-break ordering of the
    /// first-value deduplication this node performs.
    pub fn with_sort_expr(self, sort_expr: Vec<SortExpr>) -> (r: DistinctOn)
        ensures
            r@ == (SpecDistinctOn { sort_expr: Some(sort_expr.deep_view()), ..self@ }),
    {
        DistinctOn {
            on_expr: self.on_expr,
            select_expr: self.select_expr,
            sort_expr: Some(sort_expr),
            input: self.input,
        }
    }
}

} // verus!
