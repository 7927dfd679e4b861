//! The forward query planner.
//!
//! [`QueryPlanner::query_to_plan`] turns a parsed [`Query`] into a logical
//! plan.  Planning of the SELECT clause, of set-expression bodies, of scalar
//! expressions and of WITH clauses is delegated through the
//! [`PlanDelegate`] trait; this module owns the exact order in which the
//! delegated plan is wrapped with LIMIT, ORDER BY and SELECT INTO operators,
//! and the rejection of unsupported constructs.

use crate::ast::Ident;
use crate::ast::OrderBy;
use crate::ast::OrderByExpr;
use crate::ast::OrderByKind;
use crate::ast::OrderByOptions;
use crate::ast::Query;
use crate::ast::Select;
use crate::ast::SelectInto;
use crate::ast::SetExpr;
use crate::ast::SpecOrderBy;
use crate::ast::SpecOrderByExpr;
use crate::ast::SpecOrderByKind;
use crate::ast::SpecQuery;
use crate::ast::SpecSelect;
use crate::ast::SpecSelectInto;
use crate::ast::SpecSetExpr;
use crate::ast::SpecSqlExpr;
use crate::ast::SpecIdent;
use crate::ast::SqlExpr;
use crate::ast::LimitClause;
use crate::ast::SpecLimitClause;
use crate::ast::With;
use crate::ast::SpecWith;
use crate::context::PlannerContext;
use crate::context::SpecPlannerContext;
use crate::context::SET_EXPR_STACK_ALLOWANCE;
use crate::errors::PlanError;
use crate::errors::SpecPlanError;
use crate::plan::DfSchema;
use crate::plan::DistinctKind;
use crate::plan::Plan;
use crate::plan::PlanExpr;
use crate::plan::SortExpr;
use crate::plan::SpecCreateMemoryTable;
use crate::plan::SpecDfSchema;
use crate::plan::SpecDistinctKind;
use crate::plan::SpecDistinctOn;
use crate::plan::SpecPlan;
use crate::plan::SpecPlanExpr;
use crate::plan::SpecSortExpr;
use crate::plan::SpecTableReference;
use crate::plan::TableReference;
use crate::plan::view_plan;
use crate::plan::view_plan_expr;
use vstd::prelude::*;

verus! {

// ---------------------------------------------------------------------------
// Views of optional values and result correspondence.
// ---------------------------------------------------------------------------

/// The image of an optional viewable value.
pub open spec fn opt_view<T: View>(o: Option<T>) -> Option<T::V> {
    match o {
        Some(x) => Some(x@),
        None => None,
    }
}

/// The image of an optional borrowed list of plan expressions.
pub open spec fn opt_exprs_view(o: Option<&Vec<PlanExpr>>) -> Option<Seq<SpecPlanExpr>> {
    match o {
        Some(v) => Some(v.deep_view()),
        None => None,
    }
}

/// An executable plan result and a mathematical plan result agree.
pub open spec fn plan_result_matches(
    r: Result<Plan, PlanError>,
    s: Result<SpecPlan, SpecPlanError>,
) -> bool {
    match (r, s) {
        (Ok(p), Ok(sp)) => p@ == sp,
        (Err(e), Err(se)) => e@ == se,
        _ => false,
    }
}

/// An executable plan-expression result and its mathematical twin agree.
pub open spec fn plan_expr_result_matches(
    r: Result<PlanExpr, PlanError>,
    s: Result<SpecPlanExpr, SpecPlanError>,
) -> bool {
    match (r, s) {
        (Ok(p), Ok(sp)) => p@ == sp,
        (Err(e), Err(se)) => e@ == se,
        _ => false,
    }
}

/// An executable order-by-expression list result and its twin agree.
pub open spec fn order_by_exprs_result_matches(
    r: Result<Vec<OrderByExpr>, PlanError>,
    s: Result<Seq<SpecOrderByExpr>, SpecPlanError>,
) -> bool {
    match (r, s) {
        (Ok(v), Ok(sv)) => v.deep_view() == sv,
        (Err(e), Err(se)) => e@ == se,
        _ => false,
    }
}

/// An executable sort-expression list result and its twin agree.
pub open spec fn sort_exprs_result_matches(
    r: Result<Vec<SortExpr>, PlanError>,
    s: Result<Seq<SpecSortExpr>, SpecPlanError>,
) -> bool {
    match (r, s) {
        (Ok(v), Ok(sv)) => v.deep_view() == sv,
        (Err(e), Err(se)) => e@ == se,
        _ => false,
    }
}

/// An executable table-reference result and its twin agree.
pub open spec fn table_ref_result_matches(
    r: Result<TableReference, PlanError>,
    s: Result<SpecTableReference, SpecPlanError>,
) -> bool {
    match (r, s) {
        (Ok(t), Ok(st)) => t@ == st,
        (Err(e), Err(se)) => e@ == se,
        _ => false,
    }
}

/// The schema against which LIMIT and OFFSET expressions are planned: no
/// columns are in scope there.
pub open spec fn spec_empty_schema() -> SpecDfSchema {
    SpecDfSchema { fields: Seq::empty() }
}

// ---------------------------------------------------------------------------
// The delegated planning capability.
// ---------------------------------------------------------------------------

/// The external planning capability the forward planner is built around:
/// SELECT-clause planning, set-expression planning, scalar expression
/// planning, sort-expression resolution, WITH-clause resolution and table
/// reference resolution, all implemented elsewhere.
///
/// Each executable method is pinned, by its contract, to a specification
/// function of the implementation, so that the planner's own contracts can
/// state exactly how the delegated results are combined.
pub trait PlanDelegate: Sized {
    /// The context that resolving a WITH clause leaves behind, or the error
    /// it raises.
    spec fn with_clause_result(&self, with: SpecWith, ctx: SpecPlannerContext) -> Result<
        SpecPlannerContext,
        SpecPlanError,
    >;

    /// The plan of a SELECT clause together with the query's ORDER BY.
    spec fn select_result(
        &self,
        select: SpecSelect,
        order_by: Option<SpecOrderBy>,
        ctx: SpecPlannerContext,
    ) -> Result<SpecPlan, SpecPlanError>;

    /// The plan of a set-expression body.
    spec fn set_expr_result(&self, body: SpecSetExpr, ctx: SpecPlannerContext) -> Result<
        SpecPlan,
        SpecPlanError,
    >;

    /// The plan expression of a scalar expression against a schema.
    spec fn expr_result(
        &self,
        e: SpecSqlExpr,
        schema: SpecDfSchema,
        ctx: SpecPlannerContext,
    ) -> Result<SpecPlanExpr, SpecPlanError>;

    /// The sort expressions that a list of order-by entries resolves to
    /// against a plan's result schema.
    spec fn sort_exprs_result(
        &self,
        exprs: Seq<SpecOrderByExpr>,
        plan: SpecPlan,
        ctx: SpecPlannerContext,
    ) -> Result<Seq<SpecSortExpr>, SpecPlanError>;

    /// The table reference an object name resolves to.
    spec fn table_reference_result(&self, name: SpecObjectNameAlias) -> Result<
        SpecTableReference,
        SpecPlanError,
    >;

    /// Resolve a WITH clause into the context: each CTE in order, later ones
    /// seeing the earlier ones.
    fn plan_with_clause(&self, with: With, ctx: &mut PlannerContext) -> (r: Result<
        (),
        PlanError,
    >)
        ensures
            match self.with_clause_result(with@, old(ctx)@) {
                Ok(c) => r is Ok && final(ctx)@ == c,
                Err(e) => r matches Err(pe) && pe@ == e,
            },
    ;

    /// Plan a SELECT clause (projection, filters, joins, grouping) together
    /// with the query's ORDER BY.
    fn select_to_plan(
        &self,
        select: Select,
        order_by: Option<OrderBy>,
        ctx: &PlannerContext,
    ) -> (r: Result<Plan, PlanError>)
        ensures
            plan_result_matches(r, self.select_result(select@, opt_view(order_by), ctx@)),
    ;

    /// Plan a set-expression body.
    fn set_expr_to_plan(&self, body: SetExpr, ctx: &PlannerContext) -> (r: Result<
        Plan,
        PlanError,
    >)
        ensures
            plan_result_matches(r, self.set_expr_result(body@, ctx@)),
    ;

    /// Plan one scalar expression against a schema.
    fn sql_to_expr(&self, e: SqlExpr, schema: &DfSchema, ctx: &PlannerContext) -> (r: Result<
        PlanExpr,
        PlanError,
    >)
        ensures
            plan_expr_result_matches(r, self.expr_result(e@, schema@, ctx@)),
    ;

    /// Resolve order-by entries against a plan's result schema.
    fn order_by_to_sort_expr(
        &self,
        exprs: Vec<OrderByExpr>,
        plan: &Plan,
        ctx: &PlannerContext,
    ) -> (r: Result<Vec<SortExpr>, PlanError>)
        ensures
            sort_exprs_result_matches(r, self.sort_exprs_result(exprs.deep_view(), plan@, ctx@)),
    ;

    /// Resolve an object name into a table reference.
    fn object_name_to_table_reference(&self, name: crate::ast::ObjectName) -> (r: Result<
        TableReference,
        PlanError,
    >)
        ensures
            table_ref_result_matches(r, self.table_reference_result(name@)),
    ;
}

/// The image of an object name, named here so the trait can mention it.
pub type SpecObjectNameAlias = crate::ast::SpecObjectName;

// ---------------------------------------------------------------------------
// Mathematical description of the wrapping steps.
// ---------------------------------------------------------------------------

/// Plan each expression of a list against `schema`, stopping at the first
/// failure.
pub open spec fn spec_plan_expr_list<D: PlanDelegate>(
    d: D,
    exprs: Seq<SpecSqlExpr>,
    schema: SpecDfSchema,
    ctx: SpecPlannerContext,
) -> Result<Seq<SpecPlanExpr>, SpecPlanError>
    decreases exprs.len(),
{
    if exprs.len() == 0 {
        Ok(Seq::empty())
    } else {
        match d.expr_result(exprs[0], schema, ctx) {
            Err(e) => Err(e),
            Ok(h) => match spec_plan_expr_list(
                d,
                exprs.subrange(1, exprs.len() as int),
                schema,
                ctx,
            ) {
                Err(e) => Err(e),
                Ok(t) => Ok(seq![h] + t),
            },
        }
    }
}

/// Plan an optional scalar expression against the empty schema.
pub open spec fn spec_opt_expr<D: PlanDelegate>(
    d: D,
    o: Option<SpecSqlExpr>,
    ctx: SpecPlannerContext,
) -> Result<Option<SpecPlanExpr>, SpecPlanError> {
    match o {
        None => Ok(None),
        Some(e) => match d.expr_result(e, spec_empty_schema(), ctx) {
            Err(er) => Err(er),
            Ok(pe) => Ok(Some(pe)),
        },
    }
}

/// Normalize the two surface shapes of a LIMIT clause into the
/// (skip, fetch, limit-by) triple, planning each scalar sub-expression
/// against the empty schema; skip first, then fetch, then the BY list.
pub open spec fn spec_limit_triple<D: PlanDelegate>(
    d: D,
    lc: SpecLimitClause,
    ctx: SpecPlannerContext,
) -> Result<(Option<SpecPlanExpr>, Option<SpecPlanExpr>, Seq<SpecPlanExpr>), SpecPlanError> {
    match lc {
        SpecLimitClause::LimitOffset { limit, offset, limit_by } => {
            let offset_value = match offset {
                Some(o) => Some(o.value),
                None => None,
            };
            match spec_opt_expr(d, offset_value, ctx) {
                Err(e) => Err(e),
                Ok(skip) => match spec_opt_expr(d, limit, ctx) {
                    Err(e) => Err(e),
                    Ok(fetch) => match spec_plan_expr_list(d, limit_by, spec_empty_schema(), ctx) {
                        Err(e) => Err(e),
                        Ok(lb) => Ok((skip, fetch, lb)),
                    },
                },
            }
        },
        SpecLimitClause::OffsetCommaLimit { offset, limit } => {
            match d.expr_result(offset, spec_empty_schema(), ctx) {
                Err(e) => Err(e),
                Ok(s) => match d.expr_result(limit, spec_empty_schema(), ctx) {
                    Err(e) => Err(e),
                    Ok(f) => Ok((Some(s), Some(f), Seq::empty())),
                },
            }
        },
    }
}

/// What wrapping a plan in a LIMIT yields: the input unchanged when no
/// clause or neither skip nor fetch is present, a `NotImplemented` failure
/// when a BY list is present, and a limit operator otherwise.
pub open spec fn spec_limit<D: PlanDelegate>(
    d: D,
    input: SpecPlan,
    limit_clause: Option<SpecLimitClause>,
    ctx: SpecPlannerContext,
) -> Result<SpecPlan, SpecPlanError> {
    match limit_clause {
        None => Ok(input),
        Some(lc) => match spec_limit_triple(d, lc, ctx) {
            Err(e) => Err(e),
            Ok((skip, fetch, limit_by)) => {
                if limit_by.len() > 0 {
                    Err(SpecPlanError::NotImplemented("LIMIT BY clause is not supported yet"@))
                } else if skip is None && fetch is None {
                    Ok(input)
                } else {
                    Ok(SpecPlan::Limit { skip, fetch, input: Box::new(input) })
                }
            },
        },
    }
}

/// What wrapping a plan in an ORDER BY yields: the plan unchanged when the
/// sort list is empty; the sort list attached to a distinct-on root in
/// place; a new sort operator otherwise.
pub open spec fn spec_order_by(plan: SpecPlan, order_by: Seq<SpecSortExpr>) -> Result<
    SpecPlan,
    SpecPlanError,
> {
    if order_by.len() == 0 {
        Ok(plan)
    } else {
        match plan {
            SpecPlan::Distinct(SpecDistinctKind::On(don)) => Ok(
                SpecPlan::Distinct(
                    SpecDistinctKind::On(SpecDistinctOn { sort_expr: Some(order_by), ..don }),
                ),
            ),
            _ => Ok(SpecPlan::Sort { exprs: order_by, input: Box::new(plan) }),
        }
    }
}

/// What applying a SELECT INTO target yields: the plan unchanged when there
/// is no target, and otherwise a create-memory-table node with empty
/// constraints, empty column defaults and all flags false.
pub open spec fn spec_select_into<D: PlanDelegate>(
    d: D,
    plan: SpecPlan,
    select_into: Option<SpecSelectInto>,
) -> Result<SpecPlan, SpecPlanError> {
    match select_into {
        None => Ok(plan),
        Some(into) => match d.table_reference_result(into.name) {
            Err(e) => Err(e),
            Ok(name) => Ok(
                SpecPlan::Ddl(
                    SpecCreateMemoryTable {
                        name,
                        constraints: Seq::empty(),
                        input: Box::new(plan),
                        if_not_exists: false,
                        or_replace: false,
                        temporary: false,
                        column_defaults: Seq::empty(),
                    },
                ),
            ),
        },
    }
}

/// The order-by entry that ORDER BY ALL emits for one plain column output.
pub open spec fn spec_column_order_entry(e: SpecPlanExpr, options: OrderByOptions) -> SpecOrderByExpr
    recommends
        e is Column,
{
    SpecOrderByExpr {
        expr: SpecSqlExpr::Identifier(SpecIdent { value: e->Column_name, quoted: false }),
        options,
    }
}

/// The expansion of ORDER BY ALL over the select outputs: one entry per
/// plain column reference, failing at the first output of any other shape.
pub open spec fn spec_order_by_all_expansion(
    exprs: Seq<SpecPlanExpr>,
    options: OrderByOptions,
) -> Result<Seq<SpecOrderByExpr>, SpecPlanError>
    decreases exprs.len(),
{
    if exprs.len() == 0 {
        Ok(Seq::empty())
    } else {
        match exprs[0] {
            SpecPlanExpr::Column { name } => match spec_order_by_all_expansion(
                exprs.subrange(1, exprs.len() as int),
                options,
            ) {
                Err(e) => Err(e),
                Ok(t) => Ok(seq![spec_column_order_entry(exprs[0], options)] + t),
            },
            _ => Err(
                SpecPlanError::NotImplemented(
                    "ORDER BY ALL is not supported for non-column expressions"@,
                ),
            ),
        }
    }
}

/// What extracting the order-by entries of a query yields: nothing without a
/// clause, a `NotImplemented` failure under INTERPOLATE, the explicit list
/// verbatim, and for ORDER BY ALL the expansion over the select outputs.
pub open spec fn spec_to_order_by_exprs_with_select(
    order_by: Option<SpecOrderBy>,
    select_exprs: Option<Seq<SpecPlanExpr>>,
) -> Result<Seq<SpecOrderByExpr>, SpecPlanError> {
    match order_by {
        None => Ok(Seq::empty()),
        Some(ob) => {
            if ob.interpolate {
                Err(SpecPlanError::NotImplemented("ORDER BY INTERPOLATE is not supported"@))
            } else {
                match ob.kind {
                    SpecOrderByKind::All(options) => match select_exprs {
                        None => Ok(Seq::empty()),
                        Some(exprs) => spec_order_by_all_expansion(exprs, options),
                    },
                    SpecOrderByKind::Expressions(list) => Ok(list),
                }
            }
        },
    }
}

/// The context the query body is planned under: the outer context after
/// resolving the WITH clause, if one is present.
pub open spec fn spec_with_step<D: PlanDelegate>(
    d: D,
    with: Option<SpecWith>,
    ctx: SpecPlannerContext,
) -> Result<SpecPlannerContext, SpecPlanError> {
    match with {
        None => Ok(ctx),
        Some(w) => d.with_clause_result(w, ctx),
    }
}

/// What planning a whole query yields.  A SELECT body has its INTO target
/// detached, is planned by the delegate, wrapped with LIMIT and then with
/// SELECT INTO.  Any other body is planned by the delegate under the raised
/// stack allowance, then wrapped with ORDER BY and finally with LIMIT.
pub open spec fn spec_query_to_plan<D: PlanDelegate>(
    d: D,
    query: SpecQuery,
    outer_ctx: SpecPlannerContext,
) -> Result<SpecPlan, SpecPlanError> {
    match spec_with_step(d, query.with, outer_ctx) {
        Err(e) => Err(e),
        Ok(ctx) => match *query.body {
            SpecSetExpr::Select(select) => {
                let select_into = select.into;
                let detached = SpecSelect { into: None, ..*select };
                match d.select_result(detached, query.order_by, ctx) {
                    Err(e) => Err(e),
                    Ok(plan) => match spec_limit(d, plan, query.limit_clause, ctx) {
                        Err(e) => Err(e),
                        Ok(limited) => spec_select_into(d, limited, select_into),
                    },
                }
            },
            body => {
                let raised = SpecPlannerContext {
                    stack_allowance: SET_EXPR_STACK_ALLOWANCE as int,
                    ..ctx
                };
                match d.set_expr_result(body, raised) {
                    Err(e) => Err(e),
                    Ok(plan) => match spec_to_order_by_exprs_with_select(query.order_by, None) {
                        Err(e) => Err(e),
                        Ok(oby_exprs) => match d.sort_exprs_result(oby_exprs, plan, ctx) {
                            Err(e) => Err(e),
                            Ok(sort_exprs) => match spec_order_by(plan, sort_exprs) {
                                Err(e) => Err(e),
                                Ok(sorted) => spec_limit(d, sorted, query.limit_clause, ctx),
                            },
                        },
                    },
                }
            },
        },
    }
}

} // verus!

verus! {

// ---------------------------------------------------------------------------
// The planner itself.
// ---------------------------------------------------------------------------

/// Forward planner: wraps a delegated SELECT / set-expression plan with the
/// LIMIT, ORDER BY and SELECT INTO operators of the surrounding query.
pub struct QueryPlanner<'a, D: PlanDelegate> {
    pub delegate: &'a D,
}

impl<'a, D: PlanDelegate> QueryPlanner<'a, D> {
    /// A planner over the given delegate.
    pub fn new(delegate: &'a D) -> (r: QueryPlanner<'a, D>)
        ensures
            r.delegate == delegate,
    {
        QueryPlanner { delegate }
    }

    /// Plan each expression of a list against `schema`, stopping at the
    /// first failure.
    #[verifier::loop_isolation(false)]
    fn plan_expr_vec(&self, exprs: Vec<SqlExpr>, schema: &DfSchema, ctx: &PlannerContext) -> (r:
        Result<Vec<PlanExpr>, PlanError>)
        ensures
            match spec_plan_expr_list(*self.delegate, exprs.deep_view(), schema@, ctx@) {
                Ok(s) => r matches Ok(v) && v.deep_view() == s,
                Err(e) => r matches Err(pe) && pe@ == e,
            },
    {
        let ghost d = *self.delegate;
        let ghost full = exprs.deep_view();
        let mut out: Vec<PlanExpr> = Vec::new();
        let mut rest = exprs;
        let ghost n = full.len();
        proof {
            assert(full.subrange(0, n as int) =~= full);
            assert(out.deep_view() =~= Seq::<SpecPlanExpr>::empty());
            if spec_plan_expr_list(d, full, schema@, ctx@) is Ok {
                let t = spec_plan_expr_list(d, full, schema@, ctx@)->Ok_0;
                assert(out.deep_view() + t =~= t);
            }
        }
        while rest.len() > 0
            invariant
                out.deep_view().len() + rest.deep_view().len() == n,
                rest.deep_view() =~= full.subrange(out.deep_view().len() as int, n as int),
                spec_plan_expr_list(d, full, schema@, ctx@) == (match spec_plan_expr_list(
                    d,
                    full.subrange(out.deep_view().len() as int, n as int),
                    schema@,
                    ctx@,
                ) {
                    Err(e) => Err::<Seq<SpecPlanExpr>, SpecPlanError>(e),
                    Ok(t) => Ok(out.deep_view() + t),
                }),
            decreases rest.len(),
        {
            let ghost i = out.deep_view().len() as int;
            let ghost suffix = full.subrange(i, n as int);
            let e = rest.remove(0);
            proof {
                assert(suffix.len() > 0);
                assert(e.deep_view() == suffix[0]);
                assert(rest.deep_view() =~= suffix.subrange(1, suffix.len() as int)) by {
                    assert forall|k: int| 0 <= k < rest.deep_view().len() implies
                        rest.deep_view()[k] == suffix.subrange(1, suffix.len() as int)[k] by {
                        assert(rest@[k] == rest@[k]);
                    }
                }
            }
            let pe = match self.delegate.sql_to_expr(e, schema, ctx) {
                Err(er) => {
                    return Err(er);
                },
                Ok(pe) => pe,
            };
            let ghost prev_dv = out.deep_view();
            out.push(pe);
            proof {
                assert(out.deep_view() =~= prev_dv.push(pe@));
                assert(suffix.subrange(1, suffix.len() as int) =~= full.subrange(i + 1, n as int));
                if spec_plan_expr_list(d, full.subrange(i + 1, n as int), schema@, ctx@) is Ok {
                    let t = spec_plan_expr_list(
                        d,
                        full.subrange(i + 1, n as int),
                        schema@,
                        ctx@,
                    )->Ok_0;
                    assert(out.deep_view() + t =~= prev_dv + (seq![pe@] + t));
                }
            }
        }
        proof {
            assert(full.subrange(n as int, n as int) =~= Seq::<SpecSqlExpr>::empty());
            assert(out.deep_view() + Seq::<SpecPlanExpr>::empty() =~= out.deep_view());
        }
        Ok(out)
    }

    /// Wrap a plan in a limit.  With no clause, or with neither skip nor
    /// fetch present, the input is returned unchanged; a non-empty LIMIT BY
    /// list is rejected as not implemented.
    pub fn limit(
        &self,
        input: Plan,
        limit_clause: Option<LimitClause>,
        planner_context: &PlannerContext,
    ) -> (r: Result<Plan, PlanError>)
        ensures
            plan_result_matches(
                r,
                spec_limit(*self.delegate, input@, opt_view(limit_clause), planner_context@),
            ),
            limit_clause is None ==> (r matches Ok(p) && p@ == input@),
    {
        let lc = match limit_clause {
            None => {
                return Ok(input);
            },
            Some(lc) => lc,
        };
        let empty_schema = DfSchema::empty();
        proof {
            assert(empty_schema@ == spec_empty_schema());
        }
        let (skip, fetch, limit_by_exprs): (
            Option<PlanExpr>,
            Option<PlanExpr>,
            Vec<PlanExpr>,
        ) = match lc {
            LimitClause::LimitOffset { limit, offset, limit_by } => {
                let skip = match offset {
                    None => None,
                    Some(o) => match self.delegate.sql_to_expr(
                        o.value,
                        &empty_schema,
                        planner_context,
                    ) {
                        Err(e) => {
                            return Err(e);
                        },
                        Ok(pe) => Some(pe),
                    },
                };
                let fetch = match limit {
                    None => None,
                    Some(l) => match self.delegate.sql_to_expr(l, &empty_schema, planner_context) {
                        Err(e) => {
                            return Err(e);
                        },
                        Ok(pe) => Some(pe),
                    },
                };
                proof {
                    crate::ast::lemma_view_expr_seq(limit_by@);
                    assert(limit_by.deep_view() =~= crate::ast::view_expr_seq(limit_by@));
                }
                let limit_by_exprs = match self.plan_expr_vec(
                    limit_by,
                    &empty_schema,
                    planner_context,
                ) {
                    Err(e) => {
                        return Err(e);
                    },
                    Ok(v) => v,
                };
                (skip, fetch, limit_by_exprs)
            },
            LimitClause::OffsetCommaLimit { offset, limit } => {
                let skip = match self.delegate.sql_to_expr(offset, &empty_schema, planner_context) {
                    Err(e) => {
                        return Err(e);
                    },
                    Ok(pe) => pe,
                };
                let fetch = match self.delegate.sql_to_expr(limit, &empty_schema, planner_context) {
                    Err(e) => {
                        return Err(e);
                    },
                    Ok(pe) => pe,
                };
                let limit_by_exprs: Vec<PlanExpr> = Vec::new();
                proof {
                    assert(limit_by_exprs.deep_view() =~= Seq::<SpecPlanExpr>::empty());
                }
                (Some(skip), Some(fetch), limit_by_exprs)
            },
        };
        if limit_by_exprs.len() > 0 {
            return Err(
                PlanError::NotImplemented(
                    String::from_str("LIMIT BY clause is not supported yet"),
                ),
            );
        }
        if skip.is_none() && fetch.is_none() {
            return Ok(input);
        }
        Ok(Plan::Limit { skip, fetch, input: Box::new(input) })
    }

    /// Wrap a plan in a sort.  An empty sort list is a no-op; on a
    /// distinct-on root the list is attached to the node itself, since the
    /// downstream optimization treats it as the tie-break ordering of a
    /// first-value aggregation; otherwise a new sort node wraps the plan.
    pub fn order_by(&self, plan: Plan, order_by: Vec<SortExpr>) -> (r: Result<Plan, PlanError>)
        ensures
            plan_result_matches(r, spec_order_by(plan@, order_by.deep_view())),
            r is Ok,
    {
        if order_by.len() == 0 {
            proof {
                assert(order_by.deep_view() =~= Seq::<SpecSortExpr>::empty());
            }
            return Ok(plan);
        }
        match plan {
            Plan::Distinct(DistinctKind::On(distinct_on)) => {
                proof {
                    reveal_with_fuel(view_plan, 3);
                }
                let distinct_on = distinct_on.with_sort_expr(order_by);
                Ok(Plan::Distinct(DistinctKind::On(distinct_on)))
            },
            other => {
                proof {
                    reveal_with_fuel(view_plan, 3);
                }
                Ok(Plan::Sort { exprs: order_by, input: Box::new(other) })
            },
        }
    }

    /// Apply a SELECT INTO target: no target is a no-op; otherwise the plan
    /// is wrapped in a create-memory-table node with empty constraints,
    /// empty column defaults and all flags false.
    pub fn select_into(&self, plan: Plan, select_into: Option<SelectInto>) -> (r: Result<
        Plan,
        PlanError,
    >)
        ensures
            plan_result_matches(
                r,
                spec_select_into(*self.delegate, plan@, opt_view(select_into)),
            ),
            select_into is None ==> (r matches Ok(p) && p@ == plan@),
    {
        match select_into {
            Some(into) => {
                let name = match self.delegate.object_name_to_table_reference(into.name) {
                    Err(e) => {
                        return Err(e);
                    },
                    Ok(n) => n,
                };
                let constraints: Vec<crate::plan::Constraint> = Vec::new();
                let column_defaults: Vec<(String, PlanExpr)> = Vec::new();
                proof {
                    reveal_with_fuel(view_plan, 2);
                    assert(constraints.deep_view() =~= Seq::<
                        crate::plan::SpecConstraint,
                    >::empty());
                    assert(column_defaults.deep_view() =~= Seq::<
                        (Seq<char>, SpecPlanExpr),
                    >::empty());
                }
                Ok(
                    Plan::Ddl(
                        crate::plan::CreateMemoryTable {
                            name,
                            constraints,
                            input: Box::new(plan),
                            if_not_exists: false,
                            or_replace: false,
                            temporary: false,
                            column_defaults,
                        },
                    ),
                )
            },
            None => Ok(plan),
        }
    }

    /// Generate a logical plan from a query or subquery.  The outer context
    /// is cloned into a scope of this query's own and is itself left
    /// untouched.
    pub fn query_to_plan(&self, query: Query, outer_planner_context: &mut PlannerContext) -> (r:
        Result<Plan, PlanError>)
        ensures
            final(outer_planner_context)@ == old(outer_planner_context)@,
            plan_result_matches(
                r,
                spec_query_to_plan(*self.delegate, query@, old(outer_planner_context)@),
            ),
    {
        // Each query has its own planner context, including the CTEs visible
        // within it; it inherits the outer CTEs by cloning the outer context.
        let mut query_plan_context = outer_planner_context.child_scope();
        let planner_context = &mut query_plan_context;

        let Query { with, body, order_by, limit_clause, .. } = query;

        if let Some(w) = with {
            match self.delegate.plan_with_clause(w, planner_context) {
                Err(e) => {
                    return Err(e);
                },
                Ok(u) => u,
            }
        }
        match *body {
            SetExpr::Select(select) => {
                let Select {
                    distinct,
                    top,
                    projection,
                    into,
                    from,
                    lateral_views,
                    selection,
                    group_by,
                    cluster_by,
                    distribute_by,
                    sort_by,
                    having,
                    named_window,
                    qualify,
                    value_table_mode,
                    flavor,
                } = *select;
                let select_into = into;
                let detached = Select {
                    distinct,
                    top,
                    projection,
                    into: None,
                    from,
                    lateral_views,
                    selection,
                    group_by,
                    cluster_by,
                    distribute_by,
                    sort_by,
                    having,
                    named_window,
                    qualify,
                    value_table_mode,
                    flavor,
                };
                let plan = match self.delegate.select_to_plan(
                    detached,
                    order_by,
                    planner_context,
                ) {
                    Err(e) => {
                        return Err(e);
                    },
                    Ok(p) => p,
                };
                let plan = match self.limit(plan, limit_clause, planner_context) {
                    Err(e) => {
                        return Err(e);
                    },
                    Ok(p) => p,
                };
                // Process the SELECT INTO after the LIMIT, so that the
                // materialization captures the limited result.
                self.select_into(plan, select_into)
            },
            other => {
                // Set-expression bodies plan under an enlarged stack
                // allowance, restored on every exit path before any failure
                // propagates.
                let prior = planner_context.set_stack_allowance(SET_EXPR_STACK_ALLOWANCE);
                let body_result = self.delegate.set_expr_to_plan(other, planner_context);
                let restored = planner_context.set_stack_allowance(prior);
                proof {
                    assert(restored as int == SET_EXPR_STACK_ALLOWANCE as int);
                }
                let plan = match body_result {
                    Err(e) => {
                        return Err(e);
                    },
                    Ok(p) => p,
                };
                let oby_exprs = match to_order_by_exprs(order_by) {
                    Err(e) => {
                        return Err(e);
                    },
                    Ok(v) => v,
                };
                let order_by_rex = match self.delegate.order_by_to_sort_expr(
                    oby_exprs,
                    &plan,
                    planner_context,
                ) {
                    Err(e) => {
                        return Err(e);
                    },
                    Ok(v) => v,
                };
                let plan = match self.order_by(plan, order_by_rex) {
                    Err(e) => {
                        return Err(e);
                    },
                    Ok(p) => p,
                };
                self.limit(plan, limit_clause, planner_context)
            },
        }
    }
}

/// The order-by entries of a query, with no select list to expand ORDER BY
/// ALL over.
pub fn to_order_by_exprs(order_by: Option<OrderBy>) -> (r: Result<Vec<OrderByExpr>, PlanError>)
    ensures
        order_by_exprs_result_matches(
            r,
            spec_to_order_by_exprs_with_select(opt_view(order_by), None),
        ),
{
    to_order_by_exprs_with_select(order_by, None)
}

/// The order-by entries of a query.  No clause yields the empty list; an
/// INTERPOLATE modifier is rejected; an explicit list is returned verbatim;
/// ORDER BY ALL expands over the select outputs, one entry per plain column
/// reference, and is rejected as not implemented on any other output shape.
#[verifier::loop_isolation(false)]
pub fn to_order_by_exprs_with_select(
    order_by: Option<OrderBy>,
    select_exprs: Option<&Vec<PlanExpr>>,
) -> (r: Result<Vec<OrderByExpr>, PlanError>)
    ensures
        order_by_exprs_result_matches(
            r,
            spec_to_order_by_exprs_with_select(opt_view(order_by), opt_exprs_view(select_exprs)),
        ),
{
    let ob = match order_by {
        None => {
            let empty: Vec<OrderByExpr> = Vec::new();
            proof {
                assert(empty.deep_view() =~= Seq::<SpecOrderByExpr>::empty());
            }
            return Ok(empty);
        },
        Some(ob) => ob,
    };
    if ob.interpolate {
        return Err(
            PlanError::NotImplemented(String::from_str("ORDER BY INTERPOLATE is not supported")),
        );
    }
    match ob.kind {
        OrderByKind::All(options) => {
            let exprs = match select_exprs {
                None => {
                    let empty: Vec<OrderByExpr> = Vec::new();
                    proof {
                        assert(empty.deep_view() =~= Seq::<SpecOrderByExpr>::empty());
                    }
                    return Ok(empty);
                },
                Some(exprs) => exprs,
            };
            let ghost full = exprs.deep_view();
            let mut out: Vec<OrderByExpr> = Vec::new();
            let mut i: usize = 0;
            proof {
                assert(full.subrange(0, full.len() as int) =~= full);
                assert(out.deep_view() =~= Seq::<SpecOrderByExpr>::empty());
                if spec_order_by_all_expansion(full, options) is Ok {
                    let t = spec_order_by_all_expansion(full, options)->Ok_0;
                    assert(out.deep_view() + t =~= t);
                }
            }
            while i < exprs.len()
                invariant
                    i <= exprs.len(),
                    out.deep_view().len() == i,
                    spec_order_by_all_expansion(full, options) == (
                    match spec_order_by_all_expansion(
                        full.subrange(i as int, full.len() as int),
                        options,
                    ) {
                        Err(e) => Err::<Seq<SpecOrderByExpr>, SpecPlanError>(e),
                        Ok(t) => Ok(out.deep_view() + t),
                    }),
                decreases exprs.len() - i,
            {
                let ghost suffix = full.subrange(i as int, full.len() as int);
                proof {
                    assert(suffix[0] == view_plan_expr(exprs@[i as int]));
                }
                match &exprs[i] {
                    PlanExpr::Column { name } => {
                        let entry = OrderByExpr {
                            expr: SqlExpr::Identifier(
                                Ident { value: name.clone(), quoted: false },
                            ),
                            options,
                        };
                        proof {
                            assert(entry@ == spec_column_order_entry(suffix[0], options));
                        }
                        let ghost prev = out.deep_view();
                        out.push(entry);
                        proof {
                            assert(out.deep_view() =~= prev.push(entry@));
                            assert(suffix.subrange(1, suffix.len() as int) =~= full.subrange(
                                i + 1,
                                full.len() as int,
                            ));
                            if spec_order_by_all_expansion(
                                full.subrange(i + 1, full.len() as int),
                                options,
                            ) is Ok {
                                let t = spec_order_by_all_expansion(
                                    full.subrange(i + 1, full.len() as int),
                                    options,
                                )->Ok_0;
                                assert(out.deep_view() + t =~= prev + (seq![entry@] + t));
                            }
                        }
                    },
                    _ => {
                        return Err(
                            PlanError::NotImplemented(
                                String::from_str(
                                    "ORDER BY ALL is not supported for non-column expressions",
                                ),
                            ),
                        );
                    },
                }
                i += 1;
            }
            proof {
                assert(full.subrange(full.len() as int, full.len() as int) =~= Seq::<
                    SpecPlanExpr,
                >::empty());
                assert(out.deep_view() + Seq::<SpecOrderByExpr>::empty() =~= out.deep_view());
            }
            Ok(out)
        },
        OrderByKind::Expressions(order_by_exprs) => Ok(order_by_exprs),
    }
}

} // verus!
