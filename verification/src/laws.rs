//! Laws of the forward planner, proved from the contracts alone.

use crate::ast::SpecQuery;
use crate::ast::SpecSelect;
use crate::ast::SpecSetExpr;
use crate::ast::SpecSqlExpr;
use crate::context::SET_EXPR_STACK_ALLOWANCE;
use crate::context::SpecPlannerContext;
use crate::errors::SpecPlanError;
use crate::plan::SpecDfSchema;
use crate::plan::SpecPlan;
use crate::plan::SpecSortExpr;
use crate::planner::PlanDelegate;
use crate::planner::spec_limit;
use crate::planner::spec_limit_triple;
use crate::planner::spec_plan_expr_list;
use crate::planner::spec_query_to_plan;
use crate::ast::SpecLimitClause;
use vstd::prelude::*;

verus! {

/// Planning a list of expressions, when it succeeds, yields one plan
/// expression per input expression.
pub proof fn lemma_plan_expr_list_len<D: PlanDelegate>(
    d: D,
    exprs: Seq<SpecSqlExpr>,
    schema: SpecDfSchema,
    ctx: SpecPlannerContext,
)
    requires
        spec_plan_expr_list(d, exprs, schema, ctx) is Ok,
    ensures
        spec_plan_expr_list(d, exprs, schema, ctx)->Ok_0.len() == exprs.len(),
    decreases exprs.len(),
{
    if exprs.len() > 0 {
        lemma_plan_expr_list_len(d, exprs.subrange(1, exprs.len() as int), schema, ctx);
    }
}

/// A limit clause whose skip and fetch are both absent, and whose BY list
/// is empty, leaves the input plan unchanged.
pub proof fn lemma_limit_absent_skip_fetch_is_noop<D: PlanDelegate>(
    d: D,
    input: SpecPlan,
    lc: SpecLimitClause,
    ctx: SpecPlannerContext,
)
    requires
        spec_limit_triple(d, lc, ctx) matches Ok(t) && t.0 is None && t.1 is None && t.2.len()
            == 0,
    ensures
        spec_limit(d, input, Some(lc), ctx) == Ok::<SpecPlan, SpecPlanError>(input),
{
}

/// A limit clause with a non-empty BY list whose expressions plan
/// successfully is rejected as not implemented, whatever its skip and
/// fetch hold.
pub proof fn lemma_limit_by_rejected<D: PlanDelegate>(
    d: D,
    input: SpecPlan,
    lc: SpecLimitClause,
    ctx: SpecPlannerContext,
)
    requires
        lc matches SpecLimitClause::LimitOffset { limit_by, .. } && limit_by.len() > 0,
        spec_limit_triple(d, lc, ctx) is Ok,
    ensures
        spec_limit(d, input, Some(lc), ctx) == Err::<SpecPlan, SpecPlanError>(
            SpecPlanError::NotImplemented("LIMIT BY clause is not supported yet"@),
        ),
{
    let limit_by = lc->LimitOffset_limit_by;
    lemma_plan_expr_list_len(d, limit_by, crate::planner::spec_empty_schema(), ctx);
}

/// A query with no WITH clause, no ORDER BY and no LIMIT clause (and, for
/// a SELECT body, no INTO target) plans to exactly what the delegated
/// SELECT or set-expression planner returns: every wrap is a no-op.  The
/// one assumption on the delegate is that resolving an empty order-by list
/// yields an empty sort list.
pub proof fn lemma_no_clause_query_is_delegate_plan<D: PlanDelegate>(
    d: D,
    query: SpecQuery,
    ctx: SpecPlannerContext,
)
    requires
        query.with is None,
        query.order_by is None,
        query.limit_clause is None,
        (*query.body) matches SpecSetExpr::Select(s) ==> s.into is None,
        forall|p: SpecPlan| #[trigger] d.sort_exprs_result(Seq::empty(), p, ctx) == Ok::<
            Seq<SpecSortExpr>,
            SpecPlanError,
        >(Seq::empty()),
    ensures
        spec_query_to_plan(d, query, ctx) == (match *query.body {
            SpecSetExpr::Select(s) => d.select_result(
                SpecSelect { into: None, ..*s },
                None,
                ctx,
            ),
            body => d.set_expr_result(
                body,
                SpecPlannerContext { stack_allowance: SET_EXPR_STACK_ALLOWANCE as int, ..ctx },
            ),
        }),
{
    match *query.body {
        SpecSetExpr::Select(s) => {
            assert(SpecSelect { into: None, ..*s } == *s);
        },
        body => {
            let raised = SpecPlannerContext {
                stack_allowance: SET_EXPR_STACK_ALLOWANCE as int,
                ..ctx
            };
            match d.set_expr_result(body, raised) {
                Ok(plan) => {
                    assert(d.sort_exprs_result(Seq::empty(), plan, ctx) == Ok::<
                        Seq<SpecSortExpr>,
                        SpecPlanError,
                    >(Seq::empty()));
                },
                Err(e) => {},
            }
        },
    }
}

} // verus!
