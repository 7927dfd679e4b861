//! A minimal, fully verified planning delegate.
//!
//! It plans literal scalar expressions, binds every CTE of a WITH clause to
//! the empty relation, plans a SELECT body as a scan of its first base table
//! (or as the empty relation), resolves order-by entries over plain column
//! names, and joins object names of up to three parts into a table
//! reference.  It makes the forward planner usable on its own, and it is
//! the delegate the tests drive.

use crate::ast::ObjectName;
use crate::ast::OrderBy;
use crate::ast::OrderByExpr;
use crate::ast::Select;
use crate::ast::SetExpr;
use crate::ast::SpecCte;
use crate::ast::SpecOrderBy;
use crate::ast::SpecOrderByExpr;
use crate::ast::SpecSelect;
use crate::ast::SpecSetExpr;
use crate::ast::SpecSqlExpr;
use crate::ast::SpecTableFactor;
use crate::ast::SpecWith;
use crate::ast::SqlExpr;
use crate::ast::TableFactor;
use crate::ast::With;
use crate::ast::lemma_view_twj_seq;
use crate::ast::lemma_view_cte_seq;
use crate::context::PlannerContext;
use crate::context::SpecPlannerContext;
use crate::errors::PlanError;
use crate::errors::SpecPlanError;
use crate::plan::DfSchema;
use crate::plan::Plan;
use crate::plan::PlanExpr;
use crate::plan::SortExpr;
use crate::plan::SpecDfSchema;
use crate::plan::SpecPlan;
use crate::plan::SpecPlanExpr;
use crate::plan::SpecSortExpr;
use crate::plan::SpecTableReference;
use crate::plan::TableReference;
use crate::planner::PlanDelegate;
use std::sync::Arc;
use vstd::prelude::*;

verus! {

/// The minimal delegate.
pub struct SimpleDelegate;

/// The plan this delegate gives a SELECT clause: a scan of the first FROM
/// item's base table, or the empty relation.
pub open spec fn simple_select_plan(select: SpecSelect) -> SpecPlan {
    if select.from.len() > 0 {
        match select.from[0].relation {
            SpecTableFactor::Table { name, .. } => {
                if name.parts.len() > 0 {
                    SpecPlan::TableScan { name: name.parts[0].value }
                } else {
                    SpecPlan::EmptyRelation
                }
            },
            _ => SpecPlan::EmptyRelation,
        }
    } else {
        SpecPlan::EmptyRelation
    }
}

/// The plan this delegate gives a query body.
pub open spec fn simple_body_plan(body: SpecSetExpr) -> SpecPlan {
    match body {
        SpecSetExpr::Select(s) => simple_select_plan(*s),
        _ => SpecPlan::EmptyRelation,
    }
}

/// The context after binding each CTE, in order, to the empty relation.
pub open spec fn simple_bind_ctes(
    m: Map<Seq<char>, SpecPlan>,
    ctes: Seq<SpecCte>,
) -> Map<Seq<char>, SpecPlan>
    decreases ctes.len(),
{
    if ctes.len() == 0 {
        m
    } else {
        simple_bind_ctes(
            m.insert(ctes[0].alias.value, SpecPlan::EmptyRelation),
            ctes.subrange(1, ctes.len() as int),
        )
    }
}

/// The sort key this delegate resolves one order-by entry to.
pub open spec fn simple_sort_entry(e: SpecOrderByExpr) -> SpecSortExpr
    recommends
        e.expr is Identifier,
{
    let asc = match e.options.asc {
        Some(a) => a,
        None => true,
    };
    SpecSortExpr {
        expr: SpecPlanExpr::Column { name: e.expr->Identifier_0.value },
        asc,
        nulls_first: match e.options.nulls_first {
            Some(n) => n,
            None => !asc,
        },
    }
}

/// The sort keys of a list of order-by entries: one per entry, each of which
/// must be a plain column identifier.
pub open spec fn simple_sort_exprs(exprs: Seq<SpecOrderByExpr>) -> Result<
    Seq<SpecSortExpr>,
    SpecPlanError,
>
    decreases exprs.len(),
{
    if exprs.len() == 0 {
        Ok(Seq::empty())
    } else if !(exprs[0].expr is Identifier) {
        Err(SpecPlanError::Planning("only plain column names can be sorted by here"@))
    } else {
        match simple_sort_exprs(exprs.subrange(1, exprs.len() as int)) {
            Err(e) => Err(e),
            Ok(t) => Ok(seq![simple_sort_entry(exprs[0])] + t),
        }
    }
}

/// The table reference of an object name of up to three parts.
pub open spec fn simple_table_reference(name: crate::ast::SpecObjectName) -> Result<
    SpecTableReference,
    SpecPlanError,
> {
    if name.parts.len() == 1 {
        Ok(SpecTableReference::Bare { table: name.parts[0].value })
    } else if name.parts.len() == 2 {
        Ok(
            SpecTableReference::Partial {
                schema: name.parts[0].value,
                table: name.parts[1].value,
            },
        )
    } else if name.parts.len() == 3 {
        Ok(
            SpecTableReference::Full {
                catalog: name.parts[0].value,
                schema: name.parts[1].value,
                table: name.parts[2].value,
            },
        )
    } else {
        Err(SpecPlanError::Planning("a table name has one to three parts"@))
    }
}

impl PlanDelegate for SimpleDelegate {
    open spec fn with_clause_result(&self, with: SpecWith, ctx: SpecPlannerContext) -> Result<
        SpecPlannerContext,
        SpecPlanError,
    > {
        Ok(
            SpecPlannerContext {
                ctes: simple_bind_ctes(ctx.ctes, with.cte_tables),
                stack_allowance: ctx.stack_allowance,
            },
        )
    }

    open spec fn select_result(
        &self,
        select: SpecSelect,
        order_by: Option<SpecOrderBy>,
        ctx: SpecPlannerContext,
    ) -> Result<SpecPlan, SpecPlanError> {
        Ok(simple_select_plan(select))
    }

    open spec fn set_expr_result(&self, body: SpecSetExpr, ctx: SpecPlannerContext) -> Result<
        SpecPlan,
        SpecPlanError,
    > {
        Ok(simple_body_plan(body))
    }

    open spec fn expr_result(
        &self,
        e: SpecSqlExpr,
        schema: SpecDfSchema,
        ctx: SpecPlannerContext,
    ) -> Result<SpecPlanExpr, SpecPlanError> {
        match e {
            SpecSqlExpr::Number(n) => Ok(SpecPlanExpr::Literal(n)),
            _ => Err(SpecPlanError::Planning("only literal expressions are planned here"@)),
        }
    }

    open spec fn sort_exprs_result(
        &self,
        exprs: Seq<SpecOrderByExpr>,
        plan: SpecPlan,
        ctx: SpecPlannerContext,
    ) -> Result<Seq<SpecSortExpr>, SpecPlanError> {
        simple_sort_exprs(exprs)
    }

    open spec fn table_reference_result(&self, name: crate::ast::SpecObjectName) -> Result<
        SpecTableReference,
        SpecPlanError,
    > {
        simple_table_reference(name)
    }

    #[verifier::loop_isolation(false)]
    fn plan_with_clause(&self, with: With, ctx: &mut PlannerContext) -> (r: Result<
        (),
        PlanError,
    >) {
        let ghost full = crate::ast::view_cte_seq(with.cte_tables@);
        let ghost m0 = old(ctx)@.ctes;
        proof {
            lemma_view_cte_seq(with.cte_tables@);
            assert(full.subrange(0, full.len() as int) =~= full);
        }
        let ctes = with.cte_tables;
        let n = ctes.len();
        let mut i: usize = 0;
        while i < n
            invariant
                n == ctes@.len(),
                i <= n,
                ctx@.stack_allowance == old(ctx)@.stack_allowance,
                simple_bind_ctes(m0, full) == simple_bind_ctes(
                    ctx@.ctes,
                    full.subrange(i as int, full.len() as int),
                ),
            decreases n - i,
        {
            let ghost suffix = full.subrange(i as int, full.len() as int);
            proof {
                assert(suffix[0] == crate::ast::view_cte(ctes@[i as int]));
            }
            let name = ctes[i].alias.value.clone();
            ctx.insert_cte(name, Arc::new(Plan::EmptyRelation));
            proof {
                assert(suffix.subrange(1, suffix.len() as int) =~= full.subrange(
                    i + 1,
                    full.len() as int,
                ));
            }
            i += 1;
        }
        proof {
            assert(full.subrange(n as int, n as int) =~= Seq::<SpecCte>::empty());
        }
        Ok(())
    }

    fn select_to_plan(
        &self,
        select: Select,
        order_by: Option<OrderBy>,
        ctx: &PlannerContext,
    ) -> (r: Result<Plan, PlanError>) {
        let mut from = select.from;
        proof {
            lemma_view_twj_seq(from@);
            reveal_with_fuel(crate::ast::view_twj, 3);
        }
        if from.len() > 0 {
            let twj = from.remove(0);
            match twj.relation {
                TableFactor::Table { name, .. } => {
                    let mut parts = name.parts;
                    if parts.len() > 0 {
                        let first = parts.remove(0);
                        Ok(Plan::TableScan { name: first.value })
                    } else {
                        Ok(Plan::EmptyRelation)
                    }
                },
                _ => Ok(Plan::EmptyRelation),
            }
        } else {
            Ok(Plan::EmptyRelation)
        }
    }

    fn set_expr_to_plan(&self, body: SetExpr, ctx: &PlannerContext) -> (r: Result<
        Plan,
        PlanError,
    >) {
        match body {
            SetExpr::Select(s) => self.select_to_plan(*s, None, ctx),
            _ => Ok(Plan::EmptyRelation),
        }
    }

    fn sql_to_expr(&self, e: SqlExpr, schema: &DfSchema, ctx: &PlannerContext) -> (r: Result<
        PlanExpr,
        PlanError,
    >) {
        match e {
            SqlExpr::Number(n) => Ok(PlanExpr::Literal(n)),
            _ => Err(
                PlanError::Planning(
                    String::from_str("only literal expressions are planned here"),
                ),
            ),
        }
    }

    #[verifier::loop_isolation(false)]
    fn order_by_to_sort_expr(
        &self,
        exprs: Vec<OrderByExpr>,
        plan: &Plan,
        ctx: &PlannerContext,
    ) -> (r: Result<Vec<SortExpr>, PlanError>) {
        let ghost full = exprs.deep_view();
        let mut out: Vec<SortExpr> = Vec::new();
        let mut i: usize = 0;
        proof {
            assert(full.subrange(0, full.len() as int) =~= full);
            assert(out.deep_view() =~= Seq::<SpecSortExpr>::empty());
            if simple_sort_exprs(full) is Ok {
                let t = simple_sort_exprs(full)->Ok_0;
                assert(out.deep_view() + t =~= t);
            }
        }
        while i < exprs.len()
            invariant
                i <= exprs.len(),
                out.deep_view().len() == i,
                simple_sort_exprs(full) == (match simple_sort_exprs(
                    full.subrange(i as int, full.len() as int),
                ) {
                    Err(e) => Err::<Seq<SpecSortExpr>, SpecPlanError>(e),
                    Ok(t) => Ok(out.deep_view() + t),
                }),
            decreases exprs.len() - i,
        {
            let ghost suffix = full.subrange(i as int, full.len() as int);
            proof {
                assert(suffix[0] == exprs@[i as int].deep_view());
            }
            match &exprs[i].expr {
                SqlExpr::Identifier(ident) => {
                    let asc = match exprs[i].options.asc {
                        Some(a) => a,
                        None => true,
                    };
                    let nulls_first = match exprs[i].options.nulls_first {
                        Some(nf) => nf,
                        None => !asc,
                    };
                    let entry = SortExpr {
                        expr: PlanExpr::Column { name: ident.value.clone() },
                        asc,
                        nulls_first,
                    };
                    proof {
                        assert(entry@ == simple_sort_entry(suffix[0]));
                    }
                    let ghost prev = out.deep_view();
                    out.push(entry);
                    proof {
                        assert(out.deep_view() =~= prev.push(entry@));
                        assert(suffix.subrange(1, suffix.len() as int) =~= full.subrange(
                            i + 1,
                            full.len() as int,
                        ));
                        if simple_sort_exprs(full.subrange(i + 1, full.len() as int)) is Ok {
                            let t = simple_sort_exprs(
                                full.subrange(i + 1, full.len() as int),
                            )->Ok_0;
                            assert(out.deep_view() + t =~= prev + (seq![entry@] + t));
                        }
                    }
                },
                _ => {
                    return Err(
                        PlanError::Planning(
                            String::from_str("only plain column names can be sorted by here"),
                        ),
                    );
                },
            }
            i += 1;
        }
        proof {
            assert(full.subrange(full.len() as int, full.len() as int) =~= Seq::<
                SpecOrderByExpr,
            >::empty());
            assert(out.deep_view() + Seq::<SpecSortExpr>::empty() =~= out.deep_view());
        }
        Ok(out)
    }

    fn object_name_to_table_reference(&self, name: ObjectName) -> (r: Result<
        TableReference,
        PlanError,
    >) {
        let mut parts = name.parts;
        if parts.len() == 1 {
            let p0 = parts.remove(0);
            Ok(TableReference::Bare { table: p0.value })
        } else if parts.len() == 2 {
            let p0 = parts.remove(0);
            let p1 = parts.remove(0);
            Ok(TableReference::Partial { schema: p0.value, table: p1.value })
        } else if parts.len() == 3 {
            let p0 = parts.remove(0);
            let p1 = parts.remove(0);
            let p2 = parts.remove(0);
            Ok(TableReference::Full { catalog: p0.value, schema: p1.value, table: p2.value })
        } else {
            Err(PlanError::Planning(String::from_str("a table name has one to three parts")))
        }
    }
}

} // verus!
