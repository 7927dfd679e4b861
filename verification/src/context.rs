//! The planner context: a scoped mapping from CTE name to its resolved plan,
//! owned by one query invocation.
//!
//! Entering a subquery clones the context ([`PlannerContext::child_scope`]),
//! so CTE definitions made inside a subquery never leak back to the outer or
//! a sibling scope.  The context also carries the execution-stack allowance
//! under which delegated planning runs; the forward planner raises it around
//! the set-expression branch and restores it on every exit path.

use crate::plan::Plan;
use crate::plan::SpecPlan;
use std::sync::Arc;
use vstd::prelude::*;

verus! {

/// Stack allowance in effect unless a planning step raises it.
pub const DEFAULT_STACK_ALLOWANCE: u64 = 128 * 1024;

/// Stack allowance under which a set-expression body is planned: deep chains
/// of set operations exceed the default budget.
pub const SET_EXPR_STACK_ALLOWANCE: u64 = 256 * 1024;

/// Mathematical image of a [`PlannerContext`]: the name-to-plan mapping,
/// with later insertions overriding earlier ones, and the stack allowance.
pub struct SpecPlannerContext {
    pub ctes: Map<Seq<char>, SpecPlan>,
    pub stack_allowance: int,
}

/// The mapping described by an association list, later entries overriding.
pub open spec fn ctes_map(s: Seq<(String, Arc<Plan>)>) -> Map<Seq<char>, SpecPlan>
    decreases s.len(),
{
    if s.len() == 0 {
        Map::empty()
    } else {
        ctes_map(s.subrange(0, s.len() - 1)).insert(
            s[s.len() - 1].0@,
            s[s.len() - 1].1@,
        )
    }
}

/// Scoped mapping from CTE name to resolved plan, plus the stack allowance
/// in effect.
pub struct PlannerContext {
    ctes: Vec<(String, Arc<Plan>)>,
    stack_allowance: u64,
}

/// Relies on `std::sync::Arc::clone`: the clone is another handle to the
/// same allocation, so it carries the same plan.
#[verifier::external_body]
fn clone_plan_handle(p: &Arc<Plan>) -> (r: Arc<Plan>)
    ensures
        r == *p,
{
    Arc::clone(p)
}

/// A key is in the mapping exactly when some entry bears it, and the mapped
/// plan is the one of the last such entry.
#[verifier::rlimit(50)]
pub proof fn lemma_ctes_map_lookup(s: Seq<(String, Arc<Plan>)>, k: Seq<char>)
    ensures
        ctes_map(s).contains_key(k) <==> exists|j: int| 0 <= j < s.len() && (#[trigger] s[j].0@)
            == k,
        forall|j: int|
            0 <= j < s.len() && (#[trigger] s[j].0@) == k && (forall|l: int|
                j < l < s.len() ==> (#[trigger] s[l].0@) != k) ==> ctes_map(s)[k] == s[j].1@,
    decreases s.len(),
{
    if s.len() > 0 {
        let s0 = s.subrange(0, s.len() - 1);
        let x = s[s.len() - 1];
        lemma_ctes_map_lookup(s0, k);
        assert forall|j: int| 0 <= j < s0.len() implies s0[j] == s[j] by {}
        if x.0@ == k {
            assert(ctes_map(s).contains_key(k));
        } else {
            if ctes_map(s).contains_key(k) {
                let j = choose|j: int| 0 <= j < s0.len() && (#[trigger] s0[j].0@) == k;
                assert(s[j].0@ == k);
            }
            if exists|j: int| 0 <= j < s.len() && (#[trigger] s[j].0@) == k {
                let j = choose|j: int| 0 <= j < s.len() && (#[trigger] s[j].0@) == k;
                assert(s0[j].0@ == k);
            }
        }
        assert forall|j: int|
            0 <= j < s.len() && (#[trigger] s[j].0@) == k && (forall|l: int|
                j < l < s.len() ==> (#[trigger] s[l].0@) != k) implies ctes_map(s)[k]
            == s[j].1@ by {
            if j == s.len() - 1 {
                assert(ctes_map(s)[k] == x.1@);
            } else {
                assert(s[s.len() - 1].0@ != k);
                assert forall|l: int| j < l < s0.len() implies (#[trigger] s0[l].0@) != k by {
                    assert(s[l].0@ != k);
                }
                assert(s0[j].0@ == k);
                assert(ctes_map(s0)[k] == s0[j].1@);
            }
        }
    }
}

impl View for PlannerContext {
    type V = SpecPlannerContext;

    closed spec fn view(&self) -> SpecPlannerContext {
        SpecPlannerContext {
            ctes: ctes_map(self.ctes@),
            stack_allowance: self.stack_allowance as int,
        }
    }
}

impl PlannerContext {
    /// An empty context with the default stack allowance.
    pub fn new() -> (r: PlannerContext)
        ensures
            r@.ctes == Map::<Seq<char>, SpecPlan>::empty(),
            r@.stack_allowance == DEFAULT_STACK_ALLOWANCE as int,
    {
        PlannerContext { ctes: Vec::new(), stack_allowance: DEFAULT_STACK_ALLOWANCE }
    }

    /// The context a subquery plans under: a copy of this one.  The copy is
    /// discarded when the subquery returns, so nothing inserted into it
    /// leaks back.
    pub fn child_scope(&self) -> (r: PlannerContext)
        ensures
            r@ == self@,
    {
        let mut ctes: Vec<(String, Arc<Plan>)> = Vec::new();
        let n = self.ctes.len();
        let mut i: usize = 0;
        while i < n
            invariant
                n == self.ctes@.len(),
                i <= n,
                ctes@.len() == i,
                forall|j: int| 0 <= j < i ==> #[trigger] ctes@[j] == self.ctes@[j],
            decreases n - i,
        {
            let name = self.ctes[i].0.clone();
            let plan = clone_plan_handle(&self.ctes[i].1);
            ctes.push((name, plan));
            i += 1;
        }
        proof {
            assert(ctes@ =~= self.ctes@);
        }
        PlannerContext { ctes, stack_allowance: self.stack_allowance }
    }

    /// Bind `name` to `plan`, overriding any earlier binding of that name.
    pub fn insert_cte(&mut self, name: String, plan: Arc<Plan>)
        ensures
            final(self)@.ctes == old(self)@.ctes.insert(name@, plan@),
            final(self)@.stack_allowance == old(self)@.stack_allowance,
    {
        self.ctes.push((name, plan));
        proof {
            assert(self.ctes@.subrange(0, self.ctes@.len() - 1) =~= old(self).ctes@);
        }
    }

    /// Look up the plan bound to `name`, if any.
    #[verifier::loop_isolation(false)]
    pub fn get_cte(&self, name: &String) -> (r: Option<&Arc<Plan>>)
        ensures
            match r {
                Some(p) => self@.ctes.contains_key(name@) && p@ == self@.ctes[name@],
                None => !self@.ctes.contains_key(name@),
            },
    {
        let mut i: usize = self.ctes.len();
        while i > 0
            invariant
                i <= self.ctes@.len(),
                forall|l: int| i <= l < self.ctes@.len() ==> (#[trigger] self.ctes@[l].0@) != name@,
            decreases i,
        {
            i -= 1;
            if self.ctes[i].0 == *name {
                proof {
                    lemma_ctes_map_lookup(self.ctes@, name@);
                }
                return Some(&self.ctes[i].1);
            }
        }
        proof {
            lemma_ctes_map_lookup(self.ctes@, name@);
        }
        None
    }

    /// Set the stack allowance, returning the one previously in effect.
    pub fn set_stack_allowance(&mut self, bytes: u64) -> (prior: u64)
        ensures
            final(self)@.ctes == old(self)@.ctes,
            final(self)@.stack_allowance == bytes as int,
            prior as int == old(self)@.stack_allowance,
    {
        let prior = self.stack_allowance;
        self.stack_allowance = bytes;
        prior
    }
}

} // verus!
