//! Bridge between surface SQL query syntax and a logical-plan intermediate
//! representation.
//!
//! The forward direction ([`planner`]) turns a parsed query node into a tree
//! of logical-plan operators, wrapping a delegated SELECT / set-expression
//! plan with LIMIT, ORDER BY and SELECT INTO operators in the exact order the
//! SQL semantics prescribe.  The reverse direction ([`builders`]) offers a
//! family of validating builders that an external plan walker fills in while
//! reconstructing a query syntax tree from a logical plan.

pub mod ast;
pub mod builders;
pub mod context;
pub mod errors;
pub mod laws;
pub mod plan;
pub mod planner;
pub mod simple;

pub use errors::BuilderError;
pub use errors::PlanError;
pub use errors::SpecBuilderError;
pub use errors::SpecPlanError;
pub use errors::UninitializedFieldError;
