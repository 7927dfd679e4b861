//! The shared failure vocabulary of the bridge.
//!
//! The forward planner reports unsupported constructs with
//! [`PlanError::NotImplemented`] and passes delegated failures through as
//! [`PlanError::Planning`].  The reverse builders report a missing required
//! field with [`BuilderError::UninitializedField`] and any other
//! finalize-time inconsistency with [`BuilderError::ValidationError`].

use vstd::prelude::*;

verus! {

/// Error raised when a builder's finalizer runs before a required field was
/// set.  It carries the name of that field.
#[derive(Debug)]
pub struct UninitializedFieldError {
    field: &'static str,
}

impl UninitializedFieldError {
    /// The name of the missing field, as a sequence of characters.
    pub closed spec fn spec_field_name(&self) -> Seq<char> {
        self.field@
    }

    /// Create a new `UninitializedFieldError` for the specified field name.
    pub fn new(field_name: &'static str) -> (r: Self)
        ensures
            r.spec_field_name() == field_name@,
    {
        UninitializedFieldError { field: field_name }
    }

    /// Get the name of the field that wasn't initialized.
    pub fn field_name(&self) -> (r: &'static str)
        ensures
            r@ == self.spec_field_name(),
    {
        self.field
    }

    /// A human-readable description of this error.
    pub fn message(&self) -> (r: String)
        ensures
            r@ == "Field not initialized: "@ + self.spec_field_name(),
    {
        String::from_str("Field not initialized: ").concat(self.field)
    }
}

/// Mathematical image of a [`BuilderError`].
pub enum SpecBuilderError {
    UninitializedField(Seq<char>),
    ValidationError(Seq<char>),
}

/// Failure result of a builder's finalizer: either a required field was never
/// set, or the populated fields are inconsistent.
#[derive(Debug)]
pub enum BuilderError {
    UninitializedField(&'static str),
    ValidationError(String),
}

impl View for BuilderError {
    type V = SpecBuilderError;

    open spec fn view(&self) -> SpecBuilderError {
        match self {
            BuilderError::UninitializedField(f) => SpecBuilderError::UninitializedField(f@),
            BuilderError::ValidationError(m) => SpecBuilderError::ValidationError(m@),
        }
    }
}

impl BuilderError {
    /// A human-readable description of this error.
    pub fn message(&self) -> (r: String)
        ensures
            match self@ {
                SpecBuilderError::UninitializedField(f) => r@ == "`"@ + f
                    + "` must be initialized"@,
                SpecBuilderError::ValidationError(m) => r@ == m,
            },
    {
        match self {
            BuilderError::UninitializedField(field) => String::from_str("`").concat(
                field,
            ).concat("` must be initialized"),
            BuilderError::ValidationError(error) => error.clone(),
        }
    }
}

impl From<UninitializedFieldError> for BuilderError {
    fn from(e: UninitializedFieldError) -> (r: BuilderError) {
        BuilderError::UninitializedField(e.field)
    }
}

impl vstd::std_specs::convert::FromSpecImpl<UninitializedFieldError> for BuilderError {
    open spec fn obeys_from_spec() -> bool {
        true
    }

    closed spec fn from_spec(e: UninitializedFieldError) -> BuilderError {
        BuilderError::UninitializedField(e.field)
    }
}

impl From<String> for BuilderError {
    fn from(m: String) -> (r: BuilderError) {
        BuilderError::ValidationError(m)
    }
}

impl vstd::std_specs::convert::FromSpecImpl<String> for BuilderError {
    open spec fn obeys_from_spec() -> bool {
        true
    }

    open spec fn from_spec(m: String) -> BuilderError {
        BuilderError::ValidationError(m)
    }
}

/// Mathematical image of a [`PlanError`].
pub enum SpecPlanError {
    NotImplemented(Seq<char>),
    Planning(Seq<char>),
}

/// Failure result of the forward planner.  `NotImplemented` marks a
/// syntactically valid but unsupported construct and names it; `Planning` is
/// a delegated planning failure passed through unchanged.
#[derive(Debug)]
pub enum PlanError {
    NotImplemented(String),
    Planning(String),
}

impl View for PlanError {
    type V = SpecPlanError;

    open spec fn view(&self) -> SpecPlanError {
        match self {
            PlanError::NotImplemented(m) => SpecPlanError::NotImplemented(m@),
            PlanError::Planning(m) => SpecPlanError::Planning(m@),
        }
    }
}

} // verus!
