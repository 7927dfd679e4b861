//! The reverse unparser builders.
//!
//! Each target syntax-node shape has a mutable builder: optional-field
//! setters, and one validating finalizer (`build`) that checks required
//! fields, applies defaults, and returns either the finished node or a
//! [`BuilderError`] — never a partially populated node.  A builder is
//! consumed exactly once by its finalizer.  As everywhere in this crate,
//! each builder has a mathematical twin reached through `view`, and every
//! contract speaks of the twins.

use crate::ast::Distinct;
use crate::ast::Fetch;
use crate::ast::ForClause;
use crate::ast::GroupByExpr;
use crate::ast::Ident;
use crate::ast::Join;
use crate::ast::LateralView;
use crate::ast::LimitClause;
use crate::ast::LockClause;
use crate::ast::NamedWindow;
use crate::ast::ObjectName;
use crate::ast::Offset;
use crate::ast::OrderBy;
use crate::ast::OrderByKind;
use crate::ast::Query;
use crate::ast::Select;
use crate::ast::SelectInto;
use crate::ast::SelectItem;
use crate::ast::SelectFlavor;
use crate::ast::SetExpr;
use crate::ast::SpecDistinct;
use crate::ast::SpecFetch;
use crate::ast::SpecGroupByExpr;
use crate::ast::SpecIdent;
use crate::ast::SpecJoin;
use crate::ast::SpecLateralView;
use crate::ast::SpecLimitClause;
use crate::ast::SpecNamedWindow;
use crate::ast::SpecObjectName;
use crate::ast::SpecOffset;
use crate::ast::SpecOrderBy;
use crate::ast::SpecOrderByKind;
use crate::ast::SpecQuery;
use crate::ast::SpecSelect;
use crate::ast::SpecSelectInto;
use crate::ast::SpecSelectItem;
use crate::ast::SpecSetExpr;
use crate::ast::SpecSqlExpr;
use crate::ast::SpecTableAlias;
use crate::ast::SpecTableFactor;
use crate::ast::SpecTableWithJoins;
use crate::ast::SpecWith;
use crate::ast::SqlExpr;
use crate::ast::TableAlias;
use crate::ast::Top;
use crate::ast::SpecTop;
use crate::ast::TableFactor;
use crate::ast::TableWithJoins;
use crate::ast::ValueTableMode;
use crate::ast::With;
use crate::ast::subst_expr;
use crate::ast::substitute_expr;
use crate::ast::view_expr_seq;
use crate::ast::view_join_seq;
use crate::errors::BuilderError;
use crate::errors::SpecBuilderError;
use crate::planner::opt_view;
use vstd::prelude::*;

verus! {

// ---------------------------------------------------------------------------
// Base-table relation builder.
// ---------------------------------------------------------------------------

/// Builder for a base-table relation.
pub struct TableRelationBuilder {
    name: Option<ObjectName>,
    alias: Option<TableAlias>,
    args: Option<Vec<SqlExpr>>,
    with_hints: Vec<SqlExpr>,
    version: Option<SqlExpr>,
    partitions: Vec<Ident>,
    index_hints: Vec<Ident>,
}

/// Mathematical image of a [`TableRelationBuilder`].
pub struct SpecTableRelationBuilder {
    pub name: Option<SpecObjectName>,
    pub alias: Option<SpecTableAlias>,
    pub args: Option<Seq<SpecSqlExpr>>,
    pub with_hints: Seq<SpecSqlExpr>,
    pub version: Option<SpecSqlExpr>,
    pub partitions: Seq<SpecIdent>,
    pub index_hints: Seq<SpecIdent>,
}

impl View for TableRelationBuilder {
    type V = SpecTableRelationBuilder;

    closed spec fn view(&self) -> SpecTableRelationBuilder {
        SpecTableRelationBuilder {
            name: opt_view(self.name),
            alias: opt_view(self.alias),
            args: match self.args {
                Some(a) => Some(view_expr_seq(a@)),
                None => None,
            },
            with_hints: view_expr_seq(self.with_hints@),
            version: opt_view(self.version),
            partitions: self.partitions.deep_view(),
            index_hints: self.index_hints.deep_view(),
        }
    }
}

/// What finalizing a base-table relation builder yields: the table factor,
/// or a missing-`name` failure.
pub open spec fn spec_build_table(b: SpecTableRelationBuilder) -> Result<
    SpecTableFactor,
    SpecBuilderError,
> {
    match b.name {
        None => Err(SpecBuilderError::UninitializedField("name"@)),
        Some(name) => Ok(
            SpecTableFactor::Table {
                name,
                alias: b.alias,
                args: b.args,
                with_hints: b.with_hints,
                version: b.version,
                partitions: b.partitions,
                index_hints: b.index_hints,
            },
        ),
    }
}

impl TableRelationBuilder {
    pub fn name(&mut self, value: ObjectName)
        ensures
            final(self)@ == (SpecTableRelationBuilder { name: Some(value@), ..old(self)@ }),
    {
        self.name = Some(value);
    }

    pub fn alias(&mut self, value: Option<TableAlias>)
        ensures
            final(self)@ == (SpecTableRelationBuilder { alias: opt_view(value), ..old(self)@ }),
    {
        self.alias = value;
    }

    pub fn args(&mut self, value: Option<Vec<SqlExpr>>)
        ensures
            final(self)@ == (SpecTableRelationBuilder {
                args: match value {
                    Some(a) => Some(view_expr_seq(a@)),
                    None => None,
                },
                ..old(self)@
            }),
    {
        self.args = value;
    }

    pub fn with_hints(&mut self, value: Vec<SqlExpr>)
        ensures
            final(self)@ == (SpecTableRelationBuilder {
                with_hints: view_expr_seq(value@),
                ..old(self)@
            }),
    {
        self.with_hints = value;
    }

    pub fn version(&mut self, value: Option<SqlExpr>)
        ensures
            final(self)@ == (SpecTableRelationBuilder { version: opt_view(value), ..old(self)@ }),
    {
        self.version = value;
    }

    pub fn partitions(&mut self, value: Vec<Ident>)
        ensures
            final(self)@ == (SpecTableRelationBuilder {
                partitions: value.deep_view(),
                ..old(self)@
            }),
    {
        self.partitions = value;
    }

    pub fn index_hints(&mut self, value: Vec<Ident>)
        ensures
            final(self)@ == (SpecTableRelationBuilder {
                index_hints: value.deep_view(),
                ..old(self)@
            }),
    {
        self.index_hints = value;
    }

    /// Finalize: requires `name`; every other field keeps its default when
    /// it was never set.
    pub fn build(self) -> (r: Result<TableFactor, BuilderError>)
        ensures
            match spec_build_table(self@) {
                Ok(t) => r matches Ok(tf) && tf@ == t,
                Err(e) => r matches Err(be) && be@ == e,
            },
    {
        let name = match self.name {
            Some(name) => name,
            None => {
                return Err(BuilderError::UninitializedField("name"));
            },
        };
        Ok(
            TableFactor::Table {
                name,
                alias: self.alias,
                args: self.args,
                with_hints: self.with_hints,
                version: self.version,
                partitions: self.partitions,
                index_hints: self.index_hints,
            },
        )
    }

    fn create_empty() -> (r: Self)
        ensures
            r@ == (SpecTableRelationBuilder {
                name: None,
                alias: None,
                args: None,
                with_hints: Seq::empty(),
                version: None,
                partitions: Seq::empty(),
                index_hints: Seq::empty(),
            }),
    {
        let r = TableRelationBuilder {
            name: None,
            alias: None,
            args: None,
            with_hints: Vec::new(),
            version: None,
            partitions: Vec::new(),
            index_hints: Vec::new(),
        };
        proof {
            assert(view_expr_seq(Seq::<SqlExpr>::empty()) =~= Seq::<SpecSqlExpr>::empty());
            assert(r@.partitions =~= Seq::<SpecIdent>::empty());
            assert(r@.index_hints =~= Seq::<SpecIdent>::empty());
        }
        r
    }
}

impl Default for TableRelationBuilder {
    fn default() -> (r: Self)
        ensures
            r@ == (SpecTableRelationBuilder {
                name: None,
                alias: None,
                args: None,
                with_hints: Seq::empty(),
                version: None,
                partitions: Seq::empty(),
                index_hints: Seq::empty(),
            }),
    {
        Self::create_empty()
    }
}

// ---------------------------------------------------------------------------
// Derived (subquery) relation builder.
// ---------------------------------------------------------------------------

/// Builder for a derived (subquery) relation.
pub struct DerivedRelationBuilder {
    lateral: Option<bool>,
    subquery: Option<Box<Query>>,
    alias: Option<TableAlias>,
}

/// Mathematical image of a [`DerivedRelationBuilder`].
pub struct SpecDerivedRelationBuilder {
    pub lateral: Option<bool>,
    pub subquery: Option<SpecQuery>,
    pub alias: Option<SpecTableAlias>,
}

impl View for DerivedRelationBuilder {
    type V = SpecDerivedRelationBuilder;

    closed spec fn view(&self) -> SpecDerivedRelationBuilder {
        SpecDerivedRelationBuilder {
            lateral: self.lateral,
            subquery: match self.subquery {
                Some(q) => Some(q@),
                None => None,
            },
            alias: opt_view(self.alias),
        }
    }
}

/// What finalizing a derived relation builder yields: the table factor, or
/// a missing-`lateral` / missing-`subquery` failure, in that order.
pub open spec fn spec_build_derived(b: SpecDerivedRelationBuilder) -> Result<
    SpecTableFactor,
    SpecBuilderError,
> {
    match b.lateral {
        None => Err(SpecBuilderError::UninitializedField("lateral"@)),
        Some(lateral) => match b.subquery {
            None => Err(SpecBuilderError::UninitializedField("subquery"@)),
            Some(subquery) => Ok(
                SpecTableFactor::Derived {
                    lateral,
                    subquery: Box::new(subquery),
                    alias: b.alias,
                },
            ),
        },
    }
}

impl DerivedRelationBuilder {
    pub fn lateral(&mut self, value: bool)
        ensures
            final(self)@ == (SpecDerivedRelationBuilder { lateral: Some(value), ..old(self)@ }),
    {
        self.lateral = Some(value);
    }

    pub fn subquery(&mut self, value: Box<Query>)
        ensures
            final(self)@ == (SpecDerivedRelationBuilder { subquery: Some(value@), ..old(self)@ }),
    {
        self.subquery = Some(value);
    }

    pub fn alias(&mut self, value: Option<TableAlias>)
        ensures
            final(self)@ == (SpecDerivedRelationBuilder { alias: opt_view(value), ..old(self)@ }),
    {
        self.alias = value;
    }

    /// Finalize: requires `lateral` and `subquery`.
    pub fn build(self) -> (r: Result<TableFactor, BuilderError>)
        ensures
            match spec_build_derived(self@) {
                Ok(t) => r matches Ok(tf) && tf@ == t,
                Err(e) => r matches Err(be) && be@ == e,
            },
    {
        let lateral = match self.lateral {
            Some(l) => l,
            None => {
                return Err(BuilderError::UninitializedField("lateral"));
            },
        };
        let subquery = match self.subquery {
            Some(q) => q,
            None => {
                return Err(BuilderError::UninitializedField("subquery"));
            },
        };
        Ok(TableFactor::Derived { lateral, subquery, alias: self.alias })
    }

    fn create_empty() -> (r: Self)
        ensures
            r@ == (SpecDerivedRelationBuilder { lateral: None, subquery: None, alias: None }),
    {
        DerivedRelationBuilder { lateral: None, subquery: None, alias: None }
    }
}

impl Default for DerivedRelationBuilder {
    fn default() -> (r: Self)
        ensures
            r@ == (SpecDerivedRelationBuilder { lateral: None, subquery: None, alias: None }),
    {
        Self::create_empty()
    }
}

// ---------------------------------------------------------------------------
// UNNEST relation builder.
// ---------------------------------------------------------------------------

/// Builder for an UNNEST relation.
pub struct UnnestRelationBuilder {
    pub alias: Option<TableAlias>,
    pub array_exprs: Vec<SqlExpr>,
    with_offset: bool,
    with_offset_alias: Option<Ident>,
    with_ordinality: bool,
}

/// Mathematical image of an [`UnnestRelationBuilder`].
pub struct SpecUnnestRelationBuilder {
    pub alias: Option<SpecTableAlias>,
    pub array_exprs: Seq<SpecSqlExpr>,
    pub with_offset: bool,
    pub with_offset_alias: Option<SpecIdent>,
    pub with_ordinality: bool,
}

impl View for UnnestRelationBuilder {
    type V = SpecUnnestRelationBuilder;

    closed spec fn view(&self) -> SpecUnnestRelationBuilder {
        SpecUnnestRelationBuilder {
            alias: opt_view(self.alias),
            array_exprs: view_expr_seq(self.array_exprs@),
            with_offset: self.with_offset,
            with_offset_alias: opt_view(self.with_offset_alias),
            with_ordinality: self.with_ordinality,
        }
    }
}

/// What finalizing an UNNEST relation builder yields; it has no required
/// fields.
pub open spec fn spec_build_unnest(b: SpecUnnestRelationBuilder) -> SpecTableFactor {
    SpecTableFactor::Unnest {
        alias: b.alias,
        array_exprs: b.array_exprs,
        with_offset: b.with_offset,
        with_offset_alias: b.with_offset_alias,
        with_ordinality: b.with_ordinality,
    }
}

impl UnnestRelationBuilder {
    pub fn alias(&mut self, value: Option<TableAlias>)
        ensures
            final(self)@ == (SpecUnnestRelationBuilder { alias: opt_view(value), ..old(self)@ }),
    {
        self.alias = value;
    }

    pub fn array_exprs(&mut self, value: Vec<SqlExpr>)
        ensures
            final(self)@ == (SpecUnnestRelationBuilder {
                array_exprs: view_expr_seq(value@),
                ..old(self)@
            }),
    {
        self.array_exprs = value;
    }

    pub fn with_offset(&mut self, value: bool)
        ensures
            final(self)@ == (SpecUnnestRelationBuilder { with_offset: value, ..old(self)@ }),
    {
        self.with_offset = value;
    }

    pub fn with_offset_alias(&mut self, value: Option<Ident>)
        ensures
            final(self)@ == (SpecUnnestRelationBuilder {
                with_offset_alias: opt_view(value),
                ..old(self)@
            }),
    {
        self.with_offset_alias = value;
    }

    pub fn with_ordinality(&mut self, value: bool)
        ensures
            final(self)@ == (SpecUnnestRelationBuilder { with_ordinality: value, ..old(self)@ }),
    {
        self.with_ordinality = value;
    }

    /// Finalize: no required fields; defaults stay as created.
    pub fn build(self) -> (r: Result<TableFactor, BuilderError>)
        ensures
            r matches Ok(tf) && tf@ == spec_build_unnest(self@),
    {
        Ok(
            TableFactor::Unnest {
                alias: self.alias,
                array_exprs: self.array_exprs,
                with_offset: self.with_offset,
                with_offset_alias: self.with_offset_alias,
                with_ordinality: self.with_ordinality,
            },
        )
    }

    fn create_empty() -> (r: Self)
        ensures
            r@ == (SpecUnnestRelationBuilder {
                alias: None,
                array_exprs: Seq::empty(),
                with_offset: false,
                with_offset_alias: None,
                with_ordinality: false,
            }),
    {
        let r = UnnestRelationBuilder {
            alias: None,
            array_exprs: Vec::new(),
            with_offset: false,
            with_offset_alias: None,
            with_ordinality: false,
        };
        proof {
            assert(view_expr_seq(Seq::<SqlExpr>::empty()) =~= Seq::<SpecSqlExpr>::empty());
        }
        r
    }
}

impl Default for UnnestRelationBuilder {
    fn default() -> (r: Self)
        ensures
            r@ == (SpecUnnestRelationBuilder {
                alias: None,
                array_exprs: Seq::empty(),
                with_offset: false,
                with_offset_alias: None,
                with_ordinality: false,
            }),
    {
        Self::create_empty()
    }
}

// ---------------------------------------------------------------------------
// Relation builder: the closed union of the four relation kinds.
// ---------------------------------------------------------------------------

/// The four relation kinds a FROM item can be built from.  `Empty` signals
/// that the enclosing FROM item is to be omitted entirely.
enum TableFactorBuilder {
    Table(TableRelationBuilder),
    Derived(DerivedRelationBuilder),
    Unnest(UnnestRelationBuilder),
    Empty,
}

/// Mathematical image of a [`TableFactorBuilder`].
pub enum SpecTableFactorBuilder {
    Table(SpecTableRelationBuilder),
    Derived(SpecDerivedRelationBuilder),
    Unnest(SpecUnnestRelationBuilder),
    Empty,
}

/// Builder for the relation of one FROM item.
pub struct RelationBuilder {
    relation: Option<TableFactorBuilder>,
}

/// Mathematical image of a [`RelationBuilder`].
pub struct SpecRelationBuilder {
    pub relation: Option<SpecTableFactorBuilder>,
}

impl View for RelationBuilder {
    type V = SpecRelationBuilder;

    closed spec fn view(&self) -> SpecRelationBuilder {
        SpecRelationBuilder {
            relation: match &self.relation {
                Some(TableFactorBuilder::Table(t)) => Some(SpecTableFactorBuilder::Table(t@)),
                Some(TableFactorBuilder::Derived(d)) => Some(SpecTableFactorBuilder::Derived(d@)),
                Some(TableFactorBuilder::Unnest(u)) => Some(SpecTableFactorBuilder::Unnest(u@)),
                Some(TableFactorBuilder::Empty) => Some(SpecTableFactorBuilder::Empty),
                None => None,
            },
        }
    }
}

/// What finalizing a relation builder yields: a missing-`relation` failure
/// when no kind was chosen, no output at all for the `Empty` kind, and
/// otherwise the chosen kind's own finalization.
pub open spec fn spec_build_relation(b: SpecRelationBuilder) -> Result<
    Option<SpecTableFactor>,
    SpecBuilderError,
> {
    match b.relation {
        None => Err(SpecBuilderError::UninitializedField("relation"@)),
        Some(SpecTableFactorBuilder::Table(t)) => match spec_build_table(t) {
            Err(e) => Err(e),
            Ok(tf) => Ok(Some(tf)),
        },
        Some(SpecTableFactorBuilder::Derived(d)) => match spec_build_derived(d) {
            Err(e) => Err(e),
            Ok(tf) => Ok(Some(tf)),
        },
        Some(SpecTableFactorBuilder::Unnest(u)) => Ok(Some(spec_build_unnest(u))),
        Some(SpecTableFactorBuilder::Empty) => Ok(None),
    }
}

/// The image of a relation builder after `alias` dispatches to whichever
/// kind is active; on `Empty` or before a kind is chosen it is a no-op.
pub open spec fn spec_relation_alias(
    b: SpecRelationBuilder,
    alias: Option<SpecTableAlias>,
) -> SpecRelationBuilder {
    match b.relation {
        Some(SpecTableFactorBuilder::Table(t)) => SpecRelationBuilder {
            relation: Some(SpecTableFactorBuilder::Table(SpecTableRelationBuilder { alias, ..t })),
        },
        Some(SpecTableFactorBuilder::Derived(d)) => SpecRelationBuilder {
            relation: Some(
                SpecTableFactorBuilder::Derived(SpecDerivedRelationBuilder { alias, ..d }),
            ),
        },
        Some(SpecTableFactorBuilder::Unnest(u)) => SpecRelationBuilder {
            relation: Some(
                SpecTableFactorBuilder::Unnest(SpecUnnestRelationBuilder { alias, ..u }),
            ),
        },
        _ => b,
    }
}

impl RelationBuilder {
    pub fn has_relation(&self) -> (r: bool)
        ensures
            r == (self@.relation is Some),
    {
        self.relation.is_some()
    }

    pub fn table(&mut self, value: TableRelationBuilder)
        ensures
            final(self)@ == (SpecRelationBuilder {
                relation: Some(SpecTableFactorBuilder::Table(value@)),
            }),
    {
        self.relation = Some(TableFactorBuilder::Table(value));
    }

    pub fn derived(&mut self, value: DerivedRelationBuilder)
        ensures
            final(self)@ == (SpecRelationBuilder {
                relation: Some(SpecTableFactorBuilder::Derived(value@)),
            }),
    {
        self.relation = Some(TableFactorBuilder::Derived(value));
    }

    pub fn unnest(&mut self, value: UnnestRelationBuilder)
        ensures
            final(self)@ == (SpecRelationBuilder {
                relation: Some(SpecTableFactorBuilder::Unnest(value@)),
            }),
    {
        self.relation = Some(TableFactorBuilder::Unnest(value));
    }

    pub fn empty(&mut self)
        ensures
            final(self)@ == (SpecRelationBuilder {
                relation: Some(SpecTableFactorBuilder::Empty),
            }),
    {
        self.relation = Some(TableFactorBuilder::Empty);
    }

    /// Set the alias of whichever relation kind is active; tolerated and
    /// silently ignored when none is set or the active kind is `Empty`.
    pub fn alias(&mut self, value: Option<TableAlias>)
        ensures
            final(self)@ == spec_relation_alias(old(self)@, opt_view(value)),
    {
        match &mut self.relation {
            Some(TableFactorBuilder::Table(rel_builder)) => {
                rel_builder.alias(value);
            },
            Some(TableFactorBuilder::Derived(rel_builder)) => {
                rel_builder.alias(value);
            },
            Some(TableFactorBuilder::Unnest(rel_builder)) => {
                rel_builder.alias(value);
            },
            Some(TableFactorBuilder::Empty) => {},
            None => {},
        }
    }

    /// Finalize: fails when no relation kind was chosen, and returns no
    /// output node at all when the active kind is `Empty`.
    pub fn build(self) -> (r: Result<Option<TableFactor>, BuilderError>)
        ensures
            match spec_build_relation(self@) {
                Ok(Some(t)) => r matches Ok(Some(tf)) && tf@ == t,
                Ok(None) => r matches Ok(o) && o is None,
                Err(e) => r matches Err(be) && be@ == e,
            },
    {
        match self.relation {
            Some(TableFactorBuilder::Table(value)) => match value.build() {
                Ok(tf) => Ok(Some(tf)),
                Err(e) => Err(e),
            },
            Some(TableFactorBuilder::Derived(value)) => match value.build() {
                Ok(tf) => Ok(Some(tf)),
                Err(e) => Err(e),
            },
            Some(TableFactorBuilder::Unnest(value)) => match value.build() {
                Ok(tf) => Ok(Some(tf)),
                Err(e) => Err(e),
            },
            Some(TableFactorBuilder::Empty) => Ok(None),
            None => Err(BuilderError::UninitializedField("relation")),
        }
    }

    fn create_empty() -> (r: Self)
        ensures
            r@ == (SpecRelationBuilder { relation: None }),
    {
        RelationBuilder { relation: None }
    }
}

impl Default for RelationBuilder {
    fn default() -> (r: Self)
        ensures
            r@ == (SpecRelationBuilder { relation: None }),
    {
        Self::create_empty()
    }
}

// ---------------------------------------------------------------------------
// Table-with-joins builder.
// ---------------------------------------------------------------------------

/// Builder for one FROM item: a relation builder plus its join clauses.
pub struct TableWithJoinsBuilder {
    relation: Option<RelationBuilder>,
    joins: Vec<Join>,
}

/// Mathematical image of a [`TableWithJoinsBuilder`].
pub struct SpecTableWithJoinsBuilder {
    pub relation: Option<SpecRelationBuilder>,
    pub joins: Seq<SpecJoin>,
}

impl View for TableWithJoinsBuilder {
    type V = SpecTableWithJoinsBuilder;

    closed spec fn view(&self) -> SpecTableWithJoinsBuilder {
        SpecTableWithJoinsBuilder {
            relation: match &self.relation {
                Some(rb) => Some(rb@),
                None => None,
            },
            joins: view_join_seq(self.joins@),
        }
    }
}

impl DeepView for TableWithJoinsBuilder {
    type V = SpecTableWithJoinsBuilder;

    open spec fn deep_view(&self) -> SpecTableWithJoinsBuilder {
        self.view()
    }
}

/// What finalizing a FROM-item builder yields: a missing-`relation` failure
/// when no relation builder was set, no output when the relation kind is
/// `Empty`, and the finished FROM item otherwise.
pub open spec fn spec_build_twj(b: SpecTableWithJoinsBuilder) -> Result<
    Option<SpecTableWithJoins>,
    SpecBuilderError,
> {
    match b.relation {
        None => Err(SpecBuilderError::UninitializedField("relation"@)),
        Some(rb) => match spec_build_relation(rb) {
            Err(e) => Err(e),
            Ok(None) => Ok(None),
            Ok(Some(rel)) => Ok(Some(SpecTableWithJoins { relation: rel, joins: b.joins })),
        },
    }
}

impl TableWithJoinsBuilder {
    pub fn relation(&mut self, value: RelationBuilder)
        ensures
            final(self)@ == (SpecTableWithJoinsBuilder {
                relation: Some(value@),
                ..old(self)@
            }),
    {
        self.relation = Some(value);
    }

    pub fn joins(&mut self, value: Vec<Join>)
        ensures
            final(self)@ == (SpecTableWithJoinsBuilder {
                joins: view_join_seq(value@),
                ..old(self)@
            }),
    {
        self.joins = value;
    }

    pub fn push_join(&mut self, value: Join)
        ensures
            final(self)@ == (SpecTableWithJoinsBuilder {
                joins: old(self)@.joins.push(value@),
                ..old(self)@
            }),
    {
        proof {
            crate::ast::lemma_view_join_seq(self.joins@);
        }
        self.joins.push(value);
        proof {
            crate::ast::lemma_view_join_seq(self.joins@);
            assert(view_join_seq(self.joins@) =~= view_join_seq(old(self).joins@).push(value@));
        }
    }

    /// Finalize: fails when no relation was set; yields no output node at
    /// all when the relation kind is `Empty`, signaling the enclosing
    /// construct to omit this FROM item entirely.
    pub fn build(self) -> (r: Result<Option<TableWithJoins>, BuilderError>)
        ensures
            match spec_build_twj(self@) {
                Ok(Some(t)) => r matches Ok(Some(twj)) && twj@ == t,
                Ok(None) => r matches Ok(o) && o is None,
                Err(e) => r matches Err(be) && be@ == e,
            },
    {
        match self.relation {
            Some(value) => match value.build() {
                Err(e) => Err(e),
                Ok(Some(relation)) => Ok(
                    Some(TableWithJoins { relation, joins: self.joins }),
                ),
                Ok(None) => Ok(None),
            },
            None => Err(BuilderError::UninitializedField("relation")),
        }
    }

    fn create_empty() -> (r: Self)
        ensures
            r@ == (SpecTableWithJoinsBuilder { relation: None, joins: Seq::empty() }),
    {
        let r = TableWithJoinsBuilder { relation: None, joins: Vec::new() };
        proof {
            assert(view_join_seq(Seq::<Join>::empty()) =~= Seq::<SpecJoin>::empty());
        }
        r
    }
}

impl Default for TableWithJoinsBuilder {
    fn default() -> (r: Self)
        ensures
            r@ == (SpecTableWithJoinsBuilder { relation: None, joins: Seq::empty() }),
    {
        Self::create_empty()
    }
}

} // verus!

verus! {

// ---------------------------------------------------------------------------
// SELECT clause builder.
// ---------------------------------------------------------------------------

/// Builder for a SELECT clause.  `group_by` and `flavor` carry defaults
/// from creation; every other field is optional.
pub struct SelectBuilder {
    distinct: Option<Distinct>,
    top: Option<Top>,
    projection: Vec<SelectItem>,
    into: Option<SelectInto>,
    from: Vec<TableWithJoinsBuilder>,
    lateral_views: Vec<LateralView>,
    selection: Option<SqlExpr>,
    group_by: Option<GroupByExpr>,
    cluster_by: Vec<SqlExpr>,
    distribute_by: Vec<SqlExpr>,
    sort_by: Vec<SqlExpr>,
    having: Option<SqlExpr>,
    named_window: Vec<NamedWindow>,
    qualify: Option<SqlExpr>,
    value_table_mode: Option<ValueTableMode>,
    flavor: Option<SelectFlavor>,
}

/// Mathematical image of a [`SelectBuilder`].
pub struct SpecSelectBuilder {
    pub distinct: Option<SpecDistinct>,
    pub top: Option<SpecTop>,
    pub projection: Seq<SpecSelectItem>,
    pub into: Option<SpecSelectInto>,
    pub from: Seq<SpecTableWithJoinsBuilder>,
    pub lateral_views: Seq<SpecLateralView>,
    pub selection: Option<SpecSqlExpr>,
    pub group_by: Option<SpecGroupByExpr>,
    pub cluster_by: Seq<SpecSqlExpr>,
    pub distribute_by: Seq<SpecSqlExpr>,
    pub sort_by: Seq<SpecSqlExpr>,
    pub having: Option<SpecSqlExpr>,
    pub named_window: Seq<SpecNamedWindow>,
    pub qualify: Option<SpecSqlExpr>,
    pub value_table_mode: Option<ValueTableMode>,
    pub flavor: Option<SelectFlavor>,
}

impl View for SelectBuilder {
    type V = SpecSelectBuilder;

    closed spec fn view(&self) -> SpecSelectBuilder {
        SpecSelectBuilder {
            distinct: opt_view(self.distinct),
            top: opt_view(self.top),
            projection: self.projection.deep_view(),
            into: opt_view(self.into),
            from: self.from.deep_view(),
            lateral_views: self.lateral_views.deep_view(),
            selection: opt_view(self.selection),
            group_by: opt_view(self.group_by),
            cluster_by: view_expr_seq(self.cluster_by@),
            distribute_by: view_expr_seq(self.distribute_by@),
            sort_by: view_expr_seq(self.sort_by@),
            having: opt_view(self.having),
            named_window: self.named_window.deep_view(),
            qualify: opt_view(self.qualify),
            value_table_mode: self.value_table_mode,
            flavor: self.flavor,
        }
    }
}

/// What finalizing the FROM-item builders yields: the finished FROM items
/// in order, those with an `Empty` relation omitted, stopping at the first
/// failure.
pub open spec fn spec_build_from(s: Seq<SpecTableWithJoinsBuilder>) -> Result<
    Seq<SpecTableWithJoins>,
    SpecBuilderError,
>
    decreases s.len(),
{
    if s.len() == 0 {
        Ok(Seq::empty())
    } else {
        match spec_build_twj(s[0]) {
            Err(e) => Err(e),
            Ok(None) => spec_build_from(s.subrange(1, s.len() as int)),
            Ok(Some(t)) => match spec_build_from(s.subrange(1, s.len() as int)) {
                Err(e) => Err(e),
                Ok(ts) => Ok(seq![t] + ts),
            },
        }
    }
}

/// What finalizing a SELECT builder yields: its FROM items built first,
/// then the `group_by` and `flavor` defaults checked, in that order.
pub open spec fn spec_build_select(b: SpecSelectBuilder) -> Result<SpecSelect, SpecBuilderError> {
    match spec_build_from(b.from) {
        Err(e) => Err(e),
        Ok(from_items) => match b.group_by {
            None => Err(SpecBuilderError::UninitializedField("group_by"@)),
            Some(group_by) => match b.flavor {
                None => Err(SpecBuilderError::UninitializedField("flavor"@)),
                Some(flavor) => Ok(
                    SpecSelect {
                        distinct: b.distinct,
                        top: b.top,
                        projection: b.projection,
                        into: b.into,
                        from: from_items,
                        lateral_views: b.lateral_views,
                        selection: b.selection,
                        group_by,
                        cluster_by: b.cluster_by,
                        distribute_by: b.distribute_by,
                        sort_by: b.sort_by,
                        having: b.having,
                        named_window: b.named_window,
                        qualify: b.qualify,
                        value_table_mode: b.value_table_mode,
                        flavor,
                    },
                ),
            },
        },
    }
}

/// Combining selection predicates: two are joined by AND, a `None` is a
/// no-op and never clears an existing predicate.
pub open spec fn spec_combine_selection(
    existing: Option<SpecSqlExpr>,
    value: Option<SpecSqlExpr>,
) -> Option<SpecSqlExpr> {
    match (existing, value) {
        (Some(e), Some(n)) => Some(
            SpecSqlExpr::BinaryOp {
                op: crate::ast::BinOp::And,
                left: Box::new(e),
                right: Box::new(n),
            },
        ),
        (None, Some(n)) => Some(n),
        (e, None) => e,
    }
}

impl SelectBuilder {
    pub fn distinct(&mut self, value: Option<Distinct>)
        ensures
            final(self)@ == (SpecSelectBuilder { distinct: opt_view(value), ..old(self)@ }),
    {
        self.distinct = value;
    }

    pub fn top(&mut self, value: Option<Top>)
        ensures
            final(self)@ == (SpecSelectBuilder { top: opt_view(value), ..old(self)@ }),
    {
        self.top = value;
    }

    pub fn projection(&mut self, value: Vec<SelectItem>)
        ensures
            final(self)@ == (SpecSelectBuilder { projection: value.deep_view(), ..old(self)@ }),
    {
        self.projection = value;
    }

    /// Hand the projection list out for an incremental rebuild, leaving it
    /// empty here.
    pub fn pop_projections(&mut self) -> (r: Vec<SelectItem>)
        ensures
            r.deep_view() == old(self)@.projection,
            final(self)@ == (SpecSelectBuilder { projection: Seq::empty(), ..old(self)@ }),
    {
        let r = self.projection.split_off(0);
        proof {
            assert(r.deep_view() =~= old(self).projection.deep_view());
            assert(self.projection.deep_view() =~= Seq::<SpecSelectItem>::empty());
        }
        r
    }

    pub fn already_projected(&self) -> (r: bool)
        ensures
            r == (self@.projection.len() > 0),
    {
        self.projection.len() > 0
    }

    pub fn into(&mut self, value: Option<SelectInto>)
        ensures
            final(self)@ == (SpecSelectBuilder { into: opt_view(value), ..old(self)@ }),
    {
        self.into = value;
    }

    pub fn from(&mut self, value: Vec<TableWithJoinsBuilder>)
        ensures
            final(self)@ == (SpecSelectBuilder { from: value.deep_view(), ..old(self)@ }),
    {
        self.from = value;
    }

    pub fn push_from(&mut self, value: TableWithJoinsBuilder)
        ensures
            final(self)@ == (SpecSelectBuilder {
                from: old(self)@.from.push(value@),
                ..old(self)@
            }),
    {
        self.from.push(value);
        proof {
            assert(self.from.deep_view() =~= old(self).from.deep_view().push(value@));
        }
    }

    pub fn pop_from(&mut self) -> (r: Option<TableWithJoinsBuilder>)
        ensures
            old(self)@.from.len() == 0 ==> (r is None && final(self)@ == old(self)@),
            old(self)@.from.len() > 0 ==> (r matches Some(b) && b@ == old(self)@.from.last()
                && final(self)@ == (SpecSelectBuilder {
                from: old(self)@.from.drop_last(),
                ..old(self)@
            })),
    {
        let r = self.from.pop();
        proof {
            if old(self).from.deep_view().len() > 0 {
                assert(self.from.deep_view() =~= old(self).from.deep_view().drop_last());
            } else {
                assert(self.from.deep_view() =~= old(self).from.deep_view());
            }
        }
        r
    }

    pub fn lateral_views(&mut self, value: Vec<LateralView>)
        ensures
            final(self)@ == (SpecSelectBuilder {
                lateral_views: value.deep_view(),
                ..old(self)@
            }),
    {
        self.lateral_views = value;
    }

    /// Substitute `value` for every occurrence of `existing_expr` in the
    /// current selection tree.  Equality is structural (by value).  This
    /// resolves the synthetic boolean placeholder of a mark join into the
    /// real join condition once it is known.
    pub fn replace_mark(&mut self, existing_expr: &SqlExpr, value: &SqlExpr)
        ensures
            final(self)@ == (SpecSelectBuilder {
                selection: match old(self)@.selection {
                    Some(s) => Some(subst_expr(s, existing_expr@, value@)),
                    None => None,
                },
                ..old(self)@
            }),
    {
        match &self.selection {
            Some(selection) => {
                let replaced = substitute_expr(selection, existing_expr, value);
                self.selection = Some(replaced);
            },
            None => {},
        }
    }

    /// Combine the selection with a further predicate: an existing and a
    /// new predicate are joined by AND, so that filters already recorded
    /// are never overwritten; a `None` is a no-op.
    pub fn selection(&mut self, value: Option<SqlExpr>)
        ensures
            final(self)@ == (SpecSelectBuilder {
                selection: spec_combine_selection(old(self)@.selection, opt_view(value)),
                ..old(self)@
            }),
    {
        let existing = self.selection.take();
        match (existing, value) {
            (Some(existing_selection), Some(new_selection)) => {
                self.selection = Some(
                    SqlExpr::BinaryOp {
                        op: crate::ast::BinOp::And,
                        left: Box::new(existing_selection),
                        right: Box::new(new_selection),
                    },
                );
            },
            (None, Some(new_selection)) => {
                self.selection = Some(new_selection);
            },
            (e, None) => {
                self.selection = e;
            },
        }
    }

    pub fn group_by(&mut self, value: GroupByExpr)
        ensures
            final(self)@ == (SpecSelectBuilder { group_by: Some(value@), ..old(self)@ }),
    {
        self.group_by = Some(value);
    }

    /// Clear the group-by default; a later finalize then fails.
    pub fn clear_group_by(&mut self)
        ensures
            final(self)@ == (SpecSelectBuilder { group_by: None, ..old(self)@ }),
    {
        self.group_by = None;
    }

    pub fn cluster_by(&mut self, value: Vec<SqlExpr>)
        ensures
            final(self)@ == (SpecSelectBuilder {
                cluster_by: view_expr_seq(value@),
                ..old(self)@
            }),
    {
        self.cluster_by = value;
    }

    pub fn distribute_by(&mut self, value: Vec<SqlExpr>)
        ensures
            final(self)@ == (SpecSelectBuilder {
                distribute_by: view_expr_seq(value@),
                ..old(self)@
            }),
    {
        self.distribute_by = value;
    }

    pub fn sort_by(&mut self, value: Vec<SqlExpr>)
        ensures
            final(self)@ == (SpecSelectBuilder { sort_by: view_expr_seq(value@), ..old(self)@ }),
    {
        self.sort_by = value;
    }

    pub fn having(&mut self, value: Option<SqlExpr>)
        ensures
            final(self)@ == (SpecSelectBuilder { having: opt_view(value), ..old(self)@ }),
    {
        self.having = value;
    }

    pub fn named_window(&mut self, value: Vec<NamedWindow>)
        ensures
            final(self)@ == (SpecSelectBuilder {
                named_window: value.deep_view(),
                ..old(self)@
            }),
    {
        self.named_window = value;
    }

    pub fn qualify(&mut self, value: Option<SqlExpr>)
        ensures
            final(self)@ == (SpecSelectBuilder { qualify: opt_view(value), ..old(self)@ }),
    {
        self.qualify = value;
    }

    pub fn value_table_mode(&mut self, value: Option<ValueTableMode>)
        ensures
            final(self)@ == (SpecSelectBuilder { value_table_mode: value, ..old(self)@ }),
    {
        self.value_table_mode = value;
    }

    /// Clear the flavor default; a later finalize then fails.
    pub fn clear_flavor(&mut self)
        ensures
            final(self)@ == (SpecSelectBuilder { flavor: None, ..old(self)@ }),
    {
        self.flavor = None;
    }

    /// Finalize: builds the FROM items, omitting those whose relation kind
    /// is `Empty`, then checks that the `group_by` and `flavor` defaults
    /// are still present.
    #[verifier::loop_isolation(false)]
    pub fn build(self) -> (r: Result<Select, BuilderError>)
        ensures
            match spec_build_select(self@) {
                Ok(s) => r matches Ok(sel) && sel@ == s,
                Err(e) => r matches Err(be) && be@ == e,
            },
    {
        let ghost full = self.from.deep_view();
        let mut from_items: Vec<TableWithJoins> = Vec::new();
        let mut rest = self.from;
        let ghost n = full.len();
        proof {
            assert(full.subrange(0, n as int) =~= full);
            assert(from_items.deep_view() =~= Seq::<SpecTableWithJoins>::empty());
            if spec_build_from(full) is Ok {
                let t = spec_build_from(full)->Ok_0;
                assert(from_items.deep_view() + t =~= t);
            }
        }
        while rest.len() > 0
            invariant
                rest.deep_view().len() <= n,
                rest.deep_view() =~= full.subrange(
                    n - rest.deep_view().len(),
                    n as int,
                ),
                spec_build_from(full) == (match spec_build_from(
                    full.subrange(n - rest.deep_view().len(), n as int),
                ) {
                    Err(e) => Err::<Seq<SpecTableWithJoins>, SpecBuilderError>(e),
                    Ok(t) => Ok(from_items.deep_view() + t),
                }),
            decreases rest.len(),
        {
            let ghost i = n - rest.deep_view().len();
            let ghost suffix = full.subrange(i, n as int);
            let b = rest.remove(0);
            proof {
                assert(b.deep_view() == suffix[0]);
                assert(suffix.subrange(1, suffix.len() as int) =~= full.subrange(i + 1, n as int));
                assert(rest.deep_view() =~= full.subrange(i + 1, n as int)) by {
                    assert forall|k: int| 0 <= k < rest.deep_view().len() implies rest.deep_view()[k]
                        == full.subrange(i + 1, n as int)[k] by {
                        assert(rest@[k] == rest@[k]);
                    }
                }
            }
            match b.build() {
                Err(e) => {
                    return Err(e);
                },
                Ok(None) => {},
                Ok(Some(t)) => {
                    let ghost prev = from_items.deep_view();
                    from_items.push(t);
                    proof {
                        assert(from_items.deep_view() =~= prev.push(t@));
                        if spec_build_from(full.subrange(i + 1, n as int)) is Ok {
                            let ts = spec_build_from(full.subrange(i + 1, n as int))->Ok_0;
                            assert(from_items.deep_view() + ts =~= prev + (seq![t@] + ts));
                        }
                    }
                },
            }
        }
        proof {
            assert(full.subrange(n as int, n as int) =~= Seq::<SpecTableWithJoinsBuilder>::empty());
            assert(from_items.deep_view() + Seq::<SpecTableWithJoins>::empty()
                =~= from_items.deep_view());
        }
        let group_by = match self.group_by {
            Some(value) => value,
            None => {
                return Err(BuilderError::UninitializedField("group_by"));
            },
        };
        let flavor = match self.flavor {
            Some(value) => value,
            None => {
                return Err(BuilderError::UninitializedField("flavor"));
            },
        };
        proof {
            crate::ast::lemma_view_twj_seq(from_items@);
            assert(crate::ast::view_twj_seq(from_items@) =~= from_items.deep_view()) by {
                assert forall|k: int| 0 <= k < from_items@.len() implies crate::ast::view_twj_seq(
                    from_items@,
                )[k] == from_items.deep_view()[k] by {
                    assert(crate::ast::view_twj_seq(from_items@)[k] == crate::ast::view_twj(
                        from_items@[k],
                    ));
                }
            }
        }
        Ok(
            Select {
                distinct: self.distinct,
                top: self.top,
                projection: self.projection,
                into: self.into,
                from: from_items,
                lateral_views: self.lateral_views,
                selection: self.selection,
                group_by,
                cluster_by: self.cluster_by,
                distribute_by: self.distribute_by,
                sort_by: self.sort_by,
                having: self.having,
                named_window: self.named_window,
                qualify: self.qualify,
                value_table_mode: self.value_table_mode,
                flavor,
            },
        )
    }

    fn create_empty() -> (r: Self)
        ensures
            r@ == (SpecSelectBuilder {
                distinct: None,
                top: None,
                projection: Seq::empty(),
                into: None,
                from: Seq::empty(),
                lateral_views: Seq::empty(),
                selection: None,
                group_by: Some(SpecGroupByExpr::Expressions(Seq::empty())),
                cluster_by: Seq::empty(),
                distribute_by: Seq::empty(),
                sort_by: Seq::empty(),
                having: None,
                named_window: Seq::empty(),
                qualify: None,
                value_table_mode: None,
                flavor: Some(SelectFlavor::Standard),
            }),
    {
        let r = SelectBuilder {
            distinct: None,
            top: None,
            projection: Vec::new(),
            into: None,
            from: Vec::new(),
            lateral_views: Vec::new(),
            selection: None,
            group_by: Some(GroupByExpr::Expressions(Vec::new())),
            cluster_by: Vec::new(),
            distribute_by: Vec::new(),
            sort_by: Vec::new(),
            having: None,
            named_window: Vec::new(),
            qualify: None,
            value_table_mode: None,
            flavor: Some(SelectFlavor::Standard),
        };
        proof {
            assert(r@.projection =~= Seq::<SpecSelectItem>::empty());
            assert(r@.from =~= Seq::<SpecTableWithJoinsBuilder>::empty());
            assert(r@.lateral_views =~= Seq::<SpecLateralView>::empty());
            assert(view_expr_seq(Seq::<SqlExpr>::empty()) =~= Seq::<SpecSqlExpr>::empty());
            assert(r@.named_window =~= Seq::<SpecNamedWindow>::empty());
            assert(r@.group_by == Some(SpecGroupByExpr::Expressions(view_expr_seq(
                Seq::<SqlExpr>::empty(),
            ))));
        }
        r
    }
}

impl Default for SelectBuilder {
    fn default() -> (r: Self)
        ensures
            r@ == (SpecSelectBuilder {
                distinct: None,
                top: None,
                projection: Seq::empty(),
                into: None,
                from: Seq::empty(),
                lateral_views: Seq::empty(),
                selection: None,
                group_by: Some(SpecGroupByExpr::Expressions(Seq::empty())),
                cluster_by: Seq::empty(),
                distribute_by: Seq::empty(),
                sort_by: Seq::empty(),
                having: None,
                named_window: Seq::empty(),
                qualify: None,
                value_table_mode: None,
                flavor: Some(SelectFlavor::Standard),
            }),
    {
        Self::create_empty()
    }
}

// ---------------------------------------------------------------------------
// Top-level query builder.
// ---------------------------------------------------------------------------

/// Builder for a top-level query node.
pub struct QueryBuilder {
    with: Option<With>,
    body: Option<Box<SetExpr>>,
    order_by_kind: Option<OrderByKind>,
    limit: Option<SqlExpr>,
    limit_by: Vec<SqlExpr>,
    offset: Option<Offset>,
    fetch: Option<Fetch>,
    locks: Vec<LockClause>,
    for_clause: Option<ForClause>,
    // When set, a union in the body must render as a deduplicating UNION
    // rather than UNION ALL.
    distinct_union: bool,
}

/// Mathematical image of a [`QueryBuilder`].
pub struct SpecQueryBuilder {
    pub with: Option<SpecWith>,
    pub body: Option<SpecSetExpr>,
    pub order_by_kind: Option<SpecOrderByKind>,
    pub limit: Option<SpecSqlExpr>,
    pub limit_by: Seq<SpecSqlExpr>,
    pub offset: Option<SpecOffset>,
    pub fetch: Option<SpecFetch>,
    pub locks: Seq<LockClause>,
    pub for_clause: Option<ForClause>,
    pub distinct_union: bool,
}

impl View for QueryBuilder {
    type V = SpecQueryBuilder;

    closed spec fn view(&self) -> SpecQueryBuilder {
        SpecQueryBuilder {
            with: opt_view(self.with),
            body: match self.body {
                Some(b) => Some(b@),
                None => None,
            },
            order_by_kind: opt_view(self.order_by_kind),
            limit: opt_view(self.limit),
            limit_by: view_expr_seq(self.limit_by@),
            offset: opt_view(self.offset),
            fetch: opt_view(self.fetch),
            locks: self.locks@,
            for_clause: self.for_clause,
            distinct_union: self.distinct_union,
        }
    }
}

/// What finalizing a query builder yields: the query node, with the limit
/// fields collapsed into one keyword-form limit clause, or a missing-`body`
/// failure.
pub open spec fn spec_build_query(b: SpecQueryBuilder) -> Result<SpecQuery, SpecBuilderError> {
    match b.body {
        None => Err(SpecBuilderError::UninitializedField("body"@)),
        Some(body) => Ok(
            SpecQuery {
                with: b.with,
                body: Box::new(body),
                order_by: match b.order_by_kind {
                    Some(kind) => Some(SpecOrderBy { kind, interpolate: false }),
                    None => None,
                },
                limit_clause: Some(
                    SpecLimitClause::LimitOffset {
                        limit: b.limit,
                        offset: b.offset,
                        limit_by: b.limit_by,
                    },
                ),
                fetch: b.fetch,
                locks: b.locks,
                for_clause: b.for_clause,
            },
        ),
    }
}

impl QueryBuilder {
    pub fn with(&mut self, value: Option<With>)
        ensures
            final(self)@ == (SpecQueryBuilder { with: opt_view(value), ..old(self)@ }),
    {
        self.with = value;
    }

    pub fn body(&mut self, value: Box<SetExpr>)
        ensures
            final(self)@ == (SpecQueryBuilder { body: Some(value@), ..old(self)@ }),
    {
        self.body = Some(value);
    }

    /// Take the body out, leaving the builder without one.
    pub fn take_body(&mut self) -> (r: Option<Box<SetExpr>>)
        ensures
            final(self)@ == (SpecQueryBuilder { body: None, ..old(self)@ }),
            match r {
                Some(b) => old(self)@.body == Some(b@),
                None => old(self)@.body is None,
            },
    {
        self.body.take()
    }

    pub fn order_by(&mut self, value: OrderByKind)
        ensures
            final(self)@ == (SpecQueryBuilder { order_by_kind: Some(value@), ..old(self)@ }),
    {
        self.order_by_kind = Some(value);
    }

    pub fn limit(&mut self, value: Option<SqlExpr>)
        ensures
            final(self)@ == (SpecQueryBuilder { limit: opt_view(value), ..old(self)@ }),
    {
        self.limit = value;
    }

    pub fn limit_by(&mut self, value: Vec<SqlExpr>)
        ensures
            final(self)@ == (SpecQueryBuilder { limit_by: view_expr_seq(value@), ..old(self)@ }),
    {
        self.limit_by = value;
    }

    pub fn offset(&mut self, value: Option<Offset>)
        ensures
            final(self)@ == (SpecQueryBuilder { offset: opt_view(value), ..old(self)@ }),
    {
        self.offset = value;
    }

    pub fn fetch(&mut self, value: Option<Fetch>)
        ensures
            final(self)@ == (SpecQueryBuilder { fetch: opt_view(value), ..old(self)@ }),
    {
        self.fetch = value;
    }

    pub fn locks(&mut self, value: Vec<LockClause>)
        ensures
            final(self)@ == (SpecQueryBuilder { locks: value@, ..old(self)@ }),
    {
        self.locks = value;
    }

    pub fn for_clause(&mut self, value: Option<ForClause>)
        ensures
            final(self)@ == (SpecQueryBuilder { for_clause: value, ..old(self)@ }),
    {
        self.for_clause = value;
    }

    /// Mark that a union in the body renders as a deduplicating UNION.
    pub fn distinct_union(&mut self)
        ensures
            final(self)@ == (SpecQueryBuilder { distinct_union: true, ..old(self)@ }),
    {
        self.distinct_union = true;
    }

    pub fn is_distinct_union(&self) -> (r: bool)
        ensures
            r == self@.distinct_union,
    {
        self.distinct_union
    }

    /// Finalize: requires `body`; the limit, offset and limit-by fields are
    /// collapsed into one keyword-form limit clause.
    pub fn build(self) -> (r: Result<Query, BuilderError>)
        ensures
            match spec_build_query(self@) {
                Ok(q) => r matches Ok(query) && query@ == q,
                Err(e) => r matches Err(be) && be@ == e,
            },
    {
        let body = match self.body {
            Some(value) => value,
            None => {
                return Err(BuilderError::UninitializedField("body"));
            },
        };
        let order_by = match self.order_by_kind {
            Some(kind) => Some(OrderBy { kind, interpolate: false }),
            None => None,
        };
        Ok(
            Query {
                with: self.with,
                body,
                order_by,
                limit_clause: Some(
                    LimitClause::LimitOffset {
                        limit: self.limit,
                        offset: self.offset,
                        limit_by: self.limit_by,
                    },
                ),
                fetch: self.fetch,
                locks: self.locks,
                for_clause: self.for_clause,
            },
        )
    }

    fn create_empty() -> (r: Self)
        ensures
            r@ == (SpecQueryBuilder {
                with: None,
                body: None,
                order_by_kind: None,
                limit: None,
                limit_by: Seq::empty(),
                offset: None,
                fetch: None,
                locks: Seq::empty(),
                for_clause: None,
                distinct_union: false,
            }),
    {
        let r = QueryBuilder {
            with: None,
            body: None,
            order_by_kind: None,
            limit: None,
            limit_by: Vec::new(),
            offset: None,
            fetch: None,
            locks: Vec::new(),
            for_clause: None,
            distinct_union: false,
        };
        proof {
            assert(view_expr_seq(Seq::<SqlExpr>::empty()) =~= Seq::<SpecSqlExpr>::empty());
            assert(r@.locks =~= Seq::<LockClause>::empty());
        }
        r
    }
}

impl Default for QueryBuilder {
    fn default() -> (r: Self)
        ensures
            r@ == (SpecQueryBuilder {
                with: None,
                body: None,
                order_by_kind: None,
                limit: None,
                limit_by: Seq::empty(),
                offset: None,
                fetch: None,
                locks: Seq::empty(),
                for_clause: None,
                distinct_union: false,
            }),
    {
        Self::create_empty()
    }
}

} // verus!
