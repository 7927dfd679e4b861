//! Model of the query syntax tree.
//!
//! These types mirror the shape of a parsed SQL query: a query node with an
//! optional WITH clause, a body made of SELECTs and set operations, optional
//! ORDER BY and LIMIT clauses, and the FROM-item relation kinds.  Each
//! executable type has a mathematical twin (`Spec...`) over `Seq`, `int` and
//! `Seq<char>`, reached through `view`; all contracts in this crate speak of
//! those twins.

use vstd::prelude::*;

verus! {

// ---------------------------------------------------------------------------
// Small closed enums, shared between executable and specification code.
// ---------------------------------------------------------------------------

/// Binary operator inside a scalar expression.
#[derive(Clone, Copy, Debug, PartialEq, Eq, Structural)]
pub enum BinOp {
    And,
    Or,
    Eq,
    NotEq,
    Lt,
    Gt,
    Plus,
    Minus,
    Multiply,
}

/// Join flavor of one join clause.
#[derive(Clone, Copy, Debug, PartialEq, Eq, Structural)]
pub enum JoinKind {
    Inner,
    Left,
    Right,
    Full,
    Cross,
}

/// Operator of a set expression.
#[derive(Clone, Copy, Debug, PartialEq, Eq, Structural)]
pub enum SetOperator {
    Union,
    Intersect,
    Except,
}

/// Quantifier attached to a set operator.
#[derive(Clone, Copy, Debug, PartialEq, Eq, Structural)]
pub enum SetQuantifier {
    All,
    Distinct,
    Plain,
}

/// Surface dialect flavor of a SELECT clause.
#[derive(Clone, Copy, Debug, PartialEq, Eq, Structural)]
pub enum SelectFlavor {
    Standard,
    FromFirst,
    FromFirstNoSelect,
}

/// Value-table rendering mode of a SELECT clause.
#[derive(Clone, Copy, Debug, PartialEq, Eq, Structural)]
pub enum ValueTableMode {
    AsStruct,
    AsValue,
}

/// One row-locking clause of a query.
#[derive(Clone, Copy, Debug, PartialEq, Eq, Structural)]
pub enum LockClause {
    Share,
    Update,
}

/// A FOR clause at the end of a query.
#[derive(Clone, Copy, Debug, PartialEq, Eq, Structural)]
pub enum ForClause {
    Browse,
    Json,
    Xml,
}

/// Direction and null ordering shared by the entries of an ORDER BY clause.
#[derive(Clone, Copy, Debug, PartialEq, Eq, Structural)]
pub struct OrderByOptions {
    pub asc: Option<bool>,
    pub nulls_first: Option<bool>,
}

// ---------------------------------------------------------------------------
// Identifiers and scalar expressions.
// ---------------------------------------------------------------------------

/// An identifier, possibly quoted.
#[derive(Debug, PartialEq, Eq)]
pub struct Ident {
    pub value: String,
    pub quoted: bool,
}

/// Mathematical image of an [`Ident`].
pub struct SpecIdent {
    pub value: Seq<char>,
    pub quoted: bool,
}

impl View for Ident {
    type V = SpecIdent;

    open spec fn view(&self) -> SpecIdent {
        SpecIdent { value: self.value@, quoted: self.quoted }
    }
}

impl DeepView for Ident {
    type V = SpecIdent;

    open spec fn deep_view(&self) -> SpecIdent {
        self.view()
    }
}

/// A possibly qualified object name: a non-empty list of identifier parts.
#[derive(Debug, PartialEq, Eq)]
pub struct ObjectName {
    pub parts: Vec<Ident>,
}

/// Mathematical image of an [`ObjectName`].
pub struct SpecObjectName {
    pub parts: Seq<SpecIdent>,
}

impl View for ObjectName {
    type V = SpecObjectName;

    open spec fn view(&self) -> SpecObjectName {
        SpecObjectName { parts: self.parts.deep_view() }
    }
}

impl DeepView for ObjectName {
    type V = SpecObjectName;

    open spec fn deep_view(&self) -> SpecObjectName {
        self.view()
    }
}

/// A scalar SQL expression, as the surface syntax writes it.
#[derive(Debug, PartialEq, Eq)]
pub enum SqlExpr {
    /// A plain (column) identifier.
    Identifier(Ident),
    /// An integer literal.
    Number(i64),
    /// A binary operation.
    BinaryOp { op: BinOp, left: Box<SqlExpr>, right: Box<SqlExpr> },
    /// A function call.
    Function { name: Ident, args: Vec<SqlExpr> },
}

/// Mathematical image of a [`SqlExpr`].
pub enum SpecSqlExpr {
    Identifier(SpecIdent),
    Number(int),
    BinaryOp { op: BinOp, left: Box<SpecSqlExpr>, right: Box<SpecSqlExpr> },
    Function { name: SpecIdent, args: Seq<SpecSqlExpr> },
}

pub open spec fn view_expr(e: SqlExpr) -> SpecSqlExpr
    decreases e,
{
    match e {
        SqlExpr::Identifier(i) => SpecSqlExpr::Identifier(i@),
        SqlExpr::Number(n) => SpecSqlExpr::Number(n as int),
        SqlExpr::BinaryOp { op, left, right } => SpecSqlExpr::BinaryOp {
            op,
            left: Box::new(view_expr(*left)),
            right: Box::new(view_expr(*right)),
        },
        SqlExpr::Function { name, args } => SpecSqlExpr::Function {
            name: name@,
            args: view_expr_seq(args@),
        },
    }
}

pub open spec fn view_expr_seq(s: Seq<SqlExpr>) -> Seq<SpecSqlExpr>
    decreases s,
{
    if s.len() == 0 {
        Seq::empty()
    } else {
        seq![view_expr(s[0])] + view_expr_seq(s.subrange(1, s.len() as int))
    }
}

/// The image of a sequence of expressions is the sequence of images.
pub proof fn lemma_view_expr_seq(s: Seq<SqlExpr>)
    ensures
        view_expr_seq(s).len() == s.len(),
        forall|i: int|
            #![trigger view_expr_seq(s)[i]]
            #![trigger s[i]]
            0 <= i < s.len() ==> view_expr_seq(s)[i] == view_expr(s[i]),
    decreases s,
{
    if s.len() > 0 {
        lemma_view_expr_seq(s.subrange(1, s.len() as int));
        assert forall|i: int| 0 <= i < s.len() implies view_expr_seq(s)[i] == view_expr(s[i]) by {
            if i > 0 {
                assert(s.subrange(1, s.len() as int)[i - 1] == s[i]);
                assert(view_expr_seq(s.subrange(1, s.len() as int))[i - 1] == view_expr(s[i]));
            }
        }
    }
}

impl View for SqlExpr {
    type V = SpecSqlExpr;

    open spec fn view(&self) -> SpecSqlExpr {
        view_expr(*self)
    }
}

impl DeepView for SqlExpr {
    type V = SpecSqlExpr;

    open spec fn deep_view(&self) -> SpecSqlExpr {
        view_expr(*self)
    }
}

// ---------------------------------------------------------------------------
// Clauses built from scalar expressions.
// ---------------------------------------------------------------------------

/// One entry of an ORDER BY clause.
#[derive(Debug, PartialEq, Eq)]
pub struct OrderByExpr {
    pub expr: SqlExpr,
    pub options: OrderByOptions,
}

/// Mathematical image of an [`OrderByExpr`].
pub struct SpecOrderByExpr {
    pub expr: SpecSqlExpr,
    pub options: OrderByOptions,
}

impl View for OrderByExpr {
    type V = SpecOrderByExpr;

    open spec fn view(&self) -> SpecOrderByExpr {
        SpecOrderByExpr { expr: self.expr@, options: self.options }
    }
}

impl DeepView for OrderByExpr {
    type V = SpecOrderByExpr;

    open spec fn deep_view(&self) -> SpecOrderByExpr {
        self.view()
    }
}

/// The two shapes of an ORDER BY clause: `ORDER BY ALL` with shared options,
/// or an explicit expression list.
#[derive(Debug, PartialEq, Eq)]
pub enum OrderByKind {
    All(OrderByOptions),
    Expressions(Vec<OrderByExpr>),
}

/// Mathematical image of an [`OrderByKind`].
pub enum SpecOrderByKind {
    All(OrderByOptions),
    Expressions(Seq<SpecOrderByExpr>),
}

impl View for OrderByKind {
    type V = SpecOrderByKind;

    open spec fn view(&self) -> SpecOrderByKind {
        match self {
            OrderByKind::All(o) => SpecOrderByKind::All(*o),
            OrderByKind::Expressions(v) => SpecOrderByKind::Expressions(v.deep_view()),
        }
    }
}

/// An ORDER BY clause: its kind, and whether an INTERPOLATE modifier was
/// attached (a construct this bridge always rejects).
#[derive(Debug, PartialEq, Eq)]
pub struct OrderBy {
    pub kind: OrderByKind,
    pub interpolate: bool,
}

/// Mathematical image of an [`OrderBy`].
pub struct SpecOrderBy {
    pub kind: SpecOrderByKind,
    pub interpolate: bool,
}

impl View for OrderBy {
    type V = SpecOrderBy;

    open spec fn view(&self) -> SpecOrderBy {
        SpecOrderBy { kind: self.kind@, interpolate: self.interpolate }
    }
}

/// An OFFSET clause.
#[derive(Debug, PartialEq, Eq)]
pub struct Offset {
    pub value: SqlExpr,
}

/// Mathematical image of an [`Offset`].
pub struct SpecOffset {
    pub value: SpecSqlExpr,
}

impl View for Offset {
    type V = SpecOffset;

    open spec fn view(&self) -> SpecOffset {
        SpecOffset { value: self.value@ }
    }
}

/// The two surface shapes of a LIMIT clause: the keyword form
/// `LIMIT n OFFSET m [BY exprs]`, and the comma form `OFFSET m, LIMIT n`.
#[derive(Debug, PartialEq, Eq)]
pub enum LimitClause {
    LimitOffset { limit: Option<SqlExpr>, offset: Option<Offset>, limit_by: Vec<SqlExpr> },
    OffsetCommaLimit { offset: SqlExpr, limit: SqlExpr },
}

/// Mathematical image of a [`LimitClause`].
pub enum SpecLimitClause {
    LimitOffset { limit: Option<SpecSqlExpr>, offset: Option<SpecOffset>, limit_by: Seq<SpecSqlExpr> },
    OffsetCommaLimit { offset: SpecSqlExpr, limit: SpecSqlExpr },
}

impl View for LimitClause {
    type V = SpecLimitClause;

    open spec fn view(&self) -> SpecLimitClause {
        match self {
            LimitClause::LimitOffset { limit, offset, limit_by } => SpecLimitClause::LimitOffset {
                limit: match limit {
                    Some(l) => Some(l@),
                    None => None,
                },
                offset: match offset {
                    Some(o) => Some(o@),
                    None => None,
                },
                limit_by: view_expr_seq(limit_by@),
            },
            LimitClause::OffsetCommaLimit { offset, limit } => SpecLimitClause::OffsetCommaLimit {
                offset: offset@,
                limit: limit@,
            },
        }
    }
}

/// A FETCH clause.
#[derive(Debug, PartialEq, Eq)]
pub struct Fetch {
    pub quantity: Option<SqlExpr>,
    pub with_ties: bool,
    pub percent: bool,
}

/// Mathematical image of a [`Fetch`].
pub struct SpecFetch {
    pub quantity: Option<SpecSqlExpr>,
    pub with_ties: bool,
    pub percent: bool,
}

impl View for Fetch {
    type V = SpecFetch;

    open spec fn view(&self) -> SpecFetch {
        SpecFetch {
            quantity: match &self.quantity {
                Some(q) => Some(q@),
                None => None,
            },
            with_ties: self.with_ties,
            percent: self.percent,
        }
    }
}

/// A SELECT INTO target.
#[derive(Debug, PartialEq, Eq)]
pub struct SelectInto {
    pub name: ObjectName,
}

/// Mathematical image of a [`SelectInto`].
pub struct SpecSelectInto {
    pub name: SpecObjectName,
}

impl View for SelectInto {
    type V = SpecSelectInto;

    open spec fn view(&self) -> SpecSelectInto {
        SpecSelectInto { name: self.name@ }
    }
}

/// A table alias with optional column aliases.
#[derive(Debug, PartialEq, Eq)]
pub struct TableAlias {
    pub name: Ident,
    pub columns: Vec<Ident>,
}

/// Mathematical image of a [`TableAlias`].
pub struct SpecTableAlias {
    pub name: SpecIdent,
    pub columns: Seq<SpecIdent>,
}

impl View for TableAlias {
    type V = SpecTableAlias;

    open spec fn view(&self) -> SpecTableAlias {
        SpecTableAlias { name: self.name@, columns: self.columns.deep_view() }
    }
}

/// A TOP modifier of a SELECT clause.
#[derive(Debug, PartialEq, Eq)]
pub struct Top {
    pub quantity: Option<SqlExpr>,
    pub percent: bool,
    pub with_ties: bool,
}

/// Mathematical image of a [`Top`].
pub struct SpecTop {
    pub quantity: Option<SpecSqlExpr>,
    pub percent: bool,
    pub with_ties: bool,
}

impl View for Top {
    type V = SpecTop;

    open spec fn view(&self) -> SpecTop {
        SpecTop {
            quantity: match &self.quantity {
                Some(q) => Some(q@),
                None => None,
            },
            percent: self.percent,
            with_ties: self.with_ties,
        }
    }
}

/// The DISTINCT modifier of a SELECT clause: plain `DISTINCT`, or
/// `DISTINCT ON (exprs)`.
#[derive(Debug, PartialEq, Eq)]
pub enum Distinct {
    Plain,
    On(Vec<SqlExpr>),
}

/// Mathematical image of a [`Distinct`].
pub enum SpecDistinct {
    Plain,
    On(Seq<SpecSqlExpr>),
}

impl View for Distinct {
    type V = SpecDistinct;

    open spec fn view(&self) -> SpecDistinct {
        match self {
            Distinct::Plain => SpecDistinct::Plain,
            Distinct::On(v) => SpecDistinct::On(view_expr_seq(v@)),
        }
    }
}

/// One output of a SELECT projection list.
#[derive(Debug, PartialEq, Eq)]
pub enum SelectItem {
    Unnamed(SqlExpr),
    WithAlias { expr: SqlExpr, alias: Ident },
    Wildcard,
}

/// Mathematical image of a [`SelectItem`].
pub enum SpecSelectItem {
    Unnamed(SpecSqlExpr),
    WithAlias { expr: SpecSqlExpr, alias: SpecIdent },
    Wildcard,
}

impl View for SelectItem {
    type V = SpecSelectItem;

    open spec fn view(&self) -> SpecSelectItem {
        match self {
            SelectItem::Unnamed(e) => SpecSelectItem::Unnamed(e@),
            SelectItem::WithAlias { expr, alias } => SpecSelectItem::WithAlias {
                expr: expr@,
                alias: alias@,
            },
            SelectItem::Wildcard => SpecSelectItem::Wildcard,
        }
    }
}

impl DeepView for SelectItem {
    type V = SpecSelectItem;

    open spec fn deep_view(&self) -> SpecSelectItem {
        self.view()
    }
}

/// A LATERAL VIEW clause.
#[derive(Debug, PartialEq, Eq)]
pub struct LateralView {
    pub expr: SqlExpr,
    pub name: ObjectName,
}

/// Mathematical image of a [`LateralView`].
pub struct SpecLateralView {
    pub expr: SpecSqlExpr,
    pub name: SpecObjectName,
}

impl View for LateralView {
    type V = SpecLateralView;

    open spec fn view(&self) -> SpecLateralView {
        SpecLateralView { expr: self.expr@, name: self.name@ }
    }
}

impl DeepView for LateralView {
    type V = SpecLateralView;

    open spec fn deep_view(&self) -> SpecLateralView {
        self.view()
    }
}

/// The GROUP BY clause of a SELECT: `GROUP BY ALL`, or an expression list.
#[derive(Debug, PartialEq, Eq)]
pub enum GroupByExpr {
    All,
    Expressions(Vec<SqlExpr>),
}

/// Mathematical image of a [`GroupByExpr`].
pub enum SpecGroupByExpr {
    All,
    Expressions(Seq<SpecSqlExpr>),
}

impl View for GroupByExpr {
    type V = SpecGroupByExpr;

    open spec fn view(&self) -> SpecGroupByExpr {
        match self {
            GroupByExpr::All => SpecGroupByExpr::All,
            GroupByExpr::Expressions(v) => SpecGroupByExpr::Expressions(view_expr_seq(v@)),
        }
    }
}

/// A named window definition of a SELECT clause.
#[derive(Debug, PartialEq, Eq)]
pub struct NamedWindow {
    pub name: Ident,
}

/// Mathematical image of a [`NamedWindow`].
pub struct SpecNamedWindow {
    pub name: SpecIdent,
}

impl View for NamedWindow {
    type V = SpecNamedWindow;

    open spec fn view(&self) -> SpecNamedWindow {
        SpecNamedWindow { name: self.name@ }
    }
}

impl DeepView for NamedWindow {
    type V = SpecNamedWindow;

    open spec fn deep_view(&self) -> SpecNamedWindow {
        self.view()
    }
}

// ---------------------------------------------------------------------------
// The mutually recursive query shape: query, body, SELECT, FROM items.
// ---------------------------------------------------------------------------

/// A full query node.
#[derive(Debug, PartialEq, Eq)]
pub struct Query {
    pub with: Option<With>,
    pub body: Box<SetExpr>,
    pub order_by: Option<OrderBy>,
    pub limit_clause: Option<LimitClause>,
    pub fetch: Option<Fetch>,
    pub locks: Vec<LockClause>,
    pub for_clause: Option<ForClause>,
}

/// A WITH clause: an ordered list of named CTEs.
#[derive(Debug, PartialEq, Eq)]
pub struct With {
    pub recursive: bool,
    pub cte_tables: Vec<Cte>,
}

/// One named CTE of a WITH clause.
#[derive(Debug, PartialEq, Eq)]
pub struct Cte {
    pub alias: Ident,
    pub query: Box<Query>,
}

/// A query body: a SELECT, a VALUES list, or a set operation over two bodies.
#[derive(Debug, PartialEq, Eq)]
pub enum SetExpr {
    Select(Box<Select>),
    Values(Vec<Vec<SqlExpr>>),
    SetOperation {
        op: SetOperator,
        quantifier: SetQuantifier,
        left: Box<SetExpr>,
        right: Box<SetExpr>,
    },
}

/// A SELECT clause with all its sub-clauses.
#[derive(Debug, PartialEq, Eq)]
pub struct Select {
    pub distinct: Option<Distinct>,
    pub top: Option<Top>,
    pub projection: Vec<SelectItem>,
    pub into: Option<SelectInto>,
    pub from: Vec<TableWithJoins>,
    pub lateral_views: Vec<LateralView>,
    pub selection: Option<SqlExpr>,
    pub group_by: GroupByExpr,
    pub cluster_by: Vec<SqlExpr>,
    pub distribute_by: Vec<SqlExpr>,
    pub sort_by: Vec<SqlExpr>,
    pub having: Option<SqlExpr>,
    pub named_window: Vec<NamedWindow>,
    pub qualify: Option<SqlExpr>,
    pub value_table_mode: Option<ValueTableMode>,
    pub flavor: SelectFlavor,
}

/// One FROM item: a relation with its list of join clauses.
#[derive(Debug, PartialEq, Eq)]
pub struct TableWithJoins {
    pub relation: TableFactor,
    pub joins: Vec<Join>,
}

/// One join clause inside a FROM item.
#[derive(Debug, PartialEq, Eq)]
pub struct Join {
    pub relation: TableFactor,
    pub kind: JoinKind,
    pub constraint: Option<SqlExpr>,
}

/// The closed set of relation kinds a FROM item can hold.
#[derive(Debug, PartialEq, Eq)]
pub enum TableFactor {
    Table {
        name: ObjectName,
        alias: Option<TableAlias>,
        args: Option<Vec<SqlExpr>>,
        with_hints: Vec<SqlExpr>,
        version: Option<SqlExpr>,
        partitions: Vec<Ident>,
        index_hints: Vec<Ident>,
    },
    Derived {
        lateral: bool,
        subquery: Box<Query>,
        alias: Option<TableAlias>,
    },
    Unnest {
        alias: Option<TableAlias>,
        array_exprs: Vec<SqlExpr>,
        with_offset: bool,
        with_offset_alias: Option<Ident>,
        with_ordinality: bool,
    },
}

/// Mathematical image of a [`Query`].
pub struct SpecQuery {
    pub with: Option<SpecWith>,
    pub body: Box<SpecSetExpr>,
    pub order_by: Option<SpecOrderBy>,
    pub limit_clause: Option<SpecLimitClause>,
    pub fetch: Option<SpecFetch>,
    pub locks: Seq<LockClause>,
    pub for_clause: Option<ForClause>,
}

/// Mathematical image of a [`With`].
pub struct SpecWith {
    pub recursive: bool,
    pub cte_tables: Seq<SpecCte>,
}

/// Mathematical image of a [`Cte`].
pub struct SpecCte {
    pub alias: SpecIdent,
    pub query: Box<SpecQuery>,
}

/// Mathematical image of a [`SetExpr`].
pub enum SpecSetExpr {
    Select(Box<SpecSelect>),
    Values(Seq<Seq<SpecSqlExpr>>),
    SetOperation {
        op: SetOperator,
        quantifier: SetQuantifier,
        left: Box<SpecSetExpr>,
        right: Box<SpecSetExpr>,
    },
}

/// Mathematical image of a [`Select`].
pub struct SpecSelect {
    pub distinct: Option<SpecDistinct>,
    pub top: Option<SpecTop>,
    pub projection: Seq<SpecSelectItem>,
    pub into: Option<SpecSelectInto>,
    pub from: Seq<SpecTableWithJoins>,
    pub lateral_views: Seq<SpecLateralView>,
    pub selection: Option<SpecSqlExpr>,
    pub group_by: SpecGroupByExpr,
    pub cluster_by: Seq<SpecSqlExpr>,
    pub distribute_by: Seq<SpecSqlExpr>,
    pub sort_by: Seq<SpecSqlExpr>,
    pub having: Option<SpecSqlExpr>,
    pub named_window: Seq<SpecNamedWindow>,
    pub qualify: Option<SpecSqlExpr>,
    pub value_table_mode: Option<ValueTableMode>,
    pub flavor: SelectFlavor,
}

/// Mathematical image of a [`TableWithJoins`].
pub struct SpecTableWithJoins {
    pub relation: SpecTableFactor,
    pub joins: Seq<SpecJoin>,
}

/// Mathematical image of a [`Join`].
pub struct SpecJoin {
    pub relation: SpecTableFactor,
    pub kind: JoinKind,
    pub constraint: Option<SpecSqlExpr>,
}

/// Mathematical image of a [`TableFactor`].
pub enum SpecTableFactor {
    Table {
        name: SpecObjectName,
        alias: Option<SpecTableAlias>,
        args: Option<Seq<SpecSqlExpr>>,
        with_hints: Seq<SpecSqlExpr>,
        version: Option<SpecSqlExpr>,
        partitions: Seq<SpecIdent>,
        index_hints: Seq<SpecIdent>,
    },
    Derived {
        lateral: bool,
        subquery: Box<SpecQuery>,
        alias: Option<SpecTableAlias>,
    },
    Unnest {
        alias: Option<SpecTableAlias>,
        array_exprs: Seq<SpecSqlExpr>,
        with_offset: bool,
        with_offset_alias: Option<SpecIdent>,
        with_ordinality: bool,
    },
}

pub open spec fn view_query(q: Query) -> SpecQuery
    decreases q,
{
    SpecQuery {
        with: match q.with {
            Some(w) => Some(view_with(w)),
            None => None,
        },
        body: Box::new(view_set_expr(*q.body)),
        order_by: match q.order_by {
            Some(o) => Some(o@),
            None => None,
        },
        limit_clause: match q.limit_clause {
            Some(l) => Some(l@),
            None => None,
        },
        fetch: match q.fetch {
            Some(f) => Some(f@),
            None => None,
        },
        locks: q.locks@,
        for_clause: q.for_clause,
    }
}

pub open spec fn view_with(w: With) -> SpecWith
    decreases w,
{
    SpecWith { recursive: w.recursive, cte_tables: view_cte_seq(w.cte_tables@) }
}

pub open spec fn view_cte_seq(s: Seq<Cte>) -> Seq<SpecCte>
    decreases s,
{
    if s.len() == 0 {
        Seq::empty()
    } else {
        seq![view_cte(s[0])] + view_cte_seq(s.subrange(1, s.len() as int))
    }
}

pub open spec fn view_cte(c: Cte) -> SpecCte
    decreases c,
{
    SpecCte { alias: c.alias@, query: Box::new(view_query(*c.query)) }
}

pub open spec fn view_set_expr(s: SetExpr) -> SpecSetExpr
    decreases s,
{
    match s {
        SetExpr::Select(sel) => SpecSetExpr::Select(Box::new(view_select(*sel))),
        SetExpr::Values(rows) => SpecSetExpr::Values(
            Seq::new(rows@.len(), |i: int| view_expr_seq(rows@[i]@)),
        ),
        SetExpr::SetOperation { op, quantifier, left, right } => SpecSetExpr::SetOperation {
            op,
            quantifier,
            left: Box::new(view_set_expr(*left)),
            right: Box::new(view_set_expr(*right)),
        },
    }
}

pub open spec fn view_select(s: Select) -> SpecSelect
    decreases s,
{
    SpecSelect {
        distinct: match s.distinct {
            Some(d) => Some(d@),
            None => None,
        },
        top: match s.top {
            Some(t) => Some(t@),
            None => None,
        },
        projection: s.projection.deep_view(),
        into: match s.into {
            Some(i) => Some(i@),
            None => None,
        },
        from: view_twj_seq(s.from@),
        lateral_views: s.lateral_views.deep_view(),
        selection: match s.selection {
            Some(e) => Some(e@),
            None => None,
        },
        group_by: s.group_by@,
        cluster_by: view_expr_seq(s.cluster_by@),
        distribute_by: view_expr_seq(s.distribute_by@),
        sort_by: view_expr_seq(s.sort_by@),
        having: match s.having {
            Some(e) => Some(e@),
            None => None,
        },
        named_window: s.named_window.deep_view(),
        qualify: match s.qualify {
            Some(e) => Some(e@),
            None => None,
        },
        value_table_mode: s.value_table_mode,
        flavor: s.flavor,
    }
}

pub open spec fn view_twj_seq(s: Seq<TableWithJoins>) -> Seq<SpecTableWithJoins>
    decreases s,
{
    if s.len() == 0 {
        Seq::empty()
    } else {
        seq![view_twj(s[0])] + view_twj_seq(s.subrange(1, s.len() as int))
    }
}

pub open spec fn view_twj(t: TableWithJoins) -> SpecTableWithJoins
    decreases t,
{
    SpecTableWithJoins { relation: view_table_factor(t.relation), joins: view_join_seq(t.joins@) }
}

pub open spec fn view_join_seq(s: Seq<Join>) -> Seq<SpecJoin>
    decreases s,
{
    if s.len() == 0 {
        Seq::empty()
    } else {
        seq![view_join(s[0])] + view_join_seq(s.subrange(1, s.len() as int))
    }
}

pub open spec fn view_join(j: Join) -> SpecJoin
    decreases j,
{
    SpecJoin {
        relation: view_table_factor(j.relation),
        kind: j.kind,
        constraint: match j.constraint {
            Some(e) => Some(e@),
            None => None,
        },
    }
}

pub open spec fn view_table_factor(t: TableFactor) -> SpecTableFactor
    decreases t,
{
    match t {
        TableFactor::Table { name, alias, args, with_hints, version, partitions, index_hints } => {
            SpecTableFactor::Table {
                name: name@,
                alias: match alias {
                    Some(a) => Some(a@),
                    None => None,
                },
                args: match args {
                    Some(a) => Some(view_expr_seq(a@)),
                    None => None,
                },
                with_hints: view_expr_seq(with_hints@),
                version: match version {
                    Some(v) => Some(v@),
                    None => None,
                },
                partitions: partitions.deep_view(),
                index_hints: index_hints.deep_view(),
            }
        },
        TableFactor::Derived { lateral, subquery, alias } => SpecTableFactor::Derived {
            lateral,
            subquery: Box::new(view_query(*subquery)),
            alias: match alias {
                Some(a) => Some(a@),
                None => None,
            },
        },
        TableFactor::Unnest { alias, array_exprs, with_offset, with_offset_alias, with_ordinality } => {
            SpecTableFactor::Unnest {
                alias: match alias {
                    Some(a) => Some(a@),
                    None => None,
                },
                array_exprs: view_expr_seq(array_exprs@),
                with_offset,
                with_offset_alias: match with_offset_alias {
                    Some(i) => Some(i@),
                    None => None,
                },
                with_ordinality,
            }
        },
    }
}

/// The image of a sequence of FROM items is the sequence of images.
pub proof fn lemma_view_twj_seq(s: Seq<TableWithJoins>)
    ensures
        view_twj_seq(s).len() == s.len(),
        forall|i: int|
            #![trigger view_twj_seq(s)[i]]
            #![trigger s[i]]
            0 <= i < s.len() ==> view_twj_seq(s)[i] == view_twj(s[i]),
    decreases s,
{
    if s.len() > 0 {
        lemma_view_twj_seq(s.subrange(1, s.len() as int));
        assert forall|i: int| 0 <= i < s.len() implies view_twj_seq(s)[i] == view_twj(s[i]) by {
            if i > 0 {
                assert(s.subrange(1, s.len() as int)[i - 1] == s[i]);
                assert(view_twj_seq(s.subrange(1, s.len() as int))[i - 1] == view_twj(s[i]));
            }
        }
    }
}

/// The image of a sequence of CTEs is the sequence of images.
pub proof fn lemma_view_cte_seq(s: Seq<Cte>)
    ensures
        view_cte_seq(s).len() == s.len(),
        forall|i: int|
            #![trigger view_cte_seq(s)[i]]
            #![trigger s[i]]
            0 <= i < s.len() ==> view_cte_seq(s)[i] == view_cte(s[i]),
    decreases s,
{
    if s.len() > 0 {
        lemma_view_cte_seq(s.subrange(1, s.len() as int));
        assert forall|i: int| 0 <= i < s.len() implies view_cte_seq(s)[i] == view_cte(s[i]) by {
            if i > 0 {
                assert(s.subrange(1, s.len() as int)[i - 1] == s[i]);
                assert(view_cte_seq(s.subrange(1, s.len() as int))[i - 1] == view_cte(s[i]));
            }
        }
    }
}

/// The image of a sequence of joins is the sequence of images.
pub proof fn lemma_view_join_seq(s: Seq<Join>)
    ensures
        view_join_seq(s).len() == s.len(),
        forall|i: int|
            #![trigger view_join_seq(s)[i]]
            #![trigger s[i]]
            0 <= i < s.len() ==> view_join_seq(s)[i] == view_join(s[i]),
    decreases s,
{
    if s.len() > 0 {
        lemma_view_join_seq(s.subrange(1, s.len() as int));
        assert forall|i: int| 0 <= i < s.len() implies view_join_seq(s)[i] == view_join(s[i]) by {
            if i > 0 {
                assert(s.subrange(1, s.len() as int)[i - 1] == s[i]);
                assert(view_join_seq(s.subrange(1, s.len() as int))[i - 1] == view_join(s[i]));
            }
        }
    }
}

impl View for Query {
    type V = SpecQuery;

    open spec fn view(&self) -> SpecQuery {
        view_query(*self)
    }
}

impl View for With {
    type V = SpecWith;

    open spec fn view(&self) -> SpecWith {
        view_with(*self)
    }
}

impl View for Cte {
    type V = SpecCte;

    open spec fn view(&self) -> SpecCte {
        view_cte(*self)
    }
}

impl DeepView for Cte {
    type V = SpecCte;

    open spec fn deep_view(&self) -> SpecCte {
        view_cte(*self)
    }
}

impl View for SetExpr {
    type V = SpecSetExpr;

    open spec fn view(&self) -> SpecSetExpr {
        view_set_expr(*self)
    }
}

impl View for Select {
    type V = SpecSelect;

    open spec fn view(&self) -> SpecSelect {
        view_select(*self)
    }
}

impl View for TableWithJoins {
    type V = SpecTableWithJoins;

    open spec fn view(&self) -> SpecTableWithJoins {
        view_twj(*self)
    }
}

impl DeepView for TableWithJoins {
    type V = SpecTableWithJoins;

    open spec fn deep_view(&self) -> SpecTableWithJoins {
        view_twj(*self)
    }
}

impl View for Join {
    type V = SpecJoin;

    open spec fn view(&self) -> SpecJoin {
        view_join(*self)
    }
}

impl DeepView for Join {
    type V = SpecJoin;

    open spec fn deep_view(&self) -> SpecJoin {
        view_join(*self)
    }
}

impl View for TableFactor {
    type V = SpecTableFactor;

    open spec fn view(&self) -> SpecTableFactor {
        view_table_factor(*self)
    }
}

} // verus!

verus! {

// ---------------------------------------------------------------------------
// Structural equality, copying and substitution on scalar expressions.
//
// The reverse builders substitute a placeholder expression by the real join
// condition inside a selection tree; equality there is structural (by value),
// so it is decided here against the mathematical images.
// ---------------------------------------------------------------------------

/// Substitute `repl` for every subtree of `e` that equals `target`,
/// top-down: a replaced subtree is not searched again.
pub open spec fn subst_expr(e: SpecSqlExpr, target: SpecSqlExpr, repl: SpecSqlExpr) -> SpecSqlExpr
    decreases e,
{
    if e == target {
        repl
    } else {
        match e {
            SpecSqlExpr::BinaryOp { op, left, right } => SpecSqlExpr::BinaryOp {
                op,
                left: Box::new(subst_expr(*left, target, repl)),
                right: Box::new(subst_expr(*right, target, repl)),
            },
            SpecSqlExpr::Function { name, args } => SpecSqlExpr::Function {
                name,
                args: subst_expr_seq(args, target, repl),
            },
            _ => e,
        }
    }
}

pub open spec fn subst_expr_seq(
    s: Seq<SpecSqlExpr>,
    target: SpecSqlExpr,
    repl: SpecSqlExpr,
) -> Seq<SpecSqlExpr>
    decreases s,
{
    if s.len() == 0 {
        Seq::empty()
    } else {
        seq![subst_expr(s[0], target, repl)] + subst_expr_seq(
            s.subrange(1, s.len() as int),
            target,
            repl,
        )
    }
}

/// Whether `target` occurs as a subtree of `e` (including `e` itself).
pub open spec fn occurs_in(target: SpecSqlExpr, e: SpecSqlExpr) -> bool
    decreases e,
{
    e == target || match e {
        SpecSqlExpr::BinaryOp { left, right, .. } => occurs_in(target, *left) || occurs_in(
            target,
            *right,
        ),
        SpecSqlExpr::Function { args, .. } => occurs_in_seq(target, args),
        _ => false,
    }
}

pub open spec fn occurs_in_seq(target: SpecSqlExpr, s: Seq<SpecSqlExpr>) -> bool
    decreases s,
{
    s.len() > 0 && (occurs_in(target, s[0]) || occurs_in_seq(target, s.subrange(1, s.len() as int)))
}

/// Substitution of a sequence acts pointwise.
pub proof fn lemma_subst_expr_seq(s: Seq<SpecSqlExpr>, target: SpecSqlExpr, repl: SpecSqlExpr)
    ensures
        subst_expr_seq(s, target, repl).len() == s.len(),
        forall|i: int|
            #![trigger subst_expr_seq(s, target, repl)[i]]
            #![trigger s[i]]
            0 <= i < s.len() ==> subst_expr_seq(s, target, repl)[i] == subst_expr(
                s[i],
                target,
                repl,
            ),
    decreases s,
{
    if s.len() > 0 {
        lemma_subst_expr_seq(s.subrange(1, s.len() as int), target, repl);
        assert forall|i: int| 0 <= i < s.len() implies subst_expr_seq(s, target, repl)[i]
            == subst_expr(s[i], target, repl) by {
            if i > 0 {
                assert(s.subrange(1, s.len() as int)[i - 1] == s[i]);
                assert(subst_expr_seq(s.subrange(1, s.len() as int), target, repl)[i - 1]
                    == subst_expr(s[i], target, repl));
            }
        }
    }
}

/// Substituting inside a tree that does not contain the target leaves the
/// tree unchanged.
pub proof fn lemma_subst_absent(e: SpecSqlExpr, target: SpecSqlExpr, repl: SpecSqlExpr)
    requires
        !occurs_in(target, e),
    ensures
        subst_expr(e, target, repl) == e,
    decreases e,
{
    match e {
        SpecSqlExpr::BinaryOp { op, left, right } => {
            lemma_subst_absent(*left, target, repl);
            lemma_subst_absent(*right, target, repl);
        },
        SpecSqlExpr::Function { name, args } => {
            lemma_subst_absent_seq(args, target, repl);
        },
        _ => {},
    }
}

pub proof fn lemma_subst_absent_seq(s: Seq<SpecSqlExpr>, target: SpecSqlExpr, repl: SpecSqlExpr)
    requires
        !occurs_in_seq(target, s),
    ensures
        subst_expr_seq(s, target, repl) == s,
    decreases s,
{
    if s.len() > 0 {
        lemma_subst_absent(s[0], target, repl);
        lemma_subst_absent_seq(s.subrange(1, s.len() as int), target, repl);
        assert(subst_expr_seq(s, target, repl) =~= s);
    }
}

/// Decide equality of two identifiers.
pub fn ident_eq(a: &Ident, b: &Ident) -> (r: bool)
    ensures
        r == (a@ == b@),
{
    a.value == b.value && a.quoted == b.quoted
}

/// Decide structural equality of two scalar expressions.
#[verifier::loop_isolation(false)]
pub fn expr_eq(a: &SqlExpr, b: &SqlExpr) -> (r: bool)
    ensures
        r == (a@ == b@),
    decreases *a,
{
    match (a, b) {
        (SqlExpr::Identifier(x), SqlExpr::Identifier(y)) => ident_eq(x, y),
        (SqlExpr::Number(x), SqlExpr::Number(y)) => *x == *y,
        (
            SqlExpr::BinaryOp { op: op1, left: l1, right: r1 },
            SqlExpr::BinaryOp { op: op2, left: l2, right: r2 },
        ) => *op1 == *op2 && expr_eq(&**l1, &**l2) && expr_eq(&**r1, &**r2),
        (SqlExpr::Function { name: n1, args: a1 }, SqlExpr::Function { name: n2, args: a2 }) => {
            if !ident_eq(n1, n2) {
                return false;
            }
            if a1.len() != a2.len() {
                proof {
                    lemma_view_expr_seq(a1@);
                    lemma_view_expr_seq(a2@);
                }
                return false;
            }
            let n = a1.len();
            let mut i: usize = 0;
            while i < n
                invariant
                    i <= n,
                    forall|j: int| 0 <= j < i ==> view_expr(a1@[j]) == view_expr(a2@[j]),
                decreases n - i,
            {
                if !expr_eq(&a1[i], &a2[i]) {
                    proof {
                        lemma_view_expr_seq(a1@);
                        lemma_view_expr_seq(a2@);
                    }
                    return false;
                }
                i += 1;
            }
            proof {
                lemma_view_expr_seq(a1@);
                lemma_view_expr_seq(a2@);
                assert forall|j: int| 0 <= j < a1@.len() implies view_expr_seq(a1@)[j]
                    == view_expr_seq(a2@)[j] by {
                    assert(view_expr(a1@[j]) == view_expr(a2@[j]));
                }
                assert(view_expr_seq(a1@) =~= view_expr_seq(a2@));
            }
            true
        },
        _ => false,
    }
}

/// Copy an identifier.
pub fn clone_ident(i: &Ident) -> (r: Ident)
    ensures
        r@ == i@,
{
    Ident { value: i.value.clone(), quoted: i.quoted }
}

/// Copy a scalar expression.
#[verifier::loop_isolation(false)]
pub fn clone_expr(e: &SqlExpr) -> (r: SqlExpr)
    ensures
        r@ == e@,
    decreases *e,
{
    match e {
        SqlExpr::Identifier(i) => SqlExpr::Identifier(clone_ident(i)),
        SqlExpr::Number(n) => SqlExpr::Number(*n),
        SqlExpr::BinaryOp { op, left, right } => SqlExpr::BinaryOp {
            op: *op,
            left: Box::new(clone_expr(&**left)),
            right: Box::new(clone_expr(&**right)),
        },
        SqlExpr::Function { name, args } => {
            let mut new_args: Vec<SqlExpr> = Vec::new();
            let mut i: usize = 0;
            while i < args.len()
                invariant
                    i <= args.len(),
                    new_args@.len() == i,
                    forall|j: int| 0 <= j < i ==> view_expr(new_args@[j]) == view_expr(args@[j]),
                decreases args.len() - i,
            {
                let c = clone_expr(&args[i]);
                new_args.push(c);
                i += 1;
            }
            proof {
                lemma_view_expr_seq(new_args@);
                lemma_view_expr_seq(args@);
                assert forall|j: int| 0 <= j < args@.len() implies view_expr_seq(new_args@)[j]
                    == view_expr_seq(args@)[j] by {
                    assert(view_expr(new_args@[j]) == view_expr(args@[j]));
                }
                assert(view_expr_seq(new_args@) =~= view_expr_seq(args@));
            }
            SqlExpr::Function { name: clone_ident(name), args: new_args }
        },
    }
}

/// Substitute `repl` for every subtree of `e` that is structurally equal to
/// `target`, top-down.
#[verifier::loop_isolation(false)]
pub fn substitute_expr(e: &SqlExpr, target: &SqlExpr, repl: &SqlExpr) -> (r: SqlExpr)
    ensures
        r@ == subst_expr(e@, target@, repl@),
    decreases *e,
{
    if expr_eq(e, target) {
        return clone_expr(repl);
    }
    match e {
        SqlExpr::BinaryOp { op, left, right } => SqlExpr::BinaryOp {
            op: *op,
            left: Box::new(substitute_expr(&**left, target, repl)),
            right: Box::new(substitute_expr(&**right, target, repl)),
        },
        SqlExpr::Function { name, args } => {
            let mut new_args: Vec<SqlExpr> = Vec::new();
            let mut i: usize = 0;
            while i < args.len()
                invariant
                    i <= args.len(),
                    new_args@.len() == i,
                    forall|j: int|
                        0 <= j < i ==> view_expr(new_args@[j]) == subst_expr(
                            view_expr(args@[j]),
                            target@,
                            repl@,
                        ),
                decreases args.len() - i,
            {
                let c = substitute_expr(&args[i], target, repl);
                new_args.push(c);
                i += 1;
            }
            proof {
                lemma_view_expr_seq(new_args@);
                lemma_view_expr_seq(args@);
                lemma_subst_expr_seq(view_expr_seq(args@), target@, repl@);
                assert forall|j: int| 0 <= j < args@.len() implies view_expr_seq(new_args@)[j]
                    == subst_expr_seq(view_expr_seq(args@), target@, repl@)[j] by {
                    assert(view_expr(new_args@[j]) == subst_expr(view_expr(args@[j]), target@, repl@));
                    assert(view_expr_seq(args@)[j] == view_expr(args@[j]));
                }
                assert(view_expr_seq(new_args@) =~= subst_expr_seq(
                    view_expr_seq(args@),
                    target@,
                    repl@,
                ));
            }
            SqlExpr::Function { name: clone_ident(name), args: new_args }
        },
        _ => clone_expr(e),
    }
}

} // verus!
