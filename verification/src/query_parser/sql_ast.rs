//! The syntax tree of SQL queries, as plain data.
use sqlparser::ast::BinaryOperator;
use sqlparser::ast::DateTimeField;
use sqlparser::ast::DuplicateTreatment;
use sqlparser::ast::Expr;
use sqlparser::ast::FunctionArg;
use sqlparser::ast::FunctionArgExpr;
use sqlparser::ast::FunctionArguments;
use sqlparser::ast::GroupByExpr;
use sqlparser::ast::JoinConstraint;
use sqlparser::ast::JoinOperator;
use sqlparser::ast::LimitClause;
use sqlparser::ast::ObjectNamePart;
use sqlparser::ast::OrderByKind;
use sqlparser::ast::OrderBySort;
use sqlparser::ast::SelectItem;
use sqlparser::ast::SetExpr;
use sqlparser::ast::SetOperator;
use sqlparser::ast::SetQuantifier;
use sqlparser::ast::Statement;
use sqlparser::ast::TableFactor;
use sqlparser::ast::Value;
use vstd::prelude::*;
use vstd::string::*;

use crate::text;

verus! {

// ── Expressions ───────────────────────────────────────────────────────────────

/// The parts of a dotted name; `None` for a part that is no identifier.
pub open spec fn parts_view(s: Seq<Option<String>>) -> Seq<Option<Seq<char>>> {
    Seq::new(s.len(), |i: int| text::opt_text(s[i]))
}

/// A literal.
#[derive(Debug)]
pub enum SqlValue {
    /// `'a'`
    SingleQuoted(String),
    /// `"a"`
    DoubleQuoted(String),
    /// `1.5`
    Number(String),
    Boolean(bool),
    Null,
    Other,
}

/// What [`SqlValue`] holds.
#[verifier::ext_equal]
pub enum SqlValueView {
    SingleQuoted(Seq<char>),
    DoubleQuoted(Seq<char>),
    Number(Seq<char>),
    Boolean(bool),
    Null,
    Other,
}

impl View for SqlValue {
    type V = SqlValueView;

    open spec fn view(&self) -> SqlValueView {
        match self {
            SqlValue::SingleQuoted(s) => SqlValueView::SingleQuoted(s@),
            SqlValue::DoubleQuoted(s) => SqlValueView::DoubleQuoted(s@),
            SqlValue::Number(s) => SqlValueView::Number(s@),
            SqlValue::Boolean(b) => SqlValueView::Boolean(*b),
            SqlValue::Null => SqlValueView::Null,
            SqlValue::Other => SqlValueView::Other,
        }
    }
}

/// A binary operator.
#[derive(Clone, Copy, Debug, PartialEq, Eq, Structural)]
pub enum SqlOp {
    Plus,
    Minus,
    Multiply,
    Divide,
    Modulo,
    Eq,
    NotEq,
    Lt,
    LtEq,
    Gt,
    GtEq,
    And,
    Or,
    BitwiseAnd,
    BitwiseOr,
    BitwiseXor,
    StringConcat,
    Other,
}

/// The unit of an interval.
#[derive(Clone, Copy, Debug, PartialEq, Eq, Structural)]
pub enum SqlUnit {
    Second,
    Minute,
    Hour,
    Day,
    Other,
}

/// `DISTINCT` or `ALL` before the arguments of a function.
#[derive(Clone, Copy, Debug, PartialEq, Eq, Structural)]
pub enum SqlDuplicates {
    Unstated,
    Distinct,
    All,
}

/// An argument of a function.
#[derive(Debug)]
pub enum SqlArg {
    /// `*`
    Wildcard,
    Expr(SqlExpr),
    Other,
}

/// The arguments of a function.
#[derive(Debug)]
pub enum SqlArgs {
    List { duplicates: SqlDuplicates, args: Vec<SqlArg> },
    Other,
}

/// An expression.
#[derive(Debug)]
#[allow(inconsistent_fields)]
pub enum SqlExpr {
    /// `a`
    Identifier(String),
    /// `t.a`
    Compound(Vec<String>),
    Value(SqlValue),
    Binary { left: Box<SqlExpr>, op: SqlOp, right: Box<SqlExpr> },
    IsNull(Box<SqlExpr>),
    IsNotNull(Box<SqlExpr>),
    Between { expr: Box<SqlExpr>, negated: bool, low: Box<SqlExpr>, high: Box<SqlExpr> },
    InList { expr: Box<SqlExpr>, list: Vec<SqlExpr>, negated: bool },
    Like { negated: bool, expr: Box<SqlExpr>, pattern: Box<SqlExpr> },
    /// `(..)`
    Nested(Box<SqlExpr>),
    Function { name: Vec<Option<String>>, args: SqlArgs },
    /// `INTERVAL '5' MINUTE`
    Interval { value: Box<SqlExpr>, unit: Option<SqlUnit> },
    Other,
}

/// What [`SqlArg`] holds.
#[verifier::ext_equal]
pub enum SqlArgView {
    Wildcard,
    Expr(SqlExprView),
    Other,
}

/// What [`SqlArgs`] holds.
#[verifier::ext_equal]
pub enum SqlArgsView {
    List { duplicates: SqlDuplicates, args: Seq<SqlArgView> },
    Other,
}

/// What [`SqlExpr`] holds.
#[verifier::ext_equal]
#[allow(inconsistent_fields)]
pub enum SqlExprView {
    Identifier(Seq<char>),
    Compound(Seq<Seq<char>>),
    Value(SqlValueView),
    Binary { left: Box<SqlExprView>, op: SqlOp, right: Box<SqlExprView> },
    IsNull(Box<SqlExprView>),
    IsNotNull(Box<SqlExprView>),
    Between {
        expr: Box<SqlExprView>,
        negated: bool,
        low: Box<SqlExprView>,
        high: Box<SqlExprView>,
    },
    InList { expr: Box<SqlExprView>, list: Seq<SqlExprView>, negated: bool },
    Like { negated: bool, expr: Box<SqlExprView>, pattern: Box<SqlExprView> },
    Nested(Box<SqlExprView>),
    Function { name: Seq<Option<Seq<char>>>, args: SqlArgsView },
    Interval { value: Box<SqlExprView>, unit: Option<SqlUnit> },
    Other,
}

/// The view of an expression.
pub open spec fn sql_view(e: SqlExpr) -> SqlExprView
    decreases e,
{
    match e {
        SqlExpr::Identifier(s) => SqlExprView::Identifier(s@),
        SqlExpr::Compound(parts) => SqlExprView::Compound(text::texts(parts@)),
        SqlExpr::Value(v) => SqlExprView::Value(v@),
        SqlExpr::Binary { left, op, right } => SqlExprView::Binary {
            left: Box::new(sql_view(*left)),
            op,
            right: Box::new(sql_view(*right)),
        },
        SqlExpr::IsNull(x) => SqlExprView::IsNull(Box::new(sql_view(*x))),
        SqlExpr::IsNotNull(x) => SqlExprView::IsNotNull(Box::new(sql_view(*x))),
        SqlExpr::Between { expr, negated, low, high } => SqlExprView::Between {
            expr: Box::new(sql_view(*expr)),
            negated,
            low: Box::new(sql_view(*low)),
            high: Box::new(sql_view(*high)),
        },
        SqlExpr::InList { expr, list, negated } => SqlExprView::InList {
            expr: Box::new(sql_view(*expr)),
            list: sqls_view(list@),
            negated,
        },
        SqlExpr::Like { negated, expr, pattern } => SqlExprView::Like {
            negated,
            expr: Box::new(sql_view(*expr)),
            pattern: Box::new(sql_view(*pattern)),
        },
        SqlExpr::Nested(x) => SqlExprView::Nested(Box::new(sql_view(*x))),
        SqlExpr::Function { name, args } => SqlExprView::Function {
            name: parts_view(name@),
            args: args_view(args),
        },
        SqlExpr::Interval { value, unit } => SqlExprView::Interval {
            value: Box::new(sql_view(*value)),
            unit,
        },
        SqlExpr::Other => SqlExprView::Other,
    }
}

/// The views of a list of expressions.
pub open spec fn sqls_view(s: Seq<SqlExpr>) -> Seq<SqlExprView>
    decreases s,
{
    Seq::new(
        s.len(),
        |i: int|
            if 0 <= i < s.len() {
                sql_view(s[i])
            } else {
                arbitrary()
            },
    )
}

/// The view of the arguments of a function.
pub open spec fn args_view(a: SqlArgs) -> SqlArgsView
    decreases a,
{
    match a {
        SqlArgs::List { duplicates, args } => SqlArgsView::List {
            duplicates,
            args: arg_list_view(args@),
        },
        SqlArgs::Other => SqlArgsView::Other,
    }
}

/// The views of a list of arguments.
pub open spec fn arg_list_view(s: Seq<SqlArg>) -> Seq<SqlArgView>
    decreases s,
{
    Seq::new(
        s.len(),
        |i: int|
            if 0 <= i < s.len() {
                arg_view(s[i])
            } else {
                arbitrary()
            },
    )
}

/// The view of an argument.
pub open spec fn arg_view(a: SqlArg) -> SqlArgView
    decreases a,
{
    match a {
        SqlArg::Wildcard => SqlArgView::Wildcard,
        SqlArg::Expr(e) => SqlArgView::Expr(sql_view(e)),
        SqlArg::Other => SqlArgView::Other,
    }
}

/// The view of an optional expression.
pub open spec fn opt_sql(e: Option<SqlExpr>) -> Option<SqlExprView> {
    match e {
        Some(x) => Some(sql_view(x)),
        None => None,
    }
}

impl View for SqlExpr {
    type V = SqlExprView;

    open spec fn view(&self) -> SqlExprView {
        sql_view(*self)
    }
}

impl View for SqlArg {
    type V = SqlArgView;

    open spec fn view(&self) -> SqlArgView {
        arg_view(*self)
    }
}

impl View for SqlArgs {
    type V = SqlArgsView;

    open spec fn view(&self) -> SqlArgsView {
        args_view(*self)
    }
}

/// The view of a list holds the view of each element.
pub broadcast proof fn sqls_view_index(s: Seq<SqlExpr>, i: int)
    requires
        0 <= i < s.len(),
    ensures
        #[trigger] sqls_view(s)[i] == sql_view(s[i]),
{
}

/// The view of a list is as long as the list.
pub broadcast proof fn sqls_view_len(s: Seq<SqlExpr>)
    ensures
        #[trigger] sqls_view(s).len() == s.len(),
{
}

/// The view of a list holds the view of each element.
pub broadcast proof fn arg_list_view_index(s: Seq<SqlArg>, i: int)
    requires
        0 <= i < s.len(),
    ensures
        #[trigger] arg_list_view(s)[i] == arg_view(s[i]),
{
}

/// The view of a list is as long as the list.
pub broadcast proof fn arg_list_view_len(s: Seq<SqlArg>)
    ensures
        #[trigger] arg_list_view(s).len() == s.len(),
{
}

/// How the views of lists are made up.
pub broadcast group group_sql_views {
    sqls_view_index,
    sqls_view_len,
    arg_list_view_index,
    arg_list_view_len,
}

// ── Queries ───────────────────────────────────────────────────────────────────

/// An item of a projection.
#[derive(Debug)]
#[allow(inconsistent_fields)]
pub enum SqlItem {
    Expr(SqlExpr),
    Alias { expr: SqlExpr, alias: String },
    /// `*`
    Wildcard,
    Other,
}

/// What [`SqlItem`] holds.
#[verifier::ext_equal]
#[allow(inconsistent_fields)]
pub enum SqlItemView {
    Expr(SqlExprView),
    Alias { expr: SqlExprView, alias: Seq<char> },
    Wildcard,
    Other,
}

impl View for SqlItem {
    type V = SqlItemView;

    open spec fn view(&self) -> SqlItemView {
        match self {
            SqlItem::Expr(e) => SqlItemView::Expr(e@),
            SqlItem::Alias { expr, alias } => SqlItemView::Alias { expr: expr@, alias: alias@ },
            SqlItem::Wildcard => SqlItemView::Wildcard,
            SqlItem::Other => SqlItemView::Other,
        }
    }
}

/// The views of a projection.
pub open spec fn items_view(s: Seq<SqlItem>) -> Seq<SqlItemView> {
    Seq::new(s.len(), |i: int| s[i]@)
}

/// What a `FROM` clause reads.
#[derive(Debug)]
pub enum SqlTable {
    Named(Vec<Option<String>>),
    Other,
}

/// What [`SqlTable`] holds.
#[verifier::ext_equal]
pub enum SqlTableView {
    Named(Seq<Option<Seq<char>>>),
    Other,
}

impl View for SqlTable {
    type V = SqlTableView;

    open spec fn view(&self) -> SqlTableView {
        match self {
            SqlTable::Named(parts) => SqlTableView::Named(parts_view(parts@)),
            SqlTable::Other => SqlTableView::Other,
        }
    }
}

/// The condition of a join.
#[derive(Debug)]
pub enum SqlConstraint {
    On(SqlExpr),
    Other,
}

/// What [`SqlConstraint`] holds.
#[verifier::ext_equal]
pub enum SqlConstraintView {
    On(SqlExprView),
    Other,
}

impl View for SqlConstraint {
    type V = SqlConstraintView;

    open spec fn view(&self) -> SqlConstraintView {
        match self {
            SqlConstraint::On(e) => SqlConstraintView::On(e@),
            SqlConstraint::Other => SqlConstraintView::Other,
        }
    }
}

/// How a join combines rows.
#[derive(Debug)]
pub enum SqlJoinOp {
    Plain(SqlConstraint),
    Inner(SqlConstraint),
    Left(SqlConstraint),
    Right(SqlConstraint),
    LeftOuter(SqlConstraint),
    RightOuter(SqlConstraint),
    FullOuter(SqlConstraint),
    Cross,
    Other,
}

/// What [`SqlJoinOp`] holds.
#[verifier::ext_equal]
pub enum SqlJoinOpView {
    Plain(SqlConstraintView),
    Inner(SqlConstraintView),
    Left(SqlConstraintView),
    Right(SqlConstraintView),
    LeftOuter(SqlConstraintView),
    RightOuter(SqlConstraintView),
    FullOuter(SqlConstraintView),
    Cross,
    Other,
}

impl View for SqlJoinOp {
    type V = SqlJoinOpView;

    open spec fn view(&self) -> SqlJoinOpView {
        match self {
            SqlJoinOp::Plain(c) => SqlJoinOpView::Plain(c@),
            SqlJoinOp::Inner(c) => SqlJoinOpView::Inner(c@),
            SqlJoinOp::Left(c) => SqlJoinOpView::Left(c@),
            SqlJoinOp::Right(c) => SqlJoinOpView::Right(c@),
            SqlJoinOp::LeftOuter(c) => SqlJoinOpView::LeftOuter(c@),
            SqlJoinOp::RightOuter(c) => SqlJoinOpView::RightOuter(c@),
            SqlJoinOp::FullOuter(c) => SqlJoinOpView::FullOuter(c@),
            SqlJoinOp::Cross => SqlJoinOpView::Cross,
            SqlJoinOp::Other => SqlJoinOpView::Other,
        }
    }
}

/// A join with another table.
#[derive(Debug)]
pub struct SqlJoin {
    pub table: SqlTable,
    pub op: SqlJoinOp,
}

/// What [`SqlJoin`] holds.
#[verifier::ext_equal]
pub struct SqlJoinView {
    pub table: SqlTableView,
    pub op: SqlJoinOpView,
}

impl View for SqlJoin {
    type V = SqlJoinView;

    open spec fn view(&self) -> SqlJoinView {
        SqlJoinView { table: self.table@, op: self.op@ }
    }
}

/// A table with its joins.
#[derive(Debug)]
pub struct SqlFrom {
    pub table: SqlTable,
    pub joins: Vec<SqlJoin>,
}

/// What [`SqlFrom`] holds.
#[verifier::ext_equal]
pub struct SqlFromView {
    pub table: SqlTableView,
    pub joins: Seq<SqlJoinView>,
}

impl View for SqlFrom {
    type V = SqlFromView;

    open spec fn view(&self) -> SqlFromView {
        SqlFromView {
            table: self.table@,
            joins: Seq::new(self.joins@.len(), |i: int| self.joins@[i]@),
        }
    }
}

/// A `GROUP BY` clause.
#[derive(Debug)]
pub enum SqlGroupBy {
    /// `GROUP BY ALL`
    All,
    Exprs(Vec<SqlExpr>),
}

/// What [`SqlGroupBy`] holds.
#[verifier::ext_equal]
pub enum SqlGroupByView {
    All,
    Exprs(Seq<SqlExprView>),
}

impl View for SqlGroupBy {
    type V = SqlGroupByView;

    open spec fn view(&self) -> SqlGroupByView {
        match self {
            SqlGroupBy::All => SqlGroupByView::All,
            SqlGroupBy::Exprs(es) => SqlGroupByView::Exprs(sqls_view(es@)),
        }
    }
}

/// A `SELECT`.
#[derive(Debug)]
pub struct SqlSelect {
    pub projection: Vec<SqlItem>,
    pub from: Vec<SqlFrom>,
    pub selection: Option<SqlExpr>,
    pub group_by: SqlGroupBy,
    pub having: Option<SqlExpr>,
}

/// What [`SqlSelect`] holds.
#[verifier::ext_equal]
pub struct SqlSelectView {
    pub projection: Seq<SqlItemView>,
    pub from: Seq<SqlFromView>,
    pub selection: Option<SqlExprView>,
    pub group_by: SqlGroupByView,
    pub having: Option<SqlExprView>,
}

impl View for SqlSelect {
    type V = SqlSelectView;

    open spec fn view(&self) -> SqlSelectView {
        SqlSelectView {
            projection: items_view(self.projection@),
            from: Seq::new(self.from@.len(), |i: int| self.from@[i]@),
            selection: opt_sql(self.selection),
            group_by: self.group_by@,
            having: opt_sql(self.having),
        }
    }
}

/// The direction of a sort key.
#[derive(Clone, Copy, Debug, PartialEq, Eq, Structural)]
pub enum SqlDirection {
    Unstated,
    Asc,
    Desc,
    Other,
}

/// A key of an `ORDER BY` clause.
#[derive(Debug)]
pub struct SqlOrder {
    pub expr: SqlExpr,
    pub direction: SqlDirection,
}

/// What [`SqlOrder`] holds.
#[verifier::ext_equal]
pub struct SqlOrderView {
    pub expr: SqlExprView,
    pub direction: SqlDirection,
}

impl View for SqlOrder {
    type V = SqlOrderView;

    open spec fn view(&self) -> SqlOrderView {
        SqlOrderView { expr: self.expr@, direction: self.direction }
    }
}

/// An `ORDER BY` clause.
#[derive(Debug)]
pub enum SqlOrderBy {
    Absent,
    /// `ORDER BY ALL`
    All,
    Keys(Vec<SqlOrder>),
}

/// What [`SqlOrderBy`] holds.
#[verifier::ext_equal]
pub enum SqlOrderByView {
    Absent,
    All,
    Keys(Seq<SqlOrderView>),
}

/// The views of sort keys.
pub open spec fn orders_view(s: Seq<SqlOrder>) -> Seq<SqlOrderView> {
    Seq::new(s.len(), |i: int| s[i]@)
}

impl View for SqlOrderBy {
    type V = SqlOrderByView;

    open spec fn view(&self) -> SqlOrderByView {
        match self {
            SqlOrderBy::Absent => SqlOrderByView::Absent,
            SqlOrderBy::All => SqlOrderByView::All,
            SqlOrderBy::Keys(ks) => SqlOrderByView::Keys(orders_view(ks@)),
        }
    }
}

/// A `LIMIT` clause.
#[derive(Debug)]
#[allow(inconsistent_fields)]
pub enum SqlLimit {
    Absent,
    /// `LIMIT 10 OFFSET 5`
    LimitOffset { limit: Option<SqlExpr>, offset: Option<SqlExpr> },
    /// `LIMIT 5, 10`
    OffsetComma { offset: SqlExpr, limit: SqlExpr },
}

/// What [`SqlLimit`] holds.
#[verifier::ext_equal]
#[allow(inconsistent_fields)]
pub enum SqlLimitView {
    Absent,
    LimitOffset { limit: Option<SqlExprView>, offset: Option<SqlExprView> },
    OffsetComma { offset: SqlExprView, limit: SqlExprView },
}

impl View for SqlLimit {
    type V = SqlLimitView;

    open spec fn view(&self) -> SqlLimitView {
        match self {
            SqlLimit::Absent => SqlLimitView::Absent,
            SqlLimit::LimitOffset { limit, offset } => SqlLimitView::LimitOffset {
                limit: opt_sql(*limit),
                offset: opt_sql(*offset),
            },
            SqlLimit::OffsetComma { offset, limit } => SqlLimitView::OffsetComma {
                offset: offset@,
                limit: limit@,
            },
        }
    }
}

/// Set operators.
#[derive(Clone, Copy, Debug, PartialEq, Eq, Structural)]
pub enum SqlSetOp {
    Union,
    Intersect,
    Except,
    Minus,
}

/// Which rows a set operator keeps.
#[derive(Clone, Copy, Debug, PartialEq, Eq, Structural)]
pub enum SqlQuantifier {
    Unstated,
    All,
    Distinct,
    ByName,
    AllByName,
    DistinctByName,
}

/// The body of a query.
#[derive(Debug)]
#[allow(inconsistent_fields)]
pub enum SqlBody {
    Select(SqlSelect),
    Query(Box<SqlQuery>),
    SetOperation { left: Box<SqlBody>, op: SqlSetOp, quantifier: SqlQuantifier, right: Box<SqlBody> },
    /// Anything else, as the parser writes it out.
    Other(String),
}

/// A query.
#[derive(Debug)]
pub struct SqlQuery {
    pub body: Box<SqlBody>,
    pub order_by: SqlOrderBy,
    pub limit: SqlLimit,
}

/// What [`SqlBody`] holds.
#[verifier::ext_equal]
#[allow(inconsistent_fields)]
pub enum SqlBodyView {
    Select(SqlSelectView),
    Query(Box<SqlQueryView>),
    SetOperation {
        left: Box<SqlBodyView>,
        op: SqlSetOp,
        quantifier: SqlQuantifier,
        right: Box<SqlBodyView>,
    },
    Other(Seq<char>),
}

/// What [`SqlQuery`] holds.
#[verifier::ext_equal]
pub struct SqlQueryView {
    pub body: Box<SqlBodyView>,
    pub order_by: SqlOrderByView,
    pub limit: SqlLimitView,
}

/// The view of a body.
pub open spec fn body_view(b: SqlBody) -> SqlBodyView
    decreases b,
{
    match b {
        SqlBody::Select(s) => SqlBodyView::Select(s@),
        SqlBody::Query(q) => SqlBodyView::Query(Box::new(query_view(*q))),
        SqlBody::SetOperation { left, op, quantifier, right } => SqlBodyView::SetOperation {
            left: Box::new(body_view(*left)),
            op,
            quantifier,
            right: Box::new(body_view(*right)),
        },
        SqlBody::Other(s) => SqlBodyView::Other(s@),
    }
}

/// The view of a query.
pub open spec fn query_view(q: SqlQuery) -> SqlQueryView
    decreases q,
{
    SqlQueryView {
        body: Box::new(body_view(*q.body)),
        order_by: q.order_by@,
        limit: q.limit@,
    }
}

impl View for SqlBody {
    type V = SqlBodyView;

    open spec fn view(&self) -> SqlBodyView {
        body_view(*self)
    }
}

impl View for SqlQuery {
    type V = SqlQueryView;

    open spec fn view(&self) -> SqlQueryView {
        query_view(*self)
    }
}

/// A statement.
#[derive(Debug)]
pub enum SqlStatement {
    Query(SqlQuery),
    /// Anything else, as the parser writes it out.
    Other(String),
}

/// What [`SqlStatement`] holds.
#[verifier::ext_equal]
pub enum SqlStatementView {
    Query(SqlQueryView),
    Other(Seq<char>),
}

impl View for SqlStatement {
    type V = SqlStatementView;

    open spec fn view(&self) -> SqlStatementView {
        match self {
            SqlStatement::Query(q) => SqlStatementView::Query(q@),
            SqlStatement::Other(s) => SqlStatementView::Other(s@),
        }
    }
}

/// The views of a list of statements.
pub open spec fn statements_view(s: Seq<SqlStatement>) -> Seq<SqlStatementView> {
    Seq::new(s.len(), |i: int| s[i]@)
}

// ── Parsing ───────────────────────────────────────────────────────────────────

/// A statement of the parser, opaque here.
#[verifier::external_type_specification]
#[verifier::external_body]
pub struct ExStatement(sqlparser::ast::Statement);

/// A query of the parser, opaque here.
#[verifier::external_type_specification]
#[verifier::external_body]
pub struct ExQuery(sqlparser::ast::Query);

/// A query body of the parser, opaque here.
#[verifier::external_type_specification]
#[verifier::external_body]
pub struct ExSetExpr(sqlparser::ast::SetExpr);

/// A `SELECT` of the parser, opaque here.
#[verifier::external_type_specification]
#[verifier::external_body]
pub struct ExSelect(sqlparser::ast::Select);

/// A projection item of the parser, opaque here.
#[verifier::external_type_specification]
#[verifier::external_body]
pub struct ExSelectItem(sqlparser::ast::SelectItem);

/// A table with joins of the parser, opaque here.
#[verifier::external_type_specification]
#[verifier::external_body]
pub struct ExTableWithJoins(sqlparser::ast::TableWithJoins);

/// A table of the parser, opaque here.
#[verifier::external_type_specification]
#[verifier::external_body]
pub struct ExTableFactor(sqlparser::ast::TableFactor);

/// A join of the parser, opaque here.
#[verifier::external_type_specification]
#[verifier::external_body]
pub struct ExJoin(sqlparser::ast::Join);

/// A join condition of the parser, opaque here.
#[verifier::external_type_specification]
#[verifier::external_body]
pub struct ExJoinConstraint(sqlparser::ast::JoinConstraint);

/// An `ORDER BY` clause of the parser, opaque here.
#[verifier::external_type_specification]
#[verifier::external_body]
pub struct ExOrderBy(sqlparser::ast::OrderBy);

/// A sort key of the parser, opaque here.
#[verifier::external_type_specification]
#[verifier::external_body]
pub struct ExOrderByExpr(sqlparser::ast::OrderByExpr);

/// A `LIMIT` clause of the parser, opaque here.
#[verifier::external_type_specification]
#[verifier::external_body]
pub struct ExLimitClause(sqlparser::ast::LimitClause);

/// A set operator of the parser, opaque here.
#[verifier::external_type_specification]
#[verifier::external_body]
pub struct ExSetOperator(sqlparser::ast::SetOperator);

/// A set quantifier of the parser, opaque here.
#[verifier::external_type_specification]
#[verifier::external_body]
pub struct ExSetQuantifier(sqlparser::ast::SetQuantifier);

/// An expression of the parser, opaque here.
#[verifier::external_type_specification]
#[verifier::external_body]
pub struct ExSqlExpr(sqlparser::ast::Expr);

/// A function call of the parser, opaque here.
#[verifier::external_type_specification]
#[verifier::external_body]
pub struct ExFunction(sqlparser::ast::Function);

/// A function argument of the parser, opaque here.
#[verifier::external_type_specification]
#[verifier::external_body]
pub struct ExFunctionArg(sqlparser::ast::FunctionArg);

/// A dotted name of the parser, opaque here.
#[verifier::external_type_specification]
#[verifier::external_body]
pub struct ExObjectName(sqlparser::ast::ObjectName);

/// A literal of the parser, opaque here.
#[verifier::external_type_specification]
#[verifier::external_body]
pub struct ExValue(sqlparser::ast::Value);

/// A binary operator of the parser, opaque here.
#[verifier::external_type_specification]
#[verifier::external_body]
pub struct ExBinaryOperator(sqlparser::ast::BinaryOperator);

/// A unit of time of the parser, opaque here.
#[verifier::external_type_specification]
#[verifier::external_body]
pub struct ExDateTimeField(sqlparser::ast::DateTimeField);

/// What the SQL parser makes of a text: its statements as plain data, or
/// nothing where the text is not SQL.
pub uninterp spec fn parsed_sql(sql: Seq<char>) -> Option<Seq<SqlStatementView>>;

/// `sqlparser::parser::Parser::parse_sql` with the generic dialect: the
/// statements of a text, each node handed on as plain data, or `None` where the
/// parser refuses it. The grammar is the parser's and is not stated; the result
/// depends on the text alone.
#[verifier::external_body]
pub(crate) fn parse_statements(sql: &str) -> (r: Option<Vec<SqlStatement>>)
    ensures
        match r {
            Some(v) => parsed_sql(sql@) == Some(statements_view(v@)),
            None => parsed_sql(sql@) is None,
        },
{
    let dialect = sqlparser::dialect::GenericDialect {};
    let parsed = sqlparser::parser::Parser::parse_sql(&dialect, sql);
    parsed.ok().map(|v| v.into_iter().map(statement_of).collect())
}

/// A statement (`sqlparser::ast::Statement`) as plain data; one that is no query
/// by the text of its `Debug`.
#[verifier::external_body]
fn statement_of(s: sqlparser::ast::Statement) -> SqlStatement {
    match s {
        Statement::Query(q) => SqlStatement::Query(query_of(*q)),
        other => SqlStatement::Other(format!("{:?}", other)),
    }
}

/// A query (`sqlparser::ast::Query`) as plain data.
#[verifier::external_body]
fn query_of(q: sqlparser::ast::Query) -> SqlQuery {
    SqlQuery {
        body: Box::new(body_of(*q.body)),
        order_by: q.order_by.map_or(SqlOrderBy::Absent, order_by_of),
        limit: q.limit_clause.map_or(SqlLimit::Absent, limit_of),
    }
}

/// A query body (`sqlparser::ast::SetExpr`) as plain data; one that is no query
/// by the text of its `Debug`.
#[verifier::external_body]
fn body_of(b: sqlparser::ast::SetExpr) -> SqlBody {
    match b {
        SetExpr::Select(s) => SqlBody::Select(select_of(*s)),
        SetExpr::Query(q) => SqlBody::Query(Box::new(query_of(*q))),
        SetExpr::SetOperation { left, op, set_quantifier, right } => SqlBody::SetOperation {
            left: Box::new(body_of(*left)),
            op: set_op_of(op),
            quantifier: quantifier_of(set_quantifier),
            right: Box::new(body_of(*right)),
        },
        other => SqlBody::Other(format!("{:?}", other)),
    }
}

/// A set operator (`sqlparser::ast::SetOperator`) as plain data.
#[verifier::external_body]
fn set_op_of(op: sqlparser::ast::SetOperator) -> SqlSetOp {
    match op {
        SetOperator::Union => SqlSetOp::Union,
        SetOperator::Intersect => SqlSetOp::Intersect,
        SetOperator::Except => SqlSetOp::Except,
        SetOperator::Minus => SqlSetOp::Minus,
    }
}

/// A set quantifier (`sqlparser::ast::SetQuantifier`) as plain data.
#[verifier::external_body]
fn quantifier_of(q: sqlparser::ast::SetQuantifier) -> SqlQuantifier {
    match q {
        SetQuantifier::All => SqlQuantifier::All,
        SetQuantifier::Distinct => SqlQuantifier::Distinct,
        SetQuantifier::ByName => SqlQuantifier::ByName,
        SetQuantifier::AllByName => SqlQuantifier::AllByName,
        SetQuantifier::DistinctByName => SqlQuantifier::DistinctByName,
        SetQuantifier::None => SqlQuantifier::Unstated,
    }
}

/// A `SELECT` (`sqlparser::ast::Select`) as plain data.
#[verifier::external_body]
fn select_of(s: sqlparser::ast::Select) -> SqlSelect {
    SqlSelect {
        projection: s.projection.into_iter().map(item_of).collect(),
        from: s.from.into_iter().map(from_of).collect(),
        selection: s.selection.map(expr_of),
        group_by: match s.group_by {
            GroupByExpr::All(_) => SqlGroupBy::All,
            GroupByExpr::Expressions(es, _) => SqlGroupBy::Exprs(es.into_iter().map(expr_of).collect()),
        },
        having: s.having.map(expr_of),
    }
}

/// A projection item (`sqlparser::ast::SelectItem`) as plain data.
#[verifier::external_body]
fn item_of(i: sqlparser::ast::SelectItem) -> SqlItem {
    match i {
        SelectItem::UnnamedExpr(e) => SqlItem::Expr(expr_of(e)),
        SelectItem::ExprWithAlias { expr, alias } => SqlItem::Alias { expr: expr_of(expr), alias: alias.value },
        SelectItem::Wildcard(_) => SqlItem::Wildcard,
        SelectItem::ExprWithAliases { .. } | SelectItem::QualifiedWildcard(_, _) => SqlItem::Other,
    }
}

/// A table with its joins (`sqlparser::ast::TableWithJoins`) as plain data.
#[verifier::external_body]
fn from_of(t: sqlparser::ast::TableWithJoins) -> SqlFrom {
    SqlFrom { table: table_of(t.relation), joins: t.joins.into_iter().map(join_of).collect() }
}

/// A table (`sqlparser::ast::TableFactor`) as plain data.
#[verifier::external_body]
fn table_of(t: sqlparser::ast::TableFactor) -> SqlTable {
    match t {
        TableFactor::Table { name, .. } => SqlTable::Named(name_of(name)),
        _ => SqlTable::Other,
    }
}

/// A join (`sqlparser::ast::Join`) as plain data.
#[verifier::external_body]
fn join_of(j: sqlparser::ast::Join) -> SqlJoin {
    let op = match j.join_operator {
        JoinOperator::Join(c) => SqlJoinOp::Plain(constraint_of(c)),
        JoinOperator::Inner(c) => SqlJoinOp::Inner(constraint_of(c)),
        JoinOperator::Left(c) => SqlJoinOp::Left(constraint_of(c)),
        JoinOperator::Right(c) => SqlJoinOp::Right(constraint_of(c)),
        JoinOperator::LeftOuter(c) => SqlJoinOp::LeftOuter(constraint_of(c)),
        JoinOperator::RightOuter(c) => SqlJoinOp::RightOuter(constraint_of(c)),
        JoinOperator::FullOuter(c) => SqlJoinOp::FullOuter(constraint_of(c)),
        JoinOperator::CrossJoin(_) => SqlJoinOp::Cross,
        _ => SqlJoinOp::Other,
    };
    SqlJoin { table: table_of(j.relation), op }
}

/// A join condition (`sqlparser::ast::JoinConstraint`) as plain data.
#[verifier::external_body]
fn constraint_of(c: sqlparser::ast::JoinConstraint) -> SqlConstraint {
    match c {
        JoinConstraint::On(e) => SqlConstraint::On(expr_of(e)),
        JoinConstraint::Using(_) | JoinConstraint::Natural | JoinConstraint::None => SqlConstraint::Other,
    }
}

/// An `ORDER BY` clause (`sqlparser::ast::OrderBy`) as plain data.
#[verifier::external_body]
fn order_by_of(o: sqlparser::ast::OrderBy) -> SqlOrderBy {
    match o.kind {
        OrderByKind::All(_) => SqlOrderBy::All,
        OrderByKind::Expressions(ks) => SqlOrderBy::Keys(ks.into_iter().map(order_of).collect()),
    }
}

/// A sort key (`sqlparser::ast::OrderByExpr`) as plain data.
#[verifier::external_body]
fn order_of(o: sqlparser::ast::OrderByExpr) -> SqlOrder {
    let direction = match o.options.sort {
        Some(OrderBySort::Asc) => SqlDirection::Asc,
        Some(OrderBySort::Desc) => SqlDirection::Desc,
        Some(OrderBySort::Using(_)) => SqlDirection::Other,
        None => SqlDirection::Unstated,
    };
    SqlOrder { expr: expr_of(o.expr), direction }
}

/// A `LIMIT` clause (`sqlparser::ast::LimitClause`) as plain data.
#[verifier::external_body]
fn limit_of(l: sqlparser::ast::LimitClause) -> SqlLimit {
    match l {
        LimitClause::LimitOffset { limit, offset, .. } => SqlLimit::LimitOffset {
            limit: limit.map(expr_of),
            offset: offset.map(|o| expr_of(o.value)),
        },
        LimitClause::OffsetCommaLimit { offset, limit } => SqlLimit::OffsetComma {
            offset: expr_of(offset),
            limit: expr_of(limit),
        },
    }
}

/// An expression (`sqlparser::ast::Expr`) as plain data; the variants not listed
/// are handed on as `Other`.
#[verifier::external_body]
fn expr_of(e: sqlparser::ast::Expr) -> SqlExpr {
    match e {
        Expr::Identifier(id) => SqlExpr::Identifier(id.value),
        Expr::CompoundIdentifier(ids) => SqlExpr::Compound(ids.into_iter().map(|i| i.value).collect()),
        Expr::Value(v) => SqlExpr::Value(value_of(v.value)),
        Expr::BinaryOp { left, op, right } => SqlExpr::Binary { left: boxed(left), op: op_of(op), right: boxed(right) },
        Expr::Nested(x) => SqlExpr::Nested(boxed(x)),
        Expr::Function(f) => function_of(f),
        Expr::Interval(i) => SqlExpr::Interval { value: boxed(i.value), unit: i.leading_field.map(unit_of) },
        other => predicate_of(other),
    }
}

/// A predicate (`sqlparser::ast::Expr`) as plain data; the variants not listed
/// are handed on as `Other`.
#[verifier::external_body]
fn predicate_of(e: sqlparser::ast::Expr) -> SqlExpr {
    match e {
        Expr::IsNull(x) => SqlExpr::IsNull(boxed(x)),
        Expr::IsNotNull(x) => SqlExpr::IsNotNull(boxed(x)),
        Expr::Between { expr, negated, low, high } => SqlExpr::Between { expr: boxed(expr), negated, low: boxed(low), high: boxed(high) },
        Expr::InList { expr, list, negated } => SqlExpr::InList { expr: boxed(expr), list: list.into_iter().map(expr_of).collect(), negated },
        Expr::Like { negated, expr, pattern, .. } => SqlExpr::Like { negated, expr: boxed(expr), pattern: boxed(pattern) },
        _ => SqlExpr::Other,
    }
}

/// A boxed expression (`sqlparser::ast::Expr`) as plain data.
#[verifier::external_body]
fn boxed(e: Box<sqlparser::ast::Expr>) -> Box<SqlExpr> {
    Box::new(expr_of(*e))
}

/// A function call (`sqlparser::ast::Function`) as plain data.
#[verifier::external_body]
fn function_of(f: sqlparser::ast::Function) -> SqlExpr {
    let args = match f.args {
        FunctionArguments::List(l) => SqlArgs::List {
            duplicates: match l.duplicate_treatment {
                Some(DuplicateTreatment::Distinct) => SqlDuplicates::Distinct,
                Some(DuplicateTreatment::All) => SqlDuplicates::All,
                None => SqlDuplicates::Unstated,
            },
            args: l.args.into_iter().map(arg_of).collect(),
        },
        FunctionArguments::None | FunctionArguments::Subquery(_) => SqlArgs::Other,
    };
    SqlExpr::Function { name: name_of(f.name), args }
}

/// A function argument (`sqlparser::ast::FunctionArg`) as plain data.
#[verifier::external_body]
fn arg_of(a: sqlparser::ast::FunctionArg) -> SqlArg {
    match a {
        FunctionArg::Unnamed(FunctionArgExpr::Wildcard) => SqlArg::Wildcard,
        FunctionArg::Unnamed(FunctionArgExpr::Expr(e)) => SqlArg::Expr(expr_of(e)),
        _ => SqlArg::Other,
    }
}

/// A dotted name (`sqlparser::ast::ObjectName`) as plain data.
#[verifier::external_body]
fn name_of(n: sqlparser::ast::ObjectName) -> Vec<Option<String>> {
    n.0.into_iter().map(|p| match p {
        ObjectNamePart::Identifier(id) => Some(id.value),
        ObjectNamePart::Function(_) => None,
    }).collect()
}

/// A literal (`sqlparser::ast::Value`) as plain data; the variants not listed are
/// handed on as `Other`.
#[verifier::external_body]
fn value_of(v: sqlparser::ast::Value) -> SqlValue {
    match v {
        Value::SingleQuotedString(s) => SqlValue::SingleQuoted(s),
        Value::DoubleQuotedString(s) => SqlValue::DoubleQuoted(s),
        Value::Number(n, _) => SqlValue::Number(n),
        Value::Boolean(b) => SqlValue::Boolean(b),
        Value::Null => SqlValue::Null,
        _ => SqlValue::Other,
    }
}

/// A binary operator (`sqlparser::ast::BinaryOperator`) as plain data; the
/// variants not listed are handed on as `Other`.
#[verifier::external_body]
fn op_of(op: sqlparser::ast::BinaryOperator) -> SqlOp {
    match op {
        BinaryOperator::Plus => SqlOp::Plus, BinaryOperator::Minus => SqlOp::Minus,
        BinaryOperator::Multiply => SqlOp::Multiply, BinaryOperator::Divide => SqlOp::Divide,
        BinaryOperator::Modulo => SqlOp::Modulo, BinaryOperator::Eq => SqlOp::Eq,
        BinaryOperator::NotEq => SqlOp::NotEq, BinaryOperator::Lt => SqlOp::Lt,
        BinaryOperator::LtEq => SqlOp::LtEq, BinaryOperator::Gt => SqlOp::Gt,
        BinaryOperator::GtEq => SqlOp::GtEq, BinaryOperator::And => SqlOp::And,
        BinaryOperator::Or => SqlOp::Or, BinaryOperator::BitwiseAnd => SqlOp::BitwiseAnd,
        BinaryOperator::BitwiseOr => SqlOp::BitwiseOr, BinaryOperator::BitwiseXor => SqlOp::BitwiseXor,
        BinaryOperator::StringConcat => SqlOp::StringConcat,
        _ => SqlOp::Other,
    }
}

/// A unit of time (`sqlparser::ast::DateTimeField`) as plain data; the variants
/// not listed are handed on as `Other`.
#[verifier::external_body]
fn unit_of(u: sqlparser::ast::DateTimeField) -> SqlUnit {
    match u {
        DateTimeField::Second => SqlUnit::Second,
        DateTimeField::Minute => SqlUnit::Minute,
        DateTimeField::Hour => SqlUnit::Hour,
        DateTimeField::Day => SqlUnit::Day,
        _ => SqlUnit::Other,
    }
}

} // verus!
