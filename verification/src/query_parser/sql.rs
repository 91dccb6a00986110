//! SQL queries as relational queries.
//!
//! Only relational operators come out; aggregates are turned into sketches
//! afterwards.
use vstd::prelude::*;
use vstd::string::*;

use crate::algebra::expr;
use crate::algebra::expr::{
    AggFunc, AggFuncView, AggItem, AggItemView, BinaryOpKind, ColumnRef, ColumnView, JoinKind,
    LiteralValue, LiteralView, ProjectItem, ProjectView, QueryExpr, QueryView, ScalarExpr,
    ScalarView, SetOpKind, SortKey, SortKeyView, SourceSpec,
};
use crate::algebra::render;
use crate::query_parser::promql;
use crate::query_parser::sql_ast;
use crate::query_parser::sql_ast::{
    SqlArg, SqlArgView, SqlArgs, SqlArgsView, SqlBody, SqlBodyView, SqlConstraint,
    SqlConstraintView, SqlDirection, SqlDuplicates, SqlExpr, SqlExprView, SqlGroupBy,
    SqlGroupByView, SqlItem, SqlItemView, SqlJoinOp, SqlJoinOpView, SqlLimit, SqlLimitView, SqlOp,
    SqlOrder, SqlOrderBy, SqlOrderByView, SqlOrderView, SqlQuantifier, SqlQuery, SqlQueryView,
    SqlSelect, SqlSelectView, SqlSetOp, SqlStatement, SqlStatementView, SqlTable, SqlTableView,
    SqlUnit, SqlValue, SqlValueView,
};
use crate::query_parser::sql_number;
use crate::text;
use crate::text_order;
use crate::types::Duration;

verus! {

// ── Letter case ───────────────────────────────────────────────────────────────

/// A text in upper case, as the standard library maps Unicode letters.
pub uninterp spec fn upper_case(s: Seq<char>) -> Seq<char>;

/// `str::to_uppercase`: the text with every letter mapped to upper case. The
/// mapping is Unicode's and is not stated; it depends on the text alone.
#[verifier::external_body]
fn to_upper(s: &str) -> (r: String)
    ensures
        r@ == upper_case(s@),
{
    s.to_uppercase()
}

/// A text in lower case, as the standard library maps Unicode letters.
pub uninterp spec fn lower_case(s: Seq<char>) -> Seq<char>;

/// `str::to_lowercase`: the text with every letter mapped to lower case. The
/// mapping is Unicode's and is not stated; it depends on the text alone.
#[verifier::external_body]
fn to_lower(s: &str) -> (r: String)
    ensures
        r@ == lower_case(s@),
{
    s.to_lowercase()
}

// ── Names ─────────────────────────────────────────────────────────────────────

/// The last part of a dotted name; nothing if it is no identifier.
pub open spec fn last_part(name: Seq<Option<Seq<char>>>) -> Seq<char> {
    if name.len() == 0 {
        Seq::empty()
    } else {
        match name[name.len() - 1] {
            Some(s) => s,
            None => Seq::empty(),
        }
    }
}

fn last_name(name: &Vec<Option<String>>) -> (r: String)
    ensures
        r@ == last_part(sql_ast::parts_view(name@)),
{
    let none = String::new();
    assert(none@ =~= Seq::<char>::empty());
    if name.len() == 0 {
        return none;
    }
    assert(sql_ast::parts_view(name@)[name@.len() - 1] == text::opt_text(
        name@[name@.len() - 1],
    ));
    match &name[name.len() - 1] {
        Some(s) => s.clone(),
        None => none,
    }
}

/// A dotted name as text; parts that are no identifiers are left empty.
pub open spec fn object_name(name: Seq<Option<Seq<char>>>) -> Seq<char> {
    text::joined(
        Seq::new(
            name.len(),
            |i: int|
                match name[i] {
                    Some(s) => s,
                    None => Seq::empty(),
                },
        ),
        "."@,
    )
}

fn object_name_str(name: &Vec<Option<String>>) -> (r: String)
    ensures
        r@ == object_name(sql_ast::parts_view(name@)),
{
    let ghost shown = sql_ast::parts_view(name@);
    let mut parts: Vec<String> = Vec::new();
    for i in 0..name.len()
        invariant
            shown == sql_ast::parts_view(name@),
            parts@.len() == i,
            forall|j: int|
                0 <= j < i ==> (#[trigger] parts@[j])@ == (match shown[j] {
                    Some(s) => s,
                    None => Seq::empty(),
                }),
    {
        assert(shown[i as int] == text::opt_text(name@[i as int]));
        match &name[i] {
            Some(s) => {
                parts.push(s.clone());
            },
            None => {
                let none = String::new();
                assert(none@ =~= Seq::<char>::empty());
                parts.push(none);
            },
        }
    }
    assert(text::texts(parts@) =~= Seq::new(
        shown.len(),
        |i: int|
            match shown[i] {
                Some(s) => s,
                None => Seq::empty(),
            },
    ));
    text::join(&parts, ".")
}

/// The column that an expression names.
pub open spec fn column_name(e: SqlExprView) -> Option<Seq<char>> {
    match e {
        SqlExprView::Identifier(s) => Some(s),
        SqlExprView::Compound(parts) => if parts.len() > 0 {
            Some(parts[parts.len() - 1])
        } else {
            None
        },
        _ => None,
    }
}

/// The column that an expression names.
pub fn expr_to_col_name(e: &SqlExpr) -> (r: Option<String>)
    ensures
        text::opt_text(r) == column_name(e@),
{
    match e {
        SqlExpr::Identifier(s) => Some(s.clone()),
        SqlExpr::Compound(parts) => {
            assert(text::texts(parts@).len() == parts@.len());
            if parts.len() > 0 {
                Some(parts[parts.len() - 1].clone())
            } else {
                None
            }
        },
        _ => None,
    }
}

// ── Scalars ───────────────────────────────────────────────────────────────────

/// The operator of the query algebra; equality for those that it does not have.
pub open spec fn op_of(op: SqlOp) -> BinaryOpKind {
    match op {
        SqlOp::Plus => BinaryOpKind::Add,
        SqlOp::Minus => BinaryOpKind::Sub,
        SqlOp::Multiply => BinaryOpKind::Mul,
        SqlOp::Divide => BinaryOpKind::Div,
        SqlOp::Modulo => BinaryOpKind::Mod,
        SqlOp::Eq => BinaryOpKind::Eq,
        SqlOp::NotEq => BinaryOpKind::Ne,
        SqlOp::Lt => BinaryOpKind::Lt,
        SqlOp::LtEq => BinaryOpKind::Le,
        SqlOp::Gt => BinaryOpKind::Gt,
        SqlOp::GtEq => BinaryOpKind::Ge,
        SqlOp::And => BinaryOpKind::And,
        SqlOp::Or => BinaryOpKind::Or,
        SqlOp::BitwiseAnd => BinaryOpKind::BitAnd,
        SqlOp::BitwiseOr => BinaryOpKind::BitOr,
        SqlOp::BitwiseXor => BinaryOpKind::BitXor,
        SqlOp::StringConcat => BinaryOpKind::Concat,
        SqlOp::Other => BinaryOpKind::Eq,
    }
}

/// The operator of the query algebra; equality for those that it does not have.
pub fn sql_binop_to_algebra(op: SqlOp) -> (r: BinaryOpKind)
    ensures
        r == op_of(op),
{
    match op {
        SqlOp::Plus => BinaryOpKind::Add,
        SqlOp::Minus => BinaryOpKind::Sub,
        SqlOp::Multiply => BinaryOpKind::Mul,
        SqlOp::Divide => BinaryOpKind::Div,
        SqlOp::Modulo => BinaryOpKind::Mod,
        SqlOp::Eq => BinaryOpKind::Eq,
        SqlOp::NotEq => BinaryOpKind::Ne,
        SqlOp::Lt => BinaryOpKind::Lt,
        SqlOp::LtEq => BinaryOpKind::Le,
        SqlOp::Gt => BinaryOpKind::Gt,
        SqlOp::GtEq => BinaryOpKind::Ge,
        SqlOp::And => BinaryOpKind::And,
        SqlOp::Or => BinaryOpKind::Or,
        SqlOp::BitwiseAnd => BinaryOpKind::BitAnd,
        SqlOp::BitwiseOr => BinaryOpKind::BitOr,
        SqlOp::BitwiseXor => BinaryOpKind::BitXor,
        SqlOp::StringConcat => BinaryOpKind::Concat,
        SqlOp::Other => BinaryOpKind::Eq,
    }
}

/// A literal of the query algebra. Numbers are integers where they can be,
/// else decimals.
pub open spec fn literal_of(v: SqlValueView) -> LiteralView {
    match v {
        SqlValueView::SingleQuoted(s) => LiteralView::Str(s),
        SqlValueView::DoubleQuoted(s) => LiteralView::Str(s),
        SqlValueView::Number(n) => match text::i64_value(n) {
            Some(i) => LiteralView::Int(i),
            None => match sql_number::sql_number(n) {
                Some(d) => LiteralView::Float(d),
                None => LiteralView::Null,
            },
        },
        SqlValueView::Boolean(b) => LiteralView::Bool(b),
        SqlValueView::Null | SqlValueView::Other => LiteralView::Null,
    }
}

/// A literal of the query algebra.
pub fn sql_value_to_scalar(v: &SqlValue) -> (r: LiteralValue)
    ensures
        r@ == literal_of(v@),
{
    match v {
        SqlValue::SingleQuoted(s) => LiteralValue::Str(s.clone()),
        SqlValue::DoubleQuoted(s) => LiteralValue::Str(s.clone()),
        SqlValue::Number(n) => match text::parse_i64(n.as_str()) {
            Some(i) => LiteralValue::Int(i),
            None => match sql_number::read_number(n.as_str()) {
                Some(d) => LiteralValue::Float(d),
                None => LiteralValue::Null,
            },
        },
        SqlValue::Boolean(b) => LiteralValue::Bool(*b),
        SqlValue::Null | SqlValue::Other => LiteralValue::Null,
    }
}

/// A scalar expression of the query algebra; `?` for those that it does not
/// have.
pub open spec fn scalar_of(e: SqlExprView) -> ScalarView
    decreases e,
{
    match e {
        SqlExprView::Identifier(s) => ScalarView::Column(s),
        SqlExprView::Compound(parts) => ScalarView::Column(text::joined(parts, "."@)),
        SqlExprView::Value(v) => ScalarView::Literal(literal_of(v)),
        SqlExprView::Binary { left, op, right } => ScalarView::BinaryOp {
            op: op_of(op),
            lhs: Box::new(scalar_of(*left)),
            rhs: Box::new(scalar_of(*right)),
        },
        SqlExprView::IsNull(x) => ScalarView::IsNull {
            expr: Box::new(scalar_of(*x)),
            negated: false,
        },
        SqlExprView::IsNotNull(x) => ScalarView::IsNull {
            expr: Box::new(scalar_of(*x)),
            negated: true,
        },
        SqlExprView::Between { expr, negated, low, high } => ScalarView::Between {
            expr: Box::new(scalar_of(*expr)),
            low: Box::new(scalar_of(*low)),
            high: Box::new(scalar_of(*high)),
            negated,
        },
        SqlExprView::InList { expr, list, negated } => ScalarView::InList {
            expr: Box::new(scalar_of(*expr)),
            list: scalars_of(list),
            negated,
        },
        SqlExprView::Like { negated, expr, pattern } => ScalarView::BinaryOp {
            op: if negated {
                BinaryOpKind::NotLike
            } else {
                BinaryOpKind::Like
            },
            lhs: Box::new(scalar_of(*expr)),
            rhs: Box::new(scalar_of(*pattern)),
        },
        SqlExprView::Nested(x) => scalar_of(*x),
        SqlExprView::Function { name, .. } => ScalarView::FunctionCall {
            name: last_part(name),
            args: Seq::empty(),
        },
        SqlExprView::Interval { .. } | SqlExprView::Other => ScalarView::Column("?"@),
    }
}

/// The scalar expressions of a list.
pub open spec fn scalars_of(s: Seq<SqlExprView>) -> Seq<ScalarView>
    decreases s,
{
    Seq::new(
        s.len(),
        |i: int|
            if 0 <= i < s.len() {
                scalar_of(s[i])
            } else {
                arbitrary()
            },
    )
}

fn scalar_list(v: &Vec<SqlExpr>) -> (r: Vec<ScalarExpr>)
    ensures
        expr::scalars_view(r@) == scalars_of(sql_ast::sqls_view(v@)),
    decreases v,
{
    broadcast use sql_ast::group_sql_views;
    broadcast use expr::group_list_views;
    broadcast use vstd::std_specs::vec::axiom_vec_index_decreases;

    let ghost shown = sql_ast::sqls_view(v@);
    let mut out: Vec<ScalarExpr> = Vec::new();
    for i in 0..v.len()
        invariant
            shown == sql_ast::sqls_view(v@),
            out@.len() == i,
            forall|j: int| 0 <= j < i ==> expr::scalar_view(#[trigger] out@[j]) == scalar_of(shown[j]),
    {
        broadcast use sql_ast::group_sql_views;

        assert(decreases_to!(*v => v[i as int]));
        assert(shown[i as int] == sql_ast::sql_view(v@[i as int]));
        out.push(sql_expr_to_scalar(&v[i]));
    }
    assert(expr::scalars_view(out@) =~= scalars_of(shown));
    out
}

/// A scalar expression of the query algebra.
pub fn sql_expr_to_scalar(e: &SqlExpr) -> (r: ScalarExpr)
    ensures
        r@ == scalar_of(e@),
    decreases e,
{
    match e {
        SqlExpr::Identifier(s) => ScalarExpr::Column(s.clone()),
        SqlExpr::Compound(parts) => ScalarExpr::Column(text::join(parts, ".")),
        SqlExpr::Value(v) => ScalarExpr::Literal(sql_value_to_scalar(v)),
        SqlExpr::Binary { left, op, right } => ScalarExpr::BinaryOp {
            op: sql_binop_to_algebra(*op),
            lhs: Box::new(sql_expr_to_scalar(left)),
            rhs: Box::new(sql_expr_to_scalar(right)),
        },
        SqlExpr::IsNull(x) => ScalarExpr::IsNull {
            expr: Box::new(sql_expr_to_scalar(x)),
            negated: false,
        },
        SqlExpr::IsNotNull(x) => ScalarExpr::IsNull {
            expr: Box::new(sql_expr_to_scalar(x)),
            negated: true,
        },
        SqlExpr::Between { expr, negated, low, high } => ScalarExpr::Between {
            expr: Box::new(sql_expr_to_scalar(expr)),
            low: Box::new(sql_expr_to_scalar(low)),
            high: Box::new(sql_expr_to_scalar(high)),
            negated: *negated,
        },
        SqlExpr::InList { expr, list, negated } => ScalarExpr::InList {
            expr: Box::new(sql_expr_to_scalar(expr)),
            list: scalar_list(list),
            negated: *negated,
        },
        SqlExpr::Like { negated, expr, pattern } => {
            let op = if *negated {
                BinaryOpKind::NotLike
            } else {
                BinaryOpKind::Like
            };
            ScalarExpr::BinaryOp {
                op,
                lhs: Box::new(sql_expr_to_scalar(expr)),
                rhs: Box::new(sql_expr_to_scalar(pattern)),
            }
        },
        SqlExpr::Nested(x) => sql_expr_to_scalar(x),
        SqlExpr::Function { name, .. } => {
            let args: Vec<ScalarExpr> = Vec::new();
            assert(expr::scalars_view(args@) =~= Seq::<ScalarView>::empty());
            ScalarExpr::FunctionCall { name: last_name(name), args }
        },
        SqlExpr::Interval { .. } | SqlExpr::Other => ScalarExpr::Column("?".to_owned()),
    }
}

/// The scalar expression of an optional clause.
pub open spec fn opt_scalar_of(e: Option<SqlExprView>) -> Option<ScalarView> {
    match e {
        Some(x) => Some(scalar_of(x)),
        None => None,
    }
}

fn opt_scalar(e: &Option<SqlExpr>) -> (r: Option<ScalarExpr>)
    ensures
        expr::opt_scalar_view(r) == opt_scalar_of(sql_ast::opt_sql(*e)),
{
    match e {
        Some(x) => Some(sql_expr_to_scalar(x)),
        None => None,
    }
}

/// The count that an expression writes.
pub open spec fn u64_of(e: SqlExprView) -> Option<u64> {
    match e {
        SqlExprView::Value(SqlValueView::Number(n)) => text::u64_value(n),
        _ => None,
    }
}

/// The count that an expression writes.
pub fn expr_to_u64(e: &SqlExpr) -> (r: Option<u64>)
    ensures
        r == u64_of(e@),
{
    match e {
        SqlExpr::Value(SqlValue::Number(n)) => text::parse_u64(n.as_str()),
        _ => None,
    }
}

// ── Aggregates ────────────────────────────────────────────────────────────────

/// The column that an aggregate reads: that of the first argument that names
/// one, else whole rows.
pub open spec fn first_col(args: Seq<SqlArgView>) -> ColumnView
    decreases args.len(),
{
    if args.len() == 0 {
        ColumnView::Wildcard
    } else {
        match args[0] {
            SqlArgView::Wildcard => ColumnView::Wildcard,
            SqlArgView::Expr(e) => match column_name(e) {
                Some(c) => ColumnView::Named(c),
                None => first_col(args.drop_first()),
            },
            SqlArgView::Other => first_col(args.drop_first()),
        }
    }
}

/// The column that an aggregate reads.
pub fn first_col_from_args(args: &Vec<SqlArg>) -> (r: ColumnRef)
    ensures
        r@ == first_col(sql_ast::arg_list_view(args@)),
{
    broadcast use sql_ast::group_sql_views;

    let ghost all = sql_ast::arg_list_view(args@);
    assert(all.skip(0) =~= all);
    for i in 0..args.len()
        invariant
            all == sql_ast::arg_list_view(args@),
            first_col(all) == first_col(all.skip(i as int)),
    {
        broadcast use sql_ast::group_sql_views;

        assert(all[i as int] == sql_ast::arg_view(args@[i as int]));
        assert(all.skip(i as int)[0] == all[i as int]);
        assert(all.skip(i as int).drop_first() =~= all.skip(i as int + 1));
        match &args[i] {
            SqlArg::Wildcard => {
                return ColumnRef::Wildcard;
            },
            SqlArg::Expr(e) => match expr_to_col_name(e) {
                Some(c) => {
                    return ColumnRef::Named(c);
                },
                None => {},
            },
            SqlArg::Other => {},
        }
    }
    assert(all.skip(all.len() as int).len() == 0);
    ColumnRef::Wildcard
}

/// The aggregate behind a function name in upper case.
pub open spec fn func_of(name: Seq<char>, distinct: bool) -> Option<AggFuncView> {
    if name == "COUNT"@ {
        if distinct {
            Some(AggFuncView::CountDistinct)
        } else {
            Some(AggFuncView::Count)
        }
    } else if name == "SUM"@ {
        Some(AggFuncView::Sum)
    } else if name == "AVG"@ {
        Some(AggFuncView::Avg)
    } else if name == "MIN"@ {
        Some(AggFuncView::Min)
    } else if name == "MAX"@ {
        Some(AggFuncView::Max)
    } else {
        None
    }
}

/// The aggregate behind a function name in upper case.
pub fn func_named(name: &str, distinct: bool) -> (r: Option<AggFunc>)
    ensures
        match r {
            Some(f) => func_of(name@, distinct) == Some(f@),
            None => func_of(name@, distinct) is None,
        },
{
    if text::same(name, "COUNT") {
        if distinct {
            Some(AggFunc::CountDistinct)
        } else {
            Some(AggFunc::Count)
        }
    } else if text::same(name, "SUM") {
        Some(AggFunc::Sum)
    } else if text::same(name, "AVG") {
        Some(AggFunc::Avg)
    } else if text::same(name, "MIN") {
        Some(AggFunc::Min)
    } else if text::same(name, "MAX") {
        Some(AggFunc::Max)
    } else {
        None
    }
}

/// The aggregate that a function call computes.
pub open spec fn called_agg(
    name: Seq<Option<Seq<char>>>,
    args: SqlArgsView,
    alias: Option<Seq<char>>,
) -> Seq<AggItemView> {
    let word = upper_case(last_part(name));
    let (distinct, list) = match args {
        SqlArgsView::List { duplicates, args } => (duplicates == SqlDuplicates::Distinct, args),
        SqlArgsView::Other => (false, Seq::empty()),
    };
    match func_of(word, distinct) {
        Some(func) => seq![
            AggItemView {
                alias: match alias {
                    Some(a) => a,
                    None => lower_case(word),
                },
                func,
                col: first_col(list),
                distinct,
            },
        ],
        None => Seq::empty(),
    }
}

/// The aggregates in an expression, left to right: those under binary operators
/// and parentheses.
pub open spec fn aggs_in(e: SqlExprView, alias: Option<Seq<char>>) -> Seq<AggItemView>
    decreases e,
{
    match e {
        SqlExprView::Function { name, args } => called_agg(name, args, alias),
        SqlExprView::Binary { left, right, .. } => aggs_in(*left, None) + aggs_in(*right, None),
        SqlExprView::Nested(x) => aggs_in(*x, alias),
        _ => Seq::empty(),
    }
}

fn push_called_agg(
    name: &Vec<Option<String>>,
    args: &SqlArgs,
    alias: Option<String>,
    out: &mut Vec<AggItem>,
)
    ensures
        expr::aggs_view(final(out)@) == expr::aggs_view(old(out)@) + called_agg(
            sql_ast::parts_view(name@),
            args@,
            text::opt_text(alias),
        ),
{
    let ghost before = expr::aggs_view(out@);
    let last = last_name(name);
    let word = to_upper(last.as_str());
    let none: Vec<SqlArg> = Vec::new();
    assert(sql_ast::arg_list_view(none@) =~= Seq::<SqlArgView>::empty());
    let (distinct, list) = match args {
        SqlArgs::List { duplicates, args } => (*duplicates == SqlDuplicates::Distinct, args),
        SqlArgs::Other => (false, &none),
    };
    match func_named(word.as_str(), distinct) {
        Some(func) => {
            let col = first_col_from_args(list);
            let label = match alias {
                Some(a) => a,
                None => to_lower(word.as_str()),
            };
            let item = AggItem { alias: label, func, col, distinct };
            let ghost shown = item@;
            out.push(item);
            assert(expr::aggs_view(out@) =~= before + seq![shown]);
        },
        None => {
            assert(expr::aggs_view(out@) =~= before + Seq::<AggItemView>::empty());
        },
    }
}

/// Append the aggregates in an expression.
pub fn collect_agg_from_expr_qe(e: &SqlExpr, alias: Option<String>, out: &mut Vec<AggItem>)
    ensures
        expr::aggs_view(final(out)@) == expr::aggs_view(old(out)@) + aggs_in(
            e@,
            text::opt_text(alias),
        ),
    decreases e,
{
    let ghost before = expr::aggs_view(out@);
    let ghost wanted = aggs_in(e@, text::opt_text(alias));
    match e {
        SqlExpr::Function { name, args } => push_called_agg(name, args, alias, out),
        SqlExpr::Binary { left, right, .. } => {
            collect_agg_from_expr_qe(left, None, out);
            collect_agg_from_expr_qe(right, None, out);
        },
        SqlExpr::Nested(x) => collect_agg_from_expr_qe(x, alias, out),
        _ => {},
    }
    assert(expr::aggs_view(out@) =~= before + wanted);
}

/// The aggregates of an item of a projection.
pub open spec fn item_aggs(i: SqlItemView) -> Seq<AggItemView> {
    match i {
        SqlItemView::Expr(e) => aggs_in(e, None),
        SqlItemView::Alias { expr, alias } => aggs_in(expr, Some(alias)),
        _ => Seq::empty(),
    }
}

/// The aggregates of a projection.
pub open spec fn projected_aggs(s: Seq<SqlItemView>) -> Seq<AggItemView>
    decreases s.len(),
{
    if s.len() == 0 {
        Seq::empty()
    } else {
        projected_aggs(s.drop_last()) + item_aggs(s.last())
    }
}

/// The aggregates of a projection.
pub fn collect_agg_items_qe(projection: &Vec<SqlItem>) -> (r: Vec<AggItem>)
    ensures
        expr::aggs_view(r@) == projected_aggs(sql_ast::items_view(projection@)),
{
    let ghost shown = sql_ast::items_view(projection@);
    let mut out: Vec<AggItem> = Vec::new();
    assert(expr::aggs_view(out@) =~= Seq::<AggItemView>::empty());
    for i in 0..projection.len()
        invariant
            shown == sql_ast::items_view(projection@),
            expr::aggs_view(out@) == projected_aggs(shown.take(i as int)),
    {
        let ghost before = expr::aggs_view(out@);
        assert(shown.take(i as int + 1).drop_last() =~= shown.take(i as int));
        assert(shown[i as int] == projection@[i as int]@);
        match &projection[i] {
            SqlItem::Expr(e) => collect_agg_from_expr_qe(e, None, &mut out),
            SqlItem::Alias { expr, alias } => collect_agg_from_expr_qe(
                expr,
                Some(alias.clone()),
                &mut out,
            ),
            _ => {
                assert(before + Seq::<AggItemView>::empty() =~= before);
            },
        }
    }
    assert(shown.take(projection@.len() as int) =~= shown);
    out
}

/// The projected column of an item of a projection.
pub open spec fn item_column(i: SqlItemView) -> Option<ProjectView> {
    match i {
        SqlItemView::Expr(e) => Some(ProjectView { alias: None, expr: scalar_of(e) }),
        SqlItemView::Alias { expr, alias } => Some(
            ProjectView { alias: Some(alias), expr: scalar_of(expr) },
        ),
        SqlItemView::Wildcard => Some(ProjectView { alias: None, expr: ScalarView::Column("*"@) }),
        SqlItemView::Other => None,
    }
}

/// The projected columns of a projection.
pub open spec fn projected_columns(s: Seq<SqlItemView>) -> Seq<ProjectView>
    decreases s.len(),
{
    if s.len() == 0 {
        Seq::empty()
    } else {
        match item_column(s.last()) {
            Some(c) => projected_columns(s.drop_last()).push(c),
            None => projected_columns(s.drop_last()),
        }
    }
}

fn project_item(alias: Option<String>, expr: ScalarExpr) -> (r: ProjectItem)
    ensures
        expr::project_view(r) == (ProjectView { alias: text::opt_text(alias), expr: expr@ }),
{
    ProjectItem { alias, expr }
}

/// The projected columns of a projection.
pub fn collect_project_items(projection: &Vec<SqlItem>) -> (r: Vec<ProjectItem>)
    ensures
        expr::projects_view(r@) == projected_columns(sql_ast::items_view(projection@)),
{
    broadcast use expr::group_list_views;

    let ghost shown = sql_ast::items_view(projection@);
    let mut out: Vec<ProjectItem> = Vec::new();
    assert(expr::projects_view(out@) =~= Seq::<ProjectView>::empty());
    for i in 0..projection.len()
        invariant
            shown == sql_ast::items_view(projection@),
            expr::projects_view(out@) == projected_columns(shown.take(i as int)),
    {
        broadcast use expr::group_list_views;

        let ghost before = expr::projects_view(out@);
        let ghost held = out@;
        assert(shown.take(i as int + 1).drop_last() =~= shown.take(i as int));
        assert(shown[i as int] == projection@[i as int]@);
        let item = match &projection[i] {
            SqlItem::Expr(e) => Some(project_item(None, sql_expr_to_scalar(e))),
            SqlItem::Alias { expr, alias } => Some(
                project_item(Some(alias.clone()), sql_expr_to_scalar(expr)),
            ),
            SqlItem::Wildcard => Some(project_item(None, ScalarExpr::Column("*".to_owned()))),
            SqlItem::Other => None,
        };
        match item {
            Some(p) => {
                let ghost added = expr::project_view(p);
                out.push(p);
                assert(expr::projects_view(out@) =~= before.push(added));
            },
            None => {},
        }
    }
    assert(shown.take(projection@.len() as int) =~= shown);
    out
}

// ── Grouping ──────────────────────────────────────────────────────────────────

/// The columns that a query groups by; function calls are left out.
pub open spec fn group_keys(s: Seq<SqlExprView>) -> Seq<Seq<char>>
    decreases s.len(),
{
    if s.len() == 0 {
        Seq::empty()
    } else {
        match column_name(s.last()) {
            Some(c) => group_keys(s.drop_last()).push(c),
            None => group_keys(s.drop_last()),
        }
    }
}

/// The columns that a `GROUP BY` clause names.
pub open spec fn grouped_by(g: SqlGroupByView) -> Seq<Seq<char>> {
    match g {
        SqlGroupByView::All => Seq::empty(),
        SqlGroupByView::Exprs(es) => group_keys(es),
    }
}

/// The columns that a `GROUP BY` clause names.
pub fn extract_group_by(g: &SqlGroupBy) -> (r: Vec<String>)
    ensures
        text::texts(r@) == grouped_by(g@),
{
    broadcast use sql_ast::group_sql_views;

    let mut out: Vec<String> = Vec::new();
    assert(text::texts(out@) =~= Seq::<Seq<char>>::empty());
    match g {
        SqlGroupBy::All => {},
        SqlGroupBy::Exprs(es) => {
            let ghost shown = sql_ast::sqls_view(es@);
            for i in 0..es.len()
                invariant
                    shown == sql_ast::sqls_view(es@),
                    text::texts(out@) == group_keys(shown.take(i as int)),
            {
                broadcast use sql_ast::group_sql_views;

                let ghost before = text::texts(out@);
                assert(shown.take(i as int + 1).drop_last() =~= shown.take(i as int));
                assert(shown[i as int] == sql_ast::sql_view(es@[i as int]));
                match expr_to_col_name(&es[i]) {
                    Some(c) => {
                        let ghost added = c@;
                        out.push(c);
                        assert(text::texts(out@) =~= before.push(added));
                    },
                    None => {},
                }
            }
            assert(shown.take(es@.len() as int) =~= shown);
        },
    }
    out
}

// ── Durations ─────────────────────────────────────────────────────────────────

/// A span of `n` units of so many seconds; `None` where the seconds do not fit.
pub open spec fn span(n: u64, unit: u64) -> Option<Duration> {
    if n * unit > u64::MAX {
        None
    } else {
        Some(Duration::of_secs((n * unit) as u64))
    }
}

fn span_of(n: u64, unit: u64) -> (r: Option<Duration>)
    ensures
        r == span(n, unit),
{
    assert(n * unit >= 0) by (nonlinear_arith)
        requires
            n >= 0,
            unit >= 0,
    ;
    match n.checked_mul(unit) {
        Some(secs) => Some(Duration::from_secs(secs)),
        None => None,
    }
}

/// The number before a unit at the end of a text, and the seconds in the unit.
pub open spec fn unit_split(s: Seq<char>) -> Option<(Seq<char>, u64)> {
    if text::has_suffix(s, "minutes"@) {
        Some((text::drop_suffix(s, "minutes"@), 60))
    } else if text::has_suffix(s, "minute"@) {
        Some((text::drop_suffix(s, "minute"@), 60))
    } else if text::has_suffix(s, "min"@) {
        Some((text::drop_suffix(s, "min"@), 60))
    } else if text::has_suffix(s, "hours"@) {
        Some((text::drop_suffix(s, "hours"@), 3600))
    } else if text::has_suffix(s, "hour"@) {
        Some((text::drop_suffix(s, "hour"@), 3600))
    } else if text::has_suffix(s, "h"@) {
        Some((text::drop_suffix(s, "h"@), 3600))
    } else if text::has_suffix(s, "seconds"@) {
        Some((text::drop_suffix(s, "seconds"@), 1))
    } else if text::has_suffix(s, "second"@) {
        Some((text::drop_suffix(s, "second"@), 1))
    } else if text::has_suffix(s, "s"@) {
        Some((text::drop_suffix(s, "s"@), 1))
    } else if text::has_suffix(s, "m"@) {
        Some((text::drop_suffix(s, "m"@), 60))
    } else {
        None
    }
}

fn split_unit(s: &str) -> (r: Option<(String, u64)>)
    ensures
        match r {
            Some((n, unit)) => unit_split(s@) == Some((n@, unit)),
            None => unit_split(s@) is None,
        },
{
    if let Some(n) = text::strip_suffix(s, "minutes") {
        Some((n, 60))
    } else if let Some(n) = text::strip_suffix(s, "minute") {
        Some((n, 60))
    } else if let Some(n) = text::strip_suffix(s, "min") {
        Some((n, 60))
    } else if let Some(n) = text::strip_suffix(s, "hours") {
        Some((n, 3600))
    } else if let Some(n) = text::strip_suffix(s, "hour") {
        Some((n, 3600))
    } else if let Some(n) = text::strip_suffix(s, "h") {
        Some((n, 3600))
    } else if let Some(n) = text::strip_suffix(s, "seconds") {
        Some((n, 1))
    } else if let Some(n) = text::strip_suffix(s, "second") {
        Some((n, 1))
    } else if let Some(n) = text::strip_suffix(s, "s") {
        Some((n, 1))
    } else if let Some(n) = text::strip_suffix(s, "m") {
        Some((n, 60))
    } else {
        None
    }
}

/// The span that a text such as `5 minutes` or `30s` writes.
pub open spec fn worded_span(s: Seq<char>) -> Option<Duration> {
    spelled_span(lower_case(text_order::trimmed(s)))
}

/// The span that a text in lower case writes.
pub open spec fn spelled_span(s: Seq<char>) -> Option<Duration> {
    match unit_split(s) {
        Some((n, unit)) => match text::u64_value(text_order::trimmed(n)) {
            Some(k) => span(k, unit),
            None => None,
        },
        None => None,
    }
}

/// The span that a text in lower case writes.
pub fn read_span(s: &str) -> (r: Option<Duration>)
    ensures
        r == spelled_span(s@),
{
    match split_unit(s) {
        Some((n, unit)) => match text::parse_u64(text_order::trim(n.as_str()).as_str()) {
            Some(k) => span_of(k, unit),
            None => None,
        },
        None => None,
    }
}

/// The span that a text such as `5 minutes` or `30s` writes.
pub fn parse_duration_string(s: &str) -> (r: Option<Duration>)
    ensures
        r == worded_span(s@),
{
    read_span(to_lower(text_order::trim(s).as_str()).as_str())
}

/// The seconds in a unit of an interval.
pub open spec fn unit_secs(unit: SqlUnit) -> Option<u64> {
    match unit {
        SqlUnit::Second => Some(1),
        SqlUnit::Minute => Some(60),
        SqlUnit::Hour => Some(3600),
        SqlUnit::Day => Some(86400),
        SqlUnit::Other => None,
    }
}

/// The number that an interval counts, as text.
pub open spec fn interval_count(value: SqlExprView) -> Option<Seq<char>> {
    match value {
        SqlExprView::Value(SqlValueView::SingleQuoted(s)) => Some(s),
        SqlExprView::Value(SqlValueView::DoubleQuoted(s)) => Some(s),
        SqlExprView::Value(SqlValueView::Number(s)) => Some(s),
        _ => None,
    }
}

/// The span of an interval.
pub open spec fn interval_span(value: SqlExprView, unit: Option<SqlUnit>) -> Option<Duration> {
    match interval_count(value) {
        None => None,
        Some(s) => match text::u64_value(text_order::trimmed(s)) {
            None => None,
            Some(n) => match unit {
                None => None,
                Some(u) => match unit_secs(u) {
                    None => None,
                    Some(secs) => span(n, secs),
                },
            },
        },
    }
}

/// The span that an expression writes: an interval, or a quoted text.
pub open spec fn span_in(e: SqlExprView) -> Option<Duration> {
    match e {
        SqlExprView::Interval { value, unit } => interval_span(*value, unit),
        SqlExprView::Value(SqlValueView::SingleQuoted(s)) => worded_span(s),
        SqlExprView::Value(SqlValueView::DoubleQuoted(s)) => worded_span(s),
        _ => None,
    }
}

fn read_interval(value: &SqlExpr, unit: &Option<SqlUnit>) -> (r: Option<Duration>)
    ensures
        r == interval_span(value@, *unit),
{
    let count = match value {
        SqlExpr::Value(SqlValue::SingleQuoted(s)) => s,
        SqlExpr::Value(SqlValue::DoubleQuoted(s)) => s,
        SqlExpr::Value(SqlValue::Number(s)) => s,
        _ => {
            return None;
        },
    };
    let n: u64 = match text::parse_u64(text_order::trim(count.as_str()).as_str()) {
        Some(n) => n,
        None => {
            return None;
        },
    };
    match unit {
        Some(SqlUnit::Second) => span_of(n, 1),
        Some(SqlUnit::Minute) => span_of(n, 60),
        Some(SqlUnit::Hour) => span_of(n, 3600),
        Some(SqlUnit::Day) => span_of(n, 86400),
        Some(SqlUnit::Other) => None,
        None => None,
    }
}

/// The span that an expression writes.
pub fn expr_to_duration(e: &SqlExpr) -> (r: Option<Duration>)
    ensures
        r == span_in(e@),
{
    match e {
        SqlExpr::Interval { value, unit } => read_interval(value, unit),
        SqlExpr::Value(SqlValue::SingleQuoted(s)) => parse_duration_string(s.as_str()),
        SqlExpr::Value(SqlValue::DoubleQuoted(s)) => parse_duration_string(s.as_str()),
        _ => None,
    }
}

/// The span that an argument writes.
pub open spec fn arg_span(a: SqlArgView) -> Option<Duration> {
    match a {
        SqlArgView::Expr(e) => span_in(e),
        _ => None,
    }
}

fn func_arg_to_duration(a: &SqlArg) -> (r: Option<Duration>)
    ensures
        r == arg_span(a@),
{
    match a {
        SqlArg::Expr(e) => expr_to_duration(e),
        _ => None,
    }
}

/// The column that an argument names.
pub open spec fn arg_column(a: SqlArgView) -> Option<Seq<char>> {
    match a {
        SqlArgView::Expr(e) => column_name(e),
        _ => None,
    }
}

fn func_arg_to_col_name(a: &SqlArg) -> (r: Option<String>)
    ensures
        text::opt_text(r) == arg_column(a@),
{
    match a {
        SqlArg::Expr(e) => expr_to_col_name(e),
        _ => None,
    }
}

// ── Windows ───────────────────────────────────────────────────────────────────

/// A window in a `GROUP BY` clause.
#[derive(Debug)]
pub struct SqlWindowSpec {
    pub size: Duration,
    pub slide: Option<Duration>,
    pub time_col: Option<String>,
}

/// What [`SqlWindowSpec`] holds.
#[verifier::ext_equal]
pub struct SqlWindowView {
    pub size: Duration,
    pub slide: Option<Duration>,
    pub time_col: Option<Seq<char>>,
}

impl View for SqlWindowSpec {
    type V = SqlWindowView;

    open spec fn view(&self) -> SqlWindowView {
        SqlWindowView {
            size: self.size,
            slide: self.slide,
            time_col: text::opt_text(self.time_col),
        }
    }
}

/// What a call in a `GROUP BY` clause says of the window.
pub enum WindowCall {
    /// It is no window.
    Different,
    /// It is a window whose spans cannot be read.
    Unreadable,
    /// It is a window.
    Window(SqlWindowView),
}

/// The window that a call in a `GROUP BY` clause asks for, by its name in upper
/// case: `TUMBLE(ts, size)`, `HOP(ts, slide, size)` or `TIME_BUCKET(size, ts)`.
pub open spec fn window_call(name: Seq<char>, args: Seq<SqlArgView>) -> WindowCall {
    if name == "TUMBLE"@ && args.len() >= 2 {
        match arg_span(args[1]) {
            Some(size) => WindowCall::Window(
                SqlWindowView { size, slide: None, time_col: arg_column(args[0]) },
            ),
            None => WindowCall::Unreadable,
        }
    } else if name == "HOP"@ && args.len() >= 3 {
        match (arg_span(args[1]), arg_span(args[2])) {
            (Some(slide), Some(size)) => WindowCall::Window(
                SqlWindowView { size, slide: Some(slide), time_col: arg_column(args[0]) },
            ),
            _ => WindowCall::Unreadable,
        }
    } else if name == "TIME_BUCKET"@ && args.len() >= 2 {
        match arg_span(args[0]) {
            Some(size) => WindowCall::Window(
                SqlWindowView { size, slide: None, time_col: arg_column(args[1]) },
            ),
            None => WindowCall::Unreadable,
        }
    } else {
        WindowCall::Different
    }
}

/// The first window among expressions; none if its spans cannot be read.
pub open spec fn window_among(s: Seq<SqlExprView>) -> Option<SqlWindowView>
    decreases s.len(),
{
    if s.len() == 0 {
        None
    } else {
        match s[0] {
            SqlExprView::Function { name, args: SqlArgsView::List { args, .. } } => match window_call(
                upper_case(last_part(name)),
                args,
            ) {
                WindowCall::Window(w) => Some(w),
                WindowCall::Unreadable => None,
                WindowCall::Different => window_among(s.drop_first()),
            },
            _ => window_among(s.drop_first()),
        }
    }
}

/// The window of a `GROUP BY` clause.
pub open spec fn group_window(g: SqlGroupByView) -> Option<SqlWindowView> {
    match g {
        SqlGroupByView::All => None,
        SqlGroupByView::Exprs(es) => window_among(es),
    }
}

/// What reading a call as a window gave.
#[derive(Debug)]
pub enum ReadCall {
    Different,
    Unreadable,
    Window(SqlWindowSpec),
}

/// Whether reading a call gave what [`window_call`] says.
pub open spec fn read_as(r: ReadCall, want: WindowCall) -> bool {
    match (r, want) {
        (ReadCall::Different, WindowCall::Different) => true,
        (ReadCall::Unreadable, WindowCall::Unreadable) => true,
        (ReadCall::Window(w), WindowCall::Window(v)) => w@ == v,
        _ => false,
    }
}

/// The window that a call in a `GROUP BY` clause asks for, by its name in upper
/// case.
pub fn read_window_call(name: &str, args: &Vec<SqlArg>) -> (r: ReadCall)
    ensures
        read_as(r, window_call(name@, sql_ast::arg_list_view(args@))),
{
    broadcast use sql_ast::group_sql_views;

    let ghost shown = sql_ast::arg_list_view(args@);
    if text::same(name, "TUMBLE") && args.len() >= 2 {
        assert(shown[0] == sql_ast::arg_view(args@[0]));
        assert(shown[1] == sql_ast::arg_view(args@[1]));
        let time_col = func_arg_to_col_name(&args[0]);
        match func_arg_to_duration(&args[1]) {
            Some(size) => ReadCall::Window(SqlWindowSpec { size, slide: None, time_col }),
            None => ReadCall::Unreadable,
        }
    } else if text::same(name, "HOP") && args.len() >= 3 {
        assert(shown[0] == sql_ast::arg_view(args@[0]));
        assert(shown[1] == sql_ast::arg_view(args@[1]));
        assert(shown[2] == sql_ast::arg_view(args@[2]));
        let time_col = func_arg_to_col_name(&args[0]);
        match (func_arg_to_duration(&args[1]), func_arg_to_duration(&args[2])) {
            (Some(slide), Some(size)) => ReadCall::Window(
                SqlWindowSpec { size, slide: Some(slide), time_col },
            ),
            _ => ReadCall::Unreadable,
        }
    } else if text::same(name, "TIME_BUCKET") && args.len() >= 2 {
        assert(shown[0] == sql_ast::arg_view(args@[0]));
        assert(shown[1] == sql_ast::arg_view(args@[1]));
        let time_col = func_arg_to_col_name(&args[1]);
        match func_arg_to_duration(&args[0]) {
            Some(size) => ReadCall::Window(SqlWindowSpec { size, slide: None, time_col }),
            None => ReadCall::Unreadable,
        }
    } else {
        ReadCall::Different
    }
}

/// The window of a `GROUP BY` clause.
pub fn extract_group_by_window(g: &SqlGroupBy) -> (r: Option<SqlWindowSpec>)
    ensures
        match r {
            Some(w) => group_window(g@) == Some(w@),
            None => group_window(g@) is None,
        },
{
    broadcast use sql_ast::group_sql_views;

    match g {
        SqlGroupBy::All => None,
        SqlGroupBy::Exprs(es) => {
            let ghost all = sql_ast::sqls_view(es@);
            assert(all.skip(0) =~= all);
            for i in 0..es.len()
                invariant
                    all == sql_ast::sqls_view(es@),
                    g@ == SqlGroupByView::Exprs(all),
                    window_among(all) == window_among(all.skip(i as int)),
            {
                broadcast use sql_ast::group_sql_views;

                proof {
                    reveal_with_fuel(sql_ast::sql_view, 2);
                    assert(all[i as int] == sql_ast::sql_view(es@[i as int]));
                    assert(all.skip(i as int)[0] == all[i as int]);
                    assert(all.skip(i as int).drop_first() =~= all.skip(i as int + 1));
                }
                if let SqlExpr::Function { name, args: SqlArgs::List { args, .. } } = &es[i] {
                    let last = last_name(name);
                    let word = to_upper(last.as_str());
                    match read_window_call(word.as_str(), args) {
                        ReadCall::Window(w) => {
                            return Some(w);
                        },
                        ReadCall::Unreadable => {
                            return None;
                        },
                        ReadCall::Different => {},
                    }
                }
            }
            assert(all.skip(all.len() as int).len() == 0);
            None
        },
    }
}

// ── Tables and joins ──────────────────────────────────────────────────────────

/// The name of the table that a query reads.
pub open spec fn table_name(s: SqlSelectView) -> Option<Seq<char>> {
    if s.from.len() == 0 {
        None
    } else {
        match s.from[0].table {
            SqlTableView::Named(parts) => Some(object_name(parts)),
            SqlTableView::Other => None,
        }
    }
}

/// The name of the table that a query reads.
pub fn extract_table_name(s: &SqlSelect) -> (r: Option<String>)
    ensures
        text::opt_text(r) == table_name(s@),
{
    if s.from.len() == 0 {
        return None;
    }
    assert(s@.from[0] == s.from@[0]@);
    match &s.from[0].table {
        SqlTable::Named(parts) => Some(object_name_str(parts)),
        SqlTable::Other => None,
    }
}

/// The predicate of a join condition.
pub open spec fn constraint_pred(c: SqlConstraintView) -> Option<ScalarView> {
    match c {
        SqlConstraintView::On(e) => Some(scalar_of(e)),
        SqlConstraintView::Other => None,
    }
}

fn join_constraint_to_scalar(c: &SqlConstraint) -> (r: Option<ScalarExpr>)
    ensures
        expr::opt_scalar_view(r) == constraint_pred(c@),
{
    match c {
        SqlConstraint::On(e) => Some(sql_expr_to_scalar(e)),
        SqlConstraint::Other => None,
    }
}

/// The kind and predicate of a join; none for joins that are not supported.
pub open spec fn join_kind(op: SqlJoinOpView) -> Option<(JoinKind, Option<ScalarView>)> {
    match op {
        SqlJoinOpView::Plain(c) | SqlJoinOpView::Inner(c) => Some(
            (JoinKind::Inner, constraint_pred(c)),
        ),
        SqlJoinOpView::Left(c) | SqlJoinOpView::LeftOuter(c) => Some(
            (JoinKind::LeftOuter, constraint_pred(c)),
        ),
        SqlJoinOpView::Right(c) | SqlJoinOpView::RightOuter(c) => Some(
            (JoinKind::RightOuter, constraint_pred(c)),
        ),
        SqlJoinOpView::FullOuter(c) => Some((JoinKind::FullOuter, constraint_pred(c))),
        SqlJoinOpView::Cross => Some((JoinKind::Cross, None)),
        SqlJoinOpView::Other => None,
    }
}

/// The first join of a query: table, kind and predicate.
pub open spec fn first_join(s: SqlSelectView) -> Option<(Seq<char>, JoinKind, Option<ScalarView>)> {
    if s.from.len() == 0 || s.from[0].joins.len() == 0 {
        None
    } else {
        let j = s.from[0].joins[0];
        match (j.table, join_kind(j.op)) {
            (SqlTableView::Named(parts), Some((kind, pred))) => Some(
                (object_name(parts), kind, pred),
            ),
            _ => None,
        }
    }
}

/// The first join of a query: table, kind and predicate.
pub fn extract_join_qe(s: &SqlSelect) -> (r: Option<(String, JoinKind, Option<ScalarExpr>)>)
    ensures
        match r {
            Some((t, k, p)) => first_join(s@) == Some((t@, k, expr::opt_scalar_view(p))),
            None => first_join(s@) is None,
        },
{
    if s.from.len() == 0 {
        return None;
    }
    assert(s@.from[0] == s.from@[0]@);
    if s.from[0].joins.len() == 0 {
        return None;
    }
    assert(s@.from[0].joins[0] == s.from@[0].joins@[0]@);
    let join = &s.from[0].joins[0];
    let table = match &join.table {
        SqlTable::Named(parts) => object_name_str(parts),
        SqlTable::Other => {
            return None;
        },
    };
    let nothing: Option<ScalarExpr> = None;
    assert(expr::opt_scalar_view(nothing) is None);
    match &join.op {
        SqlJoinOp::Plain(c) | SqlJoinOp::Inner(c) => Some(
            (table, JoinKind::Inner, join_constraint_to_scalar(c)),
        ),
        SqlJoinOp::Left(c) | SqlJoinOp::LeftOuter(c) => Some(
            (table, JoinKind::LeftOuter, join_constraint_to_scalar(c)),
        ),
        SqlJoinOp::Right(c) | SqlJoinOp::RightOuter(c) => Some(
            (table, JoinKind::RightOuter, join_constraint_to_scalar(c)),
        ),
        SqlJoinOp::FullOuter(c) => Some((table, JoinKind::FullOuter, join_constraint_to_scalar(c))),
        SqlJoinOp::Cross => Some((table, JoinKind::Cross, nothing)),
        SqlJoinOp::Other => None,
    }
}

// ── Selects ───────────────────────────────────────────────────────────────────

/// The table of a `SELECT`, filtered by its `WHERE` clause.
pub open spec fn filtered_table(s: SqlSelectView, table: Seq<char>) -> QueryView {
    match s.selection {
        Some(p) => QueryView::Filter {
            pred: scalar_of(p),
            input: Box::new(QueryView::Source(table)),
        },
        None => QueryView::Source(table),
    }
}

fn build_filtered(s: &SqlSelect, table: String) -> (r: QueryExpr)
    ensures
        r@ == filtered_table(s@, table@),
{
    let source = QueryExpr::Source(SourceSpec { name: table });
    assert(source@ == QueryView::Source(table@));
    match &s.selection {
        Some(p) => QueryExpr::Filter { pred: sql_expr_to_scalar(p), input: Box::new(source) },
        None => source,
    }
}

/// The filtered table of a `SELECT`, joined with the first table it joins.
pub open spec fn joined_table(s: SqlSelectView, table: Seq<char>) -> QueryView {
    match first_join(s) {
        Some((inner, kind, pred)) => QueryView::Join {
            kind,
            pred,
            left: Box::new(filtered_table(s, table)),
            right: Box::new(QueryView::Source(inner)),
        },
        None => filtered_table(s, table),
    }
}

fn build_joined(s: &SqlSelect, table: String) -> (r: QueryExpr)
    ensures
        r@ == joined_table(s@, table@),
{
    let filtered = build_filtered(s, table);
    match extract_join_qe(s) {
        Some((inner, kind, pred)) => {
            let right = QueryExpr::Source(SourceSpec { name: inner });
            assert(right@ == QueryView::Source(inner@));
            QueryExpr::Join { kind, pred, left: Box::new(filtered), right: Box::new(right) }
        },
        None => filtered,
    }
}

/// What a `SELECT` aggregates: its filtered, joined and windowed table.
pub open spec fn select_input(s: SqlSelectView, table: Seq<char>) -> QueryView {
    match group_window(s.group_by) {
        Some(w) => QueryView::Window {
            duration: w.size,
            slide: w.slide,
            input: Box::new(joined_table(s, table)),
        },
        None => joined_table(s, table),
    }
}

fn build_input(s: &SqlSelect, table: String) -> (r: QueryExpr)
    ensures
        r@ == select_input(s@, table@),
{
    let joined = build_joined(s, table);
    match extract_group_by_window(&s.group_by) {
        Some(w) => QueryExpr::Window { duration: w.size, slide: w.slide, input: Box::new(joined) },
        None => joined,
    }
}

/// What a `SELECT` puts out before sorting: aggregates, or else its projection.
pub open spec fn select_output(s: SqlSelectView, table: Seq<char>) -> QueryView {
    let aggs = projected_aggs(s.projection);
    if aggs.len() == 0 {
        QueryView::Project {
            cols: projected_columns(s.projection),
            input: Box::new(select_input(s, table)),
        }
    } else {
        QueryView::Aggregate {
            keys: grouped_by(s.group_by),
            aggs,
            having: opt_scalar_of(s.having),
            input: Box::new(select_input(s, table)),
        }
    }
}

fn build_output(s: &SqlSelect, table: String) -> (r: QueryExpr)
    ensures
        r@ == select_output(s@, table@),
{
    let aggs = collect_agg_items_qe(&s.projection);
    assert(expr::aggs_view(aggs@).len() == aggs@.len());
    let input = build_input(s, table);
    if aggs.len() == 0 {
        QueryExpr::Project { cols: collect_project_items(&s.projection), input: Box::new(input) }
    } else {
        QueryExpr::Aggregate {
            keys: extract_group_by(&s.group_by),
            aggs,
            having: opt_scalar(&s.having),
            input: Box::new(input),
        }
    }
}

/// A sort key: descending only where it says so, `?` for what names no column.
pub open spec fn sort_key(o: SqlOrderView) -> SortKeyView {
    SortKeyView {
        col: match column_name(o.expr) {
            Some(c) => c,
            None => "?"@,
        },
        desc: o.direction == SqlDirection::Desc,
        nulls_first: None,
    }
}

/// A query sorted; as it is without keys.
pub open spec fn sorted_query(q: QueryView, orders: Seq<SqlOrderView>) -> QueryView {
    if orders.len() == 0 {
        q
    } else {
        QueryView::Sort {
            keys: Seq::new(orders.len(), |i: int| sort_key(orders[i])),
            input: Box::new(q),
        }
    }
}

fn sort_query(q: QueryExpr, orders: &Vec<SqlOrder>) -> (r: QueryExpr)
    ensures
        r@ == sorted_query(q@, sql_ast::orders_view(orders@)),
{
    let ghost shown = sql_ast::orders_view(orders@);
    if orders.len() == 0 {
        return q;
    }
    let mut keys: Vec<SortKey> = Vec::new();
    for i in 0..orders.len()
        invariant
            shown == sql_ast::orders_view(orders@),
            keys@.len() == i,
            forall|j: int| 0 <= j < i ==> (#[trigger] keys@[j])@ == sort_key(shown[j]),
    {
        assert(shown[i as int] == orders@[i as int]@);
        let col = match expr_to_col_name(&orders[i].expr) {
            Some(c) => c,
            None => "?".to_owned(),
        };
        keys.push(
            SortKey {
                col,
                desc: orders[i].direction == SqlDirection::Desc,
                nulls_first: None,
            },
        );
    }
    assert(expr::sort_keys_view(keys@) =~= Seq::new(shown.len(), |i: int| sort_key(shown[i])));
    QueryExpr::Sort { keys, input: Box::new(q) }
}

/// A query limited to `n` rows; as it is without a limit.
pub open spec fn limited_query(q: QueryView, n: Option<u64>, offset: u64) -> QueryView {
    match n {
        Some(k) => QueryView::Limit { n: k, offset, input: Box::new(q) },
        None => q,
    }
}

/// The query of a `SELECT`.
pub open spec fn select_query(
    s: SqlSelectView,
    orders: Seq<SqlOrderView>,
    limit: Option<u64>,
    offset: u64,
) -> Result<QueryView, Seq<char>> {
    match table_name(s) {
        None => Err("could not determine table name from FROM clause"@),
        Some(table) => Ok(
            limited_query(sorted_query(select_output(s, table), orders), limit, offset),
        ),
    }
}

/// The query of a `SELECT`.
pub fn extract_select_qe(
    s: &SqlSelect,
    orders: &Vec<SqlOrder>,
    limit: Option<u64>,
    offset: u64,
) -> (r: Result<QueryExpr, String>)
    ensures
        promql::gives(r, select_query(s@, sql_ast::orders_view(orders@), limit, offset)),
{
    match extract_table_name(s) {
        None => Err("could not determine table name from FROM clause".to_owned()),
        Some(table) => {
            let sorted = sort_query(build_output(s, table), orders);
            match limit {
                Some(n) => Ok(QueryExpr::Limit { n, offset, input: Box::new(sorted) }),
                None => Ok(sorted),
            }
        },
    }
}

// ── Queries ───────────────────────────────────────────────────────────────────

/// The sort keys of an `ORDER BY` clause.
pub open spec fn order_keys(o: SqlOrderByView) -> Seq<SqlOrderView> {
    match o {
        SqlOrderByView::Keys(ks) => ks,
        _ => Seq::empty(),
    }
}

/// The limit and offset of a `LIMIT` clause.
pub open spec fn limit_values(l: SqlLimitView) -> (Option<u64>, u64) {
    match l {
        SqlLimitView::LimitOffset { limit: Some(e), offset } => (
            u64_of(e),
            match offset {
                Some(o) => match u64_of(o) {
                    Some(n) => n,
                    None => 0,
                },
                None => 0,
            },
        ),
        SqlLimitView::OffsetComma { offset, limit } => (
            u64_of(limit),
            match u64_of(offset) {
                Some(n) => n,
                None => 0,
            },
        ),
        _ => (None, 0),
    }
}

fn read_limit(l: &SqlLimit) -> (r: (Option<u64>, u64))
    ensures
        r == limit_values(l@),
{
    match l {
        SqlLimit::LimitOffset { limit: Some(e), offset } => {
            let skip: u64 = match offset {
                Some(o) => match expr_to_u64(o) {
                    Some(n) => n,
                    None => 0,
                },
                None => 0,
            };
            (expr_to_u64(e), skip)
        },
        SqlLimit::OffsetComma { offset, limit } => {
            let skip: u64 = match expr_to_u64(offset) {
                Some(n) => n,
                None => 0,
            };
            (expr_to_u64(limit), skip)
        },
        _ => (None, 0),
    }
}

/// The set operator of the query algebra.
pub open spec fn set_kind(op: SqlSetOp) -> SetOpKind {
    match op {
        SqlSetOp::Union => SetOpKind::Union,
        SqlSetOp::Intersect => SetOpKind::Intersect,
        SqlSetOp::Except | SqlSetOp::Minus => SetOpKind::Except,
    }
}

fn set_kind_of(op: SqlSetOp) -> (r: SetOpKind)
    ensures
        r == set_kind(op),
{
    match op {
        SqlSetOp::Union => SetOpKind::Union,
        SqlSetOp::Intersect => SetOpKind::Intersect,
        SqlSetOp::Except | SqlSetOp::Minus => SetOpKind::Except,
    }
}

/// The query of a body.
pub open spec fn body_query(
    b: SqlBodyView,
    orders: Seq<SqlOrderView>,
    limit: Option<u64>,
    offset: u64,
) -> Result<QueryView, Seq<char>>
    decreases b,
{
    match b {
        SqlBodyView::Select(s) => select_query(s, orders, limit, offset),
        SqlBodyView::Query(q) => full_query(*q),
        SqlBodyView::SetOperation { left, op, quantifier, right } => match body_query(
            *left,
            Seq::empty(),
            None,
            0,
        ) {
            Err(m) => Err(m),
            Ok(l) => match body_query(*right, Seq::empty(), None, 0) {
                Err(m) => Err(m),
                Ok(r) => Ok(
                    QueryView::SetOp {
                        kind: set_kind(op),
                        all: quantifier == SqlQuantifier::All || quantifier
                            == SqlQuantifier::ByName,
                        left: Box::new(l),
                        right: Box::new(r),
                    },
                ),
            },
        },
        SqlBodyView::Other(s) => Err("unsupported query body: "@ + s),
    }
}

/// The query of a query expression.
pub open spec fn full_query(q: SqlQueryView) -> Result<QueryView, Seq<char>>
    decreases q,
{
    let (limit, offset) = limit_values(q.limit);
    body_query(*q.body, order_keys(q.order_by), limit, offset)
}

/// The query of a query expression.
pub fn extract_query_expr(q: &SqlQuery) -> (r: Result<QueryExpr, String>)
    ensures
        promql::gives(r, full_query(q@)),
    decreases q, 1int,
{
    let (limit, offset) = read_limit(&q.limit);
    let none: Vec<SqlOrder> = Vec::new();
    assert(sql_ast::orders_view(none@) =~= Seq::<SqlOrderView>::empty());
    let orders = match &q.order_by {
        SqlOrderBy::Keys(ks) => ks,
        _ => &none,
    };
    assert(decreases_to!(*q => q.body));
    extract_set_expr_qe(&q.body, orders, limit, offset)
}

/// The query of a body.
pub fn extract_set_expr_qe(
    b: &SqlBody,
    orders: &Vec<SqlOrder>,
    limit: Option<u64>,
    offset: u64,
) -> (r: Result<QueryExpr, String>)
    ensures
        promql::gives(r, body_query(b@, sql_ast::orders_view(orders@), limit, offset)),
    decreases b, 0int,
{
    match b {
        SqlBody::Select(s) => extract_select_qe(s, orders, limit, offset),
        SqlBody::Query(q) => extract_query_expr(q),
        SqlBody::SetOperation { left, op, quantifier, right } => {
            let none: Vec<SqlOrder> = Vec::new();
            assert(sql_ast::orders_view(none@) =~= Seq::<SqlOrderView>::empty());
            let l = match extract_set_expr_qe(left, &none, None, 0) {
                Ok(x) => x,
                Err(m) => {
                    return Err(m);
                },
            };
            match extract_set_expr_qe(right, &none, None, 0) {
                Ok(x) => Ok(
                    QueryExpr::SetOp {
                        kind: set_kind_of(*op),
                        all: *quantifier == SqlQuantifier::All || *quantifier
                            == SqlQuantifier::ByName,
                        left: Box::new(l),
                        right: Box::new(x),
                    },
                ),
                Err(m) => Err(m),
            }
        },
        SqlBody::Other(s) => {
            let mut out = "unsupported query body: ".to_owned();
            out.append(s.as_str());
            Err(out)
        },
    }
}

/// The query of a SQL text, given what the parser made of it: the last of its
/// statements counts.
pub open spec fn sql_query(sql: Seq<char>, parsed: Option<Seq<SqlStatementView>>) -> Result<
    QueryView,
    Seq<char>,
> {
    match parsed {
        None => Err("SQL parse error: "@ + render::quoted(sql)),
        Some(v) => if v.len() == 0 {
            Err("no SQL statement found"@)
        } else {
            match v[v.len() - 1] {
                SqlStatementView::Query(q) => full_query(q),
                SqlStatementView::Other(s) => Err("expected SELECT, got "@ + s),
            }
        },
    }
}

/// The query of the statements that a parser found in a text.
pub fn query_of_sql(sql: &str, parsed: Option<Vec<SqlStatement>>) -> (r: Result<QueryExpr, String>)
    ensures
        promql::gives(
            r,
            sql_query(
                sql@,
                match parsed {
                    Some(v) => Some(sql_ast::statements_view(v@)),
                    None => None,
                },
            ),
        ),
{
    match parsed {
        None => {
            let mut out = "SQL parse error: ".to_owned();
            out.append(render::quote(sql).as_str());
            Err(out)
        },
        Some(v) => {
            if v.len() == 0 {
                return Err("no SQL statement found".to_owned());
            }
            assert(sql_ast::statements_view(v@)[v@.len() - 1] == v@[v@.len() - 1]@);
            match &v[v.len() - 1] {
                SqlStatement::Query(q) => extract_query_expr(q),
                SqlStatement::Other(s) => {
                    let mut out = "expected SELECT, got ".to_owned();
                    out.append(s.as_str());
                    Err(out)
                },
            }
        },
    }
}

/// The query of a SQL text.
pub fn parse_sql_expr(sql: &str) -> (r: Result<QueryExpr, String>)
    ensures
        promql::gives(r, sql_query(sql@, sql_ast::parsed_sql(sql@))),
{
    query_of_sql(sql, sql_ast::parse_statements(sql))
}

} // verus!
