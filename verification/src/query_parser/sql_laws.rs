//! What holds of every query that a `SELECT` stands for: each clause stands in
//! it once, in its place, and says what was written.
use vstd::prelude::*;

use crate::algebra::expr::{
    AggFuncView, BinaryOpKind, ColumnView, JoinKind, LiteralView, ProjectView, QueryView,
    ScalarView, SortKeyView,
};
use crate::algebra::reading::{parts, scan, scans, Part, Scan};
use crate::query_parser::sql::{
    aggs_in, arg_column, arg_span, body_query, column_name, filtered_table, first_col, first_join,
    full_query, group_keys, group_window, grouped_by, joined_table, last_part, limit_values,
    lower_case, object_name, opt_scalar_of, projected_aggs, projected_columns, scalar_of,
    scalars_of, select_input, select_output, select_query, sort_key, sorted_query, span,
    spelled_span, sql_query, table_name, u64_of, unit_secs, unit_split, upper_case, window_among,
    SqlWindowView,
};
use crate::query_parser::sql_ast::{
    SqlArgView, SqlArgsView, SqlBodyView, SqlConstraintView, SqlDirection, SqlDuplicates,
    SqlExprView, SqlGroupByView, SqlItemView, SqlJoinOpView, SqlLimitView, SqlOp, SqlOrderByView,
    SqlOrderView, SqlQuantifier, SqlQueryView, SqlSelectView, SqlSetOp, SqlStatementView,
    SqlTableView, SqlUnit, SqlValueView,
};
use crate::text;
use crate::text_order;
use crate::types::Duration;

verus! {

// ── Expressions ───────────────────────────────────────────────────────────────

/// The operator as SQL writes it.
pub open spec fn written_op(k: BinaryOpKind) -> SqlOp {
    match k {
        BinaryOpKind::Add => SqlOp::Plus,
        BinaryOpKind::Sub => SqlOp::Minus,
        BinaryOpKind::Mul => SqlOp::Multiply,
        BinaryOpKind::Div => SqlOp::Divide,
        BinaryOpKind::Mod => SqlOp::Modulo,
        BinaryOpKind::Eq => SqlOp::Eq,
        BinaryOpKind::Ne => SqlOp::NotEq,
        BinaryOpKind::Lt => SqlOp::Lt,
        BinaryOpKind::Le => SqlOp::LtEq,
        BinaryOpKind::Gt => SqlOp::Gt,
        BinaryOpKind::Ge => SqlOp::GtEq,
        BinaryOpKind::And => SqlOp::And,
        BinaryOpKind::Or => SqlOp::Or,
        BinaryOpKind::BitAnd => SqlOp::BitwiseAnd,
        BinaryOpKind::BitOr => SqlOp::BitwiseOr,
        BinaryOpKind::BitXor => SqlOp::BitwiseXor,
        BinaryOpKind::Concat => SqlOp::StringConcat,
        _ => SqlOp::Other,
    }
}

/// The literal as SQL writes it.
pub open spec fn written_literal(v: LiteralView) -> SqlValueView {
    match v {
        LiteralView::Null => SqlValueView::Null,
        LiteralView::Bool(b) => SqlValueView::Boolean(b),
        LiteralView::Int(i) => SqlValueView::Number(text::nat_text(i as nat)),
        LiteralView::Float(_) => SqlValueView::Other,
        LiteralView::Str(s) => SqlValueView::SingleQuoted(s),
    }
}

/// The scalar expression as SQL writes it.
pub open spec fn written(e: ScalarView) -> SqlExprView
    decreases e,
{
    match e {
        ScalarView::Column(s) => SqlExprView::Identifier(s),
        ScalarView::Literal(v) => SqlExprView::Value(written_literal(v)),
        ScalarView::BinaryOp { op, lhs, rhs } => if op == BinaryOpKind::Like || op
            == BinaryOpKind::NotLike {
            SqlExprView::Like {
                negated: op == BinaryOpKind::NotLike,
                expr: Box::new(written(*lhs)),
                pattern: Box::new(written(*rhs)),
            }
        } else {
            SqlExprView::Binary {
                left: Box::new(written(*lhs)),
                op: written_op(op),
                right: Box::new(written(*rhs)),
            }
        },
        ScalarView::IsNull { expr, negated } => if negated {
            SqlExprView::IsNotNull(Box::new(written(*expr)))
        } else {
            SqlExprView::IsNull(Box::new(written(*expr)))
        },
        ScalarView::Between { expr, low, high, negated } => SqlExprView::Between {
            expr: Box::new(written(*expr)),
            negated,
            low: Box::new(written(*low)),
            high: Box::new(written(*high)),
        },
        ScalarView::InList { expr, list, negated } => SqlExprView::InList {
            expr: Box::new(written(*expr)),
            list: all_written(list),
            negated,
        },
        ScalarView::FunctionCall { .. } | ScalarView::ScalarSubquery(_) => SqlExprView::Other,
    }
}

/// The scalar expressions as SQL writes them.
pub open spec fn all_written(s: Seq<ScalarView>) -> Seq<SqlExprView>
    decreases s,
{
    Seq::new(
        s.len(),
        |i: int|
            if 0 <= i < s.len() {
                written(s[i])
            } else {
                arbitrary()
            },
    )
}

/// Whether a value is a text, a truth value, null, or a number in plain digits.
pub open spec fn plain_value(v: SqlValueView) -> bool {
    match v {
        SqlValueView::SingleQuoted(_) | SqlValueView::Boolean(_) | SqlValueView::Null => true,
        SqlValueView::Number(n) => exists|k: i64| k >= 0 && n == #[trigger] text::nat_text(k as nat),
        _ => false,
    }
}

/// Whether an expression is made of plain columns, plain values, and the
/// operators that queries have.
pub open spec fn plain_expr(e: SqlExprView) -> bool
    decreases e,
{
    match e {
        SqlExprView::Identifier(_) => true,
        SqlExprView::Value(v) => plain_value(v),
        SqlExprView::Binary { left, op, right } => op != SqlOp::Other && plain_expr(*left)
            && plain_expr(*right),
        SqlExprView::IsNull(x) => plain_expr(*x),
        SqlExprView::IsNotNull(x) => plain_expr(*x),
        SqlExprView::Between { expr, low, high, .. } => plain_expr(*expr) && plain_expr(*low)
            && plain_expr(*high),
        SqlExprView::InList { expr, list, .. } => plain_expr(*expr) && all_plain_exprs(list),
        SqlExprView::Like { expr, pattern, .. } => plain_expr(*expr) && plain_expr(*pattern),
        _ => false,
    }
}

/// Whether every expression of a list is plain.
pub open spec fn all_plain_exprs(s: Seq<SqlExprView>) -> bool
    decreases s,
{
    forall|i: int| 0 <= i < s.len() ==> plain_expr(#[trigger] s[i])
}

/// A plain expression can be read back from what it is made into: nothing of it
/// is lost, swapped or changed.
pub proof fn law_expression_reads_back(e: SqlExprView)
    requires
        plain_expr(e),
    ensures
        written(scalar_of(e)) == e,
    decreases e,
{
    reveal_with_fuel(plain_expr, 2);
    reveal_with_fuel(all_plain_exprs, 2);
    match e {
        SqlExprView::Value(SqlValueView::Number(n)) => {
            let k = choose|k: i64| k >= 0 && n == #[trigger] text::nat_text(k as nat);
            text::law_digits_read_back(k as nat);
            assert(text::is_digit(n[0]));
            assert(text::i64_value(n) == Some(k));
        },
        SqlExprView::Binary { left, right, .. } => {
            law_expression_reads_back(*left);
            law_expression_reads_back(*right);
        },
        SqlExprView::IsNull(x) => law_expression_reads_back(*x),
        SqlExprView::IsNotNull(x) => law_expression_reads_back(*x),
        SqlExprView::Between { expr, low, high, .. } => {
            law_expression_reads_back(*expr);
            law_expression_reads_back(*low);
            law_expression_reads_back(*high);
        },
        SqlExprView::InList { expr, list, .. } => {
            law_expression_reads_back(*expr);
            let made = scalars_of(list);
            assert forall|i: int| 0 <= i < list.len() implies written(#[trigger] made[i])
                == list[i] by {
                assert(plain_expr(list[i]));
                law_expression_reads_back(list[i]);
            }
            assert(all_written(made) =~= list);
        },
        SqlExprView::Like { expr, pattern, .. } => {
            law_expression_reads_back(*expr);
            law_expression_reads_back(*pattern);
        },
        _ => {},
    }
}

/// Parentheses mean nothing; a dotted column keeps its parts, a dot between each
/// two; a double-quoted text is a text.
pub proof fn law_other_expressions(e: SqlExprView, a: Seq<char>, b: Seq<char>)
    ensures
        scalar_of(SqlExprView::Nested(Box::new(e))) == scalar_of(e),
        scalar_of(SqlExprView::Compound(seq![a, b])) == ScalarView::Column(a + "."@ + b),
        scalar_of(SqlExprView::Value(SqlValueView::DoubleQuoted(a))) == ScalarView::Literal(
            LiteralView::Str(a),
        ),
{
    reveal_with_fuel(scalar_of, 2);
    reveal_with_fuel(text::joined, 3);
    let s = seq![a, b];
    assert(s.drop_last() =~= seq![a]);
}

// ── Clauses ───────────────────────────────────────────────────────────────────

/// Parts below a part that may be missing.
pub open spec fn below(p: Option<Part>, rest: Seq<Part>) -> Seq<Part> {
    match p {
        Some(p) => seq![p] + rest,
        None => rest,
    }
}

/// The name of the table that a `FROM` names, parts with dots between.
pub open spec fn names_table(name: Seq<char>, t: SqlTableView) -> bool {
    match t {
        SqlTableView::Named(p) => name == text::joined(
            p.map_values(
                |part: Option<Seq<char>>|
                    match part {
                        Some(s) => s,
                        None => Seq::empty(),
                    },
            ),
            "."@,
        ),
        SqlTableView::Other => false,
    }
}

/// Whether a join is of a kind, on the condition that is written.
pub open spec fn joins_as(op: SqlJoinOpView, kind: JoinKind, pred: Option<ScalarView>) -> bool {
    match op {
        SqlJoinOpView::Plain(c) => kind == JoinKind::Inner && on(c, pred),
        SqlJoinOpView::Inner(c) => kind == JoinKind::Inner && on(c, pred),
        SqlJoinOpView::Left(c) => kind == JoinKind::LeftOuter && on(c, pred),
        SqlJoinOpView::LeftOuter(c) => kind == JoinKind::LeftOuter && on(c, pred),
        SqlJoinOpView::Right(c) => kind == JoinKind::RightOuter && on(c, pred),
        SqlJoinOpView::RightOuter(c) => kind == JoinKind::RightOuter && on(c, pred),
        SqlJoinOpView::FullOuter(c) => kind == JoinKind::FullOuter && on(c, pred),
        SqlJoinOpView::Cross => kind == JoinKind::Cross && pred is None,
        SqlJoinOpView::Other => false,
    }
}

/// Whether a predicate is that of a condition.
pub open spec fn on(c: SqlConstraintView, pred: Option<ScalarView>) -> bool {
    match (c, pred) {
        (SqlConstraintView::On(e), Some(p)) => p == scalar_of(e) && (plain_expr(e) ==> written(p)
            == e),
        (SqlConstraintView::Other, None) => true,
        _ => false,
    }
}

/// Whether a predicate is that of a clause, which may be missing.
pub open spec fn says(p: Option<ScalarView>, clause: Option<SqlExprView>) -> bool {
    match (p, clause) {
        (Some(p), Some(e)) => p == scalar_of(e) && (plain_expr(e) ==> written(p) == e),
        (None, None) => true,
        _ => false,
    }
}

/// Whether sort keys are those of an `ORDER BY`: one for each, in order,
/// descending exactly where that is written.
pub open spec fn sorts_as(keys: Seq<SortKeyView>, orders: Seq<SqlOrderView>) -> bool {
    keys.len() == orders.len() && forall|i: int|
        0 <= i < keys.len() ==> {
            &&& (#[trigger] keys[i]).desc == (orders[i].direction == SqlDirection::Desc)
            &&& orders[i].expr matches SqlExprView::Identifier(c) ==> keys[i].col == c
            &&& orders[i].expr matches SqlExprView::Compound(ps) ==> ps.len() > 0 ==> keys[i].col
                == ps.last()
            &&& keys[i].nulls_first is None
        }
}

/// The clauses of a `SELECT` as they stand in its query.
pub struct Clauses {
    pub table: Seq<char>,
    pub selection: Option<ScalarView>,
    pub join: Option<(JoinKind, Option<ScalarView>, Seq<char>)>,
    pub window: Option<(Duration, Option<Duration>)>,
    pub output: Part,
    pub order: Seq<SortKeyView>,
    pub limit: Option<(u64, u64)>,
}

/// The parts of a query that has each clause once, in its place: from the limit
/// down over the order, the output, the window and the join to the filter
/// directly above the table.
pub open spec fn laid_out(c: Clauses) -> Seq<Part> {
    let filtered = below(
        match c.selection {
            Some(p) => Some(Part::Filter(p)),
            None => None,
        },
        seq![Part::Source(c.table)],
    );
    let joined = match c.join {
        Some((kind, pred, table)) => seq![Part::Join(kind, pred)] + filtered + seq![
            Part::Source(table),
        ],
        None => filtered,
    };
    let windowed = below(
        match c.window {
            Some((size, slide)) => Some(Part::Window(size, slide)),
            None => None,
        },
        joined,
    );
    below(
        match c.limit {
            Some((n, offset)) => Some(Part::Limit(n, offset)),
            None => None,
        },
        below(
            if c.order.len() > 0 {
                Some(Part::Sort(c.order))
            } else {
                None
            },
            seq![c.output] + windowed,
        ),
    )
}

/// Whether clauses are those of a `SELECT`.
pub open spec fn clauses_of(
    c: Clauses,
    s: SqlSelectView,
    orders: Seq<SqlOrderView>,
    limit: Option<u64>,
    offset: u64,
) -> bool {
    &&& s.from.len() > 0
    &&& names_table(c.table, s.from[0].table)
    &&& says(c.selection, s.selection)
    &&& match c.join {
        Some((kind, pred, table)) => s.from[0].joins.len() > 0 && names_table(
            table,
            s.from[0].joins[0].table,
        ) && joins_as(s.from[0].joins[0].op, kind, pred),
        None => s.from[0].joins.len() == 0 || s.from[0].joins[0].op is Other
            || s.from[0].joins[0].table is Other,
    }
    &&& c.window == (match group_window(s.group_by) {
        Some(w) => Some((w.size, w.slide)),
        None => None,
    })
    &&& match c.output {
        Part::Project(cols) => projected_aggs(s.projection).len() == 0 && cols == projected_columns(
            s.projection,
        ),
        Part::Aggregate(keys, aggs, having) => {
            &&& aggs.len() > 0
            &&& aggs == projected_aggs(s.projection)
            &&& keys == columns_grouped_by(s.group_by)
            &&& says(having, s.having)
        },
        _ => false,
    }
    &&& sorts_as(c.order, orders)
    &&& c.limit == (match limit {
        Some(n) => Some((n, offset)),
        None => None,
    })
}

/// The plain columns of a `GROUP BY`, in order.
pub open spec fn columns_grouped_by(g: SqlGroupByView) -> Seq<Seq<char>> {
    match g {
        SqlGroupByView::All => Seq::empty(),
        SqlGroupByView::Exprs(es) => es.filter(|e: SqlExprView| column_name(e) is Some).map_values(
            |e: SqlExprView| column_name(e)->0,
        ),
    }
}

proof fn lemma_group_keys(es: Seq<SqlExprView>)
    ensures
        group_keys(es) == es.filter(|e: SqlExprView| column_name(e) is Some).map_values(
            |e: SqlExprView| column_name(e)->0,
        ),
    decreases es.len(),
{
    reveal(Seq::filter);
    let keep = |e: SqlExprView| column_name(e) is Some;
    let name = |e: SqlExprView| column_name(e)->0;
    if es.len() == 0 {
        assert(es.filter(keep).map_values(name) =~= Seq::<Seq<char>>::empty());
    } else {
        let init = es.drop_last();
        lemma_group_keys(init);
        if keep(es.last()) {
            assert(es.filter(keep) == init.filter(keep).push(es.last()));
            assert(init.filter(keep).push(es.last()).map_values(name) =~= init.filter(
                keep,
            ).map_values(name).push(name(es.last())));
        } else {
            assert(es.filter(keep) == init.filter(keep));
        }
    }
}

/// The clauses that a `SELECT` puts in its query.
pub open spec fn clauses_in(
    s: SqlSelectView,
    table: Seq<char>,
    orders: Seq<SqlOrderView>,
    limit: Option<u64>,
    offset: u64,
) -> Clauses {
    Clauses {
        table,
        selection: opt_scalar_of(s.selection),
        join: match first_join(s) {
            Some((inner, kind, pred)) => Some((kind, pred, inner)),
            None => None,
        },
        window: match group_window(s.group_by) {
            Some(w) => Some((w.size, w.slide)),
            None => None,
        },
        output: if projected_aggs(s.projection).len() == 0 {
            Part::Project(projected_columns(s.projection))
        } else {
            Part::Aggregate(
                grouped_by(s.group_by),
                projected_aggs(s.projection),
                opt_scalar_of(s.having),
            )
        },
        order: Seq::new(orders.len(), |i: int| sort_key(orders[i])),
        limit: match limit {
            Some(n) => Some((n, offset)),
            None => None,
        },
    }
}

proof fn lemma_table_name(parts: Seq<Option<Seq<char>>>)
    ensures
        names_table(object_name(parts), SqlTableView::Named(parts)),
{
    let name = |part: Option<Seq<char>>|
        match part {
            Some(s) => s,
            None => Seq::<char>::empty(),
        };
    assert(parts.map_values(name) =~= Seq::new(
        parts.len(),
        |i: int|
            match parts[i] {
                Some(s) => s,
                None => Seq::empty(),
            },
    ));
}

proof fn lemma_laid_out(
    s: SqlSelectView,
    table: Seq<char>,
    orders: Seq<SqlOrderView>,
    limit: Option<u64>,
    offset: u64,
)
    requires
        table_name(s) == Some(table),
    ensures
        select_query(s, orders, limit, offset) matches Ok(q) && parts(q) == laid_out(
            clauses_in(s, table, orders, limit, offset),
        ),
{
    let c = clauses_in(s, table, orders, limit, offset);
    assert(parts(QueryView::Source(table)) == seq![Part::Source(table)]);
    if let Some((inner, _, _)) = first_join(s) {
        assert(parts(QueryView::Source(inner)) == seq![Part::Source(inner)]);
    }
    let filtered = parts(filtered_table(s, table));
    assert(filtered == below(
        match c.selection {
            Some(p) => Some(Part::Filter(p)),
            None => None,
        },
        seq![Part::Source(table)],
    ));
    let joined = parts(joined_table(s, table));
    let input = parts(select_input(s, table));
    assert(input == below(
        match c.window {
            Some((size, slide)) => Some(Part::Window(size, slide)),
            None => None,
        },
        joined,
    ));
    let out = select_output(s, table);
    assert(parts(out) == seq![c.output] + input);
    assert(parts(sorted_query(out, orders)) == below(
        if c.order.len() > 0 {
            Some(Part::Sort(c.order))
        } else {
            None
        },
        parts(out),
    ));
}

/// The query of a `SELECT` has each clause of the `SELECT` once, in its place,
/// and nothing else: the table, the `WHERE` directly above it whether or not
/// another table is joined, the join on its condition, the window, the
/// aggregates by the columns of the `GROUP BY` under the `HAVING` or else the
/// projection, the order and the limit. There is a query wherever a table is
/// named.
pub proof fn law_select_has_each_clause_once(
    s: SqlSelectView,
    orders: Seq<SqlOrderView>,
    limit: Option<u64>,
    offset: u64,
)
    ensures
        (s.from.len() > 0 && s.from[0].table is Named) == (select_query(s, orders, limit, offset)
            is Ok),
        match select_query(s, orders, limit, offset) {
            Ok(q) => exists|c: Clauses| #[trigger]
                clauses_of(c, s, orders, limit, offset) && parts(q) == laid_out(c),
            Err(_) => true,
        },
{
    if let Some(table) = table_name(s) {
        let c = clauses_in(s, table, orders, limit, offset);
        lemma_laid_out(s, table, orders, limit, offset);
        if let SqlTableView::Named(p) = s.from[0].table {
            lemma_table_name(p);
        }
        if s.from[0].joins.len() > 0 {
            let j = s.from[0].joins[0];
            if let SqlTableView::Named(p) = j.table {
                lemma_table_name(p);
            }
            match j.op {
                SqlJoinOpView::Plain(SqlConstraintView::On(e))
                | SqlJoinOpView::Inner(SqlConstraintView::On(e))
                | SqlJoinOpView::Left(SqlConstraintView::On(e))
                | SqlJoinOpView::LeftOuter(SqlConstraintView::On(e))
                | SqlJoinOpView::Right(SqlConstraintView::On(e))
                | SqlJoinOpView::RightOuter(SqlConstraintView::On(e))
                | SqlJoinOpView::FullOuter(SqlConstraintView::On(e)) => {
                    if plain_expr(e) {
                        law_expression_reads_back(e);
                    }
                },
                _ => {},
            }
        }
        if let Some(e) = s.selection {
            if plain_expr(e) {
                law_expression_reads_back(e);
            }
        }
        if let Some(e) = s.having {
            if plain_expr(e) {
                law_expression_reads_back(e);
            }
        }
        if let SqlGroupByView::Exprs(es) = s.group_by {
            lemma_group_keys(es);
        }
        assert(clauses_of(c, s, orders, limit, offset));
    }
}

/// Whether a `SELECT` joins or not, the filter directly above its table has
/// exactly the predicate of its `WHERE`, and there is none without a `WHERE`;
/// what is joined is not filtered.
pub proof fn law_where_stands_above_the_table(
    s: SqlSelectView,
    orders: Seq<SqlOrderView>,
    limit: Option<u64>,
    offset: u64,
)
    ensures
        match select_query(s, orders, limit, offset) {
            Ok(q) => {
                &&& scans(q).len() >= 1
                &&& names_table(scans(q)[0].source, s.from[0].table)
                &&& says(scans(q)[0].pred, s.selection)
                &&& scans(q).len() <= 2
                &&& scans(q).len() == 2 ==> scans(q)[1].pred is None && names_table(
                    scans(q)[1].source,
                    s.from[0].joins[0].table,
                )
            },
            Err(_) => true,
        },
{
    reveal_with_fuel(scans, 7);
    if let Some(table) = table_name(s) {
        if let SqlTableView::Named(p) = s.from[0].table {
            lemma_table_name(p);
        }
        if s.from[0].joins.len() > 0 {
            if let SqlTableView::Named(p) = s.from[0].joins[0].table {
                lemma_table_name(p);
            }
        }
        if let Some(e) = s.selection {
            if plain_expr(e) {
                law_expression_reads_back(e);
            }
        }
        lemma_scans(s, table);
        let out = select_output(s, table);
        if let Ok(q) = select_query(s, orders, limit, offset) {
            assert(scan(out) is None);
            assert(scans(out) == scans(select_input(s, table)));
            assert(scans(q) == scans(out));
        }
    }
}

proof fn lemma_scans(s: SqlSelectView, table: Seq<char>)
    ensures
        ({
            let c = scans(select_input(s, table));
            &&& c.len() >= 1
            &&& c[0].source == table
            &&& c[0].pred == opt_scalar_of(s.selection)
            &&& match first_join(s) {
                Some((inner, _, _)) => c.len() == 2 && c[1].source == inner && c[1].pred is None,
                None => c.len() == 1,
            }
        }),
{
    reveal_with_fuel(scans, 5);
    let t = filtered_table(s, table);
    assert(scans(t) == seq![
        Scan { source: table, pred: opt_scalar_of(s.selection), window: None },
    ]);
    if let Some((inner, kind, pred)) = first_join(s) {
        let r = QueryView::Source(inner);
        assert(scans(r) == seq![Scan { source: inner, pred: None, window: None }]);
        assert(scan(joined_table(s, table)) is None);
        assert(scans(joined_table(s, table)) == scans(t) + scans(r));
    }
}

// ── Aggregates ────────────────────────────────────────────────────────────────

/// The word that calls an aggregate.
pub open spec fn aggregate_word(f: AggFuncView) -> Option<Seq<char>> {
    match f {
        AggFuncView::Count | AggFuncView::CountDistinct => Some("COUNT"@),
        AggFuncView::Sum => Some("SUM"@),
        AggFuncView::Avg => Some("AVG"@),
        AggFuncView::Min => Some("MIN"@),
        AggFuncView::Max => Some("MAX"@),
        _ => None,
    }
}

/// Whether a word calls an aggregate.
pub open spec fn calls_aggregate(word: Seq<char>) -> bool {
    word == "COUNT"@ || word == "SUM"@ || word == "AVG"@ || word == "MIN"@ || word == "MAX"@
}

/// What an argument reads: a column, whole rows, or neither.
pub open spec fn read_by(a: SqlArgView) -> Option<ColumnView> {
    match a {
        SqlArgView::Wildcard => Some(ColumnView::Wildcard),
        SqlArgView::Expr(SqlExprView::Identifier(c)) => Some(ColumnView::Named(c)),
        SqlArgView::Expr(SqlExprView::Compound(ps)) => if ps.len() > 0 {
            Some(ColumnView::Named(ps.last()))
        } else {
            None
        },
        _ => None,
    }
}

/// Whether a column is the first one that an argument reads, or else whole rows.
pub open spec fn first_read(c: ColumnView, args: Seq<SqlArgView>) -> bool {
    ||| exists|i: int|
        0 <= i < args.len() && #[trigger] read_by(args[i]) == Some(c) && forall|j: int|
            0 <= j < i ==> #[trigger] read_by(args[j]) is None
    ||| c == ColumnView::Wildcard && forall|j: int|
        0 <= j < args.len() ==> #[trigger] read_by(args[j]) is None
}

proof fn lemma_first_col(args: Seq<SqlArgView>)
    ensures
        first_read(first_col(args), args),
    decreases args.len(),
{
    let c = first_col(args);
    if args.len() > 0 {
        if read_by(args[0]) is Some {
            assert(read_by(args[0]) == Some(c));
        } else {
            let rest = args.drop_first();
            lemma_first_col(rest);
            if exists|i: int|
                0 <= i < rest.len() && #[trigger] read_by(rest[i]) == Some(c) && forall|j: int|
                    0 <= j < i ==> #[trigger] read_by(rest[j]) is None {
                let i = choose|i: int|
                    0 <= i < rest.len() && #[trigger] read_by(rest[i]) == Some(c) && forall|j: int|
                        0 <= j < i ==> #[trigger] read_by(rest[j]) is None;
                assert(args[i + 1] == rest[i]);
                assert(read_by(args[i + 1]) == Some(c));
                assert forall|j: int| 0 <= j < i + 1 implies #[trigger] read_by(args[j]) is None by {
                    if j > 0 {
                        assert(args[j] == rest[j - 1]);
                        assert(read_by(rest[j - 1]) is None);
                    }
                }
            } else {
                assert forall|j: int| 0 <= j < args.len() implies #[trigger] read_by(
                    args[j],
                ) is None by {
                    if j > 0 {
                        assert(args[j] == rest[j - 1]);
                        assert(read_by(rest[j - 1]) is None);
                    }
                }
            }
        }
    }
}

/// A call of `COUNT`, `SUM`, `AVG`, `MIN` or `MAX` computes the aggregate of that
/// word over the first column that its arguments read, distinct values only
/// where that is written, under the name that it is given. No other call
/// computes an aggregate.
pub proof fn law_call_aggregates(
    name: Seq<Option<Seq<char>>>,
    duplicates: SqlDuplicates,
    args: Seq<SqlArgView>,
    alias: Option<Seq<char>>,
)
    ensures
        ({
            let word = upper_case(last_part(name));
            let items = aggs_in(
                SqlExprView::Function { name, args: SqlArgsView::List { duplicates, args } },
                alias,
            );
            &&& items.len() == (if calls_aggregate(word) {
                1int
            } else {
                0int
            })
            &&& items.len() == 1 ==> {
                let item = items[0];
                &&& aggregate_word(item.func) == Some(word)
                &&& item.distinct == (duplicates == SqlDuplicates::Distinct)
                &&& (item.func is CountDistinct) == (word == "COUNT"@ && item.distinct)
                &&& first_read(item.col, args)
                &&& alias is Some ==> item.alias == alias->0
                &&& alias is None ==> item.alias == lower_case(word)
            }
        }),
{
    lemma_first_col(args);
    reveal_strlit("COUNT");
    reveal_strlit("SUM");
    reveal_strlit("AVG");
    reveal_strlit("MIN");
    reveal_strlit("MAX");
    assert("SUM"@[0] == 'S' && "AVG"@[0] == 'A' && "MIN"@[1] == 'I' && "MAX"@[1] == 'A'
        && "MIN"@[0] == 'M' && "MAX"@[0] == 'M');
    assert("COUNT"@.len() == 5 && "SUM"@.len() == 3 && "AVG"@.len() == 3 && "MIN"@.len() == 3
        && "MAX"@.len() == 3);
}

/// An expression aggregates what its operands do, left before right; parentheses
/// change nothing; what is projected aggregates item by item, in order.
pub proof fn law_aggregates_in_order(
    l: SqlExprView,
    op: SqlOp,
    r: SqlExprView,
    alias: Option<Seq<char>>,
    name: Seq<char>,
    a: Seq<SqlItemView>,
    b: Seq<SqlItemView>,
)
    ensures
        aggs_in(SqlExprView::Binary { left: Box::new(l), op, right: Box::new(r) }, alias)
            == aggs_in(l, None) + aggs_in(r, None),
        aggs_in(SqlExprView::Nested(Box::new(l)), alias) == aggs_in(l, alias),
        projected_aggs(a + b) == projected_aggs(a) + projected_aggs(b),
        projected_aggs(seq![SqlItemView::Expr(l)]) == aggs_in(l, None),
        projected_aggs(seq![SqlItemView::Alias { expr: l, alias: name }]) == aggs_in(l, Some(name)),
        projected_aggs(seq![SqlItemView::Wildcard]).len() == 0,
    decreases b.len(),
{
    reveal_with_fuel(projected_aggs, 2);
    reveal_with_fuel(aggs_in, 2);
    assert(seq![SqlItemView::Expr(l)].drop_last() =~= Seq::empty());
    assert(seq![SqlItemView::Alias { expr: l, alias: name }].drop_last() =~= Seq::empty());
    assert(seq![SqlItemView::Wildcard].drop_last() =~= Seq::empty());
    assert(projected_aggs(seq![SqlItemView::Expr(l)]) =~= aggs_in(l, None));
    assert(projected_aggs(seq![SqlItemView::Alias { expr: l, alias: name }]) =~= aggs_in(
        l,
        Some(name),
    ));
    if b.len() == 0 {
        assert(a + b =~= a);
    } else {
        law_aggregates_in_order(l, op, r, alias, name, a, b.drop_last());
        assert((a + b).drop_last() =~= a + b.drop_last());
        assert((a + b).last() == b.last());
    }
}

/// A projection has one column for each item that it can name, in order, under
/// the item's alias, with the item's own expression.
pub proof fn law_columns_in_order(
    e: SqlExprView,
    name: Seq<char>,
    a: Seq<SqlItemView>,
    b: Seq<SqlItemView>,
)
    ensures
        projected_columns(a + b) == projected_columns(a) + projected_columns(b),
        ({
            let bare = projected_columns(seq![SqlItemView::Expr(e)]);
            &&& bare.len() == 1
            &&& bare[0].alias is None
            &&& says(Some(bare[0].expr), Some(e))
        }),
        ({
            let named = projected_columns(seq![SqlItemView::Alias { expr: e, alias: name }]);
            &&& named.len() == 1
            &&& named[0].alias == Some(name)
            &&& says(Some(named[0].expr), Some(e))
        }),
        projected_columns(seq![SqlItemView::Wildcard]) == seq![
            ProjectView { alias: None, expr: ScalarView::Column("*"@) },
        ],
    decreases b.len(),
{
    reveal_with_fuel(projected_columns, 2);
    if plain_expr(e) {
        law_expression_reads_back(e);
    }
    assert(seq![SqlItemView::Expr(e)].drop_last() =~= Seq::empty());
    assert(seq![SqlItemView::Alias { expr: e, alias: name }].drop_last() =~= Seq::empty());
    assert(seq![SqlItemView::Wildcard].drop_last() =~= Seq::empty());
    if b.len() == 0 {
        assert(a + b =~= a);
    } else {
        law_columns_in_order(e, name, a, b.drop_last());
        assert((a + b).drop_last() =~= a + b.drop_last());
        assert((a + b).last() == b.last());
    }
}

/// A column is called by the last part of its name.
pub proof fn law_column_is_its_last_part(qualifier: Seq<Seq<char>>, c: Seq<char>)
    ensures
        column_name(SqlExprView::Identifier(c)) == Some(c),
        column_name(SqlExprView::Compound(qualifier.push(c))) == Some(c),
{
}

// ── Windows ───────────────────────────────────────────────────────────────────

/// An interval of `n` seconds, minutes, hours or days, `n` written as a number.
pub open spec fn interval(n: u64, unit: SqlUnit) -> SqlArgView {
    SqlArgView::Expr(
        SqlExprView::Interval {
            value: Box::new(SqlExprView::Value(SqlValueView::Number(text::nat_text(n as nat)))),
            unit: Some(unit),
        },
    )
}

proof fn lemma_digits_stay(n: nat)
    ensures
        text_order::trimmed(text::nat_text(n)) == text::nat_text(n),
{
    text::law_digits_read_back(n);
    let t = text::nat_text(n);
    assert(text::is_digit(t[0]));
    assert(text::is_digit(t[t.len() - 1]));
    assert(text_order::trim_front(t) == t);
}

/// An interval of `n` seconds is `n` seconds long; a minute is sixty of them, an
/// hour sixty minutes, a day twenty-four hours.
pub proof fn law_interval_units(n: u64)
    ensures
        arg_span(interval(n, SqlUnit::Second)) == Some(Duration::of_secs(n)),
        60 * n <= u64::MAX ==> arg_span(interval(n, SqlUnit::Minute)) == arg_span(
            interval((60 * n) as u64, SqlUnit::Second),
        ),
        60 * n <= u64::MAX ==> arg_span(interval(n, SqlUnit::Hour)) == arg_span(
            interval((60 * n) as u64, SqlUnit::Minute),
        ),
        24 * n <= u64::MAX ==> arg_span(interval(n, SqlUnit::Day)) == arg_span(
            interval((24 * n) as u64, SqlUnit::Hour),
        ),
        60 * n > u64::MAX ==> arg_span(interval(n, SqlUnit::Minute)) is None,
        3600 * n > u64::MAX ==> arg_span(interval(n, SqlUnit::Hour)) is None,
        86400 * n > u64::MAX ==> arg_span(interval(n, SqlUnit::Day)) is None,
{
    lemma_interval(n, SqlUnit::Second);
    lemma_interval(n, SqlUnit::Minute);
    lemma_interval(n, SqlUnit::Hour);
    lemma_interval(n, SqlUnit::Day);
    if 60 * n <= u64::MAX {
        lemma_interval((60 * n) as u64, SqlUnit::Second);
        lemma_interval((60 * n) as u64, SqlUnit::Minute);
    }
    if 24 * n <= u64::MAX {
        lemma_interval((24 * n) as u64, SqlUnit::Hour);
    }
}

proof fn lemma_interval(n: u64, unit: SqlUnit)
    requires
        unit != SqlUnit::Other,
    ensures
        arg_span(interval(n, unit)) == span(n, unit_secs(unit)->0),
{
    text::law_digits_read_back(n as nat);
    lemma_digits_stay(n as nat);
    let t = text::nat_text(n as nat);
    assert(text::is_digit(t[0]));
    assert(text::u64_value(t) == Some(n));
}

/// The seconds that a word counts.
pub open spec fn seconds_in(word: Seq<char>) -> Option<u64> {
    if word == "s"@ || word == "second"@ || word == "seconds"@ {
        Some(1)
    } else if word == "m"@ || word == "min"@ || word == "minute"@ || word == "minutes"@ {
        Some(60)
    } else if word == "h"@ || word == "hour"@ || word == "hours"@ {
        Some(3600)
    } else {
        None
    }
}

proof fn lemma_unlike(s: Seq<char>, suffix: Seq<char>, k: int)
    requires
        0 <= k < suffix.len(),
        s.len() > k ==> s[s.len() - 1 - k] != suffix[suffix.len() - 1 - k],
    ensures
        !text::has_suffix(s, suffix),
{
    if suffix.len() <= s.len() {
        let t = s.subrange(s.len() - suffix.len(), s.len() as int);
        assert(t[suffix.len() - 1 - k] == s[s.len() - 1 - k]);
    }
}

proof fn lemma_ends(p: Seq<char>, word: Seq<char>)
    ensures
        text::has_suffix(p + word, word),
        text::drop_suffix(p + word, word) == p,
{
    let s = p + word;
    assert(s.subrange(s.len() - word.len(), s.len() as int) =~= word);
    assert(text::drop_suffix(s, word) =~= p);
}

#[verifier::rlimit(50)]
proof fn lemma_unit_split(p: Seq<char>, word: Seq<char>)
    requires
        p.len() > 0,
        text::is_digit(p.last()) || p.last() == ' ',
        seconds_in(word) is Some,
    ensures
        unit_split(p + word) == Some((p, seconds_in(word)->0)),
{
    reveal_strlit("s");
    reveal_strlit("second");
    reveal_strlit("seconds");
    reveal_strlit("m");
    reveal_strlit("min");
    reveal_strlit("minute");
    reveal_strlit("minutes");
    reveal_strlit("h");
    reveal_strlit("hour");
    reveal_strlit("hours");
    assert("s"@.len() == 1 && "m"@.len() == 1 && "h"@.len() == 1 && "min"@.len() == 3
        && "hour"@.len() == 4 && "hours"@.len() == 5 && "second"@.len() == 6 && "minute"@.len() == 6
        && "seconds"@.len() == 7 && "minutes"@.len() == 7);
    assert("s"@[0] == 's' && "m"@[0] == 'm' && "h"@[0] == 'h' && "second"@[0] == 's'
        && "minute"@[0] == 'm' && "seconds"@[0] == 's' && "minutes"@[0] == 'm');
    let s = p + word;
    lemma_ends(p, word);
    assert(s[p.len() - 1] == p.last());
    assert(s[s.len() - 1] == word[word.len() - 1]);
    if word == "minutes"@ {
    } else if word == "minute"@ {
        lemma_unlike(s, "minutes"@, 0);
    } else if word == "min"@ {
        lemma_unlike(s, "minutes"@, 0);
        lemma_unlike(s, "minute"@, 0);
    } else {
        if word == "hours"@ {
            assert(s[s.len() - 2] == 'r');
            lemma_unlike(s, "minutes"@, 1);
        } else if word == "seconds"@ {
            assert(s[s.len() - 2] == 'd');
            lemma_unlike(s, "minutes"@, 1);
            lemma_unlike(s, "hours"@, 1);
        } else if word == "s"@ {
            lemma_unlike(s, "minutes"@, 1);
            lemma_unlike(s, "hours"@, 1);
            lemma_unlike(s, "seconds"@, 1);
        } else {
            lemma_unlike(s, "minutes"@, 0);
            lemma_unlike(s, "hours"@, 0);
            lemma_unlike(s, "seconds"@, 0);
            lemma_unlike(s, "s"@, 0);
        }
        lemma_unlike(s, "minute"@, 0);
        lemma_unlike(s, "min"@, 0);
        if word != "hour"@ {
            lemma_unlike(s, "hour"@, 0);
        }
        if word != "h"@ {
            lemma_unlike(s, "h"@, 0);
        }
        if word != "second"@ {
            lemma_unlike(s, "second"@, 0);
        }
    }
}

/// A number before a unit's word, with a blank between them or none, spans that
/// many of the unit.
pub proof fn law_spelled_span(n: u64, word: Seq<char>)
    requires
        seconds_in(word) is Some,
    ensures
        ({
            let digits = text::nat_text(n as nat);
            let secs = n * seconds_in(word)->0;
            let want = if secs <= u64::MAX {
                Some(Duration::of_secs(secs as u64))
            } else {
                None
            };
            &&& spelled_span(digits + word) == want
            &&& spelled_span(digits.push(' ') + word) == want
        }),
{
    text::law_digits_read_back(n as nat);
    lemma_digits_stay(n as nat);
    let digits = text::nat_text(n as nat);
    assert(text::is_digit(digits[0]));
    assert(text::is_digit(digits[digits.len() - 1]));
    assert(text::u64_value(digits) == Some(n));
    lemma_unit_split(digits, word);
    let apart = digits.push(' ');
    lemma_unit_split(apart, word);
    assert(text_order::trimmed(apart) == digits) by {
        assert(text_order::trim_front(apart) == apart);
        assert(apart.drop_last() =~= digits);
        reveal_with_fuel(text_order::trim_back, 2);
    }
}

/// Whether a call opens a window: `TUMBLE(time, size)`, `HOP(time, slide, size)`
/// or `TIME_BUCKET(size, time)`.
pub open spec fn opens(e: SqlExprView, w: SqlWindowView) -> bool {
    match e {
        SqlExprView::Function { name, args: SqlArgsView::List { args, .. } } => {
            let word = upper_case(last_part(name));
            ||| {
                &&& word == "TUMBLE"@
                &&& args.len() >= 2
                &&& w.time_col == arg_column(args[0])
                &&& arg_span(args[1]) == Some(w.size)
                &&& w.slide is None
            }
            ||| {
                &&& word == "HOP"@
                &&& args.len() >= 3
                &&& w.time_col == arg_column(args[0])
                &&& w.slide is Some
                &&& arg_span(args[1]) == w.slide
                &&& arg_span(args[2]) == Some(w.size)
            }
            ||| {
                &&& word == "TIME_BUCKET"@
                &&& args.len() >= 2
                &&& arg_span(args[0]) == Some(w.size)
                &&& w.time_col == arg_column(args[1])
                &&& w.slide is None
            }
        },
        _ => false,
    }
}

/// Whether an expression calls for a window, readable or not.
pub open spec fn calls_for_window(e: SqlExprView) -> bool {
    match e {
        SqlExprView::Function { name, args: SqlArgsView::List { args, .. } } => {
            let word = upper_case(last_part(name));
            (word == "TUMBLE"@ && args.len() >= 2) || (word == "HOP"@ && args.len() >= 3) || (word
                == "TIME_BUCKET"@ && args.len() >= 2)
        },
        _ => false,
    }
}

/// Whether an expression opens no window.
pub open spec fn cannot_open(e: SqlExprView) -> bool {
    forall|w: SqlWindowView| !#[trigger] opens(e, w)
}

/// Whether a window is that of the first expression that calls for one; none
/// where no expression calls for one, or where the first call names no span.
pub open spec fn first_window(w: Option<SqlWindowView>, es: Seq<SqlExprView>) -> bool {
    match w {
        Some(w) => exists|i: int|
            0 <= i < es.len() && #[trigger] opens(es[i], w) && forall|j: int|
                0 <= j < i ==> !#[trigger] calls_for_window(es[j]),
        None => {
            ||| forall|j: int| 0 <= j < es.len() ==> !#[trigger] calls_for_window(es[j])
            ||| exists|i: int|
                0 <= i < es.len() && #[trigger] calls_for_window(es[i]) && cannot_open(es[i])
                    && forall|j: int| 0 <= j < i ==> !#[trigger] calls_for_window(es[j])
        },
    }
}

proof fn lemma_words()
    ensures
        "TUMBLE"@ != "HOP"@,
        "TUMBLE"@ != "TIME_BUCKET"@,
        "HOP"@ != "TIME_BUCKET"@,
{
    reveal_strlit("TUMBLE");
    reveal_strlit("HOP");
    reveal_strlit("TIME_BUCKET");
    assert("TUMBLE"@.len() == 6 && "HOP"@.len() == 3 && "TIME_BUCKET"@.len() == 11);
}

/// The window of a `GROUP BY` is that of its first window call, size, slide and
/// time column each from its own argument.
pub proof fn law_window_is_that_called(es: Seq<SqlExprView>)
    ensures
        first_window(group_window(SqlGroupByView::Exprs(es)), es),
    decreases es.len(),
{
    lemma_words();
    if es.len() > 0 {
        let e = es[0];
        let w = window_among(es);
        if calls_for_window(e) {
            if let Some(x) = w {
                assert(opens(e, x));
            } else {
                assert(cannot_open(e));
            }
        } else {
            let rest = es.drop_first();
            law_window_is_that_called(rest);
            assert(w == window_among(rest));
            if let Some(x) = w {
                let i = choose|i: int|
                    0 <= i < rest.len() && #[trigger] opens(rest[i], x) && forall|j: int|
                        0 <= j < i ==> !#[trigger] calls_for_window(rest[j]);
                assert(es[i + 1] == rest[i]);
                assert(opens(es[i + 1], x));
                assert forall|j: int| 0 <= j < i + 1 implies !#[trigger] calls_for_window(es[j]) by {
                    if j > 0 {
                        assert(es[j] == rest[j - 1]);
                        assert(!calls_for_window(rest[j - 1]));
                    }
                }
            } else if forall|j: int| 0 <= j < rest.len() ==> !#[trigger] calls_for_window(rest[j]) {
                assert forall|j: int| 0 <= j < es.len() implies !#[trigger] calls_for_window(
                    es[j],
                ) by {
                    if j > 0 {
                        assert(es[j] == rest[j - 1]);
                        assert(!calls_for_window(rest[j - 1]));
                    }
                }
            } else {
                let i = choose|i: int|
                    0 <= i < rest.len() && #[trigger] calls_for_window(rest[i]) && cannot_open(
                        rest[i],
                    ) && forall|j: int| 0 <= j < i ==> !#[trigger] calls_for_window(rest[j]);
                assert(es[i + 1] == rest[i]);
                assert(calls_for_window(es[i + 1]));
                assert forall|j: int| 0 <= j < i + 1 implies !#[trigger] calls_for_window(es[j]) by {
                    if j > 0 {
                        assert(es[j] == rest[j - 1]);
                        assert(!calls_for_window(rest[j - 1]));
                    }
                }
            }
        }
    }
}

// ── Limits, set operations, statements ────────────────────────────────────────

/// The number `n` in digits.
pub open spec fn number(n: u64) -> SqlExprView {
    SqlExprView::Value(SqlValueView::Number(text::nat_text(n as nat)))
}

/// `LIMIT n OFFSET m` and `LIMIT m, n` both skip `m` rows and give `n`; without an
/// offset none are skipped.
pub proof fn law_limits(n: u64, m: u64)
    ensures
        limit_values(
            SqlLimitView::LimitOffset { limit: Some(number(n)), offset: Some(number(m)) },
        ) == (Some(n), m),
        limit_values(SqlLimitView::OffsetComma { offset: number(m), limit: number(n) }) == (
            Some(n),
            m,
        ),
        limit_values(SqlLimitView::LimitOffset { limit: Some(number(n)), offset: None }) == (
            Some(n),
            0u64,
        ),
{
    lemma_number(n);
    lemma_number(m);
}

proof fn lemma_number(n: u64)
    ensures
        u64_of(number(n)) == Some(n),
{
    text::law_digits_read_back(n as nat);
    assert(text::is_digit(text::nat_text(n as nat)[0]));
}

/// A set operation is of its own kind, keeps duplicates where `ALL` or `BY NAME`
/// is written, and has on each side the query that side stands for alone.
pub proof fn law_set_operation_keeps_its_sides(
    left: SqlBodyView,
    op: SqlSetOp,
    quantifier: SqlQuantifier,
    right: SqlBodyView,
    orders: Seq<SqlOrderView>,
    limit: Option<u64>,
    offset: u64,
)
    ensures
        ({
            let l = body_query(left, Seq::empty(), None, 0);
            let r = body_query(right, Seq::empty(), None, 0);
            let both = body_query(
                SqlBodyView::SetOperation {
                    left: Box::new(left),
                    op,
                    quantifier,
                    right: Box::new(right),
                },
                orders,
                limit,
                offset,
            );
            &&& both is Ok == (l is Ok && r is Ok)
            &&& both is Ok ==> match both->Ok_0 {
                QueryView::SetOp { kind, all, left: x, right: y } => {
                    &&& *x == l->Ok_0
                    &&& *y == r->Ok_0
                    &&& (kind is Union) == (op == SqlSetOp::Union)
                    &&& (kind is Intersect) == (op == SqlSetOp::Intersect)
                    &&& all == (quantifier == SqlQuantifier::All || quantifier
                        == SqlQuantifier::ByName)
                },
                _ => false,
            }
        }),
{
    reveal_with_fuel(body_query, 2);
}

/// A query has the order and the limit that it writes, over its own body; in
/// parentheses it is the same.
pub proof fn law_query_is_its_body(q: SqlQueryView, outer: SqlQueryView, s: SqlSelectView)
    ensures
        *q.body == SqlBodyView::Select(s) ==> full_query(q) == select_query(
            s,
            match q.order_by {
                SqlOrderByView::Keys(ks) => ks,
                _ => Seq::empty(),
            },
            limit_values(q.limit).0,
            limit_values(q.limit).1,
        ),
        *outer.body == SqlBodyView::Query(Box::new(q)) ==> full_query(outer) == full_query(q),
{
    reveal_with_fuel(full_query, 2);
    reveal_with_fuel(body_query, 2);
}

/// The last statement of a text is the one that counts.
pub proof fn law_last_statement_counts(
    sql: Seq<char>,
    before: Seq<SqlStatementView>,
    q: SqlQueryView,
)
    ensures
        sql_query(sql, Some(before.push(SqlStatementView::Query(q)))) == full_query(q),
{
}

} // verus!
