//! What holds of every query that a PromQL text stands for: its scans are the
//! selectors of the text from left to right, its operands stand on the sides on
//! which they were written, and it computes what its functions and operators
//! name.
use vstd::prelude::*;

use crate::algebra::expr::{
    AggFuncView, BinaryOpKind, ColumnView, GroupSide, LiteralView, PartitionView, QueryView,
    ScalarView, VectorMatchKind, VectorMatchView,
};
use crate::algebra::reading::{filtered_scan, scan, scans, Scan};
use crate::decimal;
use crate::decimal::Decimal;
use crate::query_parser::promql::{
    aggregate_number, call_func, conjunction, inner_matrix, label_matchers, name_matcher, no_ctx,
    operand_ctx, opt_partition_of, promql_query, selected, shape_of, walked, WalkView,
};
use crate::query_parser::promql_ast::{
    CardinalityView, MatchKindView, MatchModifierView, MatcherView, ModifierView, PromView,
    SelectorView,
};
use crate::types::Duration;

verus! {

// ── Selectors ─────────────────────────────────────────────────────────────────

/// Whether a matcher is on the metric name.
pub open spec fn on_name(m: MatcherView) -> bool {
    m.name == "__name__"@
}

/// Whether a predicate compares a label as a matcher does.
pub open spec fn compares(p: ScalarView, m: MatcherView) -> bool {
    match p {
        ScalarView::BinaryOp { op, lhs, rhs } => *lhs == ScalarView::Column(m.name)
            && match m.kind {
            MatchKindView::Equal => op == BinaryOpKind::Eq && *rhs == ScalarView::Literal(
                LiteralView::Str(m.value),
            ),
            MatchKindView::NotEqual => op == BinaryOpKind::Ne && *rhs == ScalarView::Literal(
                LiteralView::Str(m.value),
            ),
            MatchKindView::Regex(re) => op == BinaryOpKind::Regex && *rhs == ScalarView::Literal(
                LiteralView::Str(re),
            ),
            MatchKindView::NotRegex(re) => op == BinaryOpKind::NotRegex && *rhs
                == ScalarView::Literal(LiteralView::Str(re)),
        },
        _ => false,
    }
}

/// Whether a predicate holds exactly where all matchers match: it joins their
/// comparisons by `and`, in order.
pub open spec fn tests_all(p: ScalarView, s: Seq<MatcherView>) -> bool
    decreases s.len(),
{
    if s.len() == 0 {
        p == ScalarView::Literal(LiteralView::Bool(true))
    } else {
        match p {
            ScalarView::BinaryOp { op, lhs, rhs } => op == BinaryOpKind::And && tests_all(
                *lhs,
                s.drop_last(),
            ) && compares(*rhs, s.last()),
            _ => false,
        }
    }
}

/// Whether a scan reads what a selector selects: the metric that it names, the
/// series that all its label matchers match, in the window that it asks for.
pub open spec fn scans_as(c: Scan, s: SelectorView, range: Option<Duration>) -> bool {
    &&& match s.name {
        Some(n) => c.source == n,
        None => is_first_name(c.source, s.matchers),
    }
    &&& match c.pred {
        Some(p) => s.matchers.filter(|m: MatcherView| !on_name(m)).len() > 0 && tests_all(
            p,
            s.matchers.filter(|m: MatcherView| !on_name(m)),
        ),
        None => s.matchers.filter(|m: MatcherView| !on_name(m)).len() == 0,
    }
    &&& c.window == (match range {
        Some(d) => Some((d, None::<Duration>)),
        None => None,
    })
}

/// Whether a name is the value of the first matcher on the metric name; empty
/// where there is none.
pub open spec fn is_first_name(name: Seq<char>, s: Seq<MatcherView>) -> bool {
    ||| exists|i: int|
        0 <= i < s.len() && on_name(#[trigger] s[i]) && s[i].value == name && forall|j: int|
            0 <= j < i ==> !on_name(#[trigger] s[j])
    ||| name.len() == 0 && forall|j: int| 0 <= j < s.len() ==> !on_name(#[trigger] s[j])
}

/// Whether an argument of a function comes after a number.
pub open spec fn takes_number(name: Seq<char>) -> bool {
    name == "histogram_quantile"@ || name == "quantile_over_time"@
}

/// The range selector inside an expression: inside parentheses and as the first
/// argument of calls.
pub open spec fn range_in(e: PromView) -> Seq<(SelectorView, Option<Duration>)>
    decreases e,
{
    match e {
        PromView::Matrix { selector, range } => seq![(selector, Some(range))],
        PromView::Paren(inner) => range_in(*inner),
        PromView::Call { args, .. } => if args.len() == 0 {
            Seq::empty()
        } else {
            range_in(args[0])
        },
        _ => Seq::empty(),
    }
}

/// The selectors that an expression reads, from left to right, with the ranges
/// that it reads them over.
pub open spec fn selectors(e: PromView) -> Seq<(SelectorView, Option<Duration>)>
    decreases e,
{
    match e {
        PromView::Vector(s) => seq![(s, None)],
        PromView::Paren(inner) => selectors(*inner),
        PromView::Subquery { expr, .. } => selectors(*expr),
        PromView::Aggregate { expr, .. } => selectors(*expr),
        PromView::Binary { lhs, rhs, .. } => selectors(*lhs) + selectors(*rhs),
        PromView::Call { name, args } => if takes_number(name) {
            if args.len() > 1 {
                range_in(args[1])
            } else {
                Seq::empty()
            }
        } else if args.len() > 0 {
            range_in(args[0])
        } else {
            Seq::empty()
        },
        _ => Seq::empty(),
    }
}

/// Whether scans read what selectors select, one for one.
pub open spec fn all_scan(c: Seq<Scan>, s: Seq<(SelectorView, Option<Duration>)>) -> bool {
    c.len() == s.len() && forall|i: int|
        0 <= i < c.len() ==> scans_as(#[trigger] c[i], s[i].0, s[i].1)
}

proof fn lemma_name_matcher(s: Seq<MatcherView>)
    ensures
        is_first_name(
            match name_matcher(s) {
                Some(v) => v,
                None => Seq::empty(),
            },
            s,
        ),
        name_matcher(s) is None ==> forall|j: int| 0 <= j < s.len() ==> !on_name(#[trigger] s[j]),
        name_matcher(s) matches Some(v) ==> exists|i: int|
            0 <= i < s.len() && on_name(#[trigger] s[i]) && s[i].value == v && forall|j: int|
                0 <= j < i ==> !on_name(#[trigger] s[j]),
    decreases s.len(),
{
    if s.len() > 0 {
        if on_name(s[0]) {
            assert(on_name(s[0]) && s[0].value == name_matcher(s)->0);
        } else {
            let rest = s.drop_first();
            lemma_name_matcher(rest);
            match name_matcher(rest) {
                Some(v) => {
                    let i = choose|i: int|
                        0 <= i < rest.len() && on_name(#[trigger] rest[i]) && rest[i].value == v
                            && forall|j: int| 0 <= j < i ==> !on_name(#[trigger] rest[j]);
                    assert(s[i + 1] == rest[i]);
                    assert forall|j: int| 0 <= j < i + 1 implies !on_name(#[trigger] s[j]) by {
                        if j > 0 {
                            assert(!on_name(rest[j - 1]));
                        }
                    }
                },
                None => {
                    assert forall|j: int| 0 <= j < s.len() implies !on_name(#[trigger] s[j]) by {
                        if j > 0 {
                            assert(!on_name(rest[j - 1]));
                        }
                    }
                },
            }
        }
    }
}

proof fn lemma_label_matchers(s: Seq<MatcherView>)
    ensures
        label_matchers(s) == s.filter(|m: MatcherView| !on_name(m)),
    decreases s.len(),
{
    reveal(Seq::filter);
    if s.len() > 0 {
        lemma_label_matchers(s.drop_last());
    }
}

proof fn lemma_conjunction(s: Seq<MatcherView>)
    ensures
        tests_all(conjunction(s), s),
    decreases s.len(),
{
    if s.len() > 0 {
        lemma_conjunction(s.drop_last());
    }
}

/// A selector scans the metric that it names and keeps the series that all its
/// label matchers match.
pub proof fn law_selector_scans(s: SelectorView, range: Duration)
    ensures
        scans(selected(s)).len() == 1,
        scans_as(scans(selected(s))[0], s, None),
        ({
            let q = QueryView::Window {
                duration: range,
                slide: None,
                input: Box::new(selected(s)),
            };
            scans(q).len() == 1 && scans_as(scans(q)[0], s, Some(range))
        }),
{
    lemma_name_matcher(s.matchers);
    lemma_label_matchers(s.matchers);
    lemma_conjunction(label_matchers(s.matchers));
    assert(scan(selected(s)) is Some);
}

proof fn lemma_range_in(e: PromView)
    ensures
        match inner_matrix(e) {
            Ok((s, range)) => range_in(e) == seq![(s, Some(range))],
            Err(_) => true,
        },
    decreases e,
{
    match e {
        PromView::Paren(inner) => lemma_range_in(*inner),
        PromView::Call { args, .. } => {
            if args.len() > 0 {
                lemma_range_in(args[0]);
            }
        },
        _ => {},
    }
}

/// The query of an expression scans the selectors of the expression, from left
/// to right: the same metrics, label matchers and ranges, none more and none
/// less, whatever encloses it.
pub proof fn law_scans_are_the_selectors(e: PromView, ctx: WalkView)
    ensures
        match walked(e, ctx) {
            Ok(q) => all_scan(scans(q), selectors(e)) && scan(q) is None,
            Err(_) => true,
        },
    decreases e,
{
    reveal_with_fuel(scans, 4);
    match e {
        PromView::Aggregate { op, expr, param, modifier } => {
            if let Ok(n) = aggregate_number(op, param) {
                law_scans_are_the_selectors(
                    *expr,
                    operand_ctx(shape_of(op), n, opt_partition_of(modifier), ctx),
                );
            }
        },
        PromView::Call { name, args } => {
            let at: int = if takes_number(name) {
                1
            } else {
                0
            };
            if at < args.len() {
                lemma_range_in(args[at]);
                if let Ok((s, range)) = inner_matrix(args[at]) {
                    law_selector_scans(s, range);
                }
            }
        },
        PromView::Binary { lhs, rhs, .. } => {
            law_scans_are_the_selectors(*lhs, no_ctx());
            law_scans_are_the_selectors(*rhs, no_ctx());
            if let (Ok(l), Ok(r)) = (walked(*lhs, no_ctx()), walked(*rhs, no_ctx())) {
                lemma_both_scan(scans(l), scans(r), selectors(*lhs), selectors(*rhs));
            }
        },
        PromView::Paren(inner) => law_scans_are_the_selectors(*inner, ctx),
        PromView::Subquery { expr, .. } => law_scans_are_the_selectors(*expr, ctx),
        PromView::Vector(s) => law_selector_scans(s, arbitrary()),
        _ => {},
    }
}

proof fn lemma_both_scan(
    a: Seq<Scan>,
    b: Seq<Scan>,
    s: Seq<(SelectorView, Option<Duration>)>,
    t: Seq<(SelectorView, Option<Duration>)>,
)
    requires
        all_scan(a, s),
        all_scan(b, t),
    ensures
        all_scan(a + b, s + t),
{
    assert forall|i: int| 0 <= i < (a + b).len() implies scans_as(
        #[trigger] (a + b)[i],
        (s + t)[i].0,
        (s + t)[i].1,
    ) by {
        if i < a.len() {
            assert(scans_as(a[i], s[i].0, s[i].1));
        } else {
            assert(scans_as(b[i - a.len()], t[i - a.len()].0, t[i - a.len()].1));
        }
    }
}

// ── Operators ─────────────────────────────────────────────────────────────────

/// The sign that an operator is written by.
pub open spec fn sign(k: BinaryOpKind) -> Option<Seq<char>> {
    match k {
        BinaryOpKind::Add => Some("+"@),
        BinaryOpKind::Sub => Some("-"@),
        BinaryOpKind::Mul => Some("*"@),
        BinaryOpKind::Div => Some("/"@),
        BinaryOpKind::Mod => Some("%"@),
        BinaryOpKind::Pow => Some("^"@),
        BinaryOpKind::Eq => Some("=="@),
        BinaryOpKind::Ne => Some("!="@),
        BinaryOpKind::Lt => Some("<"@),
        BinaryOpKind::Le => Some("<="@),
        BinaryOpKind::Gt => Some(">"@),
        BinaryOpKind::Ge => Some(">="@),
        BinaryOpKind::And => Some("and"@),
        BinaryOpKind::Or => Some("or"@),
        BinaryOpKind::Unless => Some("unless"@),
        BinaryOpKind::Atan2 => Some("atan2"@),
        _ => None,
    }
}

/// Whether a vector match matches series as a modifier asks.
pub open spec fn matches_as(v: Option<VectorMatchView>, m: Option<MatchModifierView>) -> bool {
    match (v, m) {
        (None, None) => true,
        (Some(v), Some(m)) => {
            &&& match m.matching {
                Some(ModifierView::Include(labels)) => v.kind == VectorMatchKind::On && v.labels
                    == labels,
                Some(ModifierView::Exclude(labels)) => v.kind == VectorMatchKind::Ignoring
                    && v.labels == labels,
                None => v.kind == VectorMatchKind::On && v.labels.len() == 0,
            }
            &&& match (m.card, v.grouping) {
                (CardinalityView::ManyToOne(labels), Some(g)) => g.side == GroupSide::Left
                    && g.labels == labels,
                (CardinalityView::OneToMany(labels), Some(g)) => g.side == GroupSide::Right
                    && g.labels == labels,
                (CardinalityView::OneToOne, None) => true,
                (CardinalityView::ManyToMany, None) => true,
                _ => false,
            }
        },
        _ => false,
    }
}

/// The query of `l op r` applies the operator that the sign writes to the query
/// of `l` alone, on the left, and that of `r` alone, on the right, and matches
/// series as its modifier asks. Where one of them has no query the error is that
/// of the leftmost.
pub proof fn law_operands_keep_their_sides(
    op: Seq<char>,
    lhs: PromView,
    rhs: PromView,
    modifier: Option<MatchModifierView>,
    k: BinaryOpKind,
)
    ensures
        ({
            let whole = promql_query(
                Ok(PromView::Binary { op, lhs: Box::new(lhs), rhs: Box::new(rhs), modifier }),
            );
            match (promql_query(Ok(lhs)), promql_query(Ok(rhs))) {
                (Ok(l), Ok(r)) => match whole {
                    Ok(QueryView::BinaryOp { op: applied, lhs: x, rhs: y, vector_match }) => {
                        &&& *x == l
                        &&& *y == r
                        &&& sign(k) == Some(op) ==> applied == k
                        &&& matches_as(vector_match, modifier)
                    },
                    _ => false,
                },
                (Err(m), _) => whole == Err::<QueryView, Seq<char>>(m),
                (Ok(_), Err(m)) => whole == Err::<QueryView, Seq<char>>(m),
            }
        }),
{
    reveal_strlit("+");
    reveal_strlit("-");
    reveal_strlit("*");
    reveal_strlit("/");
    reveal_strlit("%");
    reveal_strlit("^");
    reveal_strlit("==");
    reveal_strlit("!=");
    reveal_strlit("<");
    reveal_strlit("<=");
    reveal_strlit(">");
    reveal_strlit(">=");
    reveal_strlit("and");
    reveal_strlit("or");
    reveal_strlit("unless");
    reveal_strlit("atan2");
    reveal_with_fuel(walked, 2);
    if sign(k) == Some(op) {
        lemma_sign(op, k);
    }
}

proof fn lemma_sign(op: Seq<char>, k: BinaryOpKind)
    requires
        sign(k) == Some(op),
    ensures
        crate::query_parser::promql::binop_of(op) == k,
{
    reveal_strlit("+");
    reveal_strlit("-");
    reveal_strlit("*");
    reveal_strlit("/");
    reveal_strlit("%");
    reveal_strlit("^");
    reveal_strlit("==");
    reveal_strlit("!=");
    reveal_strlit("<");
    reveal_strlit("<=");
    reveal_strlit(">");
    reveal_strlit(">=");
    reveal_strlit("and");
    reveal_strlit("or");
    reveal_strlit("unless");
    reveal_strlit("atan2");
    let c = op[0];
    let n = op.len();
    assert(op == "-"@ ==> n == 1 && c == '-');
    assert(op == "*"@ ==> n == 1 && c == '*');
    assert(op == "/"@ ==> n == 1 && c == '/');
    assert(op == "%"@ ==> n == 1 && c == '%');
    assert(op == "^"@ ==> n == 1 && c == '^');
    assert(op == "=="@ ==> n == 2 && c == '=');
    assert(op == "!="@ ==> n == 2 && c == '!');
    assert(op == "<"@ ==> n == 1 && c == '<');
    assert(op == "<="@ ==> n == 2 && c == '<');
    assert(op == ">"@ ==> n == 1 && c == '>');
    assert(op == ">="@ ==> n == 2 && c == '>');
    assert(op == "and"@ ==> n == 3);
    assert(op == "or"@ ==> n == 2 && c == 'o');
    assert(op == "unless"@ ==> n == 6);
    assert(op == "atan2"@ ==> n == 5);
    assert(op == "+"@ ==> n == 1 && c == '+');
}

/// Parentheses mean nothing, and a subquery is the query of its expression over
/// the range and at the step that are written.
pub proof fn law_parentheses_and_subqueries(e: PromView, range: Duration, step: Option<Duration>)
    ensures
        promql_query(Ok(PromView::Paren(Box::new(e)))) == promql_query(Ok(e)),
        match (
            promql_query(Ok(e)),
            promql_query(Ok(PromView::Subquery { expr: Box::new(e), range, step })),
        ) {
            (
                Ok(q),
                Ok(QueryView::PromQLSubquery { range: over, resolution, input }),
            ) => *input == q && over == range && resolution == step,
            (Err(m), Err(n)) => m == n,
            _ => false,
        },
{
    reveal_with_fuel(walked, 2);
}

// ── Functions ─────────────────────────────────────────────────────────────────

/// Whether a function is called by a name.
pub open spec fn is_called(f: AggFuncView, name: Seq<char>) -> bool {
    match f {
        AggFuncView::Avg => name == "avg_over_time"@,
        AggFuncView::Min => name == "min_over_time"@,
        AggFuncView::Max => name == "max_over_time"@,
        AggFuncView::StdDev { population } => name == "stddev_over_time"@ && !population,
        AggFuncView::Variance { population } => name == "stdvar_over_time"@ && !population,
        AggFuncView::CountDistinct => name == "count_over_time"@,
        AggFuncView::Count => name == "count_over_time"@ || name == "changes"@ || name == "resets"@,
        AggFuncView::Sum => name == "sum_over_time"@ || name == "last_over_time"@ || name
            == "present_over_time"@ || name == "absent_over_time"@,
        AggFuncView::Delta => name == "delta"@ || name == "idelta"@ || name == "deriv"@ || name
            == "predict_linear"@,
        AggFuncView::Rate => name == "rate"@ || name == "irate"@,
        AggFuncView::Increase => name == "increase"@,
        AggFuncView::Quantile(_) => name == "quantile_over_time"@,
        _ => false,
    }
}

/// The one aggregate of an aggregate node: its keys, its function and the column
/// that it reads.
pub open spec fn one_aggregate(q: QueryView) -> Option<(Seq<Seq<char>>, AggFuncView, ColumnView)> {
    match q {
        QueryView::Aggregate { keys, aggs, having: None, .. } => if aggs.len() == 1
            && !aggs[0].distinct {
            Some((keys, aggs[0].func, aggs[0].col))
        } else {
            None
        },
        _ => None,
    }
}

/// The query of a call aggregates the sample value by the labels of the
/// enclosing grouping, with the function that the name calls; inside a ranking
/// it counts; a quantile is that of the number written.
pub proof fn law_call_computes_what_it_names(name: Seq<char>, args: Seq<PromView>, ctx: WalkView)
    ensures
        match walked(PromView::Call { name, args }, ctx) {
            Ok(QueryView::HistogramQuantile { phi, input }) => {
                &&& name == "histogram_quantile"@
                &&& args[0] matches PromView::Number(n) && decimal::decimal_value(n) == Some(phi)
                &&& one_aggregate(*input) == Some(
                    (Seq::<Seq<char>>::empty(), AggFuncView::Quantile(phi), ColumnView::SampleValue),
                )
            },
            Ok(q) => match one_aggregate(q) {
                Some((keys, f, col)) => {
                    &&& col == ColumnView::SampleValue
                    &&& match ctx.partition {
                        Some(PartitionView::By(labels)) => keys == labels,
                        Some(PartitionView::Without(labels)) => keys == labels,
                        None => keys.len() == 0,
                    }
                    &&& if ctx.topk is Some {
                        f == AggFuncView::Count
                    } else {
                        is_called(f, name) && (f is CountDistinct ==> ctx.outer_count) && (
                        f matches AggFuncView::Quantile(phi) ==> (args[0] matches PromView::Number(
                            n,
                        ) && decimal::decimal_value(n) == Some(phi)))
                    }
                },
                None => false,
            },
            Err(_) => true,
        },
{
}

/// A call of a range function on a range selector has a query.
pub proof fn law_calls_are_answered(
    name: Seq<char>,
    f: AggFuncView,
    selector: SelectorView,
    range: Duration,
    ctx: WalkView,
)
    requires
        is_called(f, name),
        f !is Quantile,
    ensures
        walked(
            PromView::Call { name, args: seq![PromView::Matrix { selector, range }] },
            ctx,
        ) is Ok,
{
    reveal_strlit("histogram_quantile");
    reveal_strlit("quantile_over_time");
    reveal_strlit("avg_over_time");
    reveal_strlit("min_over_time");
    reveal_strlit("max_over_time");
    reveal_strlit("stddev_over_time");
    reveal_strlit("stdvar_over_time");
    reveal_strlit("count_over_time");
    reveal_strlit("changes");
    reveal_strlit("resets");
    reveal_strlit("sum_over_time");
    reveal_strlit("last_over_time");
    reveal_strlit("present_over_time");
    reveal_strlit("absent_over_time");
    reveal_strlit("delta");
    reveal_strlit("idelta");
    reveal_strlit("deriv");
    reveal_strlit("predict_linear");
    reveal_strlit("rate");
    reveal_strlit("irate");
    reveal_strlit("increase");
    assert(name == "histogram_quantile"@ ==> name.len() == 18);
    assert(name == "quantile_over_time"@ ==> name.len() == 18);
    reveal_with_fuel(inner_matrix, 2);
    let args = seq![PromView::Matrix { selector, range }];
    assert(inner_matrix(args[0]) is Ok);
    assert(call_func(name, ctx.outer_count) is Ok);
}

// ── Aggregations ──────────────────────────────────────────────────────────────

/// The labels that a clause names.
pub open spec fn clause_labels(m: Option<ModifierView>) -> Seq<Seq<char>> {
    match m {
        Some(ModifierView::Include(labels)) => labels,
        Some(ModifierView::Exclude(labels)) => labels,
        None => Seq::empty(),
    }
}

/// What is grouped as a clause asks; `None` for a query that is not grouped so.
/// A clause that names no label asks for nothing.
pub open spec fn grouped_as(q: QueryView, m: Option<ModifierView>) -> Option<QueryView> {
    if clause_labels(m).len() == 0 {
        Some(q)
    } else {
        match (q, m) {
            (
                QueryView::Partition { keys: PartitionView::By(labels), input },
                Some(ModifierView::Include(want)),
            ) => if labels == want {
                Some(*input)
            } else {
                None
            },
            (
                QueryView::Partition { keys: PartitionView::Without(labels), input },
                Some(ModifierView::Exclude(want)),
            ) => if labels == want {
                Some(*input)
            } else {
                None
            },
            _ => None,
        }
    }
}

/// Whether an operator aggregates the values of series to a function of them.
pub open spec fn aggregates_to(f: AggFuncView, op: Seq<char>, n: Decimal) -> bool {
    match f {
        AggFuncView::CountDistinct => op == "count"@,
        AggFuncView::StdDev { population } => op == "stddev"@ && !population,
        AggFuncView::Variance { population } => op == "stdvar"@ && !population,
        AggFuncView::Quantile(q) => op == "quantile"@ && q == n,
        _ => false,
    }
}

/// The input of an aggregate node.
pub open spec fn aggregated_input(q: QueryView) -> Option<QueryView> {
    match q {
        QueryView::Aggregate { input, .. } => Some(*input),
        _ => None,
    }
}

/// Whether an operator ranks series.
pub open spec fn ranks(op: Seq<char>) -> bool {
    op == "topk"@ || op == "bottomk"@
}

/// Whether an operator only groups what its operand computes.
pub open spec fn only_groups(op: Seq<char>) -> bool {
    op == "sum"@ || op == "avg"@ || op == "min"@ || op == "max"@ || op == "group"@
}

/// Whether an operator has a query, given its parameter: rankings and quantiles
/// take a number.
pub open spec fn has_query(op: Seq<char>, param: Option<Box<PromView>>) -> bool {
    ||| only_groups(op) || op == "count"@ || op == "stddev"@ || op == "stdvar"@
    ||| {
        &&& ranks(op) || op == "quantile"@
        &&& match param {
            Some(p) => match *p {
                PromView::Number(t) => decimal::decimal_value(t) is Some,
                _ => false,
            },
            None => false,
        }
    }
}

/// An aggregation of something that has a query has one exactly where its
/// operator has.
pub proof fn law_aggregations_are_answered(
    op: Seq<char>,
    expr: PromView,
    param: Option<Box<PromView>>,
    modifier: Option<ModifierView>,
    ctx: WalkView,
)
    requires
        forall|inside: WalkView| #[trigger] walked(expr, inside) is Ok,
    ensures
        walked(PromView::Aggregate { op, expr: Box::new(expr), param, modifier }, ctx) is Ok
            <==> has_query(op, param),
{
    lemma_operators();
    lemma_other_operators();
    if let Ok(n) = aggregate_number(op, param) {
        let inside = operand_ctx(shape_of(op), n, opt_partition_of(modifier), ctx);
        assert(walked(expr, inside) is Ok);
    }
}

proof fn lemma_other_operators()
    ensures
        !ranks("sum"@) && !ranks("avg"@) && !ranks("min"@) && !ranks("max"@) && !ranks("group"@),
        !ranks("count"@) && !ranks("stddev"@) && !ranks("stdvar"@) && !ranks("quantile"@),
        !only_groups("quantile"@) && !only_groups("stddev"@) && !only_groups("stdvar"@),
        "quantile"@ != "stddev"@ && "quantile"@ != "stdvar"@,
{
    reveal_strlit("topk");
    reveal_strlit("bottomk");
    reveal_strlit("count");
    reveal_strlit("sum");
    reveal_strlit("avg");
    reveal_strlit("min");
    reveal_strlit("max");
    reveal_strlit("group");
    reveal_strlit("stddev");
    reveal_strlit("stdvar");
    reveal_strlit("quantile");
    assert("topk"@.len() == 4 && "bottomk"@.len() == 7 && "sum"@.len() == 3 && "avg"@.len() == 3
        && "min"@.len() == 3 && "max"@.len() == 3 && "group"@.len() == 5 && "count"@.len() == 5
        && "stddev"@.len() == 6 && "stdvar"@.len() == 6 && "quantile"@.len() == 8);
}

/// Whether a word is the one that an aggregate goes by.
pub open spec fn goes_by(word: Seq<char>, f: AggFuncView) -> bool {
    if word == "count"@ {
        f is Count
    } else if word == "count_distinct"@ {
        f is CountDistinct
    } else if word == "variance"@ {
        f is Variance
    } else if word == "quantile"@ {
        f is Quantile
    } else if word == "delta"@ {
        f is Delta
    } else {
        exists|name: Seq<char>| #[trigger]
            is_called(f, name) && (name == word || name == word + "_over_time"@)
    }
}

/// The aggregate of a call goes by the word for its function.
pub proof fn law_call_goes_by_its_function(name: Seq<char>, args: Seq<PromView>, ctx: WalkView)
    ensures
        match walked(PromView::Call { name, args }, ctx) {
            Ok(QueryView::Aggregate { aggs, .. }) => aggs.len() == 1 && goes_by(
                aggs[0].alias,
                aggs[0].func,
            ),
            _ => true,
        },
{
    lemma_over_time();
    if let Ok(QueryView::Aggregate { aggs, .. }) = walked(PromView::Call { name, args }, ctx) {
        let f = aggs[0].func;
        let word = aggs[0].alias;
        assert(word.len() >= 0);
        assert(is_called(AggFuncView::Sum, "sum_over_time"@));
        assert(is_called(AggFuncView::Avg, "avg_over_time"@));
        assert(is_called(AggFuncView::Min, "min_over_time"@));
        assert(is_called(AggFuncView::Max, "max_over_time"@));
        assert(is_called(AggFuncView::StdDev { population: false }, "stddev_over_time"@));
        assert(is_called(AggFuncView::Rate, "rate"@));
        assert(is_called(AggFuncView::Increase, "increase"@));
    }
}

proof fn lemma_over_time()
    ensures
        "sum_over_time"@ == "sum"@ + "_over_time"@,
        "avg_over_time"@ == "avg"@ + "_over_time"@,
        "min_over_time"@ == "min"@ + "_over_time"@,
        "max_over_time"@ == "max"@ + "_over_time"@,
        "stddev_over_time"@ == "stddev"@ + "_over_time"@,
        forall|w: Seq<char>|
            #![trigger w.len()]
            (w == "sum"@ || w == "avg"@ || w == "min"@ || w == "max"@ || w == "stddev"@ || w
                == "rate"@ || w == "increase"@) ==> w != "count"@ && w != "count_distinct"@ && w
                != "variance"@ && w != "quantile"@ && w != "delta"@,
        "count_distinct"@ != "count"@,
        "variance"@ != "count"@ && "variance"@ != "count_distinct"@,
        "quantile"@ != "count"@ && "quantile"@ != "count_distinct"@ && "quantile"@ != "variance"@,
        "delta"@ != "count"@ && "delta"@ != "count_distinct"@ && "delta"@ != "variance"@ && "delta"@
            != "quantile"@,
{
    reveal_strlit("_over_time");
    reveal_strlit("sum_over_time");
    reveal_strlit("avg_over_time");
    reveal_strlit("min_over_time");
    reveal_strlit("max_over_time");
    reveal_strlit("stddev_over_time");
    reveal_strlit("sum");
    reveal_strlit("avg");
    reveal_strlit("min");
    reveal_strlit("max");
    reveal_strlit("stddev");
    reveal_strlit("rate");
    reveal_strlit("increase");
    reveal_strlit("count");
    reveal_strlit("count_distinct");
    reveal_strlit("variance");
    reveal_strlit("quantile");
    reveal_strlit("delta");
    assert("sum_over_time"@ =~= "sum"@ + "_over_time"@);
    assert("avg_over_time"@ =~= "avg"@ + "_over_time"@);
    assert("min_over_time"@ =~= "min"@ + "_over_time"@);
    assert("max_over_time"@ =~= "max"@ + "_over_time"@);
    assert("stddev_over_time"@ =~= "stddev"@ + "_over_time"@);
    assert("count"@.len() == 5 && "delta"@.len() == 5 && "count_distinct"@.len() == 14
        && "variance"@.len() == 8 && "quantile"@.len() == 8 && "increase"@.len() == 8
        && "rate"@.len() == 4 && "stddev"@.len() == 6 && "sum"@.len() == 3 && "avg"@.len() == 3
        && "min"@.len() == 3 && "max"@.len() == 3);
    assert("count"@[0] == 'c' && "delta"@[0] == 'd' && "variance"@[0] == 'v' && "quantile"@[0]
        == 'q' && "increase"@[0] == 'i');
}

/// The query of an aggregation is over the query of its operand, read inside the
/// grouping: a ranking keeps as many as the number written by the labels of the
/// clause; the others group by the clause, on the outside, what is the operand
/// itself for `sum`, `avg`, `min`, `max` and `group`, and else the aggregate
/// that the operator names.
pub proof fn law_aggregation_groups_its_operand(
    op: Seq<char>,
    expr: PromView,
    param: Option<Box<PromView>>,
    modifier: Option<ModifierView>,
    ctx: WalkView,
)
    ensures
        match walked(PromView::Aggregate { op, expr: Box::new(expr), param, modifier }, ctx) {
            Ok(q) => exists|inside: WalkView, n: Decimal| #[trigger]
                operand_of(q, op, param, modifier, n) is Some && #[trigger] walked(expr, inside)
                    == Ok::<QueryView, Seq<char>>(operand_of(q, op, param, modifier, n)->0) && (
                match inside.partition {
                    Some(PartitionView::By(labels)) => modifier == Some(
                        ModifierView::Include(labels),
                    ),
                    Some(PartitionView::Without(labels)) => modifier == Some(
                        ModifierView::Exclude(labels),
                    ),
                    None => modifier is None,
                }) && inside.outer_count == (op == "count"@) && inside.topk == (if ranks(op) {
                    Some(n.whole())
                } else if only_groups(op) {
                    ctx.topk
                } else {
                    None
                }),
            Err(_) => true,
        },
{
    lemma_operators();
    if let Ok(n) = aggregate_number(op, param) {
        let inside = operand_ctx(shape_of(op), n, opt_partition_of(modifier), ctx);
        if let Ok(inner) = walked(expr, inside) {
            if let Ok(q) = walked(
                PromView::Aggregate { op, expr: Box::new(expr), param, modifier },
                ctx,
            ) {
                assert(operand_of(q, op, param, modifier, n) == Some(inner));
            }
        }
    }
}

/// What an aggregation by an operator, with a parameter and a clause, is over;
/// `None` for a query that is no such aggregation. `n` is the number that the
/// operator needs.
pub open spec fn operand_of(
    q: QueryView,
    op: Seq<char>,
    param: Option<Box<PromView>>,
    modifier: Option<ModifierView>,
    n: Decimal,
) -> Option<QueryView> {
    let written = match param {
        Some(p) => match *p {
            PromView::Number(t) => decimal::decimal_value(t) == Some(n),
            _ => false,
        },
        None => false,
    };
    if op == "topk"@ || op == "bottomk"@ {
        match q {
            QueryView::TopK { k, by, input } => if written && k == n.whole() && by == clause_labels(
                modifier,
            ) {
                Some(*input)
            } else {
                None
            },
            _ => None,
        }
    } else {
        match grouped_as(q, modifier) {
            Some(x) => if op == "sum"@ || op == "avg"@ || op == "min"@ || op == "max"@ || op
                == "group"@ {
                Some(x)
            } else {
                match one_aggregate(x) {
                    Some((keys, f, col)) => if keys.len() == 0 && col == ColumnView::SampleValue
                        && aggregates_to(f, op, n) && (f is Quantile ==> written) {
                        aggregated_input(x)
                    } else {
                        None
                    },
                    None => None,
                }
            },
            None => None,
        }
    }
}

proof fn lemma_operators()
    ensures
        "topk"@ != "count"@,
        "bottomk"@ != "count"@,
        "sum"@ != "count"@,
        "avg"@ != "count"@,
        "min"@ != "count"@,
        "max"@ != "count"@,
        "group"@ != "count"@,
        "stddev"@ != "count"@,
        "stdvar"@ != "count"@,
        "quantile"@ != "count"@,
{
    reveal_strlit("topk");
    reveal_strlit("bottomk");
    reveal_strlit("count");
    reveal_strlit("sum");
    reveal_strlit("avg");
    reveal_strlit("min");
    reveal_strlit("max");
    reveal_strlit("group");
    reveal_strlit("stddev");
    reveal_strlit("stdvar");
    reveal_strlit("quantile");
    assert("group"@[0] == 'g' && "count"@[0] == 'c');
    assert("topk"@.len() == 4 && "bottomk"@.len() == 7 && "sum"@.len() == 3 && "avg"@.len() == 3);
    assert("min"@.len() == 3 && "max"@.len() == 3 && "stddev"@.len() == 6 && "stdvar"@.len() == 6);
    assert("quantile"@.len() == 8 && "count"@.len() == 5);
}

/// A bare selector stands for the sum of the sample values that it selects.
pub proof fn law_bare_selector(s: SelectorView)
    ensures
        match promql_query(Ok(PromView::Vector(s))) {
            Ok(q) => one_aggregate(q) == Some(
                (Seq::<Seq<char>>::empty(), AggFuncView::Sum, ColumnView::SampleValue),
            ) && match aggregated_input(q) {
                Some(x) => filtered_scan(x) is Some,
                None => false,
            },
            Err(_) => false,
        },
{
}

} // verus!
