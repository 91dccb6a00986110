//! PromQL expressions as relational queries.
use vstd::prelude::*;
use vstd::string::*;

use crate::algebra::expr;
use crate::algebra::expr::{
    AggFunc, AggFuncView, AggItem, AggItemView, BinaryOpKind, ColumnRef, ColumnView, GroupSide,
    LiteralValue, LiteralView, PartitionKeys, PartitionView, QueryExpr, QueryView, ScalarExpr,
    ScalarView, SourceSpec, VectorGrouping, VectorGroupingView, VectorMatch, VectorMatchKind,
    VectorMatchView,
};
use crate::decimal;
use crate::decimal::Decimal;
use crate::query_parser::promql_ast;
use crate::query_parser::promql_ast::{
    CardinalityView, LabelClause, LabelMatcher, MatchCardinality, MatchKind, MatchKindView,
    MatchModifier, MatchModifierView, MatcherView, ModifierView, PromExpr, PromView, Selector,
    SelectorView,
};
use crate::text;
use crate::types::Duration;

verus! {

// ── Results ───────────────────────────────────────────────────────────────────

/// Whether a result is the given one.
pub open spec fn gives(r: Result<QueryExpr, String>, want: Result<QueryView, Seq<char>>) -> bool {
    match (r, want) {
        (Ok(q), Ok(w)) => q@ == w,
        (Err(m), Err(w)) => m@ == w,
        _ => false,
    }
}

/// `missing arg {idx} in call to {name}`.
pub open spec fn missing_text(idx: nat, name: Seq<char>) -> Seq<char> {
    "missing arg "@ + text::nat_text(idx) + " in call to "@ + name
}

fn missing(idx: usize, name: &str) -> (r: String)
    ensures
        r@ == missing_text(idx as nat, name@),
{
    let mut out = "missing arg ".to_owned();
    text::push_usize(&mut out, idx);
    out.append(" in call to ");
    out.append(name);
    out
}

/// A message with a name at its end.
fn about(prefix: &str, name: &str) -> (r: String)
    ensures
        r@ == prefix@ + name@,
{
    let mut out = prefix.to_owned();
    out.append(name);
    out
}

/// The name of the kind of an expression.
pub open spec fn kind_text(e: PromView) -> Seq<char> {
    match e {
        PromView::Aggregate { .. } => "Aggregate"@,
        PromView::Binary { .. } => "Binary"@,
        PromView::Paren(_) => "Paren"@,
        PromView::Subquery { .. } => "Subquery"@,
        PromView::Number(_) => "NumberLiteral"@,
        PromView::Text(_) => "StringLiteral"@,
        PromView::Vector(_) => "VectorSelector"@,
        PromView::Matrix { .. } => "MatrixSelector"@,
        PromView::Call { .. } => "Call"@,
        PromView::Other => "Other"@,
    }
}

fn kind_name(e: &PromExpr) -> (r: &'static str)
    ensures
        r@ == kind_text(e@),
{
    match e {
        PromExpr::Aggregate { .. } => "Aggregate",
        PromExpr::Binary { .. } => "Binary",
        PromExpr::Paren(_) => "Paren",
        PromExpr::Subquery { .. } => "Subquery",
        PromExpr::Number(_) => "NumberLiteral",
        PromExpr::Text(_) => "StringLiteral",
        PromExpr::Vector(_) => "VectorSelector",
        PromExpr::Matrix { .. } => "MatrixSelector",
        PromExpr::Call { .. } => "Call",
        PromExpr::Other => "Other",
    }
}

// ── Selectors ─────────────────────────────────────────────────────────────────

/// The value of the first matcher on the metric name.
pub open spec fn name_matcher(s: Seq<MatcherView>) -> Option<Seq<char>>
    decreases s.len(),
{
    if s.len() == 0 {
        None
    } else if s[0].name == "__name__"@ {
        Some(s[0].value)
    } else {
        name_matcher(s.drop_first())
    }
}

/// The metric that a selector names: its explicit name, else the value of its
/// first matcher on `__name__`, else nothing.
pub open spec fn metric_of(s: SelectorView) -> Seq<char> {
    match s.name {
        Some(n) => n,
        None => match name_matcher(s.matchers) {
            Some(v) => v,
            None => Seq::empty(),
        },
    }
}

fn metric_name(s: &Selector) -> (r: String)
    ensures
        r@ == metric_of(s@),
{
    match &s.name {
        Some(n) => n.clone(),
        None => {
            let ghost all = s@.matchers;
            assert(all.skip(0) =~= all);
            for i in 0..s.matchers.len()
                invariant
                    all == promql_ast::matchers_view(s.matchers@),
                    s@.name is None,
                    all == s@.matchers,
                    name_matcher(all) == name_matcher(all.skip(i as int)),
            {
                assert(all.skip(i as int)[0] == s.matchers@[i as int]@);
                assert(all.skip(i as int).drop_first() =~= all.skip(i as int + 1));
                if text::same(s.matchers[i].name.as_str(), "__name__") {
                    return s.matchers[i].value.clone();
                }
            }
            let none = String::new();
            assert(none@ =~= Seq::<char>::empty());
            assert(all.skip(all.len() as int).len() == 0);
            none
        },
    }
}

/// A comparison of a label, as a predicate.
pub open spec fn matcher_pred(m: MatcherView) -> ScalarView {
    let (op, value) = match m.kind {
        MatchKindView::Equal => (BinaryOpKind::Eq, m.value),
        MatchKindView::NotEqual => (BinaryOpKind::Ne, m.value),
        MatchKindView::Regex(re) => (BinaryOpKind::Regex, re),
        MatchKindView::NotRegex(re) => (BinaryOpKind::NotRegex, re),
    };
    ScalarView::BinaryOp {
        op,
        lhs: Box::new(ScalarView::Column(m.name)),
        rhs: Box::new(ScalarView::Literal(LiteralView::Str(value))),
    }
}

fn pred_of(m: &LabelMatcher) -> (r: ScalarExpr)
    ensures
        r@ == matcher_pred(m@),
{
    proof {
        reveal_with_fuel(expr::scalar_view, 2);
    }
    let (op, value) = match &m.kind {
        MatchKind::Equal => (BinaryOpKind::Eq, m.value.clone()),
        MatchKind::NotEqual => (BinaryOpKind::Ne, m.value.clone()),
        MatchKind::Regex(re) => (BinaryOpKind::Regex, re.clone()),
        MatchKind::NotRegex(re) => (BinaryOpKind::NotRegex, re.clone()),
    };
    ScalarExpr::BinaryOp {
        op,
        lhs: Box::new(ScalarExpr::Column(m.name.clone())),
        rhs: Box::new(ScalarExpr::Literal(LiteralValue::Str(value))),
    }
}

/// The matchers that are not on the metric name.
pub open spec fn label_matchers(s: Seq<MatcherView>) -> Seq<MatcherView>
    decreases s.len(),
{
    if s.len() == 0 {
        Seq::empty()
    } else if s.last().name == "__name__"@ {
        label_matchers(s.drop_last())
    } else {
        label_matchers(s.drop_last()).push(s.last())
    }
}

/// All matchers in a conjunction that starts with `true`.
pub open spec fn conjunction(s: Seq<MatcherView>) -> ScalarView
    decreases s.len(),
{
    if s.len() == 0 {
        ScalarView::Literal(LiteralView::Bool(true))
    } else {
        ScalarView::BinaryOp {
            op: BinaryOpKind::And,
            lhs: Box::new(conjunction(s.drop_last())),
            rhs: Box::new(matcher_pred(s.last())),
        }
    }
}

/// A selector as a source, behind a filter if it has label matchers.
pub open spec fn selected(s: SelectorView) -> QueryView {
    let source = QueryView::Source(metric_of(s));
    let filters = label_matchers(s.matchers);
    if filters.len() == 0 {
        source
    } else {
        QueryView::Filter { pred: conjunction(filters), input: Box::new(source) }
    }
}

/// A selector as a source, behind a filter if it has label matchers.
pub fn select(s: &Selector) -> (r: QueryExpr)
    ensures
        r@ == selected(s@),
{
    let source = QueryExpr::Source(SourceSpec { name: metric_name(s) });
    let ghost all = s@.matchers;
    let mut pred = ScalarExpr::Literal(LiteralValue::Bool(true));
    let mut any = false;
    assert(label_matchers(all.take(0)) =~= Seq::<MatcherView>::empty());
    for i in 0..s.matchers.len()
        invariant
            all == promql_ast::matchers_view(s.matchers@),
            any == (label_matchers(all.take(i as int)).len() > 0),
            expr::scalar_view(pred) == conjunction(label_matchers(all.take(i as int))),
    {
        let ghost seen = all.take(i as int + 1);
        assert(seen.drop_last() =~= all.take(i as int));
        assert(seen.last() == s.matchers@[i as int]@);
        if !text::same(s.matchers[i].name.as_str(), "__name__") {
            let ghost before = label_matchers(all.take(i as int));
            let ghost after = label_matchers(seen);
            assert(after.drop_last() =~= before);
            any = true;
            pred = ScalarExpr::BinaryOp {
                op: BinaryOpKind::And,
                lhs: Box::new(pred),
                rhs: Box::new(pred_of(&s.matchers[i])),
            };
        }
    }
    assert(all.take(all.len() as int) =~= all);
    if any {
        QueryExpr::Filter { pred, input: Box::new(source) }
    } else {
        source
    }
}

// ── Arguments ─────────────────────────────────────────────────────────────────

/// The range selector that an expression holds: inside parentheses and as the
/// first argument of calls.
pub open spec fn inner_matrix(e: PromView) -> Result<(SelectorView, Duration), Seq<char>>
    decreases e,
{
    match e {
        PromView::Matrix { selector, range } => Ok((selector, range)),
        PromView::Paren(inner) => inner_matrix(*inner),
        PromView::Call { name, args } => if args.len() == 0 {
            Err(missing_text(0, name))
        } else {
            inner_matrix(args[0])
        },
        _ => Err("expected MatrixSelector, got "@ + kind_text(e)),
    }
}

/// Whether a result is what [`inner_matrix`] says.
pub open spec fn finds(
    r: Result<(&Selector, Duration), String>,
    want: Result<(SelectorView, Duration), Seq<char>>,
) -> bool {
    match (r, want) {
        (Ok((s, d)), Ok((w, x))) => s@ == w && d == x,
        (Err(m), Err(w)) => m@ == w,
        _ => false,
    }
}

/// The range selector that an expression holds.
pub fn extract_inner_matrix(e: &PromExpr) -> (r: Result<(&Selector, Duration), String>)
    ensures
        finds(r, inner_matrix(e@)),
    decreases e,
{
    broadcast use promql_ast::group_prom_views;
    broadcast use vstd::std_specs::vec::axiom_vec_index_decreases;

    match e {
        PromExpr::Matrix { selector, range } => Ok((selector, *range)),
        PromExpr::Paren(inner) => extract_inner_matrix(inner),
        PromExpr::Call { name, args } => if args.len() == 0 {
            Err(missing(0, name.as_str()))
        } else {
            assert(decreases_to!(*args => args[0]));
            assert(promql_ast::proms_view(args@)[0] == promql_ast::prom_view(args@[0]));
            extract_inner_matrix(&args[0])
        },
        _ => Err(about("expected MatrixSelector, got ", kind_name(e))),
    }
}

/// The range selector in an argument of a call.
pub open spec fn matrix_arg(name: Seq<char>, args: Seq<PromView>, idx: nat) -> Result<
    (SelectorView, Duration),
    Seq<char>,
> {
    if idx < args.len() {
        inner_matrix(args[idx as int])
    } else {
        Err(missing_text(idx, name))
    }
}

/// The range selector in an argument of a call.
pub fn extract_matrix_arg<'a>(name: &str, args: &'a Vec<PromExpr>, idx: usize) -> (r: Result<
    (&'a Selector, Duration),
    String,
>)
    ensures
        finds(r, matrix_arg(name@, promql_ast::proms_view(args@), idx as nat)),
{
    broadcast use promql_ast::group_prom_views;

    if idx < args.len() {
        assert(promql_ast::proms_view(args@)[idx as int] == promql_ast::prom_view(
            args@[idx as int],
        ));
        extract_inner_matrix(&args[idx])
    } else {
        Err(missing(idx, name))
    }
}

/// The decimal that a number literal writes.
pub open spec fn number_of(n: Seq<char>) -> Result<Decimal, Seq<char>> {
    match decimal::decimal_value(n) {
        Some(d) => Ok(d),
        None => Err("not a decimal number: "@ + n),
    }
}

/// Whether a result is the given one.
pub open spec fn counts(r: Result<Decimal, String>, want: Result<Decimal, Seq<char>>) -> bool {
    match (r, want) {
        (Ok(d), Ok(w)) => d == w,
        (Err(m), Err(w)) => m@ == w,
        _ => false,
    }
}

fn number(n: &str) -> (r: Result<Decimal, String>)
    ensures
        counts(r, number_of(n@)),
{
    match Decimal::parse(n) {
        Some(d) => Ok(d),
        None => Err(about("not a decimal number: ", n)),
    }
}

/// The number in an argument of a call.
pub open spec fn number_arg(name: Seq<char>, args: Seq<PromView>, idx: nat) -> Result<
    Decimal,
    Seq<char>,
> {
    if idx < args.len() {
        match args[idx as int] {
            PromView::Number(n) => number_of(n),
            _ => Err(
                "expected number at arg "@ + text::nat_text(idx) + " of "@ + name + ", got "@
                    + kind_text(args[idx as int]),
            ),
        }
    } else {
        Err("missing arg "@ + text::nat_text(idx) + " in "@ + name)
    }
}

/// The number in an argument of a call.
pub fn extract_call_num_arg(name: &str, args: &Vec<PromExpr>, idx: usize) -> (r: Result<
    Decimal,
    String,
>)
    ensures
        counts(r, number_arg(name@, promql_ast::proms_view(args@), idx as nat)),
{
    broadcast use promql_ast::group_prom_views;

    if idx < args.len() {
        assert(promql_ast::proms_view(args@)[idx as int] == promql_ast::prom_view(
            args@[idx as int],
        ));
        match &args[idx] {
            PromExpr::Number(n) => number(n.as_str()),
            other => {
                let mut out = "expected number at arg ".to_owned();
                text::push_usize(&mut out, idx);
                out.append(" of ");
                out.append(name);
                out.append(", got ");
                out.append(kind_name(other));
                Err(out)
            },
        }
    } else {
        let mut out = "missing arg ".to_owned();
        text::push_usize(&mut out, idx);
        out.append(" in ");
        out.append(name);
        Err(out)
    }
}

/// The number that is the parameter of an aggregation.
pub open spec fn number_param(param: Option<Box<PromView>>) -> Result<Decimal, Seq<char>> {
    match param {
        Some(e) => match *e {
            PromView::Number(n) => number_of(n),
            _ => Err("expected number param, got "@ + kind_text(*e)),
        },
        None => Err("missing required numeric parameter"@),
    }
}

/// The view of an optional parameter.
pub open spec fn param_view(param: Option<Box<PromExpr>>) -> Option<Box<PromView>> {
    match param {
        Some(e) => Some(Box::new(promql_ast::prom_view(*e))),
        None => None,
    }
}

/// The number that is the parameter of an aggregation.
pub fn extract_number_param(param: &Option<Box<PromExpr>>) -> (r: Result<Decimal, String>)
    ensures
        counts(r, number_param(param_view(*param))),
{
    match param {
        Some(e) => match &**e {
            PromExpr::Number(n) => number(n.as_str()),
            other => Err(about("expected number param, got ", kind_name(other))),
        },
        None => Err("missing required numeric parameter".to_owned()),
    }
}

// ── Context ───────────────────────────────────────────────────────────────────

/// What the enclosing operators say of an expression.
#[derive(Debug)]
pub struct WalkCtx {
    /// The grouping of the enclosing aggregation.
    pub partition: Option<PartitionKeys>,
    /// The size of the enclosing ranking.
    pub topk: Option<u64>,
    /// Whether the enclosing aggregation counts.
    pub outer_count: bool,
}

/// What [`WalkCtx`] holds.
#[verifier::ext_equal]
pub struct WalkView {
    pub partition: Option<PartitionView>,
    pub topk: Option<u64>,
    pub outer_count: bool,
}

/// The view of an optional grouping.
pub open spec fn opt_partition(p: Option<PartitionKeys>) -> Option<PartitionView> {
    match p {
        Some(k) => Some(k@),
        None => None,
    }
}

impl View for WalkCtx {
    type V = WalkView;

    open spec fn view(&self) -> WalkView {
        WalkView {
            partition: opt_partition(self.partition),
            topk: self.topk,
            outer_count: self.outer_count,
        }
    }
}

/// Nothing said.
pub open spec fn no_ctx() -> WalkView {
    WalkView { partition: None, topk: None, outer_count: false }
}

impl Default for WalkCtx {
    fn default() -> (r: WalkCtx)
        ensures
            r@ == no_ctx(),
    {
        WalkCtx { partition: None, topk: None, outer_count: false }
    }
}

/// The grouping that a clause asks for.
pub open spec fn partition_of(m: ModifierView) -> PartitionView {
    match m {
        ModifierView::Include(ls) => PartitionView::By(ls),
        ModifierView::Exclude(ls) => PartitionView::Without(ls),
    }
}

/// The grouping that an optional clause asks for.
pub open spec fn opt_partition_of(m: Option<ModifierView>) -> Option<PartitionView> {
    match m {
        Some(x) => Some(partition_of(x)),
        None => None,
    }
}

fn modifier_to_partition(m: &Option<LabelClause>) -> (r: Option<PartitionKeys>)
    ensures
        opt_partition(r) == opt_partition_of(promql_ast::opt_modifier(*m)),
{
    match m {
        Some(LabelClause::Include(ls)) => Some(PartitionKeys::By(text::clone_texts(ls))),
        Some(LabelClause::Exclude(ls)) => Some(PartitionKeys::Without(text::clone_texts(ls))),
        None => None,
    }
}

/// The labels of an optional grouping.
pub open spec fn partition_labels(p: Option<PartitionView>) -> Seq<Seq<char>> {
    match p {
        Some(k) => k.labels(),
        None => Seq::empty(),
    }
}

fn labels_of(p: &Option<PartitionKeys>) -> (r: Vec<String>)
    ensures
        text::texts(r@) == partition_labels(opt_partition(*p)),
{
    match p {
        Some(k) => text::clone_texts(k.keys()),
        None => {
            let none: Vec<String> = Vec::new();
            assert(text::texts(none@) =~= Seq::<Seq<char>>::empty());
            none
        },
    }
}

fn clone_partition(p: &Option<PartitionKeys>) -> (r: Option<PartitionKeys>)
    ensures
        opt_partition(r) == opt_partition(*p),
{
    match p {
        Some(k) => Some(k.clone()),
        None => None,
    }
}

// ── Aggregates ────────────────────────────────────────────────────────────────

/// The word that an aggregate is called by.
pub open spec fn func_alias(f: AggFuncView) -> Seq<char> {
    match f {
        AggFuncView::Count => "count"@,
        AggFuncView::CountDistinct => "count_distinct"@,
        AggFuncView::Sum => "sum"@,
        AggFuncView::Avg => "avg"@,
        AggFuncView::Min => "min"@,
        AggFuncView::Max => "max"@,
        AggFuncView::StdDev { .. } => "stddev"@,
        AggFuncView::Variance { .. } => "variance"@,
        AggFuncView::Quantile(_) => "quantile"@,
        AggFuncView::HeavyHitters { .. } => "heavy_hitters"@,
        AggFuncView::Rate => "rate"@,
        AggFuncView::Increase => "increase"@,
        AggFuncView::Delta => "delta"@,
        AggFuncView::Custom(name) => text::ascii_lower(name),
    }
}

fn alias_of(f: &AggFunc) -> (r: String)
    ensures
        r@ == func_alias(f@),
{
    match f {
        AggFunc::Count => "count".to_owned(),
        AggFunc::CountDistinct => "count_distinct".to_owned(),
        AggFunc::Sum => "sum".to_owned(),
        AggFunc::Avg => "avg".to_owned(),
        AggFunc::Min => "min".to_owned(),
        AggFunc::Max => "max".to_owned(),
        AggFunc::StdDev { .. } => "stddev".to_owned(),
        AggFunc::Variance { .. } => "variance".to_owned(),
        AggFunc::Quantile(_) => "quantile".to_owned(),
        AggFunc::HeavyHitters { .. } => "heavy_hitters".to_owned(),
        AggFunc::Rate => "rate".to_owned(),
        AggFunc::Increase => "increase".to_owned(),
        AggFunc::Delta => "delta".to_owned(),
        AggFunc::Custom(name) => text::to_ascii_lower(name.as_str()),
    }
}

/// One aggregate of the sample value over an input.
pub open spec fn value_aggregate(
    keys: Seq<Seq<char>>,
    alias: Seq<char>,
    func: AggFuncView,
    input: QueryView,
) -> QueryView {
    QueryView::Aggregate {
        keys,
        aggs: seq![
            AggItemView { alias, func, col: ColumnView::SampleValue, distinct: false },
        ],
        having: None,
        input: Box::new(input),
    }
}

fn aggregate_value(keys: Vec<String>, alias: String, func: AggFunc, input: QueryExpr) -> (r:
    QueryExpr)
    ensures
        r@ == value_aggregate(text::texts(keys@), alias@, func@, input@),
{
    let ghost item = AggItemView {
        alias: alias@,
        func: func@,
        col: ColumnView::SampleValue,
        distinct: false,
    };
    let aggs = vec![AggItem { alias, func, col: ColumnRef::SampleValue, distinct: false }];
    assert(expr::aggs_view(aggs@) =~= seq![item]);
    let having: Option<ScalarExpr> = None;
    assert(expr::opt_scalar_view(having) is None);
    QueryExpr::Aggregate { keys, aggs, having, input: Box::new(input) }
}

/// An aggregate over all of the sample values of an input.
fn aggregate_all(alias: &str, func: AggFunc, input: QueryExpr) -> (r: QueryExpr)
    ensures
        r@ == value_aggregate(Seq::empty(), alias@, func@, input@),
{
    let keys: Vec<String> = Vec::new();
    assert(text::texts(keys@) =~= Seq::<Seq<char>>::empty());
    aggregate_value(keys, alias.to_owned(), func, input)
}

/// An aggregate over a window of a selector. Inside a ranking it counts,
/// whatever the function; the enclosing grouping becomes its keys.
pub open spec fn windowed_aggregate(
    s: SelectorView,
    range: Duration,
    func: AggFuncView,
    ctx: WalkView,
) -> QueryView {
    let actual = if ctx.topk is Some {
        AggFuncView::Count
    } else {
        func
    };
    value_aggregate(
        partition_labels(ctx.partition),
        func_alias(actual),
        actual,
        QueryView::Window { duration: range, slide: None, input: Box::new(selected(s)) },
    )
}

/// An aggregate over a window of a selector.
pub fn build_qe_aggregate(s: &Selector, range: Duration, func: AggFunc, ctx: &WalkCtx) -> (r:
    QueryExpr)
    ensures
        r@ == windowed_aggregate(s@, range, func@, ctx@),
{
    let windowed = QueryExpr::Window { duration: range, slide: None, input: Box::new(select(s)) };
    let actual = if ctx.topk.is_some() {
        AggFunc::Count
    } else {
        func
    };
    let keys = labels_of(&ctx.partition);
    let alias = alias_of(&actual);
    aggregate_value(keys, alias, actual, windowed)
}

/// An input grouped by labels; as it is without labels.
pub open spec fn partitioned(input: QueryView, p: Option<PartitionView>) -> QueryView {
    match p {
        Some(keys) => if keys.labels().len() == 0 {
            input
        } else {
            QueryView::Partition { keys, input: Box::new(input) }
        },
        None => input,
    }
}

fn apply_qe_partition(input: QueryExpr, p: Option<PartitionKeys>) -> (r: QueryExpr)
    ensures
        r@ == partitioned(input@, opt_partition(p)),
{
    match p {
        Some(keys) => if keys.is_empty() {
            input
        } else {
            QueryExpr::Partition { keys, input: Box::new(input) }
        },
        None => input,
    }
}

// ── Function calls ────────────────────────────────────────────────────────────

/// The aggregate that a range function stands for.
pub open spec fn call_func(name: Seq<char>, outer_count: bool) -> Result<AggFuncView, Seq<char>> {
    if name == "avg_over_time"@ {
        Ok(AggFuncView::Avg)
    } else if name == "min_over_time"@ {
        Ok(AggFuncView::Min)
    } else if name == "max_over_time"@ {
        Ok(AggFuncView::Max)
    } else if name == "stddev_over_time"@ {
        Ok(AggFuncView::StdDev { population: false })
    } else if name == "stdvar_over_time"@ {
        Ok(AggFuncView::Variance { population: false })
    } else if name == "count_over_time"@ {
        if outer_count {
            Ok(AggFuncView::CountDistinct)
        } else {
            Ok(AggFuncView::Count)
        }
    } else if name == "sum_over_time"@ || name == "last_over_time"@ || name == "present_over_time"@
        || name == "absent_over_time"@ {
        Ok(AggFuncView::Sum)
    } else if name == "delta"@ || name == "idelta"@ || name == "deriv"@ || name
        == "predict_linear"@ {
        Ok(AggFuncView::Delta)
    } else if name == "changes"@ || name == "resets"@ {
        Ok(AggFuncView::Count)
    } else if name == "rate"@ || name == "irate"@ {
        Ok(AggFuncView::Rate)
    } else if name == "increase"@ {
        Ok(AggFuncView::Increase)
    } else {
        Err("unsupported PromQL function: "@ + name)
    }
}

/// The aggregate that a range function stands for.
pub fn walk_call_to_op(name: &str, outer_count: bool) -> (r: Result<AggFunc, String>)
    ensures
        match (r, call_func(name@, outer_count)) {
            (Ok(f), Ok(w)) => f@ == w,
            (Err(m), Err(w)) => m@ == w,
            _ => false,
        },
{
    if text::same(name, "avg_over_time") {
        Ok(AggFunc::Avg)
    } else if text::same(name, "min_over_time") {
        Ok(AggFunc::Min)
    } else if text::same(name, "max_over_time") {
        Ok(AggFunc::Max)
    } else if text::same(name, "stddev_over_time") {
        Ok(AggFunc::StdDev { population: false })
    } else if text::same(name, "stdvar_over_time") {
        Ok(AggFunc::Variance { population: false })
    } else if text::same(name, "count_over_time") {
        if outer_count {
            Ok(AggFunc::CountDistinct)
        } else {
            Ok(AggFunc::Count)
        }
    } else if text::same(name, "sum_over_time") || text::same(name, "last_over_time")
        || text::same(name, "present_over_time") || text::same(name, "absent_over_time") {
        Ok(AggFunc::Sum)
    } else if text::same(name, "delta") || text::same(name, "idelta") || text::same(name, "deriv")
        || text::same(name, "predict_linear") {
        Ok(AggFunc::Delta)
    } else if text::same(name, "changes") || text::same(name, "resets") {
        Ok(AggFunc::Count)
    } else if text::same(name, "rate") || text::same(name, "irate") {
        Ok(AggFunc::Rate)
    } else if text::same(name, "increase") {
        Ok(AggFunc::Increase)
    } else {
        Err(about("unsupported PromQL function: ", name))
    }
}

/// The query of a function call.
pub open spec fn called(name: Seq<char>, args: Seq<PromView>, ctx: WalkView) -> Result<
    QueryView,
    Seq<char>,
> {
    if name == "histogram_quantile"@ {
        match number_arg(name, args, 0) {
            Err(m) => Err(m),
            Ok(phi) => match matrix_arg(name, args, 1) {
                Err(m) => Err(m),
                Ok((s, range)) => Ok(
                    QueryView::HistogramQuantile {
                        phi,
                        input: Box::new(
                            windowed_aggregate(s, range, AggFuncView::Quantile(phi), no_ctx()),
                        ),
                    },
                ),
            },
        }
    } else if name == "quantile_over_time"@ {
        match number_arg(name, args, 0) {
            Err(m) => Err(m),
            Ok(phi) => match matrix_arg(name, args, 1) {
                Err(m) => Err(m),
                Ok((s, range)) => Ok(
                    windowed_aggregate(s, range, AggFuncView::Quantile(phi), ctx),
                ),
            },
        }
    } else {
        match call_func(name, ctx.outer_count) {
            Err(m) => Err(m),
            Ok(f) => match matrix_arg(name, args, 0) {
                Err(m) => Err(m),
                Ok((s, range)) => Ok(windowed_aggregate(s, range, f, ctx)),
            },
        }
    }
}

/// The query of a function call.
pub fn walk_call_qe(name: &str, args: &Vec<PromExpr>, ctx: &WalkCtx) -> (r: Result<
    QueryExpr,
    String,
>)
    ensures
        gives(r, called(name@, promql_ast::proms_view(args@), ctx@)),
{
    if text::same(name, "histogram_quantile") {
        let phi = match extract_call_num_arg(name, args, 0) {
            Ok(d) => d,
            Err(m) => {
                return Err(m);
            },
        };
        match extract_matrix_arg(name, args, 1) {
            Ok((s, range)) => {
                let inner = build_qe_aggregate(
                    s,
                    range,
                    AggFunc::Quantile(phi),
                    &WalkCtx::default(),
                );
                Ok(QueryExpr::HistogramQuantile { phi, input: Box::new(inner) })
            },
            Err(m) => Err(m),
        }
    } else if text::same(name, "quantile_over_time") {
        let phi = match extract_call_num_arg(name, args, 0) {
            Ok(d) => d,
            Err(m) => {
                return Err(m);
            },
        };
        match extract_matrix_arg(name, args, 1) {
            Ok((s, range)) => Ok(build_qe_aggregate(s, range, AggFunc::Quantile(phi), ctx)),
            Err(m) => Err(m),
        }
    } else {
        match walk_call_to_op(name, ctx.outer_count) {
            Err(m) => Err(m),
            Ok(func) => match extract_matrix_arg(name, args, 0) {
                Ok((s, range)) => Ok(build_qe_aggregate(s, range, func, ctx)),
                Err(m) => Err(m),
            },
        }
    }
}

// ── Binary operators ──────────────────────────────────────────────────────────

/// The operator behind a sign; addition for signs that are not known.
pub open spec fn binop_of(op: Seq<char>) -> BinaryOpKind {
    if op == "-"@ {
        BinaryOpKind::Sub
    } else if op == "*"@ {
        BinaryOpKind::Mul
    } else if op == "/"@ {
        BinaryOpKind::Div
    } else if op == "%"@ {
        BinaryOpKind::Mod
    } else if op == "^"@ {
        BinaryOpKind::Pow
    } else if op == "=="@ {
        BinaryOpKind::Eq
    } else if op == "!="@ {
        BinaryOpKind::Ne
    } else if op == "<"@ {
        BinaryOpKind::Lt
    } else if op == "<="@ {
        BinaryOpKind::Le
    } else if op == ">"@ {
        BinaryOpKind::Gt
    } else if op == ">="@ {
        BinaryOpKind::Ge
    } else if op == "and"@ {
        BinaryOpKind::And
    } else if op == "or"@ {
        BinaryOpKind::Or
    } else if op == "unless"@ {
        BinaryOpKind::Unless
    } else if op == "atan2"@ {
        BinaryOpKind::Atan2
    } else {
        BinaryOpKind::Add
    }
}

/// The operator behind a sign; addition for signs that are not known.
pub fn promql_token_to_binop(op: &str) -> (r: BinaryOpKind)
    ensures
        r == binop_of(op@),
{
    if text::same(op, "-") {
        BinaryOpKind::Sub
    } else if text::same(op, "*") {
        BinaryOpKind::Mul
    } else if text::same(op, "/") {
        BinaryOpKind::Div
    } else if text::same(op, "%") {
        BinaryOpKind::Mod
    } else if text::same(op, "^") {
        BinaryOpKind::Pow
    } else if text::same(op, "==") {
        BinaryOpKind::Eq
    } else if text::same(op, "!=") {
        BinaryOpKind::Ne
    } else if text::same(op, "<") {
        BinaryOpKind::Lt
    } else if text::same(op, "<=") {
        BinaryOpKind::Le
    } else if text::same(op, ">") {
        BinaryOpKind::Gt
    } else if text::same(op, ">=") {
        BinaryOpKind::Ge
    } else if text::same(op, "and") {
        BinaryOpKind::And
    } else if text::same(op, "or") {
        BinaryOpKind::Or
    } else if text::same(op, "unless") {
        BinaryOpKind::Unless
    } else if text::same(op, "atan2") {
        BinaryOpKind::Atan2
    } else {
        BinaryOpKind::Add
    }
}

/// The vector match that a modifier asks for.
pub open spec fn vector_match_of(m: Option<MatchModifierView>) -> Option<VectorMatchView> {
    match m {
        None => None,
        Some(x) => Some(
            VectorMatchView {
                kind: match x.matching {
                    Some(ModifierView::Exclude(_)) => VectorMatchKind::Ignoring,
                    _ => VectorMatchKind::On,
                },
                labels: match x.matching {
                    Some(ModifierView::Include(ls)) => ls,
                    Some(ModifierView::Exclude(ls)) => ls,
                    None => Seq::empty(),
                },
                grouping: match x.card {
                    CardinalityView::ManyToOne(labels) => Some(
                        VectorGroupingView { side: GroupSide::Left, labels },
                    ),
                    CardinalityView::OneToMany(labels) => Some(
                        VectorGroupingView { side: GroupSide::Right, labels },
                    ),
                    _ => None,
                },
            },
        ),
    }
}

fn vector_match(m: &Option<MatchModifier>) -> (r: Option<VectorMatch>)
    ensures
        expr::match_view(r) == vector_match_of(promql_ast::opt_match(*m)),
{
    match m {
        None => None,
        Some(x) => {
            let (kind, labels) = match &x.matching {
                Some(LabelClause::Include(ls)) => (VectorMatchKind::On, text::clone_texts(ls)),
                Some(LabelClause::Exclude(ls)) => (
                    VectorMatchKind::Ignoring,
                    text::clone_texts(ls),
                ),
                None => {
                    let none: Vec<String> = Vec::new();
                    assert(text::texts(none@) =~= Seq::<Seq<char>>::empty());
                    (VectorMatchKind::On, none)
                },
            };
            let grouping = match &x.card {
                MatchCardinality::ManyToOne(ls) => Some(
                    VectorGrouping { side: GroupSide::Left, labels: text::clone_texts(ls) },
                ),
                MatchCardinality::OneToMany(ls) => Some(
                    VectorGrouping { side: GroupSide::Right, labels: text::clone_texts(ls) },
                ),
                _ => None,
            };
            Some(VectorMatch { kind, labels, grouping })
        },
    }
}

// ── Expressions ───────────────────────────────────────────────────────────────

/// What becomes of an aggregation operator once its operand is a query.
#[derive(Clone, Copy, Debug, PartialEq, Eq, Structural)]
pub enum AggregateShape {
    /// `topk`, `bottomk`: a ranking.
    Rank,
    /// `count`: the number of distinct values.
    Count,
    /// `sum`, `avg`, `min`, `max`, `group`: only the grouping.
    Group,
    /// `stddev`
    StdDev,
    /// `stdvar`
    StdVar,
    /// `quantile`
    Quantile,
    /// Operators that are not supported.
    Unknown,
}

/// The shape behind the name of an aggregation operator.
pub open spec fn shape_of(op: Seq<char>) -> AggregateShape {
    if op == "topk"@ || op == "bottomk"@ {
        AggregateShape::Rank
    } else if op == "count"@ {
        AggregateShape::Count
    } else if op == "sum"@ || op == "avg"@ || op == "min"@ || op == "max"@ || op == "group"@ {
        AggregateShape::Group
    } else if op == "stddev"@ {
        AggregateShape::StdDev
    } else if op == "stdvar"@ {
        AggregateShape::StdVar
    } else if op == "quantile"@ {
        AggregateShape::Quantile
    } else {
        AggregateShape::Unknown
    }
}

fn shape(op: &str) -> (r: AggregateShape)
    ensures
        r == shape_of(op@),
{
    if text::same(op, "topk") || text::same(op, "bottomk") {
        AggregateShape::Rank
    } else if text::same(op, "count") {
        AggregateShape::Count
    } else if text::same(op, "sum") || text::same(op, "avg") || text::same(op, "min")
        || text::same(op, "max") || text::same(op, "group") {
        AggregateShape::Group
    } else if text::same(op, "stddev") {
        AggregateShape::StdDev
    } else if text::same(op, "stdvar") {
        AggregateShape::StdVar
    } else if text::same(op, "quantile") {
        AggregateShape::Quantile
    } else {
        AggregateShape::Unknown
    }
}

/// The number that an aggregation operator needs: zero for those that need
/// none, an error where it is missing or the operator is not supported.
pub open spec fn aggregate_number(op: Seq<char>, param: Option<Box<PromView>>) -> Result<
    Decimal,
    Seq<char>,
> {
    match shape_of(op) {
        AggregateShape::Rank | AggregateShape::Quantile => number_param(param),
        AggregateShape::Unknown => Err("unsupported PromQL aggregate operator: "@ + op),
        _ => Ok(Decimal { units: 0 }),
    }
}

fn operator_number(op: &str, param: &Option<Box<PromExpr>>) -> (r: Result<Decimal, String>)
    ensures
        counts(r, aggregate_number(op@, param_view(*param))),
{
    match shape(op) {
        AggregateShape::Rank | AggregateShape::Quantile => extract_number_param(param),
        AggregateShape::Unknown => Err(about("unsupported PromQL aggregate operator: ", op)),
        _ => Ok(Decimal::zero()),
    }
}

/// What an aggregation operator says of its operand.
pub open spec fn operand_ctx(
    shape: AggregateShape,
    n: Decimal,
    partition: Option<PartitionView>,
    ctx: WalkView,
) -> WalkView {
    WalkView {
        partition,
        topk: match shape {
            AggregateShape::Rank => Some(n.whole()),
            AggregateShape::Group => ctx.topk,
            _ => None,
        },
        outer_count: shape == AggregateShape::Count,
    }
}

/// An aggregation operator over its operand.
pub open spec fn aggregated(
    shape: AggregateShape,
    n: Decimal,
    partition: Option<PartitionView>,
    inner: QueryView,
) -> QueryView {
    match shape {
        AggregateShape::Rank => QueryView::TopK {
            k: n.whole(),
            by: partition_labels(partition),
            input: Box::new(inner),
        },
        AggregateShape::Count => partitioned(
            value_aggregate(Seq::empty(), "count"@, AggFuncView::CountDistinct, inner),
            partition,
        ),
        AggregateShape::StdDev => partitioned(
            value_aggregate(
                Seq::empty(),
                "stddev"@,
                AggFuncView::StdDev { population: false },
                inner,
            ),
            partition,
        ),
        AggregateShape::StdVar => partitioned(
            value_aggregate(
                Seq::empty(),
                "stdvar"@,
                AggFuncView::Variance { population: false },
                inner,
            ),
            partition,
        ),
        AggregateShape::Quantile => partitioned(
            value_aggregate(Seq::empty(), "quantile"@, AggFuncView::Quantile(n), inner),
            partition,
        ),
        AggregateShape::Group | AggregateShape::Unknown => partitioned(inner, partition),
    }
}

fn aggregate_over(
    s: AggregateShape,
    n: Decimal,
    partition: Option<PartitionKeys>,
    inner: QueryExpr,
) -> (r: QueryExpr)
    ensures
        r@ == aggregated(s, n, opt_partition(partition), inner@),
{
    match s {
        AggregateShape::Rank => QueryExpr::TopK {
            k: n.to_whole(),
            by: labels_of(&partition),
            input: Box::new(inner),
        },
        AggregateShape::Count => apply_qe_partition(
            aggregate_all("count", AggFunc::CountDistinct, inner),
            partition,
        ),
        AggregateShape::StdDev => apply_qe_partition(
            aggregate_all("stddev", AggFunc::StdDev { population: false }, inner),
            partition,
        ),
        AggregateShape::StdVar => apply_qe_partition(
            aggregate_all("stdvar", AggFunc::Variance { population: false }, inner),
            partition,
        ),
        AggregateShape::Quantile => apply_qe_partition(
            aggregate_all("quantile", AggFunc::Quantile(n), inner),
            partition,
        ),
        AggregateShape::Group | AggregateShape::Unknown => apply_qe_partition(inner, partition),
    }
}

/// The query of an expression.
pub open spec fn walked(e: PromView, ctx: WalkView) -> Result<QueryView, Seq<char>>
    decreases e,
{
    match e {
        PromView::Aggregate { op, expr, param, modifier } => match aggregate_number(op, param) {
            Err(m) => Err(m),
            Ok(n) => {
                let partition = opt_partition_of(modifier);
                match walked(*expr, operand_ctx(shape_of(op), n, partition, ctx)) {
                    Err(m) => Err(m),
                    Ok(inner) => Ok(aggregated(shape_of(op), n, partition, inner)),
                }
            },
        },
        PromView::Call { name, args } => called(name, args, ctx),
        PromView::Binary { op, lhs, rhs, modifier } => match walked(*lhs, no_ctx()) {
            Err(m) => Err(m),
            Ok(l) => match walked(*rhs, no_ctx()) {
                Err(m) => Err(m),
                Ok(r) => Ok(
                    QueryView::BinaryOp {
                        op: binop_of(op),
                        lhs: Box::new(l),
                        rhs: Box::new(r),
                        vector_match: vector_match_of(modifier),
                    },
                ),
            },
        },
        PromView::Paren(inner) => walked(*inner, ctx),
        PromView::Subquery { expr, range, step } => match walked(*expr, ctx) {
            Err(m) => Err(m),
            Ok(inner) => Ok(
                QueryView::PromQLSubquery { range, resolution: step, input: Box::new(inner) },
            ),
        },
        PromView::Vector(s) => Ok(
            value_aggregate(Seq::empty(), "value"@, AggFuncView::Sum, selected(s)),
        ),
        PromView::Number(_) | PromView::Text(_) => Err(
            "unexpected literal at top level of PromQL expression"@,
        ),
        PromView::Matrix { .. } | PromView::Other => Err("unsupported PromQL expression type"@),
    }
}

/// The query of an aggregation.
pub fn walk_aggregate_qe(
    op: &str,
    expr: &PromExpr,
    param: &Option<Box<PromExpr>>,
    modifier: &Option<LabelClause>,
    ctx: &WalkCtx,
) -> (r: Result<QueryExpr, String>)
    ensures
        gives(
            r,
            match aggregate_number(op@, param_view(*param)) {
                Err(m) => Err(m),
                Ok(n) => {
                    let partition = opt_partition_of(promql_ast::opt_modifier(*modifier));
                    match walked(expr@, operand_ctx(shape_of(op@), n, partition, ctx@)) {
                        Err(m) => Err(m),
                        Ok(inner) => Ok(aggregated(shape_of(op@), n, partition, inner)),
                    }
                },
            },
        ),
    decreases expr, 1int,
{
    let n = match operator_number(op, param) {
        Ok(n) => n,
        Err(m) => {
            return Err(m);
        },
    };
    let s = shape(op);
    let partition = modifier_to_partition(modifier);
    let inner_ctx = WalkCtx {
        partition: clone_partition(&partition),
        topk: match s {
            AggregateShape::Rank => Some(n.to_whole()),
            AggregateShape::Group => ctx.topk,
            _ => None,
        },
        outer_count: s == AggregateShape::Count,
    };
    assert(inner_ctx@ == operand_ctx(shape_of(op@), n, opt_partition(partition), ctx@));
    match walk_qe(expr, &inner_ctx) {
        Ok(inner) => Ok(aggregate_over(s, n, partition, inner)),
        Err(m) => Err(m),
    }
}

/// The query of an expression.
pub fn walk_qe(e: &PromExpr, ctx: &WalkCtx) -> (r: Result<QueryExpr, String>)
    ensures
        gives(r, walked(e@, ctx@)),
    decreases e, 0int,
{
    match e {
        PromExpr::Aggregate { op, expr, param, modifier } => walk_aggregate_qe(
            op.as_str(),
            expr,
            param,
            modifier,
            ctx,
        ),
        PromExpr::Call { name, args } => walk_call_qe(name.as_str(), args, ctx),
        PromExpr::Binary { op, lhs, rhs, modifier } => {
            let l = match walk_qe(lhs, &WalkCtx::default()) {
                Ok(q) => q,
                Err(m) => {
                    return Err(m);
                },
            };
            match walk_qe(rhs, &WalkCtx::default()) {
                Ok(r) => Ok(
                    QueryExpr::BinaryOp {
                        op: promql_token_to_binop(op.as_str()),
                        lhs: Box::new(l),
                        rhs: Box::new(r),
                        vector_match: vector_match(modifier),
                    },
                ),
                Err(m) => Err(m),
            }
        },
        PromExpr::Paren(inner) => walk_qe(inner, ctx),
        PromExpr::Subquery { expr, range, step } => match walk_qe(expr, ctx) {
            Ok(inner) => Ok(
                QueryExpr::PromQLSubquery {
                    range: *range,
                    resolution: *step,
                    input: Box::new(inner),
                },
            ),
            Err(m) => Err(m),
        },
        PromExpr::Vector(s) => Ok(aggregate_all("value", AggFunc::Sum, select(s))),
        PromExpr::Number(_) | PromExpr::Text(_) => Err(
            "unexpected literal at top level of PromQL expression".to_owned(),
        ),
        PromExpr::Matrix { .. } | PromExpr::Other => Err(
            "unsupported PromQL expression type".to_owned(),
        ),
    }
}

/// The query of a PromQL text, given what the parser made of it.
pub open spec fn promql_query(parsed: Result<PromView, Seq<char>>) -> Result<QueryView, Seq<char>> {
    match parsed {
        Ok(e) => walked(e, no_ctx()),
        Err(m) => Err("PromQL parse error: "@ + m),
    }
}

/// The query of a syntax tree, or the message of a parser that found none.
pub fn query_of_promql(parsed: Result<PromExpr, String>) -> (r: Result<QueryExpr, String>)
    ensures
        gives(
            r,
            promql_query(
                match parsed {
                    Ok(e) => Ok(e@),
                    Err(m) => Err(m@),
                },
            ),
        ),
{
    match parsed {
        Ok(e) => walk_qe(&e, &WalkCtx::default()),
        Err(m) => Err(about("PromQL parse error: ", m.as_str())),
    }
}

/// The query of a PromQL text.
pub fn parse_promql_expr(query: &str) -> (r: Result<QueryExpr, String>)
    ensures
        gives(r, promql_query(promql_ast::parsed_promql(query@))),
{
    query_of_promql(promql_ast::parse_tree(query))
}

} // verus!
