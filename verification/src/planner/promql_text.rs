//! Query expressions written as PromQL.
use vstd::prelude::*;
use vstd::string::*;

use crate::algebra::expr;
use crate::algebra::expr::{
    AggFunc, AggFuncView, BinaryOpKind, GroupSide, LiteralValue, LiteralView, QueryExpr, QueryView,
    ScalarExpr, ScalarView, VectorMatch, VectorMatchKind, VectorMatchView, WindowKind,
};
use crate::decimal;
use crate::decimal::{push_decimal, Decimal};
use crate::intent_algebra::agg_intent::AggIntent;
use crate::text;
use crate::types::Duration;

verus! {

// ── Durations ─────────────────────────────────────────────────────────────────

/// A duration in the largest of hours, minutes and seconds that writes it as a
/// whole number: `1h`, `5m`, `90s`.
pub open spec fn duration_text(d: Duration) -> Seq<char> {
    let s = d.secs as nat;
    if s > 0 && s % 3600 == 0 {
        text::nat_text(s / 3600) + "h"@
    } else if s > 0 && s % 60 == 0 {
        text::nat_text(s / 60) + "m"@
    } else {
        text::nat_text(s) + "s"@
    }
}

/// Append a duration in the largest unit that writes it as a whole number.
pub fn push_duration(out: &mut String, d: Duration)
    ensures
        final(out)@ == old(out)@ + duration_text(d),
{
    let ghost before = out@;
    let s: u64 = d.as_secs();
    if s > 0 && s % 3600 == 0 {
        text::push_u64(out, s / 3600);
        out.append("h");
    } else if s > 0 && s % 60 == 0 {
        text::push_u64(out, s / 60);
        out.append("m");
    } else {
        text::push_u64(out, s);
        out.append("s");
    }
    assert(out@ =~= before + duration_text(d));
}

/// A duration in the largest unit that writes it as a whole number.
pub fn format_duration(d: Duration) -> (r: String)
    ensures
        r@ == duration_text(d),
{
    let mut out = String::new();
    push_duration(&mut out, d);
    assert(out@ =~= duration_text(d));
    out
}

// ── Label matchers ────────────────────────────────────────────────────────────

/// The comparison of a label with a string, as PromQL writes it.
pub open spec fn matcher_sign(op: BinaryOpKind) -> Option<Seq<char>> {
    match op {
        BinaryOpKind::Eq => Some("=\""@),
        BinaryOpKind::Ne => Some("!=\""@),
        BinaryOpKind::Regex => Some("=~\""@),
        BinaryOpKind::NotRegex => Some("!~\""@),
        _ => None,
    }
}

/// The label matchers in a conjunction: its comparisons of a column with a
/// string, left to right. Every other part has none.
pub open spec fn matchers_of(pred: ScalarView) -> Seq<Seq<char>>
    decreases pred,
{
    match pred {
        ScalarView::BinaryOp { op, lhs, rhs } => if op == BinaryOpKind::And {
            matchers_of(*lhs) + matchers_of(*rhs)
        } else {
            match (matcher_sign(op), *lhs, *rhs) {
                (
                    Some(sign),
                    ScalarView::Column(col),
                    ScalarView::Literal(LiteralView::Str(v)),
                ) => seq![col + sign + v + "\""@],
                _ => Seq::empty(),
            }
        },
        _ => Seq::empty(),
    }
}

fn sign_of(op: BinaryOpKind) -> (r: Option<&'static str>)
    ensures
        match r {
            Some(s) => matcher_sign(op) == Some(s@),
            None => matcher_sign(op) is None,
        },
{
    match op {
        BinaryOpKind::Eq => Some("=\""),
        BinaryOpKind::Ne => Some("!=\""),
        BinaryOpKind::Regex => Some("=~\""),
        BinaryOpKind::NotRegex => Some("!~\""),
        _ => None,
    }
}

/// Append the label matchers in a conjunction.
fn collect_label_matchers(pred: &ScalarExpr, out: &mut Vec<String>)
    ensures
        text::texts(final(out)@) == text::texts(old(out)@) + matchers_of(pred@),
    decreases pred,
{
    proof {
        reveal_with_fuel(expr::scalar_view, 2);
    }
    let ghost before = text::texts(out@);
    match pred {
        ScalarExpr::BinaryOp { op, lhs, rhs } => {
            if matches!(*op, BinaryOpKind::And) {
                collect_label_matchers(lhs, out);
                collect_label_matchers(rhs, out);
                assert(text::texts(out@) =~= before + matchers_of(pred@));
            } else {
                match (sign_of(*op), &**lhs, &**rhs) {
                    (
                        Some(sign),
                        ScalarExpr::Column(col),
                        ScalarExpr::Literal(LiteralValue::Str(v)),
                    ) => {
                        let mut m = col.clone();
                        m.append(sign);
                        m.append(v.as_str());
                        m.append("\"");
                        let ghost shown = m@;
                        out.push(m);
                        assert(text::texts(out@) =~= before.push(shown));
                        assert(before.push(shown) =~= before + seq![shown]);
                    },
                    _ => {
                        assert(text::texts(out@) =~= before + Seq::<Seq<char>>::empty());
                    },
                }
            }
        },
        _ => {
            assert(text::texts(out@) =~= before + Seq::<Seq<char>>::empty());
        },
    }
}

/// The label matchers in a conjunction.
pub fn scalar_to_label_matchers(pred: &ScalarExpr) -> (r: Vec<String>)
    ensures
        text::texts(r@) == matchers_of(pred@),
{
    let mut out: Vec<String> = Vec::new();
    assert(text::texts(out@) =~= Seq::<Seq<char>>::empty());
    collect_label_matchers(pred, &mut out);
    assert(text::texts(out@) =~= matchers_of(pred@));
    out
}

// ── Fragments ─────────────────────────────────────────────────────────────────

/// A range selector; nothing without a window.
pub open spec fn window_text(w: Option<Duration>) -> Seq<char> {
    match w {
        Some(d) => "["@ + duration_text(d) + "]"@,
        None => Seq::empty(),
    }
}

fn window_str(w: Option<Duration>) -> (r: String)
    ensures
        r@ == window_text(w),
{
    match w {
        Some(d) => {
            let mut out = "[".to_owned();
            push_duration(&mut out, d);
            out.append("]");
            out
        },
        None => String::new(),
    }
}

/// A grouping clause; nothing without labels.
pub open spec fn by_text(keys: Seq<Seq<char>>) -> Seq<char> {
    if keys.len() == 0 {
        Seq::empty()
    } else {
        " by ("@ + text::joined(keys, ", "@) + ")"@
    }
}

fn by_clause(keys: &Vec<String>) -> (r: String)
    ensures
        r@ == by_text(text::texts(keys@)),
{
    if keys.len() == 0 {
        String::new()
    } else {
        let mut out = " by (".to_owned();
        out.append(text::join(keys, ", ").as_str());
        out.append(")");
        out
    }
}

/// What a call of a range function reads: selector, window and grouping.
#[derive(Debug)]
pub struct CallArgs {
    pub selector: String,
    pub window: String,
    pub by: String,
}

/// What [`CallArgs`] holds.
#[verifier::ext_equal]
pub struct ArgsView {
    pub selector: Seq<char>,
    pub window: Seq<char>,
    pub by: Seq<char>,
}

impl View for CallArgs {
    type V = ArgsView;

    open spec fn view(&self) -> ArgsView {
        ArgsView { selector: self.selector@, window: self.window@, by: self.by@ }
    }
}

/// A call with something before and after the range: `f(a, m[5m], b) by (k)`.
pub open spec fn call_text(head: Seq<char>, a: ArgsView, tail: Seq<char>) -> Seq<char> {
    head + a.selector + a.window + tail + ")"@ + a.by
}

fn call(head: &str, a: &CallArgs, tail: &str) -> (r: String)
    ensures
        r@ == call_text(head@, a@, tail@),
{
    let mut out = head.to_owned();
    out.append(a.selector.as_str());
    out.append(a.window.as_str());
    out.append(tail);
    out.append(")");
    out.append(a.by.as_str());
    out
}

/// A call of a function of the range alone.
pub open spec fn simple_call(head: Seq<char>, a: ArgsView) -> Seq<char> {
    call_text(head, a, Seq::empty())
}

fn simple(head: &str, a: &CallArgs) -> (r: String)
    ensures
        r@ == simple_call(head@, a@),
{
    let none = String::new();
    let r = call(head, a, none.as_str());
    assert(none@ =~= Seq::<char>::empty());
    r
}

/// A head that takes a number first: `quantile_over_time(0.99, `.
pub open spec fn ranked_head(name: Seq<char>, q: Decimal) -> Seq<char> {
    name + "("@ + decimal::decimal_text(q) + ", "@
}

fn ranked(name: &str, q: Decimal) -> (r: String)
    ensures
        r@ == ranked_head(name@, q),
{
    let mut out = name.to_owned();
    out.append("(");
    push_decimal(&mut out, q);
    out.append(", ");
    out
}

/// A ranking around another expression.
pub open spec fn topk_text(k: u64, inner: Seq<char>) -> Seq<char> {
    "topk("@ + text::nat_text(k as nat) + ", "@ + inner + ")"@
}

fn topk(k: u64, inner: &str) -> (r: String)
    ensures
        r@ == topk_text(k, inner@),
{
    let mut out = "topk(".to_owned();
    text::push_u64(&mut out, k);
    out.append(", ");
    out.append(inner);
    out.append(")");
    out
}

/// The quantile of a histogram's rate.
pub open spec fn histogram_text(q: Decimal, a: ArgsView) -> Seq<char> {
    ranked_head("histogram_quantile"@, q) + "rate("@ + a.selector + a.window + "))"@
}

fn histogram(q: Decimal, selector: &str, window: &str) -> (r: String)
    ensures
        r@ == ranked_head("histogram_quantile"@, q) + "rate("@ + selector@ + window@ + "))"@,
{
    let mut out = ranked("histogram_quantile", q);
    out.append("rate(");
    out.append(selector);
    out.append(window);
    out.append("))");
    out
}

/// An intent as PromQL.
pub open spec fn intent_promql(op: AggIntent, a: ArgsView) -> Seq<char> {
    match op {
        AggIntent::Quantile { q, .. } => simple_call(ranked_head("quantile_over_time"@, q), a),
        AggIntent::Cardinality { .. }
        | AggIntent::Frequency { .. }
        | AggIntent::Count { .. } => simple_call("count_over_time("@, a),
        AggIntent::TopK { k, .. } => topk_text(k, simple_call("count_over_time("@, a)),
        AggIntent::Sum => simple_call("sum_over_time("@, a),
        AggIntent::Avg => simple_call("avg_over_time("@, a),
        AggIntent::Min => simple_call("min_over_time("@, a),
        AggIntent::Max => simple_call("max_over_time("@, a),
        AggIntent::Rate { .. } => simple_call("rate("@, a),
        AggIntent::Increase { .. } => simple_call("increase("@, a),
        AggIntent::HistogramQuantile { q } => histogram_text(q, a),
        AggIntent::Absent => simple_call("absent_over_time("@, a),
        AggIntent::Present => simple_call("present_over_time("@, a),
        AggIntent::Delta { .. } => simple_call("delta("@, a),
        AggIntent::Deriv { .. } => simple_call("deriv("@, a),
        AggIntent::PredictLinear { ahead, .. } => call_text(
            "predict_linear("@,
            a,
            ", "@ + text::nat_text(ahead.secs as nat),
        ),
        AggIntent::HoltWinters { smoothing_factor, trend_factor, .. } => call_text(
            "holt_winters("@,
            a,
            ", "@ + decimal::decimal_text(smoothing_factor) + ", "@ + decimal::decimal_text(
                trend_factor,
            ),
        ),
        AggIntent::Idelta { .. } => simple_call("idelta("@, a),
        AggIntent::Irate { .. } => simple_call("irate("@, a),
        AggIntent::Resets { .. } => simple_call("resets("@, a),
        AggIntent::Changes { .. } => simple_call("changes("@, a),
    }
}

/// An intent as PromQL.
pub fn sketch_op_to_promql(op: &AggIntent, a: &CallArgs) -> (r: String)
    ensures
        r@ == intent_promql(*op, a@),
{
    match op {
        AggIntent::Quantile { q, .. } => simple(ranked("quantile_over_time", *q).as_str(), a),
        AggIntent::Cardinality { .. }
        | AggIntent::Frequency { .. }
        | AggIntent::Count { .. } => simple("count_over_time(", a),
        AggIntent::TopK { k, .. } => topk(*k, simple("count_over_time(", a).as_str()),
        AggIntent::Sum => simple("sum_over_time(", a),
        AggIntent::Avg => simple("avg_over_time(", a),
        AggIntent::Min => simple("min_over_time(", a),
        AggIntent::Max => simple("max_over_time(", a),
        AggIntent::Rate { .. } => simple("rate(", a),
        AggIntent::Increase { .. } => simple("increase(", a),
        AggIntent::HistogramQuantile { q } => histogram(*q, a.selector.as_str(), a.window.as_str()),
        AggIntent::Absent => simple("absent_over_time(", a),
        AggIntent::Present => simple("present_over_time(", a),
        AggIntent::Delta { .. } => simple("delta(", a),
        AggIntent::Deriv { .. } => simple("deriv(", a),
        AggIntent::PredictLinear { ahead, .. } => {
            let mut tail = ", ".to_owned();
            text::push_u64(&mut tail, ahead.as_secs());
            call("predict_linear(", a, tail.as_str())
        },
        AggIntent::HoltWinters { smoothing_factor, trend_factor, .. } => {
            let mut tail = ", ".to_owned();
            push_decimal(&mut tail, *smoothing_factor);
            tail.append(", ");
            push_decimal(&mut tail, *trend_factor);
            call("holt_winters(", a, tail.as_str())
        },
        AggIntent::Idelta { .. } => simple("idelta(", a),
        AggIntent::Irate { .. } => simple("irate(", a),
        AggIntent::Resets { .. } => simple("resets(", a),
        AggIntent::Changes { .. } => simple("changes(", a),
    }
}

/// An aggregate function as PromQL.
pub open spec fn func_promql(func: AggFuncView, a: ArgsView) -> Seq<char> {
    match func {
        AggFuncView::Quantile(q) => simple_call(ranked_head("quantile_over_time"@, q), a),
        AggFuncView::CountDistinct | AggFuncView::Count => simple_call("count_over_time("@, a),
        AggFuncView::HeavyHitters { k } => topk_text(k, simple_call("count_over_time("@, a)),
        AggFuncView::Sum => simple_call("sum_over_time("@, a),
        AggFuncView::Avg => simple_call("avg_over_time("@, a),
        AggFuncView::Min => simple_call("min_over_time("@, a),
        AggFuncView::Max => simple_call("max_over_time("@, a),
        AggFuncView::StdDev { .. } => simple_call("stddev_over_time("@, a),
        AggFuncView::Variance { .. } => simple_call("stdvar_over_time("@, a),
        AggFuncView::Rate => simple_call("rate("@, a),
        AggFuncView::Increase => simple_call("increase("@, a),
        AggFuncView::Delta => simple_call("delta("@, a),
        AggFuncView::Custom(name) => simple_call(name + "("@, a),
    }
}

/// An aggregate function as PromQL.
pub fn agg_func_to_promql(func: &AggFunc, a: &CallArgs) -> (r: String)
    ensures
        r@ == func_promql(func@, a@),
{
    match func {
        AggFunc::Quantile(q) => simple(ranked("quantile_over_time", *q).as_str(), a),
        AggFunc::CountDistinct | AggFunc::Count => simple("count_over_time(", a),
        AggFunc::HeavyHitters { k } => topk(*k, simple("count_over_time(", a).as_str()),
        AggFunc::Sum => simple("sum_over_time(", a),
        AggFunc::Avg => simple("avg_over_time(", a),
        AggFunc::Min => simple("min_over_time(", a),
        AggFunc::Max => simple("max_over_time(", a),
        AggFunc::StdDev { .. } => simple("stddev_over_time(", a),
        AggFunc::Variance { .. } => simple("stdvar_over_time(", a),
        AggFunc::Rate => simple("rate(", a),
        AggFunc::Increase => simple("increase(", a),
        AggFunc::Delta => simple("delta(", a),
        AggFunc::Custom(name) => {
            let mut head = name.clone();
            head.append("(");
            simple(head.as_str(), a)
        },
    }
}

/// A vector operator as PromQL writes it; `and` for those it does not have.
pub open spec fn binop_text(op: BinaryOpKind) -> Seq<char> {
    match op {
        BinaryOpKind::Add => "+"@,
        BinaryOpKind::Sub => "-"@,
        BinaryOpKind::Mul => "*"@,
        BinaryOpKind::Div => "/"@,
        BinaryOpKind::Mod => "%"@,
        BinaryOpKind::Pow => "^"@,
        BinaryOpKind::Eq => "=="@,
        BinaryOpKind::Ne => "!="@,
        BinaryOpKind::Lt => "<"@,
        BinaryOpKind::Le => "<="@,
        BinaryOpKind::Gt => ">"@,
        BinaryOpKind::Ge => ">="@,
        BinaryOpKind::And => "and"@,
        BinaryOpKind::Or => "or"@,
        BinaryOpKind::Unless => "unless"@,
        BinaryOpKind::Atan2 => "atan2"@,
        _ => "and"@,
    }
}

/// A vector operator as PromQL writes it; `and` for those it does not have.
pub fn binop_to_promql(op: &BinaryOpKind) -> (r: &'static str)
    ensures
        r@ == binop_text(*op),
{
    match op {
        BinaryOpKind::Add => "+",
        BinaryOpKind::Sub => "-",
        BinaryOpKind::Mul => "*",
        BinaryOpKind::Div => "/",
        BinaryOpKind::Mod => "%",
        BinaryOpKind::Pow => "^",
        BinaryOpKind::Eq => "==",
        BinaryOpKind::Ne => "!=",
        BinaryOpKind::Lt => "<",
        BinaryOpKind::Le => "<=",
        BinaryOpKind::Gt => ">",
        BinaryOpKind::Ge => ">=",
        BinaryOpKind::And => "and",
        BinaryOpKind::Or => "or",
        BinaryOpKind::Unless => "unless",
        BinaryOpKind::Atan2 => "atan2",
        _ => "and",
    }
}

/// A vector match as PromQL: ` on (job) group_left(env)`.
pub open spec fn match_text(m: Option<VectorMatchView>) -> Seq<char> {
    match m {
        None => Seq::empty(),
        Some(v) => " "@ + (match v.kind {
            VectorMatchKind::On => "on"@,
            VectorMatchKind::Ignoring => "ignoring"@,
        }) + " ("@ + text::joined(v.labels, ", "@) + ")"@ + (match v.grouping {
            None => Seq::empty(),
            Some(g) => " "@ + (match g.side {
                GroupSide::Left => "group_left"@,
                GroupSide::Right => "group_right"@,
            }) + (if g.labels.len() == 0 {
                Seq::empty()
            } else {
                "("@ + text::joined(g.labels, ", "@) + ")"@
            }),
        }),
    }
}

fn match_str(m: &Option<VectorMatch>) -> (r: String)
    ensures
        r@ == match_text(expr::match_view(*m)),
{
    match m {
        None => String::new(),
        Some(v) => {
            let mut out = " ".to_owned();
            match v.kind {
                VectorMatchKind::On => {
                    out.append("on");
                },
                VectorMatchKind::Ignoring => {
                    out.append("ignoring");
                },
            }
            out.append(" (");
            out.append(text::join(&v.labels, ", ").as_str());
            out.append(")");
            match &v.grouping {
                None => {},
                Some(g) => {
                    let ghost start = out@;
                    out.append(" ");
                    match g.side {
                        GroupSide::Left => {
                            out.append("group_left");
                        },
                        GroupSide::Right => {
                            out.append("group_right");
                        },
                    }
                    if g.labels.len() > 0 {
                        out.append("(");
                        out.append(text::join(&g.labels, ", ").as_str());
                        out.append(")");
                    }
                },
            }
            assert(out@ =~= match_text(expr::match_view(*m)));
            out
        },
    }
}

// ── Trees ─────────────────────────────────────────────────────────────────────

/// What was met on the way: grouping labels, and the outermost window.
#[derive(Debug)]
pub struct PromQLCtx {
    pub group_by: Vec<String>,
    pub window: Option<Duration>,
}

/// What [`PromQLCtx`] holds.
#[verifier::ext_equal]
pub struct CtxView {
    pub group_by: Seq<Seq<char>>,
    pub window: Option<Duration>,
}

impl View for PromQLCtx {
    type V = CtxView;

    open spec fn view(&self) -> CtxView {
        CtxView { group_by: text::texts(self.group_by@), window: self.window }
    }
}

/// The context before anything was met.
pub open spec fn empty_ctx() -> CtxView {
    CtxView { group_by: Seq::empty(), window: None }
}

impl Default for PromQLCtx {
    fn default() -> (r: PromQLCtx)
        ensures
            r@ == empty_ctx(),
    {
        let r = PromQLCtx { group_by: Vec::new(), window: None };
        assert(r@ =~= empty_ctx());
        r
    }
}

impl CtxView {
    /// The context with a window noted, unless there is one already.
    pub open spec fn windowed(self, d: Duration) -> CtxView {
        match self.window {
            None => CtxView { window: Some(d), ..self },
            Some(_) => self,
        }
    }

    /// The context with grouping labels noted.
    pub open spec fn grouped(self, keys: Seq<Seq<char>>) -> CtxView {
        CtxView { group_by: text::with_all_unique(self.group_by, keys), ..self }
    }

    /// What a call over `selector` reads in this context.
    pub open spec fn args(self, selector: Seq<char>) -> ArgsView {
        ArgsView { selector, window: window_text(self.window), by: by_text(self.group_by) }
    }
}

impl PromQLCtx {
    fn note_window(&mut self, d: Duration)
        ensures
            final(self)@ == old(self)@.windowed(d),
    {
        if self.window.is_none() {
            self.window = Some(d);
        }
    }

    fn note_keys(&mut self, keys: &Vec<String>)
        ensures
            final(self)@ == old(self)@.grouped(text::texts(keys@)),
    {
        text::push_all_unique(&mut self.group_by, keys);
    }

    fn call_args(&self, selector: String) -> (r: CallArgs)
        ensures
            r@ == self@.args(selector@),
    {
        CallArgs { selector, window: window_str(self.window), by: by_clause(&self.group_by) }
    }
}

/// A tree as PromQL, and the context after it. A grouping or a window counts
/// for every aggregation met after it on the way back.
pub open spec fn promql(e: QueryView, ctx: CtxView) -> (Seq<char>, CtxView)
    decreases e,
{
    match e {
        QueryView::Source(name) => (name, ctx),
        QueryView::Ref(name) => (name, ctx),
        QueryView::Filter { pred, input } => {
            let (inner, c) = promql(*input, ctx);
            let matchers = matchers_of(pred);
            (
                if matchers.len() == 0 {
                    inner
                } else {
                    inner + "{"@ + text::joined(matchers, ", "@) + "}"@
                },
                c,
            )
        },
        QueryView::Window { duration, input, .. } => promql(*input, ctx.windowed(duration)),
        QueryView::Partition { keys, input } => promql(*input, ctx.grouped(keys.labels())),
        QueryView::WindowedAgg { agg, window, input, .. } => {
            let (selector, c) = promql(
                *input,
                match window.kind {
                    WindowKind::Tumbling { size } => ctx.windowed(size),
                    _ => ctx,
                },
            );
            (intent_promql(agg, c.args(selector)), c)
        },
        QueryView::SketchAgg { op, input, .. } => {
            let (selector, c) = promql(*input, ctx);
            (intent_promql(op, c.args(selector)), c)
        },
        QueryView::Aggregate { keys, aggs, input, .. } => {
            let (selector, c) = promql(*input, ctx.grouped(keys));
            (
                if aggs.len() == 0 {
                    selector
                } else {
                    func_promql(aggs[0].func, c.args(selector))
                },
                c,
            )
        },
        QueryView::TopK { k, input, .. } => {
            let (inner, c) = promql(*input, ctx);
            (topk_text(k, inner), c)
        },
        QueryView::Limit { n, input, .. } => {
            let (inner, c) = promql(*input, ctx);
            (topk_text(n, inner), c)
        },
        QueryView::HistogramQuantile { phi, input } => {
            let (selector, c) = promql(*input, ctx);
            (histogram_text(phi, c.args(selector)), c)
        },
        QueryView::PromQLSubquery { range, resolution, input } => {
            let (inner, c) = promql(*input, ctx);
            (subquery_text(inner, range, resolution), c)
        },
        QueryView::BinaryOp { op, lhs, rhs, vector_match } => {
            let (l, c) = promql(*lhs, ctx);
            let (r, _) = promql(*rhs, empty_ctx());
            ("("@ + l + " "@ + binop_text(op) + match_text(vector_match) + " "@ + r + ")"@, c)
        },
        QueryView::Merge { inputs } => if inputs.len() == 0 {
            (Seq::empty(), ctx)
        } else {
            promql(inputs[0], ctx)
        },
        QueryView::Sort { input, .. }
        | QueryView::Distinct { input, .. }
        | QueryView::Project { input, .. } => promql(*input, ctx),
        QueryView::LetBinding { body, .. } => promql(*body, ctx),
        QueryView::Join { left, .. } | QueryView::SetOp { left, .. } => promql(*left, ctx),
    }
}

/// A subquery: `m[1h:1m]`.
pub open spec fn subquery_text(
    inner: Seq<char>,
    range: Duration,
    resolution: Option<Duration>,
) -> Seq<char> {
    inner + "["@ + duration_text(range) + (match resolution {
        Some(r) => ":"@ + duration_text(r),
        None => Seq::empty(),
    }) + "]"@
}

fn subquery(inner: String, range: Duration, resolution: Option<Duration>) -> (r: String)
    ensures
        r@ == subquery_text(inner@, range, resolution),
{
    let ghost start = inner@;
    let mut out = inner;
    out.append("[");
    push_duration(&mut out, range);
    match resolution {
        Some(r) => {
            out.append(":");
            push_duration(&mut out, r);
        },
        None => {},
    }
    out.append("]");
    assert(out@ =~= subquery_text(start, range, resolution));
    out
}

fn filtered(inner: String, pred: &ScalarExpr) -> (r: String)
    ensures
        r@ == if matchers_of(pred@).len() == 0 {
            inner@
        } else {
            inner@ + "{"@ + text::joined(matchers_of(pred@), ", "@) + "}"@
        },
{
    let matchers = scalar_to_label_matchers(pred);
    assert(matchers@.len() == text::texts(matchers@).len());
    if matchers.len() == 0 {
        return inner;
    }
    let mut out = inner;
    out.append("{");
    out.append(text::join(&matchers, ", ").as_str());
    out.append("}");
    out
}

fn binary(l: &str, op: &BinaryOpKind, m: &Option<VectorMatch>, r: &str) -> (s: String)
    ensures
        s@ == "("@ + l@ + " "@ + binop_text(*op) + match_text(expr::match_view(*m)) + " "@ + r@
            + ")"@,
{
    let mut out = "(".to_owned();
    out.append(l);
    out.append(" ");
    out.append(binop_to_promql(op));
    out.append(match_str(m).as_str());
    out.append(" ");
    out.append(r);
    out.append(")");
    out
}

/// Whether a text and a context are the given ones.
pub open spec fn written(s: Seq<char>, c: CtxView, want: (Seq<char>, CtxView)) -> bool {
    s == want.0 && c == want.1
}

/// A tree as PromQL, noting groupings and windows on the way.
pub fn promql_from_qe(expr: &QueryExpr, ctx: &mut PromQLCtx) -> (r: String)
    ensures
        written(r@, final(ctx)@, promql(expr@, old(ctx)@)),
    decreases expr,
{
    match expr {
        QueryExpr::Source(s) => s.name.clone(),
        QueryExpr::Ref(name) => name.clone(),
        QueryExpr::Filter { pred, input } => {
            let inner = promql_from_qe(input, ctx);
            filtered(inner, pred)
        },
        QueryExpr::Window { duration, input, .. } => {
            ctx.note_window(*duration);
            promql_from_qe(input, ctx)
        },
        QueryExpr::Partition { keys, input } => {
            ctx.note_keys(keys.keys());
            promql_from_qe(input, ctx)
        },
        QueryExpr::WindowedAgg { agg, window, input, .. } => {
            if let WindowKind::Tumbling { size } = window.kind {
                ctx.note_window(size);
            }
            let selector = promql_from_qe(input, ctx);
            sketch_op_to_promql(agg, &ctx.call_args(selector))
        },
        QueryExpr::SketchAgg { op, input, .. } => {
            let selector = promql_from_qe(input, ctx);
            sketch_op_to_promql(op, &ctx.call_args(selector))
        },
        QueryExpr::Aggregate { keys, aggs, input, .. } => {
            ctx.note_keys(keys);
            let selector = promql_from_qe(input, ctx);
            if aggs.len() > 0 {
                assert(expr::aggs_view(aggs@)[0] == aggs@[0]@);
                agg_func_to_promql(&aggs[0].func, &ctx.call_args(selector))
            } else {
                selector
            }
        },
        QueryExpr::TopK { k, input, .. } => {
            let inner = promql_from_qe(input, ctx);
            topk(*k, inner.as_str())
        },
        QueryExpr::Limit { n, input, .. } => {
            let inner = promql_from_qe(input, ctx);
            topk(*n, inner.as_str())
        },
        QueryExpr::HistogramQuantile { phi, input } => {
            let selector = promql_from_qe(input, ctx);
            let window = window_str(ctx.window);
            histogram(*phi, selector.as_str(), window.as_str())
        },
        QueryExpr::PromQLSubquery { range, resolution, input } => {
            let inner = promql_from_qe(input, ctx);
            subquery(inner, *range, *resolution)
        },
        QueryExpr::BinaryOp { op, lhs, rhs, vector_match } => {
            let l = promql_from_qe(lhs, ctx);
            let mut fresh = PromQLCtx::default();
            let r = promql_from_qe(rhs, &mut fresh);
            binary(l.as_str(), op, vector_match, r.as_str())
        },
        QueryExpr::Merge { inputs } => {
            broadcast use expr::group_list_views;
            broadcast use vstd::std_specs::vec::axiom_vec_index_decreases;

            if inputs.len() > 0 {
                assert(decreases_to!(*inputs => inputs[0]));
                assert(expr::queries_view(inputs@)[0] == expr::query_view(inputs@[0]));
                promql_from_qe(&inputs[0], ctx)
            } else {
                let none = String::new();
                assert(none@ =~= Seq::<char>::empty());
                none
            }
        },
        QueryExpr::Sort { input, .. }
        | QueryExpr::Distinct { input, .. }
        | QueryExpr::Project { input, .. } => promql_from_qe(input, ctx),
        QueryExpr::LetBinding { body, .. } => promql_from_qe(body, ctx),
        QueryExpr::Join { left, .. } | QueryExpr::SetOp { left, .. } => promql_from_qe(left, ctx),
    }
}

/// A tree as PromQL.
pub fn expr_to_promql(expr: &QueryExpr) -> (r: String)
    ensures
        r@ == promql(expr@, empty_ctx()).0,
{
    let mut ctx = PromQLCtx::default();
    promql_from_qe(expr, &mut ctx)
}

} // verus!
