//! What holds of every query that is written as PromQL.
use vstd::prelude::*;

use crate::algebra::expr::{
    AggFuncView, AggItemView, BinaryOpKind, ColumnView, PartitionView, QueryView, ScalarView,
    VectorMatchView,
};
use crate::decimal;
use crate::intent_algebra::agg_intent::AggIntent;
use crate::planner::promql_text::{
    binop_text, duration_text, empty_ctx, func_promql, intent_promql, match_text, matchers_of,
    promql, topk_text, ArgsView, CtxView,
};
use crate::query_parser::promql::{conjunction, label_matchers, metric_of, selected};
use crate::query_parser::promql_ast::{MatchKindView, MatcherView, SelectorView};
use crate::query_parser::promql_laws::{is_called, sign};
use crate::query_parser::sql::spelled_span;
use crate::query_parser::sql_laws::{law_spelled_span, seconds_in};
use crate::text;
use crate::types::Duration;

verus! {

/// A duration is written so that reading it gives its whole seconds.
pub proof fn law_duration_reads_back(d: Duration)
    ensures
        spelled_span(duration_text(d)) == Some(Duration::of_secs(d.secs)),
{
    let s: u64 = d.secs;
    lemma_units();
    if s > 0 && s % 3600 == 0 {
        let k: u64 = (s / 3600) as u64;
        law_spelled_span(k, "h"@);
        lemma_times(k, seconds_in("h"@)->0, 3600);
        assert(k as nat == s as nat / 3600);
    } else if s > 0 && s % 60 == 0 {
        let k: u64 = (s / 60) as u64;
        law_spelled_span(k, "m"@);
        lemma_times(k, seconds_in("m"@)->0, 60);
        assert(k as nat == s as nat / 60);
    } else {
        law_spelled_span(s, "s"@);
        lemma_times(s, seconds_in("s"@)->0, 1);
    }
}

proof fn lemma_times(k: u64, unit: u64, n: u64)
    requires
        unit == n,
    ensures
        k * unit == k * n,
{
}

proof fn lemma_units()
    ensures
        seconds_in("h"@) == Some(3600u64),
        seconds_in("m"@) == Some(60u64),
        seconds_in("s"@) == Some(1u64),
{
    reveal_strlit("s");
    reveal_strlit("m");
    reveal_strlit("h");
    reveal_strlit("second");
    reveal_strlit("seconds");
    reveal_strlit("min");
    reveal_strlit("minute");
    reveal_strlit("minutes");
    assert("s"@[0] == 's' && "m"@[0] == 'm' && "h"@[0] == 'h');
    assert("s"@.len() == 1 && "m"@.len() == 1 && "h"@.len() == 1 && "min"@.len() == 3
        && "second"@.len() == 6 && "minute"@.len() == 6 && "seconds"@.len() == 7 && "minutes"@.len()
        == 7);
}

/// A label matcher as PromQL writes it.
pub open spec fn matcher_text(m: MatcherView) -> Seq<char> {
    match m.kind {
        MatchKindView::Equal => m.name + "=\""@ + m.value + "\""@,
        MatchKindView::NotEqual => m.name + "!=\""@ + m.value + "\""@,
        MatchKindView::Regex(re) => m.name + "=~\""@ + re + "\""@,
        MatchKindView::NotRegex(re) => m.name + "!~\""@ + re + "\""@,
    }
}

proof fn lemma_matchers(ms: Seq<MatcherView>)
    ensures
        matchers_of(conjunction(ms)) == ms.map_values(|m: MatcherView| matcher_text(m)),
    decreases ms.len(),
{
    reveal_with_fuel(matchers_of, 2);
    let write = |m: MatcherView| matcher_text(m);
    if ms.len() == 0 {
        assert(ms.map_values(write) =~= Seq::<Seq<char>>::empty());
    } else {
        lemma_matchers(ms.drop_last());
        assert(ms.map_values(write) =~= ms.drop_last().map_values(write) + seq![
            matcher_text(ms.last()),
        ]);
    }
}

/// A selector is written as its metric, and behind it in braces each matcher on a
/// label, in order.
pub proof fn law_selector_is_written(s: SelectorView, ctx: CtxView)
    ensures
        ({
            let ms = label_matchers(s.matchers);
            promql(selected(s), ctx) == (
                if ms.len() == 0 {
                    metric_of(s)
                } else {
                    metric_of(s) + "{"@ + text::joined(
                        ms.map_values(|m: MatcherView| matcher_text(m)),
                        ", "@,
                    ) + "}"@
                },
                ctx,
            )
        }),
{
    reveal_with_fuel(promql, 2);
    let ms = label_matchers(s.matchers);
    lemma_matchers(ms);
    assert(ms.map_values(|m: MatcherView| matcher_text(m)).len() == ms.len());
}

proof fn lemma_heads()
    ensures
        "avg_over_time("@ == "avg_over_time"@ + "("@,
        "min_over_time("@ == "min_over_time"@ + "("@,
        "max_over_time("@ == "max_over_time"@ + "("@,
        "sum_over_time("@ == "sum_over_time"@ + "("@,
        "count_over_time("@ == "count_over_time"@ + "("@,
        "stddev_over_time("@ == "stddev_over_time"@ + "("@,
        "stdvar_over_time("@ == "stdvar_over_time"@ + "("@,
        "rate("@ == "rate"@ + "("@,
        "increase("@ == "increase"@ + "("@,
        "delta("@ == "delta"@ + "("@,
{
    reveal_strlit("(");
    reveal_strlit("avg_over_time(");
    reveal_strlit("avg_over_time");
    reveal_strlit("min_over_time(");
    reveal_strlit("min_over_time");
    reveal_strlit("max_over_time(");
    reveal_strlit("max_over_time");
    reveal_strlit("sum_over_time(");
    reveal_strlit("sum_over_time");
    reveal_strlit("count_over_time(");
    reveal_strlit("count_over_time");
    reveal_strlit("stddev_over_time(");
    reveal_strlit("stddev_over_time");
    reveal_strlit("stdvar_over_time(");
    reveal_strlit("stdvar_over_time");
    reveal_strlit("rate(");
    reveal_strlit("rate");
    reveal_strlit("increase(");
    reveal_strlit("increase");
    reveal_strlit("delta(");
    reveal_strlit("delta");
    assert("avg_over_time("@ =~= "avg_over_time"@ + "("@);
    assert("min_over_time("@ =~= "min_over_time"@ + "("@);
    assert("max_over_time("@ =~= "max_over_time"@ + "("@);
    assert("sum_over_time("@ =~= "sum_over_time"@ + "("@);
    assert("count_over_time("@ =~= "count_over_time"@ + "("@);
    assert("stddev_over_time("@ =~= "stddev_over_time"@ + "("@);
    assert("stdvar_over_time("@ =~= "stdvar_over_time"@ + "("@);
    assert("rate("@ =~= "rate"@ + "("@);
    assert("increase("@ =~= "increase"@ + "("@);
    assert("delta("@ =~= "delta"@ + "("@);
}

/// A call by a name of something, over a range and by a grouping.
pub open spec fn called_text(name: Seq<char>, first: Seq<char>, a: ArgsView) -> Seq<char> {
    name + "("@ + first + a.selector + a.window + ")"@ + a.by
}

/// An aggregate function is written as a call by a name that stands for it; a
/// quantile takes its rank first.
pub proof fn law_function_is_called_by_its_name(f: AggFuncView, a: ArgsView)
    requires
        !(f is HeavyHitters),
        !(f is Custom),
        f matches AggFuncView::StdDev { population } ==> !population,
        f matches AggFuncView::Variance { population } ==> !population,
    ensures
        exists|name: Seq<char>| #[trigger]
            is_called(f, name) && func_promql(f, a) == called_text(
                name,
                match f {
                    AggFuncView::Quantile(q) => decimal::decimal_text(q) + ", "@,
                    _ => Seq::empty(),
                },
                a,
            ),
{
    lemma_heads();
    let none = Seq::<char>::empty();
    let name = match f {
        AggFuncView::Avg => "avg_over_time"@,
        AggFuncView::Min => "min_over_time"@,
        AggFuncView::Max => "max_over_time"@,
        AggFuncView::Sum => "sum_over_time"@,
        AggFuncView::StdDev { .. } => "stddev_over_time"@,
        AggFuncView::Variance { .. } => "stdvar_over_time"@,
        AggFuncView::Rate => "rate"@,
        AggFuncView::Increase => "increase"@,
        AggFuncView::Delta => "delta"@,
        AggFuncView::Quantile(_) => "quantile_over_time"@,
        _ => "count_over_time"@,
    };
    assert(is_called(f, name));
    if let AggFuncView::Quantile(q) = f {
        assert(func_promql(f, a) =~= called_text(name, decimal::decimal_text(q) + ", "@, a));
    } else {
        assert(func_promql(f, a) =~= called_text(name, none, a));
    }
}

/// Heavy hitters are written as a ranking of counts, other functions by their
/// own name.
pub proof fn law_other_functions(k: u64, name: Seq<char>, a: ArgsView)
    ensures
        func_promql(AggFuncView::HeavyHitters { k }, a) == topk_text(
            k,
            func_promql(AggFuncView::Count, a),
        ),
        func_promql(AggFuncView::Custom(name), a) == called_text(name, Seq::empty(), a),
{
    assert(func_promql(AggFuncView::Custom(name), a) =~= called_text(name, Seq::empty(), a));
}

/// A sketch aggregation is written as the aggregate function that it answers is.
pub proof fn law_intent_is_written_as_its_function(op: AggIntent, a: ArgsView)
    ensures
        match op {
            AggIntent::Quantile { q, .. } => intent_promql(op, a) == func_promql(
                AggFuncView::Quantile(q),
                a,
            ),
            AggIntent::Cardinality { .. } => intent_promql(op, a) == func_promql(
                AggFuncView::CountDistinct,
                a,
            ),
            AggIntent::Frequency { .. } | AggIntent::Count { .. } => intent_promql(op, a)
                == func_promql(AggFuncView::Count, a),
            AggIntent::TopK { k, .. } => intent_promql(op, a) == func_promql(
                AggFuncView::HeavyHitters { k },
                a,
            ),
            AggIntent::Sum => intent_promql(op, a) == func_promql(AggFuncView::Sum, a),
            AggIntent::Avg => intent_promql(op, a) == func_promql(AggFuncView::Avg, a),
            AggIntent::Min => intent_promql(op, a) == func_promql(AggFuncView::Min, a),
            AggIntent::Max => intent_promql(op, a) == func_promql(AggFuncView::Max, a),
            AggIntent::Rate { .. } => intent_promql(op, a) == func_promql(AggFuncView::Rate, a),
            AggIntent::Increase { .. } => intent_promql(op, a) == func_promql(
                AggFuncView::Increase,
                a,
            ),
            AggIntent::Delta { .. } => intent_promql(op, a) == func_promql(AggFuncView::Delta, a),
            _ => true,
        },
{
}

/// A binary operation is written as what stands left of it, its sign, its vector
/// match and what stands right of it, in that order, in parentheses; the sign is
/// the one that is read as that operator.
pub proof fn law_operands_are_written_in_order(
    op: BinaryOpKind,
    lhs: QueryView,
    rhs: QueryView,
    m: Option<VectorMatchView>,
    ctx: CtxView,
)
    ensures
        promql(
            QueryView::BinaryOp {
                op,
                lhs: Box::new(lhs),
                rhs: Box::new(rhs),
                vector_match: m,
            },
            ctx,
        ).0 == "("@ + promql(lhs, ctx).0 + " "@ + binop_text(op) + match_text(m) + " "@ + promql(
            rhs,
            empty_ctx(),
        ).0 + ")"@,
        sign(op) is Some ==> binop_text(op) == sign(op)->0,
{
    reveal_with_fuel(promql, 2);
}

/// A grouping clause for some labels; none without labels.
pub open spec fn grouping(keys: Seq<Seq<char>>) -> Seq<char> {
    if keys.len() == 0 {
        Seq::empty()
    } else {
        " by ("@ + text::joined(keys, ", "@) + ")"@
    }
}

proof fn lemma_unique_stays(keys: Seq<Seq<char>>)
    requires
        keys.no_duplicates(),
    ensures
        text::with_all_unique(Seq::empty(), keys) == keys,
    decreases keys.len(),
{
    if keys.len() > 0 {
        let init = keys.drop_last();
        assert forall|i: int, j: int|
            0 <= i < init.len() && 0 <= j < init.len() && i != j implies init[i] != init[j] by {
            assert(init[i] == keys[i] && init[j] == keys[j]);
        }
        lemma_unique_stays(init);
        assert(!init.contains(keys.last())) by {
            if init.contains(keys.last()) {
                let i = choose|i: int| 0 <= i < init.len() && init[i] == keys.last();
                assert(keys[i] == keys[keys.len() - 1]);
            }
        }
        assert(init.push(keys.last()) =~= keys);
    }
}

/// An aggregate over the window of a selector is written as the call of its
/// function on the selector, the window in brackets behind it, by its labels.
pub proof fn law_aggregate_is_written(
    keys: Seq<Seq<char>>,
    aggs: Seq<AggItemView>,
    having: Option<ScalarView>,
    duration: Duration,
    slide: Option<Duration>,
    s: SelectorView,
)
    requires
        keys.no_duplicates(),
        aggs.len() > 0,
    ensures
        promql(
            QueryView::Aggregate {
                keys,
                aggs,
                having,
                input: Box::new(
                    QueryView::Window { duration, slide, input: Box::new(selected(s)) },
                ),
            },
            empty_ctx(),
        ).0 == func_promql(
            aggs[0].func,
            ArgsView {
                selector: promql(selected(s), empty_ctx()).0,
                window: "["@ + duration_text(duration) + "]"@,
                by: grouping(keys),
            },
        ),
{
    reveal_with_fuel(promql, 3);
    lemma_unique_stays(keys);
    let inner = empty_ctx().grouped(keys).windowed(duration);
    law_selector_is_written(s, inner);
    law_selector_is_written(s, empty_ctx());
}

/// A sketch aggregation by groups over a window of a selector is written in the
/// same way, and a ranking or a limit around what it ranks.
pub proof fn law_other_trees_are_written(
    keys: Seq<Seq<char>>,
    op: AggIntent,
    col: ColumnView,
    duration: Duration,
    slide: Option<Duration>,
    s: SelectorView,
    k: u64,
    offset: u64,
    by: Seq<Seq<char>>,
    e: QueryView,
    ctx: CtxView,
)
    requires
        keys.no_duplicates(),
    ensures
        promql(
            QueryView::Partition {
                keys: PartitionView::By(keys),
                input: Box::new(
                    QueryView::SketchAgg {
                        op,
                        col,
                        input: Box::new(
                            QueryView::Window { duration, slide, input: Box::new(selected(s)) },
                        ),
                    },
                ),
            },
            empty_ctx(),
        ).0 == intent_promql(
            op,
            ArgsView {
                selector: promql(selected(s), empty_ctx()).0,
                window: "["@ + duration_text(duration) + "]"@,
                by: grouping(keys),
            },
        ),
        promql(QueryView::TopK { k, by, input: Box::new(e) }, ctx).0 == topk_text(
            k,
            promql(e, ctx).0,
        ),
        promql(QueryView::Limit { n: k, offset, input: Box::new(e) }, ctx).0 == topk_text(
            k,
            promql(e, ctx).0,
        ),
{
    reveal_with_fuel(promql, 4);
    lemma_unique_stays(keys);
    let inner = empty_ctx().grouped(keys).windowed(duration);
    law_selector_is_written(s, inner);
    law_selector_is_written(s, empty_ctx());
}

} // verus!
