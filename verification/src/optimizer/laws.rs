//! What holds of the optimizer as a whole: it stops at a fixed point, and it
//! reads the sources that the query read.
use vstd::prelude::*;

use crate::algebra::expr::{ProjectView, QueryView, ScalarView};
use crate::optimizer::cost::CostModel;
use crate::optimizer::engine::{
    default_rule_list, fire_at, hoisted_among, hoisted_subquery, is_default_set, pass,
    pass_children, pass_each, passes, repeated_source, share_source, stands_for, EngineRule,
    RewriteRule,
};

verus! {

// ── Fixed points ──────────────────────────────────────────────────────────────

/// Where no rule fires at a node, it stays as it is.
proof fn lemma_quiet_node(
    rules: Seq<Box<dyn RewriteRule>>,
    model: &Box<dyn CostModel>,
    k: int,
    e: QueryView,
)
    ensures
        !fire_at(rules, model, k, e).1 ==> fire_at(rules, model, k, e).0 == e,
    decreases rules.len() - k,
{
    if 0 <= k < rules.len() {
        lemma_quiet_node(rules, model, k + 1, e);
    }
}

/// A pass that fires no rule leaves the tree as it is.
pub proof fn law_quiet_pass(
    rules: Seq<Box<dyn RewriteRule>>,
    model: &Box<dyn CostModel>,
    e: QueryView,
)
    ensures
        !pass(rules, model, e).1 ==> pass(rules, model, e).0 == e,
    decreases e,
{
    lemma_quiet_node(rules, model, 0, pass_children(rules, model, e).0);
    match e {
        QueryView::Source(_) | QueryView::Ref(_) => {},
        QueryView::Filter { input, .. }
        | QueryView::Project { input, .. }
        | QueryView::Aggregate { input, .. }
        | QueryView::Window { input, .. }
        | QueryView::SketchAgg { input, .. }
        | QueryView::WindowedAgg { input, .. }
        | QueryView::Partition { input, .. }
        | QueryView::Distinct { input, .. }
        | QueryView::TopK { input, .. }
        | QueryView::Sort { input, .. }
        | QueryView::Limit { input, .. }
        | QueryView::HistogramQuantile { input, .. }
        | QueryView::PromQLSubquery { input, .. } => {
            law_quiet_pass(rules, model, *input);
        },
        QueryView::Merge { inputs } => {
            let each = pass_each(rules, model, inputs);
            assert forall|i: int| 0 <= i < inputs.len() implies (#[trigger] each[i]).1
                || each[i].0 == inputs[i] by {
                law_quiet_pass(rules, model, inputs[i]);
            }
            if !pass_children(rules, model, e).1 {
                assert(Seq::new(each.len(), |i: int| each[i].0) =~= inputs);
            }
        },
        QueryView::Join { left, right, .. } | QueryView::SetOp { left, right, .. } => {
            law_quiet_pass(rules, model, *left);
            law_quiet_pass(rules, model, *right);
        },
        QueryView::BinaryOp { lhs, rhs, .. } => {
            law_quiet_pass(rules, model, *lhs);
            law_quiet_pass(rules, model, *rhs);
        },
        QueryView::LetBinding { expr, body, .. } => {
            law_quiet_pass(rules, model, *expr);
            law_quiet_pass(rules, model, *body);
        },
    }
}

/// No more passes are made than allowed, and where fewer are made, the result
/// is a fixed point: another pass fires no rule and leaves it as it is.
pub proof fn law_fixed_point(
    rules: Seq<Box<dyn RewriteRule>>,
    model: &Box<dyn CostModel>,
    e: QueryView,
    n: nat,
)
    ensures
        passes(rules, model, e, n).1 <= n,
        passes(rules, model, e, n).1 < n ==> pass(rules, model, passes(rules, model, e, n).0) == (
            passes(rules, model, e, n).0,
            false,
        ),
    decreases n,
{
    if n > 0 {
        law_quiet_pass(rules, model, e);
        law_fixed_point(rules, model, pass(rules, model, e).0, (n - 1) as nat);
    }
}

/// Optimizing what settled before the limit takes one pass and changes nothing.
pub proof fn law_optimize_twice(
    rules: Seq<Box<dyn RewriteRule>>,
    model: &Box<dyn CostModel>,
    e: QueryView,
    n: nat,
)
    requires
        passes(rules, model, e, n).1 < n,
    ensures
        passes(rules, model, passes(rules, model, e, n).0, n) == (passes(rules, model, e, n).0, 1nat),
{
    law_fixed_point(rules, model, e, n);
}

// ── Sources ───────────────────────────────────────────────────────────────────

/// Whether a query reads a source.
pub open spec fn reads(e: QueryView, name: Seq<char>) -> bool
    decreases e,
{
    match e {
        QueryView::Source(n) => n == name,
        QueryView::Ref(_) => false,
        QueryView::Filter { pred, input } => scalar_reads(pred, name) || reads(*input, name),
        QueryView::Project { cols, input } => columns_read(cols, name) || reads(*input, name),
        QueryView::Aggregate { having, input, .. } => match having {
            Some(p) => scalar_reads(p, name) || reads(*input, name),
            None => reads(*input, name),
        },
        QueryView::Window { input, .. } => reads(*input, name),
        QueryView::SketchAgg { input, .. } => reads(*input, name),
        QueryView::WindowedAgg { input, .. } => reads(*input, name),
        QueryView::Partition { input, .. } => reads(*input, name),
        QueryView::Distinct { input, .. } => reads(*input, name),
        QueryView::TopK { input, .. } => reads(*input, name),
        QueryView::Sort { input, .. } => reads(*input, name),
        QueryView::Limit { input, .. } => reads(*input, name),
        QueryView::HistogramQuantile { input, .. } => reads(*input, name),
        QueryView::PromQLSubquery { input, .. } => reads(*input, name),
        QueryView::Merge { inputs } => any_reads(inputs, name),
        QueryView::Join { pred, left, right, .. } => match pred {
            Some(p) => scalar_reads(p, name) || reads(*left, name) || reads(*right, name),
            None => reads(*left, name) || reads(*right, name),
        },
        QueryView::SetOp { left, right, .. } => reads(*left, name) || reads(*right, name),
        QueryView::BinaryOp { lhs, rhs, .. } => reads(*lhs, name) || reads(*rhs, name),
        QueryView::LetBinding { expr, body, .. } => reads(*expr, name) || reads(*body, name),
    }
}

/// Whether a query of a list reads a source.
pub open spec fn any_reads(s: Seq<QueryView>, name: Seq<char>) -> bool
    decreases s,
{
    exists|i: int| 0 <= i < s.len() && reads(#[trigger] s[i], name)
}

/// Whether a subquery of a scalar expression reads a source.
pub open spec fn scalar_reads(e: ScalarView, name: Seq<char>) -> bool
    decreases e,
{
    match e {
        ScalarView::Column(_) | ScalarView::Literal(_) => false,
        ScalarView::BinaryOp { lhs, rhs, .. } => scalar_reads(*lhs, name) || scalar_reads(
            *rhs,
            name,
        ),
        ScalarView::IsNull { expr, .. } => scalar_reads(*expr, name),
        ScalarView::Between { expr, low, high, .. } => scalar_reads(*expr, name) || scalar_reads(
            *low,
            name,
        ) || scalar_reads(*high, name),
        ScalarView::InList { expr, list, .. } => scalar_reads(*expr, name) || any_scalar_reads(
            list,
            name,
        ),
        ScalarView::FunctionCall { args, .. } => any_scalar_reads(args, name),
        ScalarView::ScalarSubquery(q) => reads(*q, name),
    }
}

/// Whether a subquery of a list of scalar expressions reads a source.
pub open spec fn any_scalar_reads(s: Seq<ScalarView>, name: Seq<char>) -> bool
    decreases s,
{
    exists|i: int| 0 <= i < s.len() && scalar_reads(#[trigger] s[i], name)
}

/// Whether a subquery of a projected column reads a source.
pub open spec fn columns_read(cols: Seq<ProjectView>, name: Seq<char>) -> bool
    decreases cols,
{
    exists|i: int| 0 <= i < cols.len() && scalar_reads((#[trigger] cols[i]).expr, name)
}

/// What is taken out of an expression and what is left read together what the
/// expression read.
proof fn lemma_hoisted_reads(e: ScalarView, name: Seq<char>)
    ensures
        match hoisted_subquery(e) {
            Some((q, p)) => scalar_reads(e, name) == (reads(q, name) || scalar_reads(p, name)),
            None => true,
        },
    decreases e,
{
    match e {
        ScalarView::Column(_) | ScalarView::Literal(_) | ScalarView::ScalarSubquery(_) => {},
        ScalarView::BinaryOp { lhs, rhs, .. } => {
            lemma_hoisted_reads(*lhs, name);
            lemma_hoisted_reads(*rhs, name);
        },
        ScalarView::IsNull { expr, .. } => {
            lemma_hoisted_reads(*expr, name);
        },
        ScalarView::Between { expr, low, high, .. } => {
            lemma_hoisted_reads(*expr, name);
            lemma_hoisted_reads(*low, name);
            lemma_hoisted_reads(*high, name);
        },
        ScalarView::InList { expr, list, .. } => {
            lemma_hoisted_reads(*expr, name);
            lemma_hoisted_list_reads(list, name);
        },
        ScalarView::FunctionCall { args, .. } => {
            lemma_hoisted_list_reads(args, name);
        },
    }
}

proof fn lemma_hoisted_list_reads(s: Seq<ScalarView>, name: Seq<char>)
    ensures
        match hoisted_among(s) {
            Some((q, t)) => any_scalar_reads(s, name) == (reads(q, name) || any_scalar_reads(
                t,
                name,
            )),
            None => true,
        },
    decreases s,
{
    if s.len() > 0 {
        let init = s.subrange(0, s.len() - 1);
        let last = s[s.len() - 1];
        lemma_hoisted_list_reads(init, name);
        lemma_hoisted_reads(last, name);
        assert(s =~= init.push(last));
        lemma_any_pushed(init, last, name);
        if let Some((q, t)) = hoisted_among(s) {
            match hoisted_among(init) {
                Some((_, u)) => {
                    lemma_any_pushed(u, last, name);
                },
                None => {
                    if let Some((_, x)) = hoisted_subquery(last) {
                        lemma_any_pushed(init, x, name);
                    }
                },
            }
        }
    }
}

proof fn lemma_any_pushed(s: Seq<ScalarView>, e: ScalarView, name: Seq<char>)
    ensures
        any_scalar_reads(s.push(e), name) == (any_scalar_reads(s, name) || scalar_reads(e, name)),
{
    let t = s.push(e);
    if any_scalar_reads(s, name) {
        let i = choose|i: int| 0 <= i < s.len() && scalar_reads(#[trigger] s[i], name);
        assert(scalar_reads(t[i], name));
    }
    if scalar_reads(e, name) {
        assert(scalar_reads(t[s.len() as int], name));
    }
    if any_scalar_reads(t, name) && !scalar_reads(e, name) {
        let i = choose|i: int| 0 <= i < t.len() && scalar_reads(#[trigger] t[i], name);
        assert(scalar_reads(s[i], name));
    }
}

/// A source that repeats is among the inputs.
proof fn lemma_repeated_source(inputs: Seq<QueryView>, k: int)
    requires
        0 <= k,
    ensures
        match repeated_source(inputs, k) {
            Some(n) => exists|i: int| 0 <= i < inputs.len() && #[trigger] inputs[i]
                == QueryView::Source(n),
            None => true,
        },
    decreases inputs.len() - k,
{
    if k < inputs.len() {
        lemma_repeated_source(inputs, k + 1);
        if inputs[k].source() is Some {
            assert(inputs[k] == QueryView::Source(inputs[k].source()->0));
        }
    }
}

/// Binding a shared source and referring to it reads what was read before.
proof fn lemma_shared_reads(inputs: Seq<QueryView>, shared: Seq<char>, name: Seq<char>)
    requires
        exists|i: int| 0 <= i < inputs.len() && #[trigger] inputs[i] == QueryView::Source(shared),
    ensures
        reads(QueryView::Merge { inputs }, name) == (shared == name || reads(
            QueryView::Merge { inputs: share_source(inputs, shared) },
            name,
        )),
{
    reveal_with_fuel(reads, 2);
    let after = share_source(inputs, shared);
    if reads(QueryView::Merge { inputs }, name) {
        let i = choose|i: int| 0 <= i < inputs.len() && reads(#[trigger] inputs[i], name);
        if inputs[i].source() != Some(shared) {
            assert(reads(after[i], name));
        }
    }
    if reads(QueryView::Merge { inputs: after }, name) {
        let i = choose|i: int| 0 <= i < after.len() && reads(#[trigger] after[i], name);
        assert(reads(inputs[i], name));
    }
    if shared == name {
        let i = choose|i: int|
            0 <= i < inputs.len() && #[trigger] inputs[i] == QueryView::Source(shared);
        assert(reads(inputs[i], name));
    }
}

/// A rule of the engine reads the sources that the node read, and no others.
pub proof fn law_rule_keeps_sources(
    rule: EngineRule,
    model: &Box<dyn CostModel>,
    e: QueryView,
    name: Seq<char>,
)
    ensures
        match rule.rewrite(e, model) {
            Some(n) => reads(n, name) == reads(e, name),
            None => true,
        },
{
    reveal_with_fuel(reads, 4);
    match (rule, e) {
        (EngineRule::SubqueryDecorrelation, QueryView::Filter { pred, input }) => {
            lemma_hoisted_reads(pred, name);
        },
        (EngineRule::CommonSubexprElim, QueryView::Merge { inputs }) => {
            lemma_repeated_source(inputs, 0);
            if let Some(shared) = repeated_source(inputs, 0) {
                lemma_shared_reads(inputs, shared, name);
            }
        },
        (EngineRule::MergeLifting, QueryView::SketchAgg { op, col, input }) => {
            if let QueryView::Merge { inputs } = *input {
                let lifted = Seq::new(
                    inputs.len(),
                    |i: int| QueryView::SketchAgg { op, col, input: Box::new(inputs[i]) },
                );
                assert(forall|i: int|
                    0 <= i < inputs.len() ==> reads(#[trigger] lifted[i], name) == reads(
                        inputs[i],
                        name,
                    ));
                lemma_same_reads(inputs, lifted, name);
            }
        },
        (EngineRule::HistogramQuantileFusion, QueryView::HistogramQuantile { phi, input }) => {
            if let Some(QueryView::HistogramQuantile { input: merged, .. }) = rule.rewrite(e, model) {
                if let QueryView::Merge { inputs } = *merged {
                    assert(reads(inputs[0], name) == reads(*input, name));
                    assert(reads(inputs[1], name) == reads(*input, name));
                }
            }
        },
        (EngineRule::SetOpFusion, QueryView::SetOp { left, right, .. }) => {
            if let (QueryView::Merge { inputs: l }, QueryView::Merge { inputs: r }) = (
                *left,
                *right,
            ) {
                let both = l + r;
                assert(forall|i: int| 0 <= i < l.len() ==> #[trigger] l[i] == both[i]);
                assert(forall|i: int| 0 <= i < r.len() ==> #[trigger] r[i] == both[i + l.len()]);
                if reads(QueryView::Merge { inputs: both }, name) {
                    let i = choose|i: int| 0 <= i < both.len() && reads(#[trigger] both[i], name);
                    if i < l.len() {
                        assert(reads(l[i], name));
                    } else {
                        assert(reads(r[i - l.len()], name));
                    }
                }
                if reads(*right, name) {
                    let i = choose|i: int| 0 <= i < r.len() && reads(#[trigger] r[i], name);
                    assert(reads(both[i + l.len()], name));
                }
                if reads(*left, name) {
                    let i = choose|i: int| 0 <= i < l.len() && reads(#[trigger] l[i], name);
                    assert(reads(both[i], name));
                }
            }
        },
        _ => {},
    }
}

/// Whether what a rule makes of a node reads the sources that the node read, and
/// no others.
pub open spec fn keeps_sources(rule: &Box<dyn RewriteRule>, model: &Box<dyn CostModel>) -> bool {
    forall|e: QueryView, name: Seq<char>|
        #![trigger rule.rewrite(e, model), reads(e, name)]
        match rule.rewrite(e, model) {
            Some(n) => reads(n, name) == reads(e, name),
            None => true,
        }
}

/// Each rule of the default set keeps the sources that are read.
pub proof fn law_default_rules_keep_sources(
    rules: Seq<Box<dyn RewriteRule>>,
    model: &Box<dyn CostModel>,
)
    requires
        is_default_set(rules),
    ensures
        forall|i: int| 0 <= i < rules.len() ==> keeps_sources(&#[trigger] rules[i], model),
{
    assert forall|i: int| 0 <= i < rules.len() implies keeps_sources(
        &#[trigger] rules[i],
        model,
    ) by {
        let own = default_rule_list()[i];
        assert(stands_for(&rules[i], own));
        assert forall|e: QueryView, name: Seq<char>|
            #![trigger rules[i].rewrite(e, model), reads(e, name)]
            match rules[i].rewrite(e, model) {
                Some(n) => reads(n, name) == reads(e, name),
                None => true,
            } by {
            law_rule_keeps_sources(own, model, e, name);
        }
    }
}

/// Lists whose trees read the same read the same when merged.
proof fn lemma_same_reads(a: Seq<QueryView>, b: Seq<QueryView>, name: Seq<char>)
    requires
        a.len() == b.len(),
        forall|i: int| 0 <= i < a.len() ==> reads(#[trigger] b[i], name) == reads(a[i], name),
    ensures
        reads(QueryView::Merge { inputs: a }, name) == reads(QueryView::Merge { inputs: b }, name),
{
    reveal_with_fuel(reads, 2);
    if reads(QueryView::Merge { inputs: a }, name) {
        let i = choose|i: int| 0 <= i < a.len() && reads(#[trigger] a[i], name);
        assert(reads(b[i], name));
    }
    if reads(QueryView::Merge { inputs: b }, name) {
        let i = choose|i: int| 0 <= i < b.len() && reads(#[trigger] b[i], name);
        assert(reads(a[i], name));
        assert(any_reads(a, name));
    }
}

/// Whatever fires at a node reads the sources that the node read.
proof fn lemma_node_keeps_sources(
    rules: Seq<Box<dyn RewriteRule>>,
    model: &Box<dyn CostModel>,
    k: int,
    e: QueryView,
    name: Seq<char>,
)
    requires
        forall|i: int| 0 <= i < rules.len() ==> keeps_sources(&#[trigger] rules[i], model),
    ensures
        reads(fire_at(rules, model, k, e).0, name) == reads(e, name),
    decreases rules.len() - k,
{
    if 0 <= k < rules.len() {
        assert(keeps_sources(&rules[k], model));
        assert(reads(e, name) == reads(e, name));
        lemma_node_keeps_sources(rules, model, k + 1, e, name);
    }
}

/// A pass reads the sources that the tree read.
proof fn lemma_pass_keeps_sources(
    rules: Seq<Box<dyn RewriteRule>>,
    model: &Box<dyn CostModel>,
    e: QueryView,
    name: Seq<char>,
)
    requires
        forall|i: int| 0 <= i < rules.len() ==> keeps_sources(&#[trigger] rules[i], model),
    ensures
        reads(pass(rules, model, e).0, name) == reads(e, name),
    decreases e,
{
    lemma_node_keeps_sources(rules, model, 0, pass_children(rules, model, e).0, name);
    match e {
        QueryView::Source(_) | QueryView::Ref(_) => {},
        QueryView::Filter { input, .. }
        | QueryView::Project { input, .. }
        | QueryView::Aggregate { input, .. }
        | QueryView::Window { input, .. }
        | QueryView::SketchAgg { input, .. }
        | QueryView::WindowedAgg { input, .. }
        | QueryView::Partition { input, .. }
        | QueryView::Distinct { input, .. }
        | QueryView::TopK { input, .. }
        | QueryView::Sort { input, .. }
        | QueryView::Limit { input, .. }
        | QueryView::HistogramQuantile { input, .. }
        | QueryView::PromQLSubquery { input, .. } => {
            lemma_pass_keeps_sources(rules, model, *input, name);
        },
        QueryView::Merge { inputs } => {
            let each = pass_each(rules, model, inputs);
            let after = Seq::new(each.len(), |i: int| each[i].0);
            assert forall|i: int| 0 <= i < inputs.len() implies reads(#[trigger] after[i], name)
                == reads(inputs[i], name) by {
                lemma_pass_keeps_sources(rules, model, inputs[i], name);
            }
            lemma_same_reads(inputs, after, name);
        },
        QueryView::Join { left, right, .. } | QueryView::SetOp { left, right, .. } => {
            lemma_pass_keeps_sources(rules, model, *left, name);
            lemma_pass_keeps_sources(rules, model, *right, name);
        },
        QueryView::BinaryOp { lhs, rhs, .. } => {
            lemma_pass_keeps_sources(rules, model, *lhs, name);
            lemma_pass_keeps_sources(rules, model, *rhs, name);
        },
        QueryView::LetBinding { expr, body, .. } => {
            lemma_pass_keeps_sources(rules, model, *expr, name);
            lemma_pass_keeps_sources(rules, model, *body, name);
        },
    }
}

/// With rules that keep the sources that are read, so does the optimizer.
pub proof fn law_passes_keep_sources(
    rules: Seq<Box<dyn RewriteRule>>,
    model: &Box<dyn CostModel>,
    e: QueryView,
    n: nat,
    name: Seq<char>,
)
    requires
        forall|i: int| 0 <= i < rules.len() ==> keeps_sources(&#[trigger] rules[i], model),
    ensures
        reads(passes(rules, model, e, n).0, name) == reads(e, name),
    decreases n,
{
    if n > 0 {
        lemma_pass_keeps_sources(rules, model, e, name);
        law_passes_keep_sources(rules, model, pass(rules, model, e).0, (n - 1) as nat, name);
    }
}

/// With the default rules the optimized query reads the sources that the query
/// read, and no others, those of scalar subqueries with them.
pub proof fn law_optimize_keeps_sources(
    rules: Seq<Box<dyn RewriteRule>>,
    model: &Box<dyn CostModel>,
    e: QueryView,
    n: nat,
    name: Seq<char>,
)
    requires
        is_default_set(rules),
    ensures
        reads(passes(rules, model, e, n).0, name) == reads(e, name),
{
    law_default_rules_keep_sources(rules, model);
    law_passes_keep_sources(rules, model, e, n, name);
}

} // verus!
