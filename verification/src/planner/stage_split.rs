//! Assigning the nodes of a query to the agent, the backend, the precompute
//! engine and the database.
//!
//! Mergeability decides where exact aggregates go; memory budgets decide where
//! sketches go, along the chain agent, backend, precompute engine.
use vstd::prelude::*;
use vstd::string::*;

use crate::algebra::expr;
use crate::algebra::expr::{
    AggFunc, AggFuncView, AggItem, AggItemView, QueryExpr, QueryView, ScalarExpr, WindowKind,
};
use crate::intent_algebra::agg_intent;
use crate::intent_algebra::agg_intent::{
    default_cardinality, default_frequency, default_quantile, AggIntent,
};
use crate::intent_algebra::intent_text;
use crate::intent_algebra::intent_text::push_intent;
use crate::physical::planner::resolve;
use crate::physical::sketch_catalog;
use crate::planner::promql_text;
use crate::planner::promql_text::{expr_to_promql, scalar_to_label_matchers};
use crate::sketch_algebra::sketch_expr::SketchExpr;
use crate::stage_split as typed;
use crate::stage_split::{StageAllocator, StageConfigs, StageId, ThreeStageEmitter, Topology};
use crate::text;
use crate::types;
use crate::types::{StageResourceBudgets, StagedPlan, StagedPlanView};

verus! {

// ── Deferral ──────────────────────────────────────────────────────────────────

/// Where a sketch is built.
#[derive(Clone, Copy, Debug, PartialEq, Eq, Structural)]
pub enum SketchStage {
    Agent,
    Backend,
    Precompute,
}

/// Whether `mem` is more than a limit allows.
pub open spec fn exceeds(mem: u64, cap: Option<u64>) -> bool {
    match cap {
        Some(c) => mem > c,
        None => false,
    }
}

/// Where a sketch of `mem` bytes is built.
pub open spec fn sketch_stage(mem: u64, b: StageResourceBudgets) -> SketchStage {
    if !exceeds(mem, b.agent_memory_bytes) {
        SketchStage::Agent
    } else if !exceeds(mem, b.backend_memory_bytes) {
        SketchStage::Backend
    } else {
        SketchStage::Precompute
    }
}

/// The note of a deferral.
pub open spec fn deferral_text(
    op: AggIntent,
    step: Seq<char>,
    mem: u64,
    cap_name: Seq<char>,
    cap: u64,
) -> Seq<char> {
    "deferred "@ + intent_text::intent_text(op) + step + ": est_mem="@ + text::nat_text(mem as nat)
        + "B > "@ + cap_name + "="@ + text::nat_text(cap as nat) + "B"@
}

/// The notes of all deferrals of a sketch, in order.
pub open spec fn deferrals(op: AggIntent, mem: u64, b: StageResourceBudgets) -> Seq<Seq<char>> {
    if exceeds(mem, b.agent_memory_bytes) {
        let first = deferral_text(
            op,
            " Agent→Backend"@,
            mem,
            "agent_cap"@,
            b.agent_memory_bytes->0,
        );
        if exceeds(mem, b.backend_memory_bytes) {
            seq![
                first,
                deferral_text(
                    op,
                    " Backend→Precompute"@,
                    mem,
                    "backend_cap"@,
                    b.backend_memory_bytes->0,
                ),
            ]
        } else {
            seq![first]
        }
    } else {
        Seq::empty()
    }
}

fn deferral_note(op: &AggIntent, step: &str, mem: u64, cap_name: &str, cap: u64) -> (r: String)
    ensures
        r@ == deferral_text(*op, step@, mem, cap_name@, cap),
{
    let mut out = "deferred ".to_owned();
    push_intent(&mut out, op);
    out.append(step);
    out.append(": est_mem=");
    text::push_u64(&mut out, mem);
    out.append("B > ");
    out.append(cap_name);
    out.append("=");
    text::push_u64(&mut out, cap);
    out.append("B");
    out
}

/// Decide where a sketch is built and note each deferral.
fn resolve_sketch_stage(
    est_mem: u64,
    budgets: &StageResourceBudgets,
    log: &mut Vec<String>,
    op: &AggIntent,
) -> (r: SketchStage)
    ensures
        r == sketch_stage(est_mem, *budgets),
        text::texts(final(log)@) == text::texts(old(log)@) + deferrals(*op, est_mem, *budgets),
{
    let ghost before = text::texts(log@);
    if let Some(cap) = budgets.agent_memory_bytes {
        if est_mem > cap {
            log.push(deferral_note(op, " Agent→Backend", est_mem, "agent_cap", cap));
            if let Some(be_cap) = budgets.backend_memory_bytes {
                if est_mem > be_cap {
                    log.push(
                        deferral_note(op, " Backend→Precompute", est_mem, "backend_cap", be_cap),
                    );
                    assert(text::texts(log@) =~= before + deferrals(*op, est_mem, *budgets));
                    return SketchStage::Precompute;
                }
            }
            assert(text::texts(log@) =~= before + deferrals(*op, est_mem, *budgets));
            return SketchStage::Backend;
        }
    }
    assert(text::texts(log@) =~= before + deferrals(*op, est_mem, *budgets));
    SketchStage::Agent
}

// ── Aggregates ────────────────────────────────────────────────────────────────

/// The plan with an intent assigned.
pub open spec fn with_intent(p: StagedPlanView, op: AggIntent, b: StageResourceBudgets) -> StagedPlanView {
    match op {
        AggIntent::Sum | AggIntent::Count { .. } | AggIntent::Min | AggIntent::Max => StagedPlanView {
            has_merge: true,
            ..p
        },
        AggIntent::Avg => StagedPlanView { db_active: true, ..p },
        _ => {
            let mem = sketch_catalog::memory_of(op);
            let q = StagedPlanView { deferral_log: p.deferral_log + deferrals(op, mem, b), ..p };
            match sketch_stage(mem, b) {
                SketchStage::Agent => StagedPlanView {
                    sketch_type: Some(sketch_catalog::family_of(op)),
                    sketch_params: sketch_catalog::params_of(op),
                    ..q
                },
                SketchStage::Backend => StagedPlanView { has_merge: true, ..q },
                SketchStage::Precompute => StagedPlanView { precompute_active: true, ..q },
            }
        },
    }
}

/// Whether a plan is the given one.
pub open spec fn is_plan(p: StagedPlanView, want: StagedPlanView) -> bool {
    p == want
}

/// Assign an intent to a stage.
fn assign_sketch_agg(op: &AggIntent, plan: &mut StagedPlan, budgets: &StageResourceBudgets)
    ensures
        is_plan(final(plan)@, with_intent(old(plan)@, *op, *budgets)),
{
    let ghost before = plan@;
    match op {
        AggIntent::Sum | AggIntent::Count { .. } | AggIntent::Min | AggIntent::Max => {
            plan.backend.has_merge = true;
        },
        AggIntent::Avg => {
            plan.db.active = true;
        },
        _ => {
            let physical = resolve(op);
            let stage = resolve_sketch_stage(
                physical.estimated_memory_bytes,
                budgets,
                &mut plan.deferral_log,
                op,
            );
            match stage {
                SketchStage::Agent => {
                    plan.agent.sketch_type = Some(physical.sketch_type);
                    plan.agent.sketch_params = physical.sketch_params;
                },
                SketchStage::Backend => {
                    plan.backend.has_merge = true;
                },
                SketchStage::Precompute => {
                    plan.precompute.active = true;
                },
            }
        },
    }
    assert(plan@ =~= with_intent(before, *op, *budgets));
}

/// The plan with an aggregate function assigned.
pub open spec fn with_func(p: StagedPlanView, func: AggFuncView, b: StageResourceBudgets) -> StagedPlanView {
    match func {
        AggFuncView::Quantile(q) => with_intent(
            p,
            AggIntent::Quantile { q, accuracy: agg_intent::default_epsilon() },
            b,
        ),
        AggFuncView::CountDistinct => with_intent(
            p,
            AggIntent::Cardinality { accuracy: agg_intent::default_epsilon() },
            b,
        ),
        AggFuncView::HeavyHitters { .. } => with_intent(
            p,
            AggIntent::Frequency { accuracy: agg_intent::default_epsilon() },
            b,
        ),
        AggFuncView::Count
        | AggFuncView::Sum
        | AggFuncView::Min
        | AggFuncView::Max
        | AggFuncView::Rate
        | AggFuncView::Increase
        | AggFuncView::Delta => StagedPlanView { has_merge: true, ..p },
        AggFuncView::Avg
        | AggFuncView::StdDev { .. }
        | AggFuncView::Variance { .. } => StagedPlanView { db_active: true, ..p },
        AggFuncView::Custom(_) => StagedPlanView { precompute_active: true, ..p },
    }
}

/// Assign an aggregate function to a stage.
fn assign_agg_func(func: &AggFunc, plan: &mut StagedPlan, budgets: &StageResourceBudgets)
    ensures
        is_plan(final(plan)@, with_func(old(plan)@, func@, *budgets)),
{
    match func {
        AggFunc::Quantile(phi) => assign_sketch_agg(&default_quantile(*phi), plan, budgets),
        AggFunc::CountDistinct => assign_sketch_agg(&default_cardinality(), plan, budgets),
        AggFunc::HeavyHitters { .. } => assign_sketch_agg(&default_frequency(), plan, budgets),
        AggFunc::Count
        | AggFunc::Sum
        | AggFunc::Min
        | AggFunc::Max
        | AggFunc::Rate
        | AggFunc::Increase
        | AggFunc::Delta => {
            plan.backend.has_merge = true;
        },
        AggFunc::Avg | AggFunc::StdDev { .. } | AggFunc::Variance { .. } => {
            plan.db.active = true;
        },
        AggFunc::Custom(_) => {
            plan.precompute.active = true;
        },
    }
}

/// The plan with several aggregates assigned, in order.
pub open spec fn with_aggs(p: StagedPlanView, aggs: Seq<AggItemView>, b: StageResourceBudgets) -> StagedPlanView
    decreases aggs.len(),
{
    if aggs.len() == 0 {
        p
    } else {
        with_func(with_aggs(p, aggs.drop_last(), b), aggs.last().func, b)
    }
}

fn assign_aggs(aggs: &Vec<AggItem>, plan: &mut StagedPlan, budgets: &StageResourceBudgets)
    ensures
        is_plan(final(plan)@, with_aggs(old(plan)@, expr::aggs_view(aggs@), *budgets)),
{
    let ghost shown = expr::aggs_view(aggs@);
    let ghost start = plan@;
    for i in 0..aggs.len()
        invariant
            shown == expr::aggs_view(aggs@),
            is_plan(plan@, with_aggs(start, shown.take(i as int), *budgets)),
    {
        assert(shown.take(i as int + 1).drop_last() =~= shown.take(i as int));
        assert(shown[i as int] == aggs@[i as int]@);
        assign_agg_func(&aggs[i].func, plan, budgets);
    }
    assert(shown.take(aggs@.len() as int) =~= shown);
}

// ── Trees ─────────────────────────────────────────────────────────────────────

/// The plan with grouping labels at the backend.
pub open spec fn with_keys(p: StagedPlanView, keys: Seq<Seq<char>>) -> StagedPlanView {
    StagedPlanView { group_by: text::with_all_unique(p.group_by, keys), ..p }
}

/// The plan after every node of a tree was assigned, a node before its inputs
/// and left before right.
pub open spec fn walked(e: QueryView, p: StagedPlanView, b: StageResourceBudgets) -> StagedPlanView
    decreases e, 1int,
{
    match e {
        QueryView::Source(_) | QueryView::Ref(_) => p,
        QueryView::Filter { pred, input } => walked(
            *input,
            StagedPlanView {
                label_filters: text::with_all_unique(
                    p.label_filters,
                    promql_text::matchers_of(pred),
                ),
                ..p
            },
            b,
        ),
        QueryView::Window { duration, input, .. } => walked(
            *input,
            StagedPlanView { window_secs: Some(duration.secs), ..p },
            b,
        ),
        QueryView::SketchAgg { op, input, .. } => walked(*input, with_intent(p, op, b), b),
        QueryView::WindowedAgg { agg, window, input, .. } => walked(
            *input,
            with_intent(
                match window.kind {
                    WindowKind::Tumbling { size } => StagedPlanView {
                        window_secs: Some(size.secs),
                        ..p
                    },
                    _ => p,
                },
                agg,
                b,
            ),
            b,
        ),
        QueryView::Partition { keys, input } => walked(*input, with_keys(p, keys.labels()), b),
        QueryView::Aggregate { keys, aggs, input, .. } => walked(
            *input,
            with_aggs(with_keys(p, keys), aggs, b),
            b,
        ),
        QueryView::Distinct { input, .. } => walked(
            *input,
            StagedPlanView { has_dedup: true, ..p },
            b,
        ),
        QueryView::Merge { inputs } => walked_each(
            inputs,
            StagedPlanView { has_merge: true, ..p },
            b,
        ),
        QueryView::TopK { k, input, .. } => walked(
            *input,
            StagedPlanView { topk: Some(k), precompute_active: true, ..p },
            b,
        ),
        QueryView::Limit { n, input, .. } => walked(
            *input,
            StagedPlanView { topk: Some(n), precompute_active: true, ..p },
            b,
        ),
        QueryView::Sort { input, .. } | QueryView::Project { input, .. } => walked(*input, p, b),
        QueryView::HistogramQuantile { input, .. } | QueryView::PromQLSubquery { input, .. } => walked(
            *input,
            StagedPlanView { precompute_active: true, ..p },
            b,
        ),
        QueryView::BinaryOp { lhs, rhs, .. } => walked(
            *rhs,
            walked(*lhs, StagedPlanView { precompute_active: true, ..p }, b),
            b,
        ),
        QueryView::Join { left, right, .. } | QueryView::SetOp { left, right, .. } => walked(
            *right,
            walked(*left, StagedPlanView { has_merge: true, ..p }, b),
            b,
        ),
        QueryView::LetBinding { expr, body, .. } => walked(*body, walked(*expr, p, b), b),
    }
}

/// The plan after every node of several trees was assigned.
pub open spec fn walked_each(s: Seq<QueryView>, p: StagedPlanView, b: StageResourceBudgets) -> StagedPlanView
    decreases s, 0int,
{
    if s.len() == 0 {
        p
    } else {
        walked(s[s.len() - 1], walked_each(s.subrange(0, s.len() - 1), p, b), b)
    }
}

fn collect_label_filters_into(pred: &ScalarExpr, plan: &mut StagedPlan)
    ensures
        is_plan(
            final(plan)@,
            StagedPlanView {
                label_filters: text::with_all_unique(
                    old(plan)@.label_filters,
                    promql_text::matchers_of(pred@),
                ),
                ..old(plan)@
            },
        ),
{
    let matchers = scalar_to_label_matchers(pred);
    text::push_all_unique(&mut plan.agent.label_filters, &matchers);
}

fn group_at_backend(keys: &Vec<String>, plan: &mut StagedPlan)
    ensures
        is_plan(final(plan)@, with_keys(old(plan)@, text::texts(keys@))),
{
    text::push_all_unique(&mut plan.backend.group_by, keys);
}

fn walk_each(inputs: &Vec<QueryExpr>, plan: &mut StagedPlan, budgets: &StageResourceBudgets)
    ensures
        is_plan(final(plan)@, walked_each(expr::queries_view(inputs@), old(plan)@, *budgets)),
    decreases inputs,
{
    broadcast use expr::group_list_views;
    broadcast use vstd::std_specs::vec::axiom_vec_index_decreases;

    let ghost shown = expr::queries_view(inputs@);
    let ghost start = plan@;
    for i in 0..inputs.len()
        invariant
            shown == expr::queries_view(inputs@),
            is_plan(plan@, walked_each(shown.subrange(0, i as int), start, *budgets)),
    {
        broadcast use expr::group_list_views;

        assert(decreases_to!(*inputs => inputs[i as int]));
        assert(shown[i as int] == expr::query_view(inputs@[i as int]));
        let ghost seen = shown.subrange(0, i as int + 1);
        assert(seen.subrange(0, seen.len() - 1) =~= shown.subrange(0, i as int));
        walk(&inputs[i], plan, budgets);
    }
    assert(shown.subrange(0, shown.len() as int) =~= shown);
}

/// Assign every node of a tree.
fn walk(expr: &QueryExpr, plan: &mut StagedPlan, budgets: &StageResourceBudgets)
    ensures
        is_plan(final(plan)@, walked(expr@, old(plan)@, *budgets)),
    decreases expr,
{
    match expr {
        QueryExpr::Source(_) | QueryExpr::Ref(_) => {},
        QueryExpr::Filter { pred, input } => {
            collect_label_filters_into(pred, plan);
            walk(input, plan, budgets);
        },
        QueryExpr::Window { duration, input, .. } => {
            plan.agent.window_secs = Some(duration.as_secs());
            walk(input, plan, budgets);
        },
        QueryExpr::SketchAgg { op, input, .. } => {
            assign_sketch_agg(op, plan, budgets);
            walk(input, plan, budgets);
        },
        QueryExpr::WindowedAgg { agg, window, input, .. } => {
            if let WindowKind::Tumbling { size } = window.kind {
                plan.agent.window_secs = Some(size.as_secs());
            }
            assign_sketch_agg(agg, plan, budgets);
            walk(input, plan, budgets);
        },
        QueryExpr::Partition { keys, input } => {
            group_at_backend(keys.keys(), plan);
            walk(input, plan, budgets);
        },
        QueryExpr::Aggregate { keys, aggs, input, .. } => {
            group_at_backend(keys, plan);
            assign_aggs(aggs, plan, budgets);
            walk(input, plan, budgets);
        },
        QueryExpr::Distinct { input, .. } => {
            plan.backend.has_dedup = true;
            walk(input, plan, budgets);
        },
        QueryExpr::Merge { inputs } => {
            plan.backend.has_merge = true;
            walk_each(inputs, plan, budgets);
        },
        QueryExpr::TopK { k, input, .. } => {
            plan.precompute.topk = Some(*k);
            plan.precompute.active = true;
            walk(input, plan, budgets);
        },
        QueryExpr::Limit { n, input, .. } => {
            plan.precompute.topk = Some(*n);
            plan.precompute.active = true;
            walk(input, plan, budgets);
        },
        QueryExpr::Sort { input, .. } | QueryExpr::Project { input, .. } => walk(
            input,
            plan,
            budgets,
        ),
        QueryExpr::HistogramQuantile { input, .. } | QueryExpr::PromQLSubquery { input, .. } => {
            plan.precompute.active = true;
            walk(input, plan, budgets);
        },
        QueryExpr::BinaryOp { lhs, rhs, .. } => {
            plan.precompute.active = true;
            walk(lhs, plan, budgets);
            walk(rhs, plan, budgets);
        },
        QueryExpr::Join { left, right, .. } | QueryExpr::SetOp { left, right, .. } => {
            plan.backend.has_merge = true;
            walk(left, plan, budgets);
            walk(right, plan, budgets);
        },
        QueryExpr::LetBinding { expr, body, .. } => {
            walk(expr, plan, budgets);
            walk(body, plan, budgets);
        },
    }
}

/// The split of a query over the stages. The precompute engine and the
/// database get the whole query as PromQL, if they have anything to do.
pub open spec fn split(e: QueryView, b: StageResourceBudgets) -> StagedPlanView {
    let p = walked(e, types::empty_staged_plan(), b);
    let q = promql_text::promql(e, promql_text::empty_ctx()).0;
    StagedPlanView {
        precompute_query: if p.precompute_active && p.precompute_query.len() == 0 {
            q
        } else {
            p.precompute_query
        },
        db_query: if p.db_active && p.db_query.len() == 0 {
            q
        } else {
            p.db_query
        },
        ..p
    }
}

/// Split a query over the stages of the pipeline.
pub fn split_expr_by_stage(expr: &QueryExpr, budgets: &StageResourceBudgets) -> (r: StagedPlan)
    ensures
        r@ == split(expr@, *budgets),
{
    let mut plan = StagedPlan::default();
    walk(expr, &mut plan, budgets);
    if plan.precompute.active && plan.precompute.query_expr.unicode_len() == 0 {
        plan.precompute.query_expr = expr_to_promql(expr);
    }
    if plan.db.active && plan.db.query_expr.unicode_len() == 0 {
        plan.db.query_expr = expr_to_promql(expr);
    }
    plan
}

// ── Laws ──────────────────────────────────────────────────────────────────────

/// What assigning leaves alone: query texts always, and the log without a limit
/// at the agent.
pub open spec fn keeps(p: StagedPlanView, q: StagedPlanView, b: StageResourceBudgets) -> bool {
    &&& q.precompute_query == p.precompute_query
    &&& q.db_query == p.db_query
    &&& b.agent_memory_bytes is None ==> q.deferral_log == p.deferral_log
}

proof fn lemma_intent_keeps(p: StagedPlanView, op: AggIntent, b: StageResourceBudgets)
    ensures
        keeps(p, with_intent(p, op, b), b),
{
    assert(p.deferral_log + Seq::<Seq<char>>::empty() =~= p.deferral_log);
}

proof fn lemma_aggs_keep(p: StagedPlanView, aggs: Seq<AggItemView>, b: StageResourceBudgets)
    ensures
        keeps(p, with_aggs(p, aggs, b), b),
    decreases aggs.len(),
{
    if aggs.len() > 0 {
        lemma_aggs_keep(p, aggs.drop_last(), b);
        let q = with_aggs(p, aggs.drop_last(), b);
        match aggs.last().func {
            AggFuncView::Quantile(x) => {
                lemma_intent_keeps(
                    q,
                    AggIntent::Quantile { q: x, accuracy: agg_intent::default_epsilon() },
                    b,
                );
            },
            AggFuncView::CountDistinct => {
                lemma_intent_keeps(
                    q,
                    AggIntent::Cardinality { accuracy: agg_intent::default_epsilon() },
                    b,
                );
            },
            AggFuncView::HeavyHitters { .. } => {
                lemma_intent_keeps(
                    q,
                    AggIntent::Frequency { accuracy: agg_intent::default_epsilon() },
                    b,
                );
            },
            _ => {},
        }
    }
}

proof fn lemma_walk_keeps(e: QueryView, p: StagedPlanView, b: StageResourceBudgets)
    ensures
        keeps(p, walked(e, p, b), b),
    decreases e, 1int,
{
    match e {
        QueryView::Source(_) | QueryView::Ref(_) => {},
        QueryView::Filter { pred, input } => {
            lemma_walk_keeps(
                *input,
                StagedPlanView {
                    label_filters: text::with_all_unique(
                        p.label_filters,
                        promql_text::matchers_of(pred),
                    ),
                    ..p
                },
                b,
            );
        },
        QueryView::Window { duration, input, .. } => {
            lemma_walk_keeps(
                *input,
                StagedPlanView { window_secs: Some(duration.secs), ..p },
                b,
            );
        },
        QueryView::SketchAgg { op, input, .. } => {
            lemma_intent_keeps(p, op, b);
            lemma_walk_keeps(*input, with_intent(p, op, b), b);
        },
        QueryView::WindowedAgg { agg, window, input, .. } => {
            let q = match window.kind {
                WindowKind::Tumbling { size } => StagedPlanView {
                    window_secs: Some(size.secs),
                    ..p
                },
                _ => p,
            };
            lemma_intent_keeps(q, agg, b);
            lemma_walk_keeps(*input, with_intent(q, agg, b), b);
        },
        QueryView::Partition { keys, input } => {
            lemma_walk_keeps(*input, with_keys(p, keys.labels()), b);
        },
        QueryView::Aggregate { keys, aggs, input, .. } => {
            lemma_aggs_keep(with_keys(p, keys), aggs, b);
            lemma_walk_keeps(*input, with_aggs(with_keys(p, keys), aggs, b), b);
        },
        QueryView::Distinct { input, .. } => {
            lemma_walk_keeps(*input, StagedPlanView { has_dedup: true, ..p }, b);
        },
        QueryView::Merge { inputs } => {
            lemma_each_keeps(inputs, StagedPlanView { has_merge: true, ..p }, b);
        },
        QueryView::TopK { k, input, .. } => {
            lemma_walk_keeps(
                *input,
                StagedPlanView { topk: Some(k), precompute_active: true, ..p },
                b,
            );
        },
        QueryView::Limit { n, input, .. } => {
            lemma_walk_keeps(
                *input,
                StagedPlanView { topk: Some(n), precompute_active: true, ..p },
                b,
            );
        },
        QueryView::Sort { input, .. } | QueryView::Project { input, .. } => {
            lemma_walk_keeps(*input, p, b);
        },
        QueryView::HistogramQuantile { input, .. } | QueryView::PromQLSubquery { input, .. } => {
            lemma_walk_keeps(*input, StagedPlanView { precompute_active: true, ..p }, b);
        },
        QueryView::BinaryOp { lhs, rhs, .. } => {
            let q = StagedPlanView { precompute_active: true, ..p };
            lemma_walk_keeps(*lhs, q, b);
            lemma_walk_keeps(*rhs, walked(*lhs, q, b), b);
        },
        QueryView::Join { left, right, .. } | QueryView::SetOp { left, right, .. } => {
            let q = StagedPlanView { has_merge: true, ..p };
            lemma_walk_keeps(*left, q, b);
            lemma_walk_keeps(*right, walked(*left, q, b), b);
        },
        QueryView::LetBinding { expr, body, .. } => {
            lemma_walk_keeps(*expr, p, b);
            lemma_walk_keeps(*body, walked(*expr, p, b), b);
        },
    }
}

proof fn lemma_each_keeps(s: Seq<QueryView>, p: StagedPlanView, b: StageResourceBudgets)
    ensures
        keeps(p, walked_each(s, p, b), b),
    decreases s, 0int,
{
    if s.len() > 0 {
        lemma_each_keeps(s.subrange(0, s.len() - 1), p, b);
        lemma_walk_keeps(s[s.len() - 1], walked_each(s.subrange(0, s.len() - 1), p, b), b);
    }
}

/// The precompute engine and the database get the whole query as PromQL exactly
/// when they have something to do, and nothing otherwise.
pub proof fn law_active_stages_get_the_query(e: QueryView, b: StageResourceBudgets)
    ensures
        ({
            let p = split(e, b);
            let q = promql_text::promql(e, promql_text::empty_ctx()).0;
            &&& p.precompute_query == (if p.precompute_active {
                q
            } else {
                Seq::empty()
            })
            &&& p.db_query == (if p.db_active {
                q
            } else {
                Seq::empty()
            })
        }),
{
    lemma_walk_keeps(e, types::empty_staged_plan(), b);
}

/// Without a limit at the agent nothing is deferred.
pub proof fn law_no_limit_no_deferral(e: QueryView, b: StageResourceBudgets)
    requires
        b.agent_memory_bytes is None,
    ensures
        split(e, b).deferral_log.len() == 0,
{
    lemma_walk_keeps(e, types::empty_staged_plan(), b);
}

/// A sketch leaves one note for each stage that it was too large for.
pub proof fn law_deferrals_match_stage(op: AggIntent, mem: u64, b: StageResourceBudgets)
    ensures
        deferrals(op, mem, b).len() == (match sketch_stage(mem, b) {
            SketchStage::Agent => 0nat,
            SketchStage::Backend => 1nat,
            SketchStage::Precompute => 2nat,
        }),
{
}

// ── The typed path ────────────────────────────────────────────────────────────

/// The environment variable that turns the typed path on.
pub const ENV_USE_TYPED_STAGE_SPLIT: &'static str = "USE_TYPED_STAGE_SPLIT";

/// Whether a value of the environment variable turns the typed path on.
pub open spec fn turns_on(value: Option<Seq<char>>) -> bool {
    match value {
        Some(v) => v == "1"@ || v == "true"@ || v == "yes"@,
        None => false,
    }
}

/// Whether the typed path is on, given the value of the environment variable.
pub fn typed_stage_split_enabled(value: Option<&str>) -> (r: bool)
    ensures
        r == turns_on(
            match value {
                Some(v) => Some(v@),
                None => None,
            },
        ),
{
    match value {
        Some(v) => text::same(v, "1") || text::same(v, "true") || text::same(v, "yes"),
        None => false,
    }
}

/// What each of three stages is told of a sketch plan; `None` where the plan
/// refers to a name that is not bound, or reads nothing off at the backend.
pub fn split_typed_three_stage(expr: &SketchExpr) -> (r: Option<StageConfigs>)
    ensures
        match typed::allocated(expr@, Topology::ThreeStage) {
            Ok(dag) => match r {
                Some(c) => typed::parts_at(dag, StageId::Backend).len() > 0 && typed::tells(c, dag),
                None => typed::parts_at(dag, StageId::Backend).len() == 0,
            },
            Err(_) => r is None,
        },
{
    match StageAllocator.allocate(expr, Topology::ThreeStage) {
        Ok(dag) => match ThreeStageEmitter.emit_per_stage(&dag) {
            Ok(c) => Some(c),
            Err(_) => None,
        },
        Err(_) => None,
    }
}

} // verus!
