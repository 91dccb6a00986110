//! Reading physical plans: counting nodes, listing stages, and extracting the
//! flat per-stage plan that the collectors are configured from.
use vstd::prelude::*;
use vstd::string::*;

use crate::algebra::expr::{QueryExpr, QueryView};
use crate::optimizer::cost::DeploymentConstraints;
use crate::physical::planner;
use crate::physical::planner::{
    plan, ExchangeFormat, NodeView, OpView, PhysicalNode, PhysicalOp, PhysicalPlannerConfig,
    PhysicalWindow, Placement, WindowView,
};
use crate::text;
use crate::types;
use crate::types::{StageResourceBudgets, StagedPlan, StagedPlanView};

verus! {

// ── Counting ──────────────────────────────────────────────────────────────────

/// The number of nodes of a plan.
pub open spec fn size(n: NodeView) -> nat
    decreases n, 1int,
{
    1 + sizes(n.children)
}

/// The number of nodes of all plans of a list.
pub open spec fn sizes(s: Seq<NodeView>) -> nat
    decreases s, 0int,
{
    if s.len() == 0 {
        0
    } else {
        sizes(s.subrange(0, s.len() - 1)) + size(s[s.len() - 1])
    }
}

/// The number of exchanges of a plan.
pub open spec fn exchanges(n: NodeView) -> nat
    decreases n, 1int,
{
    (if n.op is Exchange {
        1nat
    } else {
        0nat
    }) + exchanges_in(n.children)
}

/// The number of exchanges of all plans of a list.
pub open spec fn exchanges_in(s: Seq<NodeView>) -> nat
    decreases s, 0int,
{
    if s.len() == 0 {
        0
    } else {
        exchanges_in(s.subrange(0, s.len() - 1)) + exchanges(s[s.len() - 1])
    }
}

/// `out` with the placements of a plan that it does not hold yet, the node's
/// own first.
pub open spec fn add_placements(out: Seq<Placement>, more: Seq<Placement>) -> Seq<Placement>
    decreases more.len(),
{
    if more.len() == 0 {
        out
    } else {
        let rest = add_placements(out, more.drop_last());
        if rest.contains(more.last()) {
            rest
        } else {
            rest.push(more.last())
        }
    }
}

/// The distinct placements of a plan in the order in which they are met.
pub open spec fn stages(n: NodeView) -> Seq<Placement>
    decreases n, 1int,
{
    stages_with(seq![n.placement], n.children)
}

/// `out` with the placements of a list of plans that it does not hold yet.
pub open spec fn stages_with(out: Seq<Placement>, s: Seq<NodeView>) -> Seq<Placement>
    decreases s, 0int,
{
    if s.len() == 0 {
        out
    } else {
        add_placements(
            stages_with(out, s.subrange(0, s.len() - 1)),
            stages(s[s.len() - 1]),
        )
    }
}

/// The number of nodes of a prefix is at most that of the whole list.
proof fn lemma_sizes_grow(s: Seq<NodeView>, i: int)
    requires
        0 <= i <= s.len(),
    ensures
        sizes(s.subrange(0, i)) <= sizes(s),
    decreases s.len(),
{
    if i < s.len() {
        let t = s.subrange(0, s.len() - 1);
        lemma_sizes_grow(t, i);
        assert(t.subrange(0, i) =~= s.subrange(0, i));
    } else {
        assert(s.subrange(0, i) =~= s);
    }
}

/// There are no more exchanges than nodes.
pub proof fn law_exchanges_are_nodes(n: NodeView)
    ensures
        exchanges(n) <= size(n),
    decreases n, 1int,
{
    lemma_exchanges_in_bounded(n.children);
}

proof fn lemma_exchanges_in_bounded(s: Seq<NodeView>)
    ensures
        exchanges_in(s) <= sizes(s),
    decreases s, 0int,
{
    if s.len() > 0 {
        lemma_exchanges_in_bounded(s.subrange(0, s.len() - 1));
        law_exchanges_are_nodes(s[s.len() - 1]);
    }
}

/// Add the placements of `more` that the list does not hold yet.
fn extend_placements(out: &mut Vec<Placement>, more: &Vec<Placement>)
    ensures
        final(out)@ == add_placements(old(out)@, more@),
{
    let ghost start = out@;
    for i in 0..more.len()
        invariant
            out@ == add_placements(start, more@.take(i as int)),
    {
        let ghost before = out@;
        assert(more@.take(i as int + 1).drop_last() =~= more@.take(i as int));
        let mut found = false;
        for j in 0..out.len()
            invariant
                i < more@.len(),
                found == exists|k: int| 0 <= k < j && #[trigger] out@[k] == more@[i as int],
        {
            if out[j] == more[i] {
                found = true;
            }
        }
        assert(found == out@.contains(more@[i as int]));
        if !found {
            out.push(more[i]);
        }
    }
    assert(more@.take(more@.len() as int) =~= more@);
}

impl PhysicalNode {
    /// The number of nodes of the plan.
    pub fn node_count(&self) -> (r: usize)
        requires
            size(self@) <= usize::MAX,
        ensures
            r == size(self@),
        decreases self,
    {
        broadcast use planner::group_node_views;

        let ghost kids = self@.children;
        let mut total: usize = 1;
        for i in 0..self.children.len()
            invariant
                kids == planner::nodes_view(self.children@),
                1 + sizes(kids) <= usize::MAX,
                total == 1 + sizes(kids.subrange(0, i as int)),
        {
            broadcast use planner::group_node_views;
            broadcast use vstd::std_specs::vec::axiom_vec_index_decreases;

            let ghost seen = kids.subrange(0, i as int + 1);
            proof {
                assert(seen.subrange(0, seen.len() - 1) =~= kids.subrange(0, i as int));
                assert(seen[i as int] == planner::node_view(self.children@[i as int]));
                lemma_sizes_grow(kids, i as int + 1);
                assert(decreases_to!(*self => self.children));
                assert(decreases_to!(self.children => self.children[i as int]));
            }
            total = total + self.children[i].node_count();
        }
        assert(kids.subrange(0, kids.len() as int) =~= kids);
        total
    }

    /// The number of exchanges of the plan: of crossings between stages.
    pub fn exchange_count(&self) -> (r: usize)
        requires
            size(self@) <= usize::MAX,
        ensures
            r == exchanges(self@),
        decreases self,
    {
        broadcast use planner::group_node_views;

        let ghost kids = self@.children;
        let own: usize = if matches!(self.op, PhysicalOp::Exchange { .. }) {
            1
        } else {
            0
        };
        let mut total: usize = own;
        for i in 0..self.children.len()
            invariant
                kids == planner::nodes_view(self.children@),
                1 + sizes(kids) <= usize::MAX,
                own <= 1,
                total == own + exchanges_in(kids.subrange(0, i as int)),
        {
            broadcast use planner::group_node_views;
            broadcast use vstd::std_specs::vec::axiom_vec_index_decreases;

            let ghost seen = kids.subrange(0, i as int + 1);
            proof {
                assert(seen.subrange(0, seen.len() - 1) =~= kids.subrange(0, i as int));
                assert(seen[i as int] == planner::node_view(self.children@[i as int]));
                lemma_sizes_grow(kids, i as int + 1);
                lemma_exchanges_in_bounded(seen);
                assert(decreases_to!(*self => self.children));
                assert(decreases_to!(self.children => self.children[i as int]));
            }
            total = total + self.children[i].exchange_count();
        }
        assert(kids.subrange(0, kids.len() as int) =~= kids);
        total
    }

    /// The distinct placements of the plan, in the order in which they are met.
    pub fn placements(&self) -> (r: Vec<Placement>)
        ensures
            r@ == stages(self@),
        decreases self,
    {
        broadcast use planner::group_node_views;

        let ghost kids = self@.children;
        let mut out = vec![self.placement];
        let ghost first = seq![self.placement];
        assert(out@ =~= first);
        for i in 0..self.children.len()
            invariant
                kids == planner::nodes_view(self.children@),
                out@ == stages_with(first, kids.subrange(0, i as int)),
        {
            broadcast use planner::group_node_views;
            broadcast use vstd::std_specs::vec::axiom_vec_index_decreases;

            let ghost seen = kids.subrange(0, i as int + 1);
            proof {
                assert(seen.subrange(0, seen.len() - 1) =~= kids.subrange(0, i as int));
                assert(seen[i as int] == planner::node_view(self.children@[i as int]));
                assert(decreases_to!(*self => self.children));
                assert(decreases_to!(self.children => self.children[i as int]));
            }
            let more = self.children[i].placements();
            extend_placements(&mut out, &more);
        }
        assert(kids.subrange(0, kids.len() as int) =~= kids);
        out
    }
}

// ── What the counts say ───────────────────────────────────────────────────────

/// Whether some node of the plan runs at `p`.
pub open spec fn runs_at(n: NodeView, p: Placement) -> bool
    decreases n, 1int,
{
    n.placement == p || some_runs_at(n.children, p)
}

/// Whether some node of some plan of the list runs at `p`.
pub open spec fn some_runs_at(s: Seq<NodeView>, p: Placement) -> bool
    decreases s, 0int,
{
    s.len() > 0 && (some_runs_at(s.subrange(0, s.len() - 1), p) || runs_at(s[s.len() - 1], p))
}

proof fn lemma_add_placements(out: Seq<Placement>, more: Seq<Placement>)
    requires
        out.no_duplicates(),
    ensures
        add_placements(out, more).no_duplicates(),
        forall|p: Placement| #[trigger]
            add_placements(out, more).contains(p) <==> out.contains(p) || more.contains(p),
    decreases more.len(),
{
    if more.len() > 0 {
        let init = more.drop_last();
        let rest = add_placements(out, init);
        lemma_add_placements(out, init);
        let result = add_placements(out, more);
        assert forall|p: Placement| #[trigger] result.contains(p) <==> out.contains(p)
            || more.contains(p) by {
            assert(rest.contains(p) <==> out.contains(p) || init.contains(p));
            if init.contains(p) {
                let k = init.index_of(p);
                assert(more[k] == p);
            }
            if more.contains(p) {
                let k = more.index_of(p);
                if k < more.len() - 1 {
                    assert(init[k] == p);
                }
            }
            assert(more[more.len() - 1] == more.last());
            if rest.contains(p) {
                let k = rest.index_of(p);
                assert(result[k] == p);
            }
            if !rest.contains(more.last()) {
                assert(result[rest.len() as int] == more.last());
            }
            if result.contains(p) {
                let k = result.index_of(p);
                if k < rest.len() {
                    assert(rest[k] == p);
                }
            }
        }
    } else {
        assert forall|p: Placement| !more.contains(p) by {}
    }
}

/// The placements of a plan are listed once each, and exactly those at which
/// some node runs.
pub proof fn law_placements_distinct_and_complete(n: NodeView)
    ensures
        stages(n).no_duplicates(),
        forall|p: Placement| #[trigger] stages(n).contains(p) <==> runs_at(n, p),
    decreases n, 1int,
{
    let own = seq![n.placement];
    lemma_stages_with(own, n.children);
    assert forall|p: Placement| own.contains(p) <==> p == n.placement by {
        assert(own[0] == n.placement);
    }
}

proof fn lemma_stages_with(out: Seq<Placement>, s: Seq<NodeView>)
    requires
        out.no_duplicates(),
    ensures
        stages_with(out, s).no_duplicates(),
        forall|p: Placement| #[trigger]
            stages_with(out, s).contains(p) <==> out.contains(p) || some_runs_at(s, p),
    decreases s, 0int,
{
    if s.len() > 0 {
        let init = s.subrange(0, s.len() - 1);
        lemma_stages_with(out, init);
        law_placements_distinct_and_complete(s[s.len() - 1]);
        lemma_add_placements(stages_with(out, init), stages(s[s.len() - 1]));
    }
}

/// Whether every edge of a plan stays within a stage or ends in an exchange.
pub open spec fn crossings_exchanged(n: NodeView) -> bool
    decreases n, 1int,
{
    all_crossings_exchanged(n.children) && (n.op is Exchange || forall|i: int|
        0 <= i < n.children.len() ==> (#[trigger] n.children[i]).placement == n.placement)
}

/// Whether every edge of every plan of a list stays within a stage or ends in
/// an exchange.
pub open spec fn all_crossings_exchanged(s: Seq<NodeView>) -> bool
    decreases s, 0int,
{
    s.len() == 0 || (all_crossings_exchanged(s.subrange(0, s.len() - 1)) && crossings_exchanged(
        s[s.len() - 1],
    ))
}

proof fn lemma_one_child(c: NodeView)
    requires
        crossings_exchanged(c),
    ensures
        all_crossings_exchanged(seq![c]),
{
    let s = seq![c];
    assert(all_crossings_exchanged(s.subrange(0, s.len() - 1)));
}

proof fn lemma_exchanged(c: NodeView, to: Placement)
    requires
        crossings_exchanged(c),
    ensures
        crossings_exchanged(planner::exchanged(c, to)),
        planner::exchanged(c, to).placement == to,
        all_crossings_exchanged(seq![planner::exchanged(c, to)]),
{
    lemma_one_child(c);
    lemma_one_child(planner::exchanged(c, to));
}

/// Inputs behind exchanges stay free of bare crossings and run where they are
/// read.
proof fn lemma_exchanged_each(s: Seq<NodeView>, to: Placement)
    requires
        forall|i: int| 0 <= i < s.len() ==> crossings_exchanged(#[trigger] s[i]),
    ensures
        all_crossings_exchanged(planner::exchanged_each(s, to)),
        forall|i: int|
            0 <= i < s.len() ==> (#[trigger] planner::exchanged_each(s, to)[i]).placement == to,
    decreases s.len(),
{
    let t = planner::exchanged_each(s, to);
    if s.len() > 0 {
        let init = s.subrange(0, s.len() - 1);
        assert forall|i: int| 0 <= i < init.len() implies crossings_exchanged(
            #[trigger] init[i],
        ) by {
            assert(crossings_exchanged(s[i]));
        }
        lemma_exchanged_each(init, to);
        lemma_exchanged(s[s.len() - 1], to);
        assert(t.subrange(0, t.len() - 1) =~= planner::exchanged_each(init, to));
    }
}

proof fn lemma_exchanged_pair(l: NodeView, r: NodeView)
    requires
        crossings_exchanged(l),
        crossings_exchanged(r),
    ensures
        crossings_exchanged(
            planner::free_node(
                OpView::Passthrough,
                Placement::QueryEngine,
                planner::exchanged_each(seq![l, r], Placement::QueryEngine),
            ),
        ),
{
    let both = seq![l, r];
    assert forall|i: int| 0 <= i < both.len() implies crossings_exchanged(#[trigger] both[i]) by {
        if i == 0 {
            assert(both[i] == l);
        } else {
            assert(both[i] == r);
        }
    }
    lemma_exchanged_each(both, Placement::QueryEngine);
}

/// In every plan no data crosses between stages but through an exchange: each
/// input of a node that is no exchange runs where the node runs.
pub proof fn law_plans_exchange(e: QueryView, dc: DeploymentConstraints)
    ensures
        crossings_exchanged(planner::plan_of(e, dc)),
    decreases e,
{
    match e {
        QueryView::Source(_) | QueryView::Ref(_) => {},
        QueryView::Filter { input, .. }
        | QueryView::Project { input, .. }
        | QueryView::Sort { input, .. }
        | QueryView::Limit { input, .. }
        | QueryView::Window { input, .. } => {
            law_plans_exchange(*input, dc);
            lemma_one_child(planner::plan_of(*input, dc));
        },
        QueryView::Aggregate { input, .. } => {
            law_plans_exchange(*input, dc);
            lemma_exchanged(planner::plan_of(*input, dc), Placement::Database);
        },
        QueryView::SketchAgg { op, input, .. } => {
            law_plans_exchange(*input, dc);
            lemma_exchanged(planner::plan_of(*input, dc), planner::sketch_placement(op, dc));
        },
        QueryView::WindowedAgg { agg, input, .. } => {
            law_plans_exchange(*input, dc);
            lemma_exchanged(planner::plan_of(*input, dc), planner::sketch_placement(agg, dc));
        },
        QueryView::Partition { input, .. } | QueryView::Distinct { input, .. } => {
            law_plans_exchange(*input, dc);
            lemma_exchanged(planner::plan_of(*input, dc), Placement::BackendCollector);
        },
        QueryView::TopK { input, .. }
        | QueryView::HistogramQuantile { input, .. }
        | QueryView::PromQLSubquery { input, .. } => {
            law_plans_exchange(*input, dc);
            lemma_exchanged(planner::plan_of(*input, dc), Placement::QueryEngine);
        },
        QueryView::LetBinding { body, .. } => {
            law_plans_exchange(*body, dc);
        },
        QueryView::BinaryOp { lhs, rhs, .. } => {
            law_plans_exchange(*lhs, dc);
            law_plans_exchange(*rhs, dc);
            lemma_exchanged_pair(planner::plan_of(*lhs, dc), planner::plan_of(*rhs, dc));
        },
        QueryView::Join { left, right, .. } | QueryView::SetOp { left, right, .. } => {
            law_plans_exchange(*left, dc);
            law_plans_exchange(*right, dc);
            lemma_exchanged_pair(planner::plan_of(*left, dc), planner::plan_of(*right, dc));
        },
        QueryView::Merge { inputs } => {
            let plans = planner::plans_of(inputs, dc);
            assert forall|i: int| 0 <= i < plans.len() implies crossings_exchanged(
                #[trigger] plans[i],
            ) by {
                law_plans_exchange(inputs[i], dc);
            }
            lemma_exchanged_each(plans, Placement::BackendCollector);
        },
    }
}

/// With no limits on the agent every sketch runs there.
pub proof fn law_unlimited_agent_holds_sketches(
    op: crate::intent_algebra::agg_intent::AggIntent,
    dc: DeploymentConstraints,
)
    requires
        dc.agent == crate::optimizer::cost::StageBudget::unlimited(),
    ensures
        planner::sketch_placement(op, dc) == Placement::AgentCollector,
{
}

// ── Staged plans ──────────────────────────────────────────────────────────────

/// The name of an exchange format.
pub open spec fn format_text(f: ExchangeFormat) -> Seq<char> {
    match f {
        ExchangeFormat::Otlp => "Otlp"@,
        ExchangeFormat::SketchBinary => "SketchBinary"@,
        ExchangeFormat::RawSamples => "RawSamples"@,
    }
}

/// A staged plan with what one node adds to it.
pub open spec fn staged_node(n: NodeView, p: StagedPlanView) -> StagedPlanView {
    match (n.placement, n.op) {
        (_, OpView::Exchange { format }) => StagedPlanView {
            deferral_log: p.deferral_log.push("Exchange("@ + format_text(format) + ")"@),
            ..p
        },
        (
            Placement::AgentCollector,
            OpView::OtelSketchBuild { sketch_type, sketch_params, window, .. },
        ) => StagedPlanView {
            sketch_type: Some(sketch_type),
            sketch_params,
            window_secs: match window {
                WindowView::OtelTumblingFlush { duration } => Some(duration.secs),
                _ => p.window_secs,
            },
            ..p
        },
        (Placement::AgentCollector, OpView::Filter { pred }) => StagedPlanView {
            label_filters: p.label_filters.push(pred),
            ..p
        },
        (Placement::BackendCollector, OpView::SketchMerge { group_by, .. }) => StagedPlanView {
            has_merge: true,
            group_by,
            ..p
        },
        (Placement::BackendCollector, OpView::HashAggregate { keys }) => StagedPlanView {
            has_merge: true,
            group_by: keys,
            ..p
        },
        (Placement::BackendCollector, OpView::Filter { .. }) => StagedPlanView {
            has_dedup: true,
            ..p
        },
        (Placement::QueryEngine, OpView::TopK { k }) => StagedPlanView {
            precompute_active: true,
            topk: Some(k),
            ..p
        },
        (Placement::QueryEngine, OpView::SketchEval { .. })
        | (Placement::QueryEngine, OpView::Passthrough) => StagedPlanView {
            precompute_active: true,
            ..p
        },
        (Placement::Database, OpView::DbQuery { sql }) => StagedPlanView {
            db_active: true,
            db_query: sql,
            ..p
        },
        _ => p,
    }
}

/// A staged plan with what a whole plan adds to it, parents before children.
pub open spec fn staged_tree(n: NodeView, p: StagedPlanView) -> StagedPlanView
    decreases n, 1int,
{
    staged_trees(n.children, staged_node(n, p))
}

/// A staged plan with what each plan of a list adds to it.
pub open spec fn staged_trees(s: Seq<NodeView>, p: StagedPlanView) -> StagedPlanView
    decreases s, 0int,
{
    if s.len() == 0 {
        p
    } else {
        staged_tree(s[s.len() - 1], staged_trees(s.subrange(0, s.len() - 1), p))
    }
}

/// The log entry of an exchange.
fn exchange_entry(format: ExchangeFormat) -> (r: String)
    ensures
        r@ == "Exchange("@ + format_text(format) + ")"@,
{
    let mut out = "Exchange(".to_owned();
    out.append(
        match format {
            ExchangeFormat::Otlp => "Otlp",
            ExchangeFormat::SketchBinary => "SketchBinary",
            ExchangeFormat::RawSamples => "RawSamples",
        },
    );
    out.append(")");
    out
}

impl PhysicalNode {
    /// Add what this node alone contributes to a staged plan.
    fn stage_into(&self, staged: &mut StagedPlan)
        ensures
            final(staged)@ == staged_node(self@, old(staged)@),
    {
        let ghost before = staged@;
        match (&self.placement, &self.op) {
            (
                Placement::AgentCollector,
                PhysicalOp::OtelSketchBuild { sketch_type, sketch_params, window, .. },
            ) => {
                staged.agent.sketch_type = Some(*sketch_type);
                staged.agent.sketch_params = sketch_params.clone();
                if let PhysicalWindow::OtelTumblingFlush { duration } = window {
                    staged.agent.window_secs = Some(duration.as_secs());
                }
            },
            (Placement::AgentCollector, PhysicalOp::Filter { pred }) => {
                staged.agent.label_filters.push(pred.clone());
                assert(text::texts(staged.agent.label_filters@) =~= before.label_filters.push(pred@));
            },
            (Placement::BackendCollector, PhysicalOp::SketchMerge { group_by, .. }) => {
                staged.backend.has_merge = true;
                staged.backend.group_by = text::clone_texts(group_by);
            },
            (Placement::BackendCollector, PhysicalOp::HashAggregate { keys }) => {
                staged.backend.has_merge = true;
                staged.backend.group_by = text::clone_texts(keys);
            },
            (Placement::BackendCollector, PhysicalOp::Filter { .. }) => {
                staged.backend.has_dedup = true;
            },
            (Placement::QueryEngine, PhysicalOp::TopK { k }) => {
                staged.precompute.active = true;
                staged.precompute.topk = Some(*k);
            },
            (Placement::QueryEngine, PhysicalOp::SketchEval { .. }) => {
                staged.precompute.active = true;
            },
            (Placement::QueryEngine, PhysicalOp::Passthrough) => {
                staged.precompute.active = true;
            },
            (Placement::Database, PhysicalOp::DbQuery { sql }) => {
                staged.db.active = true;
                staged.db.query_expr = sql.clone();
            },
            (_, PhysicalOp::Exchange { format }) => {
                let entry = exchange_entry(*format);
                let ghost added = entry@;
                staged.deferral_log.push(entry);
                assert(text::texts(staged.deferral_log@) =~= before.deferral_log.push(added));
            },
            _ => {},
        }
        assert(staged@ =~= staged_node(self@, before));
    }

    /// Add what this plan contributes to a staged plan.
    fn collect_into_staged(&self, staged: &mut StagedPlan)
        ensures
            final(staged)@ == staged_tree(self@, old(staged)@),
        decreases self,
    {
        broadcast use planner::group_node_views;

        let ghost kids = self@.children;
        self.stage_into(staged);
        let ghost start = staged@;
        for i in 0..self.children.len()
            invariant
                kids == planner::nodes_view(self.children@),
                staged@ == staged_trees(kids.subrange(0, i as int), start),
        {
            broadcast use planner::group_node_views;
            broadcast use vstd::std_specs::vec::axiom_vec_index_decreases;

            let ghost seen = kids.subrange(0, i as int + 1);
            proof {
                assert(seen.subrange(0, seen.len() - 1) =~= kids.subrange(0, i as int));
                assert(seen[i as int] == planner::node_view(self.children@[i as int]));
                assert(decreases_to!(*self => self.children));
                assert(decreases_to!(self.children => self.children[i as int]));
            }
            self.children[i].collect_into_staged(staged);
        }
        assert(kids.subrange(0, kids.len() as int) =~= kids);
    }

    /// Extract the flat plan of each stage.
    pub fn to_staged_plan(&self) -> (r: StagedPlan)
        ensures
            r@ == staged_tree(self@, types::empty_staged_plan()),
    {
        let mut staged = StagedPlan::default();
        self.collect_into_staged(&mut staged);
        staged
    }
}

/// Plan a query under stage budgets: the flat plan of each stage, and the plan
/// tree that it comes from.
pub fn physical_plan_to_staged(expr: &QueryExpr, budgets: &StageResourceBudgets) -> (r: (
    StagedPlan,
    PhysicalNode,
))
    ensures
        r.1@ == planner::plan_of(expr@, DeploymentConstraints::of_budgets(*budgets)),
        r.0@ == staged_tree(r.1@, types::empty_staged_plan()),
{
    let constraints = DeploymentConstraints::from_budgets(budgets);
    let config = PhysicalPlannerConfig { budgets: *budgets, constraints };
    let tree = plan(expr, &config);
    let staged = tree.to_staged_plan();
    (staged, tree)
}

} // verus!
