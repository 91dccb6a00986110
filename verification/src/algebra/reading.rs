//! Reading a query: what it scans, and what its nodes hold.
use vstd::prelude::*;

use crate::algebra::expr::{
    AggItemView, JoinKind, ProjectView, QueryView, ScalarView, SetOpKind, SortKeyView,
};
use crate::types::Duration;

verus! {

// ── Scans ─────────────────────────────────────────────────────────────────────

/// A source with the predicate of the filter directly above it, and the window
/// directly above that.
pub struct Scan {
    pub source: Seq<char>,
    pub pred: Option<ScalarView>,
    pub window: Option<(Duration, Option<Duration>)>,
}

/// A source, filtered or not, as a scan.
pub open spec fn filtered_scan(q: QueryView) -> Option<Scan> {
    match q {
        QueryView::Source(source) => Some(Scan { source, pred: None, window: None }),
        QueryView::Filter { pred, input } => match *input {
            QueryView::Source(source) => Some(Scan { source, pred: Some(pred), window: None }),
            _ => None,
        },
        _ => None,
    }
}

/// A source, filtered or not, in a window or not, as a scan.
pub open spec fn scan(q: QueryView) -> Option<Scan> {
    match q {
        QueryView::Window { duration, slide, input } => match filtered_scan(*input) {
            Some(s) => Some(Scan { window: Some((duration, slide)), ..s }),
            None => None,
        },
        _ => filtered_scan(q),
    }
}

/// The scans of a query, from left to right.
pub open spec fn scans(q: QueryView) -> Seq<Scan>
    decreases q, 1int,
{
    match scan(q) {
        Some(s) => seq![s],
        None => match q {
            QueryView::Source(_) | QueryView::Ref(_) => Seq::empty(),
            QueryView::Filter { input, .. }
            | QueryView::Project { input, .. }
            | QueryView::Aggregate { input, .. }
            | QueryView::Window { input, .. }
            | QueryView::SketchAgg { input, .. }
            | QueryView::WindowedAgg { input, .. }
            | QueryView::Partition { input, .. }
            | QueryView::Distinct { input, .. }
            | QueryView::TopK { input, .. }
            | QueryView::Sort { input, .. }
            | QueryView::Limit { input, .. }
            | QueryView::HistogramQuantile { input, .. }
            | QueryView::PromQLSubquery { input, .. } => scans(*input),
            QueryView::Merge { inputs } => scans_in(inputs),
            QueryView::Join { left, right, .. } | QueryView::SetOp { left, right, .. } => scans(
                *left,
            ) + scans(*right),
            QueryView::BinaryOp { lhs, rhs, .. } => scans(*lhs) + scans(*rhs),
            QueryView::LetBinding { expr, body, .. } => scans(*expr) + scans(*body),
        },
    }
}

/// The scans of several queries.
pub open spec fn scans_in(s: Seq<QueryView>) -> Seq<Scan>
    decreases s, 0int,
{
    if s.len() == 0 {
        Seq::empty()
    } else {
        scans_in(s.subrange(0, s.len() - 1)) + scans(s[s.len() - 1])
    }
}

// ── Parts ─────────────────────────────────────────────────────────────────────

/// What a node of a relational query holds, its inputs aside.
pub enum Part {
    Source(Seq<char>),
    Filter(ScalarView),
    Project(Seq<ProjectView>),
    Aggregate(Seq<Seq<char>>, Seq<AggItemView>, Option<ScalarView>),
    Window(Duration, Option<Duration>),
    Sort(Seq<SortKeyView>),
    Limit(u64, u64),
    Join(JoinKind, Option<ScalarView>),
    SetOp(SetOpKind, bool),
    Other,
}

/// What the nodes of a relational query hold, each before its inputs, the inputs
/// from left to right.
pub open spec fn parts(q: QueryView) -> Seq<Part>
    decreases q,
{
    match q {
        QueryView::Source(name) => seq![Part::Source(name)],
        QueryView::Filter { pred, input } => seq![Part::Filter(pred)] + parts(*input),
        QueryView::Project { cols, input } => seq![Part::Project(cols)] + parts(*input),
        QueryView::Aggregate { keys, aggs, having, input } => seq![
            Part::Aggregate(keys, aggs, having),
        ] + parts(*input),
        QueryView::Window { duration, slide, input } => seq![Part::Window(duration, slide)] + parts(
            *input,
        ),
        QueryView::Sort { keys, input } => seq![Part::Sort(keys)] + parts(*input),
        QueryView::Limit { n, offset, input } => seq![Part::Limit(n, offset)] + parts(*input),
        QueryView::Join { kind, pred, left, right } => seq![Part::Join(kind, pred)] + parts(*left)
            + parts(*right),
        QueryView::SetOp { kind, all, left, right } => seq![Part::SetOp(kind, all)] + parts(*left)
            + parts(*right),
        _ => seq![Part::Other],
    }
}

// ── Nodes ─────────────────────────────────────────────────────────────────────

/// The nodes of a query, each before its inputs, the inputs from left to right,
/// and of each whether a `TopK` node stands above it.
pub open spec fn nodes(q: QueryView, under: bool) -> Seq<(QueryView, bool)>
    decreases q, 1int,
{
    seq![(q, under)] + match q {
        QueryView::Source(_) | QueryView::Ref(_) => Seq::empty(),
        QueryView::Filter { input, .. }
        | QueryView::Project { input, .. }
        | QueryView::Aggregate { input, .. }
        | QueryView::Window { input, .. }
        | QueryView::SketchAgg { input, .. }
        | QueryView::WindowedAgg { input, .. }
        | QueryView::Partition { input, .. }
        | QueryView::Distinct { input, .. }
        | QueryView::Sort { input, .. }
        | QueryView::Limit { input, .. }
        | QueryView::HistogramQuantile { input, .. }
        | QueryView::PromQLSubquery { input, .. } => nodes(*input, under),
        QueryView::TopK { input, .. } => nodes(*input, true),
        QueryView::Merge { inputs } => nodes_in(inputs, under),
        QueryView::Join { left, right, .. } | QueryView::SetOp { left, right, .. } => nodes(
            *left,
            under,
        ) + nodes(*right, under),
        QueryView::BinaryOp { lhs, rhs, .. } => nodes(*lhs, under) + nodes(*rhs, under),
        QueryView::LetBinding { expr, body, .. } => nodes(*expr, under) + nodes(*body, under),
    }
}

/// The nodes of several queries.
pub open spec fn nodes_in(s: Seq<QueryView>, under: bool) -> Seq<(QueryView, bool)>
    decreases s, 0int,
{
    if s.len() == 0 {
        Seq::empty()
    } else {
        nodes_in(s.subrange(0, s.len() - 1), under) + nodes(s[s.len() - 1], under)
    }
}

/// What the first of some nodes that says something says.
pub open spec fn first_said<T>(
    ns: Seq<(QueryView, bool)>,
    says: spec_fn(QueryView) -> Option<T>,
) -> Option<T>
    decreases ns.len(),
{
    if ns.len() == 0 {
        None
    } else {
        match says(ns[0].0) {
            Some(x) => Some(x),
            None => first_said(ns.drop_first(), says),
        }
    }
}

/// What the last of some nodes that says something says.
pub open spec fn last_said<T>(
    ns: Seq<(QueryView, bool)>,
    says: spec_fn(QueryView) -> Option<T>,
) -> Option<T>
    decreases ns.len(),
{
    if ns.len() == 0 {
        None
    } else {
        match says(ns.last().0) {
            Some(x) => Some(x),
            None => last_said(ns.drop_last(), says),
        }
    }
}

/// The first value, or else the second.
pub open spec fn either<T>(a: Option<T>, b: Option<T>) -> Option<T> {
    match a {
        Some(x) => Some(x),
        None => b,
    }
}

/// The first to say something among two lists of nodes is in the first list, or
/// else in the second; the last the other way round.
pub proof fn lemma_said<T>(
    a: Seq<(QueryView, bool)>,
    b: Seq<(QueryView, bool)>,
    says: spec_fn(QueryView) -> Option<T>,
)
    ensures
        first_said(a + b, says) == either(first_said(a, says), first_said(b, says)),
        last_said(a + b, says) == either(last_said(b, says), last_said(a, says)),
    decreases a.len() + b.len(),
{
    if a.len() == 0 {
        assert(a + b =~= b);
    } else {
        assert((a + b).drop_first() =~= a.drop_first() + b);
        lemma_said(a.drop_first(), b, says);
    }
    if b.len() == 0 {
        assert(a + b =~= a);
    } else {
        assert((a + b).drop_last() =~= a + b.drop_last());
        lemma_said(a, b.drop_last(), says);
    }
}

} // verus!
