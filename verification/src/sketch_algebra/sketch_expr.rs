//! Sketch plans: typed query trees in which sketches stand for aggregates.
use vstd::prelude::*;

use crate::decimal::Decimal;
use crate::intent_algebra::query_expr::{IntentView, QueryExpr};
use crate::sketch_algebra::params::{SketchKind, SketchParams};
use crate::types::BindingName;

verus! {

/// What is read off a sketch.
#[derive(Debug, PartialEq, Eq)]
pub enum EstimateOp {
    /// The value at a rank.
    Quantile { q: Decimal },
    /// The number of distinct items.
    Cardinality,
    /// The most frequent items.
    TopK { k: u64 },
    /// How often an item occurs; `*` stands for all rows.
    PointCount { key: String },
}

/// What [`EstimateOp`] holds.
#[verifier::ext_equal]
pub enum EstimateView {
    Quantile { q: Decimal },
    Cardinality,
    TopK { k: u64 },
    PointCount { key: Seq<char> },
}

impl View for EstimateOp {
    type V = EstimateView;

    open spec fn view(&self) -> EstimateView {
        match self {
            EstimateOp::Quantile { q } => EstimateView::Quantile { q: *q },
            EstimateOp::Cardinality => EstimateView::Cardinality,
            EstimateOp::TopK { k } => EstimateView::TopK { k: *k },
            EstimateOp::PointCount { key } => EstimateView::PointCount { key: key@ },
        }
    }
}

impl Clone for EstimateOp {
    fn clone(&self) -> (r: EstimateOp)
        ensures
            r@ == self@,
    {
        match self {
            EstimateOp::Quantile { q } => EstimateOp::Quantile { q: *q },
            EstimateOp::Cardinality => EstimateOp::Cardinality,
            EstimateOp::TopK { k } => EstimateOp::TopK { k: *k },
            EstimateOp::PointCount { key } => EstimateOp::PointCount { key: key.clone() },
        }
    }
}

/// How sketches are combined.
#[derive(Clone, Copy, Debug, PartialEq, Eq, Structural)]
pub enum MergeAlgebra {
    Union,
}

/// A sketch plan.
#[derive(Debug, PartialEq, Eq)]
#[allow(inconsistent_fields)]
pub enum SketchExpr {
    /// A typed query tree without sketches.
    Logical(QueryExpr),
    /// Fill a sketch.
    SketchAgg { sketch_type: SketchKind, params: SketchParams, child: Box<SketchExpr> },
    /// Read off a sketch.
    SketchEstimate { op: EstimateOp, child: Box<SketchExpr> },
    /// Combine sketches.
    SketchMerge { algebra: MergeAlgebra, children: Vec<SketchExpr> },
    /// Name a plan within another.
    LetBinding { name: BindingName, expr: Box<SketchExpr>, child: Box<SketchExpr> },
    /// Refer to a named plan.
    Ref { name: BindingName },
    /// Send raw samples and fill a sketch where they arrive.
    RawAtEdgeSketchAtBackend { family: SketchKind, params: SketchParams, child: Box<SketchExpr> },
    /// Send raw samples to the archive.
    RawAtEdgePrometheusArchive { child: Box<SketchExpr> },
}

/// What [`SketchExpr`] holds.
#[verifier::ext_equal]
#[allow(inconsistent_fields)]
pub enum SketchView {
    Logical(IntentView),
    SketchAgg { sketch_type: SketchKind, params: SketchParams, child: Box<SketchView> },
    SketchEstimate { op: EstimateView, child: Box<SketchView> },
    SketchMerge { algebra: MergeAlgebra, children: Seq<SketchView> },
    LetBinding { name: Seq<char>, expr: Box<SketchView>, child: Box<SketchView> },
    Ref { name: Seq<char> },
    RawAtEdgeSketchAtBackend { family: SketchKind, params: SketchParams, child: Box<SketchView> },
    RawAtEdgePrometheusArchive { child: Box<SketchView> },
}

/// The view of a sketch plan.
pub open spec fn sketch_view(e: SketchExpr) -> SketchView
    decreases e,
{
    match e {
        SketchExpr::Logical(q) => SketchView::Logical(q@),
        SketchExpr::SketchAgg { sketch_type, params, child } => SketchView::SketchAgg {
            sketch_type,
            params,
            child: Box::new(sketch_view(*child)),
        },
        SketchExpr::SketchEstimate { op, child } => SketchView::SketchEstimate {
            op: op@,
            child: Box::new(sketch_view(*child)),
        },
        SketchExpr::SketchMerge { algebra, children } => SketchView::SketchMerge {
            algebra,
            children: sketches_view(children@),
        },
        SketchExpr::LetBinding { name, expr, child } => SketchView::LetBinding {
            name: name@,
            expr: Box::new(sketch_view(*expr)),
            child: Box::new(sketch_view(*child)),
        },
        SketchExpr::Ref { name } => SketchView::Ref { name: name@ },
        SketchExpr::RawAtEdgeSketchAtBackend { family, params, child } =>
            SketchView::RawAtEdgeSketchAtBackend {
            family,
            params,
            child: Box::new(sketch_view(*child)),
        },
        SketchExpr::RawAtEdgePrometheusArchive { child } =>
            SketchView::RawAtEdgePrometheusArchive { child: Box::new(sketch_view(*child)) },
    }
}

/// The views of a list of sketch plans.
pub open spec fn sketches_view(s: Seq<SketchExpr>) -> Seq<SketchView>
    decreases s,
{
    Seq::new(
        s.len(),
        |i: int|
            if 0 <= i < s.len() {
                sketch_view(s[i])
            } else {
                arbitrary()
            },
    )
}

/// The view of a list holds the view of each element.
pub broadcast proof fn sketches_view_index(s: Seq<SketchExpr>, i: int)
    requires
        0 <= i < s.len(),
    ensures
        #[trigger] sketches_view(s)[i] == sketch_view(s[i]),
{
}

/// The view of a list is as long as the list.
pub broadcast proof fn sketches_view_len(s: Seq<SketchExpr>)
    ensures
        #[trigger] sketches_view(s).len() == s.len(),
{
}

/// How the views of lists are made up.
pub broadcast group group_sketch_views {
    sketches_view_index,
    sketches_view_len,
}

impl View for SketchExpr {
    type V = SketchView;

    open spec fn view(&self) -> SketchView {
        sketch_view(*self)
    }
}

/// A reading off a sketch that a typed query tree fills.
pub open spec fn reading_over(
    op: EstimateView,
    sketch_type: SketchKind,
    params: SketchParams,
    child: IntentView,
) -> SketchView {
    SketchView::SketchEstimate {
        op,
        child: Box::new(
            SketchView::SketchAgg {
                sketch_type,
                params,
                child: Box::new(SketchView::Logical(child)),
            },
        ),
    }
}

impl SketchExpr {
    /// A reading off a sketch that a typed query tree fills.
    pub fn estimate_over_agg(
        op: EstimateOp,
        sketch_type: SketchKind,
        params: SketchParams,
        child: QueryExpr,
    ) -> (r: SketchExpr)
        ensures
            r@ == reading_over(op@, sketch_type, params, child@),
    {
        proof {
            reveal_with_fuel(sketch_view, 3);
        }
        SketchExpr::SketchEstimate {
            op,
            child: Box::new(
                SketchExpr::SketchAgg {
                    sketch_type,
                    params,
                    child: Box::new(SketchExpr::Logical(child)),
                },
            ),
        }
    }
}

} // verus!
