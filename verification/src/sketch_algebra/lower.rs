//! Binding of a typed query tree to sketches.
use vstd::prelude::*;
use vstd::string::*;

use crate::intent_algebra::query_expr::{IntentView, QueryExpr};
use crate::sketch_algebra::rules;
use crate::sketch_algebra::sketch_expr::{SketchExpr, SketchView};
use crate::types::AccuracyTarget;

verus! {

/// Why a tree could not be bound. No rule gives one.
#[derive(Debug, PartialEq, Eq)]
pub enum BindingError {
    Other(String),
}

impl BindingError {
    /// The error in words.
    pub fn message(&self) -> (r: String)
        ensures
            self matches BindingError::Other(s) && r@ == "binding failed: "@ + s@,
    {
        match self {
            BindingError::Other(s) => {
                let mut out = "binding failed: ".to_owned();
                out.append(s.as_str());
                out
            },
        }
    }
}

/// The sketch plan of a tree: what the rules make of its root; else named
/// expressions are bound on their own, and other trees stay as they are.
pub open spec fn bound_tree(e: IntentView, accuracy: AccuracyTarget) -> SketchView
    decreases e,
{
    match rules::dispatched(e, accuracy) {
        Some(b) => b,
        None => match e {
            IntentView::LetBinding { name, expr, child } => SketchView::LetBinding {
                name,
                expr: Box::new(bound_tree(*expr, accuracy)),
                child: Box::new(bound_tree(*child, accuracy)),
            },
            IntentView::Ref { name } => SketchView::Ref { name },
            _ => SketchView::Logical(e),
        },
    }
}

/// Whether a plan is the sketch plan of a tree.
pub open spec fn is_bound(r: SketchView, e: IntentView, accuracy: AccuracyTarget) -> bool {
    r == bound_tree(e, accuracy)
}

fn bind_recursive(expr: &QueryExpr, accuracy: &AccuracyTarget) -> (r: SketchExpr)
    ensures
        is_bound(r@, expr@, *accuracy),
    decreases expr,
{
    if let Some(bound) = rules::dispatch(expr, accuracy) {
        return bound;
    }
    match expr {
        QueryExpr::LetBinding { name, expr, child } => SketchExpr::LetBinding {
            name: name.clone(),
            expr: Box::new(bind_recursive(expr, accuracy)),
            child: Box::new(bind_recursive(child, accuracy)),
        },
        QueryExpr::Ref { name } => SketchExpr::Ref { name: name.clone() },
        QueryExpr::Aggregate { .. } | QueryExpr::Scan { .. } | QueryExpr::Window { .. } =>
            SketchExpr::Logical(expr.clone()),
    }
}

/// Bind a tree to sketches. It never fails.
pub fn bind_query_expr(expr: &QueryExpr, accuracy: AccuracyTarget) -> (r: Result<
    SketchExpr,
    BindingError,
>)
    ensures
        r matches Ok(b) && is_bound(b@, expr@, accuracy),
{
    Ok(bind_recursive(expr, &accuracy))
}

// ── Laws ──────────────────────────────────────────────────────────────────────

/// Whether a plan holds no sketch.
pub open spec fn sketch_free(e: SketchView) -> bool
    decreases e,
{
    match e {
        SketchView::Logical(_) => true,
        SketchView::Ref { .. } => true,
        SketchView::LetBinding { expr, child, .. } => sketch_free(*expr) && sketch_free(*child),
        _ => false,
    }
}

/// A plan with its sketches taken out again.
pub open spec fn unbound(e: SketchView) -> Option<IntentView>
    decreases e,
{
    match e {
        SketchView::Logical(q) => Some(q),
        SketchView::Ref { name } => Some(IntentView::Ref { name }),
        SketchView::LetBinding { name, expr, child } => match (unbound(*expr), unbound(*child)) {
            (Some(x), Some(c)) => Some(
                IntentView::LetBinding { name, expr: Box::new(x), child: Box::new(c) },
            ),
            _ => None,
        },
        _ => None,
    }
}

/// Where an exact answer is asked for no sketch is bound, and the plan is the
/// tree as it was.
pub proof fn law_exact_binds_nothing(e: IntentView)
    ensures
        sketch_free(bound_tree(e, AccuracyTarget::Exact)),
        unbound(bound_tree(e, AccuracyTarget::Exact)) == Some(e),
    decreases e,
{
    match e {
        IntentView::LetBinding { expr, child, .. } => {
            law_exact_binds_nothing(*expr);
            law_exact_binds_nothing(*child);
        },
        _ => {},
    }
}

} // verus!
