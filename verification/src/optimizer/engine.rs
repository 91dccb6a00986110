//! Fixed-point query optimizer.
//!
//! A rule is a function from an expression to its rewritten form, or to
//! nothing where it does not apply. The optimizer visits every node, children
//! first, fires at most one rule there, and repeats until a whole pass fires
//! none or the iteration limit is reached.
use vstd::prelude::*;
use vstd::string::*;

use crate::algebra::expr;
use crate::algebra::expr::{
    clone_query, QueryExpr, QueryView, ScalarExpr, ScalarView, SetOpKind, SortKeyView, SourceSpec,
};
use crate::decimal::Decimal;
use crate::intent_algebra::agg_intent::{agg_is_mergeable, AggIntent};
use crate::optimizer::cost;
use crate::optimizer::cost::{CostModel, DefaultCostModel, DeploymentConstraints};
use crate::optimizer::trait_def;
use crate::optimizer::trait_def::{OptimizerRule, RuleCategory, RuleInfo};
use crate::text;

verus! {

// ── Rules ─────────────────────────────────────────────────────────────────────

/// A single algebraic rewrite rule.
pub trait RewriteRule: Send + Sync {
    /// The name of the rule.
    spec fn rule_name(&self) -> Seq<char>;

    /// What the rule makes of an expression under a cost model; `None` where it
    /// does not apply.
    spec fn rewrite(&self, e: QueryView, model: &Box<dyn CostModel>) -> Option<QueryView>;

    /// Human-readable name for logging.
    fn name(&self) -> (r: &'static str)
        ensures
            r@ == self.rule_name(),
    ;

    /// Try to rewrite `expr`: `Some` of the new expression if the rule fired.
    fn try_rewrite(&self, expr: QueryExpr, model: &Box<dyn CostModel>) -> (r: Option<QueryExpr>)
        ensures
            match r {
                Some(e) => self.rewrite(expr@, model) == Some(e@),
                None => self.rewrite(expr@, model) is None,
            },
    ;
}

/// Push `Filter` nodes as deep as possible, below `Window`, `Partition`, `Sort`
/// and `Limit`.
#[derive(Clone, Copy, Debug)]
pub struct PredicatePushDown;

impl RewriteRule for PredicatePushDown {
    open spec fn rule_name(&self) -> Seq<char> {
        "PredicatePushDown"@
    }

    open spec fn rewrite(&self, e: QueryView, _model: &Box<dyn CostModel>) -> Option<QueryView> {
        match e {
            QueryView::Filter { pred, input } => match *input {
                QueryView::Window { duration, slide, input: inner } => Some(
                    QueryView::Window {
                        duration,
                        slide,
                        input: Box::new(QueryView::Filter { pred, input: inner }),
                    },
                ),
                QueryView::Partition { keys, input: inner } => Some(
                    QueryView::Partition {
                        keys,
                        input: Box::new(QueryView::Filter { pred, input: inner }),
                    },
                ),
                QueryView::Sort { keys, input: inner } => Some(
                    QueryView::Sort {
                        keys,
                        input: Box::new(QueryView::Filter { pred, input: inner }),
                    },
                ),
                QueryView::Limit { n, offset, input: inner } => Some(
                    QueryView::Limit {
                        n,
                        offset,
                        input: Box::new(QueryView::Filter { pred, input: inner }),
                    },
                ),
                _ => None,
            },
            _ => None,
        }
    }

    fn name(&self) -> &'static str {
        "PredicatePushDown"
    }

    fn try_rewrite(&self, expr: QueryExpr, _model: &Box<dyn CostModel>) -> Option<QueryExpr> {
        proof {
            reveal_with_fuel(expr::query_view, 2);
        }
        match expr {
            QueryExpr::Filter { pred, input } => {
                match *input {
                    QueryExpr::Window { duration, slide, input: inner } => Some(
                        QueryExpr::Window {
                            duration,
                            slide,
                            input: Box::new(QueryExpr::Filter { pred, input: inner }),
                        },
                    ),
                    QueryExpr::Partition { keys, input: inner } => Some(
                        QueryExpr::Partition {
                            keys,
                            input: Box::new(QueryExpr::Filter { pred, input: inner }),
                        },
                    ),
                    QueryExpr::Sort { keys, input: inner } => Some(
                        QueryExpr::Sort {
                            keys,
                            input: Box::new(QueryExpr::Filter { pred, input: inner }),
                        },
                    ),
                    QueryExpr::Limit { n, offset, input: inner } => Some(
                        QueryExpr::Limit {
                            n,
                            offset,
                            input: Box::new(QueryExpr::Filter { pred, input: inner }),
                        },
                    ),
                    _ => None,
                }
            },
            _ => None,
        }
    }
}

/// Lift mergeable sketch aggregations above `Merge`: aggregate each branch,
/// then merge. Aggregations that do not distribute over a union stay.
#[derive(Clone, Copy, Debug)]
pub struct MergeLifting;

impl RewriteRule for MergeLifting {
    open spec fn rule_name(&self) -> Seq<char> {
        "MergeLifting"@
    }

    open spec fn rewrite(&self, e: QueryView, _model: &Box<dyn CostModel>) -> Option<QueryView> {
        match e {
            QueryView::SketchAgg { op, col, input } => match *input {
                QueryView::Merge { inputs } => if op.mergeable() {
                    Some(
                        QueryView::Merge {
                            inputs: Seq::new(
                                inputs.len(),
                                |i: int| QueryView::SketchAgg { op, col, input: Box::new(inputs[i]) },
                            ),
                        },
                    )
                } else {
                    None
                },
                _ => None,
            },
            _ => None,
        }
    }

    fn name(&self) -> &'static str {
        "MergeLifting"
    }

    fn try_rewrite(&self, expr: QueryExpr, _model: &Box<dyn CostModel>) -> Option<QueryExpr> {
        broadcast use expr::group_list_views;

        proof {
            reveal_with_fuel(expr::query_view, 2);
        }
        match &expr {
            QueryExpr::SketchAgg { op, col, input } => {
                if !agg_is_mergeable(op) {
                    return None;
                }
                match &**input {
                    QueryExpr::Merge { inputs } => {
                        let mut out: Vec<QueryExpr> = Vec::new();
                        for i in 0..inputs.len()
                            invariant
                                out@.len() == i,
                                forall|j: int|
                                    0 <= j < i ==> expr::query_view(#[trigger] out@[j])
                                        == (QueryView::SketchAgg {
                                        op: *op,
                                        col: col@,
                                        input: Box::new(expr::query_view(inputs@[j])),
                                    }),
                        {
                            out.push(
                                QueryExpr::SketchAgg {
                                    op: *op,
                                    col: col.clone(),
                                    input: Box::new(clone_query(&inputs[i])),
                                },
                            );
                        }
                        let ghost lifted = Seq::new(
                            inputs@.len(),
                            |i: int|
                                QueryView::SketchAgg {
                                    op: *op,
                                    col: col@,
                                    input: Box::new(expr::queries_view(inputs@)[i]),
                                },
                        );
                        assert(expr::queries_view(out@) =~= lifted);
                        Some(QueryExpr::Merge { inputs: out })
                    },
                    _ => None,
                }
            },
            _ => None,
        }
    }
}

/// Eliminate `Distinct` right before a distinct count, which ignores
/// duplicates by itself.
#[derive(Clone, Copy, Debug)]
pub struct HLLDedupElim;

impl RewriteRule for HLLDedupElim {
    open spec fn rule_name(&self) -> Seq<char> {
        "HLLDedupElim"@
    }

    open spec fn rewrite(&self, e: QueryView, _model: &Box<dyn CostModel>) -> Option<QueryView> {
        match e {
            QueryView::SketchAgg { op, col, input } => match (op, *input) {
                (
                    AggIntent::Cardinality { .. },
                    QueryView::Distinct { cols, input: inner },
                ) => Some(QueryView::SketchAgg { op, col, input: inner }),
                _ => None,
            },
            _ => None,
        }
    }

    fn name(&self) -> &'static str {
        "HLLDedupElim"
    }

    fn try_rewrite(&self, expr: QueryExpr, _model: &Box<dyn CostModel>) -> Option<QueryExpr> {
        proof {
            reveal_with_fuel(expr::query_view, 2);
        }
        match expr {
            QueryExpr::SketchAgg { op, col, input } => match op {
                AggIntent::Cardinality { accuracy } => match *input {
                    QueryExpr::Distinct { cols: _, input: inner } => Some(
                        QueryExpr::SketchAgg {
                            op: AggIntent::Cardinality { accuracy },
                            col,
                            input: inner,
                        },
                    ),
                    _ => None,
                },
                _ => None,
            },
            _ => None,
        }
    }
}

/// Push `Filter` below `Window`.
#[derive(Clone, Copy, Debug)]
pub struct FilterWindowSwap;

impl RewriteRule for FilterWindowSwap {
    open spec fn rule_name(&self) -> Seq<char> {
        "FilterWindowSwap"@
    }

    open spec fn rewrite(&self, e: QueryView, _model: &Box<dyn CostModel>) -> Option<QueryView> {
        match e {
            QueryView::Filter { pred, input } => match *input {
                QueryView::Window { duration, slide, input: inner } => Some(
                    QueryView::Window {
                        duration,
                        slide,
                        input: Box::new(QueryView::Filter { pred, input: inner }),
                    },
                ),
                _ => None,
            },
            _ => None,
        }
    }

    fn name(&self) -> &'static str {
        "FilterWindowSwap"
    }

    fn try_rewrite(&self, expr: QueryExpr, _model: &Box<dyn CostModel>) -> Option<QueryExpr> {
        proof {
            reveal_with_fuel(expr::query_view, 2);
        }
        match expr {
            QueryExpr::Filter { pred, input } => match *input {
                QueryExpr::Window { duration, slide, input: inner } => Some(
                    QueryExpr::Window {
                        duration,
                        slide,
                        input: Box::new(QueryExpr::Filter { pred, input: inner }),
                    },
                ),
                _ => None,
            },
            _ => None,
        }
    }
}

/// The columns of a list of sort keys.
pub open spec fn sort_columns(keys: Seq<SortKeyView>) -> Seq<Seq<char>> {
    Seq::new(keys.len(), |i: int| keys[i].col)
}

/// Fuse `Limit(n, Sort(keys, e))`, all keys descending, and `Limit(n, TopK(_,
/// keys, e))`, both without offset, into `TopK(n, keys, e)`.
#[derive(Clone, Copy, Debug)]
pub struct TopKFusion;

impl RewriteRule for TopKFusion {
    open spec fn rule_name(&self) -> Seq<char> {
        "TopKFusion"@
    }

    open spec fn rewrite(&self, e: QueryView, _model: &Box<dyn CostModel>) -> Option<QueryView> {
        match e {
            QueryView::Limit { n, offset, input } => match *input {
                QueryView::Sort { keys, input: inner } => if offset == 0 && (forall|i: int|
                    0 <= i < keys.len() ==> (#[trigger] keys[i]).desc) {
                    Some(QueryView::TopK { k: n, by: sort_columns(keys), input: inner })
                } else {
                    None
                },
                QueryView::TopK { by, input: inner, .. } => if offset == 0 {
                    Some(QueryView::TopK { k: n, by, input: inner })
                } else {
                    None
                },
                _ => None,
            },
            _ => None,
        }
    }

    fn name(&self) -> &'static str {
        "TopKFusion"
    }

    fn try_rewrite(&self, expr: QueryExpr, _model: &Box<dyn CostModel>) -> Option<QueryExpr> {
        proof {
            reveal_with_fuel(expr::query_view, 2);
        }
        match expr {
            QueryExpr::Limit { n, offset, input } => match *input {
                QueryExpr::Sort { keys, input: inner } => {
                    if offset != 0 {
                        return None;
                    }
                    let ghost shown = expr::sort_keys_view(keys@);
                    let mut by: Vec<String> = Vec::new();
                    for i in 0..keys.len()
                        invariant
                            shown == expr::sort_keys_view(keys@),
                            offset == 0,
                            expr@ == (QueryView::Limit {
                                n,
                                offset,
                                input: Box::new(
                                    QueryView::Sort {
                                        keys: shown,
                                        input: Box::new(expr::query_view(*inner)),
                                    },
                                ),
                            }),
                            forall|j: int| 0 <= j < i ==> (#[trigger] shown[j]).desc,
                            by@.len() == i,
                            forall|j: int| 0 <= j < i ==> (#[trigger] by@[j])@ == shown[j].col,
                    {
                        if !keys[i].desc {
                            assert(!shown[i as int].desc);
                            return None;
                        }
                        by.push(keys[i].col.clone());
                    }
                    assert(text::texts(by@) =~= sort_columns(shown));
                    Some(QueryExpr::TopK { k: n, by, input: inner })
                },
                QueryExpr::TopK { by, input: inner, .. } => {
                    if offset == 0 {
                        Some(QueryExpr::TopK { k: n, by, input: inner })
                    } else {
                        None
                    }
                },
                _ => None,
            },
            _ => None,
        }
    }
}

/// Ranks that differ by no more than this many units are the same rank: the
/// distance between one and the next larger double, rounded down.
pub const RANK_TOLERANCE: i128 = 222;

/// Whether two ranks are the same.
pub open spec fn ranks_match(a: Decimal, b: Decimal) -> bool {
    -RANK_TOLERANCE <= a.units - b.units <= RANK_TOLERANCE
}

/// Whether two ranks are the same.
pub fn same_rank(a: Decimal, b: Decimal) -> (r: bool)
    ensures
        r == ranks_match(a, b),
{
    match a.units.checked_sub(b.units) {
        Some(d) => -RANK_TOLERANCE <= d && d <= RANK_TOLERANCE,
        None => false,
    }
}

/// Make sure that the quantile of a `HistogramQuantile` over a quantile sketch
/// is one that the sketch is built for: where the ranks differ, merge a sketch
/// for the wanted rank with the one that is there; where they match, the node
/// is recognised and stays as it is.
#[derive(Clone, Copy, Debug)]
pub struct HistogramQuantileFusion;

impl RewriteRule for HistogramQuantileFusion {
    open spec fn rule_name(&self) -> Seq<char> {
        "HistogramQuantileFusion"@
    }

    open spec fn rewrite(&self, e: QueryView, _model: &Box<dyn CostModel>) -> Option<QueryView> {
        match e {
            QueryView::HistogramQuantile { phi, input } => match *input {
                QueryView::SketchAgg { op, col, input: inner } => match op {
                    AggIntent::Quantile { q, accuracy } => if ranks_match(q, phi) {
                        Some(e)
                    } else {
                        Some(
                            QueryView::HistogramQuantile {
                                phi,
                                input: Box::new(
                                    QueryView::Merge {
                                        inputs: seq![
                                            QueryView::SketchAgg {
                                                op: AggIntent::Quantile { q: phi, accuracy },
                                                col,
                                                input: inner,
                                            },
                                            *input,
                                        ],
                                    },
                                ),
                            },
                        )
                    },
                    _ => None,
                },
                _ => None,
            },
            _ => None,
        }
    }

    fn name(&self) -> &'static str {
        "HistogramQuantileFusion"
    }

    fn try_rewrite(&self, expr: QueryExpr, _model: &Box<dyn CostModel>) -> Option<QueryExpr> {
        broadcast use expr::group_list_views;

        proof {
            reveal_with_fuel(expr::query_view, 2);
        }
        match expr {
            QueryExpr::HistogramQuantile { phi, input } => {
                let wanted: Option<QueryExpr> = match &*input {
                    QueryExpr::SketchAgg { op, col, input: inner } => match op {
                        AggIntent::Quantile { q, accuracy } => if same_rank(*q, phi) {
                            None
                        } else {
                            Some(
                                QueryExpr::SketchAgg {
                                    op: AggIntent::Quantile { q: phi, accuracy: *accuracy },
                                    col: col.clone(),
                                    input: Box::new(clone_query(inner)),
                                },
                            )
                        },
                        _ => {
                            return None;
                        },
                    },
                    _ => {
                        return None;
                    },
                };
                match wanted {
                    None => Some(QueryExpr::HistogramQuantile { phi, input }),
                    Some(new_q) => {
                        let old_q = *input;
                        let ghost pair = seq![new_q@, old_q@];
                        let mut inputs: Vec<QueryExpr> = Vec::new();
                        inputs.push(new_q);
                        inputs.push(old_q);
                        assert(expr::queries_view(inputs@) =~= pair);
                        Some(
                            QueryExpr::HistogramQuantile {
                                phi,
                                input: Box::new(QueryExpr::Merge { inputs }),
                            },
                        )
                    },
                }
            },
            _ => None,
        }
    }
}

/// The name that a hoisted subquery is bound to.
pub open spec fn subquery_name() -> Seq<char> {
    "__subq_0"@
}

/// Whether a scalar expression contains a subquery.
pub open spec fn has_subquery(e: ScalarView) -> bool
    decreases e,
{
    match e {
        ScalarView::Column(_) | ScalarView::Literal(_) => false,
        ScalarView::BinaryOp { lhs, rhs, .. } => has_subquery(*lhs) || has_subquery(*rhs),
        ScalarView::IsNull { expr, .. } => has_subquery(*expr),
        ScalarView::Between { expr, low, high, .. } => has_subquery(*expr) || has_subquery(*low)
            || has_subquery(*high),
        ScalarView::InList { expr, list, .. } => has_subquery(*expr) || any_subquery(list),
        ScalarView::FunctionCall { args, .. } => any_subquery(args),
        ScalarView::ScalarSubquery(_) => true,
    }
}

/// Whether a scalar expression of a list contains a subquery.
pub open spec fn any_subquery(s: Seq<ScalarView>) -> bool
    decreases s,
{
    exists|i: int| 0 <= i < s.len() && has_subquery(#[trigger] s[i])
}

/// The leftmost subquery that a scalar expression contains, and the expression
/// with a reference in its place.
pub open spec fn hoisted_subquery(e: ScalarView) -> Option<(QueryView, ScalarView)>
    decreases e,
{
    match e {
        ScalarView::Column(_) | ScalarView::Literal(_) => None,
        ScalarView::BinaryOp { op, lhs, rhs } => match hoisted_subquery(*lhs) {
            Some((q, x)) => Some((q, ScalarView::BinaryOp { op, lhs: Box::new(x), rhs })),
            None => match hoisted_subquery(*rhs) {
                Some((q, x)) => Some((q, ScalarView::BinaryOp { op, lhs, rhs: Box::new(x) })),
                None => None,
            },
        },
        ScalarView::IsNull { expr, negated } => match hoisted_subquery(*expr) {
            Some((q, x)) => Some((q, ScalarView::IsNull { expr: Box::new(x), negated })),
            None => None,
        },
        ScalarView::Between { expr, low, high, negated } => match hoisted_subquery(*expr) {
            Some((q, x)) => Some(
                (q, ScalarView::Between { expr: Box::new(x), low, high, negated }),
            ),
            None => match hoisted_subquery(*low) {
                Some((q, x)) => Some(
                    (q, ScalarView::Between { expr, low: Box::new(x), high, negated }),
                ),
                None => match hoisted_subquery(*high) {
                    Some((q, x)) => Some(
                        (q, ScalarView::Between { expr, low, high: Box::new(x), negated }),
                    ),
                    None => None,
                },
            },
        },
        ScalarView::InList { expr, list, negated } => match hoisted_subquery(*expr) {
            Some((q, x)) => Some((q, ScalarView::InList { expr: Box::new(x), list, negated })),
            None => match hoisted_among(list) {
                Some((q, l)) => Some((q, ScalarView::InList { expr, list: l, negated })),
                None => None,
            },
        },
        ScalarView::FunctionCall { name, args } => match hoisted_among(args) {
            Some((q, l)) => Some((q, ScalarView::FunctionCall { name, args: l })),
            None => None,
        },
        ScalarView::ScalarSubquery(q) => Some((*q, ScalarView::Column(subquery_name()))),
    }
}

/// The leftmost subquery in a list of scalar expressions, and the list with a
/// reference in its place.
pub open spec fn hoisted_among(s: Seq<ScalarView>) -> Option<(QueryView, Seq<ScalarView>)>
    decreases s,
{
    if s.len() == 0 {
        None
    } else {
        let init = s.subrange(0, s.len() - 1);
        let last = s[s.len() - 1];
        match hoisted_among(init) {
            Some((q, t)) => Some((q, t.push(last))),
            None => match hoisted_subquery(last) {
                Some((q, x)) => Some((q, init.push(x))),
                None => None,
            },
        }
    }
}

/// Whether a scalar expression reads a column.
pub open spec fn mentions(e: ScalarView, name: Seq<char>) -> bool
    decreases e,
{
    match e {
        ScalarView::Column(c) => c == name,
        ScalarView::Literal(_) | ScalarView::ScalarSubquery(_) => false,
        ScalarView::BinaryOp { lhs, rhs, .. } => mentions(*lhs, name) || mentions(*rhs, name),
        ScalarView::IsNull { expr, .. } => mentions(*expr, name),
        ScalarView::Between { expr, low, high, .. } => mentions(*expr, name) || mentions(
            *low,
            name,
        ) || mentions(*high, name),
        ScalarView::InList { expr, list, .. } => mentions(*expr, name) || any_mentions(list, name),
        ScalarView::FunctionCall { args, .. } => any_mentions(args, name),
    }
}

/// Whether a scalar expression of a list reads a column.
pub open spec fn any_mentions(s: Seq<ScalarView>, name: Seq<char>) -> bool
    decreases s,
{
    exists|i: int| 0 <= i < s.len() && mentions(#[trigger] s[i], name)
}

/// A scalar expression with a subquery in place of a column.
pub open spec fn restored(e: ScalarView, name: Seq<char>, q: QueryView) -> ScalarView
    decreases e,
{
    match e {
        ScalarView::Column(c) => if c == name {
            ScalarView::ScalarSubquery(Box::new(q))
        } else {
            e
        },
        ScalarView::Literal(_) | ScalarView::ScalarSubquery(_) => e,
        ScalarView::BinaryOp { op, lhs, rhs } => ScalarView::BinaryOp {
            op,
            lhs: Box::new(restored(*lhs, name, q)),
            rhs: Box::new(restored(*rhs, name, q)),
        },
        ScalarView::IsNull { expr, negated } => ScalarView::IsNull {
            expr: Box::new(restored(*expr, name, q)),
            negated,
        },
        ScalarView::Between { expr, low, high, negated } => ScalarView::Between {
            expr: Box::new(restored(*expr, name, q)),
            low: Box::new(restored(*low, name, q)),
            high: Box::new(restored(*high, name, q)),
            negated,
        },
        ScalarView::InList { expr, list, negated } => ScalarView::InList {
            expr: Box::new(restored(*expr, name, q)),
            list: restored_each(list, name, q),
            negated,
        },
        ScalarView::FunctionCall { name: f, args } => ScalarView::FunctionCall {
            name: f,
            args: restored_each(args, name, q),
        },
    }
}

/// Scalar expressions with a subquery in place of a column.
pub open spec fn restored_each(s: Seq<ScalarView>, name: Seq<char>, q: QueryView) -> Seq<ScalarView>
    decreases s,
{
    Seq::new(
        s.len(),
        |i: int|
            if 0 <= i < s.len() {
                restored(s[i], name, q)
            } else {
                arbitrary()
            },
    )
}

/// An expression that does not read a column stays as it is when a subquery is
/// put in place of the column.
proof fn lemma_restored_same(e: ScalarView, name: Seq<char>, q: QueryView)
    requires
        !mentions(e, name),
    ensures
        restored(e, name, q) == e,
    decreases e,
{
    match e {
        ScalarView::Column(_) | ScalarView::Literal(_) | ScalarView::ScalarSubquery(_) => {},
        ScalarView::BinaryOp { lhs, rhs, .. } => {
            lemma_restored_same(*lhs, name, q);
            lemma_restored_same(*rhs, name, q);
        },
        ScalarView::IsNull { expr, .. } => {
            lemma_restored_same(*expr, name, q);
        },
        ScalarView::Between { expr, low, high, .. } => {
            lemma_restored_same(*expr, name, q);
            lemma_restored_same(*low, name, q);
            lemma_restored_same(*high, name, q);
        },
        ScalarView::InList { expr, list, .. } => {
            lemma_restored_same(*expr, name, q);
            lemma_each_restored_same(list, name, q);
        },
        ScalarView::FunctionCall { args, .. } => {
            lemma_each_restored_same(args, name, q);
        },
    }
}

proof fn lemma_each_restored_same(s: Seq<ScalarView>, name: Seq<char>, q: QueryView)
    requires
        !any_mentions(s, name),
    ensures
        restored_each(s, name, q) == s,
    decreases s,
{
    assert forall|i: int| 0 <= i < s.len() implies restored(#[trigger] s[i], name, q) == s[i] by {
        lemma_restored_same(s[i], name, q);
    }
    assert(restored_each(s, name, q) =~= s);
}

/// A subquery is found exactly where there is one, the left operand before the
/// right; and putting it back in place of the reference undoes the step, where
/// the expression did not read a column of the reference's name before.
pub proof fn law_hoisting_undone(e: ScalarView)
    ensures
        hoisted_subquery(e) is Some <==> has_subquery(e),
        match hoisted_subquery(e) {
            Some((q, p)) => !mentions(e, subquery_name()) ==> restored(p, subquery_name(), q) == e,
            None => true,
        },
        match e {
            ScalarView::BinaryOp { lhs, .. } => match (hoisted_subquery(*lhs), hoisted_subquery(e)) {
                (Some((left, _)), Some((q, _))) => q == left,
                (Some(_), None) => false,
                (None, _) => true,
            },
            _ => true,
        },
    decreases e,
{
    let name = subquery_name();
    match e {
        ScalarView::Column(_) | ScalarView::Literal(_) => {},
        ScalarView::ScalarSubquery(q) => {
            assert(restored(ScalarView::Column(name), name, *q) == e);
        },
        ScalarView::BinaryOp { lhs, rhs, .. } => {
            law_hoisting_undone(*lhs);
            law_hoisting_undone(*rhs);
            if let Some((q, _)) = hoisted_subquery(e) {
                if !mentions(e, name) {
                    lemma_restored_same(*lhs, name, q);
                    lemma_restored_same(*rhs, name, q);
                }
            }
        },
        ScalarView::IsNull { expr, .. } => {
            law_hoisting_undone(*expr);
        },
        ScalarView::Between { expr, low, high, .. } => {
            law_hoisting_undone(*expr);
            law_hoisting_undone(*low);
            law_hoisting_undone(*high);
            if let Some((q, _)) = hoisted_subquery(e) {
                if !mentions(e, name) {
                    lemma_restored_same(*expr, name, q);
                    lemma_restored_same(*low, name, q);
                    lemma_restored_same(*high, name, q);
                }
            }
        },
        ScalarView::InList { expr, list, .. } => {
            law_hoisting_undone(*expr);
            lemma_among_undone(list);
            if let Some((q, _)) = hoisted_subquery(e) {
                if !mentions(e, name) {
                    lemma_restored_same(*expr, name, q);
                    lemma_each_restored_same(list, name, q);
                }
            }
        },
        ScalarView::FunctionCall { args, .. } => {
            lemma_among_undone(args);
        },
    }
}

proof fn lemma_among_undone(s: Seq<ScalarView>)
    ensures
        hoisted_among(s) is Some <==> any_subquery(s),
        match hoisted_among(s) {
            Some((q, t)) => t.len() == s.len() && (!any_mentions(s, subquery_name())
                ==> restored_each(t, subquery_name(), q) == s),
            None => true,
        },
    decreases s,
{
    let name = subquery_name();
    if s.len() > 0 {
        let init = s.subrange(0, s.len() - 1);
        let last = s[s.len() - 1];
        lemma_among_undone(init);
        law_hoisting_undone(last);
        assert(any_subquery(s) <==> any_subquery(init) || has_subquery(last)) by {
            if any_subquery(init) {
                let i = choose|i: int| 0 <= i < init.len() && has_subquery(#[trigger] init[i]);
                assert(has_subquery(s[i]));
            }
            if any_subquery(s) && !has_subquery(last) {
                let i = choose|i: int| 0 <= i < s.len() && has_subquery(#[trigger] s[i]);
                assert(has_subquery(init[i]));
            }
        }
        if let Some((q, t)) = hoisted_among(s) {
            if !any_mentions(s, name) {
                assert(!mentions(s[s.len() - 1], name));
                assert(!any_mentions(init, name)) by {
                    assert forall|i: int| 0 <= i < init.len() implies !mentions(
                        #[trigger] init[i],
                        name,
                    ) by {
                        assert(!mentions(s[i], name));
                    }
                }
                lemma_each_restored_same(init, name, q);
                lemma_restored_same(last, name, q);
                assert forall|i: int| 0 <= i < s.len() implies restored(
                    #[trigger] t[i],
                    name,
                    q,
                ) == s[i] by {
                    if i < init.len() {
                        assert(init[i] == s[i]);
                        match hoisted_among(init) {
                            Some((_, u)) => {
                                assert(t[i] == u[i]);
                                assert(restored_each(u, name, q)[i] == restored(u[i], name, q));
                            },
                            None => {
                                assert(t[i] == init[i]);
                                assert(restored_each(init, name, q)[i] == restored(
                                    init[i],
                                    name,
                                    q,
                                ));
                            },
                        }
                    }
                }
                assert(restored_each(t, name, q) =~= s);
            }
        }
    }
}

/// Whether a step took out what [`hoisted_subquery`] says.
pub open spec fn took(
    found: Option<QueryExpr>,
    rest: ScalarView,
    e: ScalarView,
) -> bool {
    match hoisted_subquery(e) {
        Some((q, p)) => found is Some && found->0@ == q && rest == p,
        None => found is None && rest == e,
    }
}

/// Whether a step took out what [`hoisted_among`] says.
pub open spec fn took_among(
    found: Option<QueryExpr>,
    rest: Seq<ScalarView>,
    s: Seq<ScalarView>,
) -> bool {
    match hoisted_among(s) {
        Some((q, t)) => found is Some && found->0@ == q && rest == t,
        None => found is None && rest == s,
    }
}

/// Take the leftmost subquery out of a list of scalar expressions.
fn hoist_among(list: Vec<ScalarExpr>) -> (r: (Option<QueryExpr>, Vec<ScalarExpr>))
    ensures
        took_among(r.0, expr::scalars_view(r.1@), expr::scalars_view(list@)),
    decreases list, 0int,
{
    broadcast use expr::group_list_views;

    let ghost all = list;
    let ghost shown = expr::scalars_view(list@);
    let mut found: Option<QueryExpr> = None;
    let mut out: Vec<ScalarExpr> = Vec::new();
    assert(expr::scalars_view(out@) =~= shown.subrange(0, 0));
    for item in it: list
        invariant
            it.seq() == all@,
            shown == expr::scalars_view(all@),
            out@.len() == it.index(),
            took_among(found, expr::scalars_view(out@), shown.subrange(0, it.index() as int)),
    {
        broadcast use expr::group_list_views;
        broadcast use vstd::std_specs::vec::axiom_vec_index_decreases;

        let ghost k = it.index() as int;
        assert(decreases_to!(all => all[k]));
        let ghost seen = shown.subrange(0, k + 1);
        assert(seen.subrange(0, seen.len() - 1) =~= shown.subrange(0, k));
        assert(seen[seen.len() - 1] == item@);
        let ghost before = expr::scalars_view(out@);
        if found.is_some() {
            out.push(item);
            assert(expr::scalars_view(out@) =~= before.push(item@));
        } else {
            let (q, x) = hoist(item);
            found = q;
            let ghost put = x@;
            out.push(x);
            assert(expr::scalars_view(out@) =~= before.push(put));
            assert(shown.subrange(0, k).push(item@) =~= seen);
        }
    }
    assert(shown.subrange(0, shown.len() as int) =~= shown);
    (found, out)
}

/// Take the leftmost subquery out of a scalar expression.
fn hoist(e: ScalarExpr) -> (r: (Option<QueryExpr>, ScalarExpr))
    ensures
        took(r.0, r.1@, e@),
    decreases e, 1int,
{
    match e {
        ScalarExpr::Column(c) => (None, ScalarExpr::Column(c)),
        ScalarExpr::Literal(v) => (None, ScalarExpr::Literal(v)),
        ScalarExpr::BinaryOp { op, lhs, rhs } => {
            let (q, l) = hoist(*lhs);
            if q.is_some() {
                (q, ScalarExpr::BinaryOp { op, lhs: Box::new(l), rhs })
            } else {
                let (q, x) = hoist(*rhs);
                (q, ScalarExpr::BinaryOp { op, lhs: Box::new(l), rhs: Box::new(x) })
            }
        },
        ScalarExpr::IsNull { expr, negated } => {
            let (q, x) = hoist(*expr);
            (q, ScalarExpr::IsNull { expr: Box::new(x), negated })
        },
        ScalarExpr::Between { expr, low, high, negated } => {
            let (q, x) = hoist(*expr);
            if q.is_some() {
                return (q, ScalarExpr::Between { expr: Box::new(x), low, high, negated });
            }
            let (q, l) = hoist(*low);
            if q.is_some() {
                return (
                    q,
                    ScalarExpr::Between { expr: Box::new(x), low: Box::new(l), high, negated },
                );
            }
            let (q, h) = hoist(*high);
            (
                q,
                ScalarExpr::Between {
                    expr: Box::new(x),
                    low: Box::new(l),
                    high: Box::new(h),
                    negated,
                },
            )
        },
        ScalarExpr::InList { expr, list, negated } => {
            let (q, x) = hoist(*expr);
            if q.is_some() {
                (q, ScalarExpr::InList { expr: Box::new(x), list, negated })
            } else {
                let (q, l) = hoist_among(list);
                (q, ScalarExpr::InList { expr: Box::new(x), list: l, negated })
            }
        },
        ScalarExpr::FunctionCall { name, args } => {
            let (q, l) = hoist_among(args);
            (q, ScalarExpr::FunctionCall { name, args: l })
        },
        ScalarExpr::ScalarSubquery(q) => (
            Some(*q),
            ScalarExpr::Column("__subq_0".to_owned()),
        ),
    }
}

/// If `pred` contains a scalar subquery, take the leftmost one out as
/// `(binding name, subquery, predicate over the binding)`.
pub fn extract_scalar_subquery(pred: ScalarExpr) -> (r: Option<(String, QueryExpr, ScalarExpr)>)
    ensures
        r is None <==> !has_subquery(pred@),
        match r {
            Some((name, q, p)) => name@ == subquery_name() && hoisted_subquery(pred@) == Some(
                (q@, p@),
            ) && (!mentions(pred@, name@) ==> restored(p@, name@, q@) == pred@),
            None => hoisted_subquery(pred@) is None,
        },
{
    proof {
        law_hoisting_undone(pred@);
    }
    let (found, rest) = hoist(pred);
    match found {
        Some(q) => Some(("__subq_0".to_owned(), q, rest)),
        None => None,
    }
}

/// Hoist a scalar subquery out of a filter predicate, so that it is evaluated
/// once rather than once per row.
#[derive(Clone, Copy, Debug)]
pub struct SubqueryDecorrelation;

impl RewriteRule for SubqueryDecorrelation {
    open spec fn rule_name(&self) -> Seq<char> {
        "SubqueryDecorrelation"@
    }

    open spec fn rewrite(&self, e: QueryView, _model: &Box<dyn CostModel>) -> Option<QueryView> {
        match e {
            QueryView::Filter { pred, input } => match hoisted_subquery(pred) {
                Some((q, p)) => Some(
                    QueryView::LetBinding {
                        name: subquery_name(),
                        expr: Box::new(q),
                        body: Box::new(QueryView::Filter { pred: p, input }),
                    },
                ),
                None => None,
            },
            _ => None,
        }
    }

    fn name(&self) -> &'static str {
        "SubqueryDecorrelation"
    }

    fn try_rewrite(&self, expr: QueryExpr, _model: &Box<dyn CostModel>) -> Option<QueryExpr> {
        proof {
            reveal_with_fuel(expr::query_view, 2);
        }
        match expr {
            QueryExpr::Filter { pred, input } => match extract_scalar_subquery(pred) {
                Some((name, sq, new_pred)) => Some(
                    QueryExpr::LetBinding {
                        name,
                        expr: Box::new(sq),
                        body: Box::new(QueryExpr::Filter { pred: new_pred, input }),
                    },
                ),
                None => None,
            },
            _ => None,
        }
    }
}

/// Whether a later input is the bare source `name`.
pub open spec fn source_recurs(inputs: Seq<QueryView>, k: int, name: Seq<char>) -> bool {
    exists|j: int| k < j < inputs.len() && (#[trigger] inputs[j]).source() == Some(name)
}

/// The first bare source from position `k` on that a later input repeats.
pub open spec fn repeated_source(inputs: Seq<QueryView>, k: int) -> Option<Seq<char>>
    decreases inputs.len() - k,
{
    if k < 0 || k >= inputs.len() {
        None
    } else {
        match inputs[k].source() {
            Some(name) => if source_recurs(inputs, k, name) {
                Some(name)
            } else {
                repeated_source(inputs, k + 1)
            },
            None => repeated_source(inputs, k + 1),
        }
    }
}

/// The name that a shared source is bound to.
pub open spec fn shared_name(name: Seq<char>) -> Seq<char> {
    "__cse_"@ + name
}

/// `inputs` with references in place of the bare source `name`.
pub open spec fn share_source(inputs: Seq<QueryView>, name: Seq<char>) -> Seq<QueryView> {
    Seq::new(
        inputs.len(),
        |i: int|
            if inputs[i].source() == Some(name) {
                QueryView::Ref(shared_name(name))
            } else {
                inputs[i]
            },
    )
}

/// Bind a source that occurs in several branches of a `Merge` once, and refer
/// to the binding in each. Of several such sources the first is bound.
#[derive(Clone, Copy, Debug)]
pub struct CommonSubexprElim;

impl RewriteRule for CommonSubexprElim {
    open spec fn rule_name(&self) -> Seq<char> {
        "CommonSubexprElim"@
    }

    open spec fn rewrite(&self, e: QueryView, _model: &Box<dyn CostModel>) -> Option<QueryView> {
        match e {
            QueryView::Merge { inputs } => match repeated_source(inputs, 0) {
                Some(name) => Some(
                    QueryView::LetBinding {
                        name: shared_name(name),
                        expr: Box::new(QueryView::Source(name)),
                        body: Box::new(QueryView::Merge { inputs: share_source(inputs, name) }),
                    },
                ),
                None => None,
            },
            _ => None,
        }
    }

    fn name(&self) -> &'static str {
        "CommonSubexprElim"
    }

    fn try_rewrite(&self, expr: QueryExpr, _model: &Box<dyn CostModel>) -> Option<QueryExpr> {
        broadcast use expr::group_list_views;

        proof {
            reveal_with_fuel(expr::query_view, 2);
        }
        match expr {
            QueryExpr::Merge { inputs } => {
                let ghost shown = expr::queries_view(inputs@);
                let name = match find_repeated_source(&inputs) {
                    Some(n) => n,
                    None => {
                        return None;
                    },
                };
                let mut binding = "__cse_".to_owned();
                binding.append(name.as_str());
                let mut out: Vec<QueryExpr> = Vec::new();
                for i in 0..inputs.len()
                    invariant
                        shown == expr::queries_view(inputs@),
                        binding@ == shared_name(name@),
                        out@.len() == i,
                        forall|j: int|
                            0 <= j < i ==> expr::query_view(#[trigger] out@[j]) == share_source(
                                shown,
                                name@,
                            )[j],
                {
                    broadcast use expr::group_list_views;

                    let shared = match inputs[i].source_name() {
                        Some(n) => text::same(n, name.as_str()),
                        None => false,
                    };
                    assert(shown[i as int] == expr::query_view(inputs@[i as int]));
                    if shared {
                        out.push(QueryExpr::Ref(binding.clone()));
                    } else {
                        out.push(clone_query(&inputs[i]));
                    }
                }
                assert(expr::queries_view(out@) =~= share_source(shown, name@));
                Some(
                    QueryExpr::LetBinding {
                        name: binding,
                        expr: Box::new(QueryExpr::Source(SourceSpec { name })),
                        body: Box::new(QueryExpr::Merge { inputs: out }),
                    },
                )
            },
            _ => None,
        }
    }
}

/// The first bare source that a later input repeats.
fn find_repeated_source(inputs: &Vec<QueryExpr>) -> (r: Option<String>)
    ensures
        match r {
            Some(n) => repeated_source(expr::queries_view(inputs@), 0) == Some(n@),
            None => repeated_source(expr::queries_view(inputs@), 0) is None,
        },
{
    broadcast use expr::group_list_views;

    let ghost shown = expr::queries_view(inputs@);
    for i in 0..inputs.len()
        invariant
            shown == expr::queries_view(inputs@),
            repeated_source(shown, 0) == repeated_source(shown, i as int),
    {
        broadcast use expr::group_list_views;

        assert(shown[i as int] == expr::query_view(inputs@[i as int]));
        match inputs[i].source_name() {
            Some(name) => {
                for j in i + 1..inputs.len()
                    invariant
                        i < inputs@.len(),
                        shown == expr::queries_view(inputs@),
                        repeated_source(shown, 0) == repeated_source(shown, i as int),
                        shown[i as int].source() == Some(name@),
                        forall|k: int| i < k < j ==> (#[trigger] shown[k]).source() != Some(name@),
                {
                    broadcast use expr::group_list_views;

                    assert(shown[j as int] == expr::query_view(inputs@[j as int]));
                    match inputs[j].source_name() {
                        Some(other) => {
                            if text::same(other, name) {
                                assert(source_recurs(shown, i as int, name@));
                                return Some(name.to_owned());
                            }
                        },
                        None => {},
                    }
                }
                assert(!source_recurs(shown, i as int, name@));
            },
            None => {},
        }
    }
    None
}

/// Multi-key partition fusion. An intent has no form for a sketch of sketches,
/// so a partitioned aggregation stays as it is and the rule never fires.
#[derive(Clone, Copy, Debug)]
pub struct HydraConversion;

impl RewriteRule for HydraConversion {
    open spec fn rule_name(&self) -> Seq<char> {
        "HydraConversion"@
    }

    open spec fn rewrite(&self, e: QueryView, _model: &Box<dyn CostModel>) -> Option<QueryView> {
        None
    }

    fn name(&self) -> &'static str {
        "HydraConversion"
    }

    fn try_rewrite(&self, _expr: QueryExpr, _model: &Box<dyn CostModel>) -> Option<QueryExpr> {
        None
    }
}

/// Merge two adjacent `Window` nodes of the same duration and slide into one.
#[derive(Clone, Copy, Debug)]
pub struct WindowMerge;

impl RewriteRule for WindowMerge {
    open spec fn rule_name(&self) -> Seq<char> {
        "WindowMerge"@
    }

    open spec fn rewrite(&self, e: QueryView, _model: &Box<dyn CostModel>) -> Option<QueryView> {
        match e {
            QueryView::Window { duration, slide, input } => match *input {
                QueryView::Window { duration: d, slide: s, input: inner } => if duration == d
                    && slide == s {
                    Some(QueryView::Window { duration, slide, input: inner })
                } else {
                    None
                },
                _ => None,
            },
            _ => None,
        }
    }

    fn name(&self) -> &'static str {
        "WindowMerge"
    }

    fn try_rewrite(&self, expr: QueryExpr, _model: &Box<dyn CostModel>) -> Option<QueryExpr> {
        proof {
            reveal_with_fuel(expr::query_view, 2);
        }
        match expr {
            QueryExpr::Window { duration, slide, input } => match *input {
                QueryExpr::Window { duration: d, slide: s, input: inner } => {
                    let same_slide = match (slide, s) {
                        (Some(a), Some(b)) => a == b,
                        (None, None) => true,
                        _ => false,
                    };
                    if duration == d && same_slide {
                        Some(QueryExpr::Window { duration, slide, input: inner })
                    } else {
                        None
                    }
                },
                _ => None,
            },
            _ => None,
        }
    }
}

/// Remove `Partition` with no keys.
#[derive(Clone, Copy, Debug)]
pub struct PartitionElim;

impl RewriteRule for PartitionElim {
    open spec fn rule_name(&self) -> Seq<char> {
        "PartitionElim"@
    }

    open spec fn rewrite(&self, e: QueryView, _model: &Box<dyn CostModel>) -> Option<QueryView> {
        match e {
            QueryView::Partition { keys, input } => if keys.labels().len() == 0 {
                Some(*input)
            } else {
                None
            },
            _ => None,
        }
    }

    fn name(&self) -> &'static str {
        "PartitionElim"
    }

    fn try_rewrite(&self, expr: QueryExpr, _model: &Box<dyn CostModel>) -> Option<QueryExpr> {
        match expr {
            QueryExpr::Partition { keys, input } => if keys.is_empty() {
                Some(*input)
            } else {
                None
            },
            _ => None,
        }
    }
}

/// Fuse `UNION ALL` of two `Merge` nodes into one `Merge` of all their
/// branches.
#[derive(Clone, Copy, Debug)]
pub struct SetOpFusion;

impl RewriteRule for SetOpFusion {
    open spec fn rule_name(&self) -> Seq<char> {
        "SetOpFusion"@
    }

    open spec fn rewrite(&self, e: QueryView, _model: &Box<dyn CostModel>) -> Option<QueryView> {
        match e {
            QueryView::SetOp { kind, all, left, right } => if kind == SetOpKind::Union && all {
                match (*left, *right) {
                    (QueryView::Merge { inputs: l }, QueryView::Merge { inputs: r }) => Some(
                        QueryView::Merge { inputs: l + r },
                    ),
                    _ => None,
                }
            } else {
                None
            },
            _ => None,
        }
    }

    fn name(&self) -> &'static str {
        "SetOpFusion"
    }

    fn try_rewrite(&self, expr: QueryExpr, _model: &Box<dyn CostModel>) -> Option<QueryExpr> {
        broadcast use expr::group_list_views;

        proof {
            reveal_with_fuel(expr::query_view, 2);
        }
        match expr {
            QueryExpr::SetOp { kind, all, left, right } => {
                if kind != SetOpKind::Union || !all {
                    return None;
                }
                match (*left, *right) {
                    (QueryExpr::Merge { inputs: l }, QueryExpr::Merge { inputs: r }) => {
                        let ghost both = expr::queries_view(l@) + expr::queries_view(r@);
                        let mut joined = l;
                        let mut rest = r;
                        joined.append(&mut rest);
                        assert(expr::queries_view(joined@) =~= both);
                        Some(QueryExpr::Merge { inputs: joined })
                    },
                    _ => None,
                }
            },
            _ => None,
        }
    }
}

// ── Rule sets ─────────────────────────────────────────────────────────────────

/// The rules of the engine.
#[derive(Clone, Copy, Debug, PartialEq, Eq, Structural)]
pub enum EngineRule {
    PredicatePushDown,
    FilterWindowSwap,
    HLLDedupElim,
    WindowMerge,
    PartitionElim,
    TopKFusion,
    HistogramQuantileFusion,
    MergeLifting,
    SetOpFusion,
    HydraConversion,
    SubqueryDecorrelation,
    CommonSubexprElim,
}

impl EngineRule {
    /// The name of the rule.
    pub open spec fn rule_name(self) -> Seq<char> {
        match self {
            EngineRule::PredicatePushDown => PredicatePushDown.rule_name(),
            EngineRule::FilterWindowSwap => FilterWindowSwap.rule_name(),
            EngineRule::HLLDedupElim => HLLDedupElim.rule_name(),
            EngineRule::WindowMerge => WindowMerge.rule_name(),
            EngineRule::PartitionElim => PartitionElim.rule_name(),
            EngineRule::TopKFusion => TopKFusion.rule_name(),
            EngineRule::HistogramQuantileFusion => HistogramQuantileFusion.rule_name(),
            EngineRule::MergeLifting => MergeLifting.rule_name(),
            EngineRule::SetOpFusion => SetOpFusion.rule_name(),
            EngineRule::HydraConversion => HydraConversion.rule_name(),
            EngineRule::SubqueryDecorrelation => SubqueryDecorrelation.rule_name(),
            EngineRule::CommonSubexprElim => CommonSubexprElim.rule_name(),
        }
    }

    /// What the rule makes of an expression; `None` where it does not apply.
    pub open spec fn rewrite(self, e: QueryView, model: &Box<dyn CostModel>) -> Option<QueryView> {
        match self {
            EngineRule::PredicatePushDown => PredicatePushDown.rewrite(e, model),
            EngineRule::FilterWindowSwap => FilterWindowSwap.rewrite(e, model),
            EngineRule::HLLDedupElim => HLLDedupElim.rewrite(e, model),
            EngineRule::WindowMerge => WindowMerge.rewrite(e, model),
            EngineRule::PartitionElim => PartitionElim.rewrite(e, model),
            EngineRule::TopKFusion => TopKFusion.rewrite(e, model),
            EngineRule::HistogramQuantileFusion => HistogramQuantileFusion.rewrite(e, model),
            EngineRule::MergeLifting => MergeLifting.rewrite(e, model),
            EngineRule::SetOpFusion => SetOpFusion.rewrite(e, model),
            EngineRule::HydraConversion => HydraConversion.rewrite(e, model),
            EngineRule::SubqueryDecorrelation => SubqueryDecorrelation.rewrite(e, model),
            EngineRule::CommonSubexprElim => CommonSubexprElim.rewrite(e, model),
        }
    }

    /// The category of the rule.
    pub open spec fn kind(self) -> RuleCategory {
        match self {
            EngineRule::PredicatePushDown => PredicatePushDown.kind(),
            EngineRule::FilterWindowSwap => FilterWindowSwap.kind(),
            EngineRule::HLLDedupElim => HLLDedupElim.kind(),
            EngineRule::WindowMerge => WindowMerge.kind(),
            EngineRule::PartitionElim => PartitionElim.kind(),
            EngineRule::TopKFusion => TopKFusion.kind(),
            EngineRule::HistogramQuantileFusion => HistogramQuantileFusion.kind(),
            EngineRule::MergeLifting => MergeLifting.kind(),
            EngineRule::SetOpFusion => SetOpFusion.kind(),
            EngineRule::HydraConversion => HydraConversion.kind(),
            EngineRule::SubqueryDecorrelation => SubqueryDecorrelation.kind(),
            EngineRule::CommonSubexprElim => CommonSubexprElim.kind(),
        }
    }
}

impl OptimizerRule for PredicatePushDown {
    open spec fn label(&self) -> Seq<char> {
        self.rule_name()
    }

    open spec fn kind(&self) -> RuleCategory {
        RuleCategory::PushDown
    }

    fn name(&self) -> &'static str {
        RewriteRule::name(self)
    }

    fn category(&self) -> RuleCategory {
        RuleCategory::PushDown
    }
}

impl OptimizerRule for FilterWindowSwap {
    open spec fn label(&self) -> Seq<char> {
        self.rule_name()
    }

    open spec fn kind(&self) -> RuleCategory {
        RuleCategory::PushDown
    }

    fn name(&self) -> &'static str {
        RewriteRule::name(self)
    }

    fn category(&self) -> RuleCategory {
        RuleCategory::PushDown
    }
}

impl OptimizerRule for HLLDedupElim {
    open spec fn label(&self) -> Seq<char> {
        self.rule_name()
    }

    open spec fn kind(&self) -> RuleCategory {
        RuleCategory::Elim
    }

    fn name(&self) -> &'static str {
        RewriteRule::name(self)
    }

    fn category(&self) -> RuleCategory {
        RuleCategory::Elim
    }
}

impl OptimizerRule for WindowMerge {
    open spec fn label(&self) -> Seq<char> {
        self.rule_name()
    }

    open spec fn kind(&self) -> RuleCategory {
        RuleCategory::Fusion
    }

    fn name(&self) -> &'static str {
        RewriteRule::name(self)
    }

    fn category(&self) -> RuleCategory {
        RuleCategory::Fusion
    }
}

impl OptimizerRule for PartitionElim {
    open spec fn label(&self) -> Seq<char> {
        self.rule_name()
    }

    open spec fn kind(&self) -> RuleCategory {
        RuleCategory::Elim
    }

    fn name(&self) -> &'static str {
        RewriteRule::name(self)
    }

    fn category(&self) -> RuleCategory {
        RuleCategory::Elim
    }
}

impl OptimizerRule for TopKFusion {
    open spec fn label(&self) -> Seq<char> {
        self.rule_name()
    }

    open spec fn kind(&self) -> RuleCategory {
        RuleCategory::Fusion
    }

    fn name(&self) -> &'static str {
        RewriteRule::name(self)
    }

    fn category(&self) -> RuleCategory {
        RuleCategory::Fusion
    }
}

impl OptimizerRule for HistogramQuantileFusion {
    open spec fn label(&self) -> Seq<char> {
        self.rule_name()
    }

    open spec fn kind(&self) -> RuleCategory {
        RuleCategory::Fusion
    }

    fn name(&self) -> &'static str {
        RewriteRule::name(self)
    }

    fn category(&self) -> RuleCategory {
        RuleCategory::Fusion
    }
}

impl OptimizerRule for MergeLifting {
    open spec fn label(&self) -> Seq<char> {
        self.rule_name()
    }

    open spec fn kind(&self) -> RuleCategory {
        RuleCategory::PushDown
    }

    fn name(&self) -> &'static str {
        RewriteRule::name(self)
    }

    fn category(&self) -> RuleCategory {
        RuleCategory::PushDown
    }
}

impl OptimizerRule for SetOpFusion {
    open spec fn label(&self) -> Seq<char> {
        self.rule_name()
    }

    open spec fn kind(&self) -> RuleCategory {
        RuleCategory::Fusion
    }

    fn name(&self) -> &'static str {
        RewriteRule::name(self)
    }

    fn category(&self) -> RuleCategory {
        RuleCategory::Fusion
    }
}

impl OptimizerRule for HydraConversion {
    open spec fn label(&self) -> Seq<char> {
        self.rule_name()
    }

    open spec fn kind(&self) -> RuleCategory {
        RuleCategory::Fusion
    }

    fn name(&self) -> &'static str {
        RewriteRule::name(self)
    }

    fn category(&self) -> RuleCategory {
        RuleCategory::Fusion
    }
}

impl OptimizerRule for SubqueryDecorrelation {
    open spec fn label(&self) -> Seq<char> {
        self.rule_name()
    }

    open spec fn kind(&self) -> RuleCategory {
        RuleCategory::Decorrelate
    }

    fn name(&self) -> &'static str {
        RewriteRule::name(self)
    }

    fn category(&self) -> RuleCategory {
        RuleCategory::Decorrelate
    }
}

impl OptimizerRule for CommonSubexprElim {
    open spec fn label(&self) -> Seq<char> {
        self.rule_name()
    }

    open spec fn kind(&self) -> RuleCategory {
        RuleCategory::Cse
    }

    fn name(&self) -> &'static str {
        RewriteRule::name(self)
    }

    fn category(&self) -> RuleCategory {
        RuleCategory::Cse
    }
}

/// The rules of the engine in the order in which they are tried.
pub open spec fn default_rule_list() -> Seq<EngineRule> {
    seq![
        EngineRule::PredicatePushDown,
        EngineRule::FilterWindowSwap,
        EngineRule::HLLDedupElim,
        EngineRule::WindowMerge,
        EngineRule::PartitionElim,
        EngineRule::TopKFusion,
        EngineRule::HistogramQuantileFusion,
        EngineRule::MergeLifting,
        EngineRule::SetOpFusion,
        EngineRule::HydraConversion,
        EngineRule::SubqueryDecorrelation,
        EngineRule::CommonSubexprElim,
    ]
}

/// Whether a boxed rule does what `own` does.
pub open spec fn stands_for(rule: &Box<dyn RewriteRule>, own: EngineRule) -> bool {
    &&& rule.rule_name() == own.rule_name()
    &&& forall|e: QueryView, model: &Box<dyn CostModel>| #[trigger]
        rule.rewrite(e, model) == own.rewrite(e, model)
}

/// Whether boxed rules are the rules of the engine, in order.
pub open spec fn is_default_set(rules: Seq<Box<dyn RewriteRule>>) -> bool {
    &&& rules.len() == default_rule_list().len()
    &&& forall|i: int|
        0 <= i < rules.len() ==> stands_for(&#[trigger] rules[i], default_rule_list()[i])
}

/// The default ordered rule set.
fn default_rules() -> (r: Vec<Box<dyn RewriteRule>>)
    ensures
        is_default_set(r@),
{
    let r: Vec<Box<dyn RewriteRule>> = vec![
        Box::new(PredicatePushDown),
        Box::new(FilterWindowSwap),
        Box::new(HLLDedupElim),
        Box::new(WindowMerge),
        Box::new(PartitionElim),
        Box::new(TopKFusion),
        Box::new(HistogramQuantileFusion),
        Box::new(MergeLifting),
        Box::new(SetOpFusion),
        Box::new(HydraConversion),
        Box::new(SubqueryDecorrelation),
        Box::new(CommonSubexprElim),
    ];
    r
}

/// What is known of rules as optimizer rules: name and category.
pub open spec fn default_rule_infos() -> Seq<RuleInfo> {
    Seq::new(
        default_rule_list().len(),
        |i: int|
            RuleInfo {
                name: default_rule_list()[i].rule_name(),
                category: default_rule_list()[i].kind(),
            },
    )
}

/// The default rule set as a list of named and categorised rules.
pub fn default_rules_as_optimizer_rules() -> (r: Vec<Box<dyn OptimizerRule>>)
    ensures
        trait_def::rule_infos(r@) == default_rule_infos(),
{
    let r: Vec<Box<dyn OptimizerRule>> = vec![
        Box::new(PredicatePushDown),
        Box::new(FilterWindowSwap),
        Box::new(HLLDedupElim),
        Box::new(WindowMerge),
        Box::new(PartitionElim),
        Box::new(TopKFusion),
        Box::new(HistogramQuantileFusion),
        Box::new(MergeLifting),
        Box::new(SetOpFusion),
        Box::new(HydraConversion),
        Box::new(SubqueryDecorrelation),
        Box::new(CommonSubexprElim),
    ];
    assert(trait_def::rule_infos(r@) =~= default_rule_infos());
    r
}

// ── Passes ────────────────────────────────────────────────────────────────────

/// Fire the first rule from position `k` on that applies at the node, if any;
/// say whether one did.
pub open spec fn fire_at(
    rules: Seq<Box<dyn RewriteRule>>,
    model: &Box<dyn CostModel>,
    k: int,
    e: QueryView,
) -> (QueryView, bool)
    decreases rules.len() - k,
{
    if k < 0 || k >= rules.len() {
        (e, false)
    } else {
        match rules[k].rewrite(e, model) {
            Some(new_e) => (new_e, true),
            None => fire_at(rules, model, k + 1, e),
        }
    }
}

/// One pass over a tree: the children first, then one rule at the node. Says
/// whether any rule fired.
pub open spec fn pass(
    rules: Seq<Box<dyn RewriteRule>>,
    model: &Box<dyn CostModel>,
    e: QueryView,
) -> (QueryView, bool)
    decreases e, 1int,
{
    let (with_children, child_changed) = pass_children(rules, model, e);
    let (result, this_changed) = fire_at(rules, model, 0, with_children);
    (result, child_changed || this_changed)
}

/// One pass over each tree of a list.
pub open spec fn pass_each(
    rules: Seq<Box<dyn RewriteRule>>,
    model: &Box<dyn CostModel>,
    s: Seq<QueryView>,
) -> Seq<(QueryView, bool)>
    decreases s, 0int,
{
    Seq::new(
        s.len(),
        |i: int|
            if 0 <= i < s.len() {
                pass(rules, model, s[i])
            } else {
                arbitrary()
            },
    )
}

/// One pass over the children of a node.
pub open spec fn pass_children(
    rules: Seq<Box<dyn RewriteRule>>,
    model: &Box<dyn CostModel>,
    e: QueryView,
) -> (QueryView, bool)
    decreases e, 0int,
{
    match e {
        QueryView::Source(_) | QueryView::Ref(_) => (e, false),
        QueryView::Filter { pred, input } => {
            let (x, c) = pass(rules, model, *input);
            (QueryView::Filter { pred, input: Box::new(x) }, c)
        },
        QueryView::Project { cols, input } => {
            let (x, c) = pass(rules, model, *input);
            (QueryView::Project { cols, input: Box::new(x) }, c)
        },
        QueryView::Aggregate { keys, aggs, having, input } => {
            let (x, c) = pass(rules, model, *input);
            (QueryView::Aggregate { keys, aggs, having, input: Box::new(x) }, c)
        },
        QueryView::Window { duration, slide, input } => {
            let (x, c) = pass(rules, model, *input);
            (QueryView::Window { duration, slide, input: Box::new(x) }, c)
        },
        QueryView::SketchAgg { op, col, input } => {
            let (x, c) = pass(rules, model, *input);
            (QueryView::SketchAgg { op, col, input: Box::new(x) }, c)
        },
        QueryView::WindowedAgg { agg, window, col, input } => {
            let (x, c) = pass(rules, model, *input);
            (QueryView::WindowedAgg { agg, window, col, input: Box::new(x) }, c)
        },
        QueryView::Partition { keys, input } => {
            let (x, c) = pass(rules, model, *input);
            (QueryView::Partition { keys, input: Box::new(x) }, c)
        },
        QueryView::Distinct { cols, input } => {
            let (x, c) = pass(rules, model, *input);
            (QueryView::Distinct { cols, input: Box::new(x) }, c)
        },
        QueryView::TopK { k, by, input } => {
            let (x, c) = pass(rules, model, *input);
            (QueryView::TopK { k, by, input: Box::new(x) }, c)
        },
        QueryView::Sort { keys, input } => {
            let (x, c) = pass(rules, model, *input);
            (QueryView::Sort { keys, input: Box::new(x) }, c)
        },
        QueryView::Limit { n, offset, input } => {
            let (x, c) = pass(rules, model, *input);
            (QueryView::Limit { n, offset, input: Box::new(x) }, c)
        },
        QueryView::HistogramQuantile { phi, input } => {
            let (x, c) = pass(rules, model, *input);
            (QueryView::HistogramQuantile { phi, input: Box::new(x) }, c)
        },
        QueryView::PromQLSubquery { range, resolution, input } => {
            let (x, c) = pass(rules, model, *input);
            (QueryView::PromQLSubquery { range, resolution, input: Box::new(x) }, c)
        },
        QueryView::Merge { inputs } => {
            let each = pass_each(rules, model, inputs);
            (
                QueryView::Merge { inputs: Seq::new(each.len(), |i: int| each[i].0) },
                exists|i: int| 0 <= i < each.len() && (#[trigger] each[i]).1,
            )
        },
        QueryView::Join { kind, pred, left, right } => {
            let (x, cx) = pass(rules, model, *left);
            let (y, cy) = pass(rules, model, *right);
            (QueryView::Join { kind, pred, left: Box::new(x), right: Box::new(y) }, cx || cy)
        },
        QueryView::SetOp { kind, all, left, right } => {
            let (x, cx) = pass(rules, model, *left);
            let (y, cy) = pass(rules, model, *right);
            (QueryView::SetOp { kind, all, left: Box::new(x), right: Box::new(y) }, cx || cy)
        },
        QueryView::BinaryOp { op, lhs, rhs, vector_match } => {
            let (x, cx) = pass(rules, model, *lhs);
            let (y, cy) = pass(rules, model, *rhs);
            (QueryView::BinaryOp { op, lhs: Box::new(x), rhs: Box::new(y), vector_match }, cx || cy)
        },
        QueryView::LetBinding { name, expr, body } => {
            let (x, cx) = pass(rules, model, *expr);
            let (y, cy) = pass(rules, model, *body);
            (QueryView::LetBinding { name, expr: Box::new(x), body: Box::new(y) }, cx || cy)
        },
    }
}

/// Passes until one fires no rule, at most `n`: the tree and the number of
/// passes made.
pub open spec fn passes(
    rules: Seq<Box<dyn RewriteRule>>,
    model: &Box<dyn CostModel>,
    e: QueryView,
    n: nat,
) -> (QueryView, nat)
    decreases n,
{
    if n == 0 {
        (e, 0)
    } else {
        let (next, changed) = pass(rules, model, e);
        if changed {
            let (result, more) = passes(rules, model, next, (n - 1) as nat);
            (result, more + 1)
        } else {
            (next, 1)
        }
    }
}

/// Fixed-point query optimizer.
pub struct QueryOptimizer {
    pub rules: Vec<Box<dyn RewriteRule>>,
    pub cost_model: Box<dyn CostModel>,
    /// Maximum number of passes.
    pub max_iters: usize,
}

impl QueryOptimizer {
    /// An optimizer with the default rules, no deployment constraints and 32
    /// passes.
    pub fn new(raw_bytes_per_sec: Decimal) -> (r: QueryOptimizer)
        ensures
            is_default_set(r.rules@),
            cost::stands_for_model(
                &r.cost_model,
                DefaultCostModel { raw_bytes_per_sec, deployment: None },
            ),
            r.max_iters == 32,
    {
        Self::with_cost_model(Box::new(DefaultCostModel { raw_bytes_per_sec, deployment: None }))
    }

    /// An optimizer with the default rules for a constrained deployment.
    pub fn with_constraints(
        raw_bytes_per_sec: Decimal,
        constraints: DeploymentConstraints,
    ) -> (r: QueryOptimizer)
        ensures
            is_default_set(r.rules@),
            cost::stands_for_model(
                &r.cost_model,
                DefaultCostModel { raw_bytes_per_sec, deployment: Some(constraints) },
            ),
            r.max_iters == 32,
    {
        Self::with_cost_model(
            Box::new(DefaultCostModel { raw_bytes_per_sec, deployment: Some(constraints) }),
        )
    }

    /// An optimizer with the default rules and a given cost model.
    pub fn with_cost_model(cost_model: Box<dyn CostModel>) -> (r: QueryOptimizer)
        ensures
            is_default_set(r.rules@),
            r.cost_model == cost_model,
            r.max_iters == 32,
    {
        // The box is exchanged for the placeholder, so that the model stays the one given.
        let mut given = cost_model;
        let mut r = QueryOptimizer {
            rules: default_rules(),
            cost_model: Box::new(
                DefaultCostModel { raw_bytes_per_sec: Decimal { units: 0 }, deployment: None },
            ),
            max_iters: 32,
        };
        std::mem::swap(&mut r.cost_model, &mut given);
        r
    }

    /// Set the maximum number of passes.
    pub fn max_iters(self, n: usize) -> (r: QueryOptimizer)
        ensures
            r.rules == self.rules,
            r.cost_model == self.cost_model,
            r.max_iters == n,
    {
        let mut r = self;
        r.max_iters = n;
        r
    }

    /// Rewrite `expr` until a pass fires no rule or `max_iters` passes are
    /// made. Returns the tree and the number of passes made.
    pub fn optimize(&self, expr: QueryExpr) -> (r: (QueryExpr, usize))
        ensures
            (r.0@, r.1 as nat) == passes(
                self.rules@,
                &self.cost_model,
                expr@,
                self.max_iters as nat,
            ),
    {
        let ghost start = expr@;
        let mut current = expr;
        for iter in 0..self.max_iters
            invariant
                start == expr@,
                ({
                    let rest = passes(
                        self.rules@,
                        &self.cost_model,
                        current@,
                        (self.max_iters - iter) as nat,
                    );
                    passes(self.rules@, &self.cost_model, start, self.max_iters as nat) == (
                        rest.0,
                        rest.1 + iter as nat,
                    )
                }),
        {
            let ghost before = current@;
            let (next, changed) = self.apply_all(current);
            current = next;
            assert((current@, changed) == pass(self.rules@, &self.cost_model, before));
            if !changed {
                assert(passes(
                    self.rules@,
                    &self.cost_model,
                    before,
                    (self.max_iters - iter) as nat,
                ) == (current@, 1nat));
                return (current, iter + 1);
            }
        }
        (current, self.max_iters)
    }

    /// One pass over a tree: the children first, then the node.
    fn apply_all(&self, expr: QueryExpr) -> (r: (QueryExpr, bool))
        ensures
            (r.0@, r.1) == pass(self.rules@, &self.cost_model, expr@),
        decreases expr, 1int,
    {
        let (with_children, child_changed) = self.recurse_children(expr);
        let (result, this_changed) = self.apply_rules_at(with_children);
        (result, child_changed || this_changed)
    }

    /// Apply the first rule that fires at a node.
    fn apply_rules_at(&self, expr: QueryExpr) -> (r: (QueryExpr, bool))
        ensures
            (r.0@, r.1) == fire_at(self.rules@, &self.cost_model, 0, expr@),
    {
        for i in 0..self.rules.len()
            invariant
                fire_at(self.rules@, &self.cost_model, 0, expr@) == fire_at(
                    self.rules@,
                    &self.cost_model,
                    i as int,
                    expr@,
                ),
        {
            match self.rules[i].try_rewrite(clone_query(&expr), &self.cost_model) {
                Some(new_expr) => {
                    return (new_expr, true);
                },
                None => {},
            }
        }
        (expr, false)
    }

    /// One pass over each tree of a list.
    fn apply_each(&self, inputs: Vec<QueryExpr>) -> (r: (Vec<QueryExpr>, bool))
        ensures
            ({
                let each = pass_each(self.rules@, &self.cost_model, expr::queries_view(inputs@));
                &&& expr::queries_view(r.0@) == Seq::new(each.len(), |i: int| each[i].0)
                &&& r.1 == exists|i: int| 0 <= i < each.len() && (#[trigger] each[i]).1
            }),
        decreases inputs, 0int,
    {
        broadcast use expr::group_list_views;

        let ghost all = inputs;
        let ghost each = pass_each(self.rules@, &self.cost_model, expr::queries_view(inputs@));
        let mut out: Vec<QueryExpr> = Vec::new();
        let mut changed = false;
        for item in it: inputs
            invariant
                it.seq() == all@,
                each == pass_each(self.rules@, &self.cost_model, expr::queries_view(all@)),
                each.len() == all@.len(),
                out@.len() == it.index(),
                forall|j: int|
                    0 <= j < it.index() ==> expr::query_view(#[trigger] out@[j]) == each[j].0,
                changed == exists|j: int| 0 <= j < it.index() && (#[trigger] each[j]).1,
        {
            broadcast use expr::group_list_views;
            broadcast use vstd::std_specs::vec::axiom_vec_index_decreases;

            assert(decreases_to!(all => all[it.index() as int]));
            assert(each[it.index() as int] == pass(self.rules@, &self.cost_model, item@));
            let (e, c) = self.apply_all(item);
            out.push(e);
            changed = changed || c;
        }
        assert(expr::queries_view(out@) =~= Seq::new(each.len(), |i: int| each[i].0));
        (out, changed)
    }

    /// One pass over the children of a node.
    fn recurse_children(&self, expr: QueryExpr) -> (r: (QueryExpr, bool))
        ensures
            (r.0@, r.1) == pass_children(self.rules@, &self.cost_model, expr@),
        decreases expr, 0int,
    {
        match expr {
            QueryExpr::Source(s) => (QueryExpr::Source(s), false),
            QueryExpr::Ref(name) => (QueryExpr::Ref(name), false),
            QueryExpr::Filter { pred, input } => {
                let (x, c) = self.apply_all(*input);
                (QueryExpr::Filter { pred, input: Box::new(x) }, c)
            },
            QueryExpr::Project { cols, input } => {
                let (x, c) = self.apply_all(*input);
                (QueryExpr::Project { cols, input: Box::new(x) }, c)
            },
            QueryExpr::Aggregate { keys, aggs, having, input } => {
                let (x, c) = self.apply_all(*input);
                (QueryExpr::Aggregate { keys, aggs, having, input: Box::new(x) }, c)
            },
            QueryExpr::Window { duration, slide, input } => {
                let (x, c) = self.apply_all(*input);
                (QueryExpr::Window { duration, slide, input: Box::new(x) }, c)
            },
            QueryExpr::SketchAgg { op, col, input } => {
                let (x, c) = self.apply_all(*input);
                (QueryExpr::SketchAgg { op, col, input: Box::new(x) }, c)
            },
            QueryExpr::WindowedAgg { agg, window, col, input } => {
                let (x, c) = self.apply_all(*input);
                (QueryExpr::WindowedAgg { agg, window, col, input: Box::new(x) }, c)
            },
            QueryExpr::Partition { keys, input } => {
                let (x, c) = self.apply_all(*input);
                (QueryExpr::Partition { keys, input: Box::new(x) }, c)
            },
            QueryExpr::Distinct { cols, input } => {
                let (x, c) = self.apply_all(*input);
                (QueryExpr::Distinct { cols, input: Box::new(x) }, c)
            },
            QueryExpr::TopK { k, by, input } => {
                let (x, c) = self.apply_all(*input);
                (QueryExpr::TopK { k, by, input: Box::new(x) }, c)
            },
            QueryExpr::Sort { keys, input } => {
                let (x, c) = self.apply_all(*input);
                (QueryExpr::Sort { keys, input: Box::new(x) }, c)
            },
            QueryExpr::Limit { n, offset, input } => {
                let (x, c) = self.apply_all(*input);
                (QueryExpr::Limit { n, offset, input: Box::new(x) }, c)
            },
            QueryExpr::HistogramQuantile { phi, input } => {
                let (x, c) = self.apply_all(*input);
                (QueryExpr::HistogramQuantile { phi, input: Box::new(x) }, c)
            },
            QueryExpr::PromQLSubquery { range, resolution, input } => {
                let (x, c) = self.apply_all(*input);
                (QueryExpr::PromQLSubquery { range, resolution, input: Box::new(x) }, c)
            },
            QueryExpr::Merge { inputs } => {
                let (xs, c) = self.apply_each(inputs);
                (QueryExpr::Merge { inputs: xs }, c)
            },
            QueryExpr::Join { kind, pred, left, right } => {
                let (x, cx) = self.apply_all(*left);
                let (y, cy) = self.apply_all(*right);
                (QueryExpr::Join { kind, pred, left: Box::new(x), right: Box::new(y) }, cx || cy)
            },
            QueryExpr::SetOp { kind, all, left, right } => {
                let (x, cx) = self.apply_all(*left);
                let (y, cy) = self.apply_all(*right);
                (QueryExpr::SetOp { kind, all, left: Box::new(x), right: Box::new(y) }, cx || cy)
            },
            QueryExpr::BinaryOp { op, lhs, rhs, vector_match } => {
                let (x, cx) = self.apply_all(*lhs);
                let (y, cy) = self.apply_all(*rhs);
                (QueryExpr::BinaryOp { op, lhs: Box::new(x), rhs: Box::new(y), vector_match }, cx || cy)
            },
            QueryExpr::LetBinding { name, expr, body } => {
                let (x, cx) = self.apply_all(*expr);
                let (y, cy) = self.apply_all(*body);
                (QueryExpr::LetBinding { name, expr: Box::new(x), body: Box::new(y) }, cx || cy)
            },
        }
    }
}

} // verus!
