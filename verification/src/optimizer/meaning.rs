//! What a query means, and that the optimizer keeps it.
//!
//! A meaning gives each operator a function from the values of its inputs to
//! the value of its result. Only the identities that make a meaning lawful tie
//! the operators to each other, so two trees that mean the same under every
//! lawful meaning compute the same thing.
use vstd::prelude::*;

use crate::algebra::expr::{
    AggItemView, BinaryOpKind, ColumnView, JoinKind, PartitionView, ProjectView, QueryView,
    ScalarView, SetOpKind, SortKeyView, VectorMatchView, WindowSpecView,
};
use crate::decimal::Decimal;
use crate::intent_algebra::agg_intent::AggIntent;
use crate::optimizer::cost::CostModel;
use crate::optimizer::engine::{
    default_rule_list, fire_at, has_subquery, hoisted_subquery, is_default_set,
    law_hoisting_undone, mentions, pass, pass_children, pass_each, passes, repeated_source,
    restored, share_source, stands_for, EngineRule, RewriteRule,
};
use crate::optimizer::laws;
use crate::types::Duration;

verus! {

// ── Meanings ──────────────────────────────────────────────────────────────────

/// The values that names are bound to.
pub type Bound<V> = Map<Seq<char>, V>;

/// What each operator does to the values of its inputs. Operators that hold
/// scalar expressions also see what names are bound to.
#[verifier::reject_recursive_types(V)]
pub struct Meaning<V> {
    pub source: spec_fn(Seq<char>) -> V,
    pub unbound: spec_fn(Seq<char>) -> V,
    pub filter: spec_fn(ScalarView, Bound<V>, V) -> V,
    pub project: spec_fn(Seq<ProjectView>, Bound<V>, V) -> V,
    pub aggregate: spec_fn(
        Seq<Seq<char>>,
        Seq<AggItemView>,
        Option<ScalarView>,
        Bound<V>,
        V,
    ) -> V,
    pub window: spec_fn(Duration, Option<Duration>, V) -> V,
    pub sketch: spec_fn(AggIntent, ColumnView, V) -> V,
    pub windowed: spec_fn(AggIntent, WindowSpecView, ColumnView, V) -> V,
    pub partition: spec_fn(PartitionView, V) -> V,
    pub distinct: spec_fn(Seq<ColumnView>, V) -> V,
    pub top: spec_fn(u64, Seq<Seq<char>>, V) -> V,
    pub sort: spec_fn(Seq<SortKeyView>, V) -> V,
    pub limit: spec_fn(u64, u64, V) -> V,
    pub histogram: spec_fn(Decimal, V) -> V,
    pub subquery: spec_fn(Duration, Option<Duration>, V) -> V,
    pub merge: spec_fn(Seq<V>) -> V,
    pub join: spec_fn(JoinKind, Option<ScalarView>, Bound<V>, V, V) -> V,
    pub set_op: spec_fn(SetOpKind, bool, V, V) -> V,
    pub binary: spec_fn(BinaryOpKind, Option<VectorMatchView>, V, V) -> V,
}

/// The value of a query.
pub open spec fn denoted<V>(e: QueryView, m: Meaning<V>, env: Bound<V>) -> V
    decreases e,
{
    match e {
        QueryView::Source(name) => (m.source)(name),
        QueryView::Ref(name) => if env.contains_key(name) {
            env[name]
        } else {
            (m.unbound)(name)
        },
        QueryView::Filter { pred, input } => (m.filter)(pred, env, denoted(*input, m, env)),
        QueryView::Project { cols, input } => (m.project)(cols, env, denoted(*input, m, env)),
        QueryView::Aggregate { keys, aggs, having, input } => (m.aggregate)(
            keys,
            aggs,
            having,
            env,
            denoted(*input, m, env),
        ),
        QueryView::Window { duration, slide, input } => (m.window)(
            duration,
            slide,
            denoted(*input, m, env),
        ),
        QueryView::SketchAgg { op, col, input } => (m.sketch)(op, col, denoted(*input, m, env)),
        QueryView::WindowedAgg { agg, window, col, input } => (m.windowed)(
            agg,
            window,
            col,
            denoted(*input, m, env),
        ),
        QueryView::Partition { keys, input } => (m.partition)(keys, denoted(*input, m, env)),
        QueryView::Distinct { cols, input } => (m.distinct)(cols, denoted(*input, m, env)),
        QueryView::TopK { k, by, input } => (m.top)(k, by, denoted(*input, m, env)),
        QueryView::Sort { keys, input } => (m.sort)(keys, denoted(*input, m, env)),
        QueryView::Limit { n, offset, input } => (m.limit)(n, offset, denoted(*input, m, env)),
        QueryView::HistogramQuantile { phi, input } => (m.histogram)(
            phi,
            denoted(*input, m, env),
        ),
        QueryView::PromQLSubquery { range, resolution, input } => (m.subquery)(
            range,
            resolution,
            denoted(*input, m, env),
        ),
        QueryView::Merge { inputs } => (m.merge)(all_denoted(inputs, m, env)),
        QueryView::Join { kind, pred, left, right } => (m.join)(
            kind,
            pred,
            env,
            denoted(*left, m, env),
            denoted(*right, m, env),
        ),
        QueryView::SetOp { kind, all, left, right } => (m.set_op)(
            kind,
            all,
            denoted(*left, m, env),
            denoted(*right, m, env),
        ),
        QueryView::BinaryOp { op, lhs, rhs, vector_match } => (m.binary)(
            op,
            vector_match,
            denoted(*lhs, m, env),
            denoted(*rhs, m, env),
        ),
        QueryView::LetBinding { name, expr, body } => denoted(
            *body,
            m,
            env.insert(name, denoted(*expr, m, env)),
        ),
    }
}

/// The values of several queries.
pub open spec fn all_denoted<V>(s: Seq<QueryView>, m: Meaning<V>, env: Bound<V>) -> Seq<V>
    decreases s,
{
    Seq::new(
        s.len(),
        |i: int|
            if 0 <= i < s.len() {
                denoted(s[i], m, env)
            } else {
                arbitrary()
            },
    )
}

// ── Identities ────────────────────────────────────────────────────────────────

/// A filter may be taken before a window, a grouping, a sort or a limit.
pub open spec fn filters_first<V>(
    m: Meaning<V>,
    p: ScalarView,
    env: Bound<V>,
    v: V,
    span: (Duration, Option<Duration>),
    labels: PartitionView,
    keys: Seq<SortKeyView>,
    rows: (u64, u64),
) -> bool {
    let kept = (m.filter)(p, env, v);
    &&& (m.filter)(p, env, (m.window)(span.0, span.1, v)) == (m.window)(span.0, span.1, kept)
    &&& (m.filter)(p, env, (m.partition)(labels, v)) == (m.partition)(labels, kept)
    &&& (m.filter)(p, env, (m.sort)(keys, v)) == (m.sort)(keys, kept)
    &&& (m.filter)(p, env, (m.limit)(rows.0, rows.1, v)) == (m.limit)(rows.0, rows.1, kept)
}

/// Whether the partial results of branches combine into that of their union.
pub open spec fn combines(op: AggIntent) -> bool {
    match op {
        AggIntent::Sum
        | AggIntent::Count { .. }
        | AggIntent::Min
        | AggIntent::Max
        | AggIntent::Quantile { .. }
        | AggIntent::TopK { .. }
        | AggIntent::Cardinality { .. }
        | AggIntent::Frequency { .. } => true,
        _ => false,
    }
}

/// An aggregation whose partial results combine may be taken of each branch of
/// a merge.
pub open spec fn aggregates_branches<V>(
    m: Meaning<V>,
    op: AggIntent,
    col: ColumnView,
    branches: Seq<V>,
) -> bool {
    combines(op) ==> (m.sketch)(op, col, (m.merge)(branches)) == (m.merge)(
        branches.map_values(|v: V| (m.sketch)(op, col, v)),
    )
}

/// A distinct count ignores duplicates.
pub open spec fn counts_distinct<V>(
    m: Meaning<V>,
    op: AggIntent,
    col: ColumnView,
    cols: Seq<ColumnView>,
    v: V,
) -> bool {
    op is Cardinality ==> (m.sketch)(op, col, (m.distinct)(cols, v)) == (m.sketch)(op, col, v)
}

/// The first rows in descending order are the top ones; of top ones the first
/// are the top ones.
pub open spec fn first_are_top<V>(
    m: Meaning<V>,
    n: u64,
    k: u64,
    keys: Seq<SortKeyView>,
    by: Seq<Seq<char>>,
    v: V,
) -> bool {
    &&& (forall|i: int| 0 <= i < keys.len() ==> (#[trigger] keys[i]).desc) ==> (m.limit)(
        n,
        0,
        (m.sort)(keys, v),
    ) == (m.top)(n, keys.map_values(|key: SortKeyView| key.col), v)
    &&& (m.limit)(n, 0, (m.top)(k, by, v)) == (m.top)(n, by, v)
}

/// A sketch for another rank may be read beside one for the rank that is asked.
pub open spec fn reads_own_rank<V>(
    m: Meaning<V>,
    phi: Decimal,
    op: AggIntent,
    col: ColumnView,
    v: V,
) -> bool {
    op matches AggIntent::Quantile { q, accuracy } ==> {
        let built = (m.sketch)(op, col, v);
        let wanted = (m.sketch)(AggIntent::Quantile { q: phi, accuracy }, col, v);
        (m.histogram)(phi, built) == (m.histogram)(phi, (m.merge)(seq![wanted, built]))
    }
}

/// Cutting time twice in the same way is cutting it once; grouping by nothing
/// is no grouping.
pub open spec fn once_is_enough<V>(
    m: Meaning<V>,
    span: (Duration, Option<Duration>),
    labels: PartitionView,
    v: V,
) -> bool {
    let cut = (m.window)(span.0, span.1, v);
    &&& (m.window)(span.0, span.1, cut) == cut
    &&& labels.labels().len() == 0 ==> (m.partition)(labels, v) == v
}

/// The union of two merges, duplicates kept, is the merge of all branches.
pub open spec fn unites<V>(m: Meaning<V>, a: Seq<V>, b: Seq<V>) -> bool {
    (m.set_op)(SetOpKind::Union, true, (m.merge)(a), (m.merge)(b)) == (m.merge)(a + b)
}

/// Whether a meaning satisfies the identities that rewriting relies on.
pub open spec fn lawful<V>(m: Meaning<V>) -> bool {
    &&& forall|
        p: ScalarView,
        env: Bound<V>,
        v: V,
        span: (Duration, Option<Duration>),
        labels: PartitionView,
        keys: Seq<SortKeyView>,
        rows: (u64, u64),
    | #[trigger]
        filters_first(m, p, env, v, span, labels, keys, rows)
    &&& forall|op: AggIntent, col: ColumnView, branches: Seq<V>| #[trigger]
        aggregates_branches(m, op, col, branches)
    &&& forall|op: AggIntent, col: ColumnView, cols: Seq<ColumnView>, v: V| #[trigger]
        counts_distinct(m, op, col, cols, v)
    &&& forall|n: u64, k: u64, keys: Seq<SortKeyView>, by: Seq<Seq<char>>, v: V| #[trigger]
        first_are_top(m, n, k, keys, by, v)
    &&& forall|phi: Decimal, op: AggIntent, col: ColumnView, v: V| #[trigger]
        reads_own_rank(m, phi, op, col, v)
    &&& forall|span: (Duration, Option<Duration>), labels: PartitionView, v: V| #[trigger]
        once_is_enough(m, span, labels, v)
    &&& forall|a: Seq<V>, b: Seq<V>| #[trigger] unites(m, a, b)
}

/// A column that is bound to the value of a query stands for the query.
pub open spec fn binds_values<V>(
    m: Meaning<V>,
    p: ScalarView,
    name: Seq<char>,
    q: QueryView,
    env: Bound<V>,
    v: V,
) -> bool {
    !has_subquery(p) ==> (m.filter)(restored(p, name, q), env, v) == (m.filter)(
        p,
        env.insert(name, denoted(q, m, env)),
        v,
    )
}

// ── Names that the optimizer uses ─────────────────────────────────────────────

/// The name that stands for a source which several branches read.
pub open spec fn cse_name(source: Seq<char>) -> Seq<char> {
    "__cse_"@ + source
}

/// Whether the names that stand for sources do so.
pub open spec fn names_sources<V>(m: Meaning<V>, env: Bound<V>) -> bool {
    forall|source: Seq<char>|
        env.contains_key(#[trigger] cse_name(source)) && env[cse_name(source)] == (m.source)(source)
}

/// Whether a binding leaves the names that stand for sources alone, or binds
/// one of them to its source.
pub open spec fn binds_well(name: Seq<char>, expr: QueryView) -> bool {
    forall|source: Seq<char>|
        name == #[trigger] cse_name(source) ==> expr == QueryView::Source(source)
}

/// Whether no filter of a query holds a subquery, and bindings leave the names
/// that stand for sources alone.
pub open spec fn plain(e: QueryView) -> bool
    decreases e,
{
    match e {
        QueryView::Source(_) | QueryView::Ref(_) => true,
        QueryView::Filter { pred, input } => !has_subquery(pred) && plain(*input),
        QueryView::Project { input, .. }
        | QueryView::Aggregate { input, .. }
        | QueryView::Window { input, .. }
        | QueryView::SketchAgg { input, .. }
        | QueryView::WindowedAgg { input, .. }
        | QueryView::Partition { input, .. }
        | QueryView::Distinct { input, .. }
        | QueryView::TopK { input, .. }
        | QueryView::Sort { input, .. }
        | QueryView::Limit { input, .. }
        | QueryView::HistogramQuantile { input, .. }
        | QueryView::PromQLSubquery { input, .. } => plain(*input),
        QueryView::Merge { inputs } => all_plain(inputs),
        QueryView::Join { left, right, .. } | QueryView::SetOp { left, right, .. } => plain(*left)
            && plain(*right),
        QueryView::BinaryOp { lhs, rhs, .. } => plain(*lhs) && plain(*rhs),
        QueryView::LetBinding { name, expr, body } => binds_well(name, *expr) && plain(*expr)
            && plain(*body),
    }
}

/// Whether every query of a list is plain.
pub open spec fn all_plain(s: Seq<QueryView>) -> bool
    decreases s,
{
    forall|i: int| 0 <= i < s.len() ==> plain(#[trigger] s[i])
}

// ── Rules keep the meaning ────────────────────────────────────────────────────

/// A rule of the engine keeps the value of every node without subqueries, under
/// every lawful meaning.
pub proof fn law_rule_keeps_meaning<V>(
    rule: EngineRule,
    model: &Box<dyn CostModel>,
    e: QueryView,
    m: Meaning<V>,
    env: Bound<V>,
)
    requires
        plain(e),
        lawful(m),
        names_sources(m, env),
    ensures
        match rule.rewrite(e, model) {
            Some(n) => plain(n) && denoted(n, m, env) == denoted(e, m, env),
            None => true,
        },
{
    reveal_with_fuel(denoted, 4);
    reveal_with_fuel(plain, 4);
    match e {
        QueryView::Filter { pred, input } => {
            law_hoisting_undone(pred);
            let v = match *input {
                QueryView::Window { input: x, .. }
                | QueryView::Partition { input: x, .. }
                | QueryView::Sort { input: x, .. }
                | QueryView::Limit { input: x, .. } => denoted(*x, m, env),
                _ => denoted(*input, m, env),
            };
            let span = match *input {
                QueryView::Window { duration, slide, .. } => (duration, slide),
                _ => arbitrary(),
            };
            let labels = match *input {
                QueryView::Partition { keys, .. } => keys,
                _ => arbitrary(),
            };
            let keys = match *input {
                QueryView::Sort { keys, .. } => keys,
                _ => arbitrary(),
            };
            let rows = match *input {
                QueryView::Limit { n, offset, .. } => (n, offset),
                _ => arbitrary(),
            };
            assert(filters_first(m, pred, env, v, span, labels, keys, rows));
        },
        QueryView::SketchAgg { op, col, input } => {
            match *input {
                QueryView::Merge { inputs } => {
                    lemma_branches(op, col, inputs, m, env);
                },
                QueryView::Distinct { cols, input: x } => {
                    assert(counts_distinct(m, op, col, cols, denoted(*x, m, env)));
                },
                _ => {},
            }
        },
        QueryView::Limit { n, offset, input } => {
            match *input {
                QueryView::Sort { keys, input: x } => {
                    let v = denoted(*x, m, env);
                    assert(first_are_top(m, n, 0, keys, Seq::empty(), v));
                    if let Some(QueryView::TopK { by, .. }) = rule.rewrite(e, model) {
                        assert(by =~= keys.map_values(|key: SortKeyView| key.col));
                    }
                },
                QueryView::TopK { k, by, input: x } => {
                    assert(first_are_top(m, n, k, Seq::empty(), by, denoted(*x, m, env)));
                },
                _ => {},
            }
        },
        QueryView::HistogramQuantile { phi, input } => {
            if let QueryView::SketchAgg { op, col, input: x } = *input {
                assert(reads_own_rank(m, phi, op, col, denoted(*x, m, env)));
                if let Some(QueryView::HistogramQuantile { input: merged, .. }) = rule.rewrite(
                    e,
                    model,
                ) {
                    if let (AggIntent::Quantile { q, accuracy }, QueryView::Merge { inputs }) = (
                        op,
                        *merged,
                    ) {
                        let wanted = AggIntent::Quantile { q: phi, accuracy };
                        assert(all_denoted(inputs, m, env) =~= seq![
                            (m.sketch)(wanted, col, denoted(*x, m, env)),
                            denoted(*input, m, env),
                        ]);
                    }
                }
            }
        },
        QueryView::Window { duration, slide, input } => {
            if let QueryView::Window { input: x, .. } = *input {
                assert(once_is_enough(m, (duration, slide), arbitrary(), denoted(*x, m, env)));
            }
        },
        QueryView::Partition { keys, input } => {
            assert(once_is_enough(m, arbitrary(), keys, denoted(*input, m, env)));
        },
        QueryView::SetOp { left, right, .. } => {
            if let (QueryView::Merge { inputs: a }, QueryView::Merge { inputs: b }) = (
                *left,
                *right,
            ) {
                assert(all_denoted(a + b, m, env) =~= all_denoted(a, m, env) + all_denoted(
                    b,
                    m,
                    env,
                ));
                assert(unites(m, all_denoted(a, m, env), all_denoted(b, m, env)));
                assert(all_plain(a + b)) by {
                    assert forall|i: int| 0 <= i < (a + b).len() implies plain(
                        #[trigger] (a + b)[i],
                    ) by {
                        if i < a.len() {
                            assert(plain(a[i]));
                        } else {
                            assert(plain(b[i - a.len()]));
                        }
                    }
                }
            }
        },
        QueryView::Merge { inputs } => {
            if let Some(shared) = repeated_source(inputs, 0) {
                lemma_shared(inputs, shared, m, env);
            }
        },
        _ => {},
    }
}

proof fn lemma_branches<V>(
    op: AggIntent,
    col: ColumnView,
    inputs: Seq<QueryView>,
    m: Meaning<V>,
    env: Bound<V>,
)
    requires
        all_plain(inputs),
        lawful(m),
    ensures
        ({
            let lifted = Seq::new(
                inputs.len(),
                |i: int| QueryView::SketchAgg { op, col, input: Box::new(inputs[i]) },
            );
            &&& all_plain(lifted)
            &&& combines(op) ==> (m.merge)(all_denoted(lifted, m, env)) == (m.sketch)(
                op,
                col,
                (m.merge)(all_denoted(inputs, m, env)),
            )
        }),
{
    let lifted = Seq::new(
        inputs.len(),
        |i: int| QueryView::SketchAgg { op, col, input: Box::new(inputs[i]) },
    );
    let values = all_denoted(inputs, m, env);
    assert(aggregates_branches(m, op, col, values));
    assert(all_denoted(lifted, m, env) =~= values.map_values(|v: V| (m.sketch)(op, col, v))) by {
        assert forall|i: int| 0 <= i < inputs.len() implies denoted(#[trigger] lifted[i], m, env)
            == (m.sketch)(op, col, values[i]) by {
            assert(values[i] == denoted(inputs[i], m, env));
        }
    }
    assert forall|i: int| 0 <= i < lifted.len() implies plain(#[trigger] lifted[i]) by {
        assert(plain(inputs[i]));
    }
}

proof fn lemma_shared<V>(
    inputs: Seq<QueryView>,
    shared: Seq<char>,
    m: Meaning<V>,
    env: Bound<V>,
)
    requires
        all_plain(inputs),
        names_sources(m, env),
    ensures
        all_plain(share_source(inputs, shared)),
        binds_well(cse_name(shared), QueryView::Source(shared)),
        env.insert(cse_name(shared), (m.source)(shared)) == env,
        all_denoted(share_source(inputs, shared), m, env) == all_denoted(inputs, m, env),
{
    let after = share_source(inputs, shared);
    assert(env.contains_key(cse_name(shared)));
    assert(env.insert(cse_name(shared), (m.source)(shared)) =~= env);
    assert forall|i: int| 0 <= i < inputs.len() implies plain(#[trigger] after[i]) && denoted(
        after[i],
        m,
        env,
    ) == denoted(inputs[i], m, env) by {
        assert(plain(inputs[i]));
    }
    assert(all_denoted(after, m, env) =~= all_denoted(inputs, m, env));
    assert forall|source: Seq<char>|
        cse_name(shared) == #[trigger] cse_name(source) implies source == shared by {
        lemma_cse_names(shared, source);
    }
}

/// Different sources have different names that stand for them.
proof fn lemma_cse_names(a: Seq<char>, b: Seq<char>)
    requires
        cse_name(a) == cse_name(b),
    ensures
        a == b,
{
    let p = "__cse_"@;
    assert(a.len() == b.len()) by {
        assert(cse_name(a).len() == p.len() + a.len());
        assert(cse_name(b).len() == p.len() + b.len());
    }
    assert forall|i: int| 0 <= i < a.len() implies a[i] == b[i] by {
        assert(cse_name(a)[p.len() + i] == a[i]);
        assert(cse_name(b)[p.len() + i] == b[i]);
    }
    assert(a =~= b);
}

/// Whether a name occurs in no place of a query that looks names up: no
/// reference, no binding, and no scalar expression.
pub open spec fn unused(e: QueryView, name: Seq<char>) -> bool
    decreases e,
{
    match e {
        QueryView::Source(_) => true,
        QueryView::Ref(n) => n != name,
        QueryView::Filter { .. }
        | QueryView::Project { .. }
        | QueryView::Aggregate { .. }
        | QueryView::Join { .. }
        | QueryView::LetBinding { .. } => false,
        QueryView::Window { input, .. }
        | QueryView::SketchAgg { input, .. }
        | QueryView::WindowedAgg { input, .. }
        | QueryView::Partition { input, .. }
        | QueryView::Distinct { input, .. }
        | QueryView::TopK { input, .. }
        | QueryView::Sort { input, .. }
        | QueryView::Limit { input, .. }
        | QueryView::HistogramQuantile { input, .. }
        | QueryView::PromQLSubquery { input, .. } => unused(*input, name),
        QueryView::Merge { inputs } => all_unused(inputs, name),
        QueryView::SetOp { left, right, .. } => unused(*left, name) && unused(*right, name),
        QueryView::BinaryOp { lhs, rhs, .. } => unused(*lhs, name) && unused(*rhs, name),
    }
}

/// Whether a name is unused in every query of a list.
pub open spec fn all_unused(s: Seq<QueryView>, name: Seq<char>) -> bool
    decreases s,
{
    forall|i: int| 0 <= i < s.len() ==> unused(#[trigger] s[i], name)
}

/// Binding a name that a query does not use leaves its value.
proof fn lemma_unused<V>(e: QueryView, name: Seq<char>, v: V, m: Meaning<V>, env: Bound<V>)
    requires
        unused(e, name),
    ensures
        denoted(e, m, env.insert(name, v)) == denoted(e, m, env),
    decreases e,
{
    reveal_with_fuel(unused, 2);
    reveal_with_fuel(all_unused, 2);
    match e {
        QueryView::Window { input, .. }
        | QueryView::SketchAgg { input, .. }
        | QueryView::WindowedAgg { input, .. }
        | QueryView::Partition { input, .. }
        | QueryView::Distinct { input, .. }
        | QueryView::TopK { input, .. }
        | QueryView::Sort { input, .. }
        | QueryView::Limit { input, .. }
        | QueryView::HistogramQuantile { input, .. }
        | QueryView::PromQLSubquery { input, .. } => {
            lemma_unused(*input, name, v, m, env);
        },
        QueryView::Merge { inputs } => {
            let more = env.insert(name, v);
            assert forall|i: int| 0 <= i < inputs.len() implies denoted(
                #[trigger] inputs[i],
                m,
                more,
            ) == denoted(inputs[i], m, env) by {
                lemma_unused(inputs[i], name, v, m, env);
            }
            assert(all_denoted(inputs, m, more) =~= all_denoted(inputs, m, env));
        },
        QueryView::SetOp { left, right, .. } => {
            lemma_unused(*left, name, v, m, env);
            lemma_unused(*right, name, v, m, env);
        },
        QueryView::BinaryOp { lhs, rhs, .. } => {
            lemma_unused(*lhs, name, v, m, env);
            lemma_unused(*rhs, name, v, m, env);
        },
        _ => {},
    }
}

/// Whether a scalar expression holds one subquery: where it is taken out, none is
/// left.
pub open spec fn one_subquery(e: ScalarView) -> bool {
    match hoisted_subquery(e) {
        Some((_, rest)) => !has_subquery(rest),
        None => false,
    }
}

/// Hoisting the one subquery of a filter keeps the value of the filter, where a
/// bound column stands for the query that it is bound to, and the name of the
/// binding is used nowhere else.
pub proof fn law_hoisting_keeps_meaning<V>(
    model: &Box<dyn CostModel>,
    pred: ScalarView,
    input: QueryView,
    m: Meaning<V>,
    env: Bound<V>,
)
    requires
        has_subquery(pred),
        !mentions(pred, "__subq_0"@),
        unused(input, "__subq_0"@),
        forall|p: ScalarView, name: Seq<char>, q: QueryView, v: V| #[trigger]
            binds_values(m, p, name, q, env, v),
    ensures
        ({
            let e = QueryView::Filter { pred, input: Box::new(input) };
            match EngineRule::SubqueryDecorrelation.rewrite(e, model) {
                Some(n) => one_subquery(pred) ==> denoted(n, m, env) == denoted(e, m, env),
                None => false,
            }
        }),
{
    reveal_with_fuel(denoted, 3);
    law_hoisting_undone(pred);
    let name = "__subq_0"@;
    if let Some((q, p)) = hoisted_subquery(pred) {
        assert(binds_values(m, p, name, q, env, denoted(input, m, env)));
        lemma_unused(input, name, denoted(q, m, env), m, env);
    }
}

// ── Passes keep the meaning ───────────────────────────────────────────────────

proof fn lemma_node_keeps_meaning<V>(
    rules: Seq<Box<dyn RewriteRule>>,
    model: &Box<dyn CostModel>,
    k: int,
    e: QueryView,
    m: Meaning<V>,
    env: Bound<V>,
)
    requires
        is_default_set(rules),
        plain(e),
        lawful(m),
        names_sources(m, env),
    ensures
        plain(fire_at(rules, model, k, e).0),
        denoted(fire_at(rules, model, k, e).0, m, env) == denoted(e, m, env),
    decreases rules.len() - k,
{
    if 0 <= k < rules.len() {
        assert(stands_for(&rules[k], default_rule_list()[k]));
        law_rule_keeps_meaning(default_rule_list()[k], model, e, m, env);
        lemma_node_keeps_meaning(rules, model, k + 1, e, m, env);
    }
}

/// No rule fires at a source.
proof fn lemma_source_stays(
    rules: Seq<Box<dyn RewriteRule>>,
    model: &Box<dyn CostModel>,
    k: int,
    name: Seq<char>,
)
    requires
        is_default_set(rules),
    ensures
        fire_at(rules, model, k, QueryView::Source(name)).0 == QueryView::Source(name),
    decreases rules.len() - k,
{
    if 0 <= k < rules.len() {
        assert(stands_for(&rules[k], default_rule_list()[k]));
        lemma_source_stays(rules, model, k + 1, name);
    }
}

/// A binding keeps the names that stand for sources.
proof fn lemma_binding<V>(name: Seq<char>, expr: QueryView, m: Meaning<V>, env: Bound<V>)
    requires
        binds_well(name, expr),
        names_sources(m, env),
    ensures
        names_sources(m, env.insert(name, denoted(expr, m, env))),
{
    let after = env.insert(name, denoted(expr, m, env));
    assert forall|source: Seq<char>|
        after.contains_key(#[trigger] cse_name(source)) && after[cse_name(source)] == (m.source)(
            source,
        ) by {
        assert(env.contains_key(cse_name(source)));
        if name == cse_name(source) {
            assert(expr == QueryView::Source(source));
        }
    }
}

/// A pass over a query without subqueries keeps its value, under every lawful
/// meaning.
pub proof fn law_pass_keeps_meaning<V>(
    rules: Seq<Box<dyn RewriteRule>>,
    model: &Box<dyn CostModel>,
    e: QueryView,
    m: Meaning<V>,
    env: Bound<V>,
)
    requires
        is_default_set(rules),
        plain(e),
        lawful(m),
        names_sources(m, env),
    ensures
        plain(pass(rules, model, e).0),
        denoted(pass(rules, model, e).0, m, env) == denoted(e, m, env),
    decreases e,
{
    reveal_with_fuel(plain, 2);
    reveal_with_fuel(all_plain, 2);
    let below = pass_children(rules, model, e).0;
    match e {
        QueryView::Source(_) | QueryView::Ref(_) => {},
        QueryView::Filter { input, .. }
        | QueryView::Project { input, .. }
        | QueryView::Aggregate { input, .. }
        | QueryView::Window { input, .. }
        | QueryView::SketchAgg { input, .. }
        | QueryView::WindowedAgg { input, .. }
        | QueryView::Partition { input, .. }
        | QueryView::Distinct { input, .. }
        | QueryView::TopK { input, .. }
        | QueryView::Sort { input, .. }
        | QueryView::Limit { input, .. }
        | QueryView::HistogramQuantile { input, .. }
        | QueryView::PromQLSubquery { input, .. } => {
            law_pass_keeps_meaning(rules, model, *input, m, env);
        },
        QueryView::Merge { inputs } => {
            let each = pass_each(rules, model, inputs);
            let after = Seq::new(each.len(), |i: int| each[i].0);
            assert forall|i: int| 0 <= i < inputs.len() implies plain(#[trigger] after[i])
                && denoted(after[i], m, env) == denoted(inputs[i], m, env) by {
                assert(plain(inputs[i]));
                law_pass_keeps_meaning(rules, model, inputs[i], m, env);
            }
            assert(all_denoted(after, m, env) =~= all_denoted(inputs, m, env));
        },
        QueryView::Join { left, right, .. } | QueryView::SetOp { left, right, .. } => {
            law_pass_keeps_meaning(rules, model, *left, m, env);
            law_pass_keeps_meaning(rules, model, *right, m, env);
        },
        QueryView::BinaryOp { lhs, rhs, .. } => {
            law_pass_keeps_meaning(rules, model, *lhs, m, env);
            law_pass_keeps_meaning(rules, model, *rhs, m, env);
        },
        QueryView::LetBinding { name, expr, body } => {
            law_pass_keeps_meaning(rules, model, *expr, m, env);
            lemma_binding(name, *expr, m, env);
            law_pass_keeps_meaning(
                rules,
                model,
                *body,
                m,
                env.insert(name, denoted(*expr, m, env)),
            );
            if let QueryView::Source(s) = *expr {
                lemma_source_stays(rules, model, 0, s);
            }
        },
    }
    lemma_node_keeps_meaning(rules, model, 0, below, m, env);
}

/// What the optimizer makes of a query without subqueries computes what the
/// query computes: the same aggregations of the same columns, over the same
/// filters, windows, groupings and joins, under every lawful meaning.
pub proof fn law_optimize_keeps_meaning<V>(
    rules: Seq<Box<dyn RewriteRule>>,
    model: &Box<dyn CostModel>,
    e: QueryView,
    n: nat,
    m: Meaning<V>,
    env: Bound<V>,
)
    requires
        is_default_set(rules),
        plain(e),
        lawful(m),
        names_sources(m, env),
    ensures
        denoted(passes(rules, model, e, n).0, m, env) == denoted(e, m, env),
    decreases n,
{
    if n > 0 {
        law_pass_keeps_meaning(rules, model, e, m, env);
        law_optimize_keeps_meaning(
            rules,
            model,
            pass(rules, model, e).0,
            (n - 1) as nat,
            m,
            env,
        );
    }
}

// ── What is left to rewrite ───────────────────────────────────────────────────

/// Whether a node has a shape that one of the rules is there to remove.
pub open spec fn reducible(e: QueryView) -> bool {
    match e {
        QueryView::Filter { pred, input } => has_subquery(pred) || *input is Window
            || *input is Partition || *input is Sort || *input is Limit,
        QueryView::SketchAgg { op, input, .. } => (combines(op) && *input is Merge) || (
        op is Cardinality && *input is Distinct),
        QueryView::Window { duration, slide, input } => *input matches QueryView::Window {
            duration: d,
            slide: s,
            ..
        } && d == duration && s == slide,
        QueryView::Partition { keys, .. } => keys.labels().len() == 0,
        QueryView::Limit { offset, input, .. } => offset == 0 && match *input {
            QueryView::Sort { keys, .. } => forall|i: int|
                0 <= i < keys.len() ==> (#[trigger] keys[i]).desc,
            QueryView::TopK { .. } => true,
            _ => false,
        },
        QueryView::HistogramQuantile { input, .. } => *input matches QueryView::SketchAgg {
            op,
            ..
        } && op is Quantile,
        QueryView::SetOp { kind, all, left, right } => kind == SetOpKind::Union && all
            && *left is Merge && *right is Merge,
        QueryView::Merge { inputs } => exists|i: int, j: int|
            0 <= i < j < inputs.len() && #[trigger] inputs[i] is Source && #[trigger] inputs[j]
                == inputs[i],
        _ => false,
    }
}

/// Whether no node of a query has a shape that a rule is there to remove.
pub open spec fn settled(e: QueryView) -> bool
    decreases e,
{
    !reducible(e) && match e {
        QueryView::Source(_) | QueryView::Ref(_) => true,
        QueryView::Filter { input, .. }
        | QueryView::Project { input, .. }
        | QueryView::Aggregate { input, .. }
        | QueryView::Window { input, .. }
        | QueryView::SketchAgg { input, .. }
        | QueryView::WindowedAgg { input, .. }
        | QueryView::Partition { input, .. }
        | QueryView::Distinct { input, .. }
        | QueryView::TopK { input, .. }
        | QueryView::Sort { input, .. }
        | QueryView::Limit { input, .. }
        | QueryView::HistogramQuantile { input, .. }
        | QueryView::PromQLSubquery { input, .. } => settled(*input),
        QueryView::Merge { inputs } => all_settled(inputs),
        QueryView::Join { left, right, .. } | QueryView::SetOp { left, right, .. } => settled(*left)
            && settled(*right),
        QueryView::BinaryOp { lhs, rhs, .. } => settled(*lhs) && settled(*rhs),
        QueryView::LetBinding { expr, body, .. } => settled(*expr) && settled(*body),
    }
}

/// Whether every query of a list is settled.
pub open spec fn all_settled(s: Seq<QueryView>) -> bool
    decreases s,
{
    forall|i: int| 0 <= i < s.len() ==> settled(#[trigger] s[i])
}

/// A source that a later branch repeats is found.
proof fn lemma_repetition_found(inputs: Seq<QueryView>, k: int, i: int, j: int)
    requires
        0 <= k <= i < j < inputs.len(),
        inputs[i] is Source,
        inputs[j] == inputs[i],
    ensures
        repeated_source(inputs, k) is Some,
    decreases inputs.len() - k,
{
    if k < i {
        lemma_repetition_found(inputs, k + 1, i, j);
    } else {
        assert(inputs[j].source() == inputs[i].source());
    }
}

/// At a node of a shape that a rule is there to remove, some rule fires.
pub proof fn law_reducible_fires(
    rules: Seq<Box<dyn RewriteRule>>,
    model: &Box<dyn CostModel>,
    e: QueryView,
)
    requires
        is_default_set(rules),
        reducible(e),
    ensures
        fire_at(rules, model, 0, e).1,
{
    let list = default_rule_list();
    assert forall|i: int| 0 <= i < list.len() implies stands_for(#[trigger] &rules[i], list[i]) by {}
    let k: int = match e {
        QueryView::Filter { pred, .. } => if has_subquery(pred) {
            10
        } else {
            0
        },
        QueryView::SketchAgg { input, .. } => if *input is Merge {
            7
        } else {
            2
        },
        QueryView::Window { .. } => 3,
        QueryView::Partition { .. } => 4,
        QueryView::Limit { .. } => 5,
        QueryView::HistogramQuantile { .. } => 6,
        QueryView::SetOp { .. } => 8,
        _ => 11,
    };
    if let QueryView::Filter { pred, .. } = e {
        law_hoisting_undone(pred);
    }
    if let QueryView::Merge { inputs } = e {
        let (i, j) = choose|i: int, j: int|
            0 <= i < j < inputs.len() && #[trigger] inputs[i] is Source && #[trigger] inputs[j]
                == inputs[i];
        lemma_repetition_found(inputs, 0, i, j);
    }
    assert(list[k].rewrite(e, model) is Some);
    assert(stands_for(&rules[k], list[k]));
    lemma_some_rule_fires(rules, model, 0, k, e);
}

proof fn lemma_some_rule_fires(
    rules: Seq<Box<dyn RewriteRule>>,
    model: &Box<dyn CostModel>,
    from: int,
    k: int,
    e: QueryView,
)
    requires
        0 <= from <= k < rules.len(),
        rules[k].rewrite(e, model) is Some,
    ensures
        fire_at(rules, model, from, e).1,
    decreases k - from,
{
    if from < k {
        lemma_some_rule_fires(rules, model, from + 1, k, e);
    }
}

/// A query over which a pass fires no rule has no node of a shape that a rule is
/// there to remove.
pub proof fn law_quiet_is_settled(
    rules: Seq<Box<dyn RewriteRule>>,
    model: &Box<dyn CostModel>,
    e: QueryView,
)
    requires
        is_default_set(rules),
        !pass(rules, model, e).1,
    ensures
        settled(e),
    decreases e,
{
    reveal_with_fuel(settled, 2);
    reveal_with_fuel(all_settled, 2);
    let below = pass_children(rules, model, e);
    assert(below.0 == e) by {
        laws::law_quiet_pass(rules, model, e);
        lemma_quiet_children(rules, model, e);
    }
    if reducible(e) {
        law_reducible_fires(rules, model, e);
    }
    match e {
        QueryView::Source(_) | QueryView::Ref(_) => {},
        QueryView::Filter { input, .. }
        | QueryView::Project { input, .. }
        | QueryView::Aggregate { input, .. }
        | QueryView::Window { input, .. }
        | QueryView::SketchAgg { input, .. }
        | QueryView::WindowedAgg { input, .. }
        | QueryView::Partition { input, .. }
        | QueryView::Distinct { input, .. }
        | QueryView::TopK { input, .. }
        | QueryView::Sort { input, .. }
        | QueryView::Limit { input, .. }
        | QueryView::HistogramQuantile { input, .. }
        | QueryView::PromQLSubquery { input, .. } => {
            law_quiet_is_settled(rules, model, *input);
        },
        QueryView::Merge { inputs } => {
            let each = pass_each(rules, model, inputs);
            assert forall|i: int| 0 <= i < inputs.len() implies settled(#[trigger] inputs[i]) by {
                assert(!each[i].1);
                law_quiet_is_settled(rules, model, inputs[i]);
            }
        },
        QueryView::Join { left, right, .. } | QueryView::SetOp { left, right, .. } => {
            law_quiet_is_settled(rules, model, *left);
            law_quiet_is_settled(rules, model, *right);
        },
        QueryView::BinaryOp { lhs, rhs, .. } => {
            law_quiet_is_settled(rules, model, *lhs);
            law_quiet_is_settled(rules, model, *rhs);
        },
        QueryView::LetBinding { expr, body, .. } => {
            law_quiet_is_settled(rules, model, *expr);
            law_quiet_is_settled(rules, model, *body);
        },
    }
}

/// Where no rule fires below a node, the node stays as it is.
proof fn lemma_quiet_children(
    rules: Seq<Box<dyn RewriteRule>>,
    model: &Box<dyn CostModel>,
    e: QueryView,
)
    requires
        !pass_children(rules, model, e).1,
    ensures
        pass_children(rules, model, e).0 == e,
{
    match e {
        QueryView::Source(_) | QueryView::Ref(_) => {},
        QueryView::Filter { input, .. }
        | QueryView::Project { input, .. }
        | QueryView::Aggregate { input, .. }
        | QueryView::Window { input, .. }
        | QueryView::SketchAgg { input, .. }
        | QueryView::WindowedAgg { input, .. }
        | QueryView::Partition { input, .. }
        | QueryView::Distinct { input, .. }
        | QueryView::TopK { input, .. }
        | QueryView::Sort { input, .. }
        | QueryView::Limit { input, .. }
        | QueryView::HistogramQuantile { input, .. }
        | QueryView::PromQLSubquery { input, .. } => {
            laws::law_quiet_pass(rules, model, *input);
        },
        QueryView::Merge { inputs } => {
            let each = pass_each(rules, model, inputs);
            assert forall|i: int| 0 <= i < inputs.len() implies (#[trigger] each[i]).0
                == inputs[i] by {
                assert(!each[i].1);
                laws::law_quiet_pass(rules, model, inputs[i]);
            }
            assert(Seq::new(each.len(), |i: int| each[i].0) =~= inputs);
        },
        QueryView::Join { left, right, .. } | QueryView::SetOp { left, right, .. } => {
            laws::law_quiet_pass(rules, model, *left);
            laws::law_quiet_pass(rules, model, *right);
        },
        QueryView::BinaryOp { lhs, rhs, .. } => {
            laws::law_quiet_pass(rules, model, *lhs);
            laws::law_quiet_pass(rules, model, *rhs);
        },
        QueryView::LetBinding { expr, body, .. } => {
            laws::law_quiet_pass(rules, model, *expr);
            laws::law_quiet_pass(rules, model, *body);
        },
    }
}

/// An optimized query that took fewer passes than allowed has no node of a shape
/// that a rule is there to remove.
pub proof fn law_optimize_settles(
    rules: Seq<Box<dyn RewriteRule>>,
    model: &Box<dyn CostModel>,
    e: QueryView,
    n: nat,
)
    requires
        is_default_set(rules),
        passes(rules, model, e, n).1 < n,
    ensures
        settled(passes(rules, model, e, n).0),
{
    laws::law_fixed_point(rules, model, e, n);
    law_quiet_is_settled(rules, model, passes(rules, model, e, n).0);
}

} // verus!
