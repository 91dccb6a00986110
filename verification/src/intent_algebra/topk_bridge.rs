//! Ranking nodes as heavy-hitter intents.
use vstd::prelude::*;
use vstd::string::*;

use crate::algebra::expr;
use crate::algebra::expr::ColumnRef;
use crate::decimal::Decimal;
use crate::intent_algebra::agg_intent::AggIntent;
use crate::intent_algebra::column_resolution;
use crate::intent_algebra::column_resolution::{resolve_column_ref, ResolveError, ResolveErrorView};
use crate::intent_algebra::schema::{ColumnId, Schema};
use crate::types::AccuracyTarget;

verus! {

/// The two meanings that a ranking can have.
#[derive(Debug, PartialEq, Eq)]
#[allow(inconsistent_fields)]
pub enum BridgedTopK {
    /// The `k` most frequent items in each group; one sketch computes it.
    HeavyHitter { k: u64, by: Vec<ColumnId>, intent: AggIntent },
    /// The first `k` rows in the order of columns; no sketch computes it.
    SortLimit { k: u64, by: Vec<ColumnId> },
}

/// Why a ranking has no form as an intent.
#[derive(Debug, PartialEq, Eq)]
pub enum BridgeError {
    /// A grouping column has no position.
    By(ResolveError),
}

impl BridgeError {
    /// The error in words.
    pub open spec fn words(self) -> Seq<char> {
        match self {
            BridgeError::By(e) => "TopK by-key resolution failed: "@ + e@.words(),
        }
    }

    /// The error in words.
    pub fn message(&self) -> (r: String)
        ensures
            r@ == self.words(),
    {
        match self {
            BridgeError::By(e) => {
                let mut out = "TopK by-key resolution failed: ".to_owned();
                out.append(e.message().as_str());
                out
            },
        }
    }
}

/// The intent behind the `k` most frequent items, within five percent.
pub open spec fn heavy_hitters(k: u64) -> AggIntent {
    AggIntent::TopK {
        k,
        accuracy: AccuracyTarget::Epsilon(Decimal { units: 50_000_000_000_000_000 }),
    }
}

/// A ranking as a heavy-hitter intent, its grouping columns by position.
pub fn bridge_topk(k: u64, by: &[ColumnRef], schema: &Schema) -> (r: Result<BridgedTopK, BridgeError>)
    ensures
        match (r, column_resolution::all_resolved(expr::columns_view(by@), schema@)) {
            (Ok(b), Ok(ids)) => match b {
                BridgedTopK::HeavyHitter { k: n, by: cols, intent } => n == k && cols@ == ids
                    && intent == heavy_hitters(k),
                BridgedTopK::SortLimit { .. } => false,
            },
            (Err(BridgeError::By(e)), Err(want)) => e@ == want,
            _ => false,
        },
{
    let ghost cols = expr::columns_view(by@);
    let mut ids: Vec<ColumnId> = Vec::new();
    for i in 0..by.len()
        invariant
            cols == expr::columns_view(by@),
            column_resolution::all_resolved(cols.take(i as int), schema@) == Ok::<
                Seq<ColumnId>,
                ResolveErrorView,
            >(ids@),
    {
        assert(cols.take(i as int + 1).drop_last() =~= cols.take(i as int));
        assert(cols.take(i as int + 1).last() == by@[i as int]@);
        match resolve_column_ref(&by[i], schema) {
            Ok(id) => {
                ids.push(id);
            },
            Err(e) => {
                proof {
                    column_resolution::lemma_resolution_stops(cols, schema@, i as int + 1);
                }
                return Err(BridgeError::By(e));
            },
        }
    }
    assert(cols.take(by@.len() as int) =~= cols);
    Ok(
        BridgedTopK::HeavyHitter {
            k,
            by: ids,
            intent: AggIntent::TopK {
                k,
                accuracy: AccuracyTarget::Epsilon(Decimal { units: 50_000_000_000_000_000 }),
            },
        },
    )
}

} // verus!
