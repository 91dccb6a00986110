//! The workload of each planned metric, kept so that the metric can be planned
//! again.
use vstd::prelude::*;
use vstd::string::*;

use crate::decimal::Decimal;
use crate::label_map::LabelMap;
use crate::named_map;
use crate::named_map::NamedMap;
use crate::query_parser::summary::clone_agg_types;
use crate::text;
use crate::types::{clone_decimals, AggType, Duration, SketchType};

verus! {

/// What is asked of a metric.
#[derive(Debug)]
pub struct QueryWorkload {
    pub metric_name: String,
    pub label_filters: LabelMap,
    pub group_by_labels: Vec<String>,
    pub aggregations: Vec<AggType>,
    pub time_window: Duration,
    pub repeat_every: Option<Duration>,
    pub accuracy_sla: Decimal,
    pub latency_sla: Option<Duration>,
    pub sketch_type_override: Option<SketchType>,
    pub exact_required: bool,
    pub quantiles: Vec<Decimal>,
}

/// What [`QueryWorkload`] holds.
#[verifier::ext_equal]
pub struct WorkloadView {
    pub metric_name: Seq<char>,
    pub label_filters: Seq<(Seq<char>, Seq<char>)>,
    pub group_by_labels: Seq<Seq<char>>,
    pub aggregations: Seq<AggType>,
    pub time_window: Duration,
    pub repeat_every: Option<Duration>,
    pub accuracy_sla: Decimal,
    pub latency_sla: Option<Duration>,
    pub sketch_type_override: Option<SketchType>,
    pub exact_required: bool,
    pub quantiles: Seq<Decimal>,
}

impl View for QueryWorkload {
    type V = WorkloadView;

    open spec fn view(&self) -> WorkloadView {
        WorkloadView {
            metric_name: self.metric_name@,
            label_filters: self.label_filters@,
            group_by_labels: text::texts(self.group_by_labels@),
            aggregations: self.aggregations@,
            time_window: self.time_window,
            repeat_every: self.repeat_every,
            accuracy_sla: self.accuracy_sla,
            latency_sla: self.latency_sla,
            sketch_type_override: self.sketch_type_override,
            exact_required: self.exact_required,
            quantiles: self.quantiles@,
        }
    }
}

impl Clone for QueryWorkload {
    fn clone(&self) -> (r: QueryWorkload)
        ensures
            r@ == self@,
    {
        QueryWorkload {
            metric_name: self.metric_name.clone(),
            label_filters: self.label_filters.clone(),
            group_by_labels: text::clone_texts(&self.group_by_labels),
            aggregations: clone_agg_types(&self.aggregations),
            time_window: self.time_window,
            repeat_every: self.repeat_every,
            accuracy_sla: self.accuracy_sla,
            latency_sla: self.latency_sla,
            sketch_type_override: self.sketch_type_override,
            exact_required: self.exact_required,
            quantiles: clone_decimals(&self.quantiles),
        }
    }
}

/// What is known of the samples of a metric.
#[derive(Clone, Copy, Debug, PartialEq, Eq, Structural)]
pub struct WorkloadCharacteristics {
    /// Samples per second.
    pub samples_per_sec: Option<u64>,
    /// Distinct series.
    pub series: Option<u64>,
}

impl Default for WorkloadCharacteristics {
    fn default() -> (r: WorkloadCharacteristics)
        ensures
            r.samples_per_sec is None,
            r.series is None,
    {
        WorkloadCharacteristics { samples_per_sec: None, series: None }
    }
}

/// The workload of each planned metric.
#[derive(Debug)]
pub struct WorkloadStore {
    inner: NamedMap<(QueryWorkload, WorkloadCharacteristics)>,
}

/// What is stored, with the workloads by their contents.
pub open spec fn stored(s: Seq<(Seq<char>, (QueryWorkload, WorkloadCharacteristics))>) -> Seq<
    (Seq<char>, (WorkloadView, WorkloadCharacteristics)),
> {
    Seq::new(s.len(), |i: int| (s[i].0, (s[i].1.0@, s[i].1.1)))
}

impl View for WorkloadStore {
    type V = Seq<(Seq<char>, (WorkloadView, WorkloadCharacteristics))>;

    closed spec fn view(&self) -> Seq<(Seq<char>, (WorkloadView, WorkloadCharacteristics))> {
        stored(self.inner@)
    }
}

proof fn lemma_stored(
    s: Seq<(Seq<char>, (QueryWorkload, WorkloadCharacteristics))>,
    name: Seq<char>,
    v: (QueryWorkload, WorkloadCharacteristics),
)
    ensures
        match named_map::value_of(s, name) {
            Some(x) => named_map::value_of(stored(s), name) == Some((x.0@, x.1)),
            None => named_map::value_of(stored(s), name) is None,
        },
        stored(named_map::with_value(s, name, v)) == named_map::with_value(
            stored(s),
            name,
            (v.0@, v.1),
        ),
        stored(named_map::without(s, name)) == named_map::without(stored(s), name),
{
    let i = named_map::lemma_find(s, name);
    named_map::lemma_first(s, i, name, v);
    assert forall|j: int| 0 <= j < i implies (#[trigger] stored(s)[j]).0 != name by {
        assert(s[j].0 != name);
    }
    named_map::lemma_first(stored(s), i, name, (v.0@, v.1));
    assert(stored(named_map::with_value(s, name, v)) =~= named_map::with_value(
        stored(s),
        name,
        (v.0@, v.1),
    ));
    assert(stored(named_map::without(s, name)) =~= named_map::without(stored(s), name));
}

/// Where no metric stands twice, none does with the workloads by their contents.
proof fn lemma_stored_distinct(s: Seq<(Seq<char>, (QueryWorkload, WorkloadCharacteristics))>)
    requires
        named_map::distinct(s),
    ensures
        named_map::distinct(stored(s)),
{
    let t = stored(s);
    assert forall|i: int, j: int| 0 <= i < j < t.len() implies (#[trigger] t[i]).0 != (
    #[trigger] t[j]).0 by {
        assert(s[i].0 != s[j].0);
    }
}

impl WorkloadStore {
    /// Nothing stored.
    pub fn new() -> (r: WorkloadStore)
        ensures
            r@.len() == 0,
            named_map::distinct(r@),
    {
        WorkloadStore { inner: NamedMap::new() }
    }

    /// Store the workload of a metric in place of any earlier one.
    pub fn set(&mut self, metric: &str, wl: QueryWorkload, wc: WorkloadCharacteristics)
        ensures
            final(self)@ == named_map::with_value(old(self)@, metric@, (wl@, wc)),
            named_map::distinct(old(self)@),
            named_map::distinct(final(self)@),
    {
        let ghost before = self.inner@;
        proof {
            lemma_stored(before, metric@, (wl, wc));
        }
        let _ = self.inner.insert(metric.to_owned(), (wl, wc));
        proof {
            lemma_stored_distinct(before);
            lemma_stored_distinct(self.inner@);
        }
    }

    /// A copy of the workload of a metric.
    pub fn get(&self, metric: &str) -> (r: Option<(QueryWorkload, WorkloadCharacteristics)>)
        ensures
            named_map::distinct(self@),
            match r {
                Some((wl, wc)) => named_map::value_of(self@, metric@) == Some((wl@, wc)),
                None => named_map::value_of(self@, metric@) is None,
            },
    {
        let found = self.inner.get(metric);
        proof {
            lemma_stored(self.inner@, metric@, arbitrary());
            lemma_stored_distinct(self.inner@);
        }
        match found {
            Some((wl, wc)) => Some((wl.clone(), *wc)),
            None => None,
        }
    }

    /// Forget the workload of a metric.
    pub fn remove(&mut self, metric: &str)
        ensures
            final(self)@ == named_map::without(old(self)@, metric@),
            named_map::distinct(old(self)@),
            named_map::distinct(final(self)@),
    {
        let ghost before = self.inner@;
        proof {
            lemma_stored(before, metric@, arbitrary());
        }
        let _ = self.inner.remove(metric);
        proof {
            lemma_stored_distinct(before);
            lemma_stored_distinct(self.inner@);
        }
    }
}

} // verus!
