//! Logical plans and their summaries.
use vstd::prelude::*;

use crate::algebra::expr::{QueryExpr, QueryView};
use crate::decimal::Decimal;
use crate::label_map::LabelMap;
use crate::query_parser::summary;
use crate::query_parser::summary::{
    clone_agg_types, clone_opt_hint, ParsedQuery, ParsedView, QueryHint,
};
use crate::text;
use crate::types::{clone_decimals, AggType, Duration, QueryLanguage};

verus! {

/// The flat summary of a plan, whatever its language.
#[derive(Debug)]
pub struct LanguageLogicalPlanSummary {
    /// The metric or table read.
    pub metric_name: String,
    /// The aggregation families asked for.
    pub aggregations: Vec<AggType>,
    /// The labels grouped by.
    pub group_by_labels: Vec<String>,
    /// The labels that have to equal a value.
    pub label_filters: LabelMap,
    /// The window.
    pub time_window: Duration,
    /// Whether every sample is needed.
    pub exact_required: bool,
    /// The quantile ranks asked for.
    pub quantiles: Vec<Decimal>,
    /// The query pattern, where it is a known one.
    pub hint: Option<QueryHint>,
}

impl View for LanguageLogicalPlanSummary {
    type V = ParsedView;

    open spec fn view(&self) -> ParsedView {
        ParsedView {
            metric_name: self.metric_name@,
            aggregations: self.aggregations@,
            group_by_labels: text::texts(self.group_by_labels@),
            label_filters: self.label_filters@,
            time_window: self.time_window,
            exact_required: self.exact_required,
            quantiles: self.quantiles@,
            hint: summary::opt_hint(self.hint),
        }
    }
}

impl Default for LanguageLogicalPlanSummary {
    fn default() -> (r: LanguageLogicalPlanSummary)
        ensures
            r@ == (ParsedView {
                metric_name: Seq::empty(),
                aggregations: Seq::empty(),
                group_by_labels: Seq::empty(),
                label_filters: Seq::empty(),
                time_window: Duration { secs: 0, nanos: 0 },
                exact_required: false,
                quantiles: Seq::empty(),
                hint: None,
            }),
    {
        LanguageLogicalPlanSummary {
            metric_name: String::new(),
            aggregations: Vec::new(),
            group_by_labels: Vec::new(),
            label_filters: LabelMap::new(),
            time_window: Duration { secs: 0, nanos: 0 },
            exact_required: false,
            quantiles: Vec::new(),
            hint: None,
        }
    }
}

impl LanguageLogicalPlanSummary {
    /// The summary of a query.
    pub fn from_parsed_query(pq: &ParsedQuery) -> (r: LanguageLogicalPlanSummary)
        ensures
            r@ == pq@,
    {
        LanguageLogicalPlanSummary {
            metric_name: pq.metric_name.clone(),
            aggregations: clone_agg_types(&pq.aggregations),
            group_by_labels: text::clone_texts(&pq.group_by_labels),
            label_filters: pq.label_filters.clone(),
            time_window: pq.time_window,
            exact_required: pq.exact_required,
            quantiles: clone_decimals(&pq.quantiles),
            hint: clone_opt_hint(&pq.hint),
        }
    }
}

impl Clone for LanguageLogicalPlanSummary {
    fn clone(&self) -> (r: LanguageLogicalPlanSummary)
        ensures
            r@ == self@,
    {
        LanguageLogicalPlanSummary {
            metric_name: self.metric_name.clone(),
            aggregations: clone_agg_types(&self.aggregations),
            group_by_labels: text::clone_texts(&self.group_by_labels),
            label_filters: self.label_filters.clone(),
            time_window: self.time_window,
            exact_required: self.exact_required,
            quantiles: clone_decimals(&self.quantiles),
            hint: clone_opt_hint(&self.hint),
        }
    }
}

/// A logical plan, by language.
#[derive(Debug)]
pub enum LanguageLogicalPlan {
    /// A PromQL plan.
    PromQL {
        /// The text.
        source: String,
        /// The query.
        tree: QueryExpr,
        /// The summary.
        summary: LanguageLogicalPlanSummary,
    },
}

/// What [`LanguageLogicalPlan`] holds.
#[verifier::ext_equal]
pub enum LogicalPlanView {
    PromQL { source: Seq<char>, tree: QueryView, summary: ParsedView },
}

impl View for LanguageLogicalPlan {
    type V = LogicalPlanView;

    open spec fn view(&self) -> LogicalPlanView {
        match self {
            LanguageLogicalPlan::PromQL { source, tree, summary } => LogicalPlanView::PromQL {
                source: source@,
                tree: tree@,
                summary: summary@,
            },
        }
    }
}

impl LanguageLogicalPlan {
    /// The language.
    pub fn language(&self) -> (r: QueryLanguage)
        ensures
            r == QueryLanguage::PromQL,
    {
        match self {
            LanguageLogicalPlan::PromQL { .. } => QueryLanguage::PromQL,
        }
    }

    /// The text.
    pub fn source(&self) -> (r: &str)
        ensures
            r@ == self@->source,
    {
        match self {
            LanguageLogicalPlan::PromQL { source, .. } => source.as_str(),
        }
    }

    /// The summary.
    pub fn summary(&self) -> (r: &LanguageLogicalPlanSummary)
        ensures
            r@ == self@->summary,
    {
        match self {
            LanguageLogicalPlan::PromQL { summary, .. } => summary,
        }
    }

    /// The query of a PromQL plan.
    pub fn as_promql_tree(&self) -> (r: Option<&QueryExpr>)
        ensures
            r matches Some(t) && t@ == self@->tree,
    {
        match self {
            LanguageLogicalPlan::PromQL { tree, .. } => Some(tree),
        }
    }
}

impl Clone for LanguageLogicalPlan {
    fn clone(&self) -> (r: LanguageLogicalPlan)
        ensures
            r@ == self@,
    {
        match self {
            LanguageLogicalPlan::PromQL { source, tree, summary } => LanguageLogicalPlan::PromQL {
                source: source.clone(),
                tree: tree.clone(),
                summary: summary.clone(),
            },
        }
    }
}

} // verus!
