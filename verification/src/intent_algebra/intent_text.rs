//! Intents written out in the form of their constructors:
//! `Quantile { q: 0.99, accuracy: Epsilon(0.01) }`.
use vstd::prelude::*;
use vstd::string::*;

use crate::decimal;
use crate::decimal::{push_decimal, push_decimal_debug, Decimal};
use crate::intent_algebra::agg_intent::AggIntent;
use crate::text;
use crate::types::{AccuracyTarget, Duration};

verus! {

/// A duration in the largest of seconds, milliseconds, microseconds and
/// nanoseconds that it fills: `300s`, `1.5s`, `250ms`, `0ns`.
pub open spec fn span_text(d: Duration) -> Seq<char> {
    if d.secs > 0 {
        decimal::decimal_text(
            Decimal {
                units: (d.secs * 1_000_000_000_000_000_000 + d.nanos * 1_000_000_000) as i128,
            },
        ) + "s"@
    } else if d.nanos >= 1_000_000 {
        decimal::decimal_text(Decimal { units: (d.nanos * 1_000_000_000_000) as i128 }) + "ms"@
    } else if d.nanos >= 1_000 {
        decimal::decimal_text(Decimal { units: (d.nanos * 1_000_000_000_000_000) as i128 })
            + "µs"@
    } else {
        text::nat_text(d.nanos as nat) + "ns"@
    }
}

/// Append a duration with its unit.
pub fn push_span(out: &mut String, d: Duration)
    ensures
        final(out)@ == old(out)@ + span_text(d),
{
    let ghost before = out@;
    if d.secs > 0 {
        let units: i128 = d.secs as i128 * 1_000_000_000_000_000_000 + d.nanos as i128
            * 1_000_000_000;
        push_decimal(out, Decimal { units });
        out.append("s");
    } else if d.nanos >= 1_000_000 {
        push_decimal(out, Decimal { units: d.nanos as i128 * 1_000_000_000_000 });
        out.append("ms");
    } else if d.nanos >= 1_000 {
        push_decimal(out, Decimal { units: d.nanos as i128 * 1_000_000_000_000_000 });
        out.append("µs");
    } else {
        text::push_u64(out, d.nanos as u64);
        out.append("ns");
    }
    assert(out@ =~= before + span_text(d));
}

/// An accuracy target in the form of its constructor.
pub open spec fn accuracy_text(a: AccuracyTarget) -> Seq<char> {
    match a {
        AccuracyTarget::Exact => "Exact"@,
        AccuracyTarget::Epsilon(eps) => "Epsilon("@ + decimal::decimal_debug_text(eps) + ")"@,
        AccuracyTarget::EpsilonDelta { eps, delta } => "EpsilonDelta { eps: "@
            + decimal::decimal_debug_text(eps) + ", delta: "@ + decimal::decimal_debug_text(delta)
            + " }"@,
    }
}

/// Append an accuracy target in the form of its constructor.
pub fn push_accuracy(out: &mut String, a: AccuracyTarget)
    ensures
        final(out)@ == old(out)@ + accuracy_text(a),
{
    let ghost before = out@;
    match a {
        AccuracyTarget::Exact => {
            out.append("Exact");
        },
        AccuracyTarget::Epsilon(eps) => {
            out.append("Epsilon(");
            push_decimal_debug(out, eps);
            out.append(")");
        },
        AccuracyTarget::EpsilonDelta { eps, delta } => {
            out.append("EpsilonDelta { eps: ");
            push_decimal_debug(out, eps);
            out.append(", delta: ");
            push_decimal_debug(out, delta);
            out.append(" }");
        },
    }
    assert(out@ =~= before + accuracy_text(a));
}

/// `Name { window: 300s }`.
pub open spec fn window_form(name: Seq<char>, d: Duration) -> Seq<char> {
    name + " { window: "@ + span_text(d) + " }"@
}

/// `Name { accuracy: Epsilon(0.01) }`.
pub open spec fn accuracy_form(name: Seq<char>, a: AccuracyTarget) -> Seq<char> {
    name + " { accuracy: "@ + accuracy_text(a) + " }"@
}

/// An intent in the form of its constructor.
pub open spec fn intent_text(op: AggIntent) -> Seq<char> {
    match op {
        AggIntent::Count { accuracy } => accuracy_form("Count"@, accuracy),
        AggIntent::Sum => "Sum"@,
        AggIntent::Min => "Min"@,
        AggIntent::Max => "Max"@,
        AggIntent::Avg => "Avg"@,
        AggIntent::Quantile { q, accuracy } => "Quantile { q: "@ + decimal::decimal_debug_text(q)
            + ", accuracy: "@ + accuracy_text(accuracy) + " }"@,
        AggIntent::TopK { k, accuracy } => "TopK { k: "@ + text::nat_text(k as nat)
            + ", accuracy: "@ + accuracy_text(accuracy) + " }"@,
        AggIntent::Cardinality { accuracy } => accuracy_form("Cardinality"@, accuracy),
        AggIntent::Frequency { accuracy } => accuracy_form("Frequency"@, accuracy),
        AggIntent::Rate { window } => window_form("Rate"@, window),
        AggIntent::Increase { window } => window_form("Increase"@, window),
        AggIntent::HistogramQuantile { q } => "HistogramQuantile { q: "@
            + decimal::decimal_debug_text(q) + " }"@,
        AggIntent::Absent => "Absent"@,
        AggIntent::Present => "Present"@,
        AggIntent::Delta { window } => window_form("Delta"@, window),
        AggIntent::Deriv { window } => window_form("Deriv"@, window),
        AggIntent::PredictLinear { window, ahead } => "PredictLinear { window: "@ + span_text(window)
            + ", ahead: "@ + span_text(ahead) + " }"@,
        AggIntent::HoltWinters { window, smoothing_factor, trend_factor } =>
            "HoltWinters { window: "@ + span_text(window) + ", smoothing_factor: "@
            + decimal::decimal_debug_text(smoothing_factor) + ", trend_factor: "@
            + decimal::decimal_debug_text(trend_factor) + " }"@,
        AggIntent::Idelta { window } => window_form("Idelta"@, window),
        AggIntent::Irate { window } => window_form("Irate"@, window),
        AggIntent::Resets { window } => window_form("Resets"@, window),
        AggIntent::Changes { window } => window_form("Changes"@, window),
    }
}

fn push_window_form(out: &mut String, name: &str, d: Duration)
    ensures
        final(out)@ == old(out)@ + window_form(name@, d),
{
    let ghost before = out@;
    out.append(name);
    out.append(" { window: ");
    push_span(out, d);
    out.append(" }");
    assert(out@ =~= before + window_form(name@, d));
}

fn push_accuracy_form(out: &mut String, name: &str, a: AccuracyTarget)
    ensures
        final(out)@ == old(out)@ + accuracy_form(name@, a),
{
    let ghost before = out@;
    out.append(name);
    out.append(" { accuracy: ");
    push_accuracy(out, a);
    out.append(" }");
    assert(out@ =~= before + accuracy_form(name@, a));
}

/// Append an intent in the form of its constructor.
pub fn push_intent(out: &mut String, op: &AggIntent)
    ensures
        final(out)@ == old(out)@ + intent_text(*op),
{
    let ghost before = out@;
    match op {
        AggIntent::Count { accuracy } => push_accuracy_form(out, "Count", *accuracy),
        AggIntent::Sum => {
            out.append("Sum");
        },
        AggIntent::Min => {
            out.append("Min");
        },
        AggIntent::Max => {
            out.append("Max");
        },
        AggIntent::Avg => {
            out.append("Avg");
        },
        AggIntent::Quantile { q, accuracy } => {
            out.append("Quantile { q: ");
            push_decimal_debug(out, *q);
            out.append(", accuracy: ");
            push_accuracy(out, *accuracy);
            out.append(" }");
        },
        AggIntent::TopK { k, accuracy } => {
            out.append("TopK { k: ");
            text::push_u64(out, *k);
            out.append(", accuracy: ");
            push_accuracy(out, *accuracy);
            out.append(" }");
        },
        AggIntent::Cardinality { accuracy } => push_accuracy_form(out, "Cardinality", *accuracy),
        AggIntent::Frequency { accuracy } => push_accuracy_form(out, "Frequency", *accuracy),
        AggIntent::Rate { window } => push_window_form(out, "Rate", *window),
        AggIntent::Increase { window } => push_window_form(out, "Increase", *window),
        AggIntent::HistogramQuantile { q } => {
            out.append("HistogramQuantile { q: ");
            push_decimal_debug(out, *q);
            out.append(" }");
        },
        AggIntent::Absent => {
            out.append("Absent");
        },
        AggIntent::Present => {
            out.append("Present");
        },
        AggIntent::Delta { window } => push_window_form(out, "Delta", *window),
        AggIntent::Deriv { window } => push_window_form(out, "Deriv", *window),
        AggIntent::PredictLinear { window, ahead } => {
            out.append("PredictLinear { window: ");
            push_span(out, *window);
            out.append(", ahead: ");
            push_span(out, *ahead);
            out.append(" }");
        },
        AggIntent::HoltWinters { window, smoothing_factor, trend_factor } => {
            out.append("HoltWinters { window: ");
            push_span(out, *window);
            out.append(", smoothing_factor: ");
            push_decimal_debug(out, *smoothing_factor);
            out.append(", trend_factor: ");
            push_decimal_debug(out, *trend_factor);
            out.append(" }");
        },
        AggIntent::Idelta { window } => push_window_form(out, "Idelta", *window),
        AggIntent::Irate { window } => push_window_form(out, "Irate", *window),
        AggIntent::Resets { window } => push_window_form(out, "Resets", *window),
        AggIntent::Changes { window } => push_window_form(out, "Changes", *window),
    }
    assert(out@ =~= before + intent_text(*op));
}

} // verus!
