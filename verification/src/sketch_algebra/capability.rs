//! What sketches can answer and what they cost.
use vstd::prelude::*;

use crate::decimal::Decimal;
use crate::intent_algebra::agg_intent::AggIntent;
use crate::sketch_algebra::params::SketchKind;
use crate::text;
use crate::types::AccuracyTarget;

verus! {

// ── Query-side capability ─────────────────────────────────────────────────────

/// A query family that the warm tier can answer, with the sketch to use.
#[derive(Clone, Copy, Debug, PartialEq, Eq, Structural)]
pub enum Capability {
    QuantileApprox(SketchKindHandle),
    CardinalityApprox,
    FrequencyTopk(SketchKindHandle),
}

/// A sketch implementation, or any of its family.
#[derive(Clone, Copy, Debug, PartialEq, Eq, Structural)]
pub enum SketchKindHandle {
    DDSketch,
    Kll,
    Hll,
    CountSketch,
    CountMin,
    /// Count-min sketch with a heavy-hitter heap.
    CmsWithHeap,
    /// Any implementation of the family.
    Any,
}

/// Whether an available implementation serves a required one.
pub open spec fn serves(required: SketchKindHandle, available: SketchKindHandle) -> bool {
    required == SketchKindHandle::Any || required == available
}

/// Whether an available implementation serves a required one.
fn handles_compatible(required: SketchKindHandle, available: SketchKindHandle) -> (r: bool)
    ensures
        r == serves(required, available),
{
    matches!(required, SketchKindHandle::Any) || required == available
}

impl Capability {
    /// Whether an indexed sketch of capability `indexed` answers a query that
    /// requires `self`: same family, and the implementation serves.
    pub open spec fn satisfied_by(self, indexed: Capability) -> bool {
        match (self, indexed) {
            (Capability::QuantileApprox(req), Capability::QuantileApprox(have)) => serves(req, have),
            (Capability::CardinalityApprox, Capability::CardinalityApprox) => true,
            (Capability::FrequencyTopk(req), Capability::FrequencyTopk(have)) => serves(req, have),
            _ => false,
        }
    }

    /// Whether an indexed sketch of capability `indexed` answers a query that
    /// requires `self`.
    pub fn is_satisfied_by(&self, indexed: &Capability) -> (r: bool)
        ensures
            r == self.satisfied_by(*indexed),
    {
        match (*self, *indexed) {
            (Capability::QuantileApprox(req), Capability::QuantileApprox(have)) => handles_compatible(
                req,
                have,
            ),
            (Capability::CardinalityApprox, Capability::CardinalityApprox) => true,
            (Capability::FrequencyTopk(req), Capability::FrequencyTopk(have)) => handles_compatible(
                req,
                have,
            ),
            _ => false,
        }
    }
}

/// Every capability satisfies itself; a wildcard is satisfied by each member of
/// its family; and what satisfies a query satisfies no query of another family.
pub proof fn law_satisfaction(a: Capability, h: SketchKindHandle, g: SketchKindHandle)
    ensures
        a.satisfied_by(a),
        Capability::QuantileApprox(SketchKindHandle::Any).satisfied_by(Capability::QuantileApprox(h)),
        Capability::FrequencyTopk(SketchKindHandle::Any).satisfied_by(Capability::FrequencyTopk(h)),
        !Capability::QuantileApprox(g).satisfied_by(Capability::CardinalityApprox),
        !Capability::QuantileApprox(g).satisfied_by(Capability::FrequencyTopk(h)),
        !Capability::FrequencyTopk(g).satisfied_by(Capability::QuantileApprox(h)),
        !Capability::FrequencyTopk(g).satisfied_by(Capability::CardinalityApprox),
        !Capability::CardinalityApprox.satisfied_by(Capability::QuantileApprox(h)),
        !Capability::CardinalityApprox.satisfied_by(Capability::FrequencyTopk(h)),
{
}

/// Within a family an implementation is what was asked for, unless any will do;
/// and one that will not do for itself does for nothing else.
pub proof fn law_implementation_is_the_one_asked_for(
    asked: SketchKindHandle,
    have: SketchKindHandle,
)
    ensures
        Capability::QuantileApprox(asked).satisfied_by(Capability::QuantileApprox(have)) ==> asked
            is Any || asked == have,
        Capability::FrequencyTopk(asked).satisfied_by(Capability::FrequencyTopk(have)) ==> asked
            is Any || asked == have,
        asked == have ==> Capability::QuantileApprox(asked).satisfied_by(
            Capability::QuantileApprox(have),
        ) && Capability::FrequencyTopk(asked).satisfied_by(Capability::FrequencyTopk(have)),
{
}

/// The capability that answers an intent; `None` where no warm-tier sketch
/// does, or where the intent asks for an exact answer.
pub open spec fn needed_capability(intent: AggIntent) -> Option<Capability> {
    match intent {
        AggIntent::Quantile { accuracy, .. } => if accuracy == AccuracyTarget::Exact {
            None
        } else {
            Some(Capability::QuantileApprox(SketchKindHandle::Any))
        },
        AggIntent::Cardinality { accuracy } | AggIntent::Count { accuracy } => if accuracy
            == AccuracyTarget::Exact {
            None
        } else {
            Some(Capability::CardinalityApprox)
        },
        AggIntent::TopK { .. } => Some(Capability::FrequencyTopk(SketchKindHandle::CmsWithHeap)),
        AggIntent::Frequency { accuracy } => if accuracy == AccuracyTarget::Exact {
            None
        } else {
            Some(Capability::FrequencyTopk(SketchKindHandle::CmsWithHeap))
        },
        _ => None,
    }
}

/// The capability that answers an intent; `None` where no warm-tier sketch
/// does, or where the intent asks for an exact answer.
pub fn capability_for(intent: &AggIntent) -> (r: Option<Capability>)
    ensures
        r == needed_capability(*intent),
{
    match intent {
        AggIntent::Quantile { accuracy, .. } => {
            if is_exact(accuracy) {
                None
            } else {
                Some(Capability::QuantileApprox(SketchKindHandle::Any))
            }
        },
        AggIntent::Cardinality { accuracy } => {
            if is_exact(accuracy) {
                None
            } else {
                Some(Capability::CardinalityApprox)
            }
        },
        AggIntent::Count { accuracy } => {
            if is_exact(accuracy) {
                None
            } else {
                Some(Capability::CardinalityApprox)
            }
        },
        AggIntent::TopK { .. } => Some(Capability::FrequencyTopk(SketchKindHandle::CmsWithHeap)),
        AggIntent::Frequency { accuracy } => {
            if is_exact(accuracy) {
                None
            } else {
                Some(Capability::FrequencyTopk(SketchKindHandle::CmsWithHeap))
            }
        },
        AggIntent::Sum
        | AggIntent::Min
        | AggIntent::Max
        | AggIntent::Avg
        | AggIntent::Rate { .. }
        | AggIntent::Increase { .. } => None,
        AggIntent::HistogramQuantile { .. }
        | AggIntent::Absent
        | AggIntent::Present
        | AggIntent::Delta { .. }
        | AggIntent::Deriv { .. }
        | AggIntent::PredictLinear { .. }
        | AggIntent::HoltWinters { .. }
        | AggIntent::Idelta { .. }
        | AggIntent::Irate { .. }
        | AggIntent::Resets { .. }
        | AggIntent::Changes { .. } => None,
    }
}

/// Whether the target forbids approximation.
fn is_exact(accuracy: &AccuracyTarget) -> (r: bool)
    ensures
        r == (*accuracy == AccuracyTarget::Exact),
{
    matches!(accuracy, AccuracyTarget::Exact)
}

/// The capability for an intent is of the intent's own family: quantiles take any
/// quantile sketch, distinct counts and approximate counts a distinct-count
/// sketch, rankings and frequencies a heap of heavy hitters. Nothing else has a
/// capability, and nothing that has to be exact but a ranking.
pub proof fn law_capability_is_of_the_intents_family(intent: AggIntent)
    ensures
        match needed_capability(intent) {
            Some(Capability::QuantileApprox(h)) => intent is Quantile && h is Any,
            Some(Capability::CardinalityApprox) => intent is Cardinality || intent is Count,
            Some(Capability::FrequencyTopk(h)) => (intent is TopK || intent is Frequency)
                && h is CmsWithHeap,
            _ => !(intent is TopK),
        },
        match intent {
            AggIntent::Quantile { accuracy, .. }
            | AggIntent::Cardinality { accuracy }
            | AggIntent::Count { accuracy }
            | AggIntent::Frequency { accuracy } => needed_capability(intent) is Some <==> !(
            accuracy is Exact),
            AggIntent::TopK { .. } => needed_capability(intent) is Some,
            _ => needed_capability(intent) is None,
        },
{
}

/// An intent that only the archive tier can answer has no warm-tier
/// capability.
pub proof fn law_archived_has_no_capability(intent: AggIntent)
    ensures
        intent.archived() ==> needed_capability(intent) is None,
{
}

// ── Sketch profiles ───────────────────────────────────────────────────────────

/// An intent family that a sketch can serve.
#[derive(Clone, Copy, Debug, PartialEq, Eq, Structural)]
pub enum SupportedIntent {
    Quantile,
    Cardinality,
    Frequency,
    Extrema,
}

/// Cost and abilities of a sketch family.
#[derive(Debug)]
pub struct SketchCapability {
    /// Samples inserted per second on one core.
    pub insert_throughput: Decimal,
    /// Queries answered per second on one core.
    pub query_throughput: Decimal,
    /// Memory per series in bytes.
    pub memory_bytes_per_series: u64,
    /// Microseconds of CPU per insert.
    pub cpu_micros_per_insert: Decimal,
    /// Bytes sent per flush.
    pub transmission_bytes: u64,
    /// The intents that the sketch serves.
    pub supported_intents: Vec<SupportedIntent>,
    /// Whether two sketches merge.
    pub mergeable: bool,
    /// Whether changes alone can be sent.
    pub supports_delta: bool,
    /// Whether sliding windows are native.
    pub supports_sliding_window: bool,
}

/// What [`SketchCapability`] holds.
#[verifier::ext_equal]
pub struct CapabilityView {
    pub insert_throughput: Decimal,
    pub query_throughput: Decimal,
    pub memory_bytes_per_series: u64,
    pub cpu_micros_per_insert: Decimal,
    pub transmission_bytes: u64,
    pub supported_intents: Seq<SupportedIntent>,
    pub mergeable: bool,
    pub supports_delta: bool,
    pub supports_sliding_window: bool,
}

impl View for SketchCapability {
    type V = CapabilityView;

    open spec fn view(&self) -> CapabilityView {
        CapabilityView {
            insert_throughput: self.insert_throughput,
            query_throughput: self.query_throughput,
            memory_bytes_per_series: self.memory_bytes_per_series,
            cpu_micros_per_insert: self.cpu_micros_per_insert,
            transmission_bytes: self.transmission_bytes,
            supported_intents: self.supported_intents@,
            mergeable: self.mergeable,
            supports_delta: self.supports_delta,
            supports_sliding_window: self.supports_sliding_window,
        }
    }
}

/// The built-in profile of a family.
pub open spec fn default_profile(kind: SketchKind) -> CapabilityView {
    match kind {
        SketchKind::DDSketch => CapabilityView {
            insert_throughput: Decimal { units: 10_000_000_000_000_000_000_000_000 },
            query_throughput: Decimal { units: 50_000_000_000_000_000_000_000_000 },
            memory_bytes_per_series: 4_096,
            cpu_micros_per_insert: Decimal { units: 100_000_000_000_000_000 },
            transmission_bytes: 4_096,
            supported_intents: seq![SupportedIntent::Quantile, SupportedIntent::Extrema],
            mergeable: true,
            supports_delta: true,
            supports_sliding_window: false,
        },
        SketchKind::Kll => CapabilityView {
            insert_throughput: Decimal { units: 5_000_000_000_000_000_000_000_000 },
            query_throughput: Decimal { units: 20_000_000_000_000_000_000_000_000 },
            memory_bytes_per_series: 8_192,
            cpu_micros_per_insert: Decimal { units: 200_000_000_000_000_000 },
            transmission_bytes: 8_192,
            supported_intents: seq![SupportedIntent::Quantile, SupportedIntent::Extrema],
            mergeable: true,
            supports_delta: false,
            supports_sliding_window: false,
        },
        SketchKind::Hll => CapabilityView {
            insert_throughput: Decimal { units: 20_000_000_000_000_000_000_000_000 },
            query_throughput: Decimal { units: 100_000_000_000_000_000_000_000_000 },
            memory_bytes_per_series: 16_384,
            cpu_micros_per_insert: Decimal { units: 50_000_000_000_000_000 },
            transmission_bytes: 16_384,
            supported_intents: seq![SupportedIntent::Cardinality],
            mergeable: true,
            supports_delta: true,
            supports_sliding_window: false,
        },
        SketchKind::CountSketch | SketchKind::Cms => CapabilityView {
            insert_throughput: Decimal { units: 8_000_000_000_000_000_000_000_000 },
            query_throughput: Decimal { units: 10_000_000_000_000_000_000_000_000 },
            memory_bytes_per_series: 80_000,
            cpu_micros_per_insert: Decimal { units: 500_000_000_000_000_000 },
            transmission_bytes: 80_000,
            supported_intents: seq![SupportedIntent::Frequency],
            mergeable: true,
            supports_delta: true,
            supports_sliding_window: false,
        },
    }
}

/// The built-in profile of a family.
pub fn default_capability(kind: SketchKind) -> (r: SketchCapability)
    ensures
        r@ == default_profile(kind),
{
    let r = match kind {
        SketchKind::DDSketch => SketchCapability {
            insert_throughput: Decimal { units: 10_000_000_000_000_000_000_000_000 },
            query_throughput: Decimal { units: 50_000_000_000_000_000_000_000_000 },
            memory_bytes_per_series: 4_096,
            cpu_micros_per_insert: Decimal { units: 100_000_000_000_000_000 },
            transmission_bytes: 4_096,
            supported_intents: vec![SupportedIntent::Quantile, SupportedIntent::Extrema],
            mergeable: true,
            supports_delta: true,
            supports_sliding_window: false,
        },
        SketchKind::Kll => SketchCapability {
            insert_throughput: Decimal { units: 5_000_000_000_000_000_000_000_000 },
            query_throughput: Decimal { units: 20_000_000_000_000_000_000_000_000 },
            memory_bytes_per_series: 8_192,
            cpu_micros_per_insert: Decimal { units: 200_000_000_000_000_000 },
            transmission_bytes: 8_192,
            supported_intents: vec![SupportedIntent::Quantile, SupportedIntent::Extrema],
            mergeable: true,
            supports_delta: false,
            supports_sliding_window: false,
        },
        SketchKind::Hll => SketchCapability {
            insert_throughput: Decimal { units: 20_000_000_000_000_000_000_000_000 },
            query_throughput: Decimal { units: 100_000_000_000_000_000_000_000_000 },
            memory_bytes_per_series: 16_384,
            cpu_micros_per_insert: Decimal { units: 50_000_000_000_000_000 },
            transmission_bytes: 16_384,
            supported_intents: vec![SupportedIntent::Cardinality],
            mergeable: true,
            supports_delta: true,
            supports_sliding_window: false,
        },
        SketchKind::CountSketch | SketchKind::Cms => SketchCapability {
            insert_throughput: Decimal { units: 8_000_000_000_000_000_000_000_000 },
            query_throughput: Decimal { units: 10_000_000_000_000_000_000_000_000 },
            memory_bytes_per_series: 80_000,
            cpu_micros_per_insert: Decimal { units: 500_000_000_000_000_000 },
            transmission_bytes: 80_000,
            supported_intents: vec![SupportedIntent::Frequency],
            mergeable: true,
            supports_delta: true,
            supports_sliding_window: false,
        },
    };
    assert(r@ =~= default_profile(kind));
    r
}

/// Profiles of sketch families, one for each.
#[derive(Debug)]
pub struct CapabilityTable {
    pub ddsketch: SketchCapability,
    pub kll: SketchCapability,
    pub hll: SketchCapability,
    pub count_sketch: SketchCapability,
    pub cms: SketchCapability,
}

impl CapabilityTable {
    /// The profile of a family.
    pub open spec fn profile(self, kind: SketchKind) -> CapabilityView {
        match kind {
            SketchKind::DDSketch => self.ddsketch@,
            SketchKind::Kll => self.kll@,
            SketchKind::Hll => self.hll@,
            SketchKind::CountSketch => self.count_sketch@,
            SketchKind::Cms => self.cms@,
        }
    }

    /// The profile of a family.
    pub fn get(&self, kind: SketchKind) -> (r: &SketchCapability)
        ensures
            r@ == self.profile(kind),
    {
        match kind {
            SketchKind::DDSketch => &self.ddsketch,
            SketchKind::Kll => &self.kll,
            SketchKind::Hll => &self.hll,
            SketchKind::CountSketch => &self.count_sketch,
            SketchKind::Cms => &self.cms,
        }
    }
}

/// The built-in profiles, one for each family.
pub fn default_capability_table() -> (r: CapabilityTable)
    ensures
        forall|kind: SketchKind| #[trigger] r.profile(kind) == default_profile(kind),
{
    CapabilityTable {
        ddsketch: default_capability(SketchKind::DDSketch),
        kll: default_capability(SketchKind::Kll),
        hll: default_capability(SketchKind::Hll),
        count_sketch: default_capability(SketchKind::CountSketch),
        cms: default_capability(SketchKind::Cms),
    }
}

// ── Overrides ─────────────────────────────────────────────────────────────────

/// The intent that a name stands for.
pub open spec fn intent_named(name: Seq<char>) -> Option<SupportedIntent> {
    if name == "quantile"@ {
        Some(SupportedIntent::Quantile)
    } else if name == "cardinality"@ {
        Some(SupportedIntent::Cardinality)
    } else if name == "frequency"@ {
        Some(SupportedIntent::Frequency)
    } else if name == "extrema"@ {
        Some(SupportedIntent::Extrema)
    } else {
        None
    }
}

/// The intents that a list of names stands for, in order; unknown names are
/// left out.
pub open spec fn intents_named(names: Seq<Seq<char>>) -> Seq<SupportedIntent>
    decreases names.len(),
{
    if names.len() == 0 {
        Seq::empty()
    } else {
        match intent_named(names.last()) {
            Some(i) => intents_named(names.drop_last()).push(i),
            None => intents_named(names.drop_last()),
        }
    }
}

/// The intents that a list of names stands for, in order; unknown names are
/// left out.
pub fn supported_intents(names: &Vec<String>) -> (r: Vec<SupportedIntent>)
    ensures
        r@ == intents_named(text::texts(names@)),
{
    let mut out: Vec<SupportedIntent> = Vec::new();
    for i in 0..names.len()
        invariant
            out@ == intents_named(text::texts(names@).take(i as int)),
    {
        let s = names[i].as_str();
        if text::same(s, "quantile") {
            out.push(SupportedIntent::Quantile);
        } else if text::same(s, "cardinality") {
            out.push(SupportedIntent::Cardinality);
        } else if text::same(s, "frequency") {
            out.push(SupportedIntent::Frequency);
        } else if text::same(s, "extrema") {
            out.push(SupportedIntent::Extrema);
        }
        assert(text::texts(names@).take(i as int + 1).drop_last() =~= text::texts(names@).take(
            i as int,
        ));
    }
    assert(text::texts(names@).take(names@.len() as int) =~= text::texts(names@));
    out
}

/// A profile as it is configured, with its intents by name.
#[derive(Debug)]
pub struct CapabilityProfile {
    pub insert_throughput: Decimal,
    pub query_throughput: Decimal,
    pub memory_bytes_per_series: u64,
    pub cpu_micros_per_insert: Decimal,
    pub transmission_bytes: u64,
    pub supported_intents: Vec<String>,
    pub mergeable: bool,
    pub supports_delta: bool,
    pub supports_sliding_window: bool,
}

impl CapabilityProfile {
    /// The profile with its intents read.
    pub open spec fn meaning(self) -> CapabilityView {
        CapabilityView {
            insert_throughput: self.insert_throughput,
            query_throughput: self.query_throughput,
            memory_bytes_per_series: self.memory_bytes_per_series,
            cpu_micros_per_insert: self.cpu_micros_per_insert,
            transmission_bytes: self.transmission_bytes,
            supported_intents: intents_named(text::texts(self.supported_intents@)),
            mergeable: self.mergeable,
            supports_delta: self.supports_delta,
            supports_sliding_window: self.supports_sliding_window,
        }
    }

    /// The profile with its intents read.
    pub fn to_capability(&self) -> (r: SketchCapability)
        ensures
            r@ == self.meaning(),
    {
        SketchCapability {
            insert_throughput: self.insert_throughput,
            query_throughput: self.query_throughput,
            memory_bytes_per_series: self.memory_bytes_per_series,
            cpu_micros_per_insert: self.cpu_micros_per_insert,
            transmission_bytes: self.transmission_bytes,
            supported_intents: supported_intents(&self.supported_intents),
            mergeable: self.mergeable,
            supports_delta: self.supports_delta,
            supports_sliding_window: self.supports_sliding_window,
        }
    }
}

/// Configured profiles of all families.
#[derive(Debug)]
pub struct CapabilityProfiles {
    pub ddsketch: CapabilityProfile,
    pub kll: CapabilityProfile,
    pub hll: CapabilityProfile,
    pub count_sketch: CapabilityProfile,
    pub count_min_sketch: CapabilityProfile,
}

impl CapabilityProfiles {
    /// The configured profile of a family.
    pub open spec fn profile(self, kind: SketchKind) -> CapabilityView {
        match kind {
            SketchKind::DDSketch => self.ddsketch.meaning(),
            SketchKind::Kll => self.kll.meaning(),
            SketchKind::Hll => self.hll.meaning(),
            SketchKind::CountSketch => self.count_sketch.meaning(),
            SketchKind::Cms => self.count_min_sketch.meaning(),
        }
    }
}

/// The profiles that are configured, or the built-in ones where none are.
pub fn capability_overrides(configured: &Option<CapabilityProfiles>) -> (r: CapabilityTable)
    ensures
        forall|kind: SketchKind| #[trigger]
            r.profile(kind) == match *configured {
                Some(file) => file.profile(kind),
                None => default_profile(kind),
            },
{
    match configured {
        Some(file) => CapabilityTable {
            ddsketch: file.ddsketch.to_capability(),
            kll: file.kll.to_capability(),
            hll: file.hll.to_capability(),
            count_sketch: file.count_sketch.to_capability(),
            cms: file.count_min_sketch.to_capability(),
        },
        None => default_capability_table(),
    }
}

/// The name of an intent family in a configuration.
pub open spec fn family_name(i: SupportedIntent) -> Seq<char> {
    match i {
        SupportedIntent::Quantile => "quantile"@,
        SupportedIntent::Cardinality => "cardinality"@,
        SupportedIntent::Frequency => "frequency"@,
        SupportedIntent::Extrema => "extrema"@,
    }
}

/// Each family is read back from its name, and lists of names are read name by
/// name.
pub proof fn law_intents_read_back(i: SupportedIntent, a: Seq<Seq<char>>, b: Seq<Seq<char>>)
    ensures
        intents_named(seq![family_name(i)]) == seq![i],
        intents_named(a + b) == intents_named(a) + intents_named(b),
    decreases b.len(),
{
    reveal_with_fuel(intents_named, 2);
    reveal_strlit("quantile");
    reveal_strlit("cardinality");
    reveal_strlit("frequency");
    reveal_strlit("extrema");
    assert("quantile"@.len() == 8 && "cardinality"@.len() == 11 && "frequency"@.len() == 9
        && "extrema"@.len() == 7);
    let one = seq![family_name(i)];
    assert(one.drop_last() =~= Seq::empty());
    assert(intents_named(one) =~= seq![i]);
    if b.len() == 0 {
        assert(a + b =~= a);
    } else {
        law_intents_read_back(i, a, b.drop_last());
        assert((a + b).drop_last() =~= a + b.drop_last());
        assert((a + b).last() == b.last());
    }
}

} // verus!
