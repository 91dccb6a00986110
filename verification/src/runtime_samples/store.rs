//! The last samples of each source and sketch.
//!
//! Every key has a ring of its own, so that a source that reports much does not
//! push out one that reports little.
use std::collections::VecDeque;

use vstd::prelude::*;

use crate::runtime_samples::json;
use crate::runtime_samples::json::{parse_json, strip_labels, Json, JsonView, MemberView};
use crate::text;

verus! {

/// A sample, with what labels it apart from its payload.
#[derive(Debug)]
pub struct RuntimeRecord {
    pub source: String,
    pub sketch: String,
    pub impl_name: String,
    pub schema_version: u32,
    pub payload: Json,
}

/// What [`RuntimeRecord`] holds.
#[verifier::ext_equal]
pub struct RecordView {
    pub key: KeyView,
    pub schema_version: u32,
    pub payload: JsonView,
}

/// What a ring is for.
#[derive(Debug, PartialEq, Eq, Hash)]
pub struct SampleKey {
    pub source: String,
    pub sketch: String,
    pub impl_name: String,
}

/// What [`SampleKey`] holds.
#[verifier::ext_equal]
pub struct KeyView {
    pub source: Seq<char>,
    pub sketch: Seq<char>,
    pub impl_name: Seq<char>,
}

impl View for SampleKey {
    type V = KeyView;

    open spec fn view(&self) -> KeyView {
        KeyView { source: self.source@, sketch: self.sketch@, impl_name: self.impl_name@ }
    }
}

impl Clone for SampleKey {
    fn clone(&self) -> (r: SampleKey)
        ensures
            r@ == self@,
    {
        SampleKey {
            source: self.source.clone(),
            sketch: self.sketch.clone(),
            impl_name: self.impl_name.clone(),
        }
    }
}

impl View for RuntimeRecord {
    type V = RecordView;

    open spec fn view(&self) -> RecordView {
        RecordView {
            key: KeyView {
                source: self.source@,
                sketch: self.sketch@,
                impl_name: self.impl_name@,
            },
            schema_version: self.schema_version,
            payload: self.payload@,
        }
    }
}

impl Clone for RuntimeRecord {
    fn clone(&self) -> (r: RuntimeRecord)
        ensures
            r@ == self@,
    {
        RuntimeRecord {
            source: self.source.clone(),
            sketch: self.sketch.clone(),
            impl_name: self.impl_name.clone(),
            schema_version: self.schema_version,
            payload: self.payload.clone(),
        }
    }
}

/// A sample as an agent reports it: the payload is JSON text.
#[derive(Debug)]
pub struct PushedRecord {
    pub source: String,
    pub sketch: String,
    pub impl_name: String,
    pub schema_version: u32,
    pub payload_json: String,
}

/// What [`PushedRecord`] holds.
#[verifier::ext_equal]
pub struct PushedView {
    pub key: KeyView,
    pub schema_version: u32,
    pub payload_json: Seq<char>,
}

impl View for PushedRecord {
    type V = PushedView;

    open spec fn view(&self) -> PushedView {
        PushedView {
            key: KeyView {
                source: self.source@,
                sketch: self.sketch@,
                impl_name: self.impl_name@,
            },
            schema_version: self.schema_version,
            payload_json: self.payload_json@,
        }
    }
}

/// Counts of what happened; they wrap around.
#[derive(Clone, Copy, Debug, PartialEq, Eq, Structural)]
pub struct RuntimeSamplesStats {
    pub batches_received: u64,
    pub records_stored: u64,
    pub records_evicted: u64,
    pub decode_errors: u64,
}

/// Counts at one time.
#[derive(Clone, Copy, Debug, PartialEq, Eq, Structural)]
pub struct RuntimeSamplesStatsSnapshot {
    pub batches_received: u64,
    pub records_stored: u64,
    pub records_evicted: u64,
    pub decode_errors: u64,
}

impl Default for RuntimeSamplesStats {
    fn default() -> (r: RuntimeSamplesStats)
        ensures
            r == no_counts(),
    {
        RuntimeSamplesStats {
            batches_received: 0,
            records_stored: 0,
            records_evicted: 0,
            decode_errors: 0,
        }
    }
}

/// All counts at zero.
pub open spec fn no_counts() -> RuntimeSamplesStats {
    RuntimeSamplesStats {
        batches_received: 0,
        records_stored: 0,
        records_evicted: 0,
        decode_errors: 0,
    }
}

impl RuntimeSamplesStats {
    /// The counts now.
    pub fn snapshot(&self) -> (r: RuntimeSamplesStatsSnapshot)
        ensures
            r == (RuntimeSamplesStatsSnapshot {
                batches_received: self.batches_received,
                records_stored: self.records_stored,
                records_evicted: self.records_evicted,
                decode_errors: self.decode_errors,
            }),
    {
        RuntimeSamplesStatsSnapshot {
            batches_received: self.batches_received,
            records_stored: self.records_stored,
            records_evicted: self.records_evicted,
            decode_errors: self.decode_errors,
        }
    }
}

/// One more, wrapping around.
pub open spec fn bumped(n: u64) -> u64 {
    if n == u64::MAX {
        0
    } else {
        (n + 1) as u64
    }
}

fn bump(n: u64) -> (r: u64)
    ensures
        r == bumped(n),
{
    if n == u64::MAX {
        0
    } else {
        n + 1
    }
}

// ── Rings ─────────────────────────────────────────────────────────────────────

/// The last samples of a key, oldest first.
#[derive(Debug)]
struct Ring {
    key: SampleKey,
    records: VecDeque<RuntimeRecord>,
}

/// What a ring holds.
#[verifier::ext_equal]
pub struct RingView {
    pub key: KeyView,
    pub records: Seq<RecordView>,
}

spec fn records_view(s: Seq<RuntimeRecord>) -> Seq<RecordView> {
    Seq::new(s.len(), |i: int| s[i]@)
}

spec fn ring_view(r: Ring) -> RingView {
    RingView { key: r.key@, records: records_view(r.records@) }
}

spec fn rings_view(s: Seq<Ring>) -> Seq<RingView> {
    Seq::new(s.len(), |i: int| ring_view(s[i]))
}

/// The samples of a key; none if it was never seen.
pub open spec fn ring_of(s: Seq<RingView>, key: KeyView) -> Seq<RecordView>
    decreases s.len(),
{
    if s.len() == 0 {
        Seq::empty()
    } else if s[0].key == key {
        s[0].records
    } else {
        ring_of(s.drop_first(), key)
    }
}

/// A full ring makes room by dropping its oldest sample.
pub open spec fn appended(records: Seq<RecordView>, rec: RecordView, capacity: usize) -> Seq<
    RecordView,
> {
    if records.len() >= capacity && records.len() > 0 {
        records.drop_first().push(rec)
    } else {
        records.push(rec)
    }
}

/// The rings with one more sample; a key that was not seen gets a ring at the
/// end.
pub open spec fn with_record(s: Seq<RingView>, rec: RecordView, capacity: usize) -> Seq<RingView>
    decreases s.len(),
{
    if s.len() == 0 {
        seq![
            RingView { key: rec.key, records: appended(Seq::empty(), rec, capacity) },
        ]
    } else if s[0].key == rec.key {
        seq![RingView { key: rec.key, records: appended(s[0].records, rec, capacity) }]
            + s.drop_first()
    } else {
        seq![s[0]] + with_record(s.drop_first(), rec, capacity)
    }
}

/// What a store holds.
#[verifier::ext_equal]
pub struct SamplesView {
    pub rings: Seq<RingView>,
    pub capacity: usize,
    pub stats: RuntimeSamplesStats,
}

/// A store with one more sample. It counts as an eviction whenever the ring had
/// reached its capacity.
pub open spec fn stored(s: SamplesView, rec: RecordView) -> SamplesView {
    SamplesView {
        rings: with_record(s.rings, rec, s.capacity),
        capacity: s.capacity,
        stats: RuntimeSamplesStats {
            records_stored: bumped(s.stats.records_stored),
            records_evicted: if ring_of(s.rings, rec.key).len() >= s.capacity {
                bumped(s.stats.records_evicted)
            } else {
                s.stats.records_evicted
            },
            ..s.stats
        },
    }
}

/// A store after a reported sample, given what its payload holds: a payload
/// that is no JSON is counted and dropped.
pub open spec fn accepted(s: SamplesView, p: PushedView, payload: Option<JsonView>) -> SamplesView {
    match payload {
        Some(j) => stored(
            s,
            RecordView {
                key: p.key,
                schema_version: p.schema_version,
                payload: json::unlabelled(j),
            },
        ),
        None => SamplesView {
            stats: RuntimeSamplesStats {
                decode_errors: bumped(s.stats.decode_errors),
                ..s.stats
            },
            ..s
        },
    }
}

/// A store after reported samples, one after the other.
pub open spec fn accepted_all(s: SamplesView, batch: Seq<PushedView>) -> SamplesView
    decreases batch.len(),
{
    if batch.len() == 0 {
        s
    } else {
        accepted(
            accepted_all(s, batch.drop_last()),
            batch.last(),
            json::parsed_json(batch.last().payload_json),
        )
    }
}

/// How many reported samples are JSON.
pub open spec fn readable(batch: Seq<PushedView>) -> nat
    decreases batch.len(),
{
    if batch.len() == 0 {
        0
    } else {
        readable(batch.drop_last()) + if json::parsed_json(batch.last().payload_json) is Some {
            1nat
        } else {
            0nat
        }
    }
}

/// The views of reported samples.
pub open spec fn pushed_view(s: Seq<PushedRecord>) -> Seq<PushedView> {
    Seq::new(s.len(), |i: int| s[i]@)
}

proof fn lemma_first_ring(s: Seq<RingView>, i: int, rec: RecordView, capacity: usize)
    requires
        0 <= i <= s.len(),
        forall|j: int| 0 <= j < i ==> (#[trigger] s[j]).key != rec.key,
        i < s.len() ==> s[i].key == rec.key,
    ensures
        i < s.len() ==> ring_of(s, rec.key) == s[i].records && with_record(s, rec, capacity)
            == s.update(
            i,
            RingView { key: rec.key, records: appended(s[i].records, rec, capacity) },
        ),
        i == s.len() ==> ring_of(s, rec.key) == Seq::<RecordView>::empty() && with_record(
            s,
            rec,
            capacity,
        ) == s.push(
            RingView { key: rec.key, records: appended(Seq::empty(), rec, capacity) },
        ),
    decreases s.len(),
{
    let rest = s.drop_first();
    if s.len() == 0 {
        assert(with_record(s, rec, capacity) =~= s.push(
            RingView { key: rec.key, records: appended(Seq::empty(), rec, capacity) },
        ));
    } else if s[0].key == rec.key {
        assert(i == 0);
        assert(with_record(s, rec, capacity) =~= s.update(
            0,
            RingView { key: rec.key, records: appended(s[0].records, rec, capacity) },
        ));
    } else {
        assert(i > 0);
        lemma_first_ring(rest, i - 1, rec, capacity);
        if i < s.len() {
            let r = RingView { key: rec.key, records: appended(s[i].records, rec, capacity) };
            assert(seq![s[0]] + rest.update(i - 1, r) =~= s.update(i, r));
        } else {
            let r = RingView { key: rec.key, records: appended(Seq::empty(), rec, capacity) };
            assert(seq![s[0]] + rest.push(r) =~= s.push(r));
        }
    }
}

proof fn lemma_find_ring(s: Seq<RingView>, key: KeyView) -> (i: int)
    ensures
        0 <= i <= s.len(),
        forall|j: int| 0 <= j < i ==> (#[trigger] s[j]).key != key,
        i < s.len() ==> s[i].key == key,
    decreases s.len(),
{
    if s.len() == 0 || s[0].key == key {
        0
    } else {
        let i = 1 + lemma_find_ring(s.drop_first(), key);
        assert forall|j: int| 0 <= j < i implies (#[trigger] s[j]).key != key by {
            if j > 0 {
                assert(s[j] == s.drop_first()[j - 1]);
            }
        }
        i
    }
}

/// Whether no key has two rings.
pub open spec fn distinct_keys(s: Seq<RingView>) -> bool {
    forall|i: int, j: int| 0 <= i < j < s.len() ==> (#[trigger] s[i]).key != (#[trigger] s[j]).key
}

/// Whether no ring holds more than its capacity, or one sample where that is
/// zero.
pub open spec fn bounded(s: Seq<RingView>, capacity: usize) -> bool {
    forall|i: int|
        0 <= i < s.len() ==> (#[trigger] s[i]).records.len() <= capacity || s[i].records.len() <= 1
}

/// A stored sample is the last of its ring; the rings of other keys stay as
/// they are; no ring outgrows its capacity.
pub proof fn law_store_then_read(
    s: Seq<RingView>,
    rec: RecordView,
    capacity: usize,
    other: RecordView,
)
    requires
        distinct_keys(s),
        bounded(s, capacity),
    ensures
        ring_of(with_record(s, rec, capacity), rec.key) == appended(
            ring_of(s, rec.key),
            rec,
            capacity,
        ),
        ring_of(with_record(s, rec, capacity), rec.key).last() == rec,
        other.key != rec.key ==> ring_of(with_record(s, rec, capacity), other.key) == ring_of(
            s,
            other.key,
        ),
        distinct_keys(with_record(s, rec, capacity)),
        bounded(with_record(s, rec, capacity), capacity),
{
    let i = lemma_find_ring(s, rec.key);
    lemma_first_ring(s, i, rec, capacity);
    let t = with_record(s, rec, capacity);
    lemma_first_ring(t, i, rec, capacity);
    if other.key != rec.key {
        let k = lemma_find_ring(s, other.key);
        lemma_first_ring(s, k, other, capacity);
        if k < s.len() {
            lemma_first_ring(t, k, other, capacity);
        } else {
            lemma_first_ring(t, t.len() as int, other, capacity);
        }
    }
}

/// The last `n` samples.
pub open spec fn last_samples(records: Seq<RecordView>, n: usize) -> Seq<RecordView> {
    if records.len() <= n {
        records
    } else {
        records.skip(records.len() - n)
    }
}

/// Whether the rings of a store are in order: one for each key, none beyond its
/// capacity.
pub open spec fn in_order(s: SamplesView) -> bool {
    distinct_keys(s.rings) && bounded(s.rings, s.capacity)
}

/// Storing a sample in a store whose rings hold at least one keeps the newest
/// samples of its key, the stored one last; the rings of other keys stay as they
/// are; the store counts the sample, and an eviction exactly where the ring was
/// full.
pub proof fn law_append(s: SamplesView, rec: RecordView, other: KeyView)
    requires
        in_order(s),
        s.capacity >= 1,
    ensures
        in_order(stored(s, rec)),
        stored(s, rec).capacity == s.capacity,
        ring_of(stored(s, rec).rings, rec.key) == last_samples(
            ring_of(s.rings, rec.key).push(rec),
            s.capacity,
        ),
        ring_of(stored(s, rec).rings, rec.key).len() > 0,
        ring_of(stored(s, rec).rings, rec.key).last() == rec,
        other != rec.key ==> ring_of(stored(s, rec).rings, other) == ring_of(s.rings, other),
        stored(s, rec).stats == (RuntimeSamplesStats {
            records_stored: bumped(s.stats.records_stored),
            records_evicted: if ring_of(s.rings, rec.key).len() == s.capacity {
                bumped(s.stats.records_evicted)
            } else {
                s.stats.records_evicted
            },
            ..s.stats
        }),
{
    law_store_then_read(s.rings, rec, s.capacity, RecordView { key: other, ..rec });
    let i = lemma_find_ring(s.rings, rec.key);
    lemma_first_ring(s.rings, i, rec, s.capacity);
    let before = ring_of(s.rings, rec.key);
    assert(before.len() <= s.capacity);
    if before.len() == s.capacity {
        assert(before.drop_first().push(rec) =~= before.push(rec).skip(1));
    }
}

/// Whether a record is what a reported sample holds: the sample's key and
/// version, and its payload without labels.
pub open spec fn holds(rec: RecordView, p: PushedView) -> bool {
    &&& rec.key == p.key
    &&& rec.schema_version == p.schema_version
    &&& match (json::parsed_json(p.payload_json), rec.payload) {
        (Some(JsonView::Object(all)), JsonView::Object(kept)) => kept == all.filter(
            |m: MemberView| m.key != "source"@ && m.key != "sketch"@ && m.key != "impl"@,
        ),
        (Some(j), k) => j == k && !(j is Object),
        (None, _) => false,
    }
}

proof fn lemma_unlabelled(s: Seq<MemberView>)
    ensures
        json::unlabelled_members(s) == s.filter(
            |m: MemberView| m.key != "source"@ && m.key != "sketch"@ && m.key != "impl"@,
        ),
    decreases s.len(),
{
    reveal(Seq::filter);
    if s.len() > 0 {
        lemma_unlabelled(s.drop_last());
    }
}

/// The samples of a batch that are JSON and have a key, in order.
pub open spec fn reported(batch: Seq<PushedView>, key: KeyView) -> Seq<PushedView> {
    batch.filter(|p: PushedView| p.key == key && json::parsed_json(p.payload_json) is Some)
}

/// Whether records are those of reported samples, one for each, in order.
pub open spec fn all_hold(recs: Seq<RecordView>, ps: Seq<PushedView>) -> bool {
    recs.len() == ps.len() && forall|i: int| 0 <= i < recs.len() ==> holds(#[trigger] recs[i], ps[i])
}

/// After a batch the ring of a key holds the newest samples out of those that it
/// held before and those of the batch that have the key and are JSON, in order,
/// each with its key, version and unlabelled payload.
pub proof fn law_batch(s: SamplesView, batch: Seq<PushedView>, key: KeyView)
    requires
        in_order(s),
        s.capacity >= 1,
    ensures
        in_order(accepted_all(s, batch)),
        accepted_all(s, batch).capacity == s.capacity,
        exists|recs: Seq<RecordView>| #[trigger]
            all_hold(recs, reported(batch, key)) && ring_of(accepted_all(s, batch).rings, key)
                == last_samples(ring_of(s.rings, key) + recs, s.capacity),
    decreases batch.len(),
{
    reveal(Seq::filter);
    let old_ring = ring_of(s.rings, key);
    lemma_ring_len(s, key);
    if batch.len() == 0 {
        let none = Seq::<RecordView>::empty();
        assert(all_hold(none, reported(batch, key)));
        assert(old_ring + none =~= old_ring);
    } else {
        let init = batch.drop_last();
        let p = batch.last();
        law_batch(s, init, key);
        let recs = choose|recs: Seq<RecordView>| #[trigger]
            all_hold(recs, reported(init, key)) && ring_of(accepted_all(s, init).rings, key)
                == last_samples(old_ring + recs, s.capacity);
        let t = accepted_all(s, init);
        match json::parsed_json(p.payload_json) {
            None => {
                assert(reported(batch, key) == reported(init, key));
                assert(all_hold(recs, reported(batch, key)));
            },
            Some(j) => {
                let rec = RecordView {
                    key: p.key,
                    schema_version: p.schema_version,
                    payload: json::unlabelled(j),
                };
                law_append(t, rec, key);
                if let JsonView::Object(all) = j {
                    lemma_unlabelled(all);
                }
                assert(holds(rec, p));
                if p.key == key {
                    let more = recs.push(rec);
                    assert(reported(batch, key) == reported(init, key).push(p));
                    assert(all_hold(more, reported(batch, key)));
                    let whole = old_ring + recs;
                    assert(old_ring + more =~= whole.push(rec));
                    assert(last_samples(last_samples(whole, s.capacity).push(rec), s.capacity)
                        =~= last_samples(whole.push(rec), s.capacity));
                } else {
                    assert(reported(batch, key) == reported(init, key));
                    assert(all_hold(recs, reported(batch, key)));
                }
            },
        }
    }
}

proof fn lemma_ring_len(s: SamplesView, key: KeyView)
    requires
        in_order(s),
        s.capacity >= 1,
    ensures
        ring_of(s.rings, key).len() <= s.capacity,
{
    let i = lemma_find_ring(s.rings, key);
    lemma_first_ring(
        s.rings,
        i,
        RecordView { key, schema_version: 0, payload: JsonView::Null },
        0,
    );
}

/// The last samples of each key.
#[derive(Debug)]
pub struct RuntimeSamplesStore {
    rings: Vec<Ring>,
    per_key_capacity: usize,
    stats: RuntimeSamplesStats,
}

impl View for RuntimeSamplesStore {
    type V = SamplesView;

    closed spec fn view(&self) -> SamplesView {
        SamplesView {
            rings: rings_view(self.rings@),
            capacity: self.per_key_capacity,
            stats: self.stats,
        }
    }
}

impl RuntimeSamplesStore {
    #[verifier::type_invariant]
    spec fn well_formed(self) -> bool {
        in_order(self@)
    }

    /// No samples; each ring keeps so many.
    pub fn new(per_key_capacity: usize) -> (r: RuntimeSamplesStore)
        ensures
            in_order(r@),
            r@ == (SamplesView {
                rings: Seq::empty(),
                capacity: per_key_capacity,
                stats: no_counts(),
            }),
    {
        let rings: Vec<Ring> = Vec::new();
        assert(rings_view(rings@) =~= Seq::<RingView>::empty());
        RuntimeSamplesStore { rings, per_key_capacity, stats: RuntimeSamplesStats::default() }
    }

    /// The counts.
    pub fn stats(&self) -> (r: RuntimeSamplesStats)
        ensures
            r == self@.stats,
    {
        self.stats
    }

    fn find(&self, key: &SampleKey) -> (r: usize)
        ensures
            r <= self@.rings.len(),
            forall|j: int| 0 <= j < r ==> (#[trigger] self@.rings[j]).key != key@,
            r < self@.rings.len() ==> self@.rings[r as int].key == key@,
    {
        for i in 0..self.rings.len()
            invariant
                forall|j: int| 0 <= j < i ==> (#[trigger] self@.rings[j]).key != key@,
        {
            let k = &self.rings[i].key;
            if text::same(k.source.as_str(), key.source.as_str()) && text::same(
                k.sketch.as_str(),
                key.sketch.as_str(),
            ) && text::same(k.impl_name.as_str(), key.impl_name.as_str()) {
                assert(k@ =~= key@);
                return i;
            }
            assert(self@.rings[i as int].key != key@);
        }
        self.rings.len()
    }

    /// Store a sample; its ring drops the oldest one where it is full.
    pub fn append(&mut self, rec: RuntimeRecord)
        ensures
            in_order(old(self)@),
            in_order(final(self)@),
            final(self)@ == stored(old(self)@, rec@),
            old(self)@.capacity >= 1 ==> ring_of(final(self)@.rings, rec@.key) == last_samples(
                ring_of(old(self)@.rings, rec@.key).push(rec@),
                old(self)@.capacity,
            ),
            forall|other: KeyView|
                other != rec@.key ==> #[trigger] ring_of(final(self)@.rings, other) == ring_of(
                    old(self)@.rings,
                    other,
                ),
    {
        let key = SampleKey {
            source: rec.source.clone(),
            sketch: rec.sketch.clone(),
            impl_name: rec.impl_name.clone(),
        };
        proof {
            use_type_invariant(&*self);
        }
        let i = self.find(&key);
        let ghost before = self@;
        let ghost shown = rec@;
        let capacity = self.per_key_capacity;
        proof {
            assert(key@ =~= shown.key);
            lemma_first_ring(before.rings, i as int, shown, capacity);
            law_store_then_read(before.rings, shown, capacity, shown);
            if capacity >= 1 {
                law_append(before, shown, shown.key);
            }
            assert forall|other: KeyView| other != shown.key implies #[trigger] ring_of(
                with_record(before.rings, shown, capacity),
                other,
            ) == ring_of(before.rings, other) by {
                law_store_then_read(
                    before.rings,
                    shown,
                    capacity,
                    RecordView { key: other, ..shown },
                );
            }
        }
        let mut rings: Vec<Ring> = Vec::new();
        std::mem::swap(&mut rings, &mut self.rings);
        if i < rings.len() {
            let mut ring = rings.remove(i);
            let ghost old_records = ring.records@;
            assert(ring_view(ring) == before.rings[i as int]);
            if ring.records.len() >= capacity {
                let _ = ring.records.pop_front();
                self.stats.records_evicted = bump(self.stats.records_evicted);
                assert(old_records.len() > 0 ==> records_view(ring.records@) =~= records_view(
                    old_records,
                ).drop_first());
            }
            ring.records.push_back(rec);
            assert(records_view(ring.records@) =~= appended(
                records_view(old_records),
                shown,
                capacity,
            ));
            rings.insert(i, ring);
            assert(rings_view(rings@) =~= with_record(before.rings, shown, capacity));
        } else {
            let mut records: VecDeque<RuntimeRecord> = VecDeque::new();
            if 0 >= capacity {
                self.stats.records_evicted = bump(self.stats.records_evicted);
            }
            records.push_back(rec);
            assert(records_view(records@) =~= appended(Seq::empty(), shown, capacity));
            rings.push(Ring { key, records });
            assert(rings_view(rings@) =~= with_record(before.rings, shown, capacity));
        }
        self.rings = rings;
        self.stats.records_stored = bump(self.stats.records_stored);
    }

    /// Take a reported sample in, given what its payload holds; whether it was
    /// stored.
    pub fn accept(&mut self, rec: PushedRecord, payload: Option<Json>) -> (r: bool)
        ensures
            in_order(old(self)@),
            in_order(final(self)@),
            final(self)@ == accepted(
                old(self)@,
                rec@,
                match payload {
                    Some(j) => Some(j@),
                    None => None,
                },
            ),
            r == payload is Some,
    {
        proof {
            use_type_invariant(&*self);
        }
        match payload {
            None => {
                self.stats.decode_errors = bump(self.stats.decode_errors);
                false
            },
            Some(j) => {
                self.append(
                    RuntimeRecord {
                        source: rec.source,
                        sketch: rec.sketch,
                        impl_name: rec.impl_name,
                        schema_version: rec.schema_version,
                        payload: strip_labels(&j),
                    },
                );
                true
            },
        }
    }

    /// Take a batch of reported samples in; how many were stored.
    pub fn push(&mut self, batch: Vec<PushedRecord>) -> (r: u64)
        ensures
            in_order(old(self)@),
            in_order(final(self)@),
            final(self)@ == accepted_all(
                SamplesView {
                    stats: RuntimeSamplesStats {
                        batches_received: bumped(old(self)@.stats.batches_received),
                        ..old(self)@.stats
                    },
                    ..old(self)@
                },
                pushed_view(batch@),
            ),
            r == readable(pushed_view(batch@)),
    {
        proof {
            use_type_invariant(&*self);
        }
        self.stats.batches_received = bump(self.stats.batches_received);
        let ghost start = self@;
        let ghost all = pushed_view(batch@);
        let n = batch.len();
        let mut count: u64 = 0;
        for rec in it: batch
            invariant
                in_order(self@),
                all == pushed_view(it.seq()),
                it.seq().len() == n,
                self@ == accepted_all(start, all.take(it.index() as int)),
                count == readable(all.take(it.index() as int)),
                count <= it.index(),
        {
            assert(all.take(it.index() as int + 1).drop_last() =~= all.take(it.index() as int));
            assert(all[it.index() as int] == rec@);
            let payload = parse_json(rec.payload_json.as_str());
            if self.accept(rec, payload) {
                count = count + 1;
            }
        }
        assert(all.take(all.len() as int) =~= all);
        count
    }

    /// A copy of the last sample of a key.
    pub fn latest(&self, key: &SampleKey) -> (r: Option<RuntimeRecord>)
        ensures
            in_order(self@),
            match r {
                Some(rec) => ring_of(self@.rings, key@).len() > 0 && rec@ == ring_of(
                    self@.rings,
                    key@,
                ).last(),
                None => ring_of(self@.rings, key@).len() == 0,
            },
    {
        proof {
            use_type_invariant(self);
        }
        let i = self.find(key);
        proof {
            lemma_first_ring(
                self@.rings,
                i as int,
                RecordView { key: key@, schema_version: 0, payload: JsonView::Null },
                0,
            );
        }
        if i < self.rings.len() {
            let records = &self.rings[i].records;
            assert(ring_view(self.rings@[i as int]).records == records_view(records@));
            let n = records.len();
            if n > 0 {
                Some(records[n - 1].clone())
            } else {
                None
            }
        } else {
            None
        }
    }

    /// Copies of the samples of a key, oldest first.
    pub fn snapshot(&self, key: &SampleKey) -> (r: Vec<RuntimeRecord>)
        ensures
            in_order(self@),
            r@.len() == ring_of(self@.rings, key@).len(),
            forall|i: int|
                0 <= i < r@.len() ==> (#[trigger] r@[i])@ == ring_of(self@.rings, key@)[i],
    {
        proof {
            use_type_invariant(self);
        }
        let i = self.find(key);
        proof {
            lemma_first_ring(
                self@.rings,
                i as int,
                RecordView { key: key@, schema_version: 0, payload: JsonView::Null },
                0,
            );
        }
        let mut out: Vec<RuntimeRecord> = Vec::new();
        if i < self.rings.len() {
            let records = &self.rings[i].records;
            let n = records.len();
            for k in 0..n
                invariant
                    n == records@.len(),
                    out@.len() == k,
                    forall|j: int| 0 <= j < k ==> (#[trigger] out@[j])@ == records@[j]@,
            {
                out.push(records[k].clone());
            }
            assert(ring_view(self.rings@[i as int]).records == records_view(records@));
        }
        out
    }

    /// The keys that were seen, in the order in which they came first.
    pub fn keys(&self) -> (r: Vec<SampleKey>)
        ensures
            in_order(self@),
            r@.len() == self@.rings.len(),
            forall|i: int| 0 <= i < r@.len() ==> (#[trigger] r@[i])@ == self@.rings[i].key,
    {
        proof {
            use_type_invariant(self);
        }
        let mut out: Vec<SampleKey> = Vec::new();
        for i in 0..self.rings.len()
            invariant
                out@.len() == i,
                forall|j: int| 0 <= j < i ==> (#[trigger] out@[j])@ == self@.rings[j].key,
        {
            out.push(self.rings[i].key.clone());
        }
        out
    }
}

} // verus!
