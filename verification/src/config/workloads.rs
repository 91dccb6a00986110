//! Workloads that are declared up front, by the role that gets them.
use vstd::prelude::*;
use vstd::string::*;

use crate::decimal::Decimal;
use crate::text;
use crate::text_order;
use crate::types::SketchType;

verus! {

/// A declared workload.
#[derive(Debug)]
pub struct WorkloadEntry {
    /// The metric.
    pub metric_name: String,
    /// The query, in PromQL or SQL.
    pub query_string: Option<String>,
    /// The accuracy asked for.
    pub accuracy_sla: Decimal,
    /// The role that gets the workload.
    pub assign_to_role: String,
    /// The sketch family that is asked for.
    pub sketch_family_override: Option<SketchType>,
    /// The storage tier that is asked for.
    pub target_path: Option<String>,
}

/// The accuracy of an entry that gives none: one percent.
pub fn default_accuracy_sla() -> (r: Decimal)
    ensures
        r == (Decimal { units: 10_000_000_000_000_000 }),
{
    Decimal { units: 10_000_000_000_000_000 }
}

/// The role of an entry that gives none.
pub fn default_role() -> (r: String)
    ensures
        r@ == "agent"@,
{
    "agent".to_owned()
}

/// The sketch family that a word names, whatever its case and the white space
/// around it.
pub open spec fn family_named(s: Seq<char>) -> Option<SketchType> {
    let word = text::ascii_lower(text_order::trimmed(s));
    if word == "ddsketch"@ {
        Some(SketchType::DDSketch)
    } else if word == "kll"@ {
        Some(SketchType::KLL)
    } else if word == "hll"@ {
        Some(SketchType::HLL)
    } else if word == "countsketch"@ {
        Some(SketchType::CountSketch)
    } else if word == "countminsketch"@ || word == "countmin"@ || word == "cms"@ {
        Some(SketchType::CountMinSketch)
    } else {
        None
    }
}

/// What is said of a word that names no sketch family.
pub open spec fn unknown_family(s: Seq<char>) -> Seq<char> {
    "unknown sketch_family_override `"@ + text::ascii_lower(text_order::trimmed(s))
        + "`; expected one of DDSketch / KLL / HLL / CountSketch / CountMinSketch"@
}

/// The sketch family that a word names.
pub fn sketch_family(s: &str) -> (r: Result<SketchType, String>)
    ensures
        match r {
            Ok(k) => family_named(s@) == Some(k),
            Err(m) => family_named(s@) is None && m@ == unknown_family(s@),
        },
{
    let trimmed = text_order::trim(s);
    let word = text::to_ascii_lower(trimmed.as_str());
    let w = word.as_str();
    if text::same(w, "ddsketch") {
        Ok(SketchType::DDSketch)
    } else if text::same(w, "kll") {
        Ok(SketchType::KLL)
    } else if text::same(w, "hll") {
        Ok(SketchType::HLL)
    } else if text::same(w, "countsketch") {
        Ok(SketchType::CountSketch)
    } else if text::same(w, "countminsketch") || text::same(w, "countmin") || text::same(
        w,
        "cms",
    ) {
        Ok(SketchType::CountMinSketch)
    } else {
        let mut out = "unknown sketch_family_override `".to_owned();
        out.append(w);
        out.append("`; expected one of DDSketch / KLL / HLL / CountSketch / CountMinSketch");
        Err(out)
    }
}

/// The sketch family of an entry that may give none.
pub fn optional_sketch_family(s: Option<String>) -> (r: Result<Option<SketchType>, String>)
    ensures
        match (r, s) {
            (Ok(None), None) => true,
            (Ok(Some(k)), Some(w)) => family_named(w@) == Some(k),
            (Err(m), Some(w)) => family_named(w@) is None && m@ == unknown_family(w@),
            _ => false,
        },
{
    match s {
        None => Ok(None),
        Some(w) => match sketch_family(w.as_str()) {
            Ok(k) => Ok(Some(k)),
            Err(m) => Err(m),
        },
    }
}

/// The declared workloads.
#[derive(Debug)]
pub struct WorkloadRegistry {
    entries: Vec<WorkloadEntry>,
}

impl View for WorkloadRegistry {
    type V = Seq<WorkloadEntry>;

    closed spec fn view(&self) -> Seq<WorkloadEntry> {
        self.entries@
    }
}

/// Whether an entry is for a role, whatever the case of its ASCII letters.
pub open spec fn is_for(e: WorkloadEntry, role: Seq<char>) -> bool {
    text::ascii_lower(e.assign_to_role@) == text::ascii_lower(role)
}

/// The entries for a role.
pub open spec fn entries_for(s: Seq<WorkloadEntry>, role: Seq<char>) -> Seq<WorkloadEntry>
    decreases s.len(),
{
    if s.len() == 0 {
        s
    } else if is_for(s.last(), role) {
        entries_for(s.drop_last(), role).push(s.last())
    } else {
        entries_for(s.drop_last(), role)
    }
}

fn entry_is_for(e: &WorkloadEntry, role: &str) -> (r: bool)
    ensures
        r == is_for(*e, role@),
{
    text::same(
        text::to_ascii_lower(e.assign_to_role.as_str()).as_str(),
        text::to_ascii_lower(role).as_str(),
    )
}

impl WorkloadRegistry {
    /// No workloads.
    pub fn empty() -> (r: WorkloadRegistry)
        ensures
            r@ == Seq::<WorkloadEntry>::empty(),
    {
        WorkloadRegistry { entries: Vec::new() }
    }

    /// The given workloads.
    pub fn from_entries(entries: Vec<WorkloadEntry>) -> (r: WorkloadRegistry)
        ensures
            r@ == entries@,
    {
        WorkloadRegistry { entries }
    }

    /// The workloads that were read, or none if they could not be.
    pub fn from_read(read: Option<Vec<WorkloadEntry>>) -> (r: WorkloadRegistry)
        ensures
            match read {
                Some(v) => r@ == v@,
                None => r@ == Seq::<WorkloadEntry>::empty(),
            },
    {
        match read {
            Some(entries) => WorkloadRegistry { entries },
            None => WorkloadRegistry { entries: Vec::new() },
        }
    }

    /// The workloads.
    pub fn entries(&self) -> (r: &[WorkloadEntry])
        ensures
            r@ == self@,
    {
        self.entries.as_slice()
    }

    /// The workloads for a role.
    pub fn for_role(&self, role: &str) -> (r: Vec<&WorkloadEntry>)
        ensures
            r@.len() == entries_for(self@, role@).len(),
            forall|i: int|
                0 <= i < r@.len() ==> *(#[trigger] r@[i]) == entries_for(self@, role@)[i],
    {
        let ghost all = self@;
        let mut out: Vec<&WorkloadEntry> = Vec::new();
        for i in 0..self.entries.len()
            invariant
                all == self.entries@,
                out@.len() == entries_for(all.take(i as int), role@).len(),
                forall|j: int|
                    0 <= j < out@.len() ==> *(#[trigger] out@[j]) == entries_for(
                        all.take(i as int),
                        role@,
                    )[j],
        {
            assert(all.take(i as int + 1).drop_last() =~= all.take(i as int));
            if entry_is_for(&self.entries[i], role) {
                out.push(&self.entries[i]);
            }
        }
        assert(all.take(all.len() as int) =~= all);
        out
    }

    /// The first workload for a role.
    pub fn first_for_role(&self, role: &str) -> (r: Option<&WorkloadEntry>)
        ensures
            match r {
                Some(e) => exists|i: int| #[trigger]
                    is_first_for(self@, role@, i) && self@[i] == *e,
                None => forall|i: int| 0 <= i < self@.len() ==> !is_for(#[trigger] self@[i], role@),
            },
    {
        for i in 0..self.entries.len()
            invariant
                forall|j: int| 0 <= j < i ==> !is_for(#[trigger] self@[j], role@),
        {
            if entry_is_for(&self.entries[i], role) {
                assert(is_first_for(self@, role@, i as int));
                return Some(&self.entries[i]);
            }
        }
        None
    }
}

/// Whether an entry is the first for a role.
pub open spec fn is_first_for(s: Seq<WorkloadEntry>, role: Seq<char>, i: int) -> bool {
    &&& 0 <= i < s.len()
    &&& is_for(s[i], role)
    &&& forall|j: int| 0 <= j < i ==> !is_for(#[trigger] s[j], role)
}

/// The first workload for a role heads the workloads for it.
pub proof fn law_first_heads(s: Seq<WorkloadEntry>, role: Seq<char>, i: int)
    requires
        is_first_for(s, role, i),
    ensures
        entries_for(s, role).len() > 0,
        entries_for(s, role)[0] == s[i],
    decreases s.len(),
{
    if i < s.len() - 1 {
        law_first_heads(s.drop_last(), role, i);
    } else {
        lemma_none_for(s.drop_last(), role);
    }
}

proof fn lemma_none_for(s: Seq<WorkloadEntry>, role: Seq<char>)
    requires
        forall|j: int| 0 <= j < s.len() ==> !is_for(#[trigger] s[j], role),
    ensures
        entries_for(s, role).len() == 0,
    decreases s.len(),
{
    if s.len() > 0 {
        assert(!is_for(s[s.len() - 1], role));
        assert forall|j: int| 0 <= j < s.drop_last().len() implies !is_for(
            #[trigger] s.drop_last()[j],
            role,
        ) by {
            assert(!is_for(s[j], role));
        }
        lemma_none_for(s.drop_last(), role);
    }
}

} // verus!
