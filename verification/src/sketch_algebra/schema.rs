//! The state that a sketch plan edge carries.
use vstd::prelude::*;

use crate::sketch_algebra::params::{SketchKind, SketchParams};

verus! {

/// Family and parameters of a sketch state, with what may be done to it.
#[derive(Clone, Copy, Debug, PartialEq, Eq, Structural)]
pub struct SketchStateSchema {
    /// Sketch family of the state.
    pub kind: SketchKind,
    /// Parameters; they have to match across the inputs of a merge.
    pub params: SketchParams,
    /// What the family supports.
    pub caps: SketchStateMetadata,
}

/// What a sketch family supports.
#[derive(Clone, Copy, Debug, PartialEq, Eq, Structural)]
pub struct SketchStateMetadata {
    /// Whether two states can be united.
    pub mergeable: bool,
    /// Whether one state can be taken out of another.
    pub subtractable: bool,
    /// Whether single items can be taken out.
    pub deletable: bool,
}

impl SketchStateSchema {
    /// What each family supports: every family merges, the two counting
    /// sketches subtract, and the count-min sketch deletes.
    pub open spec fn supported(kind: SketchKind) -> SketchStateMetadata {
        SketchStateMetadata {
            mergeable: true,
            subtractable: kind == SketchKind::Cms || kind == SketchKind::CountSketch,
            deletable: kind == SketchKind::Cms,
        }
    }

    /// The schema of a family with given parameters.
    pub fn for_kind(kind: SketchKind, params: SketchParams) -> (r: SketchStateSchema)
        ensures
            r.kind == kind,
            r.params == params,
            r.caps == Self::supported(kind),
    {
        let caps = match kind {
            SketchKind::Kll | SketchKind::DDSketch | SketchKind::Hll => SketchStateMetadata {
                mergeable: true,
                subtractable: false,
                deletable: false,
            },
            SketchKind::Cms => SketchStateMetadata {
                mergeable: true,
                subtractable: true,
                deletable: true,
            },
            SketchKind::CountSketch => SketchStateMetadata {
                mergeable: true,
                subtractable: true,
                deletable: false,
            },
        };
        SketchStateSchema { kind, params, caps }
    }

    /// Whether two states can be merged: same family, same parameters, and the
    /// family merges.
    pub open spec fn merges_with(self, other: SketchStateSchema) -> bool {
        self.kind == other.kind && self.params == other.params && self.caps.mergeable
    }

    /// Whether two states can be merged.
    pub fn is_compatible_for_merge(&self, other: &SketchStateSchema) -> (r: bool)
        ensures
            r == self.merges_with(*other),
    {
        self.kind == other.kind && self.params == other.params && self.caps.mergeable
    }

    /// Whether one state can be subtracted from the other.
    pub open spec fn subtracts_from(self, other: SketchStateSchema) -> bool {
        self.kind == other.kind && self.params == other.params && self.caps.subtractable
    }

    /// Whether one state can be subtracted from the other.
    pub fn is_compatible_for_subtract(&self, other: &SketchStateSchema) -> (r: bool)
        ensures
            r == self.subtracts_from(*other),
    {
        self.kind == other.kind && self.params == other.params && self.caps.subtractable
    }
}

/// States built for a family merge exactly when family and parameters agree,
/// whichever of the two is asked; those that subtract also merge.
pub proof fn law_merge_compatibility(a: SketchStateSchema, b: SketchStateSchema)
    requires
        a.caps == SketchStateSchema::supported(a.kind),
        b.caps == SketchStateSchema::supported(b.kind),
    ensures
        a.merges_with(b) <==> a.kind == b.kind && a.params == b.params,
        a.merges_with(b) == b.merges_with(a),
        a.subtracts_from(b) == b.subtracts_from(a),
        a.subtracts_from(b) ==> a.merges_with(b),
{
}

} // verus!
