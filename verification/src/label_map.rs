//! Labels and their values: each label has one value.
use vstd::prelude::*;

use crate::named_map;
use crate::text;

verus! {

/// A label and its value.
#[derive(Debug)]
struct Entry {
    name: String,
    value: String,
}

/// Labels and their values, in the order in which the labels came first.
#[derive(Debug)]
pub struct LabelMap {
    entries: Vec<Entry>,
}

spec fn shown(s: Seq<Entry>) -> Seq<(Seq<char>, Seq<char>)> {
    Seq::new(s.len(), |i: int| (s[i].name@, s[i].value@))
}

impl View for LabelMap {
    type V = Seq<(Seq<char>, Seq<char>)>;

    closed spec fn view(&self) -> Seq<(Seq<char>, Seq<char>)> {
        shown(self.entries@)
    }
}

impl LabelMap {
    #[verifier::type_invariant]
    spec fn well_formed(self) -> bool {
        named_map::distinct(shown(self.entries@))
    }

    /// No labels.
    pub fn new() -> (r: LabelMap)
        ensures
            r@ == Seq::<(Seq<char>, Seq<char>)>::empty(),
            named_map::distinct(r@),
    {
        let entries: Vec<Entry> = Vec::new();
        assert(shown(entries@) =~= Seq::<(Seq<char>, Seq<char>)>::empty());
        LabelMap { entries }
    }

    /// The number of labels.
    pub fn len(&self) -> (r: usize)
        ensures
            r == self@.len(),
            named_map::distinct(self@),
    {
        proof {
            use_type_invariant(self);
        }
        self.entries.len()
    }

    /// Whether there are no labels.
    pub fn is_empty(&self) -> (r: bool)
        ensures
            r == (self@.len() == 0),
    {
        self.entries.len() == 0
    }

    /// The position of a label; the number of labels where it is not there.
    fn find(&self, name: &str) -> (r: usize)
        ensures
            r <= self@.len(),
            forall|j: int| 0 <= j < r ==> (#[trigger] self@[j]).0 != name@,
            r < self@.len() ==> self@[r as int].0 == name@,
    {
        for i in 0..self.entries.len()
            invariant
                forall|j: int| 0 <= j < i ==> (#[trigger] self@[j]).0 != name@,
        {
            if text::same(self.entries[i].name.as_str(), name) {
                return i;
            }
        }
        self.entries.len()
    }

    /// The value of a label.
    pub fn get(&self, name: &str) -> (r: Option<&String>)
        ensures
            named_map::distinct(self@),
            match r {
                Some(v) => named_map::value_of(self@, name@) == Some(v@),
                None => named_map::value_of(self@, name@) is None,
            },
    {
        proof {
            use_type_invariant(self);
        }
        let i = self.find(name);
        proof {
            named_map::lemma_first(self@, i as int, name@, name@);
        }
        if i < self.entries.len() {
            Some(&self.entries[i].value)
        } else {
            None
        }
    }

    /// Set a label to a value.
    pub fn insert(&mut self, name: String, value: String)
        ensures
            final(self)@ == named_map::with_value(old(self)@, name@, value@),
            named_map::distinct(old(self)@),
            named_map::distinct(final(self)@),
    {
        proof {
            use_type_invariant(&*self);
        }
        let i = self.find(name.as_str());
        let ghost before = self@;
        proof {
            named_map::lemma_first(before, i as int, name@, value@);
            named_map::law_set_then_get(before, name@, value@, name@);
        }
        let mut entries: Vec<Entry> = Vec::new();
        std::mem::swap(&mut entries, &mut self.entries);
        if i < entries.len() {
            entries.set(i, Entry { name, value });
            assert(shown(entries@) =~= before.update(i as int, (name@, value@)));
        } else {
            entries.push(Entry { name, value });
            assert(shown(entries@) =~= before.push((name@, value@)));
        }
        self.entries = entries;
    }

    /// Take a label out.
    pub fn remove(&mut self, name: &str)
        ensures
            final(self)@ == named_map::without(old(self)@, name@),
            named_map::distinct(old(self)@),
            named_map::distinct(final(self)@),
    {
        proof {
            use_type_invariant(&*self);
        }
        let i = self.find(name);
        let ghost before = self@;
        proof {
            named_map::lemma_first(before, i as int, name@, name@);
            named_map::law_remove_then_get(before, name@, name@);
        }
        let mut entries: Vec<Entry> = Vec::new();
        std::mem::swap(&mut entries, &mut self.entries);
        if i < entries.len() {
            let _ = entries.remove(i);
            assert(shown(entries@) =~= before.remove(i as int));
        }
        self.entries = entries;
    }

    /// The label at a position.
    pub fn name(&self, i: usize) -> (r: &String)
        requires
            i < self@.len(),
        ensures
            r@ == self@[i as int].0,
    {
        &self.entries[i].name
    }

    /// The value at a position.
    pub fn value(&self, i: usize) -> (r: &String)
        requires
            i < self@.len(),
        ensures
            r@ == self@[i as int].1,
    {
        &self.entries[i].value
    }
}

impl Clone for LabelMap {
    fn clone(&self) -> (r: LabelMap)
        ensures
            r@ == self@,
    {
        proof {
            use_type_invariant(self);
        }
        let mut entries: Vec<Entry> = Vec::new();
        for i in 0..self.entries.len()
            invariant
                entries@.len() == i,
                forall|j: int|
                    0 <= j < i ==> (#[trigger] entries@[j]).name@ == self.entries@[j].name@
                        && entries@[j].value@ == self.entries@[j].value@,
        {
            entries.push(
                Entry {
                    name: self.entries[i].name.clone(),
                    value: self.entries[i].value.clone(),
                },
            );
        }
        assert(shown(entries@) =~= shown(self.entries@));
        LabelMap { entries }
    }
}

impl Default for LabelMap {
    fn default() -> (r: LabelMap)
        ensures
            r@ == Seq::<(Seq<char>, Seq<char>)>::empty(),
            named_map::distinct(r@),
    {
        LabelMap::new()
    }
}

} // verus!
