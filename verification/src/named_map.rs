//! Values by name: each name has one value.
use vstd::prelude::*;

use crate::text;

verus! {

/// The value of a name.
pub open spec fn value_of<T>(s: Seq<(Seq<char>, T)>, name: Seq<char>) -> Option<T>
    decreases s.len(),
{
    if s.len() == 0 {
        None
    } else if s[0].0 == name {
        Some(s[0].1)
    } else {
        value_of(s.drop_first(), name)
    }
}

/// The names with one set to a value: in place where it is there, else at the
/// end.
pub open spec fn with_value<T>(s: Seq<(Seq<char>, T)>, name: Seq<char>, value: T) -> Seq<
    (Seq<char>, T),
>
    decreases s.len(),
{
    if s.len() == 0 {
        seq![(name, value)]
    } else if s[0].0 == name {
        seq![(name, value)] + s.drop_first()
    } else {
        seq![s[0]] + with_value(s.drop_first(), name, value)
    }
}

/// The names without one.
pub open spec fn without<T>(s: Seq<(Seq<char>, T)>, name: Seq<char>) -> Seq<(Seq<char>, T)>
    decreases s.len(),
{
    if s.len() == 0 {
        s
    } else if s[0].0 == name {
        s.drop_first()
    } else {
        seq![s[0]] + without(s.drop_first(), name)
    }
}

/// Whether no name stands twice.
pub open spec fn distinct<T>(s: Seq<(Seq<char>, T)>) -> bool {
    forall|i: int, j: int| 0 <= i < j < s.len() ==> (#[trigger] s[i]).0 != (#[trigger] s[j]).0
}

/// What the operations are, by the position at which a name stands first; the
/// number of names stands for none.
pub proof fn lemma_first<T>(s: Seq<(Seq<char>, T)>, i: int, name: Seq<char>, value: T)
    requires
        0 <= i <= s.len(),
        forall|j: int| 0 <= j < i ==> (#[trigger] s[j]).0 != name,
        i < s.len() ==> s[i].0 == name,
    ensures
        i < s.len() ==> value_of(s, name) == Some(s[i].1),
        i == s.len() ==> value_of(s, name) is None,
        i < s.len() ==> with_value(s, name, value) == s.update(i, (name, value)),
        i == s.len() ==> with_value(s, name, value) == s.push((name, value)),
        i < s.len() ==> without(s, name) == s.remove(i),
        i == s.len() ==> without(s, name) == s,
    decreases s.len(),
{
    let rest = s.drop_first();
    if s.len() == 0 {
        assert(seq![(name, value)] =~= s.push((name, value)));
    } else if s[0].0 == name {
        assert(i == 0);
        assert(seq![(name, value)] + rest =~= s.update(0, (name, value)));
        assert(rest =~= s.remove(0));
    } else {
        assert(i > 0);
        lemma_first(rest, i - 1, name, value);
        if i < s.len() {
            assert(seq![s[0]] + rest.update(i - 1, (name, value)) =~= s.update(i, (name, value)));
            assert(seq![s[0]] + rest.remove(i - 1) =~= s.remove(i));
        } else {
            assert(seq![s[0]] + rest.push((name, value)) =~= s.push((name, value)));
            assert(seq![s[0]] + rest =~= s);
        }
    }
}

/// Where a name stands first.
pub proof fn lemma_find<T>(s: Seq<(Seq<char>, T)>, name: Seq<char>) -> (i: int)
    ensures
        0 <= i <= s.len(),
        forall|j: int| 0 <= j < i ==> (#[trigger] s[j]).0 != name,
        i < s.len() ==> s[i].0 == name,
    decreases s.len(),
{
    if s.len() == 0 || s[0].0 == name {
        0
    } else {
        let i = 1 + lemma_find(s.drop_first(), name);
        assert forall|j: int| 0 <= j < i implies (#[trigger] s[j]).0 != name by {
            if j > 0 {
                assert(s[j] == s.drop_first()[j - 1]);
            }
        }
        i
    }
}

/// A name has the value that it was set to last; the values of the others
/// stay, and no name stands twice.
pub proof fn law_set_then_get<T>(
    s: Seq<(Seq<char>, T)>,
    name: Seq<char>,
    value: T,
    other: Seq<char>,
)
    requires
        distinct(s),
    ensures
        value_of(with_value(s, name, value), name) == Some(value),
        other != name ==> value_of(with_value(s, name, value), other) == value_of(s, other),
        distinct(with_value(s, name, value)),
{
    let i = lemma_find(s, name);
    lemma_first(s, i, name, value);
    let t = with_value(s, name, value);
    lemma_first(t, i, name, value);
    if other != name {
        let k = lemma_find(s, other);
        lemma_first(s, k, other, value);
        if k < s.len() {
            lemma_first(t, k, other, value);
        } else {
            lemma_first(t, t.len() as int, other, value);
        }
    }
}

/// A name that was taken out has no value; the values of the others stay, and
/// no name stands twice.
pub proof fn law_remove_then_get<T>(s: Seq<(Seq<char>, T)>, name: Seq<char>, other: Seq<char>)
    requires
        distinct(s),
    ensures
        value_of(without(s, name), name) is None,
        other != name ==> value_of(without(s, name), other) == value_of(s, other),
        distinct(without(s, name)),
{
    let i = lemma_find(s, name);
    let some: T = arbitrary();
    lemma_first(s, i, name, some);
    let t = without(s, name);
    if i < s.len() {
        assert(forall|j: int| 0 <= j < t.len() ==> #[trigger] t[j] == s[if j < i { j } else { j + 1 }]);
    }
    assert forall|j: int| 0 <= j < t.len() implies (#[trigger] t[j]).0 != name by {}
    lemma_first(t, t.len() as int, name, some);
    if other != name {
        let k = lemma_find(s, other);
        lemma_first(s, k, other, some);
        if k < s.len() {
            let at = if k < i {
                k
            } else {
                k - 1
            };
            lemma_first(t, at, other, some);
        } else {
            lemma_first(t, t.len() as int, other, some);
        }
    }
}

/// A name and its value.
#[derive(Debug)]
struct Named<V> {
    name: String,
    value: V,
}

/// Values by name, in the order in which the names came first.
#[derive(Debug)]
pub struct NamedMap<V> {
    entries: Vec<Named<V>>,
}

spec fn shown<V>(s: Seq<Named<V>>) -> Seq<(Seq<char>, V)> {
    Seq::new(s.len(), |i: int| (s[i].name@, s[i].value))
}

impl<V> View for NamedMap<V> {
    type V = Seq<(Seq<char>, V)>;

    closed spec fn view(&self) -> Seq<(Seq<char>, V)> {
        shown(self.entries@)
    }
}

impl<V> NamedMap<V> {
    #[verifier::type_invariant]
    spec fn well_formed(self) -> bool {
        distinct(shown(self.entries@))
    }

    /// No names.
    pub fn new() -> (r: NamedMap<V>)
        ensures
            r@ == Seq::<(Seq<char>, V)>::empty(),
            distinct(r@),
    {
        let entries: Vec<Named<V>> = Vec::new();
        assert(shown(entries@) =~= Seq::<(Seq<char>, V)>::empty());
        NamedMap { entries }
    }

    /// The number of names.
    pub fn len(&self) -> (r: usize)
        ensures
            r == self@.len(),
            distinct(self@),
    {
        proof {
            use_type_invariant(self);
        }
        self.entries.len()
    }

    /// The name at a position.
    pub fn name(&self, i: usize) -> (r: &String)
        requires
            i < self@.len(),
        ensures
            r@ == self@[i as int].0,
    {
        &self.entries[i].name
    }

    /// The value at a position.
    pub fn value(&self, i: usize) -> (r: &V)
        requires
            i < self@.len(),
        ensures
            *r == self@[i as int].1,
    {
        &self.entries[i].value
    }

    /// The position of a name; the number of names where it is not there.
    fn find(&self, name: &str) -> (r: usize)
        ensures
            r <= self@.len(),
            forall|j: int| 0 <= j < r ==> (#[trigger] self@[j]).0 != name@,
            r < self@.len() ==> self@[r as int].0 == name@,
    {
        for i in 0..self.entries.len()
            invariant
                forall|j: int| 0 <= j < i ==> (#[trigger] self@[j]).0 != name@,
        {
            if text::same(self.entries[i].name.as_str(), name) {
                return i;
            }
        }
        self.entries.len()
    }

    /// The value of a name.
    pub fn get(&self, name: &str) -> (r: Option<&V>)
        ensures
            distinct(self@),
            match r {
                Some(v) => value_of(self@, name@) == Some(*v),
                None => value_of(self@, name@) is None,
            },
    {
        proof {
            use_type_invariant(self);
        }
        let i = self.find(name);
        proof {
            lemma_first(self@, i as int, name@, arbitrary());
        }
        if i < self.entries.len() {
            Some(&self.entries[i].value)
        } else {
            None
        }
    }

    /// Set a name to a value; the value that it had.
    pub fn insert(&mut self, name: String, value: V) -> (r: Option<V>)
        ensures
            final(self)@ == with_value(old(self)@, name@, value),
            distinct(old(self)@),
            distinct(final(self)@),
            r == value_of(old(self)@, name@),
    {
        proof {
            use_type_invariant(&*self);
        }
        let i = self.find(name.as_str());
        let ghost before = self@;
        proof {
            lemma_first(before, i as int, name@, value);
            law_set_then_get(before, name@, value, name@);
        }
        let mut entries: Vec<Named<V>> = Vec::new();
        std::mem::swap(&mut entries, &mut self.entries);
        let mut prior: Option<V> = None;
        if i < entries.len() {
            let old_entry = entries.remove(i);
            entries.insert(i, Named { name, value });
            prior = Some(old_entry.value);
            assert(shown(entries@) =~= before.update(i as int, (name@, value)));
        } else {
            entries.push(Named { name, value });
            assert(shown(entries@) =~= before.push((name@, value)));
        }
        self.entries = entries;
        prior
    }

    /// Take a name out; the value that it had.
    pub fn remove(&mut self, name: &str) -> (r: Option<V>)
        ensures
            final(self)@ == without(old(self)@, name@),
            distinct(old(self)@),
            distinct(final(self)@),
            r == value_of(old(self)@, name@),
    {
        proof {
            use_type_invariant(&*self);
        }
        let i = self.find(name);
        let ghost before = self@;
        proof {
            lemma_first(before, i as int, name@, arbitrary());
            law_remove_then_get(before, name@, name@);
        }
        let mut entries: Vec<Named<V>> = Vec::new();
        std::mem::swap(&mut entries, &mut self.entries);
        let mut prior: Option<V> = None;
        if i < entries.len() {
            let old_entry = entries.remove(i);
            prior = Some(old_entry.value);
            assert(shown(entries@) =~= before.remove(i as int));
        }
        self.entries = entries;
        prior
    }
}

} // verus!
