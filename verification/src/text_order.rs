//! Alphabetical order on strings, sorting, and blank space.
use vstd::prelude::*;
use vstd::string::*;

use crate::text;

verus! {

// ── Blank space ───────────────────────────────────────────────────────────────

/// Whether a character is white space in the sense of Unicode.
pub open spec fn is_space(c: char) -> bool {
    let n = c as u32;
    (9 <= n <= 13) || n == 0x20 || n == 0x85 || n == 0xA0 || n == 0x1680 || (0x2000 <= n <= 0x200A)
        || n == 0x2028 || n == 0x2029 || n == 0x202F || n == 0x205F || n == 0x3000
}

/// `s` from its first character that is not white space on.
pub open spec fn trim_front(s: Seq<char>) -> Seq<char>
    decreases s.len(),
{
    if s.len() > 0 && is_space(s[0]) {
        trim_front(s.drop_first())
    } else {
        s
    }
}

/// `s` up to its last character that is not white space.
pub open spec fn trim_back(s: Seq<char>) -> Seq<char>
    decreases s.len(),
{
    if s.len() > 0 && is_space(s.last()) {
        trim_back(s.drop_last())
    } else {
        s
    }
}

/// `s` without white space at either end.
pub open spec fn trimmed(s: Seq<char>) -> Seq<char> {
    trim_back(trim_front(s))
}

/// Whether a character is white space in the sense of Unicode.
fn space(c: char) -> (r: bool)
    ensures
        r == is_space(c),
{
    let n: u32 = c as u32;
    (9 <= n && n <= 13) || n == 0x20 || n == 0x85 || n == 0xA0 || n == 0x1680 || (0x2000 <= n && n
        <= 0x200A) || n == 0x2028 || n == 0x2029 || n == 0x202F || n == 0x205F || n == 0x3000
}

/// `s` without white space at either end.
pub fn trim(s: &str) -> (r: String)
    ensures
        r@ == trimmed(s@),
{
    let chars = text::chars_of(s);
    let mut i: usize = 0;
    assert(s@.skip(0) =~= s@);
    while i < chars.len() && space(chars[i])
        invariant
            chars@ == s@,
            i <= chars@.len(),
            trim_front(s@) == trim_front(s@.skip(i as int)),
        decreases chars@.len() - i,
    {
        assert(s@.skip(i as int).drop_first() =~= s@.skip(i as int + 1));
        i = i + 1;
    }
    let ghost front = s@.skip(i as int);
    assert(trim_front(s@) == front);
    let mut j: usize = chars.len();
    assert(s@.subrange(i as int, j as int) =~= front);
    while j > i && space(chars[j - 1])
        invariant
            chars@ == s@,
            i <= j <= chars@.len(),
            trim_back(front) == trim_back(s@.subrange(i as int, j as int)),
        decreases j,
    {
        assert(s@.subrange(i as int, j as int).drop_last() =~= s@.subrange(i as int, j - 1));
        j = j - 1;
    }
    s.substring_char(i, j).to_owned()
}

// ── Order ─────────────────────────────────────────────────────────────────────

/// Whether `a` stands at or before `b` in alphabetical order of characters.
pub open spec fn precedes(a: Seq<char>, b: Seq<char>) -> bool
    decreases a.len(),
{
    if a.len() == 0 {
        true
    } else if b.len() == 0 {
        false
    } else if a[0] != b[0] {
        a[0] < b[0]
    } else {
        precedes(a.drop_first(), b.drop_first())
    }
}

/// Of two texts one stands at or before the other.
pub proof fn law_precedes_total(a: Seq<char>, b: Seq<char>)
    ensures
        precedes(a, b) || precedes(b, a),
    decreases a.len(),
{
    if a.len() > 0 && b.len() > 0 && a[0] == b[0] {
        law_precedes_total(a.drop_first(), b.drop_first());
    }
}

/// The order is transitive.
pub proof fn law_precedes_transitive(a: Seq<char>, b: Seq<char>, c: Seq<char>)
    requires
        precedes(a, b),
        precedes(b, c),
    ensures
        precedes(a, c),
    decreases a.len(),
{
    if a.len() > 0 && b.len() > 0 && c.len() > 0 && a[0] == b[0] && b[0] == c[0] {
        law_precedes_transitive(a.drop_first(), b.drop_first(), c.drop_first());
    }
}

/// Two texts that stand at or before each other are the same.
pub proof fn law_precedes_antisymmetric(a: Seq<char>, b: Seq<char>)
    requires
        precedes(a, b),
        precedes(b, a),
    ensures
        a == b,
    decreases a.len(),
{
    if a.len() > 0 && b.len() > 0 && a[0] == b[0] {
        law_precedes_antisymmetric(a.drop_first(), b.drop_first());
        assert(a =~= seq![a[0]] + a.drop_first());
        assert(b =~= seq![b[0]] + b.drop_first());
    } else {
        assert(a =~= b);
    }
}

/// Whether `a` stands at or before `b` in alphabetical order of characters.
pub fn not_after(a: &str, b: &str) -> (r: bool)
    ensures
        r == precedes(a@, b@),
{
    let x = text::chars_of(a);
    let y = text::chars_of(b);
    let mut i: usize = 0;
    assert(a@.skip(0) =~= a@);
    assert(b@.skip(0) =~= b@);
    while i < x.len() && i < y.len()
        invariant
            x@ == a@,
            y@ == b@,
            i <= x@.len(),
            i <= y@.len(),
            precedes(a@, b@) == precedes(a@.skip(i as int), b@.skip(i as int)),
        decreases x@.len() - i,
    {
        if x[i] != y[i] {
            return x[i] < y[i];
        }
        assert(a@.skip(i as int).drop_first() =~= a@.skip(i as int + 1));
        assert(b@.skip(i as int).drop_first() =~= b@.skip(i as int + 1));
        i = i + 1;
    }
    i == x.len()
}

// ── Sorting ───────────────────────────────────────────────────────────────────

/// `s` put into `v` behind the last text that stands at or before it.
pub open spec fn inserted(v: Seq<Seq<char>>, s: Seq<char>) -> Seq<Seq<char>>
    decreases v.len(),
{
    if v.len() == 0 {
        seq![s]
    } else if precedes(v.last(), s) {
        v.push(s)
    } else {
        inserted(v.drop_last(), s).push(v.last())
    }
}

/// The texts of `v` in alphabetical order.
pub open spec fn sorted(v: Seq<Seq<char>>) -> Seq<Seq<char>>
    decreases v.len(),
{
    if v.len() == 0 {
        Seq::empty()
    } else {
        inserted(sorted(v.drop_last()), v.last())
    }
}

/// Whether each text stands at or before every later one.
pub open spec fn ordered(v: Seq<Seq<char>>) -> bool {
    forall|i: int, j: int| 0 <= i <= j < v.len() ==> precedes(#[trigger] v[i], #[trigger] v[j])
}

proof fn lemma_precedes_self(a: Seq<char>)
    ensures
        precedes(a, a),
{
    law_precedes_total(a, a);
}

proof fn lemma_inserted(v: Seq<Seq<char>>, s: Seq<char>)
    requires
        ordered(v),
    ensures
        ordered(inserted(v, s)),
        inserted(v, s).to_multiset() == v.to_multiset().insert(s),
        forall|k: int|
            0 <= k < inserted(v, s).len() ==> (#[trigger] inserted(v, s)[k] == s || v.contains(
                inserted(v, s)[k],
            )),
    decreases v.len(),
{
    broadcast use vstd::seq_lib::group_to_multiset_ensures;

    lemma_precedes_self(s);
    let r = inserted(v, s);
    if v.len() == 0 {
        assert(v.push(s) =~= seq![s]);
        assert(v.to_multiset().insert(s) =~= v.push(s).to_multiset());
    } else if precedes(v.last(), s) {
        assert(r =~= v.push(s));
        assert forall|i: int, j: int| 0 <= i <= j < r.len() implies precedes(
            #[trigger] r[i],
            #[trigger] r[j],
        ) by {
            if j == v.len() && i < j {
                assert(precedes(v[i], v[v.len() - 1]));
                law_precedes_transitive(v[i], v.last(), s);
            } else if j < v.len() {
                assert(precedes(v[i], v[j]));
            }
        }
        assert forall|k: int| 0 <= k < r.len() implies (#[trigger] r[k] == s || v.contains(r[k])) by {
            if k < v.len() {
                assert(r[k] == v[k]);
            }
        }
    } else {
        let w = v.drop_last();
        let t = inserted(w, s);
        assert forall|i: int, j: int| 0 <= i <= j < w.len() implies precedes(
            #[trigger] w[i],
            #[trigger] w[j],
        ) by {
            assert(precedes(v[i], v[j]));
        }
        lemma_inserted(w, s);
        law_precedes_total(v.last(), s);
        lemma_precedes_self(v.last());
        assert(r =~= t.push(v.last()));
        assert forall|k: int| 0 <= k < t.len() implies precedes(#[trigger] t[k], v.last()) by {
            if t[k] != s {
                assert(w.contains(t[k]));
                let m = choose|m: int| 0 <= m < w.len() && w[m] == t[k];
                assert(precedes(v[m], v[v.len() - 1]));
            }
        }
        assert forall|i: int, j: int| 0 <= i <= j < r.len() implies precedes(
            #[trigger] r[i],
            #[trigger] r[j],
        ) by {
            if j < t.len() {
                assert(precedes(t[i], t[j]));
            } else if i < t.len() {
                assert(precedes(t[i], v.last()));
            }
        }
        assert forall|k: int| 0 <= k < r.len() implies (#[trigger] r[k] == s || v.contains(r[k])) by {
            if k < t.len() {
                if t[k] != s {
                    assert(w.contains(t[k]));
                    let m = choose|m: int| 0 <= m < w.len() && w[m] == t[k];
                    assert(v[m] == r[k]);
                }
            } else {
                assert(v[v.len() - 1] == r[k]);
            }
        }
        assert(v =~= w.push(v.last()));
        assert(r.to_multiset() =~= v.to_multiset().insert(s));
    }
}

/// Sorting yields the same texts, in alphabetical order.
pub proof fn law_sorted(v: Seq<Seq<char>>)
    ensures
        ordered(sorted(v)),
        sorted(v).to_multiset() == v.to_multiset(),
    decreases v.len(),
{
    broadcast use vstd::seq_lib::group_to_multiset_ensures;

    if v.len() > 0 {
        law_sorted(v.drop_last());
        lemma_inserted(sorted(v.drop_last()), v.last());
        assert(v =~= v.drop_last().push(v.last()));
    } else {
        assert(sorted(v) =~= v);
    }
}

/// Whether each text stands before every later one.
pub open spec fn ascending(v: Seq<Seq<char>>) -> bool {
    ordered(v) && v.no_duplicates()
}

/// Texts of which none stands twice are in ascending order once sorted, and are
/// the same texts.
pub proof fn law_sorted_once(v: Seq<Seq<char>>)
    requires
        v.no_duplicates(),
    ensures
        ascending(sorted(v)),
        forall|x: Seq<char>| #[trigger] sorted(v).contains(x) <==> v.contains(x),
{
    broadcast use vstd::seq_lib::group_to_multiset_ensures;

    law_sorted(v);
    v.lemma_multiset_has_no_duplicates();
    sorted(v).lemma_multiset_has_no_duplicates_conv();
    assert forall|x: Seq<char>| #[trigger] sorted(v).contains(x) <==> v.contains(x) by {
        assert(sorted(v).to_multiset().count(x) == v.to_multiset().count(x));
    }
}

/// Sorting keeps the number of texts.
pub proof fn lemma_sorted_len(v: Seq<Seq<char>>)
    ensures
        sorted(v).len() == v.len(),
    decreases v.len(),
{
    if v.len() > 0 {
        lemma_sorted_len(v.drop_last());
        lemma_inserted_len(sorted(v.drop_last()), v.last());
    }
}

proof fn lemma_inserted_len(v: Seq<Seq<char>>, s: Seq<char>)
    ensures
        inserted(v, s).len() == v.len() + 1,
    decreases v.len(),
{
    if v.len() > 0 && !precedes(v.last(), s) {
        lemma_inserted_len(v.drop_last(), s);
    }
}

proof fn lemma_insert_position(v: Seq<Seq<char>>, s: Seq<char>, p: int)
    requires
        0 <= p <= v.len(),
        forall|k: int| p <= k < v.len() ==> !precedes(#[trigger] v[k], s),
        p > 0 ==> precedes(v[p - 1], s),
    ensures
        inserted(v, s) == v.insert(p, s),
    decreases v.len(),
{
    if v.len() == 0 {
        assert(seq![s] =~= v.insert(p, s));
    } else if p == v.len() {
        assert(v.push(s) =~= v.insert(p, s));
    } else {
        lemma_insert_position(v.drop_last(), s, p);
        assert(!precedes(v[v.len() - 1], s));
        assert(v.drop_last().insert(p, s).push(v.last()) =~= v.insert(p, s));
    }
}

/// The strings in alphabetical order.
pub fn sort_texts(v: &Vec<String>) -> (r: Vec<String>)
    ensures
        text::texts(r@) == sorted(text::texts(v@)),
{
    let mut out: Vec<String> = Vec::new();
    assert(text::texts(out@) =~= sorted(text::texts(v@).take(0)));
    for i in 0..v.len()
        invariant
            text::texts(out@) == sorted(text::texts(v@).take(i as int)),
    {
        let ghost before = text::texts(out@);
        let mut p: usize = out.len();
        while p > 0 && !not_after(out[p - 1].as_str(), v[i].as_str())
            invariant
                i < v@.len(),
                before == text::texts(out@),
                p <= out@.len(),
                forall|k: int| p <= k < before.len() ==> !precedes(#[trigger] before[k], v@[i as int]@),
            decreases p,
        {
            p = p - 1;
        }
        proof {
            lemma_insert_position(before, v@[i as int]@, p as int);
            let seen = text::texts(v@).take(i as int + 1);
            assert(seen.drop_last() =~= text::texts(v@).take(i as int));
        }
        out.insert(p, v[i].clone());
        assert(text::texts(out@) =~= before.insert(p as int, v@[i as int]@));
    }
    assert(text::texts(v@).take(v@.len() as int) =~= text::texts(v@));
    out
}

} // verus!
