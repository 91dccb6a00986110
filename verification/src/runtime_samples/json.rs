//! JSON values.
use vstd::prelude::*;
use vstd::string::*;

use crate::text;

verus! {

/// A JSON value; numbers stand as they are written.
#[derive(Debug)]
pub enum Json {
    Null,
    Bool(bool),
    Number(String),
    Text(String),
    List(Vec<Json>),
    Object(Vec<Member>),
}

/// A key of an object and its value.
#[derive(Debug)]
pub struct Member {
    pub key: String,
    pub value: Json,
}

/// What [`Json`] holds.
#[verifier::ext_equal]
pub enum JsonView {
    Null,
    Bool(bool),
    Number(Seq<char>),
    Text(Seq<char>),
    List(Seq<JsonView>),
    Object(Seq<MemberView>),
}

/// What [`Member`] holds.
#[verifier::ext_equal]
pub struct MemberView {
    pub key: Seq<char>,
    pub value: JsonView,
}

/// The view of a value.
pub open spec fn json_view(j: Json) -> JsonView
    decreases j,
{
    match j {
        Json::Null => JsonView::Null,
        Json::Bool(b) => JsonView::Bool(b),
        Json::Number(s) => JsonView::Number(s@),
        Json::Text(s) => JsonView::Text(s@),
        Json::List(v) => JsonView::List(jsons_view(v@)),
        Json::Object(v) => JsonView::Object(members_view(v@)),
    }
}

/// The views of a list of values.
pub open spec fn jsons_view(s: Seq<Json>) -> Seq<JsonView>
    decreases s,
{
    Seq::new(
        s.len(),
        |i: int|
            if 0 <= i < s.len() {
                json_view(s[i])
            } else {
                arbitrary()
            },
    )
}

/// The view of a member.
pub open spec fn member_view(m: Member) -> MemberView
    decreases m,
{
    MemberView { key: m.key@, value: json_view(m.value) }
}

/// The views of a list of members.
pub open spec fn members_view(s: Seq<Member>) -> Seq<MemberView>
    decreases s,
{
    Seq::new(
        s.len(),
        |i: int|
            if 0 <= i < s.len() {
                member_view(s[i])
            } else {
                arbitrary()
            },
    )
}

impl View for Json {
    type V = JsonView;

    open spec fn view(&self) -> JsonView {
        json_view(*self)
    }
}

/// The view of a list holds the view of each value.
pub broadcast proof fn jsons_view_index(s: Seq<Json>, i: int)
    requires
        0 <= i < s.len(),
    ensures
        #[trigger] jsons_view(s)[i] == json_view(s[i]),
{
}

/// The view of a list is as long as the list.
pub broadcast proof fn jsons_view_len(s: Seq<Json>)
    ensures
        #[trigger] jsons_view(s).len() == s.len(),
{
}

/// The view of a list holds the view of each member.
pub broadcast proof fn members_view_index(s: Seq<Member>, i: int)
    requires
        0 <= i < s.len(),
    ensures
        #[trigger] members_view(s)[i] == member_view(s[i]),
{
}

/// The view of a list is as long as the list.
pub broadcast proof fn members_view_len(s: Seq<Member>)
    ensures
        #[trigger] members_view(s).len() == s.len(),
{
}

/// How the views of lists are made up.
pub broadcast group group_json_views {
    jsons_view_index,
    jsons_view_len,
    members_view_index,
    members_view_len,
}

fn clone_jsons(v: &Vec<Json>) -> (r: Vec<Json>)
    ensures
        jsons_view(r@) == jsons_view(v@),
    decreases v,
{
    broadcast use vstd::std_specs::vec::axiom_vec_index_decreases;

    let mut out: Vec<Json> = Vec::new();
    for i in 0..v.len()
        invariant
            out@.len() == i,
            forall|j: int| 0 <= j < i ==> json_view(#[trigger] out@[j]) == json_view(v@[j]),
    {
        assert(decreases_to!(*v => v[i as int]));
        out.push(clone_json(&v[i]));
    }
    assert(jsons_view(out@) =~= jsons_view(v@));
    out
}

fn clone_members(v: &Vec<Member>) -> (r: Vec<Member>)
    ensures
        members_view(r@) == members_view(v@),
    decreases v,
{
    broadcast use vstd::std_specs::vec::axiom_vec_index_decreases;

    let mut out: Vec<Member> = Vec::new();
    for i in 0..v.len()
        invariant
            out@.len() == i,
            forall|j: int| 0 <= j < i ==> member_view(#[trigger] out@[j]) == member_view(v@[j]),
    {
        assert(decreases_to!(*v => v[i as int]));
        assert(decreases_to!(v[i as int] => v[i as int].value));
        out.push(Member { key: v[i].key.clone(), value: clone_json(&v[i].value) });
    }
    assert(members_view(out@) =~= members_view(v@));
    out
}

/// A copy of a value.
pub fn clone_json(j: &Json) -> (r: Json)
    ensures
        json_view(r) == json_view(*j),
    decreases j,
{
    match j {
        Json::Null => Json::Null,
        Json::Bool(b) => Json::Bool(*b),
        Json::Number(s) => Json::Number(s.clone()),
        Json::Text(s) => Json::Text(s.clone()),
        Json::List(v) => Json::List(clone_jsons(v)),
        Json::Object(v) => Json::Object(clone_members(v)),
    }
}

impl Clone for Json {
    fn clone(&self) -> (r: Json)
        ensures
            r@ == self@,
    {
        clone_json(self)
    }
}

// ── Labelling keys ────────────────────────────────────────────────────────────

/// Whether a key labels a record rather than being part of it.
pub open spec fn labelling(key: Seq<char>) -> bool {
    key == "source"@ || key == "sketch"@ || key == "impl"@
}

/// The members of an object without the labelling keys.
pub open spec fn unlabelled_members(s: Seq<MemberView>) -> Seq<MemberView>
    decreases s.len(),
{
    if s.len() == 0 {
        s
    } else if labelling(s.last().key) {
        unlabelled_members(s.drop_last())
    } else {
        unlabelled_members(s.drop_last()).push(s.last())
    }
}

/// A value without the labelling keys, where it is an object.
pub open spec fn unlabelled(j: JsonView) -> JsonView {
    match j {
        JsonView::Object(s) => JsonView::Object(unlabelled_members(s)),
        _ => j,
    }
}

fn is_labelling(key: &str) -> (r: bool)
    ensures
        r == labelling(key@),
{
    text::same(key, "source") || text::same(key, "sketch") || text::same(key, "impl")
}

/// A value without the labelling keys, where it is an object.
pub fn strip_labels(j: &Json) -> (r: Json)
    ensures
        r@ == unlabelled(j@),
{
    match j {
        Json::Object(v) => {
            broadcast use group_json_views;

            let ghost all = members_view(v@);
            let mut out: Vec<Member> = Vec::new();
            assert(members_view(out@) =~= Seq::<MemberView>::empty());
            for i in 0..v.len()
                invariant
                    all == members_view(v@),
                    members_view(out@) == unlabelled_members(all.take(i as int)),
            {
                broadcast use group_json_views;

                let ghost before = members_view(out@);
                assert(all.take(i as int + 1).drop_last() =~= all.take(i as int));
                assert(all[i as int] == member_view(v@[i as int]));
                if !is_labelling(v[i].key.as_str()) {
                    out.push(Member { key: v[i].key.clone(), value: clone_json(&v[i].value) });
                    assert(members_view(out@) =~= before.push(all[i as int]));
                }
            }
            assert(all.take(all.len() as int) =~= all);
            Json::Object(out)
        },
        _ => clone_json(j),
    }
}

/// A value without labelling keys stays as it is when they are taken out again,
/// and keeps every other key.
pub proof fn law_labels_go_once(s: Seq<MemberView>)
    ensures
        forall|i: int|
            0 <= i < unlabelled_members(s).len() ==> !labelling(
                (#[trigger] unlabelled_members(s)[i]).key,
            ),
        unlabelled_members(unlabelled_members(s)) == unlabelled_members(s),
        forall|m: MemberView|
            !labelling(m.key) ==> (unlabelled_members(s).contains(m) <==> #[trigger] s.contains(m)),
    decreases s.len(),
{
    if s.len() > 0 {
        let init = s.drop_last();
        law_labels_go_once(init);
        let kept = unlabelled_members(s);
        if !labelling(s.last().key) {
            assert(kept.drop_last() =~= unlabelled_members(init));
            assert(kept.last() == s.last());
        }
        assert forall|m: MemberView| !labelling(m.key) implies (kept.contains(m)
            <==> #[trigger] s.contains(m)) by {
            assert(s =~= init.push(s.last()));
            if s.contains(m) && m != s.last() {
                let i = choose|i: int| 0 <= i < s.len() && s[i] == m;
                assert(init[i] == m);
                assert(init.contains(m));
            }
            if init.contains(m) {
                let i = choose|i: int| 0 <= i < init.len() && init[i] == m;
                assert(s[i] == m);
                let k = choose|k: int|
                    0 <= k < unlabelled_members(init).len() && unlabelled_members(init)[k] == m;
                assert(kept[k] == m);
            }
            if kept.contains(m) {
                let k = choose|k: int| 0 <= k < kept.len() && kept[k] == m;
                if k < unlabelled_members(init).len() {
                    assert(unlabelled_members(init)[k] == m);
                    assert(init.contains(m));
                }
            }
            if m == s.last() {
                assert(s[s.len() - 1] == m);
                assert(kept[kept.len() - 1] == m);
            }
        }
    }
}

// ── Reading ───────────────────────────────────────────────────────────────────

/// A JSON value of the parser, opaque here.
#[verifier::external_type_specification]
#[verifier::external_body]
pub struct ExJsonValue(serde_json::Value);

/// A JSON value of the parser (`serde_json::Value`) as plain data, a number by
/// its text.
#[verifier::external_body]
fn json_of(v: serde_json::Value) -> Json {
    match v {
        serde_json::Value::Null => Json::Null,
        serde_json::Value::Bool(b) => Json::Bool(b),
        serde_json::Value::Number(n) => Json::Number(n.to_string()),
        serde_json::Value::String(s) => Json::Text(s),
        serde_json::Value::Array(v) => Json::List(v.into_iter().map(json_of).collect()),
        serde_json::Value::Object(m) => Json::Object(
            m.into_iter().map(|(key, v)| Member { key, value: json_of(v) }).collect(),
        ),
    }
}

/// The value that a text holds; `None` if it is no JSON.
pub uninterp spec fn parsed_json(s: Seq<char>) -> Option<JsonView>;

/// `serde_json::from_str` on a text: the value that it holds, if it is JSON.
/// What JSON is is not stated; the result depends on the text alone.
#[verifier::external_body]
pub(crate) fn parse_json(s: &str) -> (r: Option<Json>)
    ensures
        match r {
            Some(j) => parsed_json(s@) == Some(j@),
            None => parsed_json(s@) is None,
        },
{
    serde_json::from_str::<serde_json::Value>(s).ok().map(json_of)
}

} // verus!
