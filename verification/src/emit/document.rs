//! Documents made of texts, lists and tables, and their YAML.
use vstd::prelude::*;
use vstd::string::*;

use crate::text;

verus! {

/// A document.
#[derive(Debug)]
pub enum Doc {
    Text(String),
    List(Vec<Doc>),
    Table(Vec<Field>),
}

/// A key of a table and what stands under it.
#[derive(Debug)]
pub struct Field {
    pub key: String,
    pub value: Doc,
}

/// What [`Doc`] holds.
#[verifier::ext_equal]
pub enum DocView {
    Text(Seq<char>),
    List(Seq<DocView>),
    Table(Seq<FieldView>),
}

/// What [`Field`] holds.
#[verifier::ext_equal]
pub struct FieldView {
    pub key: Seq<char>,
    pub value: DocView,
}

/// The view of a document.
pub open spec fn doc_view(d: Doc) -> DocView
    decreases d,
{
    match d {
        Doc::Text(s) => DocView::Text(s@),
        Doc::List(v) => DocView::List(docs_view(v@)),
        Doc::Table(v) => DocView::Table(fields_view(v@)),
    }
}

/// The views of a list of documents.
pub open spec fn docs_view(s: Seq<Doc>) -> Seq<DocView>
    decreases s,
{
    Seq::new(
        s.len(),
        |i: int|
            if 0 <= i < s.len() {
                doc_view(s[i])
            } else {
                arbitrary()
            },
    )
}

/// The view of a field.
pub open spec fn field_view(f: Field) -> FieldView
    decreases f,
{
    FieldView { key: f.key@, value: doc_view(f.value) }
}

/// The views of a list of fields.
pub open spec fn fields_view(s: Seq<Field>) -> Seq<FieldView>
    decreases s,
{
    Seq::new(
        s.len(),
        |i: int|
            if 0 <= i < s.len() {
                field_view(s[i])
            } else {
                arbitrary()
            },
    )
}

impl View for Doc {
    type V = DocView;

    open spec fn view(&self) -> DocView {
        doc_view(*self)
    }
}

/// The view of a list holds the view of each document.
pub broadcast proof fn docs_view_index(s: Seq<Doc>, i: int)
    requires
        0 <= i < s.len(),
    ensures
        #[trigger] docs_view(s)[i] == doc_view(s[i]),
{
}

/// The view of a list is as long as the list.
pub broadcast proof fn docs_view_len(s: Seq<Doc>)
    ensures
        #[trigger] docs_view(s).len() == s.len(),
{
}

/// The view of a list holds the view of each field.
pub broadcast proof fn fields_view_index(s: Seq<Field>, i: int)
    requires
        0 <= i < s.len(),
    ensures
        #[trigger] fields_view(s)[i] == field_view(s[i]),
{
}

/// The view of a list is as long as the list.
pub broadcast proof fn fields_view_len(s: Seq<Field>)
    ensures
        #[trigger] fields_view(s).len() == s.len(),
{
}

/// How the views of lists are made up.
pub broadcast group group_doc_views {
    docs_view_index,
    docs_view_len,
    fields_view_index,
    fields_view_len,
}

/// A text.
pub fn text_doc(s: &str) -> (r: Doc)
    ensures
        r@ == DocView::Text(s@),
{
    Doc::Text(s.to_owned())
}

/// The texts of a list, each as a document.
pub open spec fn text_docs(v: Seq<Seq<char>>) -> Seq<DocView> {
    Seq::new(v.len(), |i: int| DocView::Text(v[i]))
}

/// A list of texts.
pub fn list_of_texts(v: &Vec<String>) -> (r: Doc)
    ensures
        r@ == DocView::List(text_docs(text::texts(v@))),
{
    broadcast use group_doc_views;

    let mut out: Vec<Doc> = Vec::new();
    for i in 0..v.len()
        invariant
            out@.len() == i,
            forall|j: int| 0 <= j < i ==> doc_view(#[trigger] out@[j]) == DocView::Text(v@[j]@),
    {
        out.push(text_doc(v[i].as_str()));
    }
    assert(docs_view(out@) =~= text_docs(text::texts(v@)));
    Doc::List(out)
}

/// A table with one key.
pub fn table_of(key: &str, value: Doc) -> (r: Doc)
    ensures
        r@ == DocView::Table(seq![FieldView { key: key@, value: value@ }]),
{
    broadcast use group_doc_views;

    let mut fields: Vec<Field> = Vec::new();
    fields.push(Field { key: key.to_owned(), value });
    assert(fields_view(fields@) =~= seq![FieldView { key: key@, value: value@ }]);
    Doc::Table(fields)
}

/// Add a key at the end of a list of fields.
pub fn push_field(fields: &mut Vec<Field>, key: &str, value: Doc)
    ensures
        fields_view(final(fields)@) == fields_view(old(fields)@).push(
            FieldView { key: key@, value: value@ },
        ),
{
    broadcast use group_doc_views;

    fields.push(Field { key: key.to_owned(), value });
    assert(fields_view(fields@) =~= fields_view(old(fields)@).push(
        FieldView { key: key@, value: value@ },
    ));
}

// ── YAML ──────────────────────────────────────────────────────────────────────

/// A YAML value, opaque here.
#[verifier::external_type_specification]
#[verifier::external_body]
pub struct ExYamlValue(serde_yaml::Value);

/// A document as a YAML value (`serde_yaml::Value`), one for one.
#[verifier::external_body]
fn yaml_value(d: &Doc) -> serde_yaml::Value {
    match d {
        Doc::Text(s) => serde_yaml::Value::String(s.clone()),
        Doc::List(v) => serde_yaml::Value::Sequence(v.iter().map(yaml_value).collect()),
        Doc::Table(v) => serde_yaml::Value::Mapping(
            v.iter().map(|f| (serde_yaml::Value::String(f.key.clone()), yaml_value(&f.value))).collect(),
        ),
    }
}

/// A document as YAML; `None` if it cannot be written.
pub uninterp spec fn yaml_text(d: DocView) -> Option<Seq<char>>;

/// `serde_yaml::to_string` on a document: its YAML text. How YAML is laid out
/// and when a text is quoted is not stated; it depends on the document alone.
#[verifier::external_body]
pub(crate) fn to_yaml(d: &Doc) -> (r: Option<String>)
    ensures
        match r {
            Some(s) => yaml_text(d@) == Some(s@),
            None => yaml_text(d@) is None,
        },
{
    serde_yaml::to_string(&yaml_value(d)).ok()
}

} // verus!
