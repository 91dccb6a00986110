//! The typed query tree: scans, windows, aggregates and named bindings, each
//! with a derivable output schema.
use vstd::prelude::*;
use vstd::string::*;

use crate::intent_algebra::agg_intent::AggIntent;
use crate::intent_algebra::schema;
use crate::intent_algebra::schema::{
    clone_ids, output_schema_for_aggregate, ColumnId, Schema, SchemaView,
};
use crate::text;
use crate::types::{BindingName, Duration};

verus! {

/// How a window moves.
#[derive(Clone, Copy, Debug, PartialEq, Eq, Structural)]
pub enum WindowKind {
    Tumbling,
    Sliding,
    Session,
}

/// What a scan reads.
#[derive(Debug, PartialEq, Eq)]
#[allow(inconsistent_fields)]
pub enum Source {
    /// A metric stream.
    TimeSeries { metric: String },
    /// A table.
    Table { table_ref: String },
}

/// What [`Source`] holds.
#[verifier::ext_equal]
pub enum SourceView {
    TimeSeries { metric: Seq<char> },
    Table { table_ref: Seq<char> },
}

impl View for Source {
    type V = SourceView;

    open spec fn view(&self) -> SourceView {
        match self {
            Source::TimeSeries { metric } => SourceView::TimeSeries { metric: metric@ },
            Source::Table { table_ref } => SourceView::Table { table_ref: table_ref@ },
        }
    }
}

/// A label that has to equal a value.
#[derive(Debug, PartialEq, Eq)]
pub struct LabelFilter {
    pub label: String,
    pub equals: String,
}

/// What [`LabelFilter`] holds.
#[verifier::ext_equal]
pub struct LabelFilterView {
    pub label: Seq<char>,
    pub equals: Seq<char>,
}

impl View for LabelFilter {
    type V = LabelFilterView;

    open spec fn view(&self) -> LabelFilterView {
        LabelFilterView { label: self.label@, equals: self.equals@ }
    }
}

/// The views of a list of label filters.
pub open spec fn filters_view(s: Seq<LabelFilter>) -> Seq<LabelFilterView> {
    Seq::new(s.len(), |i: int| s[i]@)
}

/// A predicate on groups, as text.
#[derive(Debug, PartialEq, Eq)]
pub struct HavingPredicate(pub String);

impl View for HavingPredicate {
    type V = Seq<char>;

    open spec fn view(&self) -> Seq<char> {
        self.0@
    }
}

/// A node of the typed query tree.
#[derive(Debug, PartialEq, Eq)]
#[allow(inconsistent_fields)]
pub enum QueryExpr {
    /// Read a metric stream or a table.
    Scan { source: Source, label_filters: Vec<LabelFilter>, schema: Schema },
    /// Cut time into windows.
    Window { kind: WindowKind, size: Duration, slide: Option<Duration>, child: Box<QueryExpr> },
    /// Group by columns and aggregate.
    Aggregate {
        by: Vec<ColumnId>,
        aggs: Vec<AggIntent>,
        having: Option<HavingPredicate>,
        child: Box<QueryExpr>,
    },
    /// Name an expression within another.
    LetBinding { name: BindingName, expr: Box<QueryExpr>, child: Box<QueryExpr> },
    /// Refer to a named expression.
    Ref { name: BindingName },
}

/// What [`QueryExpr`] holds.
#[verifier::ext_equal]
#[allow(inconsistent_fields)]
pub enum IntentView {
    Scan { source: SourceView, label_filters: Seq<LabelFilterView>, schema: SchemaView },
    Window { kind: WindowKind, size: Duration, slide: Option<Duration>, child: Box<IntentView> },
    Aggregate {
        by: Seq<ColumnId>,
        aggs: Seq<AggIntent>,
        having: Option<Seq<char>>,
        child: Box<IntentView>,
    },
    LetBinding { name: Seq<char>, expr: Box<IntentView>, child: Box<IntentView> },
    Ref { name: Seq<char> },
}

/// The text of an optional group predicate.
pub open spec fn having_text(h: Option<HavingPredicate>) -> Option<Seq<char>> {
    match h {
        Some(p) => Some(p@),
        None => None,
    }
}

/// The view of a tree.
pub open spec fn intent_view(e: QueryExpr) -> IntentView
    decreases e,
{
    match e {
        QueryExpr::Scan { source, label_filters, schema } => IntentView::Scan {
            source: source@,
            label_filters: filters_view(label_filters@),
            schema: schema@,
        },
        QueryExpr::Window { kind, size, slide, child } => IntentView::Window {
            kind,
            size,
            slide,
            child: Box::new(intent_view(*child)),
        },
        QueryExpr::Aggregate { by, aggs, having, child } => IntentView::Aggregate {
            by: by@,
            aggs: aggs@,
            having: having_text(having),
            child: Box::new(intent_view(*child)),
        },
        QueryExpr::LetBinding { name, expr, child } => IntentView::LetBinding {
            name: name@,
            expr: Box::new(intent_view(*expr)),
            child: Box::new(intent_view(*child)),
        },
        QueryExpr::Ref { name } => IntentView::Ref { name: name@ },
    }
}

impl View for QueryExpr {
    type V = IntentView;

    open spec fn view(&self) -> IntentView {
        intent_view(*self)
    }
}

// ── Copies ────────────────────────────────────────────────────────────────────

impl Clone for Source {
    fn clone(&self) -> (r: Source)
        ensures
            r@ == self@,
    {
        match self {
            Source::TimeSeries { metric } => Source::TimeSeries { metric: metric.clone() },
            Source::Table { table_ref } => Source::Table { table_ref: table_ref.clone() },
        }
    }
}

impl Clone for HavingPredicate {
    fn clone(&self) -> (r: HavingPredicate)
        ensures
            r@ == self@,
    {
        HavingPredicate(self.0.clone())
    }
}

fn clone_filters(v: &Vec<LabelFilter>) -> (r: Vec<LabelFilter>)
    ensures
        filters_view(r@) == filters_view(v@),
{
    let mut out: Vec<LabelFilter> = Vec::new();
    for i in 0..v.len()
        invariant
            out@.len() == i,
            forall|j: int| 0 <= j < i ==> (#[trigger] out@[j])@ == v@[j]@,
    {
        out.push(LabelFilter { label: v[i].label.clone(), equals: v[i].equals.clone() });
    }
    assert(filters_view(out@) =~= filters_view(v@));
    out
}

/// A copy of a list of aggregates.
pub fn clone_intents(v: &Vec<AggIntent>) -> (r: Vec<AggIntent>)
    ensures
        r@ == v@,
{
    let mut out: Vec<AggIntent> = Vec::new();
    for i in 0..v.len()
        invariant
            out@ == v@.take(i as int),
    {
        out.push(v[i]);
        assert(out@ =~= v@.take(i as int + 1));
    }
    assert(out@ =~= v@);
    out
}

/// A copy of a tree.
pub fn clone_tree(e: &QueryExpr) -> (r: QueryExpr)
    ensures
        intent_view(r) == intent_view(*e),
    decreases e,
{
    match e {
        QueryExpr::Scan { source, label_filters, schema } => QueryExpr::Scan {
            source: source.clone(),
            label_filters: clone_filters(label_filters),
            schema: schema.clone(),
        },
        QueryExpr::Window { kind, size, slide, child } => QueryExpr::Window {
            kind: *kind,
            size: *size,
            slide: *slide,
            child: Box::new(clone_tree(child)),
        },
        QueryExpr::Aggregate { by, aggs, having, child } => QueryExpr::Aggregate {
            by: clone_ids(by),
            aggs: clone_intents(aggs),
            having: match having {
                Some(h) => Some(h.clone()),
                None => None,
            },
            child: Box::new(clone_tree(child)),
        },
        QueryExpr::LetBinding { name, expr, child } => QueryExpr::LetBinding {
            name: name.clone(),
            expr: Box::new(clone_tree(expr)),
            child: Box::new(clone_tree(child)),
        },
        QueryExpr::Ref { name } => QueryExpr::Ref { name: name.clone() },
    }
}

impl Clone for QueryExpr {
    fn clone(&self) -> (r: QueryExpr)
        ensures
            r@ == self@,
    {
        clone_tree(self)
    }
}

/// Why a tree has no output schema.
#[derive(Debug, PartialEq, Eq)]
pub enum QueryExprError {
    /// A reference names nothing in scope.
    UnresolvedRef(String),
    /// A grouping column lies outside of the input, which has so many columns.
    InvalidGroupByColumn(ColumnId, usize),
    /// The input of a window has no time axis.
    WindowMissingTimeIndex,
}

/// What [`QueryExprError`] holds.
#[verifier::ext_equal]
pub enum SchemaFault {
    UnresolvedRef(Seq<char>),
    InvalidGroupByColumn(ColumnId, usize),
    WindowMissingTimeIndex,
}

impl View for QueryExprError {
    type V = SchemaFault;

    open spec fn view(&self) -> SchemaFault {
        match self {
            QueryExprError::UnresolvedRef(s) => SchemaFault::UnresolvedRef(s@),
            QueryExprError::InvalidGroupByColumn(id, n) => SchemaFault::InvalidGroupByColumn(
                *id,
                *n,
            ),
            QueryExprError::WindowMissingTimeIndex => SchemaFault::WindowMissingTimeIndex,
        }
    }
}

impl SchemaFault {
    /// The error in words.
    pub open spec fn words(self) -> Seq<char> {
        match self {
            SchemaFault::UnresolvedRef(s) => "unresolved ref: "@ + s,
            SchemaFault::InvalidGroupByColumn(id, n) => "by-column id "@ + text::nat_text(id as nat)
                + " out of range (input has "@ + text::nat_text(n as nat) + " columns)"@,
            SchemaFault::WindowMissingTimeIndex =>
                "Window requires a time_index on input schema"@,
        }
    }
}

impl QueryExprError {
    /// The error in words.
    pub fn message(&self) -> (r: String)
        ensures
            r@ == self@.words(),
    {
        match self {
            QueryExprError::UnresolvedRef(s) => {
                let mut out = "unresolved ref: ".to_owned();
                out.append(s.as_str());
                out
            },
            QueryExprError::InvalidGroupByColumn(id, n) => {
                let mut out = "by-column id ".to_owned();
                text::push_usize(&mut out, *id);
                out.append(" out of range (input has ");
                text::push_usize(&mut out, *n);
                out.append(" columns)");
                out
            },
            QueryExprError::WindowMissingTimeIndex =>
                "Window requires a time_index on input schema".to_owned(),
        }
    }
}

// ── Scopes ────────────────────────────────────────────────────────────────────

/// A name and the schema that it stands for.
#[derive(Debug)]
pub struct Binding {
    name: String,
    schema: Schema,
}

/// The names in scope and the schemas that they stand for.
#[derive(Debug)]
pub struct BindingScope {
    bindings: Vec<Binding>,
}

/// The schema of each name; a later binding hides an earlier one.
pub closed spec fn bindings_map(s: Seq<Binding>) -> Map<Seq<char>, SchemaView>
    decreases s.len(),
{
    if s.len() == 0 {
        Map::empty()
    } else {
        bindings_map(s.drop_last()).insert(s.last().name@, s.last().schema@)
    }
}

impl View for BindingScope {
    type V = Map<Seq<char>, SchemaView>;

    closed spec fn view(&self) -> Map<Seq<char>, SchemaView> {
        bindings_map(self.bindings@)
    }
}

impl Default for BindingScope {
    fn default() -> (r: BindingScope)
        ensures
            r@ == Map::<Seq<char>, SchemaView>::empty(),
    {
        BindingScope { bindings: Vec::new() }
    }
}

proof fn lemma_bindings_tail(s: Seq<Binding>, i: int, name: Seq<char>)
    requires
        0 <= i <= s.len(),
        forall|j: int| i <= j < s.len() ==> (#[trigger] s[j]).name@ != name,
    ensures
        bindings_map(s).dom().contains(name) == bindings_map(s.take(i)).dom().contains(name),
        bindings_map(s).dom().contains(name) ==> bindings_map(s)[name] == bindings_map(
            s.take(i),
        )[name],
    decreases s.len() - i,
{
    if i < s.len() {
        lemma_bindings_tail(s.drop_last(), i, name);
        assert(s.drop_last().take(i) =~= s.take(i));
        assert(s[s.len() - 1].name@ != name);
    } else {
        assert(s.take(i) =~= s);
    }
}

impl BindingScope {
    /// The scope with no names.
    pub fn new() -> (r: BindingScope)
        ensures
            r@ == Map::<Seq<char>, SchemaView>::empty(),
    {
        BindingScope { bindings: Vec::new() }
    }

    /// The scope in which `name` stands for `schema`, whatever it stood for
    /// before; every other name stands for the same as in this one.
    pub fn with(&self, name: BindingName, schema: Schema) -> (r: BindingScope)
        ensures
            r@ == self@.insert(name@, schema@),
    {
        let mut bindings: Vec<Binding> = Vec::new();
        assert(bindings_map(bindings@) == bindings_map(self.bindings@.take(0)));
        for i in 0..self.bindings.len()
            invariant
                bindings_map(bindings@) == bindings_map(self.bindings@.take(i as int)),
        {
            let ghost before = bindings@;
            bindings.push(
                Binding {
                    name: self.bindings[i].name.clone(),
                    schema: self.bindings[i].schema.clone(),
                },
            );
            assert(bindings@.drop_last() =~= before);
            assert(self.bindings@.take(i as int + 1).drop_last() =~= self.bindings@.take(i as int));
        }
        assert(self.bindings@.take(self.bindings@.len() as int) =~= self.bindings@);
        let ghost before = bindings@;
        bindings.push(Binding { name: name.into_string(), schema });
        assert(bindings@.drop_last() =~= before);
        BindingScope { bindings }
    }

    /// What `name` stands for.
    pub fn lookup(&self, name: &BindingName) -> (r: Option<&Schema>)
        ensures
            match r {
                Some(s) => self@.dom().contains(name@) && self@[name@] == s@,
                None => !self@.dom().contains(name@),
            },
    {
        let mut i: usize = self.bindings.len();
        while i > 0
            invariant
                i <= self.bindings@.len(),
                forall|j: int|
                    i <= j < self.bindings@.len() ==> (#[trigger] self.bindings@[j]).name@ != name@,
            decreases i,
        {
            i = i - 1;
            if text::same(self.bindings[i].name.as_str(), name.as_str()) {
                proof {
                    lemma_bindings_tail(self.bindings@, i as int + 1, name@);
                    assert(self.bindings@.take(i as int + 1).last() == self.bindings@[i as int]);
                }
                return Some(&self.bindings[i].schema);
            }
        }
        proof {
            lemma_bindings_tail(self.bindings@, 0, name@);
            assert(self.bindings@.take(0).len() == 0);
        }
        None
    }
}

// ── Output schemas ────────────────────────────────────────────────────────────

/// The first id that is not below `n`.
pub open spec fn first_out_of_range(by: Seq<ColumnId>, n: nat) -> Option<ColumnId>
    decreases by.len(),
{
    if by.len() == 0 {
        None
    } else if by[0] >= n {
        Some(by[0])
    } else {
        first_out_of_range(by.drop_first(), n)
    }
}

/// The output schema of a tree, its free names standing for the schemas of
/// `scope`.
pub open spec fn schema_of(e: IntentView, scope: Map<Seq<char>, SchemaView>) -> Result<
    SchemaView,
    SchemaFault,
>
    decreases e,
{
    match e {
        IntentView::Scan { schema, .. } => Ok(schema),
        IntentView::Window { child, .. } => match schema_of(*child, scope) {
            Err(f) => Err(f),
            Ok(s) => if s.time_index is None {
                Err(SchemaFault::WindowMissingTimeIndex)
            } else {
                Ok(s)
            },
        },
        IntentView::Aggregate { by, aggs, child, .. } => match schema_of(*child, scope) {
            Err(f) => Err(f),
            Ok(s) => match first_out_of_range(by, s.columns.len()) {
                Some(id) => Err(SchemaFault::InvalidGroupByColumn(id, s.columns.len() as usize)),
                None => Ok(schema::aggregate_schema(s, by, aggs)),
            },
        },
        IntentView::LetBinding { name, expr, child } => match schema_of(*expr, scope) {
            Err(f) => Err(f),
            Ok(s) => schema_of(*child, scope.insert(name, s)),
        },
        IntentView::Ref { name } => if scope.dom().contains(name) {
            Ok(scope[name])
        } else {
            Err(SchemaFault::UnresolvedRef(name))
        },
    }
}

/// Whether a result is what [`schema_of`] says.
pub open spec fn derives_to(
    r: Result<Schema, QueryExprError>,
    want: Result<SchemaView, SchemaFault>,
) -> bool {
    match r {
        Ok(s) => want == Ok::<SchemaView, SchemaFault>(s@),
        Err(e) => want == Err::<SchemaView, SchemaFault>(e@),
    }
}

proof fn lemma_first_out_of_range(by: Seq<ColumnId>, n: nat, i: int)
    requires
        0 <= i < by.len(),
        by[i] >= n,
        forall|j: int| 0 <= j < i ==> #[trigger] by[j] < n,
    ensures
        first_out_of_range(by, n) == Some(by[i]),
    decreases i,
{
    if i > 0 {
        assert(by[0] < n);
        assert forall|j: int| 0 <= j < i - 1 implies #[trigger] by.drop_first()[j] < n by {
            assert(by[j + 1] < n);
        }
        lemma_first_out_of_range(by.drop_first(), n, i - 1);
    }
}

/// No id is out of range exactly when all lie below `n`.
pub proof fn lemma_all_in_range(by: Seq<ColumnId>, n: nat)
    ensures
        first_out_of_range(by, n) is None <==> (forall|j: int|
            0 <= j < by.len() ==> #[trigger] by[j] < n),
    decreases by.len(),
{
    if by.len() > 0 {
        lemma_all_in_range(by.drop_first(), n);
        if first_out_of_range(by, n) is None {
            assert forall|j: int| 0 <= j < by.len() implies #[trigger] by[j] < n by {
                if j > 0 {
                    assert(by.drop_first()[j - 1] < n);
                }
            }
        } else if by[0] < n {
            let k = choose|j: int| 0 <= j < by.drop_first().len() && !(#[trigger] by.drop_first()[j]
                < n);
            assert(!(by[k + 1] < n));
        }
    }
}

/// The schema of an aggregate over `input`, if the grouping columns are there.
fn grouped_schema(input: &Schema, by: &Vec<ColumnId>, aggs: &Vec<AggIntent>) -> (r: Result<
    Schema,
    QueryExprError,
>)
    ensures
        derives_to(
            r,
            match first_out_of_range(by@, input@.columns.len()) {
                Some(id) => Err(
                    SchemaFault::InvalidGroupByColumn(id, input@.columns.len() as usize),
                ),
                None => Ok(schema::aggregate_schema(input@, by@, aggs@)),
            },
        ),
{
    let n: usize = input.columns.len();
    for i in 0..by.len()
        invariant
            n == input@.columns.len(),
            forall|j: int| 0 <= j < i ==> #[trigger] by@[j] < n,
    {
        if by[i] >= n {
            proof {
                lemma_first_out_of_range(by@, n as nat, i as int);
            }
            return Err(QueryExprError::InvalidGroupByColumn(by[i], n));
        }
    }
    proof {
        lemma_all_in_range(by@, n as nat);
        schema::lemma_in_range(by@, n as nat);
    }
    Ok(output_schema_for_aggregate(input, by.as_slice(), aggs.as_slice()))
}

impl QueryExpr {
    /// The output schema of the tree with no names in scope.
    pub fn output_schema(&self) -> (r: Result<Schema, QueryExprError>)
        ensures
            derives_to(r, schema_of(self@, Map::empty())),
    {
        self.output_schema_in(&BindingScope::default())
    }

    /// The output schema of the tree with the given names in scope.
    pub fn output_schema_in(&self, scope: &BindingScope) -> (r: Result<Schema, QueryExprError>)
        ensures
            derives_to(r, schema_of(self@, scope@)),
        decreases self,
    {
        match self {
            QueryExpr::Scan { schema, .. } => Ok(schema.clone()),
            QueryExpr::Window { child, .. } => match child.output_schema_in(scope) {
                Err(e) => Err(e),
                Ok(s) => if s.time_index.is_none() {
                    Err(QueryExprError::WindowMissingTimeIndex)
                } else {
                    Ok(s)
                },
            },
            QueryExpr::Aggregate { by, aggs, child, .. } => match child.output_schema_in(scope) {
                Err(e) => Err(e),
                Ok(s) => grouped_schema(&s, by, aggs),
            },
            QueryExpr::LetBinding { name, expr, child } => match expr.output_schema_in(scope) {
                Err(e) => Err(e),
                Ok(s) => {
                    let extended = scope.with(name.clone(), s);
                    child.output_schema_in(&extended)
                },
            },
            QueryExpr::Ref { name } => match scope.lookup(name) {
                Some(s) => Ok(s.clone()),
                None => Err(QueryExprError::UnresolvedRef(name.as_str().to_owned())),
            },
        }
    }
}

// ── Laws ──────────────────────────────────────────────────────────────────────

/// A tree with every free `Ref` to `name` replaced by `e`.
pub open spec fn substituted(tree: IntentView, name: Seq<char>, e: IntentView) -> IntentView
    decreases tree,
{
    match tree {
        IntentView::Scan { .. } => tree,
        IntentView::Window { kind, size, slide, child } => IntentView::Window {
            kind,
            size,
            slide,
            child: Box::new(substituted(*child, name, e)),
        },
        IntentView::Aggregate { by, aggs, having, child } => IntentView::Aggregate {
            by,
            aggs,
            having,
            child: Box::new(substituted(*child, name, e)),
        },
        IntentView::LetBinding { name: inner, expr, child } => IntentView::LetBinding {
            name: inner,
            expr: Box::new(substituted(*expr, name, e)),
            child: if inner == name {
                child
            } else {
                Box::new(substituted(*child, name, e))
            },
        },
        IntentView::Ref { name: inner } => if inner == name {
            e
        } else {
            tree
        },
    }
}

/// Whether a tree holds no `Ref` that is free in it.
pub open spec fn closed_under(tree: IntentView, bound: Set<Seq<char>>) -> bool
    decreases tree,
{
    match tree {
        IntentView::Scan { .. } => true,
        IntentView::Window { child, .. } => closed_under(*child, bound),
        IntentView::Aggregate { child, .. } => closed_under(*child, bound),
        IntentView::LetBinding { name, expr, child } => closed_under(*expr, bound) && closed_under(
            *child,
            bound.insert(name),
        ),
        IntentView::Ref { name } => bound.contains(name),
    }
}

/// Scopes that agree on the names that can occur free in a tree give it the
/// same schema.
pub proof fn law_scope_irrelevant(
    tree: IntentView,
    bound: Set<Seq<char>>,
    a: Map<Seq<char>, SchemaView>,
    b: Map<Seq<char>, SchemaView>,
)
    requires
        closed_under(tree, bound),
        forall|n: Seq<char>| #[trigger]
            bound.contains(n) ==> a.dom().contains(n) == b.dom().contains(n) && a[n] == b[n],
    ensures
        schema_of(tree, a) == schema_of(tree, b),
    decreases tree,
{
    match tree {
        IntentView::Scan { .. } => {},
        IntentView::Window { child, .. } => {
            law_scope_irrelevant(*child, bound, a, b);
        },
        IntentView::Aggregate { child, .. } => {
            law_scope_irrelevant(*child, bound, a, b);
        },
        IntentView::LetBinding { name, expr, child } => {
            law_scope_irrelevant(*expr, bound, a, b);
            match schema_of(*expr, a) {
                Ok(s) => {
                    law_scope_irrelevant(
                        *child,
                        bound.insert(name),
                        a.insert(name, s),
                        b.insert(name, s),
                    );
                },
                Err(_) => {},
            }
        },
        IntentView::Ref { .. } => {},
    }
}

/// Naming a closed expression and referring to it gives the same schema as
/// writing it out at each reference.
pub proof fn law_binding_is_substitution(
    name: Seq<char>,
    e: IntentView,
    body: IntentView,
    scope: Map<Seq<char>, SchemaView>,
)
    requires
        closed_under(e, Set::empty()),
        schema_of(e, Map::empty()) is Ok,
    ensures
        schema_of(
            IntentView::LetBinding { name, expr: Box::new(e), child: Box::new(body) },
            scope,
        ) == schema_of(substituted(body, name, e), scope),
{
    law_scope_irrelevant(e, Set::empty(), Map::empty(), scope);
    lemma_substitution(name, e, body, scope, schema_of(e, Map::empty())->Ok_0);
}

proof fn lemma_substitution(
    name: Seq<char>,
    e: IntentView,
    body: IntentView,
    scope: Map<Seq<char>, SchemaView>,
    s: SchemaView,
)
    requires
        closed_under(e, Set::empty()),
        schema_of(e, Map::empty()) == Ok::<SchemaView, SchemaFault>(s),
    ensures
        schema_of(body, scope.insert(name, s)) == schema_of(substituted(body, name, e), scope),
    decreases body,
{
    match body {
        IntentView::Scan { .. } => {},
        IntentView::Window { child, .. } => {
            lemma_substitution(name, e, *child, scope, s);
        },
        IntentView::Aggregate { child, .. } => {
            lemma_substitution(name, e, *child, scope, s);
        },
        IntentView::LetBinding { name: inner, expr, child } => {
            lemma_substitution(name, e, *expr, scope, s);
            match schema_of(*expr, scope.insert(name, s)) {
                Ok(t) => {
                    if inner == name {
                        assert(scope.insert(name, s).insert(inner, t) =~= scope.insert(inner, t));
                    } else {
                        assert(scope.insert(name, s).insert(inner, t) =~= scope.insert(
                            inner,
                            t,
                        ).insert(name, s));
                        lemma_substitution(name, e, *child, scope.insert(inner, t), s);
                    }
                },
                Err(_) => {},
            }
        },
        IntentView::Ref { name: inner } => {
            if inner == name {
                law_scope_irrelevant(e, Set::empty(), Map::empty(), scope);
            }
        },
    }
}

} // verus!
