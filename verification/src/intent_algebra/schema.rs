//! Output schemas: ordered columns, the time axis and the known unique keys.
use vstd::prelude::*;
use vstd::string::*;

use crate::decimal;
use crate::decimal::Decimal;
use crate::intent_algebra::agg_intent::AggIntent;
use crate::text;

verus! {

/// The position of a column in a schema.
pub type ColumnId = usize;

/// The type of the values in a column.
#[derive(Clone, Copy, Debug, PartialEq, Eq, Structural)]
pub enum DataType {
    Bool,
    Int64,
    Float64,
    Utf8,
    Timestamp,
}

/// A column.
#[derive(Debug, PartialEq, Eq)]
pub struct Column {
    pub name: String,
    pub dtype: DataType,
    pub nullable: bool,
}

/// What [`Column`] holds.
#[verifier::ext_equal]
pub struct ColumnInfo {
    pub name: Seq<char>,
    pub dtype: DataType,
    pub nullable: bool,
}

impl View for Column {
    type V = ColumnInfo;

    open spec fn view(&self) -> ColumnInfo {
        ColumnInfo { name: self.name@, dtype: self.dtype, nullable: self.nullable }
    }
}

impl Clone for Column {
    fn clone(&self) -> (r: Column)
        ensures
            r@ == self@,
    {
        Column { name: self.name.clone(), dtype: self.dtype, nullable: self.nullable }
    }
}

/// The columns that a query node puts out.
#[derive(Debug, PartialEq, Eq)]
pub struct Schema {
    /// The columns, in order.
    pub columns: Vec<Column>,
    /// The column that holds the time, if there is one.
    pub time_index: Option<ColumnId>,
    /// Sets of columns whose values identify a row.
    pub unique_keys: Vec<Vec<ColumnId>>,
}

/// What [`Schema`] holds.
#[verifier::ext_equal]
pub struct SchemaView {
    pub columns: Seq<ColumnInfo>,
    pub time_index: Option<ColumnId>,
    pub unique_keys: Seq<Seq<ColumnId>>,
}

/// The views of a list of columns.
pub open spec fn columns_info(s: Seq<Column>) -> Seq<ColumnInfo> {
    Seq::new(s.len(), |i: int| s[i]@)
}

/// The contents of a list of keys.
pub open spec fn keys_info(s: Seq<Vec<ColumnId>>) -> Seq<Seq<ColumnId>> {
    Seq::new(s.len(), |i: int| s[i]@)
}

impl View for Schema {
    type V = SchemaView;

    open spec fn view(&self) -> SchemaView {
        SchemaView {
            columns: columns_info(self.columns@),
            time_index: self.time_index,
            unique_keys: keys_info(self.unique_keys@),
        }
    }
}

/// A copy of a list of columns.
fn clone_column_list(v: &Vec<Column>) -> (r: Vec<Column>)
    ensures
        columns_info(r@) == columns_info(v@),
{
    let mut out: Vec<Column> = Vec::new();
    for i in 0..v.len()
        invariant
            out@.len() == i,
            forall|j: int| 0 <= j < i ==> (#[trigger] out@[j])@ == v@[j]@,
    {
        out.push(v[i].clone());
    }
    assert(columns_info(out@) =~= columns_info(v@));
    out
}

/// A copy of a list of column positions.
pub fn clone_ids(v: &Vec<ColumnId>) -> (r: Vec<ColumnId>)
    ensures
        r@ == v@,
{
    let mut out: Vec<ColumnId> = Vec::new();
    for i in 0..v.len()
        invariant
            out@ == v@.take(i as int),
    {
        out.push(v[i]);
        assert(out@ =~= v@.take(i as int + 1));
    }
    assert(out@ =~= v@);
    out
}

impl Clone for Schema {
    fn clone(&self) -> (r: Schema)
        ensures
            r@ == self@,
    {
        let mut unique_keys: Vec<Vec<ColumnId>> = Vec::new();
        for i in 0..self.unique_keys.len()
            invariant
                unique_keys@.len() == i,
                forall|j: int| 0 <= j < i ==> (#[trigger] unique_keys@[j])@ == self.unique_keys@[j]@,
        {
            unique_keys.push(clone_ids(&self.unique_keys[i]));
        }
        assert(keys_info(unique_keys@) =~= keys_info(self.unique_keys@));
        Schema { columns: clone_column_list(&self.columns), time_index: self.time_index, unique_keys }
    }
}

impl SchemaView {
    /// Whether `id` is the first column called `name`.
    pub open spec fn is_column(self, name: Seq<char>, id: int) -> bool {
        &&& 0 <= id < self.columns.len()
        &&& self.columns[id].name == name
        &&& forall|j: int| 0 <= j < id ==> (#[trigger] self.columns[j]).name != name
    }

    /// Whether some column is called `name`.
    pub open spec fn has_column(self, name: Seq<char>) -> bool {
        exists|id: int| 0 <= id < self.columns.len() && (#[trigger] self.columns[id]).name == name
    }

    /// The position of the first column called `name`.
    pub open spec fn position(self, name: Seq<char>) -> Option<ColumnId> {
        if self.has_column(name) {
            Some((choose|id: int| self.is_column(name, id)) as ColumnId)
        } else {
            None
        }
    }

    /// The names of the columns.
    pub open spec fn names(self) -> Seq<Seq<char>> {
        Seq::new(self.columns.len(), |i: int| self.columns[i].name)
    }
}

impl Schema {
    /// A schema without time axis and without known keys.
    pub fn new(columns: Vec<Column>) -> (r: Schema)
        ensures
            r@ == (SchemaView {
                columns: columns_info(columns@),
                time_index: None,
                unique_keys: Seq::empty(),
            }),
    {
        let r = Schema { columns, time_index: None, unique_keys: Vec::new() };
        assert(r@.unique_keys =~= Seq::<Seq<ColumnId>>::empty());
        r
    }

    /// A schema with a time axis.
    pub fn with_time_index(
        columns: Vec<Column>,
        time_index: ColumnId,
        unique_keys: Vec<Vec<ColumnId>>,
    ) -> (r: Schema)
        ensures
            r@ == (SchemaView {
                columns: columns_info(columns@),
                time_index: Some(time_index),
                unique_keys: keys_info(unique_keys@),
            }),
    {
        Schema { columns, time_index: Some(time_index), unique_keys }
    }

    /// The position of the first column called `name`.
    pub fn column_id(&self, name: &str) -> (r: Option<ColumnId>)
        ensures
            r == self@.position(name@),
            match r {
                Some(id) => self@.is_column(name@, id as int),
                None => !self@.has_column(name@),
            },
    {
        for i in 0..self.columns.len()
            invariant
                forall|j: int| 0 <= j < i ==> (#[trigger] self@.columns[j]).name != name@,
        {
            if text::same(self.columns[i].name.as_str(), name) {
                proof {
                    assert(self@.columns[i as int].name == name@);
                    assert(self@.is_column(name@, i as int));
                    lemma_first_column(self@, name@, i as int);
                }
                return Some(i);
            }
        }
        None
    }

    /// Whether some set of columns is known to identify a row.
    pub fn has_unique_key(&self) -> (r: bool)
        ensures
            r == (self@.unique_keys.len() > 0),
    {
        self.unique_keys.len() > 0
    }

    /// The names of the columns.
    pub fn column_names(&self) -> (r: Vec<String>)
        ensures
            text::texts(r@) == self@.names(),
    {
        let mut out: Vec<String> = Vec::new();
        for i in 0..self.columns.len()
            invariant
                out@.len() == i,
                forall|j: int| 0 <= j < i ==> (#[trigger] out@[j])@ == self@.columns[j].name,
        {
            out.push(self.columns[i].name.clone());
        }
        assert(text::texts(out@) =~= self@.names());
        out
    }
}

/// There is only one first column of a name.
pub proof fn lemma_first_column(s: SchemaView, name: Seq<char>, id: int)
    requires
        s.is_column(name, id),
        s.columns.len() <= usize::MAX,
    ensures
        s.position(name) == Some(id as ColumnId),
{
    assert(s.has_column(name)) by {
        assert(s.columns[id].name == name);
    }
    let other = choose|k: int| s.is_column(name, k);
    assert(s.is_column(name, other));
    if other < id {
        assert(s.columns[other].name != name);
    }
    if id < other {
        assert(s.columns[id].name != name);
    }
}

/// The position of a column lies in the schema and holds the name.
pub proof fn lemma_position(s: SchemaView, name: Seq<char>)
    requires
        s.columns.len() <= usize::MAX,
    ensures
        match s.position(name) {
            Some(id) => s.is_column(name, id as int),
            None => !s.has_column(name),
        },
{
    if s.has_column(name) {
        let id = choose|id: int| 0 <= id < s.columns.len() && (#[trigger] s.columns[id]).name == name;
        lemma_least_column(s, name, id);
    }
}

proof fn lemma_least_column(s: SchemaView, name: Seq<char>, id: int)
    requires
        0 <= id < s.columns.len(),
        s.columns[id].name == name,
        s.columns.len() <= usize::MAX,
    ensures
        s.position(name) is Some,
        s.is_column(name, s.position(name)->0 as int),
    decreases id,
{
    if forall|j: int| 0 <= j < id ==> (#[trigger] s.columns[j]).name != name {
        assert(s.is_column(name, id));
        lemma_first_column(s, name, id);
    } else {
        let j = choose|j: int| 0 <= j < id && !((#[trigger] s.columns[j]).name != name);
        lemma_least_column(s, name, j);
    }
}

// ── Aggregate columns ─────────────────────────────────────────────────────────

/// `s` with every `from` replaced by `to`.
pub open spec fn replaced(s: Seq<char>, from: char, to: char) -> Seq<char> {
    Seq::new(
        s.len(),
        |i: int|
            if s[i] == from {
                to
            } else {
                s[i]
            },
    )
}

/// `s` with every `from` replaced by `to`.
fn replace_char(s: &str, from: char, to: char) -> (r: String)
    ensures
        r@ == replaced(s@, from, to),
{
    let mut chars = text::chars_of(s);
    let n: usize = chars.len();
    for i in 0..n
        invariant
            n == s@.len(),
            chars@.len() == s@.len(),
            forall|j: int| 0 <= j < i ==> #[trigger] chars@[j] == replaced(s@, from, to)[j],
            forall|j: int| i <= j < s@.len() ==> #[trigger] chars@[j] == s@[j],
    {
        if chars[i] == from {
            chars.set(i, to);
        }
    }
    assert(chars@ =~= replaced(s@, from, to));
    text::text_of(&chars)
}

/// The word for an intent.
pub open spec fn intent_word(op: AggIntent) -> Seq<char> {
    match op {
        AggIntent::Count { .. } => "count"@,
        AggIntent::Sum => "sum"@,
        AggIntent::Min => "min"@,
        AggIntent::Max => "max"@,
        AggIntent::Avg => "avg"@,
        AggIntent::Quantile { .. } => "quantile"@,
        AggIntent::TopK { .. } => "topk"@,
        AggIntent::Cardinality { .. } => "cardinality"@,
        AggIntent::Frequency { .. } => "frequency"@,
        AggIntent::Rate { .. } => "rate"@,
        AggIntent::Increase { .. } => "increase"@,
        AggIntent::HistogramQuantile { .. } => "histogram_quantile"@,
        AggIntent::Absent => "absent"@,
        AggIntent::Present => "present"@,
        AggIntent::Delta { .. } => "delta"@,
        AggIntent::Deriv { .. } => "deriv"@,
        AggIntent::PredictLinear { .. } => "predict_linear"@,
        AggIntent::HoltWinters { .. } => "holt_winters"@,
        AggIntent::Idelta { .. } => "idelta"@,
        AggIntent::Irate { .. } => "irate"@,
        AggIntent::Resets { .. } => "resets"@,
        AggIntent::Changes { .. } => "changes"@,
    }
}

/// The word for an intent.
pub fn canonical_intent_kind_str(intent: &AggIntent) -> (r: &'static str)
    ensures
        r@ == intent_word(*intent),
{
    match intent {
        AggIntent::Count { .. } => "count",
        AggIntent::Sum => "sum",
        AggIntent::Min => "min",
        AggIntent::Max => "max",
        AggIntent::Avg => "avg",
        AggIntent::Quantile { .. } => "quantile",
        AggIntent::TopK { .. } => "topk",
        AggIntent::Cardinality { .. } => "cardinality",
        AggIntent::Frequency { .. } => "frequency",
        AggIntent::Rate { .. } => "rate",
        AggIntent::Increase { .. } => "increase",
        AggIntent::HistogramQuantile { .. } => "histogram_quantile",
        AggIntent::Absent => "absent",
        AggIntent::Present => "present",
        AggIntent::Delta { .. } => "delta",
        AggIntent::Deriv { .. } => "deriv",
        AggIntent::PredictLinear { .. } => "predict_linear",
        AggIntent::HoltWinters { .. } => "holt_winters",
        AggIntent::Idelta { .. } => "idelta",
        AggIntent::Irate { .. } => "irate",
        AggIntent::Resets { .. } => "resets",
        AggIntent::Changes { .. } => "changes",
    }
}

/// The name of the column that an aggregate puts out: the word for the intent;
/// quantiles add their rank with the point written `_`.
pub open spec fn output_name(op: AggIntent) -> Seq<char> {
    match op {
        AggIntent::Quantile { q, .. } | AggIntent::HistogramQuantile { q } => intent_word(op) + "_"@
            + replaced(decimal::decimal_text(q), '.', '_'),
        _ => intent_word(op),
    }
}

/// The type of the column that an aggregate puts out: sums and extrema keep the
/// type of their input, counts are integers, everything else is a float.
pub open spec fn output_type(op: AggIntent, input: DataType) -> DataType {
    match op {
        AggIntent::Sum | AggIntent::Min | AggIntent::Max => input,
        AggIntent::Count { .. }
        | AggIntent::Cardinality { .. }
        | AggIntent::Frequency { .. }
        | AggIntent::TopK { .. }
        | AggIntent::Resets { .. }
        | AggIntent::Changes { .. } => DataType::Int64,
        _ => DataType::Float64,
    }
}

/// The column that an aggregate puts out.
pub open spec fn output_info(op: AggIntent, input: ColumnInfo) -> ColumnInfo {
    ColumnInfo {
        name: output_name(op),
        dtype: output_type(op, input.dtype),
        nullable: input.nullable,
    }
}

impl AggIntent {
    /// The column that the aggregate puts out when it reads `input`.
    pub fn output_column(&self, input: &Column) -> (r: Column)
        ensures
            r@ == output_info(*self, input@),
    {
        let mut name = canonical_intent_kind_str(self).to_owned();
        match self {
            AggIntent::Quantile { q, .. } | AggIntent::HistogramQuantile { q } => {
                let rank: Decimal = *q;
                name.append("_");
                name.append(replace_char(rank.text().as_str(), '.', '_').as_str());
            },
            _ => {},
        }
        let dtype = match self {
            AggIntent::Sum | AggIntent::Min | AggIntent::Max => input.dtype,
            AggIntent::Count { .. }
            | AggIntent::Cardinality { .. }
            | AggIntent::Frequency { .. }
            | AggIntent::TopK { .. }
            | AggIntent::Resets { .. }
            | AggIntent::Changes { .. } => DataType::Int64,
            _ => DataType::Float64,
        };
        Column { name, dtype, nullable: input.nullable }
    }
}

// ── Aggregate schemas ─────────────────────────────────────────────────────────

/// The column that aggregates read: the one called `value`, else the first that
/// is not grouped by, else a float column `value`.
pub open spec fn probe_column(s: SchemaView, by: Seq<ColumnId>) -> ColumnInfo {
    match s.position("value"@) {
        Some(id) => s.columns[id as int],
        None => match first_ungrouped(s.columns.len(), by) {
            Some(id) => s.columns[id],
            None => ColumnInfo { name: "value"@, dtype: DataType::Float64, nullable: false },
        },
    }
}

/// Whether `id` is the first of `n` columns that is not grouped by.
pub open spec fn is_first_ungrouped(n: nat, by: Seq<ColumnId>, id: int) -> bool {
    &&& 0 <= id < n
    &&& !by.contains(id as ColumnId)
    &&& forall|j: int| 0 <= j < id ==> #[trigger] by.contains(j as ColumnId)
}

/// The first of `n` columns that is not grouped by.
pub open spec fn first_ungrouped(n: nat, by: Seq<ColumnId>) -> Option<int> {
    if exists|id: int| is_first_ungrouped(n, by, id) {
        Some(choose|id: int| is_first_ungrouped(n, by, id))
    } else {
        None
    }
}

/// The schema of an aggregate: the columns grouped by, one column for each
/// aggregate, no time axis, and the grouped columns as key.
pub open spec fn aggregate_schema(
    s: SchemaView,
    by: Seq<ColumnId>,
    aggs: Seq<AggIntent>,
) -> SchemaView {
    SchemaView {
        columns: Seq::new(by.len(), |i: int| s.columns[by[i] as int]) + Seq::new(
            aggs.len(),
            |i: int| output_info(aggs[i], probe_column(s, by)),
        ),
        time_index: None,
        unique_keys: if by.len() == 0 {
            Seq::empty()
        } else {
            seq![Seq::new(by.len(), |i: int| i as ColumnId)]
        },
    }
}

/// The ids that lie below `n`, in order.
pub open spec fn in_range(by: Seq<ColumnId>, n: nat) -> Seq<ColumnId>
    decreases by.len(),
{
    if by.len() == 0 {
        Seq::empty()
    } else if by.last() < n {
        in_range(by.drop_last(), n).push(by.last())
    } else {
        in_range(by.drop_last(), n)
    }
}

/// The ids that lie below `n` all do.
pub proof fn lemma_in_range(by: Seq<ColumnId>, n: nat)
    ensures
        forall|i: int| 0 <= i < in_range(by, n).len() ==> #[trigger] in_range(by, n)[i] < n,
        in_range(by, n).len() <= by.len(),
        (forall|i: int| 0 <= i < by.len() ==> #[trigger] by[i] < n) ==> in_range(by, n) == by,
    decreases by.len(),
{
    if by.len() > 0 {
        lemma_in_range(by.drop_last(), n);
        if forall|i: int| 0 <= i < by.len() ==> #[trigger] by[i] < n {
            assert forall|i: int| 0 <= i < by.drop_last().len() implies #[trigger] by.drop_last()[i]
                < n by {
                assert(by[i] < n);
            }
            assert(by.drop_last().push(by.last()) =~= by);
        }
    } else {
        assert(in_range(by, n) =~= by);
    }
}

fn contains_id(by: &Vec<ColumnId>, id: ColumnId) -> (r: bool)
    ensures
        r == by@.contains(id),
{
    for i in 0..by.len()
        invariant
            forall|j: int| 0 <= j < i ==> by@[j] != id,
    {
        if by[i] == id {
            assert(by@[i as int] == id);
            return true;
        }
    }
    false
}

/// The column that aggregates read.
fn probe(input: &Schema, by: &Vec<ColumnId>) -> (r: Column)
    ensures
        r@ == probe_column(input@, by@),
{
    match input.column_id("value") {
        Some(id) => input.columns[id].clone(),
        None => {
            for i in 0..input.columns.len()
                invariant
                    input@.position("value"@) is None,
                    forall|j: int| 0 <= j < i ==> #[trigger] by@.contains(j as ColumnId),
            {
                if !contains_id(by, i) {
                    proof {
                        assert(is_first_ungrouped(input@.columns.len(), by@, i as int));
                        let other = first_ungrouped(input@.columns.len(), by@)->0;
                        assert(is_first_ungrouped(input@.columns.len(), by@, other));
                        if other < i {
                            assert(by@.contains(other as ColumnId));
                        }
                        if i < other {
                            assert(by@.contains(i as ColumnId));
                        }
                    }
                    return input.columns[i].clone();
                }
            }
            assert forall|id: int| !is_first_ungrouped(input@.columns.len(), by@, id) by {
                if 0 <= id < input@.columns.len() {
                    assert(by@.contains(id as ColumnId));
                }
            }
            Column { name: "value".to_owned(), dtype: DataType::Float64, nullable: false }
        },
    }
}

/// The schema of an aggregate over `input`; ids out of range are dropped.
pub fn output_schema_for_aggregate(
    input: &Schema,
    by: &[ColumnId],
    aggs: &[AggIntent],
) -> (r: Schema)
    ensures
        r@ == aggregate_schema(input@, in_range(by@, input@.columns.len()), aggs@),
{
    let n: usize = input.columns.len();
    let ghost kept = in_range(by@, n as nat);
    let mut ids: Vec<ColumnId> = Vec::new();
    for i in 0..by.len()
        invariant
            ids@ == in_range(by@.take(i as int), n as nat),
    {
        assert(by@.take(i as int + 1).drop_last() =~= by@.take(i as int));
        if by[i] < n {
            ids.push(by[i]);
        }
    }
    assert(by@.take(by@.len() as int) =~= by@);
    proof {
        lemma_in_range(by@, n as nat);
    }
    let source = probe(input, &ids);
    let mut columns: Vec<Column> = Vec::new();
    for i in 0..ids.len()
        invariant
            n == input.columns@.len(),
            forall|j: int| 0 <= j < ids@.len() ==> #[trigger] ids@[j] < n,
            columns@.len() == i,
            forall|j: int|
                0 <= j < i ==> (#[trigger] columns@[j])@ == input@.columns[ids@[j] as int],
    {
        columns.push(input.columns[ids[i]].clone());
    }
    let ghost grouped = columns@;
    for i in 0..aggs.len()
        invariant
            columns@.len() == grouped.len() + i,
            source@ == probe_column(input@, ids@),
            forall|j: int| 0 <= j < grouped.len() ==> #[trigger] columns@[j] == grouped[j],
            forall|j: int|
                grouped.len() <= j < columns@.len() ==> (#[trigger] columns@[j])@ == output_info(
                    aggs@[j - grouped.len()],
                    probe_column(input@, ids@),
                ),
    {
        columns.push(aggs[i].output_column(&source));
    }
    let mut unique_keys: Vec<Vec<ColumnId>> = Vec::new();
    if ids.len() > 0 {
        let mut key: Vec<ColumnId> = Vec::new();
        for i in 0..ids.len()
            invariant
                key@ =~= Seq::new(i as nat, |j: int| j as ColumnId),
        {
            key.push(i);
        }
        unique_keys.push(key);
    }
    let r = Schema { columns, time_index: None, unique_keys };
    proof {
        let want = aggregate_schema(input@, kept, aggs@);
        assert forall|j: int| 0 <= j < want.columns.len() implies #[trigger] r@.columns[j]
            == want.columns[j] by {
            if j < grouped.len() {
                assert(r.columns@[j] == grouped[j]);
                assert(grouped[j]@ == input@.columns[ids@[j] as int]);
            } else {
                assert(r.columns@[j]@ == output_info(
                    aggs@[j - grouped.len()],
                    probe_column(input@, ids@),
                ));
            }
        }
        assert(r@.columns =~= want.columns);
        assert(r@.unique_keys =~= want.unique_keys);
    }
    r
}

/// An aggregate's schema has a known key exactly when it groups by something,
/// and no time axis.
pub proof fn law_aggregate_key(s: SchemaView, by: Seq<ColumnId>, aggs: Seq<AggIntent>)
    ensures
        aggregate_schema(s, by, aggs).unique_keys.len() > 0 <==> by.len() > 0,
        aggregate_schema(s, by, aggs).time_index is None,
        aggregate_schema(s, by, aggs).columns.len() == by.len() + aggs.len(),
{
}

} // verus!
