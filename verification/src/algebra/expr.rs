//! Query expressions: relational operators and sketch aggregations over
//! metric sources, and the scalar expressions inside them.
//!
//! Each type that holds strings or lists has a view that holds their contents;
//! contracts speak of views.
use vstd::prelude::*;

use crate::decimal::Decimal;
use crate::intent_algebra::agg_intent::AggIntent;
use crate::text;
use crate::types::Duration;

verus! {

// ── Scalar expressions ────────────────────────────────────────────────────────

/// Operators of binary expressions, scalar and vector.
#[derive(Clone, Copy, Debug, PartialEq, Eq, Structural)]
pub enum BinaryOpKind {
    Add,
    Sub,
    Mul,
    Div,
    Mod,
    Pow,
    Eq,
    Ne,
    Lt,
    Le,
    Gt,
    Ge,
    And,
    Or,
    Unless,
    Atan2,
    BitAnd,
    BitOr,
    BitXor,
    Concat,
    Like,
    NotLike,
    Regex,
    NotRegex,
}

/// A constant.
#[derive(Debug)]
pub enum LiteralValue {
    Null,
    Bool(bool),
    Int(i64),
    Float(Decimal),
    Str(String),
}

/// What [`LiteralValue`] holds.
#[verifier::ext_equal]
pub enum LiteralView {
    Null,
    Bool(bool),
    Int(i64),
    Float(Decimal),
    Str(Seq<char>),
}

impl View for LiteralValue {
    type V = LiteralView;

    open spec fn view(&self) -> LiteralView {
        match self {
            LiteralValue::Null => LiteralView::Null,
            LiteralValue::Bool(b) => LiteralView::Bool(*b),
            LiteralValue::Int(i) => LiteralView::Int(*i),
            LiteralValue::Float(d) => LiteralView::Float(*d),
            LiteralValue::Str(s) => LiteralView::Str(s@),
        }
    }
}

impl Clone for LiteralValue {
    fn clone(&self) -> (r: LiteralValue)
        ensures
            r@ == self@,
    {
        match self {
            LiteralValue::Null => LiteralValue::Null,
            LiteralValue::Bool(b) => LiteralValue::Bool(*b),
            LiteralValue::Int(i) => LiteralValue::Int(*i),
            LiteralValue::Float(d) => LiteralValue::Float(*d),
            LiteralValue::Str(s) => LiteralValue::Str(s.clone()),
        }
    }
}

/// A scalar expression: predicates and projected columns.
#[derive(Debug)]
#[allow(inconsistent_fields)]
pub enum ScalarExpr {
    Column(String),
    Literal(LiteralValue),
    BinaryOp { op: BinaryOpKind, lhs: Box<ScalarExpr>, rhs: Box<ScalarExpr> },
    IsNull { expr: Box<ScalarExpr>, negated: bool },
    Between { expr: Box<ScalarExpr>, low: Box<ScalarExpr>, high: Box<ScalarExpr>, negated: bool },
    InList { expr: Box<ScalarExpr>, list: Vec<ScalarExpr>, negated: bool },
    FunctionCall { name: String, args: Vec<ScalarExpr> },
    ScalarSubquery(Box<QueryExpr>),
}

/// What [`ScalarExpr`] holds.
#[verifier::ext_equal]
#[allow(inconsistent_fields)]
pub enum ScalarView {
    Column(Seq<char>),
    Literal(LiteralView),
    BinaryOp { op: BinaryOpKind, lhs: Box<ScalarView>, rhs: Box<ScalarView> },
    IsNull { expr: Box<ScalarView>, negated: bool },
    Between { expr: Box<ScalarView>, low: Box<ScalarView>, high: Box<ScalarView>, negated: bool },
    InList { expr: Box<ScalarView>, list: Seq<ScalarView>, negated: bool },
    FunctionCall { name: Seq<char>, args: Seq<ScalarView> },
    ScalarSubquery(Box<QueryView>),
}

// ── Parts of query expressions ────────────────────────────────────────────────

/// A metric or table.
#[derive(Debug)]
pub struct SourceSpec {
    pub name: String,
}

/// The column that an aggregation reads.
#[derive(Debug)]
pub enum ColumnRef {
    Named(String),
    SampleValue,
    Wildcard,
}

/// What [`ColumnRef`] holds.
#[verifier::ext_equal]
pub enum ColumnView {
    Named(Seq<char>),
    SampleValue,
    Wildcard,
}

impl View for ColumnRef {
    type V = ColumnView;

    open spec fn view(&self) -> ColumnView {
        match self {
            ColumnRef::Named(s) => ColumnView::Named(s@),
            ColumnRef::SampleValue => ColumnView::SampleValue,
            ColumnRef::Wildcard => ColumnView::Wildcard,
        }
    }
}

impl Clone for ColumnRef {
    fn clone(&self) -> (r: ColumnRef)
        ensures
            r@ == self@,
    {
        match self {
            ColumnRef::Named(s) => ColumnRef::Named(s.clone()),
            ColumnRef::SampleValue => ColumnRef::SampleValue,
            ColumnRef::Wildcard => ColumnRef::Wildcard,
        }
    }
}

/// An aggregate function of a query language.
#[derive(Debug)]
pub enum AggFunc {
    Count,
    CountDistinct,
    Sum,
    Avg,
    Min,
    Max,
    StdDev { population: bool },
    Variance { population: bool },
    Quantile(Decimal),
    HeavyHitters { k: u64 },
    Rate,
    Increase,
    Delta,
    Custom(String),
}

/// What [`AggFunc`] holds.
#[verifier::ext_equal]
pub enum AggFuncView {
    Count,
    CountDistinct,
    Sum,
    Avg,
    Min,
    Max,
    StdDev { population: bool },
    Variance { population: bool },
    Quantile(Decimal),
    HeavyHitters { k: u64 },
    Rate,
    Increase,
    Delta,
    Custom(Seq<char>),
}

impl View for AggFunc {
    type V = AggFuncView;

    open spec fn view(&self) -> AggFuncView {
        match self {
            AggFunc::Count => AggFuncView::Count,
            AggFunc::CountDistinct => AggFuncView::CountDistinct,
            AggFunc::Sum => AggFuncView::Sum,
            AggFunc::Avg => AggFuncView::Avg,
            AggFunc::Min => AggFuncView::Min,
            AggFunc::Max => AggFuncView::Max,
            AggFunc::StdDev { population } => AggFuncView::StdDev { population: *population },
            AggFunc::Variance { population } => AggFuncView::Variance { population: *population },
            AggFunc::Quantile(q) => AggFuncView::Quantile(*q),
            AggFunc::HeavyHitters { k } => AggFuncView::HeavyHitters { k: *k },
            AggFunc::Rate => AggFuncView::Rate,
            AggFunc::Increase => AggFuncView::Increase,
            AggFunc::Delta => AggFuncView::Delta,
            AggFunc::Custom(s) => AggFuncView::Custom(s@),
        }
    }
}

impl Clone for AggFunc {
    fn clone(&self) -> (r: AggFunc)
        ensures
            r@ == self@,
    {
        match self {
            AggFunc::Count => AggFunc::Count,
            AggFunc::CountDistinct => AggFunc::CountDistinct,
            AggFunc::Sum => AggFunc::Sum,
            AggFunc::Avg => AggFunc::Avg,
            AggFunc::Min => AggFunc::Min,
            AggFunc::Max => AggFunc::Max,
            AggFunc::StdDev { population } => AggFunc::StdDev { population: *population },
            AggFunc::Variance { population } => AggFunc::Variance { population: *population },
            AggFunc::Quantile(q) => AggFunc::Quantile(*q),
            AggFunc::HeavyHitters { k } => AggFunc::HeavyHitters { k: *k },
            AggFunc::Rate => AggFunc::Rate,
            AggFunc::Increase => AggFunc::Increase,
            AggFunc::Delta => AggFunc::Delta,
            AggFunc::Custom(s) => AggFunc::Custom(s.clone()),
        }
    }
}

/// One aggregate of an `Aggregate` node.
#[derive(Debug)]
pub struct AggItem {
    pub alias: String,
    pub func: AggFunc,
    pub col: ColumnRef,
    pub distinct: bool,
}

/// What [`AggItem`] holds.
#[verifier::ext_equal]
pub struct AggItemView {
    pub alias: Seq<char>,
    pub func: AggFuncView,
    pub col: ColumnView,
    pub distinct: bool,
}

impl View for AggItem {
    type V = AggItemView;

    open spec fn view(&self) -> AggItemView {
        AggItemView {
            alias: self.alias@,
            func: self.func@,
            col: self.col@,
            distinct: self.distinct,
        }
    }
}

impl Clone for AggItem {
    fn clone(&self) -> (r: AggItem)
        ensures
            r@ == self@,
    {
        AggItem {
            alias: self.alias.clone(),
            func: self.func.clone(),
            col: self.col.clone(),
            distinct: self.distinct,
        }
    }
}

/// A projected column.
#[derive(Debug)]
pub struct ProjectItem {
    pub alias: Option<String>,
    pub expr: ScalarExpr,
}

/// What [`ProjectItem`] holds.
#[verifier::ext_equal]
pub struct ProjectView {
    pub alias: Option<Seq<char>>,
    pub expr: ScalarView,
}

/// One key of a sort.
#[derive(Debug)]
pub struct SortKey {
    pub col: String,
    pub desc: bool,
    pub nulls_first: Option<bool>,
}

/// What [`SortKey`] holds.
#[verifier::ext_equal]
pub struct SortKeyView {
    pub col: Seq<char>,
    pub desc: bool,
    pub nulls_first: Option<bool>,
}

impl View for SortKey {
    type V = SortKeyView;

    open spec fn view(&self) -> SortKeyView {
        SortKeyView { col: self.col@, desc: self.desc, nulls_first: self.nulls_first }
    }
}

impl Clone for SortKey {
    fn clone(&self) -> (r: SortKey)
        ensures
            r@ == self@,
    {
        SortKey { col: self.col.clone(), desc: self.desc, nulls_first: self.nulls_first }
    }
}

/// Grouping labels: those to keep, or those to drop.
#[derive(Debug)]
pub enum PartitionKeys {
    By(Vec<String>),
    Without(Vec<String>),
}

/// What [`PartitionKeys`] holds.
#[verifier::ext_equal]
pub enum PartitionView {
    By(Seq<Seq<char>>),
    Without(Seq<Seq<char>>),
}

impl PartitionView {
    /// The labels named, whether kept or dropped.
    pub open spec fn labels(self) -> Seq<Seq<char>> {
        match self {
            PartitionView::By(k) => k,
            PartitionView::Without(k) => k,
        }
    }
}

impl View for PartitionKeys {
    type V = PartitionView;

    open spec fn view(&self) -> PartitionView {
        match self {
            PartitionKeys::By(k) => PartitionView::By(text::texts(k@)),
            PartitionKeys::Without(k) => PartitionView::Without(text::texts(k@)),
        }
    }
}

impl Clone for PartitionKeys {
    fn clone(&self) -> (r: PartitionKeys)
        ensures
            r@ == self@,
    {
        match self {
            PartitionKeys::By(k) => PartitionKeys::By(text::clone_texts(k)),
            PartitionKeys::Without(k) => PartitionKeys::Without(text::clone_texts(k)),
        }
    }
}

impl PartitionKeys {
    /// The labels named, whether kept or dropped.
    pub fn keys(&self) -> (r: &Vec<String>)
        ensures
            text::texts(r@) == self@.labels(),
    {
        match self {
            PartitionKeys::By(k) => k,
            PartitionKeys::Without(k) => k,
        }
    }

    /// Whether no label is named.
    pub fn is_empty(&self) -> (r: bool)
        ensures
            r == (self@.labels().len() == 0),
    {
        self.keys().len() == 0
    }
}

/// How a windowed aggregation cuts time.
#[derive(Clone, Copy, Debug, PartialEq, Eq, Structural)]
pub enum WindowKind {
    Tumbling { size: Duration },
    Sliding { size: Duration, slide: Duration },
    Session { gap: Duration },
    Unbounded,
    Landmark,
}

/// A window and the column that holds the time.
#[derive(Debug)]
pub struct WindowSpec {
    pub kind: WindowKind,
    pub time_col: Option<String>,
}

/// What [`WindowSpec`] holds.
#[verifier::ext_equal]
pub struct WindowSpecView {
    pub kind: WindowKind,
    pub time_col: Option<Seq<char>>,
}

impl View for WindowSpec {
    type V = WindowSpecView;

    open spec fn view(&self) -> WindowSpecView {
        WindowSpecView { kind: self.kind, time_col: text::opt_text(self.time_col) }
    }
}

impl Clone for WindowSpec {
    fn clone(&self) -> (r: WindowSpec)
        ensures
            r@ == self@,
    {
        WindowSpec { kind: self.kind, time_col: text::clone_opt_text(&self.time_col) }
    }
}

/// Join variants.
#[derive(Clone, Copy, Debug, PartialEq, Eq, Structural)]
pub enum JoinKind {
    Inner,
    LeftOuter,
    RightOuter,
    FullOuter,
    Cross,
}

/// Set operators.
#[derive(Clone, Copy, Debug, PartialEq, Eq, Structural)]
pub enum SetOpKind {
    Union,
    Intersect,
    Except,
}

/// Whether a vector match names the labels to match on or those to ignore.
#[derive(Clone, Copy, Debug, PartialEq, Eq, Structural)]
pub enum VectorMatchKind {
    On,
    Ignoring,
}

/// The side of a vector match that may hold several elements.
#[derive(Clone, Copy, Debug, PartialEq, Eq, Structural)]
pub enum GroupSide {
    Left,
    Right,
}

/// `group_left` or `group_right` with its labels.
#[derive(Debug)]
pub struct VectorGrouping {
    pub side: GroupSide,
    pub labels: Vec<String>,
}

/// What [`VectorGrouping`] holds.
#[verifier::ext_equal]
pub struct VectorGroupingView {
    pub side: GroupSide,
    pub labels: Seq<Seq<char>>,
}

impl View for VectorGrouping {
    type V = VectorGroupingView;

    open spec fn view(&self) -> VectorGroupingView {
        VectorGroupingView { side: self.side, labels: text::texts(self.labels@) }
    }
}

/// How the elements of two vectors are matched.
#[derive(Debug)]
pub struct VectorMatch {
    pub kind: VectorMatchKind,
    pub labels: Vec<String>,
    pub grouping: Option<VectorGrouping>,
}

/// What [`VectorMatch`] holds.
#[verifier::ext_equal]
pub struct VectorMatchView {
    pub kind: VectorMatchKind,
    pub labels: Seq<Seq<char>>,
    pub grouping: Option<VectorGroupingView>,
}

impl View for VectorMatch {
    type V = VectorMatchView;

    open spec fn view(&self) -> VectorMatchView {
        VectorMatchView {
            kind: self.kind,
            labels: text::texts(self.labels@),
            grouping: match self.grouping {
                Some(g) => Some(g@),
                None => None,
            },
        }
    }
}

impl Clone for VectorMatch {
    fn clone(&self) -> (r: VectorMatch)
        ensures
            r@ == self@,
    {
        VectorMatch {
            kind: self.kind,
            labels: text::clone_texts(&self.labels),
            grouping: match &self.grouping {
                Some(g) => Some(VectorGrouping { side: g.side, labels: text::clone_texts(&g.labels) }),
                None => None,
            },
        }
    }
}

// ── Query expressions ─────────────────────────────────────────────────────────

/// A query expression.
#[derive(Debug)]
#[allow(inconsistent_fields)]
pub enum QueryExpr {
    Source(SourceSpec),
    Ref(String),
    Filter { pred: ScalarExpr, input: Box<QueryExpr> },
    Project { cols: Vec<ProjectItem>, input: Box<QueryExpr> },
    Aggregate {
        keys: Vec<String>,
        aggs: Vec<AggItem>,
        having: Option<ScalarExpr>,
        input: Box<QueryExpr>,
    },
    Window { duration: Duration, slide: Option<Duration>, input: Box<QueryExpr> },
    SketchAgg { op: AggIntent, col: ColumnRef, input: Box<QueryExpr> },
    WindowedAgg { agg: AggIntent, window: WindowSpec, col: ColumnRef, input: Box<QueryExpr> },
    Partition { keys: PartitionKeys, input: Box<QueryExpr> },
    Distinct { cols: Vec<ColumnRef>, input: Box<QueryExpr> },
    TopK { k: u64, by: Vec<String>, input: Box<QueryExpr> },
    Sort { keys: Vec<SortKey>, input: Box<QueryExpr> },
    Limit { n: u64, offset: u64, input: Box<QueryExpr> },
    HistogramQuantile { phi: Decimal, input: Box<QueryExpr> },
    PromQLSubquery { range: Duration, resolution: Option<Duration>, input: Box<QueryExpr> },
    Merge { inputs: Vec<QueryExpr> },
    Join { kind: JoinKind, pred: Option<ScalarExpr>, left: Box<QueryExpr>, right: Box<QueryExpr> },
    SetOp { kind: SetOpKind, all: bool, left: Box<QueryExpr>, right: Box<QueryExpr> },
    BinaryOp {
        op: BinaryOpKind,
        lhs: Box<QueryExpr>,
        rhs: Box<QueryExpr>,
        vector_match: Option<VectorMatch>,
    },
    LetBinding { name: String, expr: Box<QueryExpr>, body: Box<QueryExpr> },
}

/// What [`QueryExpr`] holds.
#[verifier::ext_equal]
#[allow(inconsistent_fields)]
pub enum QueryView {
    Source(Seq<char>),
    Ref(Seq<char>),
    Filter { pred: ScalarView, input: Box<QueryView> },
    Project { cols: Seq<ProjectView>, input: Box<QueryView> },
    Aggregate {
        keys: Seq<Seq<char>>,
        aggs: Seq<AggItemView>,
        having: Option<ScalarView>,
        input: Box<QueryView>,
    },
    Window { duration: Duration, slide: Option<Duration>, input: Box<QueryView> },
    SketchAgg { op: AggIntent, col: ColumnView, input: Box<QueryView> },
    WindowedAgg { agg: AggIntent, window: WindowSpecView, col: ColumnView, input: Box<QueryView> },
    Partition { keys: PartitionView, input: Box<QueryView> },
    Distinct { cols: Seq<ColumnView>, input: Box<QueryView> },
    TopK { k: u64, by: Seq<Seq<char>>, input: Box<QueryView> },
    Sort { keys: Seq<SortKeyView>, input: Box<QueryView> },
    Limit { n: u64, offset: u64, input: Box<QueryView> },
    HistogramQuantile { phi: Decimal, input: Box<QueryView> },
    PromQLSubquery { range: Duration, resolution: Option<Duration>, input: Box<QueryView> },
    Merge { inputs: Seq<QueryView> },
    Join { kind: JoinKind, pred: Option<ScalarView>, left: Box<QueryView>, right: Box<QueryView> },
    SetOp { kind: SetOpKind, all: bool, left: Box<QueryView>, right: Box<QueryView> },
    BinaryOp {
        op: BinaryOpKind,
        lhs: Box<QueryView>,
        rhs: Box<QueryView>,
        vector_match: Option<VectorMatchView>,
    },
    LetBinding { name: Seq<char>, expr: Box<QueryView>, body: Box<QueryView> },
}

/// The views of a list of columns.
pub open spec fn columns_view(s: Seq<ColumnRef>) -> Seq<ColumnView> {
    Seq::new(s.len(), |i: int| s[i]@)
}

/// The views of a list of aggregates.
pub open spec fn aggs_view(s: Seq<AggItem>) -> Seq<AggItemView> {
    Seq::new(s.len(), |i: int| s[i]@)
}

/// The views of a list of sort keys.
pub open spec fn sort_keys_view(s: Seq<SortKey>) -> Seq<SortKeyView> {
    Seq::new(s.len(), |i: int| s[i]@)
}

/// The view of an optional vector match.
pub open spec fn match_view(m: Option<VectorMatch>) -> Option<VectorMatchView> {
    match m {
        Some(v) => Some(v@),
        None => None,
    }
}

/// The view of a scalar expression.
pub open spec fn scalar_view(e: ScalarExpr) -> ScalarView
    decreases e,
{
    match e {
        ScalarExpr::Column(s) => ScalarView::Column(s@),
        ScalarExpr::Literal(v) => ScalarView::Literal(v@),
        ScalarExpr::BinaryOp { op, lhs, rhs } => ScalarView::BinaryOp {
            op,
            lhs: Box::new(scalar_view(*lhs)),
            rhs: Box::new(scalar_view(*rhs)),
        },
        ScalarExpr::IsNull { expr, negated } => ScalarView::IsNull {
            expr: Box::new(scalar_view(*expr)),
            negated,
        },
        ScalarExpr::Between { expr, low, high, negated } => ScalarView::Between {
            expr: Box::new(scalar_view(*expr)),
            low: Box::new(scalar_view(*low)),
            high: Box::new(scalar_view(*high)),
            negated,
        },
        ScalarExpr::InList { expr, list, negated } => ScalarView::InList {
            expr: Box::new(scalar_view(*expr)),
            list: scalars_view(list@),
            negated,
        },
        ScalarExpr::FunctionCall { name, args } => ScalarView::FunctionCall {
            name: name@,
            args: scalars_view(args@),
        },
        ScalarExpr::ScalarSubquery(q) => ScalarView::ScalarSubquery(Box::new(query_view(*q))),
    }
}

/// The views of a list of scalar expressions.
pub open spec fn scalars_view(s: Seq<ScalarExpr>) -> Seq<ScalarView>
    decreases s,
{
    Seq::new(
        s.len(),
        |i: int|
            if 0 <= i < s.len() {
                scalar_view(s[i])
            } else {
                arbitrary()
            },
    )
}

/// The view of an optional scalar expression.
pub open spec fn opt_scalar_view(e: Option<ScalarExpr>) -> Option<ScalarView>
    decreases e,
{
    match e {
        Some(x) => Some(scalar_view(x)),
        None => None,
    }
}

/// The view of a projected column.
pub open spec fn project_view(p: ProjectItem) -> ProjectView
    decreases p,
{
    ProjectView { alias: text::opt_text(p.alias), expr: scalar_view(p.expr) }
}

/// The views of a list of projected columns.
pub open spec fn projects_view(s: Seq<ProjectItem>) -> Seq<ProjectView>
    decreases s,
{
    Seq::new(
        s.len(),
        |i: int|
            if 0 <= i < s.len() {
                project_view(s[i])
            } else {
                arbitrary()
            },
    )
}

/// The view of a query expression.
pub open spec fn query_view(e: QueryExpr) -> QueryView
    decreases e,
{
    match e {
        QueryExpr::Source(s) => QueryView::Source(s.name@),
        QueryExpr::Ref(name) => QueryView::Ref(name@),
        QueryExpr::Filter { pred, input } => QueryView::Filter {
            pred: scalar_view(pred),
            input: Box::new(query_view(*input)),
        },
        QueryExpr::Project { cols, input } => QueryView::Project {
            cols: projects_view(cols@),
            input: Box::new(query_view(*input)),
        },
        QueryExpr::Aggregate { keys, aggs, having, input } => QueryView::Aggregate {
            keys: text::texts(keys@),
            aggs: aggs_view(aggs@),
            having: opt_scalar_view(having),
            input: Box::new(query_view(*input)),
        },
        QueryExpr::Window { duration, slide, input } => QueryView::Window {
            duration,
            slide,
            input: Box::new(query_view(*input)),
        },
        QueryExpr::SketchAgg { op, col, input } => QueryView::SketchAgg {
            op,
            col: col@,
            input: Box::new(query_view(*input)),
        },
        QueryExpr::WindowedAgg { agg, window, col, input } => QueryView::WindowedAgg {
            agg,
            window: window@,
            col: col@,
            input: Box::new(query_view(*input)),
        },
        QueryExpr::Partition { keys, input } => QueryView::Partition {
            keys: keys@,
            input: Box::new(query_view(*input)),
        },
        QueryExpr::Distinct { cols, input } => QueryView::Distinct {
            cols: columns_view(cols@),
            input: Box::new(query_view(*input)),
        },
        QueryExpr::TopK { k, by, input } => QueryView::TopK {
            k,
            by: text::texts(by@),
            input: Box::new(query_view(*input)),
        },
        QueryExpr::Sort { keys, input } => QueryView::Sort {
            keys: sort_keys_view(keys@),
            input: Box::new(query_view(*input)),
        },
        QueryExpr::Limit { n, offset, input } => QueryView::Limit {
            n,
            offset,
            input: Box::new(query_view(*input)),
        },
        QueryExpr::HistogramQuantile { phi, input } => QueryView::HistogramQuantile {
            phi,
            input: Box::new(query_view(*input)),
        },
        QueryExpr::PromQLSubquery { range, resolution, input } => QueryView::PromQLSubquery {
            range,
            resolution,
            input: Box::new(query_view(*input)),
        },
        QueryExpr::Merge { inputs } => QueryView::Merge { inputs: queries_view(inputs@) },
        QueryExpr::Join { kind, pred, left, right } => QueryView::Join {
            kind,
            pred: opt_scalar_view(pred),
            left: Box::new(query_view(*left)),
            right: Box::new(query_view(*right)),
        },
        QueryExpr::SetOp { kind, all, left, right } => QueryView::SetOp {
            kind,
            all,
            left: Box::new(query_view(*left)),
            right: Box::new(query_view(*right)),
        },
        QueryExpr::BinaryOp { op, lhs, rhs, vector_match } => QueryView::BinaryOp {
            op,
            lhs: Box::new(query_view(*lhs)),
            rhs: Box::new(query_view(*rhs)),
            vector_match: match_view(vector_match),
        },
        QueryExpr::LetBinding { name, expr, body } => QueryView::LetBinding {
            name: name@,
            expr: Box::new(query_view(*expr)),
            body: Box::new(query_view(*body)),
        },
    }
}

/// The views of a list of query expressions.
pub open spec fn queries_view(s: Seq<QueryExpr>) -> Seq<QueryView>
    decreases s,
{
    Seq::new(
        s.len(),
        |i: int|
            if 0 <= i < s.len() {
                query_view(s[i])
            } else {
                arbitrary()
            },
    )
}

/// The view of a list holds the view of each element.
pub broadcast proof fn queries_view_index(s: Seq<QueryExpr>, i: int)
    requires
        0 <= i < s.len(),
    ensures
        #[trigger] queries_view(s)[i] == query_view(s[i]),
{
}

/// The view of a list is as long as the list.
pub broadcast proof fn queries_view_len(s: Seq<QueryExpr>)
    ensures
        #[trigger] queries_view(s).len() == s.len(),
{
}

/// The view of a list holds the view of each element.
pub broadcast proof fn scalars_view_index(s: Seq<ScalarExpr>, i: int)
    requires
        0 <= i < s.len(),
    ensures
        #[trigger] scalars_view(s)[i] == scalar_view(s[i]),
{
}

/// The view of a list is as long as the list.
pub broadcast proof fn scalars_view_len(s: Seq<ScalarExpr>)
    ensures
        #[trigger] scalars_view(s).len() == s.len(),
{
}

/// The view of a list holds the view of each element.
pub broadcast proof fn projects_view_index(s: Seq<ProjectItem>, i: int)
    requires
        0 <= i < s.len(),
    ensures
        #[trigger] projects_view(s)[i] == project_view(s[i]),
{
}

/// The view of a list is as long as the list.
pub broadcast proof fn projects_view_len(s: Seq<ProjectItem>)
    ensures
        #[trigger] projects_view(s).len() == s.len(),
{
}

/// How the views of lists are made up.
pub broadcast group group_list_views {
    queries_view_index,
    queries_view_len,
    scalars_view_index,
    scalars_view_len,
    projects_view_index,
    projects_view_len,
}

impl View for ScalarExpr {
    type V = ScalarView;

    open spec fn view(&self) -> ScalarView {
        scalar_view(*self)
    }
}

impl View for QueryExpr {
    type V = QueryView;

    open spec fn view(&self) -> QueryView {
        query_view(*self)
    }
}

// ── Copies ────────────────────────────────────────────────────────────────────

/// A copy of a list of columns.
pub fn clone_columns(v: &Vec<ColumnRef>) -> (r: Vec<ColumnRef>)
    ensures
        columns_view(r@) == columns_view(v@),
{
    let mut out: Vec<ColumnRef> = Vec::new();
    for i in 0..v.len()
        invariant
            out@.len() == i,
            forall|j: int| 0 <= j < i ==> #[trigger] out@[j]@ == v@[j]@,
    {
        out.push(v[i].clone());
    }
    assert(columns_view(out@) =~= columns_view(v@));
    out
}

/// A copy of a list of aggregates.
pub fn clone_aggs(v: &Vec<AggItem>) -> (r: Vec<AggItem>)
    ensures
        aggs_view(r@) == aggs_view(v@),
{
    let mut out: Vec<AggItem> = Vec::new();
    for i in 0..v.len()
        invariant
            out@.len() == i,
            forall|j: int| 0 <= j < i ==> #[trigger] out@[j]@ == v@[j]@,
    {
        out.push(v[i].clone());
    }
    assert(aggs_view(out@) =~= aggs_view(v@));
    out
}

/// A copy of a list of sort keys.
pub fn clone_sort_keys(v: &Vec<SortKey>) -> (r: Vec<SortKey>)
    ensures
        sort_keys_view(r@) == sort_keys_view(v@),
{
    let mut out: Vec<SortKey> = Vec::new();
    for i in 0..v.len()
        invariant
            out@.len() == i,
            forall|j: int| 0 <= j < i ==> #[trigger] out@[j]@ == v@[j]@,
    {
        out.push(v[i].clone());
    }
    assert(sort_keys_view(out@) =~= sort_keys_view(v@));
    out
}

/// A copy of an optional vector match.
pub fn clone_match(m: &Option<VectorMatch>) -> (r: Option<VectorMatch>)
    ensures
        match_view(r) == match_view(*m),
{
    match m {
        Some(v) => Some(v.clone()),
        None => None,
    }
}

/// A copy of a list of scalar expressions.
pub fn clone_scalars(v: &Vec<ScalarExpr>) -> (r: Vec<ScalarExpr>)
    ensures
        scalars_view(r@) == scalars_view(v@),
    decreases v,
{
    broadcast use vstd::std_specs::vec::axiom_vec_index_decreases;

    let mut out: Vec<ScalarExpr> = Vec::new();
    for i in 0..v.len()
        invariant
            out@.len() == i,
            forall|j: int| 0 <= j < i ==> scalar_view(#[trigger] out@[j]) == scalar_view(v@[j]),
    {
        assert(decreases_to!(*v => v[i as int]));
        out.push(clone_scalar(&v[i]));
    }
    assert(scalars_view(out@) =~= scalars_view(v@));
    out
}

/// A copy of a scalar expression.
pub fn clone_scalar(e: &ScalarExpr) -> (r: ScalarExpr)
    ensures
        scalar_view(r) == scalar_view(*e),
    decreases e,
{
    match e {
        ScalarExpr::Column(s) => ScalarExpr::Column(s.clone()),
        ScalarExpr::Literal(v) => ScalarExpr::Literal(v.clone()),
        ScalarExpr::BinaryOp { op, lhs, rhs } => ScalarExpr::BinaryOp {
            op: *op,
            lhs: Box::new(clone_scalar(lhs)),
            rhs: Box::new(clone_scalar(rhs)),
        },
        ScalarExpr::IsNull { expr, negated } => ScalarExpr::IsNull {
            expr: Box::new(clone_scalar(expr)),
            negated: *negated,
        },
        ScalarExpr::Between { expr, low, high, negated } => ScalarExpr::Between {
            expr: Box::new(clone_scalar(expr)),
            low: Box::new(clone_scalar(low)),
            high: Box::new(clone_scalar(high)),
            negated: *negated,
        },
        ScalarExpr::InList { expr, list, negated } => ScalarExpr::InList {
            expr: Box::new(clone_scalar(expr)),
            list: clone_scalars(list),
            negated: *negated,
        },
        ScalarExpr::FunctionCall { name, args } => ScalarExpr::FunctionCall {
            name: name.clone(),
            args: clone_scalars(args),
        },
        ScalarExpr::ScalarSubquery(q) => ScalarExpr::ScalarSubquery(Box::new(clone_query(q))),
    }
}

/// A copy of an optional scalar expression.
pub fn clone_opt_scalar(e: &Option<ScalarExpr>) -> (r: Option<ScalarExpr>)
    ensures
        opt_scalar_view(r) == opt_scalar_view(*e),
    decreases e,
{
    match e {
        Some(x) => Some(clone_scalar(x)),
        None => None,
    }
}

/// A copy of a list of projected columns.
pub fn clone_projects(v: &Vec<ProjectItem>) -> (r: Vec<ProjectItem>)
    ensures
        projects_view(r@) == projects_view(v@),
    decreases v,
{
    broadcast use vstd::std_specs::vec::axiom_vec_index_decreases;

    let mut out: Vec<ProjectItem> = Vec::new();
    for i in 0..v.len()
        invariant
            out@.len() == i,
            forall|j: int| 0 <= j < i ==> project_view(#[trigger] out@[j]) == project_view(v@[j]),
    {
        assert(decreases_to!(*v => v[i as int]));
        assert(decreases_to!(v[i as int] => v[i as int].expr));
        out.push(
            ProjectItem {
                alias: text::clone_opt_text(&v[i].alias),
                expr: clone_scalar(&v[i].expr),
            },
        );
    }
    assert(projects_view(out@) =~= projects_view(v@));
    out
}

/// A copy of a list of query expressions.
pub fn clone_queries(v: &Vec<QueryExpr>) -> (r: Vec<QueryExpr>)
    ensures
        queries_view(r@) == queries_view(v@),
    decreases v,
{
    broadcast use vstd::std_specs::vec::axiom_vec_index_decreases;

    let mut out: Vec<QueryExpr> = Vec::new();
    for i in 0..v.len()
        invariant
            out@.len() == i,
            forall|j: int| 0 <= j < i ==> query_view(#[trigger] out@[j]) == query_view(v@[j]),
    {
        assert(decreases_to!(*v => v[i as int]));
        out.push(clone_query(&v[i]));
    }
    assert(queries_view(out@) =~= queries_view(v@));
    out
}

/// A copy of a query expression.
pub fn clone_query(e: &QueryExpr) -> (r: QueryExpr)
    ensures
        query_view(r) == query_view(*e),
    decreases e,
{
    match e {
        QueryExpr::Source(s) => QueryExpr::Source(SourceSpec { name: s.name.clone() }),
        QueryExpr::Ref(name) => QueryExpr::Ref(name.clone()),
        QueryExpr::Filter { pred, input } => QueryExpr::Filter {
            pred: clone_scalar(pred),
            input: Box::new(clone_query(input)),
        },
        QueryExpr::Project { cols, input } => QueryExpr::Project {
            cols: clone_projects(cols),
            input: Box::new(clone_query(input)),
        },
        QueryExpr::Aggregate { keys, aggs, having, input } => QueryExpr::Aggregate {
            keys: text::clone_texts(keys),
            aggs: clone_aggs(aggs),
            having: clone_opt_scalar(having),
            input: Box::new(clone_query(input)),
        },
        QueryExpr::Window { duration, slide, input } => QueryExpr::Window {
            duration: *duration,
            slide: *slide,
            input: Box::new(clone_query(input)),
        },
        QueryExpr::SketchAgg { op, col, input } => QueryExpr::SketchAgg {
            op: *op,
            col: col.clone(),
            input: Box::new(clone_query(input)),
        },
        QueryExpr::WindowedAgg { agg, window, col, input } => QueryExpr::WindowedAgg {
            agg: *agg,
            window: window.clone(),
            col: col.clone(),
            input: Box::new(clone_query(input)),
        },
        QueryExpr::Partition { keys, input } => QueryExpr::Partition {
            keys: keys.clone(),
            input: Box::new(clone_query(input)),
        },
        QueryExpr::Distinct { cols, input } => QueryExpr::Distinct {
            cols: clone_columns(cols),
            input: Box::new(clone_query(input)),
        },
        QueryExpr::TopK { k, by, input } => QueryExpr::TopK {
            k: *k,
            by: text::clone_texts(by),
            input: Box::new(clone_query(input)),
        },
        QueryExpr::Sort { keys, input } => QueryExpr::Sort {
            keys: clone_sort_keys(keys),
            input: Box::new(clone_query(input)),
        },
        QueryExpr::Limit { n, offset, input } => QueryExpr::Limit {
            n: *n,
            offset: *offset,
            input: Box::new(clone_query(input)),
        },
        QueryExpr::HistogramQuantile { phi, input } => QueryExpr::HistogramQuantile {
            phi: *phi,
            input: Box::new(clone_query(input)),
        },
        QueryExpr::PromQLSubquery { range, resolution, input } => QueryExpr::PromQLSubquery {
            range: *range,
            resolution: *resolution,
            input: Box::new(clone_query(input)),
        },
        QueryExpr::Merge { inputs } => QueryExpr::Merge { inputs: clone_queries(inputs) },
        QueryExpr::Join { kind, pred, left, right } => QueryExpr::Join {
            kind: *kind,
            pred: clone_opt_scalar(pred),
            left: Box::new(clone_query(left)),
            right: Box::new(clone_query(right)),
        },
        QueryExpr::SetOp { kind, all, left, right } => QueryExpr::SetOp {
            kind: *kind,
            all: *all,
            left: Box::new(clone_query(left)),
            right: Box::new(clone_query(right)),
        },
        QueryExpr::BinaryOp { op, lhs, rhs, vector_match } => QueryExpr::BinaryOp {
            op: *op,
            lhs: Box::new(clone_query(lhs)),
            rhs: Box::new(clone_query(rhs)),
            vector_match: clone_match(vector_match),
        },
        QueryExpr::LetBinding { name, expr, body } => QueryExpr::LetBinding {
            name: name.clone(),
            expr: Box::new(clone_query(expr)),
            body: Box::new(clone_query(body)),
        },
    }
}

impl Clone for ScalarExpr {
    fn clone(&self) -> (r: ScalarExpr)
        ensures
            r@ == self@,
    {
        clone_scalar(self)
    }
}

impl Clone for QueryExpr {
    fn clone(&self) -> (r: QueryExpr)
        ensures
            r@ == self@,
    {
        clone_query(self)
    }
}

// ── Reading trees ─────────────────────────────────────────────────────────────

impl QueryView {
    /// The name of a bare source.
    pub open spec fn source(self) -> Option<Seq<char>> {
        match self {
            QueryView::Source(name) => Some(name),
            _ => None,
        }
    }
}

impl QueryExpr {
    /// The name of a bare source; `None` for every other node.
    pub fn source_name(&self) -> (r: Option<&str>)
        ensures
            match r {
                Some(s) => self@.source() == Some(s@),
                None => self@.source() is None,
            },
    {
        match self {
            QueryExpr::Source(s) => Some(s.name.as_str()),
            _ => None,
        }
    }
}

} // verus!
