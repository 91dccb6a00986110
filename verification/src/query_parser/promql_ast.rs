//! The syntax tree of PromQL expressions, as plain data.
use promql_parser::label::MatchOp;
use promql_parser::parser::Expr;
use promql_parser::parser::VectorMatchCardinality;
use vstd::prelude::*;
use vstd::string::*;

use crate::text;
use crate::types::Duration;

verus! {

// ── Trees ─────────────────────────────────────────────────────────────────────

/// `by` or `on` labels, or `without` or `ignoring` labels.
#[derive(Debug)]
pub enum LabelClause {
    Include(Vec<String>),
    Exclude(Vec<String>),
}

/// What [`LabelClause`] holds.
#[verifier::ext_equal]
pub enum ModifierView {
    Include(Seq<Seq<char>>),
    Exclude(Seq<Seq<char>>),
}

impl View for LabelClause {
    type V = ModifierView;

    open spec fn view(&self) -> ModifierView {
        match self {
            LabelClause::Include(ls) => ModifierView::Include(text::texts(ls@)),
            LabelClause::Exclude(ls) => ModifierView::Exclude(text::texts(ls@)),
        }
    }
}

/// How a label is compared with a value.
#[derive(Debug)]
pub enum MatchKind {
    Equal,
    NotEqual,
    Regex(String),
    NotRegex(String),
}

/// What [`MatchKind`] holds.
#[verifier::ext_equal]
pub enum MatchKindView {
    Equal,
    NotEqual,
    Regex(Seq<char>),
    NotRegex(Seq<char>),
}

impl View for MatchKind {
    type V = MatchKindView;

    open spec fn view(&self) -> MatchKindView {
        match self {
            MatchKind::Equal => MatchKindView::Equal,
            MatchKind::NotEqual => MatchKindView::NotEqual,
            MatchKind::Regex(s) => MatchKindView::Regex(s@),
            MatchKind::NotRegex(s) => MatchKindView::NotRegex(s@),
        }
    }
}

/// A matcher of a selector.
#[derive(Debug)]
pub struct LabelMatcher {
    pub kind: MatchKind,
    pub name: String,
    pub value: String,
}

/// What [`LabelMatcher`] holds.
#[verifier::ext_equal]
pub struct MatcherView {
    pub kind: MatchKindView,
    pub name: Seq<char>,
    pub value: Seq<char>,
}

impl View for LabelMatcher {
    type V = MatcherView;

    open spec fn view(&self) -> MatcherView {
        MatcherView { kind: self.kind@, name: self.name@, value: self.value@ }
    }
}

/// The views of a list of matchers.
pub open spec fn matchers_view(s: Seq<LabelMatcher>) -> Seq<MatcherView> {
    Seq::new(s.len(), |i: int| s[i]@)
}

/// A metric with its matchers.
#[derive(Debug)]
pub struct Selector {
    pub name: Option<String>,
    pub matchers: Vec<LabelMatcher>,
}

/// What [`Selector`] holds.
#[verifier::ext_equal]
pub struct SelectorView {
    pub name: Option<Seq<char>>,
    pub matchers: Seq<MatcherView>,
}

impl View for Selector {
    type V = SelectorView;

    open spec fn view(&self) -> SelectorView {
        SelectorView { name: text::opt_text(self.name), matchers: matchers_view(self.matchers@) }
    }
}

/// Which side of a vector match may hold several elements.
#[derive(Debug)]
pub enum MatchCardinality {
    OneToOne,
    ManyToOne(Vec<String>),
    OneToMany(Vec<String>),
    ManyToMany,
}

/// What [`MatchCardinality`] holds.
#[verifier::ext_equal]
pub enum CardinalityView {
    OneToOne,
    ManyToOne(Seq<Seq<char>>),
    OneToMany(Seq<Seq<char>>),
    ManyToMany,
}

impl View for MatchCardinality {
    type V = CardinalityView;

    open spec fn view(&self) -> CardinalityView {
        match self {
            MatchCardinality::OneToOne => CardinalityView::OneToOne,
            MatchCardinality::ManyToOne(ls) => CardinalityView::ManyToOne(text::texts(ls@)),
            MatchCardinality::OneToMany(ls) => CardinalityView::OneToMany(text::texts(ls@)),
            MatchCardinality::ManyToMany => CardinalityView::ManyToMany,
        }
    }
}

/// How a binary operator matches its operands.
#[derive(Debug)]
pub struct MatchModifier {
    pub card: MatchCardinality,
    pub matching: Option<LabelClause>,
}

/// What [`MatchModifier`] holds.
#[verifier::ext_equal]
pub struct MatchModifierView {
    pub card: CardinalityView,
    pub matching: Option<ModifierView>,
}

/// The view of an optional label modifier.
pub open spec fn opt_modifier(m: Option<LabelClause>) -> Option<ModifierView> {
    match m {
        Some(x) => Some(x@),
        None => None,
    }
}

impl View for MatchModifier {
    type V = MatchModifierView;

    open spec fn view(&self) -> MatchModifierView {
        MatchModifierView { card: self.card@, matching: opt_modifier(self.matching) }
    }
}

/// The view of an optional match modifier.
pub open spec fn opt_match(m: Option<MatchModifier>) -> Option<MatchModifierView> {
    match m {
        Some(x) => Some(x@),
        None => None,
    }
}

/// A PromQL expression.
#[derive(Debug)]
#[allow(inconsistent_fields)]
pub enum PromExpr {
    /// `sum by (host) (..)`: the operator by its name.
    Aggregate {
        op: String,
        expr: Box<PromExpr>,
        param: Option<Box<PromExpr>>,
        modifier: Option<LabelClause>,
    },
    /// `a / on (job) b`: the operator by its sign.
    Binary {
        op: String,
        lhs: Box<PromExpr>,
        rhs: Box<PromExpr>,
        modifier: Option<MatchModifier>,
    },
    /// `(..)`
    Paren(Box<PromExpr>),
    /// `..[1h:1m]`
    Subquery { expr: Box<PromExpr>, range: Duration, step: Option<Duration> },
    /// A number in decimal notation.
    Number(String),
    /// A string.
    Text(String),
    /// `m{job="api"}`
    Vector(Selector),
    /// `m{job="api"}[5m]`
    Matrix { selector: Selector, range: Duration },
    /// `rate(..)`
    Call { name: String, args: Vec<PromExpr> },
    /// Anything else.
    Other,
}

/// What [`PromExpr`] holds.
#[verifier::ext_equal]
#[allow(inconsistent_fields)]
pub enum PromView {
    Aggregate {
        op: Seq<char>,
        expr: Box<PromView>,
        param: Option<Box<PromView>>,
        modifier: Option<ModifierView>,
    },
    Binary {
        op: Seq<char>,
        lhs: Box<PromView>,
        rhs: Box<PromView>,
        modifier: Option<MatchModifierView>,
    },
    Paren(Box<PromView>),
    Subquery { expr: Box<PromView>, range: Duration, step: Option<Duration> },
    Number(Seq<char>),
    Text(Seq<char>),
    Vector(SelectorView),
    Matrix { selector: SelectorView, range: Duration },
    Call { name: Seq<char>, args: Seq<PromView> },
    Other,
}

/// The view of an expression.
pub open spec fn prom_view(e: PromExpr) -> PromView
    decreases e,
{
    match e {
        PromExpr::Aggregate { op, expr, param, modifier } => PromView::Aggregate {
            op: op@,
            expr: Box::new(prom_view(*expr)),
            param: match param {
                Some(p) => Some(Box::new(prom_view(*p))),
                None => None,
            },
            modifier: opt_modifier(modifier),
        },
        PromExpr::Binary { op, lhs, rhs, modifier } => PromView::Binary {
            op: op@,
            lhs: Box::new(prom_view(*lhs)),
            rhs: Box::new(prom_view(*rhs)),
            modifier: opt_match(modifier),
        },
        PromExpr::Paren(inner) => PromView::Paren(Box::new(prom_view(*inner))),
        PromExpr::Subquery { expr, range, step } => PromView::Subquery {
            expr: Box::new(prom_view(*expr)),
            range,
            step,
        },
        PromExpr::Number(n) => PromView::Number(n@),
        PromExpr::Text(s) => PromView::Text(s@),
        PromExpr::Vector(s) => PromView::Vector(s@),
        PromExpr::Matrix { selector, range } => PromView::Matrix { selector: selector@, range },
        PromExpr::Call { name, args } => PromView::Call { name: name@, args: proms_view(args@) },
        PromExpr::Other => PromView::Other,
    }
}

/// The views of a list of expressions.
pub open spec fn proms_view(s: Seq<PromExpr>) -> Seq<PromView>
    decreases s,
{
    Seq::new(
        s.len(),
        |i: int|
            if 0 <= i < s.len() {
                prom_view(s[i])
            } else {
                arbitrary()
            },
    )
}

/// The view of a list holds the view of each element.
pub broadcast proof fn proms_view_index(s: Seq<PromExpr>, i: int)
    requires
        0 <= i < s.len(),
    ensures
        #[trigger] proms_view(s)[i] == prom_view(s[i]),
{
}

/// The view of a list is as long as the list.
pub broadcast proof fn proms_view_len(s: Seq<PromExpr>)
    ensures
        #[trigger] proms_view(s).len() == s.len(),
{
}

/// How the views of lists are made up.
pub broadcast group group_prom_views {
    proms_view_index,
    proms_view_len,
}

impl View for PromExpr {
    type V = PromView;

    open spec fn view(&self) -> PromView {
        prom_view(*self)
    }
}

// ── Parsing ───────────────────────────────────────────────────────────────────

/// The syntax tree of the parser, opaque here.
#[verifier::external_type_specification]
#[verifier::external_body]
pub struct ExExpr(promql_parser::parser::Expr);

/// An aggregation of the parser's syntax tree, opaque here.
#[verifier::external_type_specification]
#[verifier::external_body]
pub struct ExAggregateExpr(promql_parser::parser::AggregateExpr);

/// A binary operation of the parser's syntax tree, opaque here.
#[verifier::external_type_specification]
#[verifier::external_body]
pub struct ExBinaryExpr(promql_parser::parser::BinaryExpr);

/// A selector of the parser's syntax tree, opaque here.
#[verifier::external_type_specification]
#[verifier::external_body]
pub struct ExVectorSelector(promql_parser::parser::VectorSelector);

/// A label modifier of the parser's syntax tree, opaque here.
#[verifier::external_type_specification]
#[verifier::external_body]
pub struct ExLabelModifier(promql_parser::parser::LabelModifier);

/// A match modifier of the parser's syntax tree, opaque here.
#[verifier::external_type_specification]
#[verifier::external_body]
pub struct ExBinModifier(promql_parser::parser::BinModifier);

/// A matcher of the parser's syntax tree, opaque here.
#[verifier::external_type_specification]
#[verifier::external_body]
pub struct ExMatcher(promql_parser::label::Matcher);

/// What the PromQL parser makes of a query: its syntax tree as plain data, or
/// the parser's message.
pub uninterp spec fn parsed_promql(query: Seq<char>) -> Result<PromView, Seq<char>>;

/// `promql_parser::parser::parse`: the syntax tree of a query, each node handed
/// on as plain data, or the parser's message. The grammar is the parser's and is
/// not stated. The result depends on the query alone wherever the platform's
/// `SystemTime` counts seconds in 64 bits, as the timestamp after `@` is read
/// into one.
#[verifier::external_body]
pub(crate) fn parse_tree(query: &str) -> (r: Result<PromExpr, String>)
    ensures
        match r {
            Ok(e) => parsed_promql(query@) == Ok::<PromView, Seq<char>>(e@),
            Err(m) => parsed_promql(query@) == Err::<PromView, Seq<char>>(m@),
        },
{
    promql_parser::parser::parse(query).map(tree_of)
}

/// A node of the parser's syntax tree (`promql_parser::parser::Expr`) as plain
/// data, variant by variant.
#[verifier::external_body]
fn tree_of(e: promql_parser::parser::Expr) -> PromExpr {
    match e {
        Expr::Aggregate(a) => aggregate_of(a),
        Expr::Binary(b) => binary_of(b),
        Expr::Paren(p) => PromExpr::Paren(Box::new(tree_of(*p.expr))),
        Expr::Subquery(s) => PromExpr::Subquery {
            expr: Box::new(tree_of(*s.expr)),
            range: span_of(s.range),
            step: s.step.map(span_of),
        },
        Expr::Call(c) => PromExpr::Call {
            name: c.func.name.to_string(),
            args: c.args.args.into_iter().map(|a| tree_of(*a)).collect(),
        },
        other => leaf_of(other),
    }
}

/// A node of the parser's syntax tree (`promql_parser::parser::Expr`) that holds
/// no other, as plain data. Numbers are written out in decimal notation; the
/// variants not listed are handed on as `Other`.
#[verifier::external_body]
fn leaf_of(e: promql_parser::parser::Expr) -> PromExpr {
    match e {
        Expr::NumberLiteral(n) => PromExpr::Number(n.val.to_string()),
        Expr::StringLiteral(s) => PromExpr::Text(s.val),
        Expr::VectorSelector(v) => PromExpr::Vector(selector_of(v)),
        Expr::MatrixSelector(m) => PromExpr::Matrix {
            selector: selector_of(m.vs),
            range: span_of(m.range),
        },
        _ => PromExpr::Other,
    }
}

/// An aggregation (`promql_parser::parser::AggregateExpr`) as plain data.
#[verifier::external_body]
fn aggregate_of(a: promql_parser::parser::AggregateExpr) -> PromExpr {
    PromExpr::Aggregate {
        op: a.op.to_string(),
        expr: Box::new(tree_of(*a.expr)),
        param: a.param.map(|p| Box::new(tree_of(*p))),
        modifier: a.modifier.map(modifier_of),
    }
}

/// A binary operation (`promql_parser::parser::BinaryExpr`) as plain data.
#[verifier::external_body]
fn binary_of(b: promql_parser::parser::BinaryExpr) -> PromExpr {
    PromExpr::Binary {
        op: b.op.to_string(),
        lhs: Box::new(tree_of(*b.lhs)),
        rhs: Box::new(tree_of(*b.rhs)),
        modifier: b.modifier.map(match_of),
    }
}

/// A selector (`promql_parser::parser::VectorSelector`) as plain data.
#[verifier::external_body]
fn selector_of(v: promql_parser::parser::VectorSelector) -> Selector {
    Selector { name: v.name, matchers: v.matchers.matchers.into_iter().map(matcher_of).collect() }
}

/// A matcher (`promql_parser::label::Matcher`) as plain data, a regular
/// expression by its text.
#[verifier::external_body]
fn matcher_of(m: promql_parser::label::Matcher) -> LabelMatcher {
    let kind = match m.op {
        MatchOp::Equal => MatchKind::Equal,
        MatchOp::NotEqual => MatchKind::NotEqual,
        MatchOp::Re(re) => MatchKind::Regex(re.to_string()),
        MatchOp::NotRe(re) => MatchKind::NotRegex(re.to_string()),
    };
    LabelMatcher { kind, name: m.name, value: m.value }
}

/// A label modifier (`promql_parser::parser::LabelModifier`) as plain data.
#[verifier::external_body]
fn modifier_of(m: promql_parser::parser::LabelModifier) -> LabelClause {
    match m {
        promql_parser::parser::LabelModifier::Include(ls) => LabelClause::Include(ls.labels),
        promql_parser::parser::LabelModifier::Exclude(ls) => LabelClause::Exclude(ls.labels),
    }
}

/// A match modifier (`promql_parser::parser::BinModifier`) as plain data.
#[verifier::external_body]
fn match_of(m: promql_parser::parser::BinModifier) -> MatchModifier {
    let card = match m.card {
        VectorMatchCardinality::OneToOne => MatchCardinality::OneToOne,
        VectorMatchCardinality::ManyToOne(ls) => MatchCardinality::ManyToOne(ls.labels),
        VectorMatchCardinality::OneToMany(ls) => MatchCardinality::OneToMany(ls.labels),
        VectorMatchCardinality::ManyToMany => MatchCardinality::ManyToMany,
    };
    MatchModifier { card, matching: m.matching.map(modifier_of) }
}

/// A span of the standard library (`core::time::Duration`) as plain data: its
/// whole seconds, and the nanoseconds beyond them, which make up less than a
/// second.
#[verifier::external_body]
fn span_of(d: core::time::Duration) -> Duration {
    Duration { secs: d.as_secs(), nanos: d.subsec_nanos() }
}

} // verus!
