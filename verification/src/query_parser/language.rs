//! Query languages behind one interface.
use vstd::prelude::*;
use vstd::string::*;

use crate::algebra::expr::{QueryExpr, QueryView};
use crate::query_parser;
use crate::query_parser::summary;
use crate::query_parser::summary::{ParsedQuery, ParsedView};
use crate::query_parser::parse_query_expr;
use crate::types::QueryLanguage;

verus! {

/// Why a text could not be read.
#[derive(Debug, PartialEq, Eq)]
pub enum ParseError {
    /// The parser of the language rejected the text.
    Backend {
        /// The language.
        language: QueryLanguage,
        /// What the parser said.
        source_err: String,
    },
    /// There is no parser for the language.
    Unimplemented(&'static str),
}

/// What [`ParseError`] holds.
#[verifier::ext_equal]
pub enum ParseFault {
    Backend { language: QueryLanguage, source_err: Seq<char> },
    Unimplemented(Seq<char>),
}

impl View for ParseError {
    type V = ParseFault;

    open spec fn view(&self) -> ParseFault {
        match self {
            ParseError::Backend { language, source_err } => ParseFault::Backend {
                language: *language,
                source_err: source_err@,
            },
            ParseError::Unimplemented(s) => ParseFault::Unimplemented(s@),
        }
    }
}

impl ParseFault {
    /// The error in words.
    pub open spec fn words(self) -> Seq<char> {
        match self {
            ParseFault::Backend { language, source_err } => "parse failed for "@ + language.label()
                + ": "@ + source_err,
            ParseFault::Unimplemented(s) => s,
        }
    }
}

impl ParseError {
    /// The error of a parser that rejected a text.
    pub fn backend(language: QueryLanguage, source_err: String) -> (r: ParseError)
        ensures
            r@ == (ParseFault::Backend { language, source_err: source_err@ }),
    {
        ParseError::Backend { language, source_err }
    }

    /// The error in words.
    pub fn message(&self) -> (r: String)
        ensures
            r@ == self@.words(),
    {
        match self {
            ParseError::Backend { language, source_err } => {
                let mut out = "parse failed for ".to_owned();
                out.append(language.name());
                out.append(": ");
                out.append(source_err.as_str());
                out
            },
            ParseError::Unimplemented(s) => (*s).to_owned(),
        }
    }
}

/// A PromQL text with its query and summary.
#[derive(Debug)]
pub struct PromQLAst {
    /// The text.
    pub source: String,
    /// The query.
    pub expr: QueryExpr,
    /// The summary.
    pub summary: ParsedQuery,
}

/// What [`PromQLAst`] holds.
#[verifier::ext_equal]
pub struct PromQLAstView {
    pub source: Seq<char>,
    pub expr: QueryView,
    pub summary: ParsedView,
}

impl View for PromQLAst {
    type V = PromQLAstView;

    open spec fn view(&self) -> PromQLAstView {
        PromQLAstView { source: self.source@, expr: self.expr@, summary: self.summary@ }
    }
}

impl PromQLAst {
    /// A text with its query and summary.
    pub fn new(source: String, expr: QueryExpr, summary: ParsedQuery) -> (r: PromQLAst)
        ensures
            r@ == (PromQLAstView { source: source@, expr: expr@, summary: summary@ }),
    {
        PromQLAst { source, expr, summary }
    }

    /// The query.
    pub fn expr(&self) -> (r: &QueryExpr)
        ensures
            *r == self.expr,
    {
        &self.expr
    }

    /// The summary.
    pub fn summary(&self) -> (r: &ParsedQuery)
        ensures
            *r == self.summary,
    {
        &self.summary
    }
}

impl Clone for PromQLAst {
    fn clone(&self) -> (r: PromQLAst)
        ensures
            r@ == self@,
    {
        PromQLAst {
            source: self.source.clone(),
            expr: self.expr.clone(),
            summary: self.summary.clone(),
        }
    }
}

/// What reading a text in some language gives.
#[derive(Debug, Clone)]
pub enum LanguageAst {
    /// PromQL.
    PromQL(PromQLAst),
}

impl View for LanguageAst {
    type V = PromQLAstView;

    open spec fn view(&self) -> PromQLAstView {
        match self {
            LanguageAst::PromQL(a) => a@,
        }
    }
}

impl LanguageAst {
    /// Whether the text was PromQL.
    pub fn is_promql(&self) -> (r: bool)
        ensures
            r == (*self is PromQL),
    {
        match self {
            LanguageAst::PromQL(_) => true,
        }
    }

    /// The PromQL text.
    pub fn as_promql(&self) -> (r: Option<&PromQLAst>)
        ensures
            match r {
                Some(a) => *self == LanguageAst::PromQL(*a),
                None => !(*self is PromQL),
            },
    {
        match self {
            LanguageAst::PromQL(a) => Some(a),
        }
    }
}

/// Whether a result is the given one.
pub open spec fn reads(
    r: Result<LanguageAst, ParseError>,
    want: Result<PromQLAstView, ParseFault>,
) -> bool {
    match (r, want) {
        (Ok(a), Ok(w)) => a@ == w,
        (Err(e), Err(w)) => e@ == w,
        _ => false,
    }
}

/// A parser of a query language.
pub trait Language: Send + Sync {
    /// The language.
    spec fn language(&self) -> QueryLanguage;

    /// What a text reads as.
    spec fn reading(&self, source: Seq<char>) -> Result<PromQLAstView, ParseFault>;

    /// The language.
    fn id(&self) -> (r: QueryLanguage)
        ensures
            r == self.language(),
    ;

    /// Read a text.
    fn parse(&self, source: &str) -> (r: Result<LanguageAst, ParseError>)
        ensures
            reads(r, self.reading(source@)),
    ;
}

/// PromQL.
#[derive(Debug, Default, Clone, Copy)]
pub struct PromQLLanguage;

/// What a text reads as, given its query.
pub open spec fn promql_reading(source: Seq<char>, query: Result<QueryView, Seq<char>>) -> Result<
    PromQLAstView,
    ParseFault,
> {
    match query {
        Ok(expr) => Ok(PromQLAstView { source, expr, summary: summary::summary_of(expr) }),
        Err(m) => Err(ParseFault::Backend { language: QueryLanguage::PromQL, source_err: m }),
    }
}

impl Language for PromQLLanguage {
    open spec fn language(&self) -> QueryLanguage {
        QueryLanguage::PromQL
    }

    open spec fn reading(&self, source: Seq<char>) -> Result<PromQLAstView, ParseFault> {
        promql_reading(source, query_parser::query_in(source))
    }

    fn id(&self) -> (r: QueryLanguage) {
        QueryLanguage::PromQL
    }

    fn parse(&self, source: &str) -> (r: Result<LanguageAst, ParseError>) {
        match parse_query_expr(source) {
            Err(m) => Err(ParseError::backend(QueryLanguage::PromQL, m)),
            Ok(expr) => {
                let sum = summary::qe_to_parsed_query(&expr);
                Ok(LanguageAst::PromQL(PromQLAst::new(source.to_owned(), expr, sum)))
            },
        }
    }
}

/// SQL, for which there is no parser behind this interface.
#[derive(Debug, Default, Clone, Copy)]
pub struct SqlLanguage;

impl Language for SqlLanguage {
    open spec fn language(&self) -> QueryLanguage {
        QueryLanguage::Sql
    }

    open spec fn reading(&self, source: Seq<char>) -> Result<PromQLAstView, ParseFault> {
        Err(ParseFault::Unimplemented("SQL parser not implemented in DC deployment mode"@))
    }

    fn id(&self) -> (r: QueryLanguage) {
        QueryLanguage::Sql
    }

    fn parse(&self, source: &str) -> (r: Result<LanguageAst, ParseError>) {
        Err(ParseError::Unimplemented("SQL parser not implemented in DC deployment mode"))
    }
}

/// Elasticsearch DSL, for which there is no parser.
#[derive(Debug, Default, Clone, Copy)]
pub struct ElasticDslLanguage;

impl Language for ElasticDslLanguage {
    open spec fn language(&self) -> QueryLanguage {
        QueryLanguage::ElasticDsl
    }

    open spec fn reading(&self, source: Seq<char>) -> Result<PromQLAstView, ParseFault> {
        Err(ParseFault::Unimplemented("ElasticDSL parser not implemented in DC deployment mode"@))
    }

    fn id(&self) -> (r: QueryLanguage) {
        QueryLanguage::ElasticDsl
    }

    fn parse(&self, source: &str) -> (r: Result<LanguageAst, ParseError>) {
        Err(ParseError::Unimplemented("ElasticDSL parser not implemented in DC deployment mode"))
    }
}

/// DataFusion plans, for which there is no parser.
#[derive(Debug, Default, Clone, Copy)]
pub struct DataFusionLanguage;

impl Language for DataFusionLanguage {
    open spec fn language(&self) -> QueryLanguage {
        QueryLanguage::DataFusion
    }

    open spec fn reading(&self, source: Seq<char>) -> Result<PromQLAstView, ParseFault> {
        Err(ParseFault::Unimplemented("DataFusion parser not implemented in DC deployment mode"@))
    }

    fn id(&self) -> (r: QueryLanguage) {
        QueryLanguage::DataFusion
    }

    fn parse(&self, source: &str) -> (r: Result<LanguageAst, ParseError>) {
        Err(ParseError::Unimplemented("DataFusion parser not implemented in DC deployment mode"))
    }
}

} // verus!
