//! The query compiler: a closed choice of matching strategy plus the raw
//! query text give one executable query plan over the cell value field.
use vstd::prelude::*;
use vstd::string::StringExecFns;

verus! {

/// Matching strategy selected by a search request.
#[derive(Clone, Copy, Debug, PartialEq, Eq, Structural)]
pub enum QueryType {
    TermQuery,
    RegexQuery,
    FuzzySearch,
    QueryParser,
}

/// Edit distance allowed by a fuzzy query.
pub const FUZZY_DISTANCE: u8 = 2;

/// A compiled query, run against the cell value field.
#[derive(Debug)]
pub enum QueryPlan {
    /// Exact match of one term.
    Term { text: String },
    /// Regular expression matched against whole terms.
    Regex { pattern: String },
    /// Terms within `distance` edits of `text`.
    Fuzzy { text: String, distance: u8, transpositions: bool },
    /// A boolean or phrase expression for the query language parser.
    Parsed { text: String },
}

/// Case-insensitive prefix pattern for `q`.
pub open spec fn prefix_pattern(q: Seq<char>) -> Seq<char> {
    "(?i)"@ + q + ".*"@
}

/// The plan that `query_type` selects for the query text `q`.
pub open spec fn plan_matches(plan: QueryPlan, q: Seq<char>, query_type: QueryType) -> bool {
    match query_type {
        QueryType::TermQuery => plan matches QueryPlan::Term { text } && text@ == q,
        QueryType::RegexQuery => plan matches QueryPlan::Regex { pattern } && pattern@
            == prefix_pattern(q),
        QueryType::FuzzySearch => plan matches QueryPlan::Fuzzy { text, distance, transpositions }
            && text@ == q && distance == FUZZY_DISTANCE && transpositions,
        QueryType::QueryParser => plan matches QueryPlan::Parsed { text } && text@ == q,
    }
}

/// Compiles `q` with the strategy that `query_type` selects.
pub fn compile_query(q: &str, query_type: QueryType) -> (r: QueryPlan)
    ensures
        plan_matches(r, q@, query_type),
{
    match query_type {
        QueryType::TermQuery => QueryPlan::Term { text: String::from_str(q) },
        QueryType::RegexQuery => {
            let mut pattern = String::from_str("(?i)");
            pattern.append(q);
            pattern.append(".*");
            QueryPlan::Regex { pattern }
        },
        QueryType::FuzzySearch => QueryPlan::Fuzzy {
            text: String::from_str(q),
            distance: FUZZY_DISTANCE,
            transpositions: true,
        },
        QueryType::QueryParser => QueryPlan::Parsed { text: String::from_str(q) },
    }
}

/// A search request: page offset, page size, query text and strategy.
pub struct SearchRequest {
    pub page: usize,
    pub per_page: usize,
    pub q: String,
    pub query_type: QueryType,
}

impl SearchRequest {
    /// The query plan of this request.
    pub fn plan(&self) -> (r: QueryPlan)
        ensures
            plan_matches(r, self.q@, self.query_type),
    {
        compile_query(self.q.as_str(), self.query_type)
    }
}

} // verus!
