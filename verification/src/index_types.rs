//! Workspace index: search options and index statistics.

use vstd::prelude::*;

verus! {

/// Options of an index-backed workspace search.
#[derive(Debug, Clone, PartialEq)]
pub struct SearchOptions {
    /// Case sensitive search.
    pub case_sensitive: bool,
    /// Whole word matching.
    pub whole_word: bool,
    /// Use regex patterns.
    pub use_regex: bool,
    /// File include patterns.
    pub include_patterns: Vec<String>,
    /// File exclude patterns.
    pub exclude_patterns: Vec<String>,
    /// Maximum number of results.
    pub max_results: usize,
    /// Search context lines.
    pub context_lines: usize,
}

impl Default for SearchOptions {
    /// The stock search: case-insensitive plain text over everything but
    /// build outputs and VCS data, capped at 1000 results.
    fn default() -> (r: Self)
        ensures
            r.case_sensitive == false,
            r.whole_word == false,
            r.use_regex == false,
            r.include_patterns@.len() == 1 && r.include_patterns@[0]@ == "*"@,
            r.exclude_patterns@.len() == 4,
            r.exclude_patterns@[0]@ == "*.git/*"@,
            r.exclude_patterns@[1]@ == "*node_modules/*"@,
            r.exclude_patterns@[2]@ == "*target/*"@,
            r.exclude_patterns@[3]@ == "*.log"@,
            r.max_results == 1000,
            r.context_lines == 0,
    {
        SearchOptions {
            case_sensitive: false,
            whole_word: false,
            use_regex: false,
            include_patterns: vec!["*".to_owned()],
            exclude_patterns: vec![
                "*.git/*".to_owned(),
                "*node_modules/*".to_owned(),
                "*target/*".to_owned(),
                "*.log".to_owned(),
            ],
            max_results: 1000,
            context_lines: 0,
        }
    }
}

/// Statistics of the on-disk index.
#[derive(Debug, Clone, PartialEq)]
pub struct IndexStats {
    pub num_documents: u64,
    pub index_size_bytes: u64,
    /// When the index was last updated, in milliseconds since the epoch.
    pub last_updated: Option<u64>,
}

} // verus!
