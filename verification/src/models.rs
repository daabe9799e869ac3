use vstd::prelude::*;

verus! {

/// What the page sends to the back end's search route.
#[derive(Debug, Clone)]
pub struct SearchRequest {
    pub q: String,
    pub page: u32,
}

/// The back end's answer to a search.
#[derive(Debug, Clone, PartialEq, Default)]
pub struct SearchResponse {
    pub hits: Vec<Hit>,
    pub query: String,
    pub processing_time_ms: u32,
    pub hits_per_page: u32,
    pub page: u32,
    pub total_pages: u32,
    pub total_hits: u32,
    pub request_uid: String,
}

/// One search result: the highlighted post, and its ranking score, kept as the bit pattern
/// of the `f64` the search engine sends (`f64::to_bits`).
#[derive(Debug, Clone, PartialEq)]
pub struct Hit {
    pub formatted: FormattedContent,
    pub ranking_score_bits: u64,
}

/// The fields of a post as the search engine highlights and crops them.
#[derive(Debug, Clone, PartialEq, Default)]
pub struct FormattedContent {
    pub pid: String,
    pub author: Author,
    pub description: String,
    pub post_date: String,
    pub post_rendered: String,
    pub tid: String,
    pub title: String,
}

/// The author of a post.
#[derive(Debug, Clone, PartialEq, Default)]
pub struct Author {
    pub id: String,
    pub name: String,
}

} // verus!
