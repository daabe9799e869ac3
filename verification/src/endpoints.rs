use vstd::prelude::*;
use vstd::string::*;
use crate::search::strings;
use crate::text::{decimal, decimal_text};

verus! {

/// The forum request for its newest topic (one topic, pinned topics not first, by start date).
pub fn topic_list_url(trow_api_url: &str) -> (r: String)
    ensures
        r@ == trow_api_url@ + "/board/topics?limit=1&pinned_on_top=0&order_by=start_date"@,
{
    trow_api_url.to_owned().concat("/board/topics?limit=1&pinned_on_top=0&order_by=start_date")
}

/// The forum request for a page of a hundred posts of `topic`, from `offset`.
pub fn topic_page_url(trow_api_url: &str, topic: u32, offset: u64) -> (r: String)
    ensures
        r@ == trow_api_url@ + "/board/topics/"@ + decimal(topic as nat) + "?limit=100&offset="@
            + decimal(offset as nat),
{
    trow_api_url.to_owned().concat("/board/topics/").concat(decimal_text(topic as u64).as_str()).concat(
        "?limit=100&offset=",
    ).concat(decimal_text(offset).as_str())
}

/// The search index filter that selects the documents of `topic`.
pub fn topic_filter(topic: u32) -> (r: String)
    ensures
        r@ == "tid = "@ + decimal(topic as nat),
{
    "tid = ".to_owned().concat(decimal_text(topic as u64).as_str())
}

/// The search index route that deletes the documents a filter selects.
pub fn documents_delete_url(meilisearch_url: &str) -> (r: String)
    ensures
        r@ == meilisearch_url@ + "/indexes/posts/documents/delete"@,
{
    meilisearch_url.to_owned().concat("/indexes/posts/documents/delete")
}

/// The search index route that adds documents.
pub fn documents_url(meilisearch_url: &str) -> (r: String)
    ensures
        r@ == meilisearch_url@ + "/indexes/posts/documents"@,
{
    meilisearch_url.to_owned().concat("/indexes/posts/documents")
}

/// The route of the posts index.
pub fn posts_index_url(meilisearch_url: &str) -> (r: String)
    ensures
        r@ == meilisearch_url@ + "/indexes/posts"@,
{
    meilisearch_url.to_owned().concat("/indexes/posts")
}

/// The route that creates indexes.
pub fn indexes_url(meilisearch_url: &str) -> (r: String)
    ensures
        r@ == meilisearch_url@ + "/indexes"@,
{
    meilisearch_url.to_owned().concat("/indexes")
}

/// The route of one setting of the posts index.
pub fn index_setting_url(meilisearch_url: &str, path: &str) -> (r: String)
    ensures
        r@ == meilisearch_url@ + "/indexes/posts/settings/"@ + path@,
{
    meilisearch_url.to_owned().concat("/indexes/posts/settings/").concat(path)
}

/// The search route of the posts index.
pub fn search_url(meilisearch_url: &str) -> (r: String)
    ensures
        r@ == meilisearch_url@ + "/indexes/posts/search"@,
{
    meilisearch_url.to_owned().concat("/indexes/posts/search")
}

/// The `Authorization` value for a bearer token.
pub fn bearer(token: &str) -> (r: String)
    ensures
        r@ == "Bearer "@ + token@,
{
    "Bearer ".to_owned().concat(token)
}

/// A setting of the posts index: its route name and its value, a list of strings.
pub struct IndexSetting {
    pub path: String,
    pub values: Vec<String>,
}

/// The index to create: the posts index, keyed by post id.
pub struct IndexDefinition {
    pub uid: String,
    pub primary_key: String,
}

/// The posts index: `posts`, keyed by `pid`.
pub fn posts_index_definition() -> (r: IndexDefinition)
    ensures
        r.uid@ == "posts"@,
        r.primary_key@ == "pid"@,
{
    IndexDefinition { uid: "posts".to_owned(), primary_key: "pid".to_owned() }
}

/// The settings of the posts index, in the order they are applied: posts sort by date,
/// ranking puts the sort right after word matching, and documents filter by topic.
pub fn index_settings() -> (r: Vec<IndexSetting>)
    ensures
        r@.len() == 3,
        r@[0].path@ == "sortable-attributes"@,
        strings(r@[0].values@) == seq!["post_date"@],
        r@[1].path@ == "ranking-rules"@,
        strings(r@[1].values@) == seq![
            "words"@,
            "sort"@,
            "typo"@,
            "proximity"@,
            "attribute"@,
            "exactness"@,
        ],
        r@[2].path@ == "filterable-attributes"@,
        strings(r@[2].values@) == seq!["tid"@],
{
    let sortable = vec!["post_date".to_owned()];
    let ranking = vec![
        "words".to_owned(),
        "sort".to_owned(),
        "typo".to_owned(),
        "proximity".to_owned(),
        "attribute".to_owned(),
        "exactness".to_owned(),
    ];
    let filterable = vec!["tid".to_owned()];
    assert(strings(sortable@) =~= seq!["post_date"@]);
    assert(strings(ranking@) =~= seq!["words"@, "sort"@, "typo"@, "proximity"@, "attribute"@, "exactness"@]);
    assert(strings(filterable@) =~= seq!["tid"@]);
    vec![
        IndexSetting { path: "sortable-attributes".to_owned(), values: sortable },
        IndexSetting { path: "ranking-rules".to_owned(), values: ranking },
        IndexSetting { path: "filterable-attributes".to_owned(), values: filterable },
    ]
}

} // verus!
