use vstd::prelude::*;
use vstd::string::*;
use crate::text::{chars_of, split_words, string_of, words};

verus! {

/// `w` between double quotes.
pub open spec fn quoted(w: Seq<char>) -> Seq<char> {
    seq!['"'] + w + seq!['"']
}

/// The words `ws`, each between double quotes, joined by single spaces.
pub open spec fn quoted_phrases(ws: Seq<Seq<char>>) -> Seq<char>
    decreases ws.len(),
{
    if ws.len() == 0 {
        seq![]
    } else if ws.len() == 1 {
        quoted(ws[0])
    } else {
        quoted_phrases(ws.drop_last()) + seq![' '] + quoted(ws.last())
    }
}

/// The search engine query for what a user typed: every whitespace-separated word becomes
/// an exact phrase (`"word"`), in order, separated by single spaces.
pub fn phrase_query(q: &str) -> (r: String)
    ensures
        r@ == quoted_phrases(words(q@)),
{
    let chars = chars_of(q);
    let ws = split_words(&chars);
    let ghost wv = ws@.map_values(|w: Vec<char>| w@);
    let n = ws.len();
    let mut out: Vec<char> = Vec::new();
    let mut i: usize = 0;
    while i < n
        invariant
            n == ws.len(),
            i <= n,
            wv == ws@.map_values(|w: Vec<char>| w@),
            out@ == quoted_phrases(wv.take(i as int)),
        decreases n - i,
    {
        let ghost before = out@;
        if i > 0 {
            out.push(' ');
        }
        out.push('"');
        let w = &ws[i];
        let m = w.len();
        let mut k: usize = 0;
        while k < m
            invariant
                m == w.len(),
                k <= m,
                out@ == (if i > 0 { before + seq![' '] } else { before }) + seq!['"'] + w@.take(k as int),
            decreases m - k,
        {
            out.push(w[k]);
            assert(w@.take(k + 1) == w@.take(k as int).push(w@[k as int]));
            k = k + 1;
        }
        out.push('"');
        proof {
            assert(w@.take(m as int) == w@);
            assert(wv[i as int] == w@);
            let t = wv.take(i + 1);
            assert(t.drop_last() == wv.take(i as int));
            assert(t.last() == w@);
            if i == 0 {
                assert(wv.take(0).len() == 0);
                assert(before.len() == 0);
                assert(out@ == quoted(w@));
            } else {
                assert(out@ == before + seq![' '] + quoted(w@));
            }
        }
        i = i + 1;
    }
    assert(wv.take(n as int) == wv);
    string_of(&out)
}

/// The view of a vector of strings.
pub open spec fn strings(v: Seq<String>) -> Seq<Seq<char>> {
    v.map_values(|s: String| s@)
}

/// The body of a search request to the search engine.
pub struct MeiliSearchRequest {
    pub q: String,
    pub hits_per_page: u32,
    pub page: u32,
    pub attributes_to_search_on: Vec<String>,
    pub attributes_to_retrieve: Vec<String>,
    pub attributes_to_crop: Vec<String>,
    pub crop_length: u32,
    pub attributes_to_highlight: Vec<String>,
    pub show_ranking_score: bool,
    pub sort: Vec<String>,
}

/// The search engine request for a client's query and page: the query as exact phrases,
/// ten hits per page, searching title, description and post text, retrieving the formatted
/// hit, cropping the post text to a hundred words, highlighting every attribute, with the
/// ranking score, newest posts first.
pub fn meili_search_request(q: &str, page: u32) -> (r: MeiliSearchRequest)
    ensures
        r.q@ == quoted_phrases(words(q@)),
        r.hits_per_page == 10,
        r.page == page,
        strings(r.attributes_to_search_on@) == seq!["title"@, "description"@, "post_rendered"@],
        strings(r.attributes_to_retrieve@) == seq!["_formatted"@],
        strings(r.attributes_to_crop@) == seq!["post_rendered"@],
        r.crop_length == 100,
        strings(r.attributes_to_highlight@) == seq!["*"@],
        r.show_ranking_score,
        strings(r.sort@) == seq!["post_date:desc"@],
{
    let attributes_to_search_on = vec!["title".to_owned(), "description".to_owned(), "post_rendered".to_owned()];
    let attributes_to_retrieve = vec!["_formatted".to_owned()];
    let attributes_to_crop = vec!["post_rendered".to_owned()];
    let attributes_to_highlight = vec!["*".to_owned()];
    let sort = vec!["post_date:desc".to_owned()];
    assert(strings(attributes_to_search_on@) =~= seq!["title"@, "description"@, "post_rendered"@]);
    assert(strings(attributes_to_retrieve@) =~= seq!["_formatted"@]);
    assert(strings(attributes_to_crop@) =~= seq!["post_rendered"@]);
    assert(strings(attributes_to_highlight@) =~= seq!["*"@]);
    assert(strings(sort@) =~= seq!["post_date:desc"@]);
    MeiliSearchRequest {
        q: phrase_query(q),
        hits_per_page: 10,
        page,
        attributes_to_search_on,
        attributes_to_retrieve,
        attributes_to_crop,
        crop_length: 100,
        attributes_to_highlight,
        show_ranking_score: true,
        sort,
    }
}

/// Whether an `Authorization` header admits a request to the admin routes: it must read
/// exactly `Bearer ` followed by the admin token.
pub fn is_authorized(auth_header: Option<&str>, admin_token: &str) -> (r: bool)
    ensures
        r == (auth_header matches Some(h) && h@ == "Bearer "@ + admin_token@),
{
    match auth_header {
        Some(h) => {
            let expected = "Bearer ".to_owned().concat(admin_token);
            let given = h.to_owned();
            given == expected
        },
        None => false,
    }
}

} // verus!
