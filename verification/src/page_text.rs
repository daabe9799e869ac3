use vstd::prelude::*;
use vstd::string::*;
use crate::models::{Author, FormattedContent};
use crate::text::{decimal, decimal_text, parse_u32, parse_u32_text};

verus! {

/// The hit count as shown: `1000+` from a thousand on, the number otherwise.
pub open spec fn hits_text(total_hits: u32) -> Seq<char> {
    if total_hits >= 1000 {
        "1000+"@
    } else {
        decimal(total_hits as nat)
    }
}

/// The hit count as shown on a results page.
pub fn display_hits(total_hits: u32) -> (r: String)
    ensures
        r@ == hits_text(total_hits),
{
    if total_hits >= 1000 {
        "1000+".to_owned()
    } else {
        decimal_text(total_hits as u64)
    }
}

/// `Found <n> results`, with the count as shown.
pub open spec fn found_text(total_hits: u32) -> Seq<char> {
    "Found "@ + hits_text(total_hits) + " results"@
}

/// The results line of the search view: `Found <n> results`.
pub fn found_results_label(total_hits: u32) -> (r: String)
    ensures
        r@ == found_text(total_hits),
{
    "Found ".to_owned().concat(display_hits(total_hits).as_str()).concat(" results")
}

/// The results line of the home page: `Found 1 result` for a single hit,
/// `Found <n> results` otherwise.
pub open spec fn results_text(total_hits: u32) -> Seq<char> {
    if total_hits == 1 {
        "Found 1 result"@
    } else {
        found_text(total_hits)
    }
}

/// The results line of the home page.
pub fn results_label(total_hits: u32) -> (r: String)
    ensures
        r@ == results_text(total_hits),
{
    if total_hits == 1 {
        "Found 1 result".to_owned()
    } else {
        found_results_label(total_hits)
    }
}

/// The page indicator: `<current> / <total>`.
pub fn page_label(current_page: u32, total_pages: u32) -> (r: String)
    ensures
        r@ == decimal(current_page as nat) + " / "@ + decimal(total_pages as nat),
{
    decimal_text(current_page as u64).concat(" / ").concat(decimal_text(total_pages as u64).as_str())
}

/// The forum link to a post within its topic.
pub fn topic_link(f: &FormattedContent) -> (r: String)
    ensures
        r@ == "https://trow.cc/board/showtopic="@ + f.tid@ + "&view=findpost&p="@ + f.pid@,
{
    "https://trow.cc/board/showtopic=".to_owned().concat(f.tid.as_str()).concat(
        "&view=findpost&p=",
    ).concat(f.pid.as_str())
}

/// The forum link to an author's profile.
pub fn author_link(a: &Author) -> (r: String)
    ensures
        r@ == "https://trow.cc/board/showuser="@ + a.id@,
{
    "https://trow.cc/board/showuser=".to_owned().concat(a.id.as_str())
}

/// The date shown for a post: the date in local time where the stored text could be read
/// as a UTC time (`local`), else the stored text as it is.
pub fn post_date_display(post_date: &str, local: Option<String>) -> (r: String)
    ensures
        r@ == match local {
            Some(l) => l@,
            None => post_date@,
        },
{
    match local {
        Some(l) => l,
        None => post_date.to_owned(),
    }
}

/// The back end's search route.
pub fn search_route(backend_url: &str) -> (r: String)
    ensures
        r@ == backend_url@ + "/search"@,
{
    backend_url.to_owned().concat("/search")
}

/// The page asked for, kept within the results: at least 1, and at most the number of
/// pages when that is known (not 0).
pub open spec fn clamp_page(page: u32, total_pages: u32) -> u32 {
    let p: u32 = if page < 1 { 1 } else { page };
    if total_pages > 0 && p > total_pages {
        total_pages
    } else {
        p
    }
}

/// The page to open from the address bar's `p` parameter: its number when it is one,
/// 1 otherwise, and never below 1.
pub open spec fn url_page(p: Option<Seq<char>>) -> u32 {
    let n: u32 = match p {
        Some(t) => match parse_u32(t) {
            Some(v) => v,
            None => 1,
        },
        None => 1,
    };
    if n < 1 { 1 } else { n }
}

/// The page to open from the address bar's `p` parameter.
pub fn page_from_url(p: Option<&str>) -> (r: u32)
    ensures
        r == url_page(match p { Some(t) => Some(t@), None => None }),
{
    let n: u32 = match p {
        Some(t) => match parse_u32_text(t) {
            Some(v) => v,
            None => 1,
        },
        None => 1,
    };
    if n < 1 { 1 } else { n }
}

} // verus!

verus! {

/// The page asked for, kept within the results (see `clamp_page`).
pub fn clamp_page_number(page: u32, total_pages: u32) -> (r: u32)
    ensures
        r == clamp_page(page, total_pages),
{
    let p: u32 = if page < 1 { 1 } else { page };
    if total_pages > 0 && p > total_pages {
        total_pages
    } else {
        p
    }
}

} // verus!
