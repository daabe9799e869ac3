use topos::config_dev;
use topos::config_prod;
use topos::home_page::{home_initial_state, home_page, home_view, HomeEvent, HomePageState, RetryReply, SearchReply};
use topos::models::{Author, FormattedContent, Hit, SearchRequest, SearchResponse};
use topos::page_events::PageEffect;
use topos::page_text::{
    author_link, clamp_page_number, display_hits, found_results_label, page_from_url, page_label,
    post_date_display, results_label, search_route, topic_link,
};
use topos::search_view::{search_view_view, view_initial_state, search_view, ViewEvent, ViewReply};

fn hit(pid: &str) -> Hit {
    Hit {
        formatted: FormattedContent { pid: pid.to_string(), ..Default::default() },
        ranking_score_bits: 0.5f64.to_bits(),
    }
}

fn response(hits: Vec<Hit>, total_hits: u32, total_pages: u32) -> SearchResponse {
    SearchResponse { hits, total_hits, total_pages, ..Default::default() }
}

#[test]
fn labels() {
    assert_eq!(display_hits(999), "999");
    assert_eq!(display_hits(1000), "1000+");
    assert_eq!(results_label(1), "Found 1 result");
    assert_eq!(results_label(2), "Found 2 results");
    assert_eq!(results_label(5000), "Found 1000+ results");
    assert_eq!(found_results_label(1), "Found 1 results");
    assert_eq!(page_label(2, 7), "2 / 7");
    let f = FormattedContent { pid: "55".into(), tid: "9".into(), author: Author { id: "3".into(), name: "n".into() }, ..Default::default() };
    assert_eq!(topic_link(&f), "https://trow.cc/board/showtopic=9&view=findpost&p=55");
    assert_eq!(author_link(&f.author), "https://trow.cc/board/showuser=3");
    assert_eq!(search_route(config_dev::env().backend_url), "http://127.0.0.1:3000/search");
    assert_eq!(config_prod::env().backend_url, "https://topos.locene.com/api");
    let r = SearchRequest { q: "x".into(), page: 1 };
    assert_eq!(r.clone().page, 1);
}

#[test]
fn pages_from_the_address_bar() {
    assert_eq!(page_from_url(None), 1);
    assert_eq!(page_from_url(Some("4")), 4);
    assert_eq!(page_from_url(Some("0")), 1);
    assert_eq!(page_from_url(Some("x")), 1);
    assert_eq!(clamp_page_number(0, 0), 1);
    assert_eq!(clamp_page_number(9, 4), 4);
    assert_eq!(clamp_page_number(9, 0), 9);
}

fn search(s: HomePageState, page: u32, input: &str) -> (HomePageState, Vec<PageEffect>) {
    home_page(s, HomeEvent::Search { page, input: input.to_string() })
}

#[test]
fn home_page_search_flow() {
    let s = home_initial_state();
    assert_eq!(s.placeholder, "Search...");
    // A blank query prompts.
    let (s, fx) = search(s, 1, "   ");
    assert_eq!(s.placeholder, "Type something to search");
    assert!(matches!(fx.as_slice(), [PageEffect::ScheduleReset]));
    let (s, fx) = home_page(s, HomeEvent::InputChanged);
    assert_eq!(s.placeholder, "Search...");
    assert!(matches!(fx.as_slice(), [PageEffect::CancelReset]));
    // A real query is sent with a new number.
    let (s, fx) = search(s, 1, "rust");
    assert!(s.loading && s.searched);
    assert!(matches!(fx.as_slice(), [PageEffect::SendSearch { serial: 1, q, page: 1 }] if q == "rust"));
    let v = home_view(&s);
    assert_eq!(v.status_message, "Searching...");
    assert!(v.show_spinner && v.input_disabled);
    let (s, fx) = home_page(s, HomeEvent::Reply {
        serial: 1, q: "rust".into(), page: 1,
        reply: SearchReply::Data(response(vec![hit("1"), hit("2")], 25, 3)),
    });
    assert!(!s.loading);
    assert_eq!((s.current_page, s.total_pages, s.total_hits, s.results.len()), (1, 3, 25, 2));
    assert!(matches!(fx.as_slice(), [PageEffect::ScrollToTop, PageEffect::SetUrlParams { q, page: 1 }] if q == "rust"));
    let v = home_view(&s);
    assert_eq!(v.status_message, "Found 25 results");
    assert!(v.show_results && v.show_pagination && !v.has_prev && v.has_next);
    assert_eq!(v.page_line, "1 / 3");
    // Next page; a page past the end is clamped before sending.
    let (s, fx) = home_page(s, HomeEvent::NextPage { input: "rust".into() });
    assert!(matches!(fx.as_slice(), [PageEffect::SendSearch { serial: 2, page: 2, .. }]));
    // A reply to an older search only stops the spinner.
    let (s, fx) = home_page(s, HomeEvent::Reply { serial: 1, q: "rust".into(), page: 1, reply: SearchReply::Failed });
    assert!(!s.loading && fx.is_empty() && s.error.is_none());
    assert_eq!(s.results.len(), 2);
    let (s, _) = search(s, 99, "rust");
    assert_eq!(s.request_serial, 3);
    // Errors clear the results.
    let (e1, _) = home_page(clone_state(&s), HomeEvent::Reply { serial: 3, q: "rust".into(), page: 3, reply: SearchReply::Unreachable });
    assert_eq!(e1.error.as_deref(), Some("Can't connect. Check your connection."));
    assert!(e1.results.is_empty() && e1.total_hits == 0 && e1.total_pages == 0);
    let (e2, _) = home_page(clone_state(&s), HomeEvent::Reply { serial: 3, q: "rust".into(), page: 3, reply: SearchReply::Failed });
    assert_eq!(e2.error.as_deref(), Some("Search failed. Try again."));
    let (e3, _) = home_page(clone_state(&s), HomeEvent::Reply { serial: 3, q: "rust".into(), page: 3, reply: SearchReply::Unreadable });
    assert_eq!(e3.error.as_deref(), Some("Got an unexpected response. Try again."));
    // The results shrank to two pages: page 3 is asked for again as page 2.
    let first = response(vec![], 12, 2);
    let (s, fx) = home_page(s, HomeEvent::Reply { serial: 3, q: "rust".into(), page: 3, reply: SearchReply::Data(first.clone()) });
    assert!(s.loading);
    assert!(matches!(fx.as_slice(), [PageEffect::SendRetry { serial: 3, page: 2, .. }]));
    let (s, fx) = home_page(s, HomeEvent::RetryReply {
        serial: 3, q: "rust".into(), page: 2, first,
        retry: RetryReply::Received(Some(response(vec![hit("9")], 12, 2))),
    });
    assert_eq!((s.current_page, s.results.len(), s.loading), (2, 1, false));
    assert!(matches!(fx.as_slice(), [PageEffect::ScrollToTop, PageEffect::SetUrlParams { page: 2, .. }]));
    // The logo resets everything.
    let (s, fx) = home_page(s, HomeEvent::HomeClicked);
    assert!(!s.searched && s.results.is_empty() && s.current_page == 1 && s.query.is_empty());
    assert_eq!(s.request_serial, 4);
    assert_eq!(fx.len(), 5);
    assert_eq!(home_view(&s).status_message, "");
}

fn clone_state(s: &HomePageState) -> HomePageState {
    HomePageState {
        results: s.results.clone(),
        total_hits: s.total_hits,
        total_pages: s.total_pages,
        query: s.query.clone(),
        searched: s.searched,
        placeholder: s.placeholder.clone(),
        reset_pending: s.reset_pending,
        current_page: s.current_page,
        loading: s.loading,
        error: s.error.clone(),
        request_serial: s.request_serial,
    }
}

#[test]
fn home_page_keys_and_address_bar() {
    let s = home_initial_state();
    let (s, fx) = home_page(s, HomeEvent::Mounted { query_param: Some("verus".into()), page_param: Some("3".into()) });
    assert!(matches!(fx.as_slice(), [PageEffect::SetInput(q), PageEffect::SendSearch { page: 3, .. }] if q == "verus"));
    let (s, fx) = home_page(s, HomeEvent::KeyDown { key: "Enter".into(), input: "verus".into() });
    // Enter does nothing while a search runs.
    assert!(fx.is_empty());
    let (s, fx) = home_page(s, HomeEvent::KeyDown { key: "Escape".into(), input: "verus".into() });
    assert!(matches!(fx.as_slice(), [PageEffect::PreventDefault, PageEffect::SetInput(t)] if t.is_empty()));
    let (_, fx) = home_page(home_initial_state(), HomeEvent::Mounted { query_param: None, page_param: None });
    assert!(matches!(fx.as_slice(), [PageEffect::FocusInput]));
    let (_, fx) = home_page(s, HomeEvent::PrevPage { input: "x".into() });
    assert!(fx.is_empty());
}

#[test]
fn search_view_flow() {
    let s = view_initial_state();
    assert_eq!(s.placeholder, "Enter search query");
    let (s, fx) = search_view(s, ViewEvent::Search { page: 1, input: "".into() });
    assert_eq!(s.placeholder, "Please enter a search query");
    assert!(matches!(fx.as_slice(), [PageEffect::ScheduleReset]));
    let (s, _) = search_view(s, ViewEvent::PlaceholderTimerFired);
    assert_eq!(s.placeholder, "Enter search query");
    let (s, fx) = search_view(s, ViewEvent::Search { page: 1, input: "a b".into() });
    assert!(matches!(fx.as_slice(), [PageEffect::SendSearch { page: 1, q, .. }] if q == "a b"));
    let (s, _) = search_view(s, ViewEvent::Reply(ViewReply::Received(Some(response(vec![hit("1")], 1, 2)))));
    let v = search_view_view(&s);
    assert!(v.show_results && v.show_pagination && v.has_next && !v.has_prev);
    assert_eq!(v.results_line, "Found 1 results");
    let (s, fx) = search_view(s, ViewEvent::NextPage { input: "a b".into() });
    assert!(matches!(fx.as_slice(), [PageEffect::SendSearch { page: 2, .. }]));
    assert_eq!(s.current_page, 2);
    let (s, fx) = search_view(s, ViewEvent::Reply(ViewReply::SendFailed("offline".into())));
    assert!(!s.loading);
    assert!(matches!(fx.as_slice(), [PageEffect::LogFetchError(t)] if t == "offline"));
    let (s, _) = search_view(s, ViewEvent::Reply(ViewReply::Received(Some(response(vec![], 0, 0)))));
    assert!(search_view_view(&s).show_no_results);
    let (s, fx) = search_view(s, ViewEvent::HomeClicked);
    assert!(!s.searched && s.current_page == 1);
    assert!(matches!(fx.as_slice(), [PageEffect::SetInput(t)] if t.is_empty()));
}

#[test]
fn home_click_outdates_the_running_search() {
    let (s, _) = search(home_initial_state(), 1, "rust");
    let serial = s.request_serial;
    let (s, _) = home_page(s, HomeEvent::HomeClicked);
    let (s, fx) = home_page(s, HomeEvent::Reply {
        serial, q: "rust".into(), page: 1,
        reply: SearchReply::Data(response(vec![hit("1")], 1, 1)),
    });
    assert!(fx.is_empty());
    assert!(s.results.is_empty() && !s.searched && s.total_hits == 0);
}

#[test]
fn no_results_lines() {
    let (s, _) = search_view(view_initial_state(), ViewEvent::Search { page: 1, input: "zzz".into() });
    let (s, _) = search_view(s, ViewEvent::Reply(ViewReply::Received(Some(response(vec![], 0, 0)))));
    let v = search_view_view(&s);
    assert!(v.show_no_results && !v.show_results);
    assert_eq!(v.no_results_line, "No results found");
    let (s, _) = search(home_initial_state(), 1, "zzz");
    let (s, _) = home_page(s, HomeEvent::Reply {
        serial: 1, q: "zzz".into(), page: 1,
        reply: SearchReply::Data(response(vec![], 0, 0)),
    });
    let v = home_view(&s);
    assert!(v.show_no_results);
    assert_eq!(v.no_results_line, "No results");
    assert_eq!(v.status_message, "No results");
}

#[test]
fn post_date_falls_back_to_the_stored_text() {
    assert_eq!(
        post_date_display("2024-01-02 03:04:05 UTC", Some("2024-01-02 11:04:05".to_string())),
        "2024-01-02 11:04:05"
    );
    assert_eq!(post_date_display("yesterday", None), "yesterday");
}
