use vstd::prelude::*;
use crate::models::{Hit, SearchResponse};
use crate::page_events::{
    no_page_effects, page_effect, page_effects, prepend_page_effect, push_page_effect, PageEffect,
    PageEffectView,
};
use crate::page_text::{clamp_page, page_from_url, url_page};
use crate::text::{is_blank, is_blank_text};

verus! {

/// What the home page shows and remembers.
pub struct HomePageState {
    pub results: Vec<Hit>,
    pub total_hits: u32,
    pub total_pages: u32,
    pub query: String,
    pub searched: bool,
    pub placeholder: String,
    /// Whether a timer to put the placeholder back is pending.
    pub reset_pending: bool,
    pub current_page: u32,
    pub loading: bool,
    pub error: Option<String>,
    /// The number of the latest search; replies to older ones are ignored.
    pub request_serial: u32,
}

pub struct HomePageStateView {
    pub results: Seq<Hit>,
    pub total_hits: u32,
    pub total_pages: u32,
    pub query: Seq<char>,
    pub searched: bool,
    pub placeholder: Seq<char>,
    pub reset_pending: bool,
    pub current_page: u32,
    pub loading: bool,
    pub error: Option<Seq<char>>,
    pub request_serial: u32,
}

pub open spec fn opt_view(s: Option<String>) -> Option<Seq<char>> {
    match s {
        Some(t) => Some(t@),
        None => None,
    }
}

impl View for HomePageState {
    type V = HomePageStateView;

    open spec fn view(&self) -> HomePageStateView {
        HomePageStateView {
            results: self.results@,
            total_hits: self.total_hits,
            total_pages: self.total_pages,
            query: self.query@,
            searched: self.searched,
            placeholder: self.placeholder@,
            reset_pending: self.reset_pending,
            current_page: self.current_page,
            loading: self.loading,
            error: opt_view(self.error),
            request_serial: self.request_serial,
        }
    }
}

/// The outcome of a search request.
pub enum SearchReply {
    /// The request could not be sent.
    Unreachable,
    /// The back end answered with an error status.
    Failed,
    /// The answer could not be read as search results.
    Unreadable,
    /// The search results.
    Data(SearchResponse),
}

/// The outcome of the request that asks again for the last page.
pub enum RetryReply {
    /// The request could not be sent.
    Unsent,
    /// The answer, read as search results when it could be.
    Received(Option<SearchResponse>),
}

/// What happens on the home page.
pub enum HomeEvent {
    /// The page opened, with the address bar's `q` and `p` parameters.
    Mounted { query_param: Option<String>, page_param: Option<String> },
    /// The logo was clicked.
    HomeClicked,
    /// A search for `page` was asked for (search button: page 1), the box holding `input`.
    Search { page: u32, input: String },
    /// A key was pressed in the search box.
    KeyDown { key: String, input: String },
    /// The search box was edited.
    InputChanged,
    /// The previous-page button was clicked.
    PrevPage { input: String },
    /// The next-page button was clicked.
    NextPage { input: String },
    /// The placeholder timer went off.
    PlaceholderTimerFired,
    /// The answer to search number `serial`, for `q` and `page`.
    Reply { serial: u32, q: String, page: u32, reply: SearchReply },
    /// The answer to the repeated request of search number `serial` for the last page `page`.
    RetryReply { serial: u32, q: String, page: u32, first: SearchResponse, retry: RetryReply },
}

pub enum HomeEventView {
    Mounted { query_param: Option<Seq<char>>, page_param: Option<Seq<char>> },
    HomeClicked,
    Search { page: u32, input: Seq<char> },
    KeyDown { key: Seq<char>, input: Seq<char> },
    InputChanged,
    PrevPage { input: Seq<char> },
    NextPage { input: Seq<char> },
    PlaceholderTimerFired,
    Reply { serial: u32, q: Seq<char>, page: u32, reply: SearchReply },
    RetryReply { serial: u32, q: Seq<char>, page: u32, first: SearchResponse, retry: RetryReply },
}

impl View for HomeEvent {
    type V = HomeEventView;

    open spec fn view(&self) -> HomeEventView {
        match self {
            HomeEvent::Mounted { query_param, page_param } => HomeEventView::Mounted {
                query_param: opt_view(*query_param),
                page_param: opt_view(*page_param),
            },
            HomeEvent::HomeClicked => HomeEventView::HomeClicked,
            HomeEvent::Search { page, input } => HomeEventView::Search { page: *page, input: input@ },
            HomeEvent::KeyDown { key, input } => HomeEventView::KeyDown { key: key@, input: input@ },
            HomeEvent::InputChanged => HomeEventView::InputChanged,
            HomeEvent::PrevPage { input } => HomeEventView::PrevPage { input: input@ },
            HomeEvent::NextPage { input } => HomeEventView::NextPage { input: input@ },
            HomeEvent::PlaceholderTimerFired => HomeEventView::PlaceholderTimerFired,
            HomeEvent::Reply { serial, q, page, reply } => HomeEventView::Reply {
                serial: *serial,
                q: q@,
                page: *page,
                reply: *reply,
            },
            HomeEvent::RetryReply { serial, q, page, first, retry } => HomeEventView::RetryReply {
                serial: *serial,
                q: q@,
                page: *page,
                first: *first,
                retry: *retry,
            },
        }
    }
}

/// The placeholder of the search box.
pub open spec fn home_placeholder() -> Seq<char> {
    "Search..."@
}

/// The placeholder shown after a search with nothing to search for.
pub open spec fn home_prompt() -> Seq<char> {
    "Type something to search"@
}

pub open spec fn connect_error() -> Seq<char> {
    "Can't connect. Check your connection."@
}

pub open spec fn failed_error() -> Seq<char> {
    "Search failed. Try again."@
}

pub open spec fn unexpected_error() -> Seq<char> {
    "Got an unexpected response. Try again."@
}

/// The home page when it opens.
pub open spec fn home_initial() -> HomePageStateView {
    HomePageStateView {
        results: seq![],
        total_hits: 0,
        total_pages: 0,
        query: seq![],
        searched: false,
        placeholder: home_placeholder(),
        reset_pending: false,
        current_page: 1,
        loading: false,
        error: None,
        request_serial: 0,
    }
}

pub type HomeStepView = (HomePageStateView, Seq<PageEffectView>);

/// Whether the state is one the page can be in: the current page is at least 1.
pub open spec fn home_wf(s: HomePageStateView) -> bool {
    s.current_page >= 1
}

/// A search for `page` with `input` in the box: with nothing but blanks the placeholder
/// prompts for a query for three seconds; otherwise the page is kept within the known
/// results, a new search number is taken, and the request is sent.
pub open spec fn home_search(s: HomePageStateView, page: u32, input: Seq<char>) -> HomeStepView {
    if is_blank(input) {
        (
            HomePageStateView { placeholder: home_prompt(), reset_pending: true, ..s },
            seq![PageEffectView::ScheduleReset],
        )
    } else {
        let serial = s.request_serial.wrapping_add(1);
        (
            HomePageStateView {
                error: None,
                request_serial: serial,
                loading: true,
                searched: true,
                query: input,
                ..s
            },
            seq![
                PageEffectView::SendSearch {
                    serial,
                    q: input,
                    page: clamp_page(page, s.total_pages),
                },
            ],
        )
    }
}

/// Showing page `page` of the results `d` for `q`.
pub open spec fn home_show(s: HomePageStateView, q: Seq<char>, page: u32, d: SearchResponse) -> HomeStepView {
    (
        HomePageStateView {
            current_page: page,
            total_hits: d.total_hits,
            total_pages: d.total_pages,
            results: d.hits@,
            loading: false,
            ..s
        },
        seq![PageEffectView::ScrollToTop, PageEffectView::SetUrlParams { q, page }],
    )
}

/// A failed search: the results are cleared and the error shown.
pub open spec fn home_failure(s: HomePageStateView, message: Seq<char>) -> HomeStepView {
    (
        HomePageStateView {
            results: seq![],
            total_hits: 0,
            total_pages: 0,
            error: Some(message),
            loading: false,
            ..s
        },
        seq![],
    )
}

/// A reply to a search that is no longer the latest: only the spinner stops.
pub open spec fn home_stale(s: HomePageStateView) -> HomeStepView {
    (HomePageStateView { loading: false, ..s }, seq![])
}

/// The transitions of the home page.
pub open spec fn home_next(s: HomePageStateView, e: HomeEventView) -> HomeStepView {
    match e {
        HomeEventView::Mounted { query_param, page_param } => {
            let text = match query_param {
                Some(t) => t,
                None => seq![],
            };
            if !is_blank(text) {
                let r = home_search(s, url_page(page_param), text);
                (r.0, seq![PageEffectView::SetInput(text)] + r.1)
            } else {
                (s, seq![PageEffectView::FocusInput])
            }
        },
        HomeEventView::HomeClicked => (
            HomePageStateView {
                request_serial: s.request_serial.wrapping_add(1),
                ..home_initial()
            },
            seq![
                PageEffectView::CancelReset,
                PageEffectView::SetInput(seq![]),
                PageEffectView::FocusInput,
                PageEffectView::ScrollToTop,
                PageEffectView::ResetUrl,
            ],
        ),
        HomeEventView::Search { page, input } => home_search(s, page, input),
        HomeEventView::KeyDown { key, input } => if key == "Enter"@ && !s.loading {
            let r = home_search(s, 1, input);
            (r.0, seq![PageEffectView::PreventDefault] + r.1)
        } else if key == "Escape"@ {
            (s, seq![PageEffectView::PreventDefault, PageEffectView::SetInput(seq![])])
        } else {
            (s, seq![])
        },
        HomeEventView::InputChanged => if s.placeholder != home_placeholder() {
            (
                HomePageStateView { placeholder: home_placeholder(), reset_pending: false, ..s },
                seq![PageEffectView::CancelReset],
            )
        } else {
            (s, seq![])
        },
        HomeEventView::PrevPage { input } => if !s.loading && s.current_page >= 2 {
            home_search(s, (s.current_page - 1) as u32, input)
        } else {
            (s, seq![])
        },
        HomeEventView::NextPage { input } => if !s.loading && s.current_page < s.total_pages {
            home_search(s, (s.current_page + 1) as u32, input)
        } else {
            (s, seq![])
        },
        HomeEventView::PlaceholderTimerFired => if s.reset_pending {
            (HomePageStateView { placeholder: home_placeholder(), reset_pending: false, ..s }, seq![])
        } else {
            (s, seq![])
        },
        HomeEventView::Reply { serial, q, page, reply } => if serial != s.request_serial {
            home_stale(s)
        } else {
            match reply {
                SearchReply::Unreachable => home_failure(s, connect_error()),
                SearchReply::Failed => home_failure(s, failed_error()),
                SearchReply::Unreadable => home_failure(s, unexpected_error()),
                SearchReply::Data(d) => if d.total_pages > 0 && page > d.total_pages {
                    (
                        s,
                        seq![
                            PageEffectView::SendRetry { serial, q, page: d.total_pages, first: d },
                        ],
                    )
                } else {
                    home_show(s, q, page, d)
                },
            }
        },
        HomeEventView::RetryReply { serial, q, page, first, retry } => match retry {
            RetryReply::Unsent => home_show(s, q, page, first),
            RetryReply::Received(r) => if serial != s.request_serial {
                home_stale(s)
            } else {
                match r {
                    Some(d) => home_show(s, q, page, d),
                    None => home_show(s, q, page, first),
                }
            },
        },
    }
}

} // verus!

verus! {

/// The home page when it opens.
pub fn home_initial_state() -> (s: HomePageState)
    ensures
        s@ == home_initial(),
{
    let s = HomePageState {
        results: Vec::new(),
        total_hits: 0,
        total_pages: 0,
        query: String::new(),
        searched: false,
        placeholder: "Search...".to_owned(),
        reset_pending: false,
        current_page: 1,
        loading: false,
        error: None,
        request_serial: 0,
    };
    assert(s@.results =~= Seq::<Hit>::empty());
    s
}

fn search_step(s: HomePageState, page: u32, input: String) -> (r: (HomePageState, Vec<PageEffect>))
    ensures
        (r.0@, page_effects(r.1@)) == home_search(s@, page, input@),
{
    if is_blank_text(input.as_str()) {
        (
            HomePageState { placeholder: "Type something to search".to_owned(), reset_pending: true, ..s },
            page_effect(PageEffect::ScheduleReset),
        )
    } else {
        let serial = s.request_serial.wrapping_add(1);
        let p = crate::page_text::clamp_page_number(page, s.total_pages);
        let q = input.clone();
        (
            HomePageState {
                error: None,
                request_serial: serial,
                loading: true,
                searched: true,
                query: input,
                ..s
            },
            page_effect(PageEffect::SendSearch { serial, q, page: p }),
        )
    }
}

fn show_step(s: HomePageState, q: String, page: u32, d: SearchResponse) -> (r: (HomePageState, Vec<PageEffect>))
    ensures
        (r.0@, page_effects(r.1@)) == home_show(s@, q@, page, d),
{
    let ghost dd = d;
    let mut effects = page_effect(PageEffect::ScrollToTop);
    push_page_effect(&mut effects, PageEffect::SetUrlParams { q, page });
    let SearchResponse { hits, total_pages, total_hits, .. } = d;
    (
        HomePageState {
            current_page: page,
            total_hits,
            total_pages,
            results: hits,
            loading: false,
            ..s
        },
        effects,
    )
}

fn failure_step(s: HomePageState, message: String) -> (r: (HomePageState, Vec<PageEffect>))
    ensures
        (r.0@, page_effects(r.1@)) == home_failure(s@, message@),
{
    let st = HomePageState {
        results: Vec::new(),
        total_hits: 0,
        total_pages: 0,
        error: Some(message),
        loading: false,
        ..s
    };
    assert(st@.results =~= Seq::<Hit>::empty());
    (st, no_page_effects())
}

fn stale_step(s: HomePageState) -> (r: (HomePageState, Vec<PageEffect>))
    ensures
        (r.0@, page_effects(r.1@)) == home_stale(s@),
{
    (HomePageState { loading: false, ..s }, no_page_effects())
}

/// What the home page does on an event: its new state and the work it asks of the browser.
pub fn home_page(s: HomePageState, e: HomeEvent) -> (r: (HomePageState, Vec<PageEffect>))
    requires
        home_wf(s@),
    ensures
        (r.0@, page_effects(r.1@)) == home_next(s@, e@),
{
    match e {
        HomeEvent::Mounted { query_param, page_param } => {
            let page = match &page_param {
                Some(t) => page_from_url(Some(t.as_str())),
                None => page_from_url(None),
            };
            let text = match query_param {
                Some(t) => t,
                None => String::new(),
            };
            if !is_blank_text(text.as_str()) {
                let shown = text.clone();
                let (st, effects) = search_step(s, page, text);
                (st, prepend_page_effect(PageEffect::SetInput(shown), effects))
            } else {
                (s, page_effect(PageEffect::FocusInput))
            }
        },
        HomeEvent::HomeClicked => {
            let serial = s.request_serial.wrapping_add(1);
            let st = HomePageState { request_serial: serial, ..home_initial_state() };
            let mut effects = page_effect(PageEffect::CancelReset);
            push_page_effect(&mut effects, PageEffect::SetInput(String::new()));
            push_page_effect(&mut effects, PageEffect::FocusInput);
            push_page_effect(&mut effects, PageEffect::ScrollToTop);
            push_page_effect(&mut effects, PageEffect::ResetUrl);
            assert(page_effects(effects@) =~= seq![
                PageEffectView::CancelReset,
                PageEffectView::SetInput(seq![]),
                PageEffectView::FocusInput,
                PageEffectView::ScrollToTop,
                PageEffectView::ResetUrl,
            ]);
            (st, effects)
        },
        HomeEvent::Search { page, input } => search_step(s, page, input),
        HomeEvent::KeyDown { key, input } => {
            if key == "Enter".to_owned() && !s.loading {
                let (st, effects) = search_step(s, 1, input);
                (st, prepend_page_effect(PageEffect::PreventDefault, effects))
            } else if key == "Escape".to_owned() {
                let mut effects = page_effect(PageEffect::PreventDefault);
                push_page_effect(&mut effects, PageEffect::SetInput(String::new()));
                (s, effects)
            } else {
                (s, no_page_effects())
            }
        },
        HomeEvent::InputChanged => {
            if !(s.placeholder == "Search...".to_owned()) {
                (
                    HomePageState { placeholder: "Search...".to_owned(), reset_pending: false, ..s },
                    page_effect(PageEffect::CancelReset),
                )
            } else {
                (s, no_page_effects())
            }
        },
        HomeEvent::PrevPage { input } => {
            if !s.loading && s.current_page >= 2 {
                let page = s.current_page - 1;
                search_step(s, page, input)
            } else {
                (s, no_page_effects())
            }
        },
        HomeEvent::NextPage { input } => {
            if !s.loading && s.current_page < s.total_pages {
                let page = s.current_page + 1;
                search_step(s, page, input)
            } else {
                (s, no_page_effects())
            }
        },
        HomeEvent::PlaceholderTimerFired => {
            if s.reset_pending {
                (
                    HomePageState { placeholder: "Search...".to_owned(), reset_pending: false, ..s },
                    no_page_effects(),
                )
            } else {
                (s, no_page_effects())
            }
        },
        HomeEvent::Reply { serial, q, page, reply } => {
            if serial != s.request_serial {
                stale_step(s)
            } else {
                match reply {
                    SearchReply::Unreachable => failure_step(
                        s,
                        "Can't connect. Check your connection.".to_owned(),
                    ),
                    SearchReply::Failed => failure_step(s, "Search failed. Try again.".to_owned()),
                    SearchReply::Unreadable => failure_step(
                        s,
                        "Got an unexpected response. Try again.".to_owned(),
                    ),
                    SearchReply::Data(d) => {
                        if d.total_pages > 0 && page > d.total_pages {
                            let last = d.total_pages;
                            (s, page_effect(PageEffect::SendRetry { serial, q, page: last, first: d }))
                        } else {
                            show_step(s, q, page, d)
                        }
                    },
                }
            }
        },
        HomeEvent::RetryReply { serial, q, page, first, retry } => {
            match retry {
                RetryReply::Unsent => show_step(s, q, page, first),
                RetryReply::Received(r) => {
                    if serial != s.request_serial {
                        stale_step(s)
                    } else {
                        match r {
                            Some(d) => show_step(s, q, page, d),
                            None => show_step(s, q, page, first),
                        }
                    }
                },
            }
        },
    }
}

} // verus!

verus! {

/// What the home page renders from its state.
pub struct HomePageView {
    /// The page has been searched (the container takes the `searched` class).
    pub searched: bool,
    /// The search box and button are disabled while a search runs.
    pub input_disabled: bool,
    pub placeholder: String,
    /// The message for screen readers.
    pub status_message: String,
    pub error_message: Option<String>,
    pub show_spinner: bool,
    pub show_results: bool,
    pub show_no_results: bool,
    pub results_line: String,
    /// The line shown when a search found nothing.
    pub no_results_line: String,
    pub show_pagination: bool,
    pub page_line: String,
    pub has_prev: bool,
    pub has_next: bool,
}

/// The screen-reader status: `Searching...` while a search runs, then the results line or
/// `No results`, and nothing before the first search.
pub open spec fn home_status(s: HomePageStateView) -> Seq<char> {
    if s.loading {
        "Searching..."@
    } else if s.searched {
        if s.total_hits > 0 {
            crate::page_text::results_text(s.total_hits)
        } else {
            "No results"@
        }
    } else {
        seq![]
    }
}

/// What the home page shows for its state.
pub fn home_view(s: &HomePageState) -> (v: HomePageView)
    ensures
        v.searched == s.searched,
        v.input_disabled == s.loading,
        v.placeholder@ == s.placeholder@,
        v.status_message@ == home_status(s@),
        opt_view(v.error_message) == opt_view(s.error),
        v.show_spinner == s.loading,
        v.show_results == (!s.loading && s.searched && s.total_hits > 0),
        v.show_no_results == (!s.loading && s.searched && s.total_hits == 0),
        v.results_line@ == crate::page_text::results_text(s.total_hits),
        v.no_results_line@ == "No results"@,
        v.show_pagination == (s.total_pages > 1),
        v.page_line@ == crate::text::decimal(s.current_page as nat) + " / "@
            + crate::text::decimal(s.total_pages as nat),
        v.has_prev == (s.current_page > 1),
        v.has_next == (s.current_page < s.total_pages),
{
    let results_line = crate::page_text::results_label(s.total_hits);
    let status_message = if s.loading {
        "Searching...".to_owned()
    } else if s.searched {
        if s.total_hits > 0 {
            crate::page_text::results_label(s.total_hits)
        } else {
            "No results".to_owned()
        }
    } else {
        String::new()
    };
    let error_message = match &s.error {
        Some(m) => Some(m.clone()),
        None => None,
    };
    HomePageView {
        searched: s.searched,
        input_disabled: s.loading,
        placeholder: s.placeholder.clone(),
        status_message,
        error_message,
        show_spinner: s.loading,
        show_results: !s.loading && s.searched && s.total_hits > 0,
        show_no_results: !s.loading && s.searched && s.total_hits == 0,
        results_line,
        no_results_line: "No results".to_owned(),
        show_pagination: s.total_pages > 1,
        page_line: crate::page_text::page_label(s.current_page, s.total_pages),
        has_prev: s.current_page > 1,
        has_next: s.current_page < s.total_pages,
    }
}

/// Replies carry the page they were sent for, which is at least 1.
pub open spec fn home_event_ok(e: HomeEventView) -> bool {
    match e {
        HomeEventView::Reply { page, .. } => page >= 1,
        HomeEventView::RetryReply { page, .. } => page >= 1,
        _ => true,
    }
}

/// The current page never drops below 1.
pub proof fn law_home_state_stays_wf(s: HomePageStateView, e: HomeEventView)
    requires
        home_wf(s),
        home_event_ok(e),
    ensures
        home_wf(home_next(s, e).0),
{
}

/// Every search that is sent asks for a page of at least 1, and never for a page past the
/// known last page; it carries the page's new search number.
pub proof fn law_home_searches_in_range(s: HomePageStateView, e: HomeEventView, k: int)
    requires
        0 <= k < home_next(s, e).1.len(),
        home_next(s, e).1[k] is SendSearch,
    ensures
        ({
            let eff = home_next(s, e).1[k];
            &&& eff->SendSearch_page >= 1
            &&& s.total_pages > 0 ==> eff->SendSearch_page <= s.total_pages
            &&& eff->SendSearch_serial == home_next(s, e).0.request_serial
            &&& home_next(s, e).0.loading
        }),
{
    match e {
        HomeEventView::Mounted { query_param, page_param } => {
            let text = match query_param {
                Some(t) => t,
                None => seq![],
            };
            if !is_blank(text) {
                let r = home_search(s, url_page(page_param), text);
                assert(home_next(s, e).1[k] == r.1[k - 1]);
            }
        },
        HomeEventView::KeyDown { key, input } => {
            if key == "Enter"@ && !s.loading {
                let r = home_search(s, 1, input);
                assert(home_next(s, e).1[k] == r.1[k - 1]);
            }
        },
        _ => {},
    }
}

/// A reply to a search that is no longer the latest changes nothing but the spinner, and
/// asks for nothing.
pub proof fn law_home_stale_reply_ignored(s: HomePageStateView, q: Seq<char>, page: u32, serial: u32, reply: SearchReply)
    requires
        serial != s.request_serial,
    ensures
        home_next(s, HomeEventView::Reply { serial, q, page, reply }).0 == (HomePageStateView {
            loading: false,
            ..s
        }),
        home_next(s, HomeEventView::Reply { serial, q, page, reply }).1.len() == 0,
{
}

/// A search with nothing but blanks in the box sends nothing: it only prompts, for three
/// seconds, for a query.
pub proof fn law_home_blank_search_prompts(s: HomePageStateView, page: u32, input: Seq<char>)
    requires
        is_blank(input),
    ensures
        home_next(s, HomeEventView::Search { page, input }).1 == seq![PageEffectView::ScheduleReset],
        home_next(s, HomeEventView::Search { page, input }).0.placeholder == home_prompt(),
        home_next(s, HomeEventView::Search { page, input }).0.request_serial == s.request_serial,
{
}

/// The logo brings the page back to how it opened, and outdates any search under way.
pub proof fn law_home_click_resets(s: HomePageStateView)
    ensures
        home_next(s, HomeEventView::HomeClicked).0 == (HomePageStateView {
            request_serial: s.request_serial.wrapping_add(1),
            ..home_initial()
        }),
        home_next(s, HomeEventView::HomeClicked).0.request_serial != s.request_serial,
{
}

/// The page's answer to results `d` for its latest search.
pub open spec fn home_reply_data(s: HomePageStateView, q: Seq<char>, page: u32, d: SearchResponse) -> HomeStepView {
    home_next(s, HomeEventView::Reply { serial: s.request_serial, q, page, reply: SearchReply::Data(d) })
}

/// Results for a page past the last one are not shown: the last page is asked for again.
pub proof fn law_home_past_last_page_retried(s: HomePageStateView, q: Seq<char>, page: u32, d: SearchResponse)
    requires
        d.total_pages > 0,
        page > d.total_pages,
    ensures
        home_reply_data(s, q, page, d) == (s, seq![PageEffectView::SendRetry { serial: s.request_serial, q, page: d.total_pages, first: d }]),
{
}

/// Results that are shown are those of the latest search, on the page asked for.
pub proof fn law_home_shows_latest(s: HomePageStateView, q: Seq<char>, page: u32, d: SearchResponse)
    requires
        !(d.total_pages > 0 && page > d.total_pages),
    ensures
        ({
            let r = home_reply_data(s, q, page, d);
            &&& r.0.results == d.hits@
            &&& r.0.current_page == page
            &&& r.0.total_pages == d.total_pages
            &&& r.0.total_hits == d.total_hits
            &&& !r.0.loading
            &&& r.1 == seq![PageEffectView::ScrollToTop, PageEffectView::SetUrlParams { q, page }]
        }),
{
}

} // verus!

verus! {

/// Clicking the logo outdates the search under way: its reply, when it comes, changes
/// nothing on the reset page but the spinner.
pub proof fn law_home_click_outdates_search(s: HomePageStateView, q: Seq<char>, page: u32, reply: SearchReply)
    ensures
        ({
            let clicked = home_next(s, HomeEventView::HomeClicked).0;
            home_next(clicked, HomeEventView::Reply { serial: s.request_serial, q, page, reply })
                == (HomePageStateView { loading: false, ..clicked }, Seq::<PageEffectView>::empty())
        }),
{
    let clicked = home_next(s, HomeEventView::HomeClicked).0;
    assert(clicked.request_serial != s.request_serial);
}

} // verus!

verus! {

/// The page buttons move one page at a time: previous sends a search for the page before
/// the current one, next for the page after it (each kept within the known last page), with
/// the box's query and a new search number.
pub proof fn law_home_pages_step_by_one(s: HomePageStateView, input: Seq<char>)
    requires
        !s.loading,
        !is_blank(input),
    ensures
        s.current_page >= 2 ==> ({
            let r = home_next(s, HomeEventView::PrevPage { input });
            let p: u32 = (s.current_page - 1) as u32;
            let sent: u32 = if s.total_pages > 0 && p > s.total_pages { s.total_pages } else { p };
            &&& r.1 == seq![PageEffectView::SendSearch { serial: s.request_serial.wrapping_add(1), q: input, page: sent }]
            &&& r.0.request_serial == s.request_serial.wrapping_add(1)
            &&& r.0.loading
            &&& r.0.query == input
        }),
        s.current_page >= 2 && s.current_page - 1 <= s.total_pages ==> home_next(
            s,
            HomeEventView::PrevPage { input },
        ).1 == seq![PageEffectView::SendSearch { serial: s.request_serial.wrapping_add(1), q: input, page: (s.current_page - 1) as u32 }],
        s.current_page < s.total_pages ==> home_next(s, HomeEventView::NextPage { input }).1 == seq![
            PageEffectView::SendSearch { serial: s.request_serial.wrapping_add(1), q: input, page: (s.current_page + 1) as u32 },
        ],
{
}

/// Enter starts a new query on its first page, whatever page the page was on.
pub proof fn law_home_enter_starts_on_first_page(s: HomePageStateView, input: Seq<char>)
    requires
        !s.loading,
        !is_blank(input),
    ensures
        home_next(s, HomeEventView::KeyDown { key: "Enter"@, input }).1 == seq![
            PageEffectView::PreventDefault,
            PageEffectView::SendSearch { serial: s.request_serial.wrapping_add(1), q: input, page: 1 },
        ],
{
    let r = home_search(s, 1, input);
    assert(seq![PageEffectView::PreventDefault] + r.1 =~= seq![
        PageEffectView::PreventDefault,
        PageEffectView::SendSearch { serial: s.request_serial.wrapping_add(1), q: input, page: 1 },
    ]);
}

} // verus!
