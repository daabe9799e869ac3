use vstd::prelude::*;
use vstd::string::*;
use crate::models::{Hit, SearchResponse};
use crate::page_events::{
    no_page_effects, page_effect, page_effects, prepend_page_effect, push_page_effect, PageEffect,
    PageEffectView,
};
use crate::page_text::{found_text, found_results_label, page_label};
use crate::text::{decimal, is_blank, is_blank_text};

verus! {

/// What the search view shows and remembers.
pub struct SearchViewState {
    pub results: Vec<Hit>,
    pub total_hits: u32,
    pub total_pages: u32,
    pub query: String,
    pub searched: bool,
    pub placeholder: String,
    /// Whether a timer to put the placeholder back is pending.
    pub reset_pending: bool,
    pub current_page: u32,
    pub loading: bool,
}

pub struct SearchViewStateView {
    pub results: Seq<Hit>,
    pub total_hits: u32,
    pub total_pages: u32,
    pub query: Seq<char>,
    pub searched: bool,
    pub placeholder: Seq<char>,
    pub reset_pending: bool,
    pub current_page: u32,
    pub loading: bool,
}

impl View for SearchViewState {
    type V = SearchViewStateView;

    open spec fn view(&self) -> SearchViewStateView {
        SearchViewStateView {
            results: self.results@,
            total_hits: self.total_hits,
            total_pages: self.total_pages,
            query: self.query@,
            searched: self.searched,
            placeholder: self.placeholder@,
            reset_pending: self.reset_pending,
            current_page: self.current_page,
            loading: self.loading,
        }
    }
}

/// The outcome of a search request of the search view.
pub enum ViewReply {
    /// The request could not be sent; the text describes why.
    SendFailed(String),
    /// An answer came, read as search results when it could be.
    Received(Option<SearchResponse>),
}

pub enum ViewReplyView {
    SendFailed(Seq<char>),
    Received(Option<SearchResponse>),
}

/// What happens in the search view.
pub enum ViewEvent {
    HomeClicked,
    Search { page: u32, input: String },
    KeyDown { key: String, input: String },
    InputChanged,
    PrevPage { input: String },
    NextPage { input: String },
    PlaceholderTimerFired,
    Reply(ViewReply),
}

pub enum ViewEventView {
    HomeClicked,
    Search { page: u32, input: Seq<char> },
    KeyDown { key: Seq<char>, input: Seq<char> },
    InputChanged,
    PrevPage { input: Seq<char> },
    NextPage { input: Seq<char> },
    PlaceholderTimerFired,
    Reply(ViewReplyView),
}

impl View for ViewEvent {
    type V = ViewEventView;

    open spec fn view(&self) -> ViewEventView {
        match self {
            ViewEvent::HomeClicked => ViewEventView::HomeClicked,
            ViewEvent::Search { page, input } => ViewEventView::Search { page: *page, input: input@ },
            ViewEvent::KeyDown { key, input } => ViewEventView::KeyDown { key: key@, input: input@ },
            ViewEvent::InputChanged => ViewEventView::InputChanged,
            ViewEvent::PrevPage { input } => ViewEventView::PrevPage { input: input@ },
            ViewEvent::NextPage { input } => ViewEventView::NextPage { input: input@ },
            ViewEvent::PlaceholderTimerFired => ViewEventView::PlaceholderTimerFired,
            ViewEvent::Reply(ViewReply::SendFailed(t)) => ViewEventView::Reply(ViewReplyView::SendFailed(t@)),
            ViewEvent::Reply(ViewReply::Received(d)) => ViewEventView::Reply(ViewReplyView::Received(*d)),
        }
    }
}

/// The placeholder of the search box.
pub open spec fn view_placeholder() -> Seq<char> {
    "Enter search query"@
}

/// The placeholder shown after a search with nothing to search for.
pub open spec fn view_prompt() -> Seq<char> {
    "Please enter a search query"@
}

/// The search view when it opens.
pub open spec fn view_initial() -> SearchViewStateView {
    SearchViewStateView {
        results: seq![],
        total_hits: 0,
        total_pages: 0,
        query: seq![],
        searched: false,
        placeholder: view_placeholder(),
        reset_pending: false,
        current_page: 1,
        loading: false,
    }
}

pub type ViewStepView = (SearchViewStateView, Seq<PageEffectView>);

/// A search for `page`: blanks only prompt for a query for three seconds; otherwise the
/// request goes out as asked (this view does not number its requests: they carry 0).
pub open spec fn view_search(s: SearchViewStateView, page: u32, input: Seq<char>) -> ViewStepView {
    if is_blank(input) {
        (
            SearchViewStateView { placeholder: view_prompt(), reset_pending: true, ..s },
            seq![PageEffectView::ScheduleReset],
        )
    } else {
        (
            SearchViewStateView {
                query: input,
                current_page: page,
                searched: true,
                loading: true,
                ..s
            },
            seq![PageEffectView::SendSearch { serial: 0, q: input, page }],
        )
    }
}

/// The transitions of the search view.
pub open spec fn view_next(s: SearchViewStateView, e: ViewEventView) -> ViewStepView {
    match e {
        ViewEventView::HomeClicked => (
            SearchViewStateView {
                results: seq![],
                total_hits: 0,
                total_pages: 0,
                query: seq![],
                searched: false,
                current_page: 1,
                loading: false,
                ..s
            },
            seq![PageEffectView::SetInput(seq![])],
        ),
        ViewEventView::Search { page, input } => view_search(s, page, input),
        ViewEventView::KeyDown { key, input } => if key == "Enter"@ && !s.loading {
            let r = view_search(s, 1, input);
            (r.0, seq![PageEffectView::PreventDefault] + r.1)
        } else if key == "Escape"@ {
            (s, seq![PageEffectView::PreventDefault, PageEffectView::SetInput(seq![])])
        } else {
            (s, seq![])
        },
        ViewEventView::InputChanged => if s.placeholder != view_placeholder() {
            (
                SearchViewStateView { placeholder: view_placeholder(), reset_pending: false, ..s },
                seq![PageEffectView::CancelReset],
            )
        } else {
            (s, seq![])
        },
        ViewEventView::PrevPage { input } => if !s.loading && s.current_page >= 2 {
            view_search(s, (s.current_page - 1) as u32, input)
        } else {
            (s, seq![])
        },
        ViewEventView::NextPage { input } => if !s.loading && s.current_page < s.total_pages {
            view_search(s, (s.current_page + 1) as u32, input)
        } else {
            (s, seq![])
        },
        ViewEventView::PlaceholderTimerFired => if s.reset_pending {
            (SearchViewStateView { placeholder: view_placeholder(), reset_pending: false, ..s }, seq![])
        } else {
            (s, seq![])
        },
        ViewEventView::Reply(ViewReplyView::SendFailed(t)) => (
            SearchViewStateView { loading: false, ..s },
            seq![PageEffectView::LogFetchError(t)],
        ),
        ViewEventView::Reply(ViewReplyView::Received(r)) => match r {
            Some(d) => (
                SearchViewStateView {
                    total_hits: d.total_hits,
                    total_pages: d.total_pages,
                    results: d.hits@,
                    loading: false,
                    ..s
                },
                seq![],
            ),
            None => (SearchViewStateView { loading: false, ..s }, seq![]),
        },
    }
}

/// The search view when it opens.
pub fn view_initial_state() -> (s: SearchViewState)
    ensures
        s@ == view_initial(),
{
    let s = SearchViewState {
        results: Vec::new(),
        total_hits: 0,
        total_pages: 0,
        query: String::new(),
        searched: false,
        placeholder: "Enter search query".to_owned(),
        reset_pending: false,
        current_page: 1,
        loading: false,
    };
    assert(s@.results =~= Seq::<Hit>::empty());
    s
}

fn view_search_step(s: SearchViewState, page: u32, input: String) -> (r: (SearchViewState, Vec<PageEffect>))
    ensures
        (r.0@, page_effects(r.1@)) == view_search(s@, page, input@),
{
    if is_blank_text(input.as_str()) {
        (
            SearchViewState { placeholder: "Please enter a search query".to_owned(), reset_pending: true, ..s },
            page_effect(PageEffect::ScheduleReset),
        )
    } else {
        let q = input.clone();
        (
            SearchViewState { query: input, current_page: page, searched: true, loading: true, ..s },
            page_effect(PageEffect::SendSearch { serial: 0, q, page }),
        )
    }
}

/// What the search view does on an event: its new state and the work it asks of the browser.
pub fn search_view(s: SearchViewState, e: ViewEvent) -> (r: (SearchViewState, Vec<PageEffect>))
    ensures
        (r.0@, page_effects(r.1@)) == view_next(s@, e@),
{
    match e {
        ViewEvent::HomeClicked => {
            let st = SearchViewState {
                results: Vec::new(),
                total_hits: 0,
                total_pages: 0,
                query: String::new(),
                searched: false,
                current_page: 1,
                loading: false,
                ..s
            };
            assert(st@.results =~= Seq::<Hit>::empty());
            (st, page_effect(PageEffect::SetInput(String::new())))
        },
        ViewEvent::Search { page, input } => view_search_step(s, page, input),
        ViewEvent::KeyDown { key, input } => {
            if key == "Enter".to_owned() && !s.loading {
                let (st, effects) = view_search_step(s, 1, input);
                (st, prepend_page_effect(PageEffect::PreventDefault, effects))
            } else if key == "Escape".to_owned() {
                let mut effects = page_effect(PageEffect::PreventDefault);
                push_page_effect(&mut effects, PageEffect::SetInput(String::new()));
                (s, effects)
            } else {
                (s, no_page_effects())
            }
        },
        ViewEvent::InputChanged => {
            if !(s.placeholder == "Enter search query".to_owned()) {
                (
                    SearchViewState { placeholder: "Enter search query".to_owned(), reset_pending: false, ..s },
                    page_effect(PageEffect::CancelReset),
                )
            } else {
                (s, no_page_effects())
            }
        },
        ViewEvent::PrevPage { input } => {
            if !s.loading && s.current_page >= 2 {
                let page = s.current_page - 1;
                view_search_step(s, page, input)
            } else {
                (s, no_page_effects())
            }
        },
        ViewEvent::NextPage { input } => {
            if !s.loading && s.current_page < s.total_pages {
                let page = s.current_page + 1;
                view_search_step(s, page, input)
            } else {
                (s, no_page_effects())
            }
        },
        ViewEvent::PlaceholderTimerFired => {
            if s.reset_pending {
                (
                    SearchViewState { placeholder: "Enter search query".to_owned(), reset_pending: false, ..s },
                    no_page_effects(),
                )
            } else {
                (s, no_page_effects())
            }
        },
        ViewEvent::Reply(ViewReply::SendFailed(t)) => {
            (SearchViewState { loading: false, ..s }, page_effect(PageEffect::LogFetchError(t)))
        },
        ViewEvent::Reply(ViewReply::Received(r)) => {
            match r {
                Some(d) => {
                    let SearchResponse { hits, total_pages, total_hits, .. } = d;
                    (
                        SearchViewState { total_hits, total_pages, results: hits, loading: false, ..s },
                        no_page_effects(),
                    )
                },
                None => (SearchViewState { loading: false, ..s }, no_page_effects()),
            }
        },
    }
}

/// What the search view renders from its state.
pub struct SearchViewView {
    pub searched: bool,
    pub input_disabled: bool,
    pub placeholder: String,
    pub show_spinner: bool,
    pub show_results: bool,
    pub show_no_results: bool,
    pub results_line: String,
    /// The line shown when a search found nothing.
    pub no_results_line: String,
    pub show_pagination: bool,
    pub page_line: String,
    pub has_prev: bool,
    pub has_next: bool,
}

/// What the search view shows for its state (`No results found` when a search found nothing).
pub fn search_view_view(s: &SearchViewState) -> (v: SearchViewView)
    ensures
        v.searched == s.searched,
        v.input_disabled == s.loading,
        v.placeholder@ == s.placeholder@,
        v.show_spinner == s.loading,
        v.show_results == (!s.loading && s.searched && s.total_hits > 0),
        v.show_no_results == (!s.loading && s.searched && s.total_hits == 0),
        v.results_line@ == found_text(s.total_hits),
        v.no_results_line@ == "No results found"@,
        v.show_pagination == (s.total_pages > 1),
        v.page_line@ == decimal(s.current_page as nat) + " / "@ + decimal(s.total_pages as nat),
        v.has_prev == (s.current_page > 1),
        v.has_next == (s.current_page < s.total_pages),
{
    SearchViewView {
        searched: s.searched,
        input_disabled: s.loading,
        placeholder: s.placeholder.clone(),
        show_spinner: s.loading,
        show_results: !s.loading && s.searched && s.total_hits > 0,
        show_no_results: !s.loading && s.searched && s.total_hits == 0,
        results_line: found_results_label(s.total_hits),
        no_results_line: "No results found".to_owned(),
        show_pagination: s.total_pages > 1,
        page_line: page_label(s.current_page, s.total_pages),
        has_prev: s.current_page > 1,
        has_next: s.current_page < s.total_pages,
    }
}

/// Every answer to a search, even a failed one, stops the spinner.
pub proof fn law_view_replies_stop_loading(s: SearchViewStateView, r: ViewReplyView)
    ensures
        !view_next(s, ViewEventView::Reply(r)).0.loading,
{
}

/// The search view never moves past its last page or before its first.
pub proof fn law_view_paging_in_range(s: SearchViewStateView, input: Seq<char>)
    requires
        s.current_page >= 1,
    ensures
        view_next(s, ViewEventView::NextPage { input }).0.current_page <= if s.total_pages > s.current_page {
            s.total_pages
        } else {
            s.current_page
        },
        view_next(s, ViewEventView::PrevPage { input }).0.current_page >= 1,
{
}

} // verus!

verus! {

/// An answer read as results is shown as it is: the view's results are exactly its hits,
/// its totals are the answer's, and the spinner stops; nothing else is asked for.
pub proof fn law_view_shows_received_results(s: SearchViewStateView, d: SearchResponse)
    ensures
        ({
            let r = view_next(s, ViewEventView::Reply(ViewReplyView::Received(Some(d))));
            &&& r.0.results == d.hits@
            &&& r.0.total_hits == d.total_hits
            &&& r.0.total_pages == d.total_pages
            &&& !r.0.loading
            &&& r.0.query == s.query
            &&& r.0.current_page == s.current_page
            &&& r.1.len() == 0
        }),
{
}

/// Enter starts a new query on its first page, whatever page the view was on: the query is
/// sent for page 1 and the current page becomes 1.
pub proof fn law_view_enter_starts_on_first_page(s: SearchViewStateView, input: Seq<char>)
    requires
        !s.loading,
        !is_blank(input),
    ensures
        ({
            let r = view_next(s, ViewEventView::KeyDown { key: "Enter"@, input });
            &&& r.1 == seq![
                PageEffectView::PreventDefault,
                PageEffectView::SendSearch { serial: 0, q: input, page: 1 },
            ]
            &&& r.0.current_page == 1
            &&& r.0.query == input
            &&& r.0.loading
            &&& r.0.searched
        }),
{
    let r = view_search(s, 1, input);
    assert(seq![PageEffectView::PreventDefault] + r.1 =~= seq![
        PageEffectView::PreventDefault,
        PageEffectView::SendSearch { serial: 0, q: input, page: 1 },
    ]);
}

/// The page buttons move one page at a time: previous asks for the page before the current
/// one, next for the page after it, and the current page becomes that page.
pub proof fn law_view_pages_step_by_one(s: SearchViewStateView, input: Seq<char>)
    requires
        !s.loading,
        !is_blank(input),
    ensures
        s.current_page >= 2 ==> ({
            let r = view_next(s, ViewEventView::PrevPage { input });
            &&& r.1 == seq![PageEffectView::SendSearch { serial: 0, q: input, page: (s.current_page - 1) as u32 }]
            &&& r.0.current_page == s.current_page - 1
        }),
        s.current_page < s.total_pages ==> ({
            let r = view_next(s, ViewEventView::NextPage { input });
            &&& r.1 == seq![PageEffectView::SendSearch { serial: 0, q: input, page: (s.current_page + 1) as u32 }]
            &&& r.0.current_page == s.current_page + 1
        }),
{
}

} // verus!

verus! {

/// A search with nothing but blanks sends nothing: the placeholder prompts for a query, and
/// the results, page and query stay as they were.
pub proof fn law_view_blank_search_prompts(s: SearchViewStateView, page: u32, input: Seq<char>)
    requires
        is_blank(input),
    ensures
        ({
            let r = view_next(s, ViewEventView::Search { page, input });
            &&& r.1 == seq![PageEffectView::ScheduleReset]
            &&& r.0.placeholder == "Please enter a search query"@
            &&& r.0.results == s.results
            &&& r.0.current_page == s.current_page
            &&& r.0.query == s.query
            &&& r.0.loading == s.loading
        }),
{
}

/// A search with a query is sent for the page asked for, and the view shows that page as
/// loading.
pub proof fn law_view_search_sent_as_asked(s: SearchViewStateView, page: u32, input: Seq<char>)
    requires
        !is_blank(input),
    ensures
        ({
            let r = view_next(s, ViewEventView::Search { page, input });
            &&& r.1 == seq![PageEffectView::SendSearch { serial: 0, q: input, page }]
            &&& r.0.current_page == page
            &&& r.0.query == input
            &&& r.0.loading
            &&& r.0.searched
        }),
{
}

} // verus!
