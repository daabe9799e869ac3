use vstd::prelude::*;
use crate::models::SearchResponse;

verus! {

/// Work a search page asks of the browser, in order.
pub enum PageEffect {
    /// Put this text in the search box.
    SetInput(String),
    /// Give the search box the focus.
    FocusInput,
    /// Keep the browser from acting on the key press.
    PreventDefault,
    /// Scroll to the top of the page.
    ScrollToTop,
    /// Show the bare site address (`/`) in the address bar.
    ResetUrl,
    /// Show the query and page in the address bar (`q` and `p` parameters).
    SetUrlParams { q: String, page: u32 },
    /// Put the placeholder back after three seconds, replacing any earlier such timer.
    ScheduleReset,
    /// Drop the pending placeholder timer.
    CancelReset,
    /// Ask the back end for a page of results; the reply comes back with `serial`.
    SendSearch { serial: u32, q: String, page: u32 },
    /// Ask again for the last page, `first` being the reply that asked past it.
    SendRetry { serial: u32, q: String, page: u32, first: SearchResponse },
    /// Report that the request could not be sent.
    LogFetchError(String),
}

pub enum PageEffectView {
    SetInput(Seq<char>),
    FocusInput,
    PreventDefault,
    ScrollToTop,
    ResetUrl,
    SetUrlParams { q: Seq<char>, page: u32 },
    ScheduleReset,
    CancelReset,
    SendSearch { serial: u32, q: Seq<char>, page: u32 },
    SendRetry { serial: u32, q: Seq<char>, page: u32, first: SearchResponse },
    LogFetchError(Seq<char>),
}

impl View for PageEffect {
    type V = PageEffectView;

    open spec fn view(&self) -> PageEffectView {
        match self {
            PageEffect::SetInput(t) => PageEffectView::SetInput(t@),
            PageEffect::FocusInput => PageEffectView::FocusInput,
            PageEffect::PreventDefault => PageEffectView::PreventDefault,
            PageEffect::ScrollToTop => PageEffectView::ScrollToTop,
            PageEffect::ResetUrl => PageEffectView::ResetUrl,
            PageEffect::SetUrlParams { q, page } => PageEffectView::SetUrlParams { q: q@, page: *page },
            PageEffect::ScheduleReset => PageEffectView::ScheduleReset,
            PageEffect::CancelReset => PageEffectView::CancelReset,
            PageEffect::SendSearch { serial, q, page } => PageEffectView::SendSearch {
                serial: *serial,
                q: q@,
                page: *page,
            },
            PageEffect::SendRetry { serial, q, page, first } => PageEffectView::SendRetry {
                serial: *serial,
                q: q@,
                page: *page,
                first: *first,
            },
            PageEffect::LogFetchError(t) => PageEffectView::LogFetchError(t@),
        }
    }
}

pub open spec fn page_effects(v: Seq<PageEffect>) -> Seq<PageEffectView> {
    v.map_values(|e: PageEffect| e@)
}

pub fn no_page_effects() -> (r: Vec<PageEffect>)
    ensures
        page_effects(r@) == Seq::<PageEffectView>::empty(),
{
    let r: Vec<PageEffect> = Vec::new();
    assert(page_effects(r@) =~= Seq::<PageEffectView>::empty());
    r
}

pub fn page_effect(e: PageEffect) -> (r: Vec<PageEffect>)
    ensures
        page_effects(r@) == seq![e@],
{
    let mut r: Vec<PageEffect> = Vec::new();
    r.push(e);
    assert(page_effects(r@) =~= seq![e@]);
    r
}

pub fn push_page_effect(v: &mut Vec<PageEffect>, e: PageEffect)
    ensures
        page_effects(final(v)@) == page_effects(old(v)@).push(e@),
{
    v.push(e);
    assert(page_effects(v@) =~= page_effects(old(v)@).push(e@));
}

pub fn prepend_page_effect(e: PageEffect, v: Vec<PageEffect>) -> (r: Vec<PageEffect>)
    ensures
        page_effects(r@) == seq![e@] + page_effects(v@),
{
    let mut r = v;
    let ghost before = r@;
    r.insert(0, e);
    assert(page_effects(r@) =~= seq![e@] + page_effects(before));
    r
}

} // verus!
