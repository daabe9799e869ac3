use vstd::prelude::*;
use crate::documents::{documents_view, topic_field_message, make_topic_documents, topic_documents, topic_field_error, PostDocument, PostDocumentView, TopicFields, TopicFieldsView};

verus! {

/// Where a document synchronisation stands.
#[derive(PartialEq, Eq, Structural, Clone, Copy)]
pub enum SyncPhase {
    /// Waiting for the newest topic, which gives the last topic to synchronise.
    FindingMax,
    /// Waiting for the stored resume point, which gives the first topic of a pass.
    ReadingResume,
    /// Waiting to learn whether the current topic is known to be invalid.
    CheckingSkip,
    /// Waiting for a page of the current topic.
    FetchingPage,
    /// The run ended normally.
    Finished,
    /// The run stopped on an error.
    Failed,
}

/// The state of a document synchronisation.
#[derive(PartialEq, Eq, Structural, Clone, Copy)]
pub struct SyncState {
    pub phase: SyncPhase,
    /// The last topic to synchronise.
    pub max_topic_id: u32,
    /// The topic being worked on.
    pub topic: u32,
    /// The offset of the page of posts being fetched.
    pub offset: u64,
    /// Whether the current pass was rate limited and must pause after the topic.
    pub needs_retry_sleep: bool,
}

/// The body of a successful reply to the newest-topic request.
pub enum TopicListBody {
    /// The body is not JSON.
    Unparsable,
    /// The first topic has no numeric `tid`.
    MissingTid,
    /// The `tid` of the first (newest) topic.
    FirstTid(u64),
}

/// The body of a successful reply to a topic page request.
pub enum TopicBody {
    /// The body is not JSON.
    Unparsable,
    /// The fields of the topic page.
    Parsed(TopicFields),
}

pub enum TopicBodyView {
    Unparsable,
    Parsed(TopicFieldsView),
}

impl View for TopicBody {
    type V = TopicBodyView;

    open spec fn view(&self) -> TopicBodyView {
        match self {
            TopicBody::Unparsable => TopicBodyView::Unparsable,
            TopicBody::Parsed(f) => TopicBodyView::Parsed(f@),
        }
    }
}

/// What the outside world answers to the last request.
pub enum SyncEvent {
    /// The newest-topic request could not be sent.
    TopicListSendFailed,
    /// The newest-topic request was answered with `status`.
    TopicListReply { status: u16, list: TopicListBody },
    /// The stored resume point (already read as a number, see `ResumePoint::get_id`).
    ResumePointRead { id: Option<u32> },
    /// Whether the current topic is in the skip list.
    SkipChecked { skipped: bool },
    /// The topic page request could not be sent.
    TopicSendFailed,
    /// The topic page request was answered with `status`.
    TopicReply { status: u16, page: TopicBody },
}

pub enum SyncEventView {
    TopicListSendFailed,
    TopicListReply { status: u16, list: TopicListBody },
    ResumePointRead { id: Option<u32> },
    SkipChecked { skipped: bool },
    TopicSendFailed,
    TopicReply { status: u16, page: TopicBodyView },
}

impl View for SyncEvent {
    type V = SyncEventView;

    open spec fn view(&self) -> SyncEventView {
        match self {
            SyncEvent::TopicListSendFailed => SyncEventView::TopicListSendFailed,
            SyncEvent::TopicListReply { status, list } => SyncEventView::TopicListReply {
                status: *status,
                list: *list,
            },
            SyncEvent::ResumePointRead { id } => SyncEventView::ResumePointRead { id: *id },
            SyncEvent::SkipChecked { skipped } => SyncEventView::SkipChecked { skipped: *skipped },
            SyncEvent::TopicSendFailed => SyncEventView::TopicSendFailed,
            SyncEvent::TopicReply { status, page } => SyncEventView::TopicReply {
                status: *status,
                page: page@,
            },
        }
    }
}

/// Work to do before the next request, in order. Failures of the store operations stop
/// the run with that failure, except `MarkSkipped`, whose failure is only reported.
pub enum SyncEffect {
    /// Wait a minute.
    Sleep,
    /// Add the topic to the skip list.
    MarkSkipped(u32),
    /// Store the topic as the resume point.
    SetResumePoint(u32),
    /// Send each document to the search index; a failure stops the run.
    IndexDocuments(Vec<PostDocument>),
    /// Delete the stored resume point.
    DeleteResumePoint,
}

pub enum SyncEffectView {
    Sleep,
    MarkSkipped(u32),
    SetResumePoint(u32),
    IndexDocuments(Seq<PostDocumentView>),
    DeleteResumePoint,
}

impl View for SyncEffect {
    type V = SyncEffectView;

    open spec fn view(&self) -> SyncEffectView {
        match self {
            SyncEffect::Sleep => SyncEffectView::Sleep,
            SyncEffect::MarkSkipped(t) => SyncEffectView::MarkSkipped(*t),
            SyncEffect::SetResumePoint(t) => SyncEffectView::SetResumePoint(*t),
            SyncEffect::IndexDocuments(d) => SyncEffectView::IndexDocuments(documents_view(d@)),
            SyncEffect::DeleteResumePoint => SyncEffectView::DeleteResumePoint,
        }
    }
}

pub open spec fn effects_view(v: Seq<SyncEffect>) -> Seq<SyncEffectView> {
    v.map_values(|e: SyncEffect| e@)
}

/// What the run asks of the outside world next, after its effects.
pub enum SyncRequest {
    /// Ask the forum for its newest topic.
    FetchTopicList,
    /// Read the stored resume point; the first time, the stores are opened first.
    ReadResumePoint { open_stores: bool },
    /// Ask whether `topic` is in the skip list.
    CheckSkip { topic: u32 },
    /// Delete the indexed documents of `topic`, then ask the forum for its posts from `offset`.
    FetchTopicPage { topic: u32, offset: u64 },
    /// The run is over.
    Finish,
    /// The run stops with this error.
    Fail { message: String },
}

pub enum SyncRequestView {
    FetchTopicList,
    ReadResumePoint { open_stores: bool },
    CheckSkip { topic: u32 },
    FetchTopicPage { topic: u32, offset: u64 },
    Finish,
    Fail { message: Seq<char> },
}

impl View for SyncRequest {
    type V = SyncRequestView;

    open spec fn view(&self) -> SyncRequestView {
        match self {
            SyncRequest::FetchTopicList => SyncRequestView::FetchTopicList,
            SyncRequest::ReadResumePoint { open_stores } => SyncRequestView::ReadResumePoint {
                open_stores: *open_stores,
            },
            SyncRequest::CheckSkip { topic } => SyncRequestView::CheckSkip { topic: *topic },
            SyncRequest::FetchTopicPage { topic, offset } => SyncRequestView::FetchTopicPage {
                topic: *topic,
                offset: *offset,
            },
            SyncRequest::Finish => SyncRequestView::Finish,
            SyncRequest::Fail { message } => SyncRequestView::Fail { message: message@ },
        }
    }
}

/// One step of a run: the new state, the effects to carry out, and the next request.
pub struct SyncStep {
    pub state: SyncState,
    pub effects: Vec<SyncEffect>,
    pub request: SyncRequest,
}

pub type SyncStepView = (SyncState, Seq<SyncEffectView>, SyncRequestView);

impl SyncStep {
    pub open spec fn view_of(&self) -> SyncStepView {
        (self.state, effects_view(self.effects@), self.request@)
    }
}

/// Whether an HTTP status is a success (`2xx`).
pub open spec fn is_success(status: u16) -> bool {
    200 <= status <= 299
}

/// The status of a rate-limited request.
pub open spec fn too_many_requests() -> u16 {
    429
}

/// The number of posts asked for per page.
pub open spec fn page_size() -> nat {
    100
}

/// The state a run starts in.
pub open spec fn initial_state() -> SyncState {
    SyncState {
        phase: SyncPhase::FindingMax,
        max_topic_id: 0,
        topic: 0,
        offset: 0,
        needs_retry_sleep: false,
    }
}

/// Whether the state is one a run can be in: the current topic is within the pass and page
/// offsets are whole pages.
pub open spec fn wf(s: SyncState) -> bool {
    &&& (s.phase == SyncPhase::CheckingSkip || s.phase == SyncPhase::FetchingPage) ==> s.topic
        <= s.max_topic_id
    &&& s.offset as nat % page_size() == 0
}

/// Whether `e` answers the request that state `s` is waiting on.
pub open spec fn accepts(s: SyncState, e: SyncEventView) -> bool {
    match s.phase {
        SyncPhase::FindingMax => e is TopicListSendFailed || e is TopicListReply,
        SyncPhase::ReadingResume => e is ResumePointRead,
        SyncPhase::CheckingSkip => e is SkipChecked,
        SyncPhase::FetchingPage => e is TopicSendFailed || e is TopicReply,
        _ => false,
    }
}

/// The end of a topic that was fetched: pause if the pass was rate limited, then finish the
/// run after the last topic (deleting the resume point), or go on with the next topic.
pub open spec fn finish_topic(s: SyncState) -> SyncStepView {
    let pause: Seq<SyncEffectView> = if s.needs_retry_sleep {
        seq![SyncEffectView::Sleep]
    } else {
        seq![]
    };
    if s.topic == s.max_topic_id {
        (
            SyncState { phase: SyncPhase::Finished, needs_retry_sleep: false, ..s },
            pause.push(SyncEffectView::DeleteResumePoint),
            SyncRequestView::Finish,
        )
    } else {
        (
            SyncState {
                phase: SyncPhase::CheckingSkip,
                topic: (s.topic + 1) as u32,
                offset: 0,
                needs_retry_sleep: false,
                ..s
            },
            pause,
            SyncRequestView::CheckSkip { topic: (s.topic + 1) as u32 },
        )
    }
}

/// Passing over a topic from the skip list: the next topic, or, after the last one, a new
/// pass from the resume point.
pub open spec fn skip_topic(s: SyncState) -> SyncStepView {
    if s.topic == s.max_topic_id {
        (
            SyncState { phase: SyncPhase::ReadingResume, ..s },
            seq![],
            SyncRequestView::ReadResumePoint { open_stores: false },
        )
    } else {
        (
            SyncState { phase: SyncPhase::CheckingSkip, topic: (s.topic + 1) as u32, ..s },
            seq![],
            SyncRequestView::CheckSkip { topic: (s.topic + 1) as u32 },
        )
    }
}

/// Prepends effects to a step.
pub open spec fn after(first: Seq<SyncEffectView>, step: SyncStepView) -> SyncStepView {
    (step.0, first + step.1, step.2)
}

/// The run stops with `message`, after `effects`.
pub open spec fn fail(s: SyncState, effects: Seq<SyncEffectView>, message: Seq<char>) -> SyncStepView {
    (SyncState { phase: SyncPhase::Failed, ..s }, effects, SyncRequestView::Fail { message })
}

/// The successful reply for a topic page: index the page's documents, then fetch the next
/// page while posts remain (the offset plus a page, taken as an exact number, is below the
/// post count), or end the topic; a page lacking a field stops the run after its earlier
/// documents are indexed.
pub open spec fn topic_page(s: SyncState, f: TopicFieldsView) -> SyncStepView {
    let (docs, error) = topic_documents(s.topic, f);
    let index = seq![SyncEffectView::IndexDocuments(docs)];
    match error {
        Some(m) => fail(s, index, m),
        None => match f.posts {
            None => fail(s, index, topic_field_error("posts"@, s.topic)),
            Some(posts) => if s.offset + page_size() < posts {
                (
                    SyncState { offset: (s.offset + page_size()) as u64, ..s },
                    index,
                    SyncRequestView::FetchTopicPage {
                        topic: s.topic,
                        offset: (s.offset + page_size()) as u64,
                    },
                )
            } else {
                after(index, finish_topic(s))
            },
        },
    }
}

/// The transitions of a document synchronisation.
pub open spec fn sync_next(s: SyncState, e: SyncEventView) -> SyncStepView {
    match e {
        SyncEventView::TopicListSendFailed => (
            SyncState { phase: SyncPhase::ReadingResume, ..s },
            seq![],
            SyncRequestView::ReadResumePoint { open_stores: true },
        ),
        SyncEventView::TopicListReply { status, list } => if !is_success(status) {
            (
                s,
                if status == too_many_requests() {
                    seq![SyncEffectView::Sleep]
                } else {
                    seq![]
                },
                SyncRequestView::FetchTopicList,
            )
        } else {
            match list {
                TopicListBody::Unparsable => fail(
                    s,
                    seq![],
                    "failed to parse the max_topic_id response body"@,
                ),
                TopicListBody::MissingTid => fail(
                    s,
                    seq![],
                    "missing or invalid 'tid' field in the max_topic_id response"@,
                ),
                TopicListBody::FirstTid(tid) => (
                    SyncState { phase: SyncPhase::ReadingResume, max_topic_id: tid as u32, ..s },
                    seq![],
                    SyncRequestView::ReadResumePoint { open_stores: true },
                ),
            }
        },
        SyncEventView::ResumePointRead { id } => {
            let start: u32 = match id {
                Some(t) => t,
                None => 1,
            };
            if start <= s.max_topic_id {
                (
                    SyncState {
                        phase: SyncPhase::CheckingSkip,
                        topic: start,
                        offset: 0,
                        needs_retry_sleep: false,
                        ..s
                    },
                    seq![],
                    SyncRequestView::CheckSkip { topic: start },
                )
            } else {
                (
                    SyncState { phase: SyncPhase::ReadingResume, needs_retry_sleep: false, ..s },
                    seq![],
                    SyncRequestView::ReadResumePoint { open_stores: false },
                )
            }
        },
        SyncEventView::SkipChecked { skipped } => if skipped {
            skip_topic(s)
        } else {
            (
                SyncState { phase: SyncPhase::FetchingPage, offset: 0, ..s },
                seq![],
                SyncRequestView::FetchTopicPage { topic: s.topic, offset: 0 },
            )
        },
        SyncEventView::TopicSendFailed => (
            SyncState { phase: SyncPhase::Finished, ..s },
            seq![SyncEffectView::MarkSkipped(s.topic)],
            SyncRequestView::Finish,
        ),
        SyncEventView::TopicReply { status, page } => if !is_success(status) {
            if status == too_many_requests() {
                after(
                    seq![SyncEffectView::SetResumePoint(s.topic)],
                    finish_topic(SyncState { needs_retry_sleep: true, ..s }),
                )
            } else {
                after(seq![SyncEffectView::MarkSkipped(s.topic)], finish_topic(s))
            }
        } else {
            match page {
                TopicBodyView::Unparsable => fail(
                    s,
                    seq![],
                    "Failed to parse JSON from success response"@,
                ),
                TopicBodyView::Parsed(f) => topic_page(s, f),
            }
        },
    }
}

} // verus!

verus! {

fn finish_topic_step(s: SyncState, mut effects: Vec<SyncEffect>) -> (r: SyncStep)
    requires
        s.topic <= s.max_topic_id,
    ensures
        r.view_of() == after(effects_view(effects@), finish_topic(s)),
{
    let ghost first = effects_view(effects@);
    if s.needs_retry_sleep {
        effects.push(SyncEffect::Sleep);
    }
    let ghost pause: Seq<SyncEffectView> = if s.needs_retry_sleep {
        seq![SyncEffectView::Sleep]
    } else {
        seq![]
    };
    assert(effects_view(effects@) == first + pause);
    if s.topic == s.max_topic_id {
        let ghost mid = effects@;
        effects.push(SyncEffect::DeleteResumePoint);
        assert(effects_view(effects@) == effects_view(mid).push(SyncEffectView::DeleteResumePoint));
        assert(first + pause.push(SyncEffectView::DeleteResumePoint) == (first + pause).push(SyncEffectView::DeleteResumePoint));
        SyncStep {
            state: SyncState { phase: SyncPhase::Finished, needs_retry_sleep: false, ..s },
            effects,
            request: SyncRequest::Finish,
        }
    } else {
        let next = s.topic + 1;
        SyncStep {
            state: SyncState {
                phase: SyncPhase::CheckingSkip,
                topic: next,
                offset: 0,
                needs_retry_sleep: false,
                ..s
            },
            effects,
            request: SyncRequest::CheckSkip { topic: next },
        }
    }
}

fn fail_step(s: SyncState, effects: Vec<SyncEffect>, message: String) -> (r: SyncStep)
    ensures
        r.view_of() == fail(s, effects_view(effects@), message@),
{
    SyncStep {
        state: SyncState { phase: SyncPhase::Failed, ..s },
        effects,
        request: SyncRequest::Fail { message },
    }
}

/// The first step of a run: ask for the newest topic.
pub fn sync_start() -> (r: SyncStep)
    ensures
        r.view_of() == (initial_state(), Seq::<SyncEffectView>::empty(), SyncRequestView::FetchTopicList),
{
    let effects: Vec<SyncEffect> = Vec::new();
    assert(effects_view(effects@) =~= Seq::<SyncEffectView>::empty());
    SyncStep {
        state: SyncState {
            phase: SyncPhase::FindingMax,
            max_topic_id: 0,
            topic: 0,
            offset: 0,
            needs_retry_sleep: false,
        },
        effects,
        request: SyncRequest::FetchTopicList,
    }
}

fn no_effects() -> (r: Vec<SyncEffect>)
    ensures
        effects_view(r@) == Seq::<SyncEffectView>::empty(),
{
    let r: Vec<SyncEffect> = Vec::new();
    assert(effects_view(r@) =~= Seq::<SyncEffectView>::empty());
    r
}

fn one_effect(e: SyncEffect) -> (r: Vec<SyncEffect>)
    ensures
        effects_view(r@) == seq![e@],
{
    let mut r: Vec<SyncEffect> = Vec::new();
    r.push(e);
    assert(effects_view(r@) =~= seq![e@]);
    r
}

/// The next step of a run, given the answer to its last request.
pub fn sync_step(s: &SyncState, e: SyncEvent) -> (r: SyncStep)
    requires
        wf(*s),
        accepts(*s, e@),
    ensures
        r.view_of() == sync_next(*s, e@),
{
    let s = *s;
    let ghost ev = e@;
    match e {
        SyncEvent::TopicListSendFailed => SyncStep {
            state: SyncState { phase: SyncPhase::ReadingResume, ..s },
            effects: no_effects(),
            request: SyncRequest::ReadResumePoint { open_stores: true },
        },
        SyncEvent::TopicListReply { status, list } => {
            if !(200 <= status && status <= 299) {
                let effects = if status == 429 {
                    one_effect(SyncEffect::Sleep)
                } else {
                    no_effects()
                };
                SyncStep { state: s, effects, request: SyncRequest::FetchTopicList }
            } else {
                match list {
                    TopicListBody::Unparsable => fail_step(
                        s,
                        no_effects(),
                        "failed to parse the max_topic_id response body".to_owned(),
                    ),
                    TopicListBody::MissingTid => fail_step(
                        s,
                        no_effects(),
                        "missing or invalid 'tid' field in the max_topic_id response".to_owned(),
                    ),
                    TopicListBody::FirstTid(tid) => SyncStep {
                        state: SyncState {
                            phase: SyncPhase::ReadingResume,
                            max_topic_id: tid as u32,
                            ..s
                        },
                        effects: no_effects(),
                        request: SyncRequest::ReadResumePoint { open_stores: true },
                    },
                }
            }
        },
        SyncEvent::ResumePointRead { id } => {
            let start: u32 = match id {
                Some(t) => t,
                None => 1,
            };
            if start <= s.max_topic_id {
                SyncStep {
                    state: SyncState {
                        phase: SyncPhase::CheckingSkip,
                        topic: start,
                        offset: 0,
                        needs_retry_sleep: false,
                        ..s
                    },
                    effects: no_effects(),
                    request: SyncRequest::CheckSkip { topic: start },
                }
            } else {
                SyncStep {
                    state: SyncState { phase: SyncPhase::ReadingResume, needs_retry_sleep: false, ..s },
                    effects: no_effects(),
                    request: SyncRequest::ReadResumePoint { open_stores: false },
                }
            }
        },
        SyncEvent::SkipChecked { skipped } => {
            if skipped {
                if s.topic == s.max_topic_id {
                    SyncStep {
                        state: SyncState { phase: SyncPhase::ReadingResume, ..s },
                        effects: no_effects(),
                        request: SyncRequest::ReadResumePoint { open_stores: false },
                    }
                } else {
                    let next = s.topic + 1;
                    SyncStep {
                        state: SyncState { phase: SyncPhase::CheckingSkip, topic: next, ..s },
                        effects: no_effects(),
                        request: SyncRequest::CheckSkip { topic: next },
                    }
                }
            } else {
                SyncStep {
                    state: SyncState { phase: SyncPhase::FetchingPage, offset: 0, ..s },
                    effects: no_effects(),
                    request: SyncRequest::FetchTopicPage { topic: s.topic, offset: 0 },
                }
            }
        },
        SyncEvent::TopicSendFailed => SyncStep {
            state: SyncState { phase: SyncPhase::Finished, ..s },
            effects: one_effect(SyncEffect::MarkSkipped(s.topic)),
            request: SyncRequest::Finish,
        },
        SyncEvent::TopicReply { status, page } => {
            if !(200 <= status && status <= 299) {
                if status == 429 {
                    finish_topic_step(
                        SyncState { needs_retry_sleep: true, ..s },
                        one_effect(SyncEffect::SetResumePoint(s.topic)),
                    )
                } else {
                    finish_topic_step(s, one_effect(SyncEffect::MarkSkipped(s.topic)))
                }
            } else {
                match page {
                    TopicBody::Unparsable => fail_step(
                        s,
                        no_effects(),
                        "Failed to parse JSON from success response".to_owned(),
                    ),
                    TopicBody::Parsed(f) => topic_page_step(s, &f),
                }
            }
        },
    }
}

fn topic_page_step(s: SyncState, f: &TopicFields) -> (r: SyncStep)
    requires
        s.topic <= s.max_topic_id,
    ensures
        r.view_of() == topic_page(s, f@),
{
    let (docs, error) = make_topic_documents(s.topic, f);
    let ghost dv = documents_view(docs@);
    let index = one_effect(SyncEffect::IndexDocuments(docs));
    assert(effects_view(index@) == seq![SyncEffectView::IndexDocuments(dv)]);
    match error {
        Some(m) => fail_step(s, index, m),
        None => match f.posts {
            None => {
                fail_step(s, index, topic_field_message("posts", s.topic))
            },
            Some(posts) => {
                if s.offset < posts && posts - s.offset > 100 {
                    let offset = s.offset + 100;
                    SyncStep {
                        state: SyncState { offset, ..s },
                        effects: index,
                        request: SyncRequest::FetchTopicPage { topic: s.topic, offset },
                    }
                } else {
                    finish_topic_step(s, index)
                }
            },
        },
    }
}

} // verus!

verus! {

/// Every step keeps the run's state well formed: the current topic stays within the pass
/// and page offsets stay whole pages.
pub proof fn law_sync_state_stays_wf(s: SyncState, e: SyncEventView)
    requires
        wf(s),
        accepts(s, e),
    ensures
        wf(sync_next(s, e).0),
{
}

/// The run starts well formed.
pub proof fn law_sync_starts_wf()
    ensures
        wf(initial_state()),
{
}

/// The resume point is written only when the forum rate-limits a topic page, and it is
/// that topic that is written.
pub proof fn law_resume_point_only_on_rate_limit(s: SyncState, e: SyncEventView, k: int)
    requires
        wf(s),
        accepts(s, e),
        0 <= k < sync_next(s, e).1.len(),
        sync_next(s, e).1[k] is SetResumePoint,
    ensures
        e matches SyncEventView::TopicReply { status, .. } && status == too_many_requests(),
        sync_next(s, e).1[k] == SyncEffectView::SetResumePoint(s.topic),
{
    let r = sync_next(s, e);
    match e {
        SyncEventView::TopicReply { status, page } => {
            if is_success(status) {
                match page {
                    TopicBodyView::Parsed(f) => {
                        let (docs, error) = topic_documents(s.topic, f);
                        if error is None && f.posts is Some {
                            let posts = f.posts->0;
                            if !(s.offset + page_size() < posts) {
                                let index = seq![SyncEffectView::IndexDocuments(docs)];
                                assert(r.1 == index + finish_topic(s).1);
                                if k > 0 {
                                    assert(r.1[k] == finish_topic(s).1[k - 1]);
                                }
                            }
                        }
                    },
                    _ => {},
                }
            } else if status != too_many_requests() {
                let first = seq![SyncEffectView::MarkSkipped(s.topic)];
                assert(r.1 == first + finish_topic(s).1);
                if k > 0 {
                    assert(r.1[k] == finish_topic(s).1[k - 1]);
                }
            } else {
                let first = seq![SyncEffectView::SetResumePoint(s.topic)];
                let s2 = SyncState { needs_retry_sleep: true, ..s };
                assert(r.1 == first + finish_topic(s2).1);
                if k > 0 {
                    assert(r.1[k] == finish_topic(s2).1[k - 1]);
                }
            }
        },
        _ => {},
    }
}

/// A rate-limited topic page stores the topic as the resume point, pauses for a minute,
/// and moves on to the next topic; after the last topic the resume point is deleted and
/// the run ends.
pub proof fn law_rate_limited_page(s: SyncState, page: TopicBodyView)
    requires
        wf(s),
        s.phase == SyncPhase::FetchingPage,
    ensures
        ({
            let r = sync_next(s, SyncEventView::TopicReply { status: too_many_requests(), page });
            if s.topic == s.max_topic_id {
                r.1 == seq![
                    SyncEffectView::SetResumePoint(s.topic),
                    SyncEffectView::Sleep,
                    SyncEffectView::DeleteResumePoint,
                ] && r.2 == SyncRequestView::Finish && r.0.phase == SyncPhase::Finished
            } else {
                r.1 == seq![SyncEffectView::SetResumePoint(s.topic), SyncEffectView::Sleep] && r.2
                    == SyncRequestView::CheckSkip { topic: (s.topic + 1) as u32 } && !r.0.needs_retry_sleep
            }
        }),
{
    let r = sync_next(s, SyncEventView::TopicReply { status: too_many_requests(), page });
    if s.topic == s.max_topic_id {
        assert(r.1 =~= seq![
            SyncEffectView::SetResumePoint(s.topic),
            SyncEffectView::Sleep,
            SyncEffectView::DeleteResumePoint,
        ]);
    } else {
        assert(r.1 =~= seq![SyncEffectView::SetResumePoint(s.topic), SyncEffectView::Sleep]);
    }
}

/// Topics are visited in increasing order: the next topic checked is the one after the
/// current topic, or, at the start of a pass, the resume point (topic 1 when there is none).
pub proof fn law_topics_in_order(s: SyncState, e: SyncEventView)
    requires
        wf(s),
        accepts(s, e),
        sync_next(s, e).2 is CheckSkip,
    ensures
        ({
            let t = sync_next(s, e).2->CheckSkip_topic;
            ||| t == s.topic + 1 && t <= s.max_topic_id
            ||| e matches SyncEventView::ResumePointRead { id } && t == (match id {
                Some(i) => i,
                None => 1u32,
            }) && t <= s.max_topic_id
        }),
{
    match e {
        SyncEventView::TopicReply { status, page } => {
            if is_success(status) {
                match page {
                    TopicBodyView::Parsed(f) => {
                        let (docs, error) = topic_documents(s.topic, f);
                        if error is None && f.posts is Some {
                            let posts = f.posts->0;
                            if !(s.offset + page_size() < posts) {
                                assert(sync_next(s, e).2 == finish_topic(s).2);
                            }
                        }
                    },
                    _ => {},
                }
            }
        },
        _ => {},
    }
}

/// The pages of a topic are fetched in order: the first from offset 0, each next one a
/// page further, always for the current topic.
pub proof fn law_pages_in_order(s: SyncState, e: SyncEventView)
    requires
        wf(s),
        accepts(s, e),
        sync_next(s, e).2 is FetchTopicPage,
    ensures
        sync_next(s, e).2->FetchTopicPage_topic == s.topic,
        s.phase == SyncPhase::CheckingSkip ==> sync_next(s, e).2->FetchTopicPage_offset == 0,
        s.phase == SyncPhase::FetchingPage ==> sync_next(s, e).2->FetchTopicPage_offset == s.offset
            + page_size(),
{
    match e {
        SyncEventView::TopicReply { status, page } => {
            if is_success(status) {
                match page {
                    TopicBodyView::Parsed(f) => {
                        let (docs, error) = topic_documents(s.topic, f);
                        if error is None && f.posts is Some {
                            let posts = f.posts->0;
                            if !(s.offset + page_size() < posts) {
                                assert(sync_next(s, e).2 == finish_topic(s).2);
                            }
                        }
                    },
                    _ => {},
                }
            }
        },
        _ => {},
    }
}

/// A run ends normally in one of two ways: a topic page request could not be sent, and the
/// topic is added to the skip list; or the last topic was done, and the resume point is
/// deleted as the run's last effect.
pub proof fn law_run_ends_cleanly(s: SyncState, e: SyncEventView)
    requires
        wf(s),
        accepts(s, e),
        sync_next(s, e).2 is Finish,
    ensures
        ({
            let r = sync_next(s, e);
            ||| e is TopicSendFailed && r.1 == seq![SyncEffectView::MarkSkipped(s.topic)]
            ||| s.topic == s.max_topic_id && r.1.len() > 0 && r.1.last()
                == SyncEffectView::DeleteResumePoint
        }),
        sync_next(s, e).0.phase == SyncPhase::Finished,
{
    match e {
        SyncEventView::TopicReply { status, page } => {
            if is_success(status) {
                match page {
                    TopicBodyView::Parsed(f) => {
                        let (docs, error) = topic_documents(s.topic, f);
                        if error is None && f.posts is Some {
                            let posts = f.posts->0;
                            if !(s.offset + page_size() < posts) {
                                let index = seq![SyncEffectView::IndexDocuments(docs)];
                                assert(sync_next(s, e).1 == index + finish_topic(s).1);
                            }
                        }
                    },
                    _ => {},
                }
            } else if status == too_many_requests() {
                let s2 = SyncState { needs_retry_sleep: true, ..s };
                assert(sync_next(s, e).1 == seq![SyncEffectView::SetResumePoint(s.topic)] + finish_topic(s2).1);
            } else {
                assert(sync_next(s, e).1 == seq![SyncEffectView::MarkSkipped(s.topic)] + finish_topic(s).1);
            }
        },
        _ => {},
    }
}

/// A run that has ended, normally or not, answers nothing more.
pub proof fn law_ended_run_is_final(s: SyncState, e: SyncEventView)
    requires
        s.phase == SyncPhase::Finished || s.phase == SyncPhase::Failed,
    ensures
        !accepts(s, e),
{
}

} // verus!

verus! {

/// A topic on the skip list is never fetched: the run moves on to the next topic, or to a
/// new pass after the last one, without effects.
pub proof fn law_skipped_topic_not_fetched(s: SyncState)
    requires
        wf(s),
        s.phase == SyncPhase::CheckingSkip,
    ensures
        !(sync_next(s, SyncEventView::SkipChecked { skipped: true }).2 is FetchTopicPage),
        sync_next(s, SyncEventView::SkipChecked { skipped: true }).1.len() == 0,
{
}

} // verus!

verus! {

/// Every page of a topic is fetched: after a complete page whose topic has more posts past
/// the next hundred, the page's documents are indexed and the next hundred posts of the same
/// topic are asked for, whatever the offset; only when no post is left past the page does
/// the run leave the topic.
pub proof fn law_every_page_of_a_topic_fetched(s: SyncState, status: u16, f: TopicFieldsView)
    requires
        s.phase == SyncPhase::FetchingPage,
        200 <= status <= 299,
        topic_documents(s.topic, f).1 is None,
        f.posts is Some,
    ensures
        ({
            let r = sync_next(s, SyncEventView::TopicReply { status, page: TopicBodyView::Parsed(f) });
            let n = f.posts->0;
            &&& r.1.len() >= 1
            &&& r.1[0] == SyncEffectView::IndexDocuments(topic_documents(s.topic, f).0)
            &&& s.offset + 100 < n ==> {
                &&& r.2 == SyncRequestView::FetchTopicPage { topic: s.topic, offset: (s.offset + 100) as u64 }
                &&& r.1.len() == 1
                &&& r.0.topic == s.topic
                &&& r.0.offset == s.offset + 100
                &&& r.0.phase == SyncPhase::FetchingPage
            }
            &&& !(s.offset + 100 < n) ==> !(r.2 is FetchTopicPage) && r.0.phase != SyncPhase::FetchingPage
        }),
{
    let n = f.posts->0;
    if !(s.offset + 100 < n) {
        let index = seq![SyncEffectView::IndexDocuments(topic_documents(s.topic, f).0)];
        assert(sync_next(s, SyncEventView::TopicReply { status, page: TopicBodyView::Parsed(f) }).1
            == index + finish_topic(s).1);
    }
}

} // verus!
