use topos::documents::{make_post_document, make_topic_documents, PostFields, TopicFields};
use topos::endpoints::{
    bearer, documents_delete_url, documents_url, index_setting_url, index_settings, indexes_url,
    posts_index_definition, posts_index_url, search_url, topic_filter, topic_list_url, topic_page_url,
};
use topos::sync_posts::{
    sync_start, sync_step, SyncEffect, SyncEvent, SyncPhase, SyncRequest, SyncStep, TopicBody,
    TopicListBody,
};

fn post(pid: u64, secs: u64, name: &str, html: &str) -> PostFields {
    PostFields {
        pid: Some(pid),
        post_date: Some(secs),
        author_id: Some(9),
        author_name: Some(name.to_string()),
        post_rendered: Some(html.to_string()),
    }
}

fn topic(tid: u64, posts: Vec<PostFields>, count: u64) -> TopicFields {
    TopicFields {
        tid: Some(tid),
        title: Some("Title".to_string()),
        description: Some("Desc".to_string()),
        posts_list: Some(posts),
        posts: Some(count),
    }
}

#[test]
fn post_document_fields() {
    let d = make_post_document(3, 3, &"T".to_string(), &"D".to_string(), 0,
        &post(11, 1431648000, "ann", "<p>hi &amp; bye</p>")).unwrap();
    assert_eq!(d.tid, 3);
    assert_eq!(d.pid, 11);
    assert_eq!(d.post_date, "2015-05-15 00:00:00 UTC");
    assert_eq!(d.author_id, 9);
    assert_eq!(d.author_name, "ann");
    assert_eq!(d.post_rendered, "hi & bye");
    assert_eq!(d.title, "T");
    assert_eq!(d.description, "D");
}

#[test]
fn post_document_errors() {
    let t = "T".to_string();
    let mut p = post(11, 0, "a", "x");
    p.pid = None;
    assert_eq!(make_post_document(5, 5, &t, &t, 2, &p).err().unwrap(),
        "missing or invalid 'pid' field in the topic 5, post_list 2");
    let mut p = post(11, 0, "a", "x");
    p.post_date = None;
    assert_eq!(make_post_document(5, 5, &t, &t, 2, &p).err().unwrap(),
        "missing or invalid 'post_date' field in the topic 5, post 11");
    let p = post(11, u64::MAX / 2, "a", "x");
    assert_eq!(make_post_document(5, 5, &t, &t, 2, &p).err().unwrap(),
        "missing or invalid 'post_date' field in DateTime::from_timestamp in the topic 5, post 11");
    let mut p = post(11, 0, "a", "x");
    p.author_id = None;
    assert_eq!(make_post_document(5, 5, &t, &t, 2, &p).err().unwrap(),
        "missing or invalid 'author.id' field in the topic 5, post 11");
    let mut p = post(11, 0, "a", "x");
    p.author_name = None;
    assert_eq!(make_post_document(5, 5, &t, &t, 2, &p).err().unwrap(),
        "missing or invalid 'author.name' field in the topic 5, post 11");
    let mut p = post(11, 0, "a", "x");
    p.post_rendered = None;
    assert_eq!(make_post_document(5, 5, &t, &t, 2, &p).err().unwrap(),
        "missing or invalid 'post_rendered' field in the topic 5, post 11");
    // Ids are truncated to 32 bits.
    let p = post((1u64 << 32) + 4, 0, "a", "x");
    assert_eq!(make_post_document(5, 5, &t, &t, 0, &p).unwrap().pid, 4);
}

#[test]
fn topic_documents_stop_at_the_first_bad_post() {
    let mut bad = post(2, 0, "b", "y");
    bad.author_name = None;
    let f = topic(4, vec![post(1, 0, "a", "x"), bad, post(3, 0, "c", "z")], 3);
    let (docs, err) = make_topic_documents(4, &f);
    assert_eq!(docs.len(), 1);
    assert_eq!(docs[0].pid, 1);
    assert_eq!(err.unwrap(), "missing or invalid 'author.name' field in the topic 4, post 2");
    let mut f = topic(4, vec![], 0);
    f.title = None;
    let (docs, err) = make_topic_documents(4, &f);
    assert!(docs.is_empty());
    assert_eq!(err.unwrap(), "missing or invalid 'title' field in the topic 4");
}

fn step(s: &SyncStep, e: SyncEvent) -> SyncStep {
    sync_step(&s.state, e)
}

fn ok_page(tid: u64, count: u64) -> SyncEvent {
    SyncEvent::TopicReply { status: 200, page: TopicBody::Parsed(topic(tid, vec![post(tid * 10, 0, "a", "x")], count)) }
}

#[test]
fn a_full_run() {
    let s = sync_start();
    assert!(matches!(s.request, SyncRequest::FetchTopicList));
    // Rate limited: pause, then ask again.
    let s = step(&s, SyncEvent::TopicListReply { status: 429, list: TopicListBody::Unparsable });
    assert!(matches!(s.effects.as_slice(), [SyncEffect::Sleep]));
    assert!(matches!(s.request, SyncRequest::FetchTopicList));
    // Other errors: ask again at once.
    let s = step(&s, SyncEvent::TopicListReply { status: 500, list: TopicListBody::Unparsable });
    assert!(s.effects.is_empty());
    let s = step(&s, SyncEvent::TopicListReply { status: 200, list: TopicListBody::FirstTid(3) });
    assert_eq!(s.state.max_topic_id, 3);
    assert!(matches!(s.request, SyncRequest::ReadResumePoint { open_stores: true }));
    // No resume point: start at topic 1.
    let s = step(&s, SyncEvent::ResumePointRead { id: None });
    assert!(matches!(s.request, SyncRequest::CheckSkip { topic: 1 }));
    // Topic 1 is known to be invalid.
    let s = step(&s, SyncEvent::SkipChecked { skipped: true });
    assert!(matches!(s.request, SyncRequest::CheckSkip { topic: 2 }));
    let s = step(&s, SyncEvent::SkipChecked { skipped: false });
    assert!(matches!(s.request, SyncRequest::FetchTopicPage { topic: 2, offset: 0 }));
    // 250 posts: pages at 0, 100, 200.
    let s = step(&s, ok_page(2, 250));
    assert!(matches!(s.effects.as_slice(), [SyncEffect::IndexDocuments(d)] if d.len() == 1 && d[0].pid == 20));
    assert!(matches!(s.request, SyncRequest::FetchTopicPage { topic: 2, offset: 100 }));
    let s = step(&s, ok_page(2, 250));
    assert!(matches!(s.request, SyncRequest::FetchTopicPage { topic: 2, offset: 200 }));
    let s = step(&s, ok_page(2, 250));
    assert!(matches!(s.request, SyncRequest::CheckSkip { topic: 3 }));
    let s = step(&s, SyncEvent::SkipChecked { skipped: false });
    // Topic 3 is rate limited: store it, pause, and since it is the last one, finish.
    let s = step(&s, SyncEvent::TopicReply { status: 429, page: TopicBody::Unparsable });
    assert!(matches!(
        s.effects.as_slice(),
        [SyncEffect::SetResumePoint(3), SyncEffect::Sleep, SyncEffect::DeleteResumePoint]
    ));
    assert!(matches!(s.request, SyncRequest::Finish));
    assert!(s.state.phase == SyncPhase::Finished);
}

#[test]
fn run_restarts_from_the_resume_point_and_stops_on_errors() {
    let s = sync_start();
    let s = step(&s, SyncEvent::TopicListReply { status: 200, list: TopicListBody::FirstTid(10) });
    let s = step(&s, SyncEvent::ResumePointRead { id: Some(7) });
    assert!(matches!(s.request, SyncRequest::CheckSkip { topic: 7 }));
    let s = step(&s, SyncEvent::SkipChecked { skipped: false });
    // A failed topic is put on the skip list and the run goes on.
    let s2 = step(&s, SyncEvent::TopicReply { status: 404, page: TopicBody::Unparsable });
    assert!(matches!(s2.effects.as_slice(), [SyncEffect::MarkSkipped(7)]));
    assert!(matches!(s2.request, SyncRequest::CheckSkip { topic: 8 }));
    // A page that cannot be sent for ends the run, skipping the topic.
    let s3 = step(&s, SyncEvent::TopicSendFailed);
    assert!(matches!(s3.effects.as_slice(), [SyncEffect::MarkSkipped(7)]));
    assert!(matches!(s3.request, SyncRequest::Finish));
    // A success that is not JSON stops the run.
    let s4 = step(&s, SyncEvent::TopicReply { status: 200, page: TopicBody::Unparsable });
    assert!(matches!(&s4.request, SyncRequest::Fail { message } if message == "Failed to parse JSON from success response"));
    // A page without its post count stops the run after indexing its posts.
    let mut f = topic(7, vec![post(70, 0, "a", "x")], 0);
    f.posts = None;
    let s5 = step(&s, SyncEvent::TopicReply { status: 200, page: TopicBody::Parsed(f) });
    assert!(matches!(s5.effects.as_slice(), [SyncEffect::IndexDocuments(d)] if d.len() == 1));
    assert!(matches!(&s5.request, SyncRequest::Fail { message } if message == "missing or invalid 'posts' field in the topic 7"));
}

#[test]
fn newest_topic_errors() {
    let s = sync_start();
    let a = step(&s, SyncEvent::TopicListReply { status: 200, list: TopicListBody::Unparsable });
    assert!(matches!(&a.request, SyncRequest::Fail { message } if message == "failed to parse the max_topic_id response body"));
    let b = step(&s, SyncEvent::TopicListReply { status: 200, list: TopicListBody::MissingTid });
    assert!(matches!(&b.request, SyncRequest::Fail { message } if message == "missing or invalid 'tid' field in the max_topic_id response"));
    // Without an answer the newest topic stays 0: the pass is empty and the resume point is read again.
    let c = step(&s, SyncEvent::TopicListSendFailed);
    assert!(matches!(c.request, SyncRequest::ReadResumePoint { open_stores: true }));
    let d = step(&c, SyncEvent::ResumePointRead { id: None });
    assert!(matches!(d.request, SyncRequest::ReadResumePoint { open_stores: false }));
    // Ids are truncated to 32 bits.
    let e = step(&s, SyncEvent::TopicListReply { status: 200, list: TopicListBody::FirstTid((1u64 << 32) + 5) });
    assert_eq!(e.state.max_topic_id, 5);
}

#[test]
fn routes_and_settings() {
    assert_eq!(topic_list_url("https://api.trow.cc"),
        "https://api.trow.cc/board/topics?limit=1&pinned_on_top=0&order_by=start_date");
    assert_eq!(topic_page_url("https://api.trow.cc", 12, 300),
        "https://api.trow.cc/board/topics/12?limit=100&offset=300");
    assert_eq!(topic_filter(12), "tid = 12");
    assert_eq!(documents_delete_url("http://m"), "http://m/indexes/posts/documents/delete");
    assert_eq!(documents_url("http://m"), "http://m/indexes/posts/documents");
    assert_eq!(posts_index_url("http://m"), "http://m/indexes/posts");
    assert_eq!(indexes_url("http://m"), "http://m/indexes");
    assert_eq!(index_setting_url("http://m", "ranking-rules"), "http://m/indexes/posts/settings/ranking-rules");
    assert_eq!(search_url("http://m"), "http://m/indexes/posts/search");
    assert_eq!(bearer("k"), "Bearer k");
    let def = posts_index_definition();
    assert_eq!((def.uid.as_str(), def.primary_key.as_str()), ("posts", "pid"));
    let s = index_settings();
    assert_eq!(s.len(), 3);
    assert_eq!(s[0].path, "sortable-attributes");
    assert_eq!(s[0].values, vec!["post_date"]);
    assert_eq!(s[1].path, "ranking-rules");
    assert_eq!(s[1].values, vec!["words", "sort", "typo", "proximity", "attribute", "exactness"]);
    assert_eq!(s[2].path, "filterable-attributes");
    assert_eq!(s[2].values, vec!["tid"]);
}
