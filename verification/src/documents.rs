use vstd::prelude::*;
use vstd::string::*;
use crate::text::{decimal, decimal_text, trim};
use crate::text_cleaner::{decoded_html_entities, strip_and_decode_html, strip_tags};

verus! {

/// What a post of a topic page holds, as read from its JSON (`None` where a field is
/// missing or of another type).
pub struct PostFields {
    pub pid: Option<u64>,
    pub post_date: Option<u64>,
    pub author_id: Option<u64>,
    pub author_name: Option<String>,
    pub post_rendered: Option<String>,
}

pub struct PostFieldsView {
    pub pid: Option<u64>,
    pub post_date: Option<u64>,
    pub author_id: Option<u64>,
    pub author_name: Option<Seq<char>>,
    pub post_rendered: Option<Seq<char>>,
}

pub open spec fn opt_text(s: Option<String>) -> Option<Seq<char>> {
    match s {
        Some(t) => Some(t@),
        None => None,
    }
}

impl View for PostFields {
    type V = PostFieldsView;

    open spec fn view(&self) -> PostFieldsView {
        PostFieldsView {
            pid: self.pid,
            post_date: self.post_date,
            author_id: self.author_id,
            author_name: opt_text(self.author_name),
            post_rendered: opt_text(self.post_rendered),
        }
    }
}

/// What a page of a topic holds, as read from its JSON.
pub struct TopicFields {
    pub tid: Option<u64>,
    pub title: Option<String>,
    pub description: Option<String>,
    pub posts_list: Option<Vec<PostFields>>,
    pub posts: Option<u64>,
}

pub struct TopicFieldsView {
    pub tid: Option<u64>,
    pub title: Option<Seq<char>>,
    pub description: Option<Seq<char>>,
    pub posts_list: Option<Seq<PostFieldsView>>,
    pub posts: Option<u64>,
}

pub open spec fn posts_view(v: Seq<PostFields>) -> Seq<PostFieldsView> {
    v.map_values(|p: PostFields| p@)
}

impl View for TopicFields {
    type V = TopicFieldsView;

    open spec fn view(&self) -> TopicFieldsView {
        TopicFieldsView {
            tid: self.tid,
            title: opt_text(self.title),
            description: opt_text(self.description),
            posts_list: match self.posts_list {
                Some(v) => Some(posts_view(v@)),
                None => None,
            },
            posts: self.posts,
        }
    }
}

/// A post as it is sent to the search index.
pub struct PostDocument {
    pub tid: u32,
    pub title: String,
    pub description: String,
    pub pid: u32,
    pub post_date: String,
    pub author_id: u32,
    pub author_name: String,
    pub post_rendered: String,
}

pub struct PostDocumentView {
    pub tid: u32,
    pub title: Seq<char>,
    pub description: Seq<char>,
    pub pid: u32,
    pub post_date: Seq<char>,
    pub author_id: u32,
    pub author_name: Seq<char>,
    pub post_rendered: Seq<char>,
}

impl View for PostDocument {
    type V = PostDocumentView;

    open spec fn view(&self) -> PostDocumentView {
        PostDocumentView {
            tid: self.tid,
            title: self.title@,
            description: self.description@,
            pid: self.pid,
            post_date: self.post_date@,
            author_id: self.author_id,
            author_name: self.author_name@,
            post_rendered: self.post_rendered@,
        }
    }
}

pub open spec fn documents_view(v: Seq<PostDocument>) -> Seq<PostDocumentView> {
    v.map_values(|d: PostDocument| d@)
}

/// What `chrono::DateTime::from_timestamp(secs, 0)` followed by `to_string()` gives: the UTC
/// date and time `secs` seconds after the Unix epoch, written `YYYY-MM-DD HH:MM:SS UTC`, or
/// `None` when it is out of the representable range.
pub uninterp spec fn utc_date_time_text(secs: int) -> Option<Seq<char>>;

/// Calls `chrono::DateTime::from_timestamp(secs, 0)` and, when it gives a date, writes it
/// with `to_string()`. The result is named by `utc_date_time_text`; the calendar arithmetic
/// and the range limit are not restated.
#[verifier::external_body]
fn utc_timestamp_text(secs: i64) -> (r: Option<String>)
    ensures
        opt_text(r) == utc_date_time_text(secs as int),
{
    chrono::DateTime::from_timestamp(secs, 0).map(|d| d.to_string())
}

/// The message for a topic field that is missing or invalid.
pub open spec fn topic_field_error(field: Seq<char>, topic: u32) -> Seq<char> {
    "missing or invalid '"@ + field + "' field in the topic "@ + decimal(topic as nat)
}

/// The message for a post field that is missing or invalid; `at` names the post.
pub open spec fn post_field_error(field: Seq<char>, topic: u32, at: Seq<char>) -> Seq<char> {
    topic_field_error(field, topic) + at
}

/// `, post_list <i>`: the post by its place in the list.
pub open spec fn at_index(i: nat) -> Seq<char> {
    ", post_list "@ + decimal(i)
}

/// `, post <pid>`: the post by its id.
pub open spec fn at_pid(pid: u32) -> Seq<char> {
    ", post "@ + decimal(pid as nat)
}

/// The message for a publication time that no date stands for.
pub open spec fn date_range_error(topic: u32, pid: u32) -> Seq<char> {
    "missing or invalid 'post_date' field in DateTime::from_timestamp in the topic "@ + decimal(
        topic as nat,
    ) + at_pid(pid)
}

/// The document for the post `p`, number `i` in the list of topic `topic` whose id, title and
/// description are `tid`, `title` and `description`; or the message for its first missing or
/// invalid field, in the order id, publication time, date, author id, author name, text.
/// Ids are kept to their low 32 bits, and the publication time is read as a signed number of
/// seconds (two's complement), as `as` casts give them.
pub open spec fn post_document(
    topic: u32,
    tid: u32,
    title: Seq<char>,
    description: Seq<char>,
    i: nat,
    p: PostFieldsView,
) -> Result<PostDocumentView, Seq<char>> {
    match p.pid {
        None => Err(post_field_error("pid"@, topic, at_index(i))),
        Some(pid64) => {
            let pid = pid64 as u32;
            match p.post_date {
                None => Err(post_field_error("post_date"@, topic, at_pid(pid))),
                Some(secs) => match utc_date_time_text((secs as i64) as int) {
                    None => Err(date_range_error(topic, pid)),
                    Some(date) => match p.author_id {
                        None => Err(post_field_error("author.id"@, topic, at_pid(pid))),
                        Some(aid) => match p.author_name {
                            None => Err(post_field_error("author.name"@, topic, at_pid(pid))),
                            Some(name) => match p.post_rendered {
                                None => Err(post_field_error("post_rendered"@, topic, at_pid(pid))),
                                Some(html) => Ok(
                                    PostDocumentView {
                                        tid,
                                        title,
                                        description,
                                        pid,
                                        post_date: date,
                                        author_id: aid as u32,
                                        author_name: name,
                                        post_rendered: trim(decoded_html_entities(strip_tags(html))),
                                    },
                                ),
                            },
                        },
                    },
                },
            }
        },
    }
}

/// The documents for `posts` (numbered from `i`), up to the first post that lacks a field,
/// and the message for that post if there is one.
pub open spec fn post_documents(
    topic: u32,
    tid: u32,
    title: Seq<char>,
    description: Seq<char>,
    i: nat,
    posts: Seq<PostFieldsView>,
) -> (Seq<PostDocumentView>, Option<Seq<char>>)
    decreases posts.len(),
{
    if posts.len() == 0 {
        (seq![], None)
    } else {
        match post_document(topic, tid, title, description, i, posts[0]) {
            Err(m) => (seq![], Some(m)),
            Ok(d) => {
                let rest = post_documents(topic, tid, title, description, i + 1, posts.drop_first());
                (seq![d] + rest.0, rest.1)
            },
        }
    }
}

/// The documents of a topic page and, if the page lacks a field, the message for the first
/// one: the topic's id, title, description and post list are checked first, then each post.
pub open spec fn topic_documents(topic: u32, f: TopicFieldsView) -> (
    Seq<PostDocumentView>,
    Option<Seq<char>>,
) {
    match f.tid {
        None => (seq![], Some(topic_field_error("tid"@, topic))),
        Some(tid) => match f.title {
            None => (seq![], Some(topic_field_error("title"@, topic))),
            Some(title) => match f.description {
                None => (seq![], Some(topic_field_error("description"@, topic))),
                Some(description) => match f.posts_list {
                    None => (seq![], Some(topic_field_error("posts_list"@, topic))),
                    Some(list) => post_documents(topic, tid as u32, title, description, 0, list),
                },
            },
        },
    }
}

pub(crate) fn topic_field_message(field: &str, topic: u32) -> (r: String)
    ensures
        r@ == topic_field_error(field@, topic),
{
    "missing or invalid '".to_owned().concat(field).concat("' field in the topic ").concat(
        decimal_text(topic as u64).as_str(),
    )
}

fn post_field_message(field: &str, topic: u32, at: &str) -> (r: String)
    ensures
        r@ == post_field_error(field@, topic, at@),
{
    topic_field_message(field, topic).concat(at)
}

fn index_text(i: usize) -> (r: String)
    ensures
        r@ == at_index(i as nat),
{
    ", post_list ".to_owned().concat(decimal_text(i as u64).as_str())
}

fn pid_text(pid: u32) -> (r: String)
    ensures
        r@ == at_pid(pid),
{
    ", post ".to_owned().concat(decimal_text(pid as u64).as_str())
}

fn copy_text(s: &String) -> (r: String)
    ensures
        r@ == s@,
{
    s.clone()
}

/// The document for one post, given the text for its publication time that
/// `utc_timestamp_text` gave (`date`, unused when the post has no publication time).
pub fn post_document_with_date(
    topic: u32,
    tid: u32,
    title: &String,
    description: &String,
    i: usize,
    p: &PostFields,
    date: Option<String>,
) -> (r: Result<PostDocument, String>)
    requires
        p.post_date is Some ==> opt_text(date) == utc_date_time_text(
            (p.post_date->0 as i64) as int,
        ),
    ensures
        match r {
            Ok(d) => post_document(topic, tid, title@, description@, i as nat, p@) == Ok::<
                PostDocumentView,
                Seq<char>,
            >(d@),
            Err(m) => post_document(topic, tid, title@, description@, i as nat, p@) == Err::<
                PostDocumentView,
                Seq<char>,
            >(m@),
        },
{
    let pid = match p.pid {
        None => return Err(post_field_message("pid", topic, index_text(i).as_str())),
        Some(v) => v as u32,
    };
    let at = pid_text(pid);
    if p.post_date.is_none() {
        return Err(post_field_message("post_date", topic, at.as_str()));
    }
    let post_date = match date {
        None => {
            return Err(
                "missing or invalid 'post_date' field in DateTime::from_timestamp in the topic ".to_owned().concat(
                    decimal_text(topic as u64).as_str(),
                ).concat(at.as_str()),
            )
        },
        Some(d) => d,
    };
    let author_id = match p.author_id {
        None => return Err(post_field_message("author.id", topic, at.as_str())),
        Some(v) => v as u32,
    };
    let author_name = match &p.author_name {
        None => return Err(post_field_message("author.name", topic, at.as_str())),
        Some(v) => copy_text(v),
    };
    let post_rendered = match &p.post_rendered {
        None => return Err(post_field_message("post_rendered", topic, at.as_str())),
        Some(v) => strip_and_decode_html(v.as_str()),
    };
    Ok(
        PostDocument {
            tid,
            title: copy_text(title),
            description: copy_text(description),
            pid,
            post_date,
            author_id,
            author_name,
            post_rendered,
        },
    )
}

/// The document for one post of a topic page, or the message for its first missing or
/// invalid field.
pub fn make_post_document(
    topic: u32,
    tid: u32,
    title: &String,
    description: &String,
    i: usize,
    p: &PostFields,
) -> (r: Result<PostDocument, String>)
    ensures
        match r {
            Ok(d) => post_document(topic, tid, title@, description@, i as nat, p@) == Ok::<
                PostDocumentView,
                Seq<char>,
            >(d@),
            Err(m) => post_document(topic, tid, title@, description@, i as nat, p@) == Err::<
                PostDocumentView,
                Seq<char>,
            >(m@),
        },
{
    let date = match p.post_date {
        Some(secs) => utc_timestamp_text(secs as i64),
        None => None,
    };
    post_document_with_date(topic, tid, title, description, i, p, date)
}

} // verus!

verus! {

/// The documents of a topic page and, if the page lacks a field, the message for the
/// first missing or invalid one (the documents are those of the posts before it).
pub fn make_topic_documents(topic: u32, f: &TopicFields) -> (r: (Vec<PostDocument>, Option<String>))
    ensures
        (documents_view(r.0@), opt_text(r.1)) == topic_documents(topic, f@),
{
    let tid = match f.tid {
        None => return (Vec::new(), Some(topic_field_message("tid", topic))),
        Some(v) => v as u32,
    };
    let title = match &f.title {
        None => return (Vec::new(), Some(topic_field_message("title", topic))),
        Some(v) => v,
    };
    let description = match &f.description {
        None => return (Vec::new(), Some(topic_field_message("description", topic))),
        Some(v) => v,
    };
    let list = match &f.posts_list {
        None => return (Vec::new(), Some(topic_field_message("posts_list", topic))),
        Some(v) => v,
    };
    let ghost pv = posts_view(list@);
    let n = list.len();
    let mut docs: Vec<PostDocument> = Vec::new();
    let mut i: usize = 0;
    assert(pv.skip(0) == pv);
    assert(documents_view(docs@) + post_documents(topic, tid, title@, description@, 0, pv).0
        == post_documents(topic, tid, title@, description@, 0, pv).0);
    while i < n
        invariant
            n == list.len(),
            i <= n,
            pv == posts_view(list@),
            topic_documents(topic, f@) == (
                documents_view(docs@) + post_documents(topic, tid, title@, description@, i as nat, pv.skip(i as int)).0,
                post_documents(topic, tid, title@, description@, i as nat, pv.skip(i as int)).1,
            ),
        decreases n - i,
    {
        let ghost rest = pv.skip(i as int);
        assert(rest[0] == list@[i as int]@);
        assert(rest.drop_first() == pv.skip(i + 1));
        match make_post_document(topic, tid, title, description, i, &list[i]) {
            Err(m) => {
                return (docs, Some(m));
            },
            Ok(d) => {
                let ghost before = docs@;
                docs.push(d);
                assert(documents_view(docs@) == documents_view(before) + seq![d@]);
                assert(documents_view(docs@) + post_documents(topic, tid, title@, description@, (i + 1) as nat, pv.skip(i + 1)).0
                    == documents_view(before) + (seq![d@] + post_documents(topic, tid, title@, description@, (i + 1) as nat, pv.skip(i + 1)).0));
            },
        }
        i = i + 1;
    }
    assert(pv.skip(n as int).len() == 0);
    assert(documents_view(docs@) + Seq::<PostDocumentView>::empty() == documents_view(docs@));
    (docs, None)
}

} // verus!

verus! {

/// Each document built from a run of posts is the document of the post at the same place,
/// and carries the topic's id, title and description.
proof fn post_documents_follow_posts(
    topic: u32,
    tid: u32,
    title: Seq<char>,
    description: Seq<char>,
    i: nat,
    posts: Seq<PostFieldsView>,
)
    ensures
        ({
            let (docs, error) = post_documents(topic, tid, title, description, i, posts);
            &&& docs.len() <= posts.len()
            &&& error is None ==> docs.len() == posts.len()
            &&& forall|k: int| 0 <= k < docs.len() ==> {
                let d = #[trigger] docs[k];
                let p = posts[k];
                &&& d.tid == tid
                &&& d.title == title
                &&& d.description == description
                &&& p.pid is Some && d.pid == p.pid->0 as u32
                &&& p.author_id is Some && d.author_id == p.author_id->0 as u32
                &&& p.author_name is Some && d.author_name == p.author_name->0
                &&& p.post_date is Some && d.post_date == utc_date_time_text(
                    (p.post_date->0 as i64) as int,
                )->0
                &&& p.post_rendered is Some && d.post_rendered == trim(
                    decoded_html_entities(strip_tags(p.post_rendered->0)),
                )
            }
        }),
    decreases posts.len(),
{
    if posts.len() > 0 {
        post_documents_follow_posts(topic, tid, title, description, i + 1, posts.drop_first());
        let rest = post_documents(topic, tid, title, description, i + 1, posts.drop_first());
        match post_document(topic, tid, title, description, i, posts[0]) {
            Err(m) => {},
            Ok(d) => {
                let docs = seq![d] + rest.0;
                assert forall|k: int| 0 < k < docs.len() implies docs[k] == rest.0[k - 1]
                    && posts[k] == posts.drop_first()[k - 1] by {}
            },
        }
    }
}

/// The documents of a topic page are those of its posts, in order, one per post: document
/// `k` is post `k`'s (its id, date, author id, author name and plain text), and every document carries the
/// page's topic id, title and description. A complete page gives a document for every post.
pub proof fn law_documents_carry_the_topic(topic: u32, f: TopicFieldsView)
    requires
        f.tid is Some,
        f.title is Some,
        f.description is Some,
        f.posts_list is Some,
    ensures
        ({
            let (docs, error) = topic_documents(topic, f);
            let posts = f.posts_list->0;
            &&& docs.len() <= posts.len()
            &&& error is None ==> docs.len() == posts.len()
            &&& forall|k: int| 0 <= k < docs.len() ==> {
                let d = #[trigger] docs[k];
                &&& d.tid == f.tid->0 as u32
                &&& d.title == f.title->0
                &&& d.description == f.description->0
                &&& posts[k].pid is Some && d.pid == posts[k].pid->0 as u32
                &&& posts[k].author_id is Some && d.author_id == posts[k].author_id->0 as u32
                &&& posts[k].author_name is Some && d.author_name == posts[k].author_name->0
                &&& posts[k].post_date is Some && d.post_date == utc_date_time_text(
                    (posts[k].post_date->0 as i64) as int,
                )->0
                &&& posts[k].post_rendered is Some && d.post_rendered == trim(
                    decoded_html_entities(strip_tags(posts[k].post_rendered->0)),
                )
            }
        }),
{
    post_documents_follow_posts(
        topic,
        f.tid->0 as u32,
        f.title->0,
        f.description->0,
        0,
        f.posts_list->0,
    );
}

} // verus!
