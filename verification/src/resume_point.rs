use vstd::prelude::*;
use crate::text::{parse_u32, parse_u32_text};

verus! {

/// The store key under which the resume point is kept.
pub const RESUME_POINT_KEY: &'static str = "topos:resume_point_id";

/// The store key of the set of topics known to be invalid.
pub const SKIP_TOPICS_KEY: &'static str = "topos:skip_topics";

/// The topic a document synchronisation resumes from after it was rate limited. The value
/// itself lives in the key-value store; this keeps what the last write or delete left there.
pub struct ResumePoint {
    pub id: Option<u32>,
}

impl ResumePoint {
    /// A resume point that holds nothing yet.
    pub fn new() -> (r: ResumePoint)
        ensures
            r.id is None,
    {
        ResumePoint { id: None }
    }

    /// The stored topic, given what the store holds under the key (`None` when the key is
    /// missing or the store cannot be read): the text read as a `u32`, `None` when it is not one.
    pub fn get_id(&self, stored: Option<String>) -> (r: Option<u32>)
        ensures
            r == match stored {
                Some(s) => parse_u32(s@),
                None => None,
            },
    {
        match stored {
            Some(s) => parse_u32_text(s.as_str()),
            None => None,
        }
    }

    /// Records that `topic_num` was written to the store.
    pub fn set_id(&mut self, topic_num: u32)
        ensures
            final(self).id == Some(topic_num),
    {
        self.id = Some(topic_num);
    }

    /// Records a delete of the key that removed `deleted_count` keys: the point is cleared
    /// only when something was deleted.
    pub fn delete(&mut self, deleted_count: u32)
        ensures
            final(self).id == if deleted_count > 0 { None } else { old(self).id },
    {
        if deleted_count > 0 {
            self.id = None;
        }
    }
}

} // verus!

verus! {

/// A topic stored as the resume point reads back as that topic: the store keeps the number
/// in decimal, and reading parses it.
pub proof fn law_resume_point_reads_back(topic_num: u32)
    ensures
        parse_u32(crate::text::decimal(topic_num as nat)) == Some(topic_num),
{
    crate::text::law_decimal_parses_back(topic_num);
}

} // verus!
