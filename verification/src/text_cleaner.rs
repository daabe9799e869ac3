use vstd::prelude::*;
use crate::text::{chars_of, string_of, trim, trim_whitespace};

verus! {

/// The index of the first `c` in `s`, if there is one.
pub open spec fn find_char(s: Seq<char>, c: char) -> Option<nat>
    decreases s.len(),
{
    if s.len() == 0 {
        None
    } else if s[0] == c {
        Some(0)
    } else {
        match find_char(s.drop_first(), c) {
            Some(k) => Some(k + 1),
            None => None,
        }
    }
}

/// `s` with every HTML tag removed. A tag runs from a `<` to the first `>` after it;
/// scanning goes left to right and resumes after each removed tag, and a `<` with no
/// `>` after it is kept with everything that follows it.
pub open spec fn strip_tags(s: Seq<char>) -> Seq<char>
    decreases s.len(),
{
    if s.len() == 0 {
        s
    } else if s[0] != '<' {
        seq![s[0]] + strip_tags(s.drop_first())
    } else {
        match find_char(s, '>') {
            Some(k) => if k + 1 <= s.len() {
                strip_tags(s.skip((k + 1) as int))
            } else {
                s
            },
            None => s,
        }
    }
}

pub proof fn lemma_find_char(s: Seq<char>, c: char)
    ensures
        match find_char(s, c) {
            Some(k) => k < s.len() && s[k as int] == c && forall|m: int| 0 <= m < k ==> s[m] != c,
            None => forall|m: int| 0 <= m < s.len() ==> s[m] != c,
        },
    decreases s.len(),
{
    if s.len() > 0 && s[0] != c {
        let t = s.drop_first();
        lemma_find_char(t, c);
        match find_char(t, c) {
            Some(k) => {
                assert forall|m: int| 0 <= m < k + 1 implies s[m] != c by {
                    if m > 0 {
                        assert(s[m] == t[m - 1]);
                    }
                }
            },
            None => {
                assert forall|m: int| 0 <= m < s.len() implies s[m] != c by {
                    if m > 0 {
                        assert(s[m] == t[m - 1]);
                    }
                }
            },
        }
    }
}

proof fn lemma_find_char_at(s: Seq<char>, c: char, k: int)
    requires
        0 <= k < s.len(),
        s[k] == c,
        forall|m: int| 0 <= m < k ==> s[m] != c,
    ensures
        find_char(s, c) == Some(k as nat),
{
    lemma_find_char(s, c);
    match find_char(s, c) {
        Some(j) => {
            if (j as int) < k {
                assert(s[j as int] != c);
            } else if (j as int) > k {
                assert(s[k] != c);
            }
        },
        None => {
            assert(s[k] != c);
        },
    }
}

/// `html` with its tags removed (see `strip_tags`).
pub fn strip_tags_text(html: &str) -> (r: String)
    ensures
        r@ == strip_tags(html@),
{
    let v = chars_of(html);
    let n = v.len();
    let mut out: Vec<char> = Vec::new();
    let mut i: usize = 0;
    assert(v@.skip(0) == v@);
    assert(out@ + v@ == v@);
    while i < n
        invariant
            n == v.len(),
            i <= n,
            strip_tags(v@) == out@ + strip_tags(v@.skip(i as int)),
        decreases n - i,
    {
        let ghost s = v@.skip(i as int);
        assert(s[0] == v@[i as int]);
        if v[i] != '<' {
            out.push(v[i]);
            assert(s.drop_first() == v@.skip(i + 1));
            i = i + 1;
        } else {
            let mut j: usize = i + 1;
            while j < n && v[j] != '>'
                invariant
                    n == v.len(),
                    i < j <= n,
                    v@[i as int] == '<',
                    forall|m: int| i <= m < j ==> v@[m] != '>',
                decreases n - j,
            {
                j = j + 1;
            }
            if j == n {
                proof {
                    lemma_find_char(s, '>');
                    assert forall|m: int| 0 <= m < s.len() implies s[m] != '>' by {
                        assert(s[m] == v@[m + i]);
                    }
                    if find_char(s, '>') is Some {
                        let k = find_char(s, '>')->0;
                        assert(s[k as int] == v@[k + i]);
                    }
                }
                let mut k: usize = i;
                while k < n
                    invariant
                        n == v.len(),
                        i <= k <= n,
                        strip_tags(v@) == out@ + v@.subrange(k as int, n as int) + strip_tags(v@.skip(n as int)) ,
                    decreases n - k,
                {
                    let ghost before = out@;
                    out.push(v[k]);
                    assert(v@.subrange(k as int, n as int) == seq![v@[k as int]] + v@.subrange(k + 1, n as int));
                    assert(out@ == before + seq![v@[k as int]]);
                    k = k + 1;
                }
                proof {
                    assert(v@.skip(n as int).len() == 0);
                    assert(strip_tags(v@.skip(n as int)) == Seq::<char>::empty());
                    assert(v@.subrange(k as int, n as int).len() == 0);
                    assert(strip_tags(v@) == out@ + Seq::<char>::empty() + Seq::<char>::empty());
                    assert(out@ + Seq::<char>::empty() + Seq::<char>::empty() == out@);
                    assert(v@.skip(i as int) == s);
                }
                i = n;
                assert(strip_tags(v@.skip(i as int)) == Seq::<char>::empty());
                assert(strip_tags(v@) == out@ + strip_tags(v@.skip(i as int)));
            } else {
                proof {
                    assert forall|m: int| 0 <= m < j - i implies s[m] != '>' by {
                        assert(s[m] == v@[m + i]);
                    }
                    assert(s[j - i] == v@[j as int]);
                    lemma_find_char_at(s, '>', j - i);
                    assert(s.skip(j - i + 1) == v@.skip(j + 1));
                }
                i = j + 1;
            }
        }
    }
    assert(v@.skip(n as int).len() == 0);
    assert(out@ + Seq::<char>::empty() == out@);
    string_of(&out)
}

} // verus!

verus! {

/// What `html_escape::decode_html_entities` gives for a text: the text with its HTML
/// character references (`&amp;`, `&#39;`, `&#x2F;`, ...) replaced by the characters they name.
pub uninterp spec fn decoded_html_entities(text: Seq<char>) -> Seq<char>;

/// Calls `html_escape::decode_html_entities`. Its result is named by
/// `decoded_html_entities`; beyond that the contract states only what the crate's source
/// shows directly: every decoded reference starts with `&`, so a text without `&` comes back
/// unchanged. The entity table itself is not restated.
#[verifier::external_body]
fn decode_html_entities(text: &str) -> (r: String)
    ensures
        r@ == decoded_html_entities(text@),
        !text@.contains('&') ==> r@ == text@,
{
    html_escape::decode_html_entities(text).into_owned()
}

/// Text without `<` has no tag to remove.
pub proof fn lemma_strip_tags_plain(s: Seq<char>)
    requires
        !s.contains('<'),
    ensures
        strip_tags(s) == s,
    decreases s.len(),
{
    if s.len() > 0 {
        assert(s[0] != '<') by {
            if s[0] == '<' {
                assert(s.contains('<'));
            }
        }
        let t = s.drop_first();
        assert(!t.contains('<')) by {
            if t.contains('<') {
                let k = choose|k: int| 0 <= k < t.len() && t[k] == '<';
                assert(s[k + 1] == '<');
            }
        }
        lemma_strip_tags_plain(t);
        assert(seq![s[0]] + t == s);
    }
}

/// Plain text of a rendered post: the tags are removed, the character references decoded,
/// and the surrounding whitespace trimmed. Text with neither `<` nor `&` is only trimmed.
pub fn strip_and_decode_html(html_content: &str) -> (r: String)
    ensures
        r@ == trim(decoded_html_entities(strip_tags(html_content@))),
        !html_content@.contains('<') && !html_content@.contains('&') ==> r@ == trim(html_content@),
{
    proof {
        if !html_content@.contains('<') {
            lemma_strip_tags_plain(html_content@);
        }
    }
    let text_without_tags = strip_tags_text(html_content);
    let decoded_text = decode_html_entities(text_without_tags.as_str());
    trim_whitespace(decoded_text.as_str())
}

} // verus!
