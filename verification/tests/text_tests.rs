use topos::search::{is_authorized, meili_search_request, phrase_query};
use topos::text::{
    chars_of, decimal_text, is_blank_text, is_whitespace, parse_u32_text, split_words, string_of,
    trim_chars, trim_whitespace,
};
use topos::text_cleaner::{strip_and_decode_html, strip_tags_text};

fn words_of(s: &str) -> Vec<String> {
    split_words(&chars_of(s)).iter().map(|w| w.iter().collect()).collect()
}

#[test]
fn whitespace_matches_std() {
    for c in ['\t', '\n', '\u{b}', '\u{c}', '\r', ' ', '\u{85}', '\u{a0}', '\u{1680}', '\u{2000}',
              '\u{200a}', '\u{2028}', '\u{2029}', '\u{202f}', '\u{205f}', '\u{3000}', 'a', '0',
              '\u{200b}', '\u{180e}', '\u{feff}', '_', '\u{1f600}'] {
        assert_eq!(is_whitespace(c), c.is_whitespace(), "{:?}", c);
    }
    for u in 0u32..0x3100 {
        if let Some(c) = char::from_u32(u) {
            assert_eq!(is_whitespace(c), c.is_whitespace(), "{:?}", c);
        }
    }
}

#[test]
fn trim_removes_outer_whitespace_only() {
    assert_eq!(trim_whitespace("  hello world \n"), "hello world");
    assert_eq!(trim_whitespace("\u{3000}x\u{a0}"), "x");
    assert_eq!(trim_whitespace("   "), "");
    assert_eq!(trim_whitespace(""), "");
    assert_eq!(trim_whitespace("a b"), "a b");
    for s in ["", " ", " a ", "\t\tb c\r\n", "d", "\u{2028}e\u{2029}"] {
        assert_eq!(trim_whitespace(s), s.trim());
        let v = chars_of(s);
        assert_eq!(string_of(&trim_chars(&v)), s.trim());
    }
}

#[test]
fn blank_text() {
    assert!(is_blank_text(""));
    assert!(is_blank_text(" \t\n"));
    assert!(!is_blank_text(" x "));
}

#[test]
fn words_match_split_whitespace() {
    for s in ["", "  ", "one", " one  two\tthree ", "a\u{3000}b", "x  y z  "] {
        let expected: Vec<String> = s.split_whitespace().map(|w| w.to_string()).collect();
        assert_eq!(words_of(s), expected);
    }
}

#[test]
fn query_words_become_phrases() {
    assert_eq!(phrase_query("rust  verus"), "\"rust\" \"verus\"");
    assert_eq!(phrase_query("  single "), "\"single\"");
    assert_eq!(phrase_query("   "), "");
    assert_eq!(phrase_query("a b c"), "\"a\" \"b\" \"c\"");
}

#[test]
fn search_request_settings() {
    let r = meili_search_request(" hello world", 3);
    assert_eq!(r.q, "\"hello\" \"world\"");
    assert_eq!(r.hits_per_page, 10);
    assert_eq!(r.page, 3);
    assert_eq!(r.attributes_to_search_on, vec!["title", "description", "post_rendered"]);
    assert_eq!(r.attributes_to_retrieve, vec!["_formatted"]);
    assert_eq!(r.attributes_to_crop, vec!["post_rendered"]);
    assert_eq!(r.crop_length, 100);
    assert_eq!(r.attributes_to_highlight, vec!["*"]);
    assert!(r.show_ranking_score);
    assert_eq!(r.sort, vec!["post_date:desc"]);
}

#[test]
fn admin_token_check() {
    assert!(is_authorized(Some("Bearer s3cret"), "s3cret"));
    assert!(!is_authorized(Some("Bearer s3cret "), "s3cret"));
    assert!(!is_authorized(Some("bearer s3cret"), "s3cret"));
    assert!(!is_authorized(Some("s3cret"), "s3cret"));
    assert!(!is_authorized(None, "s3cret"));
}

#[test]
fn decimal_and_parse() {
    for n in [0u64, 7, 10, 99, 100, 12345, u32::MAX as u64, u64::MAX] {
        assert_eq!(decimal_text(n), n.to_string());
    }
    for s in ["0", "42", "+42", "007", "4294967295", "4294967296", "", "+", "-1", "-0", " 1", "1a", "99999999999"] {
        assert_eq!(parse_u32_text(s), s.parse::<u32>().ok(), "{:?}", s);
    }
}

#[test]
fn tags_are_stripped_as_the_tag_pattern_does() {
    let re = regex::Regex::new(r"<[^>]*>").unwrap();
    for s in [
        "",
        "plain",
        "<p>Hello <b>world</b></p>",
        "a < b",
        "a < b > c",
        "<<nested>>",
        "x <br/> y",
        "unclosed <tag",
        "> stray",
        "<a href=\"x\">link</a> and <img src=y> done",
        "<\n>multi\nline<\n/>",
    ] {
        assert_eq!(strip_tags_text(s), re.replace_all(s, "").into_owned(), "{:?}", s);
    }
}

#[test]
fn post_text_is_cleaned() {
    assert_eq!(strip_and_decode_html("  <p>Tom &amp; Jerry</p>\n"), "Tom & Jerry");
    assert_eq!(strip_and_decode_html("<b>1 &lt; 2</b>"), "1 < 2");
    assert_eq!(strip_and_decode_html("&#39;quoted&#39;"), "'quoted'");
    assert_eq!(strip_and_decode_html("no markup"), "no markup");
    assert_eq!(strip_and_decode_html("<br>"), "");
}
