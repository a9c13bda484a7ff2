use market_research_core::frontmatter::{split_document, FrameError};
use market_research_core::metadata::ReportMetadata;
use market_research_core::text::{
    blank, chars_of, find_first_visible, same_text, string_of, string_of_range, whitespace_char,
};

fn chars(s: &str) -> Vec<char> {
    s.chars().collect()
}

#[test]
fn new_metadata_is_empty() {
    let metadata = ReportMetadata::new();
    assert!(metadata.is_empty());
    assert!(!metadata.contains_key("title"));
    assert_eq!(metadata.get("title"), None);
    assert!(metadata.to_pairs().is_empty());
}

#[test]
fn insert_adds_and_replaces() {
    let mut metadata = ReportMetadata::new();
    metadata.insert("title".to_string(), "First".to_string());
    metadata.insert("date".to_string(), "2024".to_string());
    assert!(!metadata.is_empty());
    assert_eq!(metadata.get("title"), Some(&"First".to_string()));
    metadata.insert("title".to_string(), "Second".to_string());
    assert_eq!(metadata.get("title"), Some(&"Second".to_string()));
    assert_eq!(metadata.get("date"), Some(&"2024".to_string()));
    assert_eq!(
        metadata.to_pairs(),
        vec![("title".to_string(), "Second".to_string()), ("date".to_string(), "2024".to_string())]
    );
}

#[test]
fn keys_are_compared_character_by_character() {
    let mut metadata = ReportMetadata::new();
    metadata.insert("Title".to_string(), "x".to_string());
    assert!(metadata.contains_key("Title"));
    assert!(!metadata.contains_key("title"));
    assert!(!metadata.contains_key("Titl"));
    assert!(!metadata.contains_key("Title "));
    assert!(!metadata.contains_key(""));
}

#[test]
fn from_pairs_keeps_each_key_once() {
    let pairs = vec![
        ("a".to_string(), "1".to_string()),
        ("b".to_string(), "2".to_string()),
        ("a".to_string(), "3".to_string()),
        ("".to_string(), "empty key".to_string()),
    ];
    let metadata = ReportMetadata::from_pairs(&pairs);
    assert_eq!(metadata.get("a"), Some(&"3".to_string()));
    assert_eq!(metadata.get("b"), Some(&"2".to_string()));
    assert_eq!(metadata.get(""), Some(&"empty key".to_string()));
    assert_eq!(metadata.to_pairs().len(), 3);
}

#[test]
fn split_document_finds_block_and_body() {
    let doc = chars("---\nk: v\n---\nbody");
    assert_eq!(split_document(&doc, 0), Ok(("k: v".to_string(), "body".to_string())));
    let doc = chars("---\n\n---\n");
    assert_eq!(split_document(&doc, 0), Ok(("".to_string(), "".to_string())));
    let doc = chars("---\na\n---\nb\n---\nc");
    assert_eq!(split_document(&doc, 0), Ok(("a".to_string(), "b\n---\nc".to_string())));
    let doc = chars("---\n---\nfoo\n---\nb");
    assert_eq!(split_document(&doc, 0), Ok(("---\nfoo".to_string(), "b".to_string())));
}

#[test]
fn split_document_starts_where_it_is_told() {
    let doc = chars("  ---\nk: v\n---\nbody");
    assert_eq!(split_document(&doc, 0), Err(FrameError::Missing));
    assert_eq!(split_document(&doc, 2), Ok(("k: v".to_string(), "body".to_string())));
    assert_eq!(split_document(&doc, doc.len()), Err(FrameError::Missing));
}

#[test]
fn split_document_tells_missing_from_unterminated() {
    assert_eq!(split_document(&chars(""), 0), Err(FrameError::Missing));
    assert_eq!(split_document(&chars("---"), 0), Err(FrameError::Missing));
    assert_eq!(split_document(&chars("----\na\n---\n"), 0), Err(FrameError::Missing));
    assert_eq!(split_document(&chars("---\r\na\r\n---\r\n"), 0), Err(FrameError::Missing));
    assert_eq!(split_document(&chars("---\n"), 0), Err(FrameError::Unterminated));
    assert_eq!(split_document(&chars("---\na\n---"), 0), Err(FrameError::Unterminated));
    assert_eq!(split_document(&chars("---\na\n----\n"), 0), Err(FrameError::Unterminated));
    assert_eq!(split_document(&chars("---\na\n ---\n"), 0), Err(FrameError::Unterminated));
    assert_eq!(split_document(&chars("---\n---\n"), 0), Err(FrameError::Unterminated));
}

#[test]
fn text_and_characters_convert_both_ways() {
    let samples = ["", "abc", "caf\u{e9} \u{4e2d}\u{6587} \u{1f600}", "line\nbreak\ttab"];
    for sample in samples.iter() {
        let v = chars_of(sample);
        assert_eq!(v, chars(sample));
        assert_eq!(&string_of(&v), sample);
    }
    let v = chars("hello world");
    assert_eq!(string_of_range(&v, 6, 11), "world");
    assert_eq!(string_of_range(&v, 3, 3), "");
    assert_eq!(string_of_range(&v, 0, 11), "hello world");
}

#[test]
fn same_text_compares_contents() {
    assert!(same_text("", ""));
    assert!(same_text("title", "title"));
    assert!(!same_text("title", "Title"));
    assert!(!same_text("title", "titles"));
}

#[test]
fn white_space_is_what_trimming_takes_off() {
    for code in 0u32..0x3100 {
        if let Some(c) = char::from_u32(code) {
            assert_eq!(whitespace_char(c), c.is_whitespace(), "U+{:04X}", code);
        }
    }
    assert!(!whitespace_char('\u{200b}'));
    assert!(!whitespace_char('\u{feff}'));
    assert!(!whitespace_char('\u{10ffff}'));
}

#[test]
fn blank_texts_hold_white_space_only() {
    let samples = ["", " ", "\n\t\r", "\u{a0}\u{3000}", " a ", "\u{200b}", ".", "  \n x"];
    for sample in samples.iter() {
        assert_eq!(blank(&chars(sample)), sample.trim().is_empty(), "{:?}", sample);
    }
    let v = chars("  \n x y ");
    assert_eq!(find_first_visible(&v, 0), 4);
    assert_eq!(find_first_visible(&v, 4), 4);
    assert_eq!(find_first_visible(&v, 5), 6);
    assert_eq!(find_first_visible(&v, 7), 8);
    assert_eq!(find_first_visible(&v, 8), 8);
}
