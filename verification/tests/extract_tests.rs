use market_research_core::extract::{
    complete_extraction, load_metadata, parse_report_metadata, process_markdown, require_fields,
    ParseError, MAX_CONTENT_BYTES,
};
use market_research_core::metadata::ReportMetadata;

fn pair(key: &str, value: &str) -> (String, String) {
    (key.to_string(), value.to_string())
}

fn value(metadata: &ReportMetadata, key: &str) -> Option<String> {
    metadata.get(key).cloned()
}

#[test]
fn strict_extraction_returns_metadata_and_body() {
    let doc = "---\ntitle: Market Outlook\ndate: 2024-03-01\nauthor: Desk\n---\n# Heading\n\nBody text\n";
    let (metadata, body) = process_markdown(doc).unwrap();
    assert_eq!(value(&metadata, "title"), Some("Market Outlook".to_string()));
    assert_eq!(value(&metadata, "date"), Some("2024-03-01".to_string()));
    assert_eq!(value(&metadata, "author"), Some("Desk".to_string()));
    assert_eq!(value(&metadata, "id"), None);
    assert_eq!(body, "# Heading\n\nBody text\n");
}

#[test]
fn strict_extraction_passes_white_space_before_the_block() {
    let doc = "\n \t\n---\ntitle: T\ndate: D\n---\nbody";
    let (metadata, body) = process_markdown(doc).unwrap();
    assert_eq!(value(&metadata, "title"), Some("T".to_string()));
    assert_eq!(value(&metadata, "date"), Some("D".to_string()));
    assert_eq!(body, "body");
}

#[test]
fn strict_extraction_keeps_later_delimiters_in_the_body() {
    let doc = "---\ntitle: T\ndate: D\n---\nfirst\n---\nsecond\n";
    let (_, body) = process_markdown(doc).unwrap();
    assert_eq!(body, "first\n---\nsecond\n");
}

#[test]
fn strict_extraction_refuses_blank_input() {
    assert!(matches!(process_markdown(""), Err(ParseError::EmptyInput)));
    assert!(matches!(process_markdown("   "), Err(ParseError::EmptyInput)));
    assert!(matches!(process_markdown("\n\t \u{a0}\u{2003}\r\n"), Err(ParseError::EmptyInput)));
}

#[test]
fn strict_extraction_refuses_oversized_input() {
    let mut doc = String::from("---\ntitle: T\ndate: D\n---\n");
    while doc.len() <= MAX_CONTENT_BYTES {
        doc.push_str(&"x".repeat(1024 * 1024));
    }
    match process_markdown(&doc) {
        Err(ParseError::TooLarge { megabytes }) => assert_eq!(megabytes, doc.len() / (1024 * 1024)),
        other => panic!("unexpected result: {:?}", other.map(|(_, body)| body.len())),
    }
}

#[test]
fn strict_extraction_takes_input_at_the_size_limit() {
    let head = "---\ntitle: T\ndate: D\n---\n";
    let mut doc = String::from(head);
    doc.push_str(&"x".repeat(MAX_CONTENT_BYTES - head.len()));
    assert_eq!(doc.len(), MAX_CONTENT_BYTES);
    let (_, body) = process_markdown(&doc).unwrap();
    assert_eq!(body.len(), MAX_CONTENT_BYTES - head.len());
}

#[test]
fn strict_extraction_counts_bytes_not_characters() {
    // 6 MiB of two-byte characters are 12 MiB of input
    let doc = "\u{e9}".repeat(6 * 1024 * 1024);
    match process_markdown(&doc) {
        Err(ParseError::TooLarge { megabytes }) => assert_eq!(megabytes, 12),
        _ => panic!("expected the size error"),
    }
}

#[test]
fn strict_extraction_names_a_missing_block() {
    assert!(matches!(process_markdown("# Title\n\nBody"), Err(ParseError::MissingFrontmatter)));
    assert!(matches!(process_markdown("--- \ntitle: T\n---\n"), Err(ParseError::MissingFrontmatter)));
    assert!(matches!(process_markdown("---"), Err(ParseError::MissingFrontmatter)));
    assert!(matches!(process_markdown("text\n---\ntitle: T\n---\n"), Err(ParseError::MissingFrontmatter)));
}

#[test]
fn strict_extraction_names_an_open_block() {
    assert!(matches!(
        process_markdown("---\ntitle: T\ndate: D\n"),
        Err(ParseError::UnterminatedFrontmatter)
    ));
    assert!(matches!(
        process_markdown("---\ntitle: T\ndate: D\n---"),
        Err(ParseError::UnterminatedFrontmatter)
    ));
    assert!(matches!(process_markdown("---\n---\nbody"), Err(ParseError::UnterminatedFrontmatter)));
}

#[test]
fn strict_extraction_hands_on_the_parser_message() {
    match process_markdown("---\n- one\n- two\n---\nbody") {
        Err(ParseError::MetadataParse(message)) => assert!(!message.is_empty()),
        _ => panic!("expected the parser's error"),
    }
    match process_markdown("---\ntitle: [unclosed\n---\nbody") {
        Err(ParseError::MetadataParse(message)) => assert!(!message.is_empty()),
        _ => panic!("expected the parser's error"),
    }
}

#[test]
fn strict_extraction_names_every_absent_field() {
    match process_markdown("---\nauthor: A\n---\nbody") {
        Err(ParseError::MissingRequiredField(names)) => {
            assert_eq!(names, vec!["title".to_string(), "date".to_string()])
        },
        _ => panic!("expected the missing-field error"),
    }
    match process_markdown("---\ntitle: T\n---\nbody") {
        Err(ParseError::MissingRequiredField(names)) => assert_eq!(names, vec!["date".to_string()]),
        _ => panic!("expected the missing-field error"),
    }
    match process_markdown("---\ndate: D\n---\nbody") {
        Err(ParseError::MissingRequiredField(names)) => assert_eq!(names, vec!["title".to_string()]),
        _ => panic!("expected the missing-field error"),
    }
}

#[test]
fn framed_documents_come_back_as_they_went_in() {
    let blocks = ["title: T\ndate: D", "date: \"2024-01-01\"\ntitle: 'A: B'\nregion: EMEA"];
    let bodies = ["", "body", "# H\n\ntext\n", "\n---\nnot a block\n---\n", "---\n"];
    for block in blocks.iter() {
        for body in bodies.iter() {
            let doc = format!("---\n{}\n---\n{}", block, body);
            let (strict, strict_body) = process_markdown(&doc).unwrap();
            let (permissive, permissive_body) = parse_report_metadata(&doc).unwrap();
            assert_eq!(&strict_body, body);
            assert_eq!(&permissive_body, body);
            assert!(strict.contains_key("title") && strict.contains_key("date"));
            assert_eq!(strict.to_pairs(), permissive.to_pairs());
        }
    }
}

#[test]
fn metadata_written_by_the_parser_crate_is_read_back() {
    let mut map = std::collections::BTreeMap::new();
    map.insert("title".to_string(), "Outlook: 2024".to_string());
    map.insert("date".to_string(), "2024-03-01".to_string());
    map.insert("note".to_string(), "multi word value".to_string());
    let block = serde_yaml::to_string(&map).unwrap();
    let doc = format!("---\n{}\n---\n{}", block.trim_end(), "The body.\n");
    let (metadata, body) = process_markdown(&doc).unwrap();
    assert_eq!(body, "The body.\n");
    let pairs: Vec<(String, String)> = map.into_iter().collect();
    assert_eq!(metadata.to_pairs(), pairs);
}

#[test]
fn permissive_extraction_without_a_block_returns_the_document() {
    let docs = ["", "plain text", "# Title\n\nBody", "  ---\ntitle: T\n---\nx", "---\ntitle: T\n", "a -- b"];
    for doc in docs.iter() {
        let (metadata, body) = parse_report_metadata(doc).unwrap();
        assert!(metadata.is_empty());
        assert_eq!(&body, doc);
    }
}

#[test]
fn permissive_extraction_does_not_ask_for_fields() {
    let (metadata, body) = parse_report_metadata("---\nauthor: A\n---\nbody\nmore").unwrap();
    assert_eq!(value(&metadata, "author"), Some("A".to_string()));
    assert!(!metadata.contains_key("title"));
    assert_eq!(body, "body\nmore");
}

#[test]
fn permissive_extraction_hands_on_the_parser_message() {
    match parse_report_metadata("---\n- one\n---\nbody") {
        Err(ParseError::MetadataParse(message)) => assert!(!message.is_empty()),
        _ => panic!("expected the parser's error"),
    }
}

#[test]
fn load_metadata_keeps_the_last_value_of_a_key() {
    let metadata = load_metadata(Ok(vec![pair("a", "1"), pair("b", "2"), pair("a", "3")])).unwrap();
    assert_eq!(value(&metadata, "a"), Some("3".to_string()));
    assert_eq!(value(&metadata, "b"), Some("2".to_string()));
    assert_eq!(metadata.to_pairs().len(), 2);
    match load_metadata(Err("line 1: bad".to_string())) {
        Err(ParseError::MetadataParse(message)) => assert_eq!(message, "line 1: bad"),
        _ => panic!("expected the parser's error"),
    }
}

#[test]
fn require_fields_accepts_complete_metadata() {
    let metadata = ReportMetadata::from_pairs(&vec![pair("date", "D"), pair("title", "T")]);
    let checked = require_fields(metadata).unwrap();
    assert_eq!(value(&checked, "title"), Some("T".to_string()));
    let empty = ReportMetadata::new();
    match require_fields(empty) {
        Err(ParseError::MissingRequiredField(names)) => {
            assert_eq!(names, vec!["title".to_string(), "date".to_string()])
        },
        _ => panic!("expected the missing-field error"),
    }
}

#[test]
fn complete_extraction_judges_every_parser_result() {
    let (metadata, body) =
        complete_extraction(Ok(vec![pair("title", "T"), pair("date", "D")]), "b".to_string()).unwrap();
    assert_eq!(metadata.to_pairs(), vec![pair("title", "T"), pair("date", "D")]);
    assert_eq!(body, "b");
    assert!(matches!(
        complete_extraction(Ok(vec![pair("title", "T")]), "b".to_string()),
        Err(ParseError::MissingRequiredField(_))
    ));
    assert!(matches!(
        complete_extraction(Err("no".to_string()), "b".to_string()),
        Err(ParseError::MetadataParse(_))
    ));
}
