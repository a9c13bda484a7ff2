//! Metadata extraction by two grammars: a strict one, for which a document
//! without complete metadata is an error, and a permissive one, for which it
//! is a document without metadata.

use vstd::prelude::*;
use vstd::utf8::encode_utf8;
use crate::frontmatter::{
    framed,
    holds_dashes,
    holds_delimiter_line,
    lemma_split_framed,
    lemma_split_without_dashes,
    split_document,
    split_frontmatter,
    FrameError,
};
use crate::metadata::{pairs_map, pairs_view, ReportMetadata};
use crate::text::{
    chars_of,
    find_first_visible,
    first_visible,
    is_blank,
    strings_view,
    trimmed_start,
};

verus! {

/// The largest document, in bytes, that is taken for processing.
pub const MAX_CONTENT_BYTES: usize = 10 * 1024 * 1024;

/// Why no metadata could be extracted from a document.
#[derive(Debug)]
pub enum ParseError {
    /// The document is empty or holds white space only.
    EmptyInput,
    /// The document is larger than `MAX_CONTENT_BYTES`; its size in whole
    /// mebibytes.
    TooLarge { megabytes: usize },
    /// The document does not start with a metadata block.
    MissingFrontmatter,
    /// The metadata block is not closed.
    UnterminatedFrontmatter,
    /// The metadata block is no mapping from text to text; the parser's message.
    MetadataParse(String),
    /// The metadata lacks required fields; the names of all that are absent.
    MissingRequiredField(Vec<String>),
}

/// A `ParseError` as the specifications see it.
pub enum ParseFailure {
    EmptyInput,
    TooLarge { megabytes: usize },
    MissingFrontmatter,
    UnterminatedFrontmatter,
    MetadataParse(Seq<char>),
    MissingRequiredField(Seq<Seq<char>>),
}

impl View for ParseError {
    type V = ParseFailure;

    open spec fn view(&self) -> ParseFailure {
        match self {
            ParseError::EmptyInput => ParseFailure::EmptyInput,
            ParseError::TooLarge { megabytes } => ParseFailure::TooLarge { megabytes: *megabytes },
            ParseError::MissingFrontmatter => ParseFailure::MissingFrontmatter,
            ParseError::UnterminatedFrontmatter => ParseFailure::UnterminatedFrontmatter,
            ParseError::MetadataParse(message) => ParseFailure::MetadataParse(message@),
            ParseError::MissingRequiredField(names) => ParseFailure::MissingRequiredField(
                strings_view(names@),
            ),
        }
    }
}

/// What the YAML parser makes of `text`, read as a mapping from text to text:
/// the pairs of the mapping, or the parser's message where it rejects the text.
pub uninterp spec fn yaml_mapping(text: Seq<char>) -> Result<
    Seq<(Seq<char>, Seq<char>)>,
    Seq<char>,
>;

/// A parser result as the specifications see it.
pub open spec fn parsed_view(parsed: Result<Vec<(String, String)>, String>) -> Result<
    Seq<(Seq<char>, Seq<char>)>,
    Seq<char>,
> {
    match parsed {
        Ok(pairs) => Ok(pairs_view(pairs@)),
        Err(message) => Err(message@),
    }
}

/// Parses `text` as a YAML mapping from text to text.
///
/// Calls `serde_yaml::from_str` for a `BTreeMap<String, String>` and hands out
/// the pairs of that map as it iterates over them, or the error's own message.
/// Of the result nothing is claimed but that it depends on `text` alone.
#[verifier::external_body]
fn parse_yaml_mapping(text: &str) -> (parsed: Result<Vec<(String, String)>, String>)
    ensures
        parsed_view(parsed) == yaml_mapping(text@),
{
    match serde_yaml::from_str::<std::collections::BTreeMap<String, String>>(text) {
        Ok(mapping) => Ok(mapping.into_iter().collect()),
        Err(error) => Err(error.to_string()),
    }
}

/// The metadata that a parser result stands for.
pub open spec fn loaded(parsed: Result<Seq<(Seq<char>, Seq<char>)>, Seq<char>>) -> Result<
    Map<Seq<char>, Seq<char>>,
    ParseFailure,
> {
    match parsed {
        Ok(pairs) => Ok(pairs_map(pairs)),
        Err(message) => Err(ParseFailure::MetadataParse(message)),
    }
}

/// The names of the required fields that `metadata` lacks: `title` first, then
/// `date`.
pub open spec fn missing_fields(metadata: Map<Seq<char>, Seq<char>>) -> Seq<Seq<char>> {
    let title = if metadata.dom().contains("title"@) {
        Seq::<Seq<char>>::empty()
    } else {
        seq!["title"@]
    };
    let date = if metadata.dom().contains("date"@) {
        Seq::<Seq<char>>::empty()
    } else {
        seq!["date"@]
    };
    title + date
}

/// `metadata` if it has both required fields, and else the error that names
/// every absent one.
pub open spec fn validated(metadata: Map<Seq<char>, Seq<char>>) -> Result<
    Map<Seq<char>, Seq<char>>,
    ParseFailure,
> {
    if missing_fields(metadata).len() == 0 {
        Ok(metadata)
    } else {
        Err(ParseFailure::MissingRequiredField(missing_fields(metadata)))
    }
}

/// What the strict grammar makes of a metadata block that the parser has read,
/// and of the body behind it.
pub open spec fn completed(
    parsed: Result<Seq<(Seq<char>, Seq<char>)>, Seq<char>>,
    body: Seq<char>,
) -> Result<(Map<Seq<char>, Seq<char>>, Seq<char>), ParseFailure> {
    match loaded(parsed) {
        Ok(metadata) => match validated(metadata) {
            Ok(metadata) => Ok((metadata, body)),
            Err(failure) => Err(failure),
        },
        Err(failure) => Err(failure),
    }
}

/// The size of a text in bytes, as the machine counts it.
pub open spec fn byte_length(s: Seq<char>) -> usize {
    encode_utf8(s).len() as usize
}

/// What the permissive grammar makes of a document: the metadata of its block
/// and its body, or no metadata and the whole document where it has no block.
pub open spec fn permissive_extraction(doc: Seq<char>) -> Result<
    (Map<Seq<char>, Seq<char>>, Seq<char>),
    ParseFailure,
> {
    match split_frontmatter(doc) {
        Ok((block, body)) => match loaded(yaml_mapping(block)) {
            Ok(metadata) => Ok((metadata, body)),
            Err(failure) => Err(failure),
        },
        Err(_) => Ok((Map::empty(), doc)),
    }
}

/// What the strict grammar makes of a document.
pub open spec fn strict_extraction(doc: Seq<char>) -> Result<
    (Map<Seq<char>, Seq<char>>, Seq<char>),
    ParseFailure,
> {
    if is_blank(doc) {
        Err(ParseFailure::EmptyInput)
    } else if byte_length(doc) > MAX_CONTENT_BYTES {
        Err(ParseFailure::TooLarge { megabytes: (byte_length(doc) / 1_048_576usize) as usize })
    } else {
        match split_frontmatter(trimmed_start(doc)) {
            Ok((block, body)) => completed(yaml_mapping(block), body),
            Err(FrameError::Missing) => Err(ParseFailure::MissingFrontmatter),
            Err(FrameError::Unterminated) => Err(ParseFailure::UnterminatedFrontmatter),
        }
    }
}

/// An extraction result as the specifications see it.
pub open spec fn extraction_view(r: Result<(ReportMetadata, String), ParseError>) -> Result<
    (Map<Seq<char>, Seq<char>>, Seq<char>),
    ParseFailure,
> {
    match r {
        Ok((metadata, body)) => Ok((metadata@, body@)),
        Err(error) => Err(error@),
    }
}

/// A metadata result as the specifications see it.
pub open spec fn metadata_view(r: Result<ReportMetadata, ParseError>) -> Result<
    Map<Seq<char>, Seq<char>>,
    ParseFailure,
> {
    match r {
        Ok(metadata) => Ok(metadata@),
        Err(error) => Err(error@),
    }
}

/// Turns a parser result into metadata, or into the error that carries the
/// parser's message.
pub fn load_metadata(parsed: Result<Vec<(String, String)>, String>) -> (r: Result<
    ReportMetadata,
    ParseError,
>)
    ensures
        metadata_view(r) == loaded(parsed_view(parsed)),
{
    match parsed {
        Ok(pairs) => Ok(ReportMetadata::from_pairs(&pairs)),
        Err(message) => Err(ParseError::MetadataParse(message)),
    }
}

/// Checks that `metadata` has the fields `title` and `date`. The error names
/// every field that is absent, not only the first.
pub fn require_fields(metadata: ReportMetadata) -> (r: Result<ReportMetadata, ParseError>)
    ensures
        metadata_view(r) == validated(metadata@),
{
    let mut absent: Vec<String> = Vec::new();
    if !metadata.contains_key("title") {
        absent.push(String::from_str("title"));
    }
    if !metadata.contains_key("date") {
        absent.push(String::from_str("date"));
    }
    assert(strings_view(absent@) =~= missing_fields(metadata@));
    if absent.len() == 0 {
        Ok(metadata)
    } else {
        Err(ParseError::MissingRequiredField(absent))
    }
}

/// Completes a strict extraction from what the parser made of the metadata
/// block: the parser's error, the error for absent fields, or the metadata with
/// the body.
pub fn complete_extraction(parsed: Result<Vec<(String, String)>, String>, body: String) -> (r:
    Result<(ReportMetadata, String), ParseError>)
    ensures
        extraction_view(r) == completed(parsed_view(parsed), body@),
{
    match load_metadata(parsed) {
        Ok(metadata) => match require_fields(metadata) {
            Ok(metadata) => Ok((metadata, body)),
            Err(error) => Err(error),
        },
        Err(error) => Err(error),
    }
}

/// Extracts metadata and body by the permissive grammar.
///
/// A document that starts with a metadata block gives the block's metadata and
/// the body behind the block; required fields are not asked for. A document
/// without such a block gives no metadata and itself as the body, which is no
/// error. The one error is a block that the parser rejects.
pub fn parse_report_metadata(content: &str) -> (r: Result<(ReportMetadata, String), ParseError>)
    ensures
        extraction_view(r) == permissive_extraction(content@),
{
    let chars = chars_of(content);
    assert(chars@.subrange(0, chars@.len() as int) =~= chars@);
    match split_document(&chars, 0) {
        Ok((block, body)) => match load_metadata(parse_yaml_mapping(block.as_str())) {
            Ok(metadata) => Ok((metadata, body)),
            Err(error) => Err(error),
        },
        Err(_) => Ok((ReportMetadata::new(), String::from_str(content))),
    }
}

/// Extracts metadata and body by the strict grammar.
///
/// The document must not be blank nor larger than `MAX_CONTENT_BYTES`. Behind
/// white space at its start it must open a metadata block, which must be closed,
/// must parse, and must hold the fields `title` and `date`.
pub fn process_markdown(content: &str) -> (r: Result<(ReportMetadata, String), ParseError>)
    ensures
        extraction_view(r) == strict_extraction(content@),
{
    let chars = chars_of(content);
    let start = find_first_visible(&chars, 0);
    if start == chars.len() {
        return Err(ParseError::EmptyInput);
    }
    assert(!is_blank(content@)) by {
        assert(!crate::text::is_whitespace(content@[start as int]));
    }
    let size = content.len();
    if size > MAX_CONTENT_BYTES {
        return Err(ParseError::TooLarge { megabytes: size / (1024 * 1024) });
    }
    match split_document(&chars, start) {
        Ok((block, body)) => complete_extraction(parse_yaml_mapping(block.as_str()), body),
        Err(FrameError::Missing) => Err(ParseError::MissingFrontmatter),
        Err(FrameError::Unterminated) => Err(ParseError::UnterminatedFrontmatter),
    }
}

/// Extracting from a framed document gives what the parser makes of the block,
/// and the body as it was put in: both grammars split the document where it was
/// joined, as long as no line of the block behind its first is the delimiter
/// itself and the strict grammar's size limit is kept.
pub proof fn lemma_extract_framed(block: Seq<char>, body: Seq<char>)
    requires
        !holds_delimiter_line(block),
    ensures
        permissive_extraction(framed(block, body)) == match loaded(yaml_mapping(block)) {
            Ok(metadata) => Ok::<(Map<Seq<char>, Seq<char>>, Seq<char>), ParseFailure>(
                (metadata, body),
            ),
            Err(failure) => Err(failure),
        },
        byte_length(framed(block, body)) <= MAX_CONTENT_BYTES ==> strict_extraction(
            framed(block, body),
        ) == completed(yaml_mapping(block), body),
{
    let doc = framed(block, body);
    lemma_split_framed(block, body);
    assert(doc[0] == '-');
    assert(!crate::text::is_whitespace(doc[0]));
    assert(first_visible(doc, 0) == 0);
    assert(trimmed_start(doc) =~= doc);
}

/// A document without a metadata block is no error for the permissive grammar:
/// it gives no metadata and the document itself, unchanged. The strict grammar
/// refuses the same document.
pub proof fn lemma_extract_without_block(doc: Seq<char>)
    requires
        split_frontmatter(doc) is Err,
    ensures
        permissive_extraction(doc) == Ok::<(Map<Seq<char>, Seq<char>>, Seq<char>), ParseFailure>(
            (Map::empty(), doc),
        ),
        split_frontmatter(trimmed_start(doc)) is Err ==> strict_extraction(doc) is Err,
{
}

/// A document without three dashes in a row holds no delimiter and so no
/// metadata block: the permissive grammar gives no metadata and the document
/// itself, unchanged.
pub proof fn lemma_extract_without_dashes(doc: Seq<char>)
    requires
        !holds_dashes(doc),
    ensures
        permissive_extraction(doc) == Ok::<(Map<Seq<char>, Seq<char>>, Seq<char>), ParseFailure>(
            (Map::empty(), doc),
        ),
{
    lemma_split_without_dashes(doc);
}

/// What the strict grammar extracts is complete: metadata that it returns has
/// both required fields.
pub proof fn lemma_strict_metadata_complete(doc: Seq<char>)
    ensures
        strict_extraction(doc) matches Ok(extracted) ==> extracted.0.dom().contains("title"@)
            && extracted.0.dom().contains("date"@),
{
}

} // verus!
