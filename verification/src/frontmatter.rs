//! The frame of a document with metadata: a block between two delimiter
//! lines, and the body behind it.

use vstd::prelude::*;
use crate::text::string_of_range;

verus! {

/// Why a document holds no metadata block.
#[derive(Clone, Copy, Debug, PartialEq, Eq, Structural)]
pub enum FrameError {
    /// The document does not start with the delimiter line.
    Missing,
    /// The delimiter line opens a block that no second delimiter line closes.
    Unterminated,
}

/// Whether the opening delimiter line, `---` and a line feed, stands at
/// position `i`.
pub open spec fn opens_block(s: Seq<char>, i: int) -> bool {
    0 <= i && i + 4 <= s.len() && s[i] == '-' && s[i + 1] == '-' && s[i + 2] == '-' && s[i + 3]
        == '\n'
}

/// Whether the closing delimiter stands at position `i`: a line feed, `---`
/// and a line feed, that is a line of its own that holds `---` only.
pub open spec fn closes_block(s: Seq<char>, i: int) -> bool {
    0 <= i && i + 5 <= s.len() && s[i] == '\n' && s[i + 1] == '-' && s[i + 2] == '-' && s[i + 3]
        == '-' && s[i + 4] == '\n'
}

/// The position of the first closing delimiter at or behind `p`, or the length
/// of `s` where there is none.
pub open spec fn closing_at(s: Seq<char>, p: int) -> int
    decreases s.len() - p,
{
    if 0 <= p < s.len() && !closes_block(s, p) {
        closing_at(s, p + 1)
    } else if p < s.len() {
        p
    } else {
        s.len() as int
    }
}

/// Splits a document into its metadata block and its body.
///
/// The document starts with the opening delimiter line. The block is what
/// stands between that line and the first closing delimiter behind it, without
/// the line feeds that belong to the delimiters; the body is everything behind
/// the closing delimiter.
pub open spec fn split_frontmatter(s: Seq<char>) -> Result<(Seq<char>, Seq<char>), FrameError> {
    if !opens_block(s, 0) {
        Err(FrameError::Missing)
    } else if closing_at(s, 4) >= s.len() {
        Err(FrameError::Unterminated)
    } else {
        Ok((s.subrange(4, closing_at(s, 4)), s.subrange(closing_at(s, 4) + 5, s.len() as int)))
    }
}

/// A document made of a metadata block and a body: the opening delimiter line,
/// the block, the closing delimiter line, the body.
pub open spec fn framed(block: Seq<char>, body: Seq<char>) -> Seq<char> {
    seq!['-', '-', '-', '\n'] + block + seq!['\n', '-', '-', '-', '\n'] + body
}

/// Whether a line of `block` behind its first is the delimiter `---`, so that
/// it would close the block early.
pub open spec fn holds_delimiter_line(block: Seq<char>) -> bool {
    exists|i: int| 0 <= i < block.len() && #[trigger] closes_block(block.push('\n'), i)
}

/// Whether the three dashes of a delimiter stand anywhere in `s`.
pub open spec fn holds_dashes(s: Seq<char>) -> bool {
    exists|i: int|
        0 <= i && i + 3 <= s.len() && #[trigger] s[i] == '-' && s[i + 1] == '-' && s[i + 2] == '-'
}

/// What the split functions return, as the specifications see it.
pub open spec fn split_view(r: Result<(String, String), FrameError>) -> Result<
    (Seq<char>, Seq<char>),
    FrameError,
> {
    match r {
        Ok((block, body)) => Ok((block@, body@)),
        Err(e) => Err(e),
    }
}

fn opening_at(s: &Vec<char>, i: usize) -> (b: bool)
    requires
        i <= s.len(),
    ensures
        b == opens_block(s@, i as int),
{
    s.len() - i >= 4 && s[i] == '-' && s[i + 1] == '-' && s[i + 2] == '-' && s[i + 3] == '\n'
}

fn closing_here(s: &Vec<char>, i: usize) -> (b: bool)
    requires
        i <= s.len(),
    ensures
        b == closes_block(s@, i as int),
{
    s.len() - i >= 5 && s[i] == '\n' && s[i + 1] == '-' && s[i + 2] == '-' && s[i + 3] == '-'
        && s[i + 4] == '\n'
}

fn find_closing(s: &Vec<char>, p: usize) -> (q: usize)
    requires
        p <= s.len(),
    ensures
        q as int == closing_at(s@, p as int),
        p <= q <= s.len(),
        q < s.len() ==> closes_block(s@, q as int),
{
    let mut q: usize = p;
    while q < s.len() && !closing_here(s, q)
        invariant
            p <= q <= s.len(),
            closing_at(s@, q as int) == closing_at(s@, p as int),
        decreases s.len() - q,
    {
        q = q + 1;
    }
    q
}

/// Splits the part of a document that starts at position `start` into its
/// metadata block and its body.
pub fn split_document(s: &Vec<char>, start: usize) -> (r: Result<(String, String), FrameError>)
    requires
        start <= s.len(),
    ensures
        split_view(r) == split_frontmatter(s@.subrange(start as int, s.len() as int)),
{
    let ghost rest = s@.subrange(start as int, s.len() as int);
    assert(opens_block(rest, 0) == opens_block(s@, start as int));
    if !opening_at(s, start) {
        return Err(FrameError::Missing);
    }
    let q = find_closing(s, start + 4);
    proof {
        lemma_closing_at_shift(s@, start as int, start + 4);
    }
    if q >= s.len() {
        return Err(FrameError::Unterminated);
    }
    let block = string_of_range(s, start + 4, q);
    let body = string_of_range(s, q + 5, s.len());
    assert(block@ =~= rest.subrange(4, closing_at(rest, 4)));
    assert(body@ =~= rest.subrange(closing_at(rest, 4) + 5, rest.len() as int));
    Ok((block, body))
}

/// Searching the rest of a text for the closing delimiter finds what searching
/// the whole text finds, counted from the start of the rest.
proof fn lemma_closing_at_shift(s: Seq<char>, start: int, p: int)
    requires
        0 <= start <= p <= s.len(),
    ensures
        closing_at(s.subrange(start, s.len() as int), p - start) == closing_at(s, p) - start,
    decreases s.len() - p,
{
    let rest = s.subrange(start, s.len() as int);
    if p < s.len() {
        assert(closes_block(rest, p - start) == closes_block(s, p));
        if !closes_block(s, p) {
            lemma_closing_at_shift(s, start, p + 1);
        }
    }
}

/// The first closing delimiter at or behind `p` is the position `c` if one
/// stands there and none stands between `p` and `c`.
proof fn lemma_closing_at_found(s: Seq<char>, p: int, c: int)
    requires
        0 <= p <= c,
        closes_block(s, c),
        forall|i: int| p <= i < c ==> !closes_block(s, i),
    ensures
        closing_at(s, p) == c,
    decreases c - p,
{
    if p < c {
        lemma_closing_at_found(s, p + 1, c);
    }
}

/// Splitting a framed document gives back the block and the body it was made
/// of, whatever the body holds, as long as no line of the block behind its
/// first is the delimiter itself.
pub proof fn lemma_split_framed(block: Seq<char>, body: Seq<char>)
    requires
        !holds_delimiter_line(block),
    ensures
        split_frontmatter(framed(block, body)) == Ok::<(Seq<char>, Seq<char>), FrameError>(
            (block, body),
        ),
{
    let s = framed(block, body);
    let c: int = 4 + (block.len() as int);
    assert(opens_block(s, 0));
    assert(closes_block(s, c));
    assert forall|i: int| 4 <= i < c implies !closes_block(s, i) by {
        let line = block.push('\n');
        if closes_block(s, i) {
            if i + 5 <= c + 1 {
                assert(closes_block(line, i - 4));
            }
        }
    }
    lemma_closing_at_found(s, 4, c);
    assert(s.subrange(4, c) =~= block);
    assert(s.subrange(c + 5, s.len() as int) =~= body);
}

/// A document without three dashes in a row has no metadata block.
pub proof fn lemma_split_without_dashes(s: Seq<char>)
    requires
        !holds_dashes(s),
    ensures
        split_frontmatter(s) == Err::<(Seq<char>, Seq<char>), FrameError>(FrameError::Missing),
{
    if opens_block(s, 0) {
        assert(s[0] == '-' && s[1] == '-' && s[2] == '-');
    }
}

} // verus!
