//! The sanitizer: takes terminal escape sequences out of a text, whether they
//! start with the escape character itself or with its name spelled out.

use vstd::prelude::*;
use crate::text::{chars_of, string_of};

verus! {

/// The control character that introduces a terminal escape sequence.
pub const ESCAPE: char = '\u{1b}';

/// One stripping pass of the sanitizer. The passes run in the order in which
/// they are listed here, each on the output of the one before.
#[derive(Clone, Copy, Debug, PartialEq, Eq, Structural)]
pub enum Pass {
    /// The escape character, `[`, optional parameters and a command character.
    Control,
    /// The same sequence with the escape character spelled as the text `ESC`.
    Spelled,
    /// The spelled reset code `ESC[0m`.
    Reset,
    /// The spelled bold code `ESC[1m`.
    Bold,
    /// The spelled bold yellow code `ESC[1;33m`.
    BoldYellow,
    /// A spelled code with one number of any length, such as `ESC[105m`.
    SingleNumber,
    /// A spelled code with two numbers of any length, such as `ESC[38;255m`.
    NumberPair,
    /// Either introducer, a bracket or parenthesis, and everything up to the
    /// next terminator character.
    CatchAll,
}

/// An ASCII decimal digit.
pub open spec fn is_digit(c: char) -> bool {
    '0' <= c && c <= '9'
}

/// A word character: an ASCII letter, an ASCII digit or the underscore. The
/// text `ESC` right behind one is the end of a longer word and introduces
/// nothing in the pass `CatchAll`.
pub open spec fn is_word_char(c: char) -> bool {
    is_digit(c) || ('a' <= c && c <= 'z') || ('A' <= c && c <= 'Z') || c == '_'
}

/// The command characters that end a sequence of the passes `Control` and
/// `Spelled`.
pub open spec fn is_command(c: char) -> bool {
    c == 'm' || c == '|' || c == 'K' || c == 'G' || c == 'A' || c == 'B' || c == 'C' || c == 'D'
        || c == 'H' || c == 'J' || c == 's' || c == 'u' || c == 'h' || c == 'l'
}

/// The characters that end a sequence of the pass `CatchAll`: `@` to `~`
/// without the two square brackets.
pub open spec fn is_terminator(c: char) -> bool {
    '@' <= c && c <= '~' && c != '[' && c != ']'
}

/// One of the three characters that may follow the introducer in the pass
/// `CatchAll`.
pub open spec fn is_opener(c: char) -> bool {
    c == '[' || c == '(' || c == ')'
}

/// Whether `s` holds the character `c` at position `i`.
pub open spec fn has_char(s: Seq<char>, i: int, c: char) -> bool {
    0 <= i < s.len() && s[i] == c
}

/// Whether `s` holds a digit at position `i`.
pub open spec fn has_digit(s: Seq<char>, i: int) -> bool {
    0 <= i < s.len() && is_digit(s[i])
}

/// Whether the text `ESC` stands in `s` at position `i`.
pub open spec fn has_spelled_escape(s: Seq<char>, i: int) -> bool {
    has_char(s, i, 'E') && has_char(s, i + 1, 'S') && has_char(s, i + 2, 'C')
}

/// The number of digits, at most two, that one parameter takes at position `p`.
pub open spec fn parameter_width(s: Seq<char>, p: int) -> int {
    if has_digit(s, p) {
        if has_digit(s, p + 1) {
            2
        } else {
            1
        }
    } else {
        0
    }
}

/// The end of the longest run of further parameters, each a `;` and one or two
/// digits, that starts at position `p`.
pub open spec fn parameters_end(s: Seq<char>, p: int) -> int
    decreases s.len() - p,
{
    if has_char(s, p, ';') && has_digit(s, p + 1) {
        parameters_end(s, p + 1 + parameter_width(s, p + 1))
    } else {
        p
    }
}

/// The end of a sequence body that starts at position `p`, right behind the
/// introducer: `[`, then nothing or one or two digits with further parameters,
/// then a command character.
pub open spec fn command_end(s: Seq<char>, p: int) -> Option<int> {
    if has_char(s, p, '[') {
        let q = if has_digit(s, p + 1) {
            parameters_end(s, p + 1 + parameter_width(s, p + 1))
        } else {
            p + 1
        };
        if 0 <= q < s.len() && is_command(s[q]) {
            Some(q + 1)
        } else {
            None
        }
    } else {
        None
    }
}

/// The end of the run of digits that starts at position `p`.
pub open spec fn digits_end(s: Seq<char>, p: int) -> int
    decreases s.len() - p,
{
    if has_digit(s, p) {
        digits_end(s, p + 1)
    } else {
        p
    }
}

/// The position of the first terminator character at or behind position `p`,
/// or the length of `s` where there is none.
pub open spec fn terminator_at(s: Seq<char>, p: int) -> int
    decreases s.len() - p,
{
    if 0 <= p < s.len() && !is_terminator(s[p]) {
        terminator_at(s, p + 1)
    } else if p < s.len() {
        p
    } else {
        s.len() as int
    }
}

/// Whether a word boundary lies before position `i`: the text starts there, or
/// the character before it is no word character.
pub open spec fn at_word_start(s: Seq<char>, i: int) -> bool {
    i == 0 || (0 < i <= s.len() && !is_word_char(s[i - 1]))
}

/// The end of a catch-all body that starts at position `p`, right behind the
/// introducer.
pub open spec fn catch_all_end(s: Seq<char>, p: int) -> Option<int> {
    if 0 <= p < s.len() && is_opener(s[p]) && terminator_at(s, p + 1) < s.len() {
        Some(terminator_at(s, p + 1) + 1)
    } else {
        None
    }
}

/// Where the sequence of `pass` that starts at position `i` of `s` ends, if one
/// starts there. The end is the position behind its last character.
pub open spec fn match_end(pass: Pass, s: Seq<char>, i: int) -> Option<int> {
    match pass {
        Pass::Control => if has_char(s, i, ESCAPE) {
            command_end(s, i + 1)
        } else {
            None
        },
        Pass::Spelled => if has_spelled_escape(s, i) {
            command_end(s, i + 3)
        } else {
            None
        },
        Pass::Reset => if has_spelled_escape(s, i) && has_char(s, i + 3, '[') && has_char(
            s,
            i + 4,
            '0',
        ) && has_char(s, i + 5, 'm') {
            Some(i + 6)
        } else {
            None
        },
        Pass::Bold => if has_spelled_escape(s, i) && has_char(s, i + 3, '[') && has_char(
            s,
            i + 4,
            '1',
        ) && has_char(s, i + 5, 'm') {
            Some(i + 6)
        } else {
            None
        },
        Pass::BoldYellow => if has_spelled_escape(s, i) && has_char(s, i + 3, '[') && has_char(
            s,
            i + 4,
            '1',
        ) && has_char(s, i + 5, ';') && has_char(s, i + 6, '3') && has_char(s, i + 7, '3')
            && has_char(s, i + 8, 'm') {
            Some(i + 9)
        } else {
            None
        },
        Pass::SingleNumber => {
            let e = digits_end(s, i + 4);
            if has_spelled_escape(s, i) && has_char(s, i + 3, '[') && has_digit(s, i + 4)
                && has_char(s, e, 'm') {
                Some(e + 1)
            } else {
                None
            }
        },
        Pass::NumberPair => {
            let e = digits_end(s, i + 4);
            let f = digits_end(s, e + 1);
            if has_spelled_escape(s, i) && has_char(s, i + 3, '[') && has_digit(s, i + 4)
                && has_char(s, e, ';') && has_digit(s, e + 1) && has_char(s, f, 'm') {
                Some(f + 1)
            } else {
                None
            }
        },
        Pass::CatchAll => if has_char(s, i, ESCAPE) {
            catch_all_end(s, i + 1)
        } else if has_spelled_escape(s, i) && at_word_start(s, i) {
            catch_all_end(s, i + 3)
        } else {
            None
        },
    }
}

/// What is left of `s` from position `i` on when every sequence of `pass` is
/// taken out: the text is read from left to right, a sequence that starts at the
/// position reached is skipped whole, and any other character is kept.
pub open spec fn strip_from(pass: Pass, s: Seq<char>, i: int) -> Seq<char>
    decreases s.len() - i,
    via strip_from_terminates
{
    if 0 <= i < s.len() {
        match match_end(pass, s, i) {
            Some(e) => strip_from(pass, s, e),
            None => seq![s[i]] + strip_from(pass, s, i + 1),
        }
    } else {
        Seq::empty()
    }
}

#[via_fn]
proof fn strip_from_terminates(pass: Pass, s: Seq<char>, i: int) {
    lemma_match_bounds(pass, s, i);
}

/// `s` without the sequences of `pass`.
pub open spec fn strip(pass: Pass, s: Seq<char>) -> Seq<char> {
    strip_from(pass, s, 0)
}

/// `s` after all eight passes, in order.
pub open spec fn sanitized(s: Seq<char>) -> Seq<char> {
    let s = strip(Pass::Control, s);
    let s = strip(Pass::Spelled, s);
    let s = strip(Pass::Reset, s);
    let s = strip(Pass::Bold, s);
    let s = strip(Pass::BoldYellow, s);
    let s = strip(Pass::SingleNumber, s);
    let s = strip(Pass::NumberPair, s);
    strip(Pass::CatchAll, s)
}

/// A sequence that starts at position `i` is not empty and ends inside `s`.
pub proof fn lemma_match_bounds(pass: Pass, s: Seq<char>, i: int)
    ensures
        match_end(pass, s, i) matches Some(e) ==> 0 <= i < e <= s.len(),
{
    lemma_parameters_end_bounds(s, i + 2 + parameter_width(s, i + 2));
    lemma_parameters_end_bounds(s, i + 4 + parameter_width(s, i + 4));
    lemma_digits_end_bounds(s, i + 4);
    lemma_digits_end_bounds(s, digits_end(s, i + 4) + 1);
    lemma_terminator_at_bounds(s, i + 2);
    lemma_terminator_at_bounds(s, i + 4);
}

proof fn lemma_parameters_end_bounds(s: Seq<char>, p: int)
    ensures
        p <= parameters_end(s, p),
        p <= s.len() ==> parameters_end(s, p) <= s.len(),
    decreases s.len() - p,
{
    if has_char(s, p, ';') && has_digit(s, p + 1) {
        lemma_parameters_end_bounds(s, p + 1 + parameter_width(s, p + 1));
    }
}

proof fn lemma_digits_end_bounds(s: Seq<char>, p: int)
    ensures
        p <= digits_end(s, p),
        p <= s.len() ==> digits_end(s, p) <= s.len(),
        has_digit(s, p) ==> p < digits_end(s, p),
    decreases s.len() - p,
{
    if has_digit(s, p) {
        lemma_digits_end_bounds(s, p + 1);
    }
}

proof fn lemma_terminator_at_bounds(s: Seq<char>, p: int)
    ensures
        0 <= p ==> p <= terminator_at(s, p) <= s.len() || s.len() < p,
        terminator_at(s, p) <= s.len(),
    decreases s.len() - p,
{
    if 0 <= p < s.len() && !is_terminator(s[p]) {
        lemma_terminator_at_bounds(s, p + 1);
    }
}

/// A position in a text, as the specifications count it.
pub open spec fn position(r: Option<usize>) -> Option<int> {
    match r {
        Some(e) => Some(e as int),
        None => None,
    }
}

fn char_at(s: &Vec<char>, i: usize, offset: usize, c: char) -> (b: bool)
    requires
        i <= s.len(),
    ensures
        b == has_char(s@, i + offset, c),
{
    offset < s.len() - i && s[i + offset] == c
}

fn digit_at(s: &Vec<char>, i: usize, offset: usize) -> (b: bool)
    requires
        i <= s.len(),
    ensures
        b == has_digit(s@, i + offset),
{
    offset < s.len() - i && '0' <= s[i + offset] && s[i + offset] <= '9'
}

fn spelled_escape_at(s: &Vec<char>, i: usize) -> (b: bool)
    requires
        i <= s.len(),
    ensures
        b == has_spelled_escape(s@, i as int),
{
    char_at(s, i, 0, 'E') && char_at(s, i, 1, 'S') && char_at(s, i, 2, 'C')
}

fn command_char(c: char) -> (b: bool)
    ensures
        b == is_command(c),
{
    c == 'm' || c == '|' || c == 'K' || c == 'G' || c == 'A' || c == 'B' || c == 'C' || c == 'D'
        || c == 'H' || c == 'J' || c == 's' || c == 'u' || c == 'h' || c == 'l'
}

fn terminator_char(c: char) -> (b: bool)
    ensures
        b == is_terminator(c),
{
    '@' <= c && c <= '~' && c != '[' && c != ']'
}

fn word_char(c: char) -> (b: bool)
    ensures
        b == is_word_char(c),
{
    ('0' <= c && c <= '9') || ('a' <= c && c <= 'z') || ('A' <= c && c <= 'Z') || c == '_'
}

fn find_parameters_end(s: &Vec<char>, p: usize) -> (q: usize)
    requires
        p <= s.len(),
    ensures
        q as int == parameters_end(s@, p as int),
        p <= q <= s.len(),
{
    let mut q: usize = p;
    while char_at(s, q, 0, ';') && digit_at(s, q, 1)
        invariant
            p <= q <= s.len(),
            parameters_end(s@, q as int) == parameters_end(s@, p as int),
        decreases s.len() - q,
    {
        if digit_at(s, q, 2) {
            q = q + 3;
        } else {
            q = q + 2;
        }
    }
    q
}

fn find_command_end(s: &Vec<char>, p: usize) -> (r: Option<usize>)
    requires
        p <= s.len(),
    ensures
        position(r) == command_end(s@, p as int),
        r matches Some(e) ==> p < e <= s.len(),
{
    if !char_at(s, p, 0, '[') {
        return None;
    }
    let q: usize = if digit_at(s, p, 1) {
        if digit_at(s, p, 2) {
            find_parameters_end(s, p + 3)
        } else {
            find_parameters_end(s, p + 2)
        }
    } else {
        p + 1
    };
    if q < s.len() && command_char(s[q]) {
        Some(q + 1)
    } else {
        None
    }
}

fn find_digits_end(s: &Vec<char>, p: usize) -> (q: usize)
    requires
        p <= s.len(),
    ensures
        q as int == digits_end(s@, p as int),
        p <= q <= s.len(),
{
    let mut q: usize = p;
    while digit_at(s, q, 0)
        invariant
            p <= q <= s.len(),
            digits_end(s@, q as int) == digits_end(s@, p as int),
        decreases s.len() - q,
    {
        q = q + 1;
    }
    q
}

fn find_terminator(s: &Vec<char>, p: usize) -> (q: usize)
    requires
        p <= s.len(),
    ensures
        q as int == terminator_at(s@, p as int),
        p <= q <= s.len(),
{
    let mut q: usize = p;
    while q < s.len() && !terminator_char(s[q])
        invariant
            p <= q <= s.len(),
            terminator_at(s@, q as int) == terminator_at(s@, p as int),
        decreases s.len() - q,
    {
        q = q + 1;
    }
    q
}

fn find_catch_all_end(s: &Vec<char>, p: usize) -> (r: Option<usize>)
    requires
        p <= s.len(),
    ensures
        position(r) == catch_all_end(s@, p as int),
        r matches Some(e) ==> p < e <= s.len(),
{
    if p < s.len() && (s[p] == '[' || s[p] == '(' || s[p] == ')') {
        let q = find_terminator(s, p + 1);
        if q < s.len() {
            Some(q + 1)
        } else {
            None
        }
    } else {
        None
    }
}

/// Finds the sequence of `pass` that starts at position `i`, and returns its end.
pub fn find_match(pass: Pass, s: &Vec<char>, i: usize) -> (r: Option<usize>)
    ensures
        position(r) == match_end(pass, s@, i as int),
        r matches Some(e) ==> i < e <= s.len(),
{
    if i >= s.len() {
        return None;
    }
    match pass {
        Pass::Control => {
            if s[i] == ESCAPE {
                find_command_end(s, i + 1)
            } else {
                None
            }
        },
        Pass::Spelled => {
            if spelled_escape_at(s, i) {
                find_command_end(s, i + 3)
            } else {
                None
            }
        },
        Pass::Reset => {
            if spelled_escape_at(s, i) && char_at(s, i, 3, '[') && char_at(s, i, 4, '0')
                && char_at(s, i, 5, 'm') {
                Some(i + 6)
            } else {
                None
            }
        },
        Pass::Bold => {
            if spelled_escape_at(s, i) && char_at(s, i, 3, '[') && char_at(s, i, 4, '1')
                && char_at(s, i, 5, 'm') {
                Some(i + 6)
            } else {
                None
            }
        },
        Pass::BoldYellow => {
            if spelled_escape_at(s, i) && char_at(s, i, 3, '[') && char_at(s, i, 4, '1')
                && char_at(s, i, 5, ';') && char_at(s, i, 6, '3') && char_at(s, i, 7, '3')
                && char_at(s, i, 8, 'm') {
                Some(i + 9)
            } else {
                None
            }
        },
        Pass::SingleNumber => {
            if spelled_escape_at(s, i) && char_at(s, i, 3, '[') && digit_at(s, i, 4) {
                let e = find_digits_end(s, i + 4);
                if char_at(s, e, 0, 'm') {
                    Some(e + 1)
                } else {
                    None
                }
            } else {
                None
            }
        },
        Pass::NumberPair => {
            if spelled_escape_at(s, i) && char_at(s, i, 3, '[') && digit_at(s, i, 4) {
                let e = find_digits_end(s, i + 4);
                if char_at(s, e, 0, ';') && digit_at(s, e, 1) {
                    let f = find_digits_end(s, e + 1);
                    if char_at(s, f, 0, 'm') {
                        Some(f + 1)
                    } else {
                        None
                    }
                } else {
                    None
                }
            } else {
                None
            }
        },
        Pass::CatchAll => {
            if s[i] == ESCAPE {
                find_catch_all_end(s, i + 1)
            } else if spelled_escape_at(s, i) && (i == 0 || !word_char(s[i - 1])) {
                find_catch_all_end(s, i + 3)
            } else {
                None
            }
        },
    }
}

/// Takes every sequence of `pass` out of `s`.
pub fn strip_pass(pass: Pass, s: &Vec<char>) -> (out: Vec<char>)
    ensures
        out@ == strip(pass, s@),
{
    let mut out: Vec<char> = Vec::new();
    let mut i: usize = 0;
    while i < s.len()
        invariant
            i <= s.len(),
            strip(pass, s@) == out@ + strip_from(pass, s@, i as int),
        decreases s.len() - i,
    {
        match find_match(pass, s, i) {
            Some(e) => {
                i = e;
            },
            None => {
                let ghost before = out@;
                out.push(s[i]);
                assert(out@ + strip_from(pass, s@, i + 1) =~= before + (seq![s@[i as int]]
                    + strip_from(pass, s@, i + 1)));
                i = i + 1;
            },
        }
    }
    out
}

/// Removes terminal escape sequences from `content`.
///
/// Eight passes run one after the other, each on what the pass before left:
/// sequences that start with the escape character, the same sequences with the
/// escape character spelled `ESC`, five spelled formatting codes, and a
/// catch-all that takes everything between an introducer with a bracket or
/// parenthesis and the next terminator character. The function never fails.
pub fn clean_escape_sequences(content: &str) -> (cleaned: String)
    ensures
        cleaned@ == sanitized(content@),
{
    let s0 = chars_of(content);
    let s1 = strip_pass(Pass::Control, &s0);
    let s2 = strip_pass(Pass::Spelled, &s1);
    let s3 = strip_pass(Pass::Reset, &s2);
    let s4 = strip_pass(Pass::Bold, &s3);
    let s5 = strip_pass(Pass::BoldYellow, &s4);
    let s6 = strip_pass(Pass::SingleNumber, &s5);
    let s7 = strip_pass(Pass::NumberPair, &s6);
    let s8 = strip_pass(Pass::CatchAll, &s7);
    string_of(&s8)
}


/// Whether a sequence of `pass` starts anywhere in `s`.
pub open spec fn has_match(pass: Pass, s: Seq<char>) -> bool {
    exists|i: int| 0 <= i < s.len() && (#[trigger] match_end(pass, s, i)) is Some
}

/// Whether `s` is free of escape sequences: no sequence of any pass starts
/// anywhere in it.
pub open spec fn is_clean(s: Seq<char>) -> bool {
    forall|pass: Pass| !#[trigger] has_match(pass, s)
}

proof fn lemma_strip_from_length(pass: Pass, s: Seq<char>, i: int)
    requires
        0 <= i <= s.len(),
    ensures
        strip_from(pass, s, i).len() <= s.len() - i,
        (exists|j: int| i <= j < s.len() && (#[trigger] match_end(pass, s, j)) is Some)
            ==> strip_from(pass, s, i).len() < s.len() - i,
        (forall|j: int| i <= j < s.len() ==> (#[trigger] match_end(pass, s, j)) is None)
            ==> strip_from(pass, s, i) == s.subrange(i, s.len() as int),
    decreases s.len() - i,
{
    if i < s.len() {
        lemma_match_bounds(pass, s, i);
        match match_end(pass, s, i) {
            Some(e) => {
                lemma_strip_from_length(pass, s, e);
            },
            None => {
                lemma_strip_from_length(pass, s, i + 1);
                if forall|j: int| i <= j < s.len() ==> (#[trigger] match_end(pass, s, j)) is None {
                    assert(strip_from(pass, s, i) =~= s.subrange(i, s.len() as int));
                }
            },
        }
    } else {
        assert(strip_from(pass, s, i) =~= s.subrange(i, s.len() as int));
    }
}

/// A pass never makes a text longer. It makes the text shorter exactly when one
/// of its sequences starts somewhere in it, and leaves the text as it is
/// otherwise.
pub proof fn lemma_strip_length(pass: Pass, s: Seq<char>)
    ensures
        strip(pass, s).len() <= s.len(),
        has_match(pass, s) <==> strip(pass, s).len() < s.len(),
        !has_match(pass, s) <==> strip(pass, s) == s,
{
    lemma_strip_from_length(pass, s, 0);
    assert(s.subrange(0, s.len() as int) =~= s);
}

/// Sanitizing never makes a text longer.
pub proof fn lemma_sanitized_never_longer(s: Seq<char>)
    ensures
        sanitized(s).len() <= s.len(),
{
    let s1 = strip(Pass::Control, s);
    let s2 = strip(Pass::Spelled, s1);
    let s3 = strip(Pass::Reset, s2);
    let s4 = strip(Pass::Bold, s3);
    let s5 = strip(Pass::BoldYellow, s4);
    let s6 = strip(Pass::SingleNumber, s5);
    let s7 = strip(Pass::NumberPair, s6);
    lemma_strip_length(Pass::Control, s);
    lemma_strip_length(Pass::Spelled, s1);
    lemma_strip_length(Pass::Reset, s2);
    lemma_strip_length(Pass::Bold, s3);
    lemma_strip_length(Pass::BoldYellow, s4);
    lemma_strip_length(Pass::SingleNumber, s5);
    lemma_strip_length(Pass::NumberPair, s6);
    lemma_strip_length(Pass::CatchAll, s7);
}

/// A text that holds neither the escape character nor the text `ESC` is clean:
/// every sequence starts with one of the two.
pub proof fn lemma_clean_without_introducer(s: Seq<char>)
    requires
        forall|i: int| 0 <= i < s.len() ==> s[i] != ESCAPE,
        forall|i: int| 0 <= i < s.len() ==> !has_spelled_escape(s, i),
    ensures
        is_clean(s),
{
    assert forall|pass: Pass| !#[trigger] has_match(pass, s) by {
        assert forall|i: int| 0 <= i < s.len() implies (#[trigger] match_end(pass, s, i))
            is None by {
            assert(s[i] != ESCAPE);
            assert(!has_spelled_escape(s, i));
        }
    }
}

/// The texts that sanitizing leaves as they are, are exactly the clean ones.
pub proof fn lemma_unchanged_iff_clean(s: Seq<char>)
    ensures
        sanitized(s) == s <==> is_clean(s),
{
    let s1 = strip(Pass::Control, s);
    let s2 = strip(Pass::Spelled, s1);
    let s3 = strip(Pass::Reset, s2);
    let s4 = strip(Pass::Bold, s3);
    let s5 = strip(Pass::BoldYellow, s4);
    let s6 = strip(Pass::SingleNumber, s5);
    let s7 = strip(Pass::NumberPair, s6);
    lemma_strip_length(Pass::Control, s);
    lemma_strip_length(Pass::Spelled, s1);
    lemma_strip_length(Pass::Reset, s2);
    lemma_strip_length(Pass::Bold, s3);
    lemma_strip_length(Pass::BoldYellow, s4);
    lemma_strip_length(Pass::SingleNumber, s5);
    lemma_strip_length(Pass::NumberPair, s6);
    lemma_strip_length(Pass::CatchAll, s7);
    if is_clean(s) {
        assert(!has_match(Pass::Control, s));
        assert(!has_match(Pass::Spelled, s));
        assert(!has_match(Pass::Reset, s));
        assert(!has_match(Pass::Bold, s));
        assert(!has_match(Pass::BoldYellow, s));
        assert(!has_match(Pass::SingleNumber, s));
        assert(!has_match(Pass::NumberPair, s));
        assert(!has_match(Pass::CatchAll, s));
    }
    if sanitized(s) == s {
        assert forall|pass: Pass| !#[trigger] has_match(pass, s) by {
            match pass {
                Pass::Control => {},
                Pass::Spelled => {},
                Pass::Reset => {},
                Pass::Bold => {},
                Pass::BoldYellow => {},
                Pass::SingleNumber => {},
                Pass::NumberPair => {},
                Pass::CatchAll => {},
            }
        }
    }
}

/// Sanitizing a second time changes nothing exactly when the first result is
/// clean. A sequence that only comes together when another one is taken out
/// from inside it can survive the first run: three escape characters followed
/// by `[0m[0m[0m` leave an escape character and `[0m` behind.
pub proof fn lemma_idempotent_iff_clean(s: Seq<char>)
    ensures
        sanitized(sanitized(s)) == sanitized(s) <==> is_clean(sanitized(s)),
{
    lemma_unchanged_iff_clean(sanitized(s));
}

} // verus!
