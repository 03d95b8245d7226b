//! The three metric functions: byte count, line count, word count.
//!
//! Contents are held as text and modelled as their character sequence.
//! The byte count is the length of the text's UTF-8 encoding, the line
//! count is one more than the number of newline characters, and the word
//! count is the number of maximal runs of non-whitespace characters,
//! whitespace meaning any Unicode whitespace character.

use vstd::prelude::*;
use vstd::utf8::{encode_scalar, encode_utf8};
use crate::record::{FileInformation, RecordView};

verus! {

/// The raw text of the input file.
pub struct FileContents(pub String);

impl View for FileContents {
    type V = Seq<char>;

    open spec fn view(&self) -> Seq<char> {
        self.0@
    }
}

/// Whether `c` is a Unicode whitespace character (the White_Space
/// property): the ASCII whitespace characters, next line, no-break
/// space, ogham space mark, the en-quad to hair-space range, line and
/// paragraph separators, narrow no-break space, medium mathematical
/// space, and ideographic space.
pub open spec fn is_wspace(c: char) -> bool {
    c == ' ' || c == '\t' || c == '\n' || c == '\u{b}' || c == '\u{c}' || c == '\r' || c
        == '\u{85}' || c == '\u{a0}' || c == '\u{1680}' || c == '\u{2000}' || c == '\u{2001}' || c
        == '\u{2002}' || c == '\u{2003}' || c == '\u{2004}' || c == '\u{2005}' || c == '\u{2006}'
        || c == '\u{2007}' || c == '\u{2008}' || c == '\u{2009}' || c == '\u{200a}' || c
        == '\u{2028}' || c == '\u{2029}' || c == '\u{202f}' || c == '\u{205f}' || c == '\u{3000}'
}

/// Number of newline characters in `s`.
pub open spec fn newline_count(s: Seq<char>) -> nat
    decreases s.len(),
{
    if s.len() == 0 {
        0nat
    } else {
        newline_count(s.drop_last()) + if s.last() == '\n' {
            1nat
        } else {
            0nat
        }
    }
}

/// Number of segments `s` splits into on the newline character: one more
/// than the number of separators, so the empty text still counts one
/// line.
pub open spec fn line_count(s: Seq<char>) -> nat {
    newline_count(s) + 1
}

/// Whether position `i` starts a word: it holds a non-whitespace
/// character and is either the first position or preceded by whitespace.
pub open spec fn starts_word(s: Seq<char>, i: int) -> bool {
    0 <= i < s.len() && !is_wspace(s[i]) && (i == 0 || is_wspace(s[i - 1]))
}

/// Number of whitespace-delimited words in `s`: each maximal run of
/// non-whitespace characters starts exactly once, so the word starts are
/// counted.
pub open spec fn word_count(s: Seq<char>) -> nat
    decreases s.len(),
{
    if s.len() == 0 {
        0nat
    } else {
        word_count(s.drop_last()) + if starts_word(s, s.len() - 1) {
            1nat
        } else {
            0nat
        }
    }
}

/// Whether `c` is a Unicode whitespace character.
pub fn is_wspace_char(c: char) -> (r: bool)
    ensures
        r == is_wspace(c),
{
    c == ' ' || c == '\t' || c == '\n' || c == '\u{b}' || c == '\u{c}' || c == '\r' || c
        == '\u{85}' || c == '\u{a0}' || c == '\u{1680}' || c == '\u{2000}' || c == '\u{2001}' || c
        == '\u{2002}' || c == '\u{2003}' || c == '\u{2004}' || c == '\u{2005}' || c == '\u{2006}'
        || c == '\u{2007}' || c == '\u{2008}' || c == '\u{2009}' || c == '\u{200a}' || c
        == '\u{2028}' || c == '\u{2029}' || c == '\u{202f}' || c == '\u{205f}' || c == '\u{3000}'
}

/// Every character encodes to at least one byte, so a text has no more
/// characters than encoded bytes.
pub proof fn lemma_chars_at_most_bytes(s: Seq<char>)
    ensures
        s.len() <= encode_utf8(s).len(),
    decreases s.len(),
{
    if s.len() > 0 {
        lemma_chars_at_most_bytes(s.drop_first());
        assert(encode_scalar(s[0] as u32).len() >= 1);
    }
}

/// Measures the byte count alone: the length of the contents' encoded
/// byte form.
pub fn get_bytes(fc: &FileContents) -> (r: FileInformation)
    ensures
        r@ == (RecordView {
            file_name: None,
            bytes: Some(encode_utf8(fc@).len()),
            lines: None,
            words: None,
        }),
{
    let n = fc.0.as_str().as_bytes().len();
    FileInformation { file_name: None, bytes: Some(n), lines: None, words: None }
}

/// Measures the line count alone: one more than the number of newline
/// characters in the contents.
pub fn get_lines(fc: &FileContents) -> (r: FileInformation)
    requires
        encode_utf8(fc@).len() < usize::MAX,
    ensures
        r@ == (RecordView {
            file_name: None,
            bytes: None,
            lines: Some(line_count(fc@)),
            words: None,
        }),
{
    let s = fc.0.as_str();
    proof {
        lemma_chars_at_most_bytes(fc@);
    }
    let mut separators: usize = 0;
    for c in it: s.chars()
        invariant
            it.seq() == fc@,
            fc@.len() < usize::MAX,
            separators == newline_count(fc@.take(it.index())),
            separators <= it.index(),
    {
        proof {
            let i = it.index();
            let t = fc@.take(i + 1);
            assert(t.drop_last() =~= fc@.take(i));
            assert(t.last() == fc@[i]);
        }
        if c == '\n' {
            separators = separators + 1;
        }
    }
    proof {
        assert(fc@.take(fc@.len() as int) =~= fc@);
    }
    FileInformation { file_name: None, bytes: None, lines: Some(separators + 1), words: None }
}

/// Measures the word count alone: the number of maximal runs of
/// non-whitespace characters in the contents.
pub fn get_words(fc: &FileContents) -> (r: FileInformation)
    ensures
        r@ == (RecordView {
            file_name: None,
            bytes: None,
            lines: None,
            words: Some(word_count(fc@)),
        }),
{
    let s = fc.0.as_str();
    // The encoded bytes sit in memory, so their number bounds the
    // character count, and with it the word count.
    let nbytes = s.as_bytes().len();
    proof {
        lemma_chars_at_most_bytes(fc@);
        assert(fc@.len() <= nbytes);
    }
    let mut words: usize = 0;
    let mut in_word = false;
    for c in it: s.chars()
        invariant
            it.seq() == fc@,
            fc@.len() <= usize::MAX,
            words == word_count(fc@.take(it.index())),
            in_word == (it.index() > 0 && !is_wspace(fc@[it.index() - 1])),
            words <= it.index(),
    {
        proof {
            let i = it.index();
            let t = fc@.take(i + 1);
            assert(t.drop_last() =~= fc@.take(i));
            assert(t.last() == fc@[i]);
        }
        let ws = is_wspace_char(c);
        if !ws && !in_word {
            words = words + 1;
        }
        in_word = !ws;
    }
    proof {
        assert(fc@.take(fc@.len() as int) =~= fc@);
    }
    FileInformation { file_name: None, bytes: None, lines: None, words: Some(words) }
}

} // verus!
