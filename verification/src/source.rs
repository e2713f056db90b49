//! What of a source text is source: a byte order mark at its head is none,
//! nor is an interpreter line, the first line of a text that begins with
//! `#!` and goes on with anything but an attribute in square brackets.

use vstd::prelude::*;
use vstd::string::StrSliceExecFns;
use vstd::string::StringExecFns;

use crate::syntax::lex;
use crate::syntax::lexed;
use crate::syntax::stream_trees;
use crate::syntax::stream_trees_of;
use crate::syntax::tree_delimiter;
use crate::syntax::tree_delimiter_of;
use crate::syntax::DelimRef;

verus! {

/// The text without the byte order mark at its head, if it has one.
pub open spec fn without_mark(src: Seq<char>) -> Seq<char> {
    if src.len() > 0 && src[0] == '\u{feff}' {
        src.subrange(1, src.len() as int)
    } else {
        src
    }
}

/// Whether the text begins with `#!`.
pub open spec fn begins_with_hash_bang(a: Seq<char>) -> bool {
    a.len() >= 2 && a[0] == '#' && a[1] == '!'
}

/// Where the first line feed stands from `i` on, or the end of the text.
pub open spec fn line_end(a: Seq<char>, i: int) -> int
    decreases a.len() - i,
{
    if 0 <= i < a.len() && a[i] != '\n' {
        line_end(a, i + 1)
    } else {
        i
    }
}

/// Whether the character is a space or one of the five from the tab to the
/// carriage return.
pub open spec fn is_blank_char(c: char) -> bool {
    c == ' ' || c == '\t' || c == '\n' || c == '\u{b}' || c == '\u{c}' || c == '\r'
}

/// Where the blank characters end that begin at `i`.
pub open spec fn blank_end(a: Seq<char>, i: int) -> int
    decreases a.len() - i,
{
    if 0 <= i < a.len() && is_blank_char(a[i]) {
        blank_end(a, i + 1)
    } else {
        i
    }
}

/// Whether an attribute follows the `#!` at the head of the text: the third
/// token of the text is a group in square brackets. Of a text that does not
/// divide into tokens: after `#!` and blank characters stands `[`.
pub open spec fn attribute_follows(a: Seq<char>) -> bool {
    match lexed(a) {
        Some(tokens) => stream_trees_of(tokens).len() > 2 && tree_delimiter_of(
            stream_trees_of(tokens)[2],
        ) matches Some(DelimRef::Bracket),
        None => blank_end(a, 2) < a.len() && a[blank_end(a, 2)] == '[',
    }
}

/// The source in a text: the text without a byte order mark at its head
/// and, where it then begins with an interpreter line, without that line.
pub open spec fn source_body(src: Seq<char>) -> Seq<char> {
    let a = without_mark(src);
    if begins_with_hash_bang(a) && !attribute_follows(a) {
        a.subrange(line_end(a, 0), a.len() as int)
    } else {
        a
    }
}

fn attribute_after_hash_bang(a: &str, len: usize) -> (r: bool)
    requires
        len == a@.len(),
        len >= 2,
    ensures
        r == attribute_follows(a@),
{
    match lex(a) {
        Some(tokens) => {
            let trees = stream_trees(&tokens);
            if trees.len() > 2 {
                match tree_delimiter(&trees[2]) {
                    Some(DelimRef::Bracket) => true,
                    _ => false,
                }
            } else {
                false
            }
        },
        None => {
            let mut i: usize = 2;
            while i < len
                invariant
                    2 <= i <= len,
                    len == a@.len(),
                    lexed(a@) is None,
                    blank_end(a@, 2) == blank_end(a@, i as int),
                decreases len - i,
            {
                let c = a.get_char(i);
                if c == ' ' || c == '\t' || c == '\n' || c == '\u{b}' || c == '\u{c}' || c == '\r' {
                    i = i + 1;
                } else {
                    return c == '[';
                }
            }
            false
        },
    }
}

/// The source in a text.
pub fn source_of(src: &str) -> (r: String)
    ensures
        r@ == source_body(src@),
{
    let whole = src.unicode_len();
    let start: usize = if whole > 0 && src.get_char(0) == '\u{feff}' {
        1
    } else {
        0
    };
    let a = src.substring_char(start, whole);
    let len = whole - start;
    assert(a@ == without_mark(src@));
    if len >= 2 && a.get_char(0) == '#' && a.get_char(1) == '!' && !attribute_after_hash_bang(
        a,
        len,
    ) {
        let mut i: usize = 0;
        while i < len && a.get_char(i) != '\n'
            invariant
                i <= len,
                len == a@.len(),
                line_end(a@, 0) == line_end(a@, i as int),
            decreases len - i,
        {
            i = i + 1;
        }
        String::from_str(a.substring_char(i, len))
    } else {
        String::from_str(a)
    }
}

} // verus!
