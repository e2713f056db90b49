//! The check that stands before the parser. The parser stops on a literal
//! whose text it cannot read to its end. A token stream is accepted where no
//! such literal stands in a place that the parser reads. It does not read
//! the tokens of an attribute nor those handed to a macro: these it keeps as
//! they are.

use vstd::prelude::*;

use crate::literal::literal_accepted;
use crate::literal::literal_ok;
use crate::syntax::stream_trees;
use crate::syntax::stream_trees_of;
use crate::syntax::tree_delimiter;
use crate::syntax::tree_delimiter_of;
use crate::syntax::tree_ref;
use crate::syntax::tree_ref_of;
use crate::syntax::DelimRef;
use crate::syntax::TreeRef;
use crate::syntax::TreeRefView;
use crate::text::str_eq;

verus! {

/// How deep into brackets the check goes: deeper than any text nests.
pub const TOKEN_DEPTH: usize = usize::MAX;

/// Whether the parser may read the word as a keyword, at which no path
/// begins: after such a word an exclamation mark begins no macro call.
pub open spec fn is_keyword(name: Seq<char>) -> bool {
    ||| name == "_"@
    ||| name == "abstract"@
    ||| name == "as"@
    ||| name == "async"@
    ||| name == "auto"@
    ||| name == "await"@
    ||| name == "become"@
    ||| name == "box"@
    ||| name == "break"@
    ||| name == "const"@
    ||| name == "continue"@
    ||| name == "crate"@
    ||| name == "default"@
    ||| name == "do"@
    ||| name == "dyn"@
    ||| name == "else"@
    ||| name == "enum"@
    ||| name == "extern"@
    ||| name == "false"@
    ||| name == "final"@
    ||| name == "fn"@
    ||| name == "for"@
    ||| name == "if"@
    ||| name == "impl"@
    ||| name == "in"@
    ||| name == "let"@
    ||| name == "loop"@
    ||| name == "macro"@
    ||| name == "match"@
    ||| name == "mod"@
    ||| name == "move"@
    ||| name == "mut"@
    ||| name == "override"@
    ||| name == "priv"@
    ||| name == "pub"@
    ||| name == "ref"@
    ||| name == "return"@
    ||| name == "Self"@
    ||| name == "self"@
    ||| name == "static"@
    ||| name == "struct"@
    ||| name == "super"@
    ||| name == "trait"@
    ||| name == "true"@
    ||| name == "try"@
    ||| name == "type"@
    ||| name == "typeof"@
    ||| name == "union"@
    ||| name == "unsafe"@
    ||| name == "unsized"@
    ||| name == "use"@
    ||| name == "virtual"@
    ||| name == "where"@
    ||| name == "while"@
    ||| name == "yield"@
}

/// Whether the token at `i` is the mark of punctuation `c`.
pub open spec fn is_punct_at(trees: Seq<proc_macro2::TokenTree>, i: int, c: char) -> bool {
    0 <= i < trees.len() && tree_ref_of(trees[i]) == TreeRefView::Punct(c)
}

/// Whether the token at `i` is a name: an identifier that is no keyword and
/// does not stand behind an apostrophe, where it would name a lifetime.
pub open spec fn is_name_at(trees: Seq<proc_macro2::TokenTree>, i: int) -> bool {
    &&& 0 <= i < trees.len()
    &&& tree_ref_of(trees[i]) matches TreeRefView::Ident(name)
    &&& !is_keyword(name)
    &&& !is_punct_at(trees, i - 1, '\'')
}

/// Whether the group at `i` holds the tokens of an attribute: it stands in
/// square brackets behind `#` or `#!`.
pub open spec fn is_attribute_at(trees: Seq<proc_macro2::TokenTree>, i: int) -> bool {
    &&& 0 <= i < trees.len()
    &&& tree_delimiter_of(trees[i]) matches Some(DelimRef::Bracket)
    &&& (is_punct_at(trees, i - 1, '#') || (is_punct_at(trees, i - 1, '!') && is_punct_at(
        trees,
        i - 2,
        '#',
    )))
}

/// Whether the group at `i` holds the tokens handed to a macro: it stands
/// behind a name and `!`, with one more name between or not.
pub open spec fn is_macro_body_at(trees: Seq<proc_macro2::TokenTree>, i: int) -> bool {
    ||| is_punct_at(trees, i - 1, '!') && is_name_at(trees, i - 2)
    ||| is_name_at(trees, i - 1) && is_punct_at(trees, i - 2, '!') && is_name_at(trees, i - 3)
}

/// Whether the parser leaves the group at `i` unread.
pub open spec fn is_unread_at(trees: Seq<proc_macro2::TokenTree>, i: int) -> bool {
    is_attribute_at(trees, i) || is_macro_body_at(trees, i)
}

/// Whether a token is accepted, with `depth` levels of brackets to go: a
/// literal, if the parser reads its text to the end; a group, if the parser
/// leaves it unread, or a level is left and all that it holds is accepted;
/// any other token, always.
pub open spec fn tree_accepted(t: proc_macro2::TokenTree, unread: bool, depth: nat) -> bool
    decreases depth, 0nat,
{
    match tree_ref_of(t) {
        TreeRefView::Literal(text) => literal_accepted(text),
        TreeRefView::Group { stream } => unread || (depth > 0 && trees_accepted(
            stream_trees_of(stream),
            (depth - 1) as nat,
        )),
        _ => true,
    }
}

/// Whether every one of the tokens is accepted.
pub open spec fn trees_accepted(trees: Seq<proc_macro2::TokenTree>, depth: nat) -> bool
    decreases depth, 1nat,
{
    forall|i: int|
        0 <= i < trees.len() ==> tree_accepted(#[trigger] trees[i], is_unread_at(trees, i), depth)
}

/// Whether every token of the stream is accepted.
pub open spec fn stream_accepted(s: proc_macro2::TokenStream, depth: nat) -> bool {
    trees_accepted(stream_trees_of(s), depth)
}

fn keyword(name: &str) -> (r: bool)
    ensures
        r == is_keyword(name@),
{
    str_eq(name, "_") || str_eq(name, "abstract") || str_eq(name, "as") || str_eq(name, "async")
        || str_eq(name, "auto") || str_eq(name, "await") || str_eq(name, "become") || str_eq(
        name,
        "box",
    ) || str_eq(name, "break") || str_eq(name, "const") || str_eq(name, "continue") || str_eq(
        name,
        "crate",
    ) || str_eq(name, "default") || str_eq(name, "do") || str_eq(name, "dyn") || str_eq(
        name,
        "else",
    ) || str_eq(name, "enum") || str_eq(name, "extern") || str_eq(name, "false") || str_eq(
        name,
        "final",
    ) || str_eq(name, "fn") || str_eq(name, "for") || str_eq(name, "if") || str_eq(name, "impl")
        || str_eq(name, "in") || str_eq(name, "let") || str_eq(name, "loop") || str_eq(
        name,
        "macro",
    ) || str_eq(name, "match") || str_eq(name, "mod") || str_eq(name, "move") || str_eq(
        name,
        "mut",
    ) || str_eq(name, "override") || str_eq(name, "priv") || str_eq(name, "pub") || str_eq(
        name,
        "ref",
    ) || str_eq(name, "return") || str_eq(name, "Self") || str_eq(name, "self") || str_eq(
        name,
        "static",
    ) || str_eq(name, "struct") || str_eq(name, "super") || str_eq(name, "trait") || str_eq(
        name,
        "true",
    ) || str_eq(name, "try") || str_eq(name, "type") || str_eq(name, "typeof") || str_eq(
        name,
        "union",
    ) || str_eq(name, "unsafe") || str_eq(name, "unsized") || str_eq(name, "use") || str_eq(
        name,
        "virtual",
    ) || str_eq(name, "where") || str_eq(name, "while") || str_eq(name, "yield")
}

fn punct_at(trees: &Vec<proc_macro2::TokenTree>, i: usize, back: usize, c: char) -> (r: bool)
    requires
        i < trees.len(),
    ensures
        r == is_punct_at(trees@, i - back, c),
{
    if back > i {
        return false;
    }
    match tree_ref(&trees[i - back]) {
        TreeRef::Punct(found) => found == c,
        _ => false,
    }
}

fn name_at(trees: &Vec<proc_macro2::TokenTree>, i: usize, back: usize) -> (r: bool)
    requires
        i < trees.len(),
    ensures
        r == is_name_at(trees@, i - back),
{
    if back > i {
        return false;
    }
    match tree_ref(&trees[i - back]) {
        TreeRef::Ident(name) => !keyword(name.as_str()) && !punct_at(trees, i - back, 1, '\''),
        _ => false,
    }
}

fn unread_at(trees: &Vec<proc_macro2::TokenTree>, i: usize) -> (r: bool)
    requires
        i < trees.len(),
    ensures
        r == is_unread_at(trees@, i as int),
{
    let bracketed = match tree_delimiter(&trees[i]) {
        Some(DelimRef::Bracket) => true,
        _ => false,
    };
    let attribute = bracketed && (punct_at(trees, i, 1, '#') || (punct_at(trees, i, 1, '!')
        && punct_at(trees, i, 2, '#')));
    attribute || (punct_at(trees, i, 1, '!') && name_at(trees, i, 2)) || (name_at(trees, i, 1)
        && punct_at(trees, i, 2, '!') && name_at(trees, i, 3))
}

/// Whether every token of the stream is accepted, with `depth` levels of brackets to go.
pub fn stream_ok(s: &proc_macro2::TokenStream, depth: usize) -> (r: bool)
    ensures
        r == stream_accepted(*s, depth as nat),
    decreases depth,
{
    let trees = stream_trees(s);
    let mut i: usize = 0;
    while i < trees.len()
        invariant
            i <= trees.len(),
            trees@ == stream_trees_of(*s),
            forall|j: int|
                0 <= j < i ==> tree_accepted(
                    #[trigger] trees@[j],
                    is_unread_at(trees@, j),
                    depth as nat,
                ),
        decreases trees.len() - i,
    {
        match tree_ref(&trees[i]) {
            TreeRef::Literal(text) => {
                if !literal_ok(text.as_str()) {
                    assert(!tree_accepted(
                        trees@[i as int],
                        is_unread_at(trees@, i as int),
                        depth as nat,
                    ));
                    return false;
                }
            },
            TreeRef::Group { stream } => {
                if !unread_at(&trees, i) {
                    if depth == 0 || !stream_ok(&stream, depth - 1) {
                        assert(!tree_accepted(
                        trees@[i as int],
                        is_unread_at(trees@, i as int),
                        depth as nat,
                    ));
                        return false;
                    }
                }
            },
            _ => {},
        }
        i = i + 1;
    }
    true
}

} // verus!
