//! Static analysis of a smart contract's public interface: reference
//! documentation in Markdown and TypeScript bindings, both derived from the
//! contract's source.

use vstd::prelude::*;
use vstd::string::StringExecFns;

pub mod ast;
pub mod contract;
pub mod literal;
pub mod lower;
pub mod md;
pub mod resolve;
pub mod source;
pub mod syntax;
pub mod text;
pub mod tokens;
pub mod ts;

use crate::ast::Attr;
use crate::ast::AttrModel;
use crate::ast::Method;
use crate::ast::QualifiedName;
use crate::ast::Receiver;
use crate::ast::SourceFile;
use crate::ast::SourceFileModel;
use crate::lower::file_model;
use crate::lower::lower_file;
use crate::source::source_body;
use crate::source::source_of;
use crate::syntax::lex;
use crate::syntax::lexed;
use crate::syntax::parse_tokens;
use crate::syntax::parsed_tokens;
use crate::tokens::stream_accepted;
use crate::tokens::stream_ok;
use crate::tokens::TOKEN_DEPTH;
use crate::text::join;
use crate::text::join_lines;
use crate::text::join_strings;
use crate::text::lines_text;
use crate::text::str_eq;
use crate::text::strip_leading_space;
use crate::text::strip_space;

verus! {

/// The segments of a path joined by `::`.
pub open spec fn path_text(path: Seq<Seq<char>>) -> Seq<char> {
    join(path, "::"@)
}

/// Whether some attribute of `attrs` has the name `name`.
pub open spec fn attr_present(attrs: Seq<AttrModel>, name: Seq<char>) -> bool {
    exists|i: int| 0 <= i < attrs.len() && (#[trigger] attrs[i]).name == Some(name)
}

/// Whether some `derive` attribute of `attrs` lists `name`.
pub open spec fn derive_present(attrs: Seq<AttrModel>, name: Seq<char>) -> bool {
    exists|i: int|
        0 <= i < attrs.len() && (#[trigger] attrs[i]).name == Some("derive"@)
            && attrs[i].nested.contains(name)
}

/// Whether the attribute is a documentation line: it is named `doc` and holds a text.
pub open spec fn is_doc(attr: AttrModel) -> bool {
    attr.name == Some("doc"@) && attr.value is Some
}

/// The documentation lines of `attrs`: one for each documentation attribute,
/// in order, its text without one leading space.
pub open spec fn doc_lines(attrs: Seq<AttrModel>) -> Seq<Seq<char>>
    decreases attrs.len(),
{
    if attrs.len() == 0 {
        Seq::empty()
    } else if is_doc(attrs.last()) {
        doc_lines(attrs.drop_last()).push(strip_space(attrs.last().value->0))
    } else {
        doc_lines(attrs.drop_last())
    }
}

/// The stamp that the artifacts carry: nothing where none is wanted, else
/// ` on ` and the time.
pub open spec fn stamp_text(no_now: bool, time: Seq<char>) -> Seq<char> {
    if no_now {
        Seq::empty()
    } else {
        " on "@ + time
    }
}

/// The stamp for the time `time`, or the empty stamp if `no_now` holds.
pub fn now_stamp(no_now: bool, time: &str) -> (r: String)
    ensures
        r@ == stamp_text(no_now, time@),
{
    if no_now {
        String::new()
    } else {
        let mut out = String::from_str(" on ");
        out.append(time);
        out
    }
}

/// The syntax tree of a source text: that of the tokens of the source in
/// it, where the source divides into tokens, the parser can read every
/// literal that it comes to, and the tokens parse as a source file.
pub open spec fn source_tree(src: Seq<char>) -> Option<syn::File> {
    match lexed(source_body(src)) {
        Some(tokens) => if stream_accepted(tokens, TOKEN_DEPTH as nat) {
            parsed_tokens(tokens)
        } else {
            None
        },
        None => None,
    }
}

/// The model of the source file that `src` holds, where `src` has a syntax tree.
pub open spec fn source_model(src: Seq<char>) -> Option<SourceFileModel> {
    match source_tree(src) {
        Some(file) => Some(file_model(file)),
        None => None,
    }
}

/// Parses a source text into the syntax model. A byte order mark and an
/// interpreter line at its head are left out. A text gives none if it is no
/// source file, or if the parser would stop on one of its literals.
pub fn parse_rust(src: &str) -> (r: Option<SourceFile>)
    ensures
        r.deep_view() == source_model(src@),
{
    let body = source_of(src);
    match lex(body.as_str()) {
        Some(tokens) => {
            if stream_ok(&tokens, TOKEN_DEPTH) {
                match parse_tokens(tokens) {
                    Some(file) => Some(lower_file(&file)),
                    None => None,
                }
            } else {
                None
            }
        },
        None => None,
    }
}

/// Whether `i` is the first of `srcs` that is no source file.
pub open spec fn first_unparsed(srcs: Seq<Seq<char>>, i: int) -> bool {
    &&& 0 <= i < srcs.len()
    &&& source_model(srcs[i]) is None
    &&& forall|j: int| 0 <= j < i ==> source_model(#[trigger] srcs[j]) is Some
}

/// The models of the source files that `srcs` hold, where every one of them
/// parses as a source file.
pub open spec fn source_models(srcs: Seq<Seq<char>>) -> Option<Seq<SourceFileModel>> {
    if forall|i: int| 0 <= i < srcs.len() ==> source_model(#[trigger] srcs[i]) is Some {
        Some(srcs.map_values(|src: Seq<char>| source_model(src)->0))
    } else {
        None
    }
}

/// Parses every source text, in order. One text that is no source file fails
/// the whole run: the result is then the place of the first such text, and
/// no model at all.
pub fn parse_sources(srcs: &Vec<String>) -> (r: Result<Vec<SourceFile>, usize>)
    ensures
        match r {
            Ok(files) => source_models(srcs.deep_view()) == Some(files.deep_view()),
            Err(i) => first_unparsed(srcs.deep_view(), i as int),
        },
{
    let mut files: Vec<SourceFile> = Vec::new();
    let mut i: usize = 0;
    while i < srcs.len()
        invariant
            i <= srcs.len(),
            files.len() == i,
            forall|j: int|
                0 <= j < i ==> source_model(#[trigger] srcs.deep_view()[j]) == Some(
                    files.deep_view()[j],
                ),
        decreases srcs.len() - i,
    {
        match parse_rust(srcs[i].as_str()) {
            Some(file) => {
                files.push(file);
            },
            None => {
                return Err(i);
            },
        }
        i = i + 1;
    }
    Ok(files)
}

/// The path as text, its segments joined by `::`.
pub fn join_path(path: &QualifiedName) -> (r: String)
    ensures
        r@ == path_text(path@),
{
    join_strings(&path.segments, "::")
}

/// Whether the method is declared `pub`.
pub fn is_public(method: &Method) -> (r: bool)
    ensures
        r == method@.public,
{
    method.public
}

/// Whether `attrs` holds an attribute named `attr_name`.
pub fn has_attr(attrs: &Vec<Attr>, attr_name: &str) -> (r: bool)
    ensures
        r == attr_present(attrs.deep_view(), attr_name@),
{
    let mut i: usize = 0;
    while i < attrs.len()
        invariant
            i <= attrs.len(),
            forall|j: int| 0 <= j < i ==> (#[trigger] attrs.deep_view()[j]).name != Some(attr_name@),
        decreases attrs.len() - i,
    {
        assert(attrs.deep_view()[i as int] == attrs[i as int]@);
        match &attrs[i].name {
            Some(name) => {
                if str_eq(name.as_str(), attr_name) {
                    return true;
                }
            },
            None => {},
        }
        i = i + 1;
    }
    false
}

/// Whether `items` holds a string equal to `s`.
pub fn contains_str(items: &Vec<String>, s: &str) -> (r: bool)
    ensures
        r == items.deep_view().contains(s@),
{
    let mut i: usize = 0;
    while i < items.len()
        invariant
            i <= items.len(),
            forall|j: int| 0 <= j < i ==> (#[trigger] items.deep_view()[j]) != s@,
        decreases items.len() - i,
    {
        assert(items.deep_view()[i as int] == items[i as int]@);
        if str_eq(items[i].as_str(), s) {
            return true;
        }
        i = i + 1;
    }
    false
}

/// Whether a `derive` attribute of `attrs` lists `macro_name`.
pub fn derives(attrs: &Vec<Attr>, macro_name: &str) -> (r: bool)
    ensures
        r == derive_present(attrs.deep_view(), macro_name@),
{
    let mut i: usize = 0;
    while i < attrs.len()
        invariant
            i <= attrs.len(),
            forall|j: int|
                0 <= j < i ==> !((#[trigger] attrs.deep_view()[j]).name == Some("derive"@)
                    && attrs.deep_view()[j].nested.contains(macro_name@)),
        decreases attrs.len() - i,
    {
        assert(attrs.deep_view()[i as int] == attrs[i as int]@);
        let named_derive = match &attrs[i].name {
            Some(name) => str_eq(name.as_str(), "derive"),
            None => false,
        };
        if named_derive && contains_str(&attrs[i].nested, macro_name) {
            return true;
        }
        i = i + 1;
    }
    false
}

/// The documentation lines that `attrs` carry.
pub fn get_docs(attrs: &Vec<Attr>) -> (r: Vec<String>)
    ensures
        r.deep_view() == doc_lines(attrs.deep_view()),
{
    let mut docs: Vec<String> = Vec::new();
    let mut i: usize = 0;
    let ghost models = attrs.deep_view();
    while i < attrs.len()
        invariant
            i <= attrs.len(),
            models == attrs.deep_view(),
            docs.deep_view() == doc_lines(models.take(i as int)),
        decreases attrs.len() - i,
    {
        proof {
            assert(models.take(i as int + 1).drop_last() == models.take(i as int));
        }
        let named_doc = match &attrs[i].name {
            Some(name) => str_eq(name.as_str(), "doc"),
            None => false,
        };
        if named_doc {
            match &attrs[i].value {
                Some(text) => {
                    let line = strip_leading_space(text.as_str());
                    docs.push(line);
                },
                None => {},
            }
        }
        i = i + 1;
    }
    assert(models.take(i as int) == models);
    docs
}

/// The documentation of `attrs` as text: every line followed by a line feed.
pub fn write_docs(attrs: &Vec<Attr>) -> (r: String)
    ensures
        r@ == lines_text(doc_lines(attrs.deep_view())),
{
    let docs = get_docs(attrs);
    join_lines(&docs)
}

/// Whether the method takes a mutable receiver.
pub fn is_mut(method: &Method) -> (r: bool)
    ensures
        r == (method@.receiver is Mutable),
{
    match method.receiver {
        Receiver::Mutable => true,
        _ => false,
    }
}

} // verus!
