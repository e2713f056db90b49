use near_syn::ast::{Attr, Method, QualifiedName, Receiver};
use near_syn::contract::{MethodDocs, NearItemTrait};
use near_syn::resolve::join_docs;
use near_syn::text::{escape_pipe_chars, join_lines, join_strings, str_eq, strip_leading_space};
use near_syn::{get_docs, join_path, now_stamp, write_docs};

fn doc(text: &str) -> Attr {
    Attr { name: Some("doc".to_string()), value: Some(text.to_string()), nested: vec![] }
}

fn words(items: &[&str]) -> Vec<String> {
    items.iter().map(|s| s.to_string()).collect()
}

fn documented(name: &str, lines: &[&str]) -> Method {
    Method {
        name: name.to_string(),
        attrs: lines.iter().map(|line| doc(line)).collect(),
        public: true,
        receiver: Receiver::Immutable,
        params: vec![],
        output: None,
    }
}

fn interface(name: &str, methods: &[(&str, &[&str])]) -> NearItemTrait {
    NearItemTrait {
        name: name.to_string(),
        methods: methods
            .iter()
            .map(|(method, lines)| MethodDocs { name: method.to_string(), docs: words(lines) })
            .collect(),
    }
}

#[test]
fn one_leading_space_is_stripped() {
    assert_eq!(get_docs(&vec![doc(" text")]), words(&["text"]));
    assert_eq!(strip_leading_space(" text"), "text");
}

#[test]
fn only_one_leading_space_is_stripped() {
    assert_eq!(get_docs(&vec![doc("   indented")]), words(&["  indented"]));
    assert_eq!(strip_leading_space("  "), " ");
}

#[test]
fn line_without_leading_space_is_kept() {
    assert_eq!(get_docs(&vec![doc("text "), doc("\ttab"), doc("")]), words(&["text ", "\ttab", ""]));
    assert_eq!(strip_leading_space(""), "");
    assert_eq!(strip_leading_space(" "), "");
    assert_eq!(strip_leading_space("\u{a0}x"), "\u{a0}x");
    assert_eq!(strip_leading_space(" é"), "é");
}

#[test]
fn only_documentation_attributes_contribute() {
    let attrs = vec![
        Attr { name: Some("init".to_string()), value: None, nested: vec![] },
        doc(" first"),
        Attr { name: Some("docs".to_string()), value: Some(" no".to_string()), nested: vec![] },
        Attr { name: None, value: Some(" no".to_string()), nested: vec![] },
        Attr { name: Some("doc".to_string()), value: None, nested: vec!["hidden".to_string()] },
        doc(" second"),
    ];
    assert_eq!(get_docs(&attrs), words(&["first", "second"]));
}

#[test]
fn no_attributes_no_documentation() {
    assert_eq!(get_docs(&vec![]), Vec::<String>::new());
    assert_eq!(write_docs(&vec![]), "");
}

#[test]
fn fenced_code_block_is_kept_as_it_stands() {
    let attrs = vec![
        doc(" Some markdown"),
        doc(" ```"),
        doc(" const a = [];"),
        doc("     if (a) { b(); }"),
        doc(""),
        doc(" ```"),
    ];
    assert_eq!(
        write_docs(&attrs),
        "Some markdown\n```\nconst a = [];\n    if (a) { b(); }\n\n```\n"
    );
}

#[test]
fn documentation_line_with_line_feeds_stays_one_line() {
    assert_eq!(get_docs(&vec![doc(" a\n b")]), words(&["a\n b"]));
}

#[test]
fn own_documentation_comes_before_the_interface() {
    let method = documented("get", &[" own 1", " own 2"]);
    let def = interface("I", &[("get", &["trait 1", "trait 2"])]);
    assert_eq!(join_docs(&method, Some(&def)), words(&["own 1", "own 2", "trait 1", "trait 2"]));
}

#[test]
fn merged_documentation_keeps_repeated_lines() {
    let method = documented("get", &[" same", " same"]);
    let def = interface("I", &[("get", &["same"])]);
    assert_eq!(join_docs(&method, Some(&def)), words(&["same", "same", "same"]));
}

#[test]
fn interface_documentation_alone_where_the_method_has_none() {
    let method = documented("get", &[]);
    let def = interface("I", &[("set", &["no"]), ("get", &["trait"])]);
    assert_eq!(join_docs(&method, Some(&def)), words(&["trait"]));
}

#[test]
fn own_documentation_alone_without_an_interface() {
    let method = documented("get", &[" own"]);
    assert_eq!(join_docs(&method, None), words(&["own"]));
    let def = interface("I", &[("set", &["no"])]);
    assert_eq!(join_docs(&method, Some(&def)), words(&["own"]));
    let empty = interface("I", &[]);
    assert_eq!(join_docs(&method, Some(&empty)), words(&["own"]));
}

#[test]
fn interface_lines_are_not_stripped_again() {
    let method = documented("get", &[]);
    let def = interface("I", &[("get", &[" kept"])]);
    assert_eq!(join_docs(&method, Some(&def)), words(&[" kept"]));
}

#[test]
fn path_segments_are_joined_by_double_colons() {
    let path = QualifiedName { segments: words(&["a", "b", "C"]) };
    assert_eq!(join_path(&path), "a::b::C");
    assert_eq!(join_path(&QualifiedName { segments: words(&["C"]) }), "C");
    assert_eq!(join_path(&QualifiedName { segments: vec![] }), "");
}

#[test]
fn strings_are_joined_with_a_separator_between() {
    assert_eq!(join_strings(&words(&["a", "b", "c"]), ", "), "a, b, c");
    assert_eq!(join_strings(&words(&["a"]), ", "), "a");
    assert_eq!(join_strings(&vec![], ", "), "");
    assert_eq!(join_strings(&words(&["", ""]), "-"), "-");
    assert_eq!(join_strings(&words(&["a", "b"]), ""), "ab");
}

#[test]
fn lines_each_end_with_a_line_feed() {
    assert_eq!(join_lines(&words(&["a", "", "b"])), "a\n\nb\n");
    assert_eq!(join_lines(&vec![]), "");
}

#[test]
fn vertical_bars_are_escaped() {
    assert_eq!(escape_pipe_chars("number|null"), "number\\|null");
    assert_eq!(escape_pipe_chars("||"), "\\|\\|");
    assert_eq!(escape_pipe_chars("void"), "void");
    assert_eq!(escape_pipe_chars(""), "");
    assert_eq!(escape_pipe_chars("é|ü"), "é\\|ü");
    assert_eq!(escape_pipe_chars("a\\|b"), "a\\\\|b");
}

#[test]
fn string_equality_is_by_characters() {
    assert!(str_eq("init", "init"));
    assert!(str_eq("", ""));
    assert!(!str_eq("init", "Init"));
    assert!(!str_eq("init", "ini"));
    assert!(!str_eq("", "a"));
    assert!(str_eq("é", "\u{e9}"));
    assert!(!str_eq("é", "e\u{301}"));
}

#[test]
fn stamp_is_empty_when_not_wanted() {
    assert_eq!(now_stamp(true, "2021-03-04 05:06:07 UTC"), "");
    assert_eq!(now_stamp(false, "2021-03-04 05:06:07 UTC"), " on 2021-03-04 05:06:07 UTC");
    assert_eq!(now_stamp(false, ""), " on ");
}
