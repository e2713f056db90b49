use near_syn::ast::{
    Attr, EnumDef, ImplBlock, Method, Param, QualifiedName, Receiver, Record, RecordField, SourceFile,
    SourceItem, TraitDef, TraitMethod, TypeAlias, TypeExpr,
};
use near_syn::lower::{lower_file, lower_type, TYPE_DEPTH};
use near_syn::parse_rust;
use near_syn::parse_sources;

fn syn_source(text: &str) -> SourceFile {
    parse_rust(text).expect("the test source parses")
}

fn syn_path(segments: &[&str]) -> QualifiedName {
    QualifiedName { segments: segments.iter().map(|s| s.to_string()).collect() }
}

fn syn_named(name: &str) -> TypeExpr {
    TypeExpr::Named { path: syn_path(&[name]), args: vec![] }
}

fn syn_generic(name: &str, args: Vec<TypeExpr>) -> TypeExpr {
    TypeExpr::Named { path: syn_path(&[name]), args }
}

fn syn_flag(name: &str) -> Attr {
    Attr { name: Some(name.to_string()), value: None, nested: vec![] }
}

fn syn_doc(text: &str) -> Attr {
    Attr { name: Some("doc".to_string()), value: Some(text.to_string()), nested: vec![] }
}

fn alias_type(text: &str) -> TypeExpr {
    let mut file = syn_source(&format!("type T = {};", text));
    match file.items.remove(0) {
        SourceItem::Alias(alias) => alias.ty,
        other => panic!("not a type alias: {:?}", other),
    }
}

fn first_method(text: &str) -> Method {
    let mut file = syn_source(&format!("impl C {{ {} }}", text));
    match file.items.remove(0) {
        SourceItem::Impl(mut block) => block.methods.remove(0),
        other => panic!("not an implementation block: {:?}", other),
    }
}

fn first_attr(text: &str) -> Attr {
    let mut file = syn_source(&format!("{}\nstruct S;", text));
    match file.items.remove(0) {
        SourceItem::Record(mut record) => record.attrs.remove(0),
        other => panic!("not a structure: {:?}", other),
    }
}

#[test]
fn text_that_is_no_source_file_gives_none() {
    assert!(parse_rust("fn {").is_none());
    assert!(parse_rust("impl C { pub fn }").is_none());
    assert!(parse_rust("\"unterminated").is_none());
}

#[test]
fn empty_text_is_an_empty_file() {
    assert_eq!(syn_source(""), SourceFile { attrs: vec![], items: vec![] });
    assert_eq!(syn_source("// a comment\n"), SourceFile { attrs: vec![], items: vec![] });
}

#[test]
fn file_holds_its_inner_attributes() {
    let file = syn_source("//! Top line\n//!\n#![allow(unused)]\nfn f() {}\n");
    assert_eq!(
        file.attrs,
        vec![
            syn_doc(" Top line"),
            syn_doc(""),
            Attr {
                name: Some("allow".to_string()),
                value: None,
                nested: vec!["unused".to_string()]
            },
        ]
    );
    assert_eq!(file.items, vec![SourceItem::Other]);
}

#[test]
fn items_are_told_apart_in_order() {
    let file = syn_source(
        "use a::b; type A = u8; struct S; enum E { V } trait I {} impl C {} fn f() {} mod m { type X = u8; } const K: u8 = 1;",
    );
    let kinds: Vec<&str> = file
        .items
        .iter()
        .map(|item| match item {
            SourceItem::Alias(_) => "alias",
            SourceItem::Record(_) => "record",
            SourceItem::Enum(_) => "enum",
            SourceItem::Interface(_) => "interface",
            SourceItem::Impl(_) => "impl",
            SourceItem::Other => "other",
        })
        .collect();
    assert_eq!(
        kinds,
        vec!["other", "alias", "record", "enum", "interface", "impl", "other", "other", "other"]
    );
}

#[test]
fn type_alias_holds_name_attributes_and_type() {
    let file = syn_source("/// Doc-comments for a type def\npub type BType = i32;");
    assert_eq!(
        file.items,
        vec![SourceItem::Alias(TypeAlias {
            name: "BType".to_string(),
            attrs: vec![syn_doc(" Doc-comments for a type def")],
            ty: syn_named("i32"),
        })]
    );
}

#[test]
fn structure_holds_its_named_fields() {
    let file = syn_source(
        "#[derive(Serialize, Clone)]
         pub struct A {
             /// field docs are not part of the model
             a1_field: U64,
             pub a3_field: Vec<U128>,
         }",
    );
    assert_eq!(
        file.items,
        vec![SourceItem::Record(Record {
            name: "A".to_string(),
            attrs: vec![Attr {
                name: Some("derive".to_string()),
                value: None,
                nested: vec!["Serialize".to_string(), "Clone".to_string()],
            }],
            fields: vec![
                RecordField { name: "a1_field".to_string(), ty: syn_named("U64") },
                RecordField {
                    name: "a3_field".to_string(),
                    ty: syn_generic("Vec", vec![syn_named("U128")])
                },
            ],
        })]
    );
}

#[test]
fn structure_without_named_fields_has_none() {
    let file = syn_source("struct Unit; struct Pair(u8, String); struct Empty {}");
    for (item, name) in file.items.iter().zip(["Unit", "Pair", "Empty"]) {
        assert_eq!(
            item,
            &SourceItem::Record(Record { name: name.to_string(), attrs: vec![], fields: vec![] })
        );
    }
}

#[test]
fn interface_definition_holds_its_methods() {
    let file = syn_source(
        "pub trait I: Base {
             type Output;
             const LIMIT: u8;
             /// Line one
             /// Line two
             fn get(&self) -> U128;
             #[must_use]
             fn with_body(&self) {}
         }",
    );
    assert_eq!(
        file.items,
        vec![SourceItem::Interface(TraitDef {
            name: "I".to_string(),
            methods: vec![
                TraitMethod {
                    name: "get".to_string(),
                    attrs: vec![syn_doc(" Line one"), syn_doc(" Line two")]
                },
                TraitMethod { name: "with_body".to_string(), attrs: vec![syn_flag("must_use")] },
            ],
        })]
    );
}

#[test]
fn implementation_block_holds_attributes_interface_type_and_methods() {
    let file = syn_source(
        "#[near_bindgen]
         impl a::I for model::C {
             const K: u8 = 1;
             type Out = u8;
             fn get(&self) -> U128 { self.f128 }
         }",
    );
    assert_eq!(
        file.items,
        vec![SourceItem::Impl(ImplBlock {
            attrs: vec![syn_flag("near_bindgen")],
            trait_path: Some(syn_path(&["a", "I"])),
            self_ty: TypeExpr::Named { path: syn_path(&["model", "C"]), args: vec![] },
            methods: vec![Method {
                name: "get".to_string(),
                attrs: vec![],
                public: false,
                receiver: Receiver::Immutable,
                params: vec![],
                output: Some(syn_named("U128")),
            }],
        })]
    );
}

#[test]
fn inherent_block_has_no_interface() {
    let file = syn_source("impl<T> Wrapper<T> { }");
    assert_eq!(
        file.items,
        vec![SourceItem::Impl(ImplBlock {
            attrs: vec![],
            trait_path: None,
            self_ty: syn_generic("Wrapper", vec![syn_named("T")]),
            methods: vec![],
        })]
    );
}

#[test]
fn method_holds_name_attributes_and_signature() {
    let method = first_method(
        "/// Pay to set f128.
         #[payable]
         pub fn set_f128_with_sum(&mut self, a_value: U128, other_value: Option<U128>) -> bool { true }",
    );
    assert_eq!(
        method,
        Method {
            name: "set_f128_with_sum".to_string(),
            attrs: vec![syn_doc(" Pay to set f128."), syn_flag("payable")],
            public: true,
            receiver: Receiver::Mutable,
            params: vec![
                Param { name: "a_value".to_string(), ty: syn_named("U128") },
                Param {
                    name: "other_value".to_string(),
                    ty: syn_generic("Option", vec![syn_named("U128")])
                },
            ],
            output: Some(syn_named("bool")),
        }
    );
}

#[test]
fn only_plain_pub_counts_as_public() {
    assert!(first_method("pub fn m() {}").public);
    assert!(!first_method("fn m() {}").public);
    assert!(!first_method("pub(crate) fn m() {}").public);
    assert!(!first_method("pub(super) fn m() {}").public);
    assert!(!first_method("pub(in crate::a) fn m() {}").public);
}

#[test]
fn receiver_is_read_from_the_first_input() {
    assert_eq!(first_method("fn m() {}").receiver, Receiver::Absent);
    assert_eq!(first_method("fn m(a: u8) {}").receiver, Receiver::Absent);
    assert_eq!(first_method("fn m(&self) {}").receiver, Receiver::Immutable);
    assert_eq!(first_method("fn m(&'a self, a: u8) {}").receiver, Receiver::Immutable);
    assert_eq!(first_method("fn m(self) {}").receiver, Receiver::Immutable);
    assert_eq!(first_method("fn m(&mut self) {}").receiver, Receiver::Mutable);
    assert_eq!(first_method("fn m(&'a mut self, a: u8) {}").receiver, Receiver::Mutable);
    assert_eq!(first_method("fn m(mut self) {}").receiver, Receiver::Mutable);
    assert_eq!(first_method("fn m(self: Box<Self>) {}").receiver, Receiver::Absent);
}

#[test]
fn parameters_are_the_inputs_that_bind_one_identifier() {
    let method = first_method("fn m(&self, a: u8, (b, c): (u8, u8), _: u8, mut d: String, e @ 1..=2: u8) {}");
    assert_eq!(
        method.params,
        vec![
            Param { name: "a".to_string(), ty: syn_named("u8") },
            Param { name: "d".to_string(), ty: syn_named("String") },
            Param { name: "e".to_string(), ty: syn_named("u8") },
        ]
    );
    let typed_self = first_method("fn m(self: Box<Self>, a: u8) {}");
    assert_eq!(
        typed_self.params,
        vec![
            Param { name: "self".to_string(), ty: syn_generic("Box", vec![syn_named("Self")]) },
            Param { name: "a".to_string(), ty: syn_named("u8") },
        ]
    );
}

#[test]
fn output_is_the_declared_return_type() {
    assert_eq!(first_method("fn m() {}").output, None);
    assert_eq!(first_method("fn m() -> () {}").output, Some(TypeExpr::Tuple(vec![])));
    assert_eq!(first_method("fn m() -> Self { C }").output, Some(syn_named("Self")));
}

#[test]
fn path_type_holds_every_segment_and_the_last_type_arguments() {
    assert_eq!(
        alias_type("std::collections::HashMap<String, Vec<u8>>"),
        TypeExpr::Named {
            path: syn_path(&["std", "collections", "HashMap"]),
            args: vec![syn_named("String"), syn_generic("Vec", vec![syn_named("u8")])],
        }
    );
    assert_eq!(
        alias_type("a::B<u8>::C"),
        TypeExpr::Named { path: syn_path(&["a", "B", "C"]), args: vec![] }
    );
    assert_eq!(alias_type("::a::B"), TypeExpr::Named { path: syn_path(&["a", "B"]), args: vec![] });
    assert_eq!(
        alias_type("<T as Tr>::Out"),
        TypeExpr::Named { path: syn_path(&["Tr", "Out"]), args: vec![] }
    );
}

#[test]
fn only_types_count_among_the_arguments() {
    assert_eq!(alias_type("Cow<'a, str>"), syn_generic("Cow", vec![syn_named("str")]));
    assert_eq!(alias_type("Array<u8, 4>"), syn_generic("Array", vec![syn_named("u8")]));
    assert_eq!(alias_type("Iter<Item = u8>"), syn_generic("Iter", vec![]));
    assert_eq!(alias_type("Fn(u8) -> u8"), syn_generic("Fn", vec![]));
}

#[test]
fn tuple_reference_and_parentheses() {
    assert_eq!(
        alias_type("(String, BTreeSet<i32>)"),
        TypeExpr::Tuple(vec![syn_named("String"), syn_generic("BTreeSet", vec![syn_named("i32")])])
    );
    assert_eq!(alias_type("()"), TypeExpr::Tuple(vec![]));
    assert_eq!(alias_type("(u8,)"), TypeExpr::Tuple(vec![syn_named("u8")]));
    assert_eq!(alias_type("(u8)"), syn_named("u8"));
    assert_eq!(alias_type("((u8))"), syn_named("u8"));
    assert_eq!(alias_type("&str"), TypeExpr::Reference(Box::new(syn_named("str"))));
    assert_eq!(alias_type("&'a mut u8"), TypeExpr::Reference(Box::new(syn_named("u8"))));
}

#[test]
fn other_shapes_are_kept_as_source_text() {
    assert_eq!(alias_type("[u8; 32]"), TypeExpr::Other("[u8 ; 32]".to_string()));
    assert_eq!(alias_type("[u8]"), TypeExpr::Other("[u8]".to_string()));
    assert_eq!(alias_type("*const u8"), TypeExpr::Other("* const u8".to_string()));
    assert_eq!(alias_type("fn(u8) -> bool"), TypeExpr::Other("fn (u8) -> bool".to_string()));
    assert_eq!(alias_type("!"), TypeExpr::Other("!".to_string()));
    assert_eq!(alias_type("dyn Tr"), TypeExpr::Other("dyn Tr".to_string()));
    assert_eq!(
        alias_type("Vec<[u8; 2]>"),
        syn_generic("Vec", vec![TypeExpr::Other("[u8 ; 2]".to_string())])
    );
}

#[test]
fn type_below_the_depth_is_kept_as_source_text() {
    let file = syn::parse_file("type T = Vec<Option<u8>>;").unwrap();
    let ty = match &file.items[0] {
        syn::Item::Type(alias) => &*alias.ty,
        _ => panic!("not a type alias"),
    };
    assert_eq!(lower_type(ty, 0), TypeExpr::Other("Vec < Option < u8 > >".to_string()));
    assert_eq!(
        lower_type(ty, 1),
        syn_generic("Vec", vec![TypeExpr::Other("Option < u8 >".to_string())])
    );
    assert_eq!(
        lower_type(ty, 2),
        syn_generic("Vec", vec![syn_generic("Option", vec![TypeExpr::Other("u8".to_string())])])
    );
    let whole = syn_generic("Vec", vec![syn_generic("Option", vec![syn_named("u8")])]);
    assert_eq!(lower_type(ty, 3), whole);
    assert_eq!(lower_type(ty, TYPE_DEPTH), whole);
    assert_eq!(TYPE_DEPTH, usize::MAX);
}

#[test]
fn nested_type_within_the_depth_is_read_whole() {
    let mut text = String::from("u8");
    for _ in 0..30 {
        text = format!("Vec<{}>", text);
    }
    let mut ty = &alias_type(&text);
    let mut levels = 0;
    while let TypeExpr::Named { path, args } = ty {
        if args.is_empty() {
            assert_eq!(path, &syn_path(&["u8"]));
            break;
        }
        assert_eq!(path, &syn_path(&["Vec"]));
        assert_eq!(args.len(), 1);
        ty = &args[0];
        levels += 1;
    }
    assert_eq!(levels, 30);
}

#[test]
fn attribute_name_is_a_single_identifier() {
    assert_eq!(first_attr("#[near_bindgen]"), syn_flag("near_bindgen"));
    assert_eq!(first_attr("#[a::b]"), Attr { name: None, value: None, nested: vec![] });
    assert_eq!(first_attr("#[::a]"), Attr { name: None, value: None, nested: vec![] });
}

#[test]
fn attribute_value_is_the_text_of_a_string_literal() {
    assert_eq!(first_attr("#[doc = \" text\"]"), syn_doc(" text"));
    assert_eq!(first_attr("/// a \"quoted\" \\ line"), syn_doc(" a \"quoted\" \\ line"));
    assert_eq!(first_attr("#[doc = r#\"raw \"text\"\"#]"), syn_doc("raw \"text\""));
    assert_eq!(first_attr("/** block\n docs */"), syn_doc(" block\n docs "));
    assert_eq!(first_attr("#[limit = 3]"), syn_flag("limit"));
    assert_eq!(first_attr("#[flag = true]"), syn_flag("flag"));
    assert_eq!(
        first_attr("#[a::b = \"x\"]"),
        Attr { name: None, value: Some("x".to_string()), nested: vec![] }
    );
}

#[test]
fn attribute_list_holds_its_single_identifiers() {
    assert_eq!(
        first_attr("#[derive(Serialize, serde::Deserialize, Clone)]"),
        Attr {
            name: Some("derive".to_string()),
            value: None,
            nested: vec!["Serialize".to_string(), "Clone".to_string()],
        }
    );
    assert_eq!(
        first_attr("#[serde(rename = \"x\", default, \"lit\", skip(a))]"),
        Attr {
            name: Some("serde".to_string()),
            value: None,
            nested: vec!["rename".to_string(), "default".to_string(), "skip".to_string()],
        }
    );
    assert_eq!(first_attr("#[derive()]"), syn_flag("derive"));
}

#[test]
fn attribute_of_no_known_form_has_only_its_name() {
    assert_eq!(first_attr("#[cfg(all(a, b) c)]"), syn_flag("cfg"));
    assert_eq!(first_attr("#[weird { a }]"), syn_flag("weird"));
    assert_eq!(first_attr("#[key = a::b]"), syn_flag("key"));
}

#[test]
fn lowering_a_tree_is_what_parsing_gives() {
    let text = "//! docs\n#[near_bindgen] impl I for C { fn m(&mut self, a: Vec<u8>) -> Self { C } }";
    let tree = syn::parse_file(text).unwrap();
    assert_eq!(Some(lower_file(&tree)), parse_rust(text));
}

#[test]
fn every_source_parses_or_the_run_fails() {
    let good = vec!["type A = u8;".to_string(), "".to_string(), "struct S;".to_string()];
    let files = parse_sources(&good).unwrap();
    assert_eq!(files.len(), 3);
    assert_eq!(Some(&files[0]), parse_rust("type A = u8;").as_ref());
    assert_eq!(Some(&files[2]), parse_rust("struct S;").as_ref());
    assert_eq!(parse_sources(&vec![]), Ok(vec![]));
}

#[test]
fn first_source_that_does_not_parse_is_named() {
    let sources = vec![
        "type A = u8;".to_string(),
        "fn {".to_string(),
        "struct S;".to_string(),
        "impl".to_string(),
    ];
    assert_eq!(parse_sources(&sources), Err(1));
    assert_eq!(parse_sources(&vec!["(".to_string()]), Err(0));
}

#[test]
fn enumeration_holds_the_names_of_its_variants() {
    let file = syn_source(
        "/// doc-comment for enum
         #[derive(Serialize)]
         pub enum E { V1, V2(u8), V3 { a: u8 }, V4 = 4 }
         enum Empty {}",
    );
    assert_eq!(
        file.items,
        vec![
            SourceItem::Enum(EnumDef {
                name: "E".to_string(),
                attrs: vec![
                    syn_doc(" doc-comment for enum"),
                    Attr {
                        name: Some("derive".to_string()),
                        value: None,
                        nested: vec!["Serialize".to_string()]
                    },
                ],
                variants: vec!["V1".to_string(), "V2".to_string(), "V3".to_string(), "V4".to_string()],
            }),
            SourceItem::Enum(EnumDef { name: "Empty".to_string(), attrs: vec![], variants: vec![] }),
        ]
    );
}
