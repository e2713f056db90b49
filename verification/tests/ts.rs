use near_syn::ast::{Receiver, SourceFile};
use near_syn::contract::{collect_traits, Contract};
use near_syn::parse_rust;
use near_syn::resolve::{
    resolve_files, Context, MethodRecord, ParamRecord, ResolvedBlock, Role,
};
use near_syn::ts::{emit_ts, ts_contract_methods, ts_items, ts_prelude, ts_sig};

fn ts_source(text: &str) -> SourceFile {
    parse_rust(text).expect("the test source parses")
}

fn record(name: &str, params: &[(&str, &str)], ret: &str, role: Role) -> MethodRecord {
    MethodRecord {
        name: name.to_string(),
        params: params
            .iter()
            .map(|(name, ty)| ParamRecord { name: name.to_string(), ty: ty.to_string() })
            .collect(),
        ret: ret.to_string(),
        receiver: Receiver::Immutable,
        role,
        docs: vec![],
    }
}

#[test]
fn signature_of_a_view_without_parameters() {
    assert_eq!(ts_sig(&record("get", &[], "string", Role::View)), "get(): Promise<string>;");
}

#[test]
fn signature_of_a_view_with_parameters() {
    assert_eq!(
        ts_sig(&record("get", &[("key", "string"), ("n", "number")], "void", Role::View)),
        "get(args: { key: string, n: number }): Promise<void>;"
    );
}

#[test]
fn signature_of_a_call() {
    assert_eq!(
        ts_sig(&record("set", &[("value", "string")], "void", Role::Call)),
        "set(args: { value: string }, gas?: any): Promise<void>;"
    );
    assert_eq!(
        ts_sig(&record("touch", &[], "void", Role::Call)),
        "touch(args?: {}, gas?: any): Promise<void>;"
    );
}

#[test]
fn signature_of_a_payable_call() {
    assert_eq!(
        ts_sig(&record("pay", &[("a", "string")], "boolean", Role::PayableCall)),
        "pay(args: { a: string }, gas?: any, amount?: any): Promise<boolean>;"
    );
    assert_eq!(
        ts_sig(&record("pay", &[], "void", Role::PayableCall)),
        "pay(args?: {}, gas?: any, amount?: any): Promise<void>;"
    );
}

#[test]
fn signature_of_an_initializer() {
    assert_eq!(
        ts_sig(&record("new", &[("owner", "string")], "void", Role::Init)),
        "new(args: { owner: string }): Promise<void>;"
    );
    assert_eq!(ts_sig(&record("new", &[], "void", Role::Init)), "new(): Promise<void>;");
}

#[test]
fn prelude_names_the_generator() {
    assert_eq!(
        ts_prelude("near-syn", "0.5.1", "https://example.org", " on 2021-03-04"),
        "// TypeScript bindings generated with near-syn v0.5.1 https://example.org on 2021-03-04\n\n"
    );
    assert_eq!(ts_prelude("b", "v", "r", ""), "// TypeScript bindings generated with b vv r\n\n");
}

#[test]
fn type_aliases_with_and_without_documentation_are_declared_alike() {
    let file = ts_source(
        "type AType = u64;

/// Doc-comments for a type def
type BType = u64;
",
    );
    assert_eq!(
        ts_items(&file, &Contract::new()),
        "export type AType = number;\n\nexport type BType = number;\n\n"
    );
}

#[test]
fn record_with_alias_field_and_128_bit_field() {
    let file = ts_source(
        "type Amount = u64;

#[derive(Serialize)]
struct A {
    a1_field: Amount,
    a3_field: U128,
    native: u128,
    small: u64,
}
",
    );
    assert_eq!(
        ts_items(&file, &Contract::new()),
        "export type Amount = number;

export interface A {
    a1_field: Amount;
    a3_field: string;
    native: string;
    small: number;
}

"
    );
}

#[test]
fn only_enumerations_that_travel_are_declared() {
    let file = ts_source(
        "/// non-serde enums are not exported
         enum E0 { V1, V2 }
         /// doc-comment for enum
         #[derive(Serialize)]
         enum E { V1, V2 }
         #[derive(Clone, Deserialize)]
         enum Empty {}",
    );
    assert_eq!(
        ts_items(&file, &Contract::new()),
        "export enum E {\n    V1,\n    V2,\n}\n\nexport enum Empty {\n}\n\n"
    );
}

#[test]
fn only_structures_that_travel_are_declared() {
    let file = ts_source(
        "struct Plain { a: u8 }
         #[derive(Clone, Debug)] struct Cloned { a: u8 }
         #[derive(Deserialize)] struct In { a: u8 }
         #[derive(Debug)] #[derive(Serialize)] struct Out {}
         #[near_bindgen] struct C { f128: U128 }
         #[derive(Serialize)] enum E { V1, V2 }",
    );
    assert_eq!(
        ts_items(&file, &Contract::new()),
        "export interface In {\n    a: number;\n}\n\nexport interface Out {\n}\n\nexport enum E {\n    V1,\n    V2,\n}\n\n"
    );
}

#[test]
fn interface_block_declares_the_interface() {
    let file = ts_source(
        "#[near_bindgen]
         impl I for C {
             fn get(&self) -> U128 { 0 }
             #[private] fn hidden(&self) {}
             #[payable] fn pay(&mut self, to: AccountId) {}
         }
         #[near_bindgen] impl C { pub fn inherent(&self) {} }
         #[near_bindgen] impl K for C { #[private] fn p() {} }
         impl J for C { fn not_marked(&self) {} }",
    );
    assert_eq!(
        ts_items(&file, &Contract::new()),
        "export interface I {
    get(): Promise<string>;
    pay(args: { to: string }, gas?: any, amount?: any): Promise<void>;
}

"
    );
}

#[test]
fn two_inherent_blocks_merge_into_one_surface() {
    let first = ts_source(
        "#[near_bindgen] impl C { pub fn one(&self) {} }
         #[near_bindgen] impl C { pub fn two(&mut self) {} }",
    );
    let contract = Contract::new();
    let blocks = resolve_files(&vec![first], &contract);
    assert_eq!(
        ts_contract_methods(&blocks),
        "export interface C {
    one(): Promise<void>;
    two(args?: {}, gas?: any): Promise<void>;
}
"
    );
}

#[test]
fn surface_follows_file_then_block_order() {
    let first = ts_source(
        "#[near_bindgen] impl I for C { fn from_i(&self) {} }
         #[near_bindgen] impl C { pub fn b(&self) {} pub fn a(&self) {} }",
    );
    let second = ts_source(
        "#[near_bindgen] impl C { pub fn c(&self) {} }
         #[near_bindgen] impl J for C { fn from_j(&self) {} }
         #[near_bindgen] impl K for C { #[private] fn p() {} }",
    );
    let files = vec![first, second];
    let contract = collect_traits(&files);
    let blocks = resolve_files(&files, &contract);
    assert_eq!(blocks.len(), 5);
    assert_eq!(
        ts_contract_methods(&blocks),
        "export interface C extends I, J {
    b(): Promise<void>;
    a(): Promise<void>;
    c(): Promise<void>;
}
"
    );
}

#[test]
fn surface_without_inherent_block_is_called_contract() {
    let blocks = vec![ResolvedBlock {
        context: Context::Interface("I".to_string()),
        methods: vec![record("get", &[], "void", Role::View)],
    }];
    assert_eq!(ts_contract_methods(&blocks), "export interface Contract extends I {\n}\n");
    assert_eq!(ts_contract_methods(&vec![]), "export interface Contract {\n}\n");
}

#[test]
fn surface_is_named_after_the_first_inherent_block() {
    let blocks = vec![
        ResolvedBlock { context: Context::Interface("I".to_string()), methods: vec![] },
        ResolvedBlock { context: Context::Inherent("First".to_string()), methods: vec![] },
        ResolvedBlock {
            context: Context::Inherent("Second".to_string()),
            methods: vec![record("m", &[], "void", Role::View)],
        },
    ];
    assert_eq!(
        ts_contract_methods(&blocks),
        "export interface First {\n    m(): Promise<void>;\n}\n"
    );
}

#[test]
fn whole_bindings() {
    let file = ts_source(
        "type Id = u32;

#[derive(Serialize, Deserialize)]
pub struct Token { id: Id, owner: AccountId, tags: Vec<String> }

pub trait Owned { fn owner(&self) -> AccountId; }

#[near_bindgen]
impl Registry {
    #[init]
    pub fn new() -> Self { Registry }
    pub fn token(&self, id: Id) -> Option<Token> { None }
    #[payable]
    pub fn mint(&mut self, meta: HashMap<String, String>) -> Id { 0 }
}

#[near_bindgen]
impl Owned for Registry {
    fn owner(&self) -> AccountId { self.owner }
}
",
    );
    assert_eq!(
        emit_ts(&vec![file], "near-syn", "0.5.1", "https://example.org", ""),
        "// TypeScript bindings generated with near-syn v0.5.1 https://example.org

export type Id = number;

export interface Token {
    id: Id;
    owner: string;
    tags: string[];
}

export interface Owned {
    owner(): Promise<string>;
}

export interface Registry extends Owned {
    new(): Promise<void>;
    token(args: { id: Id }): Promise<Token|null>;
    mint(args: { meta: Record<string, string> }, gas?: any, amount?: any): Promise<Id>;
}
"
    );
}

#[test]
fn bindings_of_no_files() {
    assert_eq!(
        emit_ts(&vec![], "b", "v", "r", " on t"),
        "// TypeScript bindings generated with b vv r on t\n\nexport interface Contract {\n}\n"
    );
}

#[test]
fn method_returning_the_implementing_type_shows_no_value_in_the_bindings() {
    let file = ts_source(
        "#[near_bindgen] impl C {
            #[init] pub fn new(f128: U128) -> Self { C }
            pub fn with(&self, limit: u8) -> Self { C }
        }",
    );
    assert_eq!(
        emit_ts(&vec![file], "b", "v", "r", ""),
        "// TypeScript bindings generated with b vv r

export interface C {
    new(args: { f128: string }): Promise<void>;
    with(args: { limit: number }): Promise<void>;
}
"
    );
}

#[test]
fn tuple_parameter_of_string_and_set_of_integers() {
    let file = ts_source(
        "#[near_bindgen] impl C {
            pub fn more_types(&mut self, key: U128, tuple: (String, BTreeSet<i32>)) -> () {}
        }",
    );
    let blocks = resolve_files(&vec![file], &Contract::new());
    assert_eq!(blocks[0].methods[0].params[1].ty, "[string, number[]]");
    assert_eq!(
        ts_sig(&blocks[0].methods[0]),
        "more_types(args: { key: string, tuple: [string, number[]] }, gas?: any): Promise<void>;"
    );
}
