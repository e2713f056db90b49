use near_syn::ast::{SourceFile, SourceItem};
use near_syn::contract::{collect_traits, Contract};
use near_syn::md::{
    emit_md, md_footer, md_items, md_methods, md_methods_table, md_methods_table_rows, md_prelude,
};
use near_syn::parse_rust;
use near_syn::resolve::exported_methods;

fn md_source(text: &str) -> SourceFile {
    parse_rust(text).expect("the test source parses")
}

const LEGEND: &str = "- :rocket: Initialization method. Needs to be called right after deployment.
- :eyeglasses: View only method, *i.e.*, does not modify the contract state.
- :writing_hand: Call method, i.e., does modify the contract state.
- &#x24C3; Payable method, i.e., call needs to have an attached NEAR deposit.
";

#[test]
fn prelude_without_stamp() {
    assert_eq!(md_prelude(""), "<!-- AUTOGENERATED doc, do not modify! -->\n# Contract\n\n");
}

#[test]
fn prelude_with_stamp() {
    assert_eq!(
        md_prelude(" on 2021-03-04 05:06:07 UTC"),
        "<!-- AUTOGENERATED doc on 2021-03-04 05:06:07 UTC, do not modify! -->\n# Contract\n\n"
    );
}

#[test]
fn footer_holds_legend_and_attribution() {
    assert_eq!(
        md_footer("near-syn", "0.5.1", "https://example.org/near-syn", " on 2021-03-04"),
        format!(
            "\n---\n\nReferences\n\n{}\n---\n\n*This documentation was generated with* **near-syn v0.5.1** <https://example.org/near-syn> on 2021-03-04\n",
            LEGEND
        )
    );
}

#[test]
fn footer_without_stamp() {
    assert_eq!(
        md_footer("bin", "1", "", ""),
        format!(
            "\n---\n\nReferences\n\n{}\n---\n\n*This documentation was generated with* **bin v1** <>\n",
            LEGEND
        )
    );
}

#[test]
fn table_rows_of_a_block() {
    let file = md_source(
        "impl C {
            /// init func
            #[init]
            pub fn init_here(f128: U128) -> Self { C }
            /// Line 1 for get_f128 first
            /// Line 2 for get_f128 second
            pub fn get_f128(&self) -> U128 { 0 }
            pub fn find(&mut self, key: U128) -> Option<u8> { None }
            /// Pay to set f128.
            #[payable]
            pub fn pay(&mut self) {}
        }",
    );
    let block = match &file.items[0] {
        SourceItem::Impl(block) => block,
        _ => panic!("not an implementation block"),
    };
    let methods = exported_methods(block);
    assert_eq!(
        md_methods_table_rows(&methods, None),
        "| :rocket: `init_here` (*constructor*) | init func | `void` |
| :eyeglasses: `get_f128` | Line 1 for get_f128 first Line 2 for get_f128 second | `string` |
| :writing_hand: `find` |  | `number\\|null` |
| &#x24C3; `pay` | Pay to set f128. | `void` |
"
    );
    assert_eq!(md_methods_table_rows(&vec![], None), "");
}

#[test]
fn sections_of_a_block() {
    let file = md_source(
        "impl C {
            /// Set f128.
            ///
            /// ```
            ///   indented();
            /// ```
            pub fn set_f128(&mut self, value: U128) {}
            pub fn get(&self) -> U128 { 0 }
        }",
    );
    let block = match &file.items[0] {
        SourceItem::Impl(block) => block,
        _ => panic!("not an implementation block"),
    };
    assert_eq!(
        md_methods(exported_methods(block), None),
        "
### :writing_hand: `set_f128`

```typescript
set_f128(args: { value: string }, gas?: any): Promise<void>;
```

Set f128.

```
  indented();
```

### :eyeglasses: `get`

```typescript
get(): Promise<string>;
```

"
    );
    assert_eq!(md_methods(vec![], None), "");
}

#[test]
fn sections_merge_the_interface_documentation() {
    let file = md_source(
        "trait I { /// From the interface.\n fn get(&self) -> U128; }
         impl I for C { /// Own.\n fn get(&self) -> U128 { 0 } }",
    );
    let contract = collect_traits(&vec![md_source("trait I { /// From the interface.\n fn get(&self) -> U128; }")]);
    let block = match &file.items[1] {
        SourceItem::Impl(block) => block,
        _ => panic!("not an implementation block"),
    };
    let methods = exported_methods(block);
    assert_eq!(
        md_methods_table_rows(&methods, contract.lookup("I")),
        "| :eyeglasses: `get` | Own. From the interface. | `string` |\n"
    );
    assert_eq!(
        md_methods(methods, contract.lookup("I")),
        "\n### :eyeglasses: `get`\n\n```typescript\nget(): Promise<string>;\n```\n\nOwn.\nFrom the interface.\n"
    );
}

#[test]
fn items_of_a_file() {
    let file = md_source(
        "//! Contract docs.
//! Second line.

/// Not shown: a structure.
struct S;

impl C { pub fn not_marked(&self) {} }

#[near_bindgen]
impl C {
    /// The owner.
    pub fn owner(&self) -> AccountId { self.owner }
    fn internal(&self) {}
}

#[near_bindgen]
impl token::Receiver for C {
    fn on_transfer(&mut self, amount: U128) -> bool { true }
}

#[near_bindgen]
impl (A, B) {
    pub fn pair(&self) {}
}

#[near_bindgen]
impl K for C {
    #[private]
    fn p() {}
}
",
    );
    assert_eq!(
        md_items(&file, &Contract::new()),
        "Contract docs.
Second line.

## Methods for C

### :eyeglasses: `owner`

```typescript
owner(): Promise<string>;
```

The owner.

## Methods for `token::Receiver` interface

### :writing_hand: `on_transfer`

```typescript
on_transfer(args: { amount: string }, gas?: any): Promise<boolean>;
```


## Methods for Contract

### :eyeglasses: `pair`

```typescript
pair(): Promise<void>;
```

"
    );
}

#[test]
fn items_of_an_empty_file() {
    assert_eq!(md_items(&md_source(""), &Contract::new()), "");
    assert_eq!(md_items(&md_source("fn f() {}"), &Contract::new()), "");
}

#[test]
fn documented_type_alias_shows_its_lines_as_they_stand() {
    let file = md_source(
        "type AType = u64;

/// Doc-comments for a type def
///   with an indented line
type BType = u64;
",
    );
    assert_eq!(
        md_items(&file, &Contract::new()),
        "\n## Type `BType`\n\nDoc-comments for a type def\n  with an indented line\n"
    );
}

#[test]
fn summary_table_lists_every_exposed_method_of_every_file() {
    let first = md_source(
        "#[near_bindgen] impl C { pub fn a(&self) {} fn hidden(&self) {} }
         impl C { pub fn not_marked(&self) {} }",
    );
    let second = md_source(
        "#[near_bindgen] impl I for C { /// own\n fn b(&mut self) -> Vec<u8> { vec![] } }
         trait I { /// shared\n fn b(&mut self) -> Vec<u8>; }",
    );
    let files = vec![first, second];
    let contract = collect_traits(&files);
    assert_eq!(
        md_methods_table(&files, &contract),
        "| Method | Description | Return |
| ------ | ----------- | ------ |
| :eyeglasses: `a` |  | `void` |
| :writing_hand: `b` | own shared | `number[]` |

"
    );
}

#[test]
fn summary_table_without_methods() {
    assert_eq!(
        md_methods_table(&vec![], &Contract::new()),
        "| Method | Description | Return |\n| ------ | ----------- | ------ |\n\n"
    );
}

#[test]
fn whole_document() {
    let file = md_source(
        "//! A counter.

#[near_bindgen]
impl Counter {
    /// Creates the counter.
    #[init]
    pub fn new() -> Self { Counter }

    /// Adds one.
    pub fn increment(&mut self) -> u64 { 1 }
}
",
    );
    assert_eq!(
        emit_md(&vec![file], "near-syn", "0.5.1", "https://example.org", ""),
        format!(
            "<!-- AUTOGENERATED doc, do not modify! -->
# Contract

| Method | Description | Return |
| ------ | ----------- | ------ |
| :rocket: `new` (*constructor*) | Creates the counter. | `void` |
| :writing_hand: `increment` | Adds one. | `number` |

A counter.

## Methods for Counter

### :rocket: `new` (*constructor*)

```typescript
new(): Promise<void>;
```

Creates the counter.

### :writing_hand: `increment`

```typescript
increment(args?: {{}}, gas?: any): Promise<number>;
```

Adds one.

---

References

{}
---

*This documentation was generated with* **near-syn v0.5.1** <https://example.org>
",
            LEGEND
        )
    );
}

#[test]
fn document_of_no_files() {
    assert_eq!(
        emit_md(&vec![], "b", "v", "r", " on t"),
        format!(
            "<!-- AUTOGENERATED doc on t, do not modify! -->\n# Contract\n\n| Method | Description | Return |\n| ------ | ----------- | ------ |\n\n\n---\n\nReferences\n\n{}\n---\n\n*This documentation was generated with* **b vv** <r> on t\n",
            LEGEND
        )
    );
}

#[test]
fn method_returning_the_implementing_type_shows_no_value_in_the_document() {
    let file = md_source("#[near_bindgen] impl C { pub fn with(&self, limit: u8) -> Self { C } }");
    let text = emit_md(&vec![file], "b", "v", "r", "");
    assert!(text.contains("| :eyeglasses: `with` |  | `void` |\n"));
    assert!(text.contains("```typescript\nwith(args: { limit: number }): Promise<void>;\n```\n"));
}

#[test]
fn interface_defined_in_a_later_file_is_merged() {
    let implementer = md_source("#[near_bindgen] impl I for C { /// own\n fn get(&self) {} }");
    let definer = md_source("trait I { /// from a later file\n fn get(&self); }");
    let text = emit_md(&vec![implementer, definer], "b", "v", "r", "");
    assert!(text.contains("| :eyeglasses: `get` | own from a later file | `void` |\n"));
    assert!(text.contains("```\n\nown\nfrom a later file\n"));
}
