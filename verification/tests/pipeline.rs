use near_syn::ast::SourceFile;
use near_syn::md::{emit_md, run_md};
use near_syn::parse_rust;
use near_syn::ts::{emit_ts, run_ts};

const CONTRACT: &str = r#"//! A sample contract.

type AType = i32;

/// Doc-comments for a type def
type BType = i32;

/// Doc-comment line 1 for A
#[derive(Serialize)]
struct A {
    a1_field: U64,

    /// Some markdown
    /// ```
    /// const a = [];
    /// ```
    a3_field: U128,
}

/// non-serde enums are not exported
enum E0 {
    V1,
    V2,
}

#[near_bindgen]
struct C {
    f128: U128,
}

#[near_bindgen]
impl C {
    /// init func
    #[init]
    pub fn init_here(f128: U128) -> Self {
        Self { f128 }
    }

    /// Line 1 for get_f128 first
    /// Line 2 for get_f128 second
    pub fn get_f128(&self) -> U128 {
        self.f128
    }

    // Regular comments are not transpiled
    /// Set f128.
    pub fn set_f128(&mut self, value: U128) {
        self.f128 = value;
    }

    pub fn more_types(&mut self, key: U128, tuple: (String, BTreeSet<i32>)) -> () {
        self.f128 = key;
    }

    /// Pay to set f128.
    #[payable]
    pub fn set_f128_with_sum(&mut self, a_value: U128, other_value: U128) {
        self.f128 = a_value + other_value;
    }

    #[private]
    pub fn marked_as_private(&mut self) {}

    fn private_method_not_exported(&self, value: U128) -> U128 {
        self.f128
    }
}

#[near_bindgen]
impl C {
    /// another impl
    pub fn another_impl(&self, f128: U128) -> U128 {
        f128
    }
}

// All methods for traits are public, and thus exported
#[near_bindgen]
impl I for C {
    /// Single-line comment for get
    fn get(&self) -> U128 {
        self.f128
    }
}

// Omitted since near-bindgen is not present, methods not exported
impl J for C {
    fn m() {}
}

// Omitted since even near-bindgen is present, methods are private
#[near_bindgen]
impl K for C {
    #[private]
    fn p() {}
}

mod inner_mod {
    type A_in_mod = u32;
}
"#;

const INTERFACES: &str = r#"
pub trait I {
    /// Documented where the interface is defined.
    fn get(&self) -> U128;
}
"#;

fn sample_files() -> Vec<SourceFile> {
    vec![parse_rust(CONTRACT).unwrap(), parse_rust(INTERFACES).unwrap()]
}

#[test]
fn sample_contract_document() {
    assert_eq!(
        emit_md(&sample_files(), "near-syn", "0.5.1", "https://example.org", ""),
        "<!-- AUTOGENERATED doc, do not modify! -->
# Contract

| Method | Description | Return |
| ------ | ----------- | ------ |
| :rocket: `init_here` (*constructor*) | init func | `void` |
| :eyeglasses: `get_f128` | Line 1 for get_f128 first Line 2 for get_f128 second | `string` |
| :writing_hand: `set_f128` | Set f128. | `void` |
| :writing_hand: `more_types` |  | `void` |
| &#x24C3; `set_f128_with_sum` | Pay to set f128. | `void` |
| :eyeglasses: `another_impl` | another impl | `string` |
| :eyeglasses: `get` | Single-line comment for get Documented where the interface is defined. | `string` |

A sample contract.

## Type `BType`

Doc-comments for a type def

## Methods for C

### :rocket: `init_here` (*constructor*)

```typescript
init_here(args: { f128: string }): Promise<void>;
```

init func

### :eyeglasses: `get_f128`

```typescript
get_f128(): Promise<string>;
```

Line 1 for get_f128 first
Line 2 for get_f128 second

### :writing_hand: `set_f128`

```typescript
set_f128(args: { value: string }, gas?: any): Promise<void>;
```

Set f128.

### :writing_hand: `more_types`

```typescript
more_types(args: { key: string, tuple: [string, number[]] }, gas?: any): Promise<void>;
```


### &#x24C3; `set_f128_with_sum`

```typescript
set_f128_with_sum(args: { a_value: string, other_value: string }, gas?: any, amount?: any): Promise<void>;
```

Pay to set f128.

## Methods for C

### :eyeglasses: `another_impl`

```typescript
another_impl(args: { f128: string }): Promise<string>;
```

another impl

## Methods for `I` interface

### :eyeglasses: `get`

```typescript
get(): Promise<string>;
```

Single-line comment for get
Documented where the interface is defined.

---

References

- :rocket: Initialization method. Needs to be called right after deployment.
- :eyeglasses: View only method, *i.e.*, does not modify the contract state.
- :writing_hand: Call method, i.e., does modify the contract state.
- &#x24C3; Payable method, i.e., call needs to have an attached NEAR deposit.

---

*This documentation was generated with* **near-syn v0.5.1** <https://example.org>
"
    );
}

#[test]
fn sample_contract_bindings() {
    assert_eq!(
        emit_ts(&sample_files(), "near-syn", "0.5.1", "https://example.org", " on 2021-03-04"),
        "// TypeScript bindings generated with near-syn v0.5.1 https://example.org on 2021-03-04

export type AType = number;

export type BType = number;

export interface A {
    a1_field: string;
    a3_field: string;
}

export interface I {
    get(): Promise<string>;
}

export interface C extends I {
    init_here(args: { f128: string }): Promise<void>;
    get_f128(): Promise<string>;
    set_f128(args: { value: string }, gas?: any): Promise<void>;
    more_types(args: { key: string, tuple: [string, number[]] }, gas?: any): Promise<void>;
    set_f128_with_sum(args: { a_value: string, other_value: string }, gas?: any, amount?: any): Promise<void>;
    another_impl(args: { f128: string }): Promise<string>;
}
"
    );
}

#[test]
fn running_twice_gives_the_same_artifacts() {
    let first = sample_files();
    let second = sample_files();
    assert_eq!(first, second);
    for now in ["", " on 2021-03-04 05:06:07 UTC"] {
        assert_eq!(
            emit_md(&first, "near-syn", "0.5.1", "https://example.org", now),
            emit_md(&second, "near-syn", "0.5.1", "https://example.org", now)
        );
        assert_eq!(
            emit_ts(&first, "near-syn", "0.5.1", "https://example.org", now),
            emit_ts(&second, "near-syn", "0.5.1", "https://example.org", now)
        );
        assert_eq!(
            emit_md(&first, "near-syn", "0.5.1", "https://example.org", now),
            emit_md(&first, "near-syn", "0.5.1", "https://example.org", now)
        );
    }
}

#[test]
fn file_order_does_not_hide_an_interface() {
    let contract_first = emit_md(&sample_files(), "b", "v", "r", "");
    let mut reversed = sample_files();
    reversed.reverse();
    let interfaces_first = emit_md(&reversed, "b", "v", "r", "");
    let row = "| :eyeglasses: `get` | Single-line comment for get Documented where the interface is defined. | `string` |\n";
    assert!(contract_first.contains(row));
    assert!(interfaces_first.contains(row));
}

#[test]
fn whole_run_is_parsing_then_writing() {
    let sources = vec![CONTRACT.to_string(), INTERFACES.to_string()];
    assert_eq!(
        run_md(&sources, "near-syn", "0.5.1", "https://example.org", ""),
        Ok(emit_md(&sample_files(), "near-syn", "0.5.1", "https://example.org", ""))
    );
    assert_eq!(
        run_ts(&sources, "near-syn", "0.5.1", "https://example.org", " on t"),
        Ok(emit_ts(&sample_files(), "near-syn", "0.5.1", "https://example.org", " on t"))
    );
}

#[test]
fn whole_run_twice_gives_the_same_result() {
    let sources = vec![CONTRACT.to_string(), INTERFACES.to_string()];
    for now in ["", " on 2021-03-04 05:06:07 UTC"] {
        assert_eq!(run_md(&sources, "b", "v", "r", now), run_md(&sources, "b", "v", "r", now));
        assert_eq!(run_ts(&sources, "b", "v", "r", now), run_ts(&sources, "b", "v", "r", now));
    }
}

#[test]
fn whole_run_fails_at_the_first_text_that_is_no_source_file() {
    let sources = vec![CONTRACT.to_string(), "fn {".to_string(), "impl".to_string()];
    assert_eq!(run_md(&sources, "b", "v", "r", ""), Err(1));
    assert_eq!(run_ts(&sources, "b", "v", "r", ""), Err(1));
    assert_eq!(run_md(&sources, "b", "v", "r", ""), run_md(&sources, "b", "v", "r", ""));
    let with_c_string = vec!["const A: &CStr = c\"x\";".to_string()];
    assert_eq!(run_md(&with_c_string, "b", "v", "r", ""), Err(0));
}
