//! TypeScript: the translation of source types into type descriptions, and the
//! bindings artifact built from them.

use vstd::prelude::*;
use vstd::string::StringExecFns;

use crate::ast::AttrModel;
use crate::ast::EnumDef;
use crate::ast::EnumDefModel;
use crate::ast::Record;
use crate::ast::RecordFieldModel;
use crate::ast::RecordModel;
use crate::ast::SourceFile;
use crate::ast::SourceFileModel;
use crate::ast::SourceItem;
use crate::ast::SourceItemModel;
use crate::ast::TypeAlias;
use crate::ast::TypeAliasModel;
use crate::ast::TypeExpr;
use crate::ast::TypeModel;
use crate::ast::lemma_type_models;
use crate::ast::type_models;
use crate::contract::Contract;
use crate::contract::NearItemTraitModel;
use crate::contract::collect_traits;
use crate::contract::registry_for;
use crate::derive_present;
use crate::derives;
use crate::first_unparsed;
use crate::parse_sources;
use crate::resolve::Context;
use crate::resolve::ContextModel;
use crate::resolve::MethodRecord;
use crate::resolve::MethodRecordModel;
use crate::resolve::ParamRecordModel;
use crate::resolve::ResolvedBlock;
use crate::resolve::ResolvedBlockModel;
use crate::resolve::Role;
use crate::resolve::all_blocks;
use crate::resolve::is_bindgen;
use crate::resolve::is_eligible;
use crate::resolve::resolve_block;
use crate::resolve::resolve_files;
use crate::resolve::resolved_block;
use crate::source_models;
use crate::text::join;
use crate::text::join_strings;
use crate::text::str_eq;

verus! {

/// Names of the integer types that a TypeScript `number` holds.
pub open spec fn is_number_name(name: Seq<char>) -> bool {
    name == "i8"@ || name == "u8"@ || name == "i16"@ || name == "u16"@ || name == "i32"@ || name
        == "u32"@ || name == "i64"@ || name == "u64"@ || name == "isize"@ || name == "usize"@
}

/// Names of the integer types too wide for a `number`: the 128-bit integers
/// and the integers that travel as JSON strings.
pub open spec fn is_wide_name(name: Seq<char>) -> bool {
    name == "i128"@ || name == "u128"@ || name == "I64"@ || name == "U64"@ || name == "I128"@
        || name == "U128"@
}

/// Names of the types that hold text.
pub open spec fn is_text_name(name: Seq<char>) -> bool {
    name == "String"@ || name == "str"@ || name == "AccountId"@ || name == "ValidAccountId"@
}

/// Names of the containers with one element type that become arrays.
pub open spec fn is_list_name(name: Seq<char>) -> bool {
    name == "Vec"@ || name == "HashSet"@ || name == "BTreeSet"@
}

/// Names of the containers that become records from key to value.
pub open spec fn is_map_name(name: Seq<char>) -> bool {
    name == "HashMap"@ || name == "BTreeMap"@
}

/// The description of a type named `name` that takes no type arguments: the
/// known scalars by the table, any other name unchanged.
pub open spec fn scalar_text(name: Seq<char>) -> Seq<char> {
    if name == "bool"@ {
        "boolean"@
    } else if is_number_name(name) {
        "number"@
    } else if is_wide_name(name) || is_text_name(name) {
        "string"@
    } else {
        name
    }
}

/// Whether the description of `t` is a union, which needs parentheses before `[]`.
pub open spec fn is_union(t: TypeModel) -> bool
    decreases t,
{
    match t {
        TypeModel::Named { path, args } => path.len() > 0 && args.len() == 1 && path.last()
            == "Option"@,
        TypeModel::Reference(inner) => is_union(*inner),
        _ => false,
    }
}

/// `s`, in parentheses if `wrap` holds.
pub open spec fn parenthesized(wrap: bool, s: Seq<char>) -> Seq<char> {
    if wrap {
        "("@ + s + ")"@
    } else {
        s
    }
}

/// The descriptions of the types of `ts`, in order.
pub open spec fn type_texts(ts: Seq<TypeModel>) -> Seq<Seq<char>>
    decreases ts,
{
    Seq::new(
        ts.len(),
        |i: int|
            if 0 <= i < ts.len() {
                type_text(ts[i])
            } else {
                Seq::empty()
            },
    )
}

/// The TypeScript description of a type. A path goes by its last segment; a
/// shape that the source grammar gives no description stays as its source text.
pub open spec fn type_text(t: TypeModel) -> Seq<char>
    decreases t,
{
    match t {
        TypeModel::Named { path, args } => {
            if path.len() == 0 {
                "?"@
            } else if args.len() == 0 {
                scalar_text(path.last())
            } else if args.len() == 1 && path.last() == "Option"@ {
                type_text(args[0]) + "|null"@
            } else if args.len() == 1 && is_list_name(path.last()) {
                parenthesized(is_union(args[0]), type_text(args[0])) + "[]"@
            } else if args.len() == 2 && is_map_name(path.last()) {
                "Record<"@ + type_text(args[0]) + ", "@ + type_text(args[1]) + ">"@
            } else {
                path.last() + "<"@ + join(type_texts(args), ", "@) + ">"@
            }
        },
        TypeModel::Tuple(elems) => {
            if elems.len() == 0 {
                "void"@
            } else {
                "["@ + join(type_texts(elems), ", "@) + "]"@
            }
        },
        TypeModel::Reference(inner) => type_text(*inner),
        TypeModel::Other(text) => text,
    }
}

/// Whether the type is the implementing type itself, written `Self`.
pub open spec fn is_self_type(t: TypeModel) -> bool {
    t matches TypeModel::Named { path, args } && path.len() == 1 && path[0] == "Self"@ && args.len()
        == 0
}

/// The description of a return type: `void` where the method declares none or
/// returns the implementing type itself.
pub open spec fn return_text(output: Option<TypeModel>) -> Seq<char> {
    match output {
        Some(t) => if is_self_type(t) {
            "void"@
        } else {
            type_text(t)
        },
        None => "void"@,
    }
}

fn number_name(name: &str) -> (r: bool)
    ensures
        r == is_number_name(name@),
{
    str_eq(name, "i8") || str_eq(name, "u8") || str_eq(name, "i16") || str_eq(name, "u16")
        || str_eq(name, "i32") || str_eq(name, "u32") || str_eq(name, "i64") || str_eq(name, "u64")
        || str_eq(name, "isize") || str_eq(name, "usize")
}

fn wide_name(name: &str) -> (r: bool)
    ensures
        r == is_wide_name(name@),
{
    str_eq(name, "i128") || str_eq(name, "u128") || str_eq(name, "I64") || str_eq(name, "U64")
        || str_eq(name, "I128") || str_eq(name, "U128")
}

fn text_name(name: &str) -> (r: bool)
    ensures
        r == is_text_name(name@),
{
    str_eq(name, "String") || str_eq(name, "str") || str_eq(name, "AccountId") || str_eq(
        name,
        "ValidAccountId",
    )
}

fn list_name(name: &str) -> (r: bool)
    ensures
        r == is_list_name(name@),
{
    str_eq(name, "Vec") || str_eq(name, "HashSet") || str_eq(name, "BTreeSet")
}

fn map_name(name: &str) -> (r: bool)
    ensures
        r == is_map_name(name@),
{
    str_eq(name, "HashMap") || str_eq(name, "BTreeMap")
}

/// The description of a type that takes no type arguments.
pub fn ts_scalar(name: &str) -> (r: String)
    ensures
        r@ == scalar_text(name@),
{
    if str_eq(name, "bool") {
        String::from_str("boolean")
    } else if number_name(name) {
        String::from_str("number")
    } else if wide_name(name) || text_name(name) {
        String::from_str("string")
    } else {
        String::from_str(name)
    }
}

fn union_type(ty: &TypeExpr) -> (r: bool)
    ensures
        r == is_union(ty@),
    decreases ty,
{
    match ty {
        TypeExpr::Named { path, args } => {
            proof {
                lemma_type_models(*args);
            }
            let n = path.segments.len();
            if n > 0 && args.len() == 1 {
                str_eq(path.segments[n - 1].as_str(), "Option")
            } else {
                false
            }
        },
        TypeExpr::Reference(inner) => union_type(inner),
        _ => false,
    }
}

/// The descriptions of `items`, separated by a comma and a space.
fn ts_type_list(items: &Vec<TypeExpr>) -> (r: String)
    ensures
        r@ == join(type_texts(type_models(items@)), ", "@),
    decreases items,
{
    let mut out = String::new();
    let mut i: usize = 0;
    let ghost parts = type_texts(type_models(items@));
    proof {
        lemma_type_models(*items);
    }
    while i < items.len()
        invariant
            i <= items.len(),
            parts == type_texts(type_models(items@)),
            parts.len() == items.len(),
            forall|j: int| 0 <= j < items.len() ==> (#[trigger] parts[j]) == type_text(items[j]@),
            out@ == join(parts.take(i as int), ", "@),
        decreases items.len() - i,
    {
        proof {
            assert(parts.take(i as int + 1).drop_last() == parts.take(i as int));
        }
        if i > 0 {
            out.append(", ");
        }
        let piece = ts_type(&items[i]);
        out.append(piece.as_str());
        i = i + 1;
    }
    assert(parts.take(i as int) == parts);
    out
}

/// The TypeScript description of a source type.
pub fn ts_type(ty: &TypeExpr) -> (r: String)
    ensures
        r@ == type_text(ty@),
    decreases ty,
{
    match ty {
        TypeExpr::Named { path, args } => {
            proof {
                lemma_type_models(*args);
            }
            let n = path.segments.len();
            if n == 0 {
                return String::from_str("?");
            }
            let name = path.segments[n - 1].as_str();
            if args.len() == 0 {
                ts_scalar(name)
            } else if args.len() == 1 && str_eq(name, "Option") {
                let mut out = ts_type(&args[0]);
                out.append("|null");
                out
            } else if args.len() == 1 && list_name(name) {
                let inner = ts_type(&args[0]);
                let mut out = String::new();
                if union_type(&args[0]) {
                    out.append("(");
                    out.append(inner.as_str());
                    out.append(")");
                } else {
                    out.append(inner.as_str());
                }
                out.append("[]");
                out
            } else if args.len() == 2 && map_name(name) {
                let key = ts_type(&args[0]);
                let value = ts_type(&args[1]);
                let mut out = String::from_str("Record<");
                out.append(key.as_str());
                out.append(", ");
                out.append(value.as_str());
                out.append(">");
                out
            } else {
                let list = ts_type_list(args);
                let mut out = String::from_str(name);
                out.append("<");
                out.append(list.as_str());
                out.append(">");
                out
            }
        },
        TypeExpr::Tuple(elems) => {
            proof {
                lemma_type_models(*elems);
            }
            if elems.len() == 0 {
                String::from_str("void")
            } else {
                let list = ts_type_list(elems);
                let mut out = String::from_str("[");
                out.append(list.as_str());
                out.append("]");
                out
            }
        },
        TypeExpr::Reference(inner) => ts_type(inner),
        TypeExpr::Other(text) => text.clone(),
    }
}

/// Whether the type is written `Self`.
fn self_type(ty: &TypeExpr) -> (r: bool)
    ensures
        r == is_self_type(ty@),
{
    match ty {
        TypeExpr::Named { path, args } => {
            proof {
                lemma_type_models(*args);
            }
            if path.segments.len() == 1 && args.len() == 0 {
                str_eq(path.segments[0].as_str(), "Self")
            } else {
                false
            }
        },
        _ => false,
    }
}

/// The description of a method's return type.
pub fn ts_ret_type(output: &Option<TypeExpr>) -> (r: String)
    ensures
        r@ == return_text(output.deep_view()),
{
    match output {
        Some(ty) => {
            if self_type(ty) {
                String::from_str("void")
            } else {
                ts_type(ty)
            }
        },
        None => String::from_str("void"),
    }
}

/// One parameter of a signature: its name, a colon and its type.
pub open spec fn param_text(p: ParamRecordModel) -> Seq<char> {
    p.name + ": "@ + p.ty
}

/// The argument object of a signature: the parameters by name.
pub open spec fn args_text(params: Seq<ParamRecordModel>) -> Seq<char> {
    "args: { "@ + join(params.map_values(|p: ParamRecordModel| param_text(p)), ", "@) + " }"@
}

/// Whether a method of this role changes the contract's state.
pub open spec fn is_change(role: Role) -> bool {
    role is Call || role is PayableCall
}

/// What a signature takes, entry by entry: the argument object, if the method
/// has parameters or changes state; the gas, if it changes state; the attached
/// amount, if it is payable.
pub open spec fn sig_parts(rec: MethodRecordModel) -> Seq<Seq<char>> {
    let args = if rec.params.len() > 0 {
        seq![args_text(rec.params)]
    } else if is_change(rec.role) {
        seq!["args?: {}"@]
    } else {
        Seq::empty()
    };
    let gas = if is_change(rec.role) {
        seq!["gas?: any"@]
    } else {
        Seq::empty()
    };
    let amount = if rec.role is PayableCall {
        seq!["amount?: any"@]
    } else {
        Seq::empty()
    };
    args + gas + amount
}

/// The signature of an exposed method: a call that promises the return type.
pub open spec fn sig_text(rec: MethodRecordModel) -> Seq<char> {
    rec.name + "("@ + join(sig_parts(rec), ", "@) + "): Promise<"@ + rec.ret + ">;"@
}

/// The argument object for the parameters of `rec`.
fn ts_args(rec: &MethodRecord) -> (r: String)
    ensures
        r@ == args_text(rec@.params),
{
    let mut entries: Vec<String> = Vec::new();
    let mut i: usize = 0;
    while i < rec.params.len()
        invariant
            i <= rec.params.len(),
            entries.len() == i,
            forall|j: int|
                0 <= j < i ==> (#[trigger] entries.deep_view()[j]) == param_text(
                    rec.params.deep_view()[j],
                ),
        decreases rec.params.len() - i,
    {
        let mut entry = rec.params[i].name.clone();
        entry.append(": ");
        entry.append(rec.params[i].ty.as_str());
        let ghost before = entries.deep_view();
        entries.push(entry);
        assert(entries.deep_view() == before.push(entry@));
        i = i + 1;
    }
    assert(entries.deep_view() == rec@.params.map_values(|p: ParamRecordModel| param_text(p)));
    let list = join_strings(&entries, ", ");
    let mut out = String::from_str("args: { ");
    out.append(list.as_str());
    out.append(" }");
    out
}

/// The signature of an exposed method.
pub fn ts_sig(rec: &MethodRecord) -> (r: String)
    ensures
        r@ == sig_text(rec@),
{
    let change = match rec.role {
        Role::Call => true,
        Role::PayableCall => true,
        _ => false,
    };
    let payable = match rec.role {
        Role::PayableCall => true,
        _ => false,
    };
    let mut parts: Vec<String> = Vec::new();
    if rec.params.len() > 0 {
        let args = ts_args(rec);
        parts.push(args);
    } else if change {
        parts.push(String::from_str("args?: {}"));
    }
    if change {
        parts.push(String::from_str("gas?: any"));
    }
    if payable {
        parts.push(String::from_str("amount?: any"));
    }
    assert(parts.deep_view() == sig_parts(rec@));
    let list = join_strings(&parts, ", ");
    let mut out = rec.name.clone();
    out.append("(");
    out.append(list.as_str());
    out.append("): Promise<");
    out.append(rec.ret.as_str());
    out.append(">;");
    out
}

/// The comment that opens the bindings: it names the generator, its version
/// and its home, and says when the bindings were made.
pub open spec fn ts_prelude_text(
    bin: Seq<char>,
    version: Seq<char>,
    repository: Seq<char>,
    now: Seq<char>,
) -> Seq<char> {
    "// TypeScript bindings generated with "@ + bin + " v"@ + version + " "@ + repository + now
        + "\n\n"@
}

/// The declaration of a type alias.
pub open spec fn alias_decl(alias: TypeAliasModel) -> Seq<char> {
    "export type "@ + alias.name + " = "@ + type_text(alias.ty) + ";\n\n"@
}

/// One field of a record declaration.
pub open spec fn field_decl(field: RecordFieldModel) -> Seq<char> {
    "    "@ + field.name + ": "@ + type_text(field.ty) + ";\n"@
}

/// The fields of a record declaration, in order.
pub open spec fn field_decls(fields: Seq<RecordFieldModel>) -> Seq<char>
    decreases fields.len(),
{
    if fields.len() == 0 {
        Seq::empty()
    } else {
        field_decls(fields.drop_last()) + field_decl(fields.last())
    }
}

/// Whether a structure or an enumeration travels between the contract and
/// its callers: it derives `Serialize` or `Deserialize`.
pub open spec fn is_serde(attrs: Seq<AttrModel>) -> bool {
    derive_present(attrs, "Serialize"@) || derive_present(attrs, "Deserialize"@)
}

/// The declaration of a record.
pub open spec fn record_decl(record: RecordModel) -> Seq<char> {
    "export interface "@ + record.name + " {\n"@ + field_decls(record.fields) + "}\n\n"@
}

/// The variants of an enumeration declaration, one on each line.
pub open spec fn variant_decls(variants: Seq<Seq<char>>) -> Seq<char>
    decreases variants.len(),
{
    if variants.len() == 0 {
        Seq::empty()
    } else {
        variant_decls(variants.drop_last()) + "    "@ + variants.last() + ",\n"@
    }
}

/// The declaration of an enumeration.
pub open spec fn enum_decl(def: EnumDefModel) -> Seq<char> {
    "export enum "@ + def.name + " {\n"@ + variant_decls(def.variants) + "}\n\n"@
}

/// The signatures of `recs`, one on each line.
pub open spec fn sig_lines(recs: Seq<MethodRecordModel>) -> Seq<char>
    decreases recs.len(),
{
    if recs.len() == 0 {
        Seq::empty()
    } else {
        sig_lines(recs.drop_last()) + "    "@ + sig_text(recs.last()) + "\n"@
    }
}

/// The declaration of the interface that a block implements.
pub open spec fn interface_decl(name: Seq<char>, recs: Seq<MethodRecordModel>) -> Seq<char> {
    "export interface "@ + name + " {\n"@ + sig_lines(recs) + "}\n\n"@
}

/// What one item declares in the bindings: a type alias, its declaration; a
/// structure or an enumeration that travels, its record or its enumeration;
/// an eligible block that implements an interface and exposes a method, the
/// interface; any other item, nothing.
pub open spec fn item_decl(item: SourceItemModel, registry: Map<Seq<char>, NearItemTraitModel>) -> Seq<
    char,
> {
    match item {
        SourceItemModel::Alias(alias) => alias_decl(alias),
        SourceItemModel::Record(record) => if is_serde(record.attrs) {
            record_decl(record)
        } else {
            Seq::empty()
        },
        SourceItemModel::Enum(def) => if is_serde(def.attrs) {
            enum_decl(def)
        } else {
            Seq::empty()
        },
        SourceItemModel::Impl(b) => {
            let block = resolved_block(b, registry);
            match block.context {
                ContextModel::Interface(name) => if is_eligible(b) && block.methods.len() > 0 {
                    interface_decl(name, block.methods)
                } else {
                    Seq::empty()
                },
                ContextModel::Inherent(name) => Seq::empty(),
            }
        },
        _ => Seq::empty(),
    }
}

/// What `items` declare, in order.
pub open spec fn item_decls(items: Seq<SourceItemModel>, registry: Map<Seq<char>, NearItemTraitModel>) -> Seq<
    char,
>
    decreases items.len(),
{
    if items.len() == 0 {
        Seq::empty()
    } else {
        item_decls(items.drop_last(), registry) + item_decl(items.last(), registry)
    }
}

/// What `files` declare, in order.
pub open spec fn file_decls(
    files: Seq<SourceFileModel>,
    registry: Map<Seq<char>, NearItemTraitModel>,
) -> Seq<char>
    decreases files.len(),
{
    if files.len() == 0 {
        Seq::empty()
    } else {
        file_decls(files.drop_last(), registry) + item_decls(files.last().items, registry)
    }
}

/// The methods of the inherent blocks among `blocks`, in order.
pub open spec fn inherent_methods(blocks: Seq<ResolvedBlockModel>) -> Seq<MethodRecordModel>
    decreases blocks.len(),
{
    if blocks.len() == 0 {
        Seq::empty()
    } else {
        match blocks.last().context {
            ContextModel::Inherent(name) => inherent_methods(blocks.drop_last())
                + blocks.last().methods,
            ContextModel::Interface(name) => inherent_methods(blocks.drop_last()),
        }
    }
}

/// The names of the interfaces that `blocks` implement with at least one
/// exposed method, in order.
pub open spec fn interface_names(blocks: Seq<ResolvedBlockModel>) -> Seq<Seq<char>>
    decreases blocks.len(),
{
    if blocks.len() == 0 {
        Seq::empty()
    } else {
        match blocks.last().context {
            ContextModel::Interface(name) => if blocks.last().methods.len() > 0 {
                interface_names(blocks.drop_last()).push(name)
            } else {
                interface_names(blocks.drop_last())
            },
            ContextModel::Inherent(name) => interface_names(blocks.drop_last()),
        }
    }
}

/// The name of the first inherent block among `blocks`, if there is one.
pub open spec fn first_inherent(blocks: Seq<ResolvedBlockModel>) -> Option<Seq<char>>
    decreases blocks.len(),
{
    if blocks.len() == 0 {
        None
    } else {
        match first_inherent(blocks.drop_last()) {
            Some(name) => Some(name),
            None => match blocks.last().context {
                ContextModel::Inherent(name) => Some(name),
                ContextModel::Interface(name) => None,
            },
        }
    }
}

/// The name of the contract's surface: that of its first inherent block, else `Contract`.
pub open spec fn surface_name(blocks: Seq<ResolvedBlockModel>) -> Seq<char> {
    match first_inherent(blocks) {
        Some(name) => name,
        None => "Contract"@,
    }
}

/// The clause that ties the surface to the interfaces it implements.
pub open spec fn extends_text(names: Seq<Seq<char>>) -> Seq<char> {
    if names.len() == 0 {
        Seq::empty()
    } else {
        " extends "@ + join(names, ", "@)
    }
}

/// The declaration of the contract's whole surface: the methods of all its
/// inherent blocks in order, and the interfaces it implements by reference.
pub open spec fn surface_decl(blocks: Seq<ResolvedBlockModel>) -> Seq<char> {
    "export interface "@ + surface_name(blocks) + extends_text(interface_names(blocks)) + " {\n"@
        + sig_lines(inherent_methods(blocks)) + "}\n"@
}

/// The whole bindings for `files`. Every block is resolved against the
/// registry of all files, whatever the order of the files.
pub open spec fn bindings_text(
    files: Seq<SourceFileModel>,
    bin: Seq<char>,
    version: Seq<char>,
    repository: Seq<char>,
    now: Seq<char>,
) -> Seq<char> {
    ts_prelude_text(bin, version, repository, now) + file_decls(files, registry_for(files))
        + surface_decl(all_blocks(files, registry_for(files)))
}

/// Whether `result` is what a run on the source texts `srcs` gives: the
/// whole bindings, where every text is a source file; else the place of the
/// first text that is none.
pub open spec fn is_bindings_of(
    srcs: Seq<Seq<char>>,
    bin: Seq<char>,
    version: Seq<char>,
    repository: Seq<char>,
    now: Seq<char>,
    result: Result<Seq<char>, int>,
) -> bool {
    match result {
        Ok(text) => source_models(srcs) is Some && text == bindings_text(
            source_models(srcs)->0,
            bin,
            version,
            repository,
            now,
        ),
        Err(at) => first_unparsed(srcs, at),
    }
}

/// Two runs on the same source texts with the same stamp give the same
/// result, character by character: the same bindings, or the same place of
/// the first text that is no source file.
pub proof fn lemma_bindings_repeatable(
    srcs: Seq<Seq<char>>,
    bin: Seq<char>,
    version: Seq<char>,
    repository: Seq<char>,
    now: Seq<char>,
    first: Result<Seq<char>, int>,
    second: Result<Seq<char>, int>,
)
    requires
        is_bindings_of(srcs, bin, version, repository, now, first),
        is_bindings_of(srcs, bin, version, repository, now, second),
    ensures
        first == second,
{
}

/// The comment that opens the bindings.
pub fn ts_prelude(bin: &str, version: &str, repository: &str, now: &str) -> (r: String)
    ensures
        r@ == ts_prelude_text(bin@, version@, repository@, now@),
{
    let mut out = String::from_str("// TypeScript bindings generated with ");
    out.append(bin);
    out.append(" v");
    out.append(version);
    out.append(" ");
    out.append(repository);
    out.append(now);
    out.append("\n\n");
    out
}

fn ts_alias(alias: &TypeAlias) -> (r: String)
    ensures
        r@ == alias_decl(alias@),
{
    let ty = ts_type(&alias.ty);
    let mut out = String::from_str("export type ");
    out.append(alias.name.as_str());
    out.append(" = ");
    out.append(ty.as_str());
    out.append(";\n\n");
    out
}

fn ts_record(record: &Record) -> (r: String)
    ensures
        r@ == record_decl(record@),
{
    let ghost models = record.fields.deep_view();
    let mut fields = String::new();
    let mut i: usize = 0;
    while i < record.fields.len()
        invariant
            i <= record.fields.len(),
            models == record.fields.deep_view(),
            fields@ == field_decls(models.take(i as int)),
        decreases record.fields.len() - i,
    {
        proof {
            assert(models.take(i as int + 1).drop_last() == models.take(i as int));
        }
        let ty = ts_type(&record.fields[i].ty);
        let mut line = String::from_str("    ");
        line.append(record.fields[i].name.as_str());
        line.append(": ");
        line.append(ty.as_str());
        line.append(";\n");
        fields.append(line.as_str());
        i = i + 1;
    }
    assert(models.take(i as int) == models);
    let mut out = String::from_str("export interface ");
    out.append(record.name.as_str());
    out.append(" {\n");
    out.append(fields.as_str());
    out.append("}\n\n");
    out
}

fn ts_enum(def: &EnumDef) -> (r: String)
    ensures
        r@ == enum_decl(def@),
{
    let ghost models = def.variants.deep_view();
    let mut lines = String::new();
    let mut i: usize = 0;
    while i < def.variants.len()
        invariant
            i <= def.variants.len(),
            models == def.variants.deep_view(),
            lines@ == variant_decls(models.take(i as int)),
        decreases def.variants.len() - i,
    {
        proof {
            assert(models.take(i as int + 1).drop_last() == models.take(i as int));
        }
        lines.append("    ");
        lines.append(def.variants[i].as_str());
        lines.append(",\n");
        i = i + 1;
    }
    assert(models.take(i as int) == models);
    let mut out = String::from_str("export enum ");
    out.append(def.name.as_str());
    out.append(" {\n");
    out.append(lines.as_str());
    out.append("}\n\n");
    out
}

fn ts_sig_lines(recs: &Vec<MethodRecord>) -> (r: String)
    ensures
        r@ == sig_lines(recs.deep_view()),
{
    let ghost models = recs.deep_view();
    let mut out = String::new();
    let mut i: usize = 0;
    while i < recs.len()
        invariant
            i <= recs.len(),
            models == recs.deep_view(),
            out@ == sig_lines(models.take(i as int)),
        decreases recs.len() - i,
    {
        proof {
            assert(models.take(i as int + 1).drop_last() == models.take(i as int));
        }
        let sig = ts_sig(&recs[i]);
        out.append("    ");
        out.append(sig.as_str());
        out.append("\n");
        i = i + 1;
    }
    assert(models.take(i as int) == models);
    out
}

fn ts_item(item: &SourceItem, contract: &Contract) -> (r: String)
    ensures
        r@ == item_decl(item@, contract@),
{
    match item {
        SourceItem::Alias(alias) => ts_alias(alias),
        SourceItem::Record(record) => {
            if derives(&record.attrs, "Serialize") || derives(&record.attrs, "Deserialize") {
                ts_record(record)
            } else {
                String::new()
            }
        },
        SourceItem::Enum(def) => {
            if derives(&def.attrs, "Serialize") || derives(&def.attrs, "Deserialize") {
                ts_enum(def)
            } else {
                String::new()
            }
        },
        SourceItem::Impl(block) => {
            let resolved = resolve_block(block, contract);
            match &resolved.context {
                Context::Interface(name) => {
                    if is_bindgen(block) && resolved.methods.len() > 0 {
                        let lines = ts_sig_lines(&resolved.methods);
                        let mut out = String::from_str("export interface ");
                        out.append(name.as_str());
                        out.append(" {\n");
                        out.append(lines.as_str());
                        out.append("}\n\n");
                        out
                    } else {
                        String::new()
                    }
                },
                Context::Inherent(name) => String::new(),
            }
        },
        _ => String::new(),
    }
}

/// The declarations of one file: its type aliases, its records and the
/// interfaces that its blocks implement.
pub fn ts_items(syntax: &SourceFile, contract: &Contract) -> (r: String)
    ensures
        r@ == item_decls(syntax@.items, contract@),
{
    let ghost models = syntax.items.deep_view();
    let mut out = String::new();
    let mut i: usize = 0;
    while i < syntax.items.len()
        invariant
            i <= syntax.items.len(),
            models == syntax.items.deep_view(),
            out@ == item_decls(models.take(i as int), contract@),
        decreases syntax.items.len() - i,
    {
        proof {
            assert(models.take(i as int + 1).drop_last() == models.take(i as int));
        }
        let decl = ts_item(&syntax.items[i], contract);
        out.append(decl.as_str());
        i = i + 1;
    }
    assert(models.take(i as int) == models);
    out
}

fn ts_inherent_methods(blocks: &Vec<ResolvedBlock>) -> (r: String)
    ensures
        r@ == sig_lines(inherent_methods(blocks.deep_view())),
{
    let ghost models = blocks.deep_view();
    let ghost mut recs: Seq<MethodRecordModel> = Seq::empty();
    let mut out = String::new();
    let mut i: usize = 0;
    while i < blocks.len()
        invariant
            i <= blocks.len(),
            models == blocks.deep_view(),
            recs == inherent_methods(models.take(i as int)),
            out@ == sig_lines(recs),
        decreases blocks.len() - i,
    {
        proof {
            assert(models.take(i as int + 1).drop_last() == models.take(i as int));
        }
        match &blocks[i].context {
            Context::Inherent(name) => {
                let lines = ts_sig_lines(&blocks[i].methods);
                out.append(lines.as_str());
                proof {
                    lemma_sig_lines_concat(recs, blocks[i as int]@.methods);
                    recs = recs + blocks[i as int]@.methods;
                }
            },
            Context::Interface(name) => {},
        }
        i = i + 1;
    }
    assert(models.take(i as int) == models);
    out
}

/// The signature lines of two runs of methods, one after the other, are
/// those of the first run followed by those of the second.
pub proof fn lemma_sig_lines_concat(a: Seq<MethodRecordModel>, b: Seq<MethodRecordModel>)
    ensures
        sig_lines(a + b) == sig_lines(a) + sig_lines(b),
    decreases b.len(),
{
    if b.len() == 0 {
    } else {
        lemma_sig_lines_concat(a, b.drop_last());
        assert((a + b).drop_last() == a + b.drop_last());
    }
}

fn ts_interface_names(blocks: &Vec<ResolvedBlock>) -> (r: Vec<String>)
    ensures
        r.deep_view() == interface_names(blocks.deep_view()),
{
    let ghost models = blocks.deep_view();
    let mut out: Vec<String> = Vec::new();
    let mut i: usize = 0;
    while i < blocks.len()
        invariant
            i <= blocks.len(),
            models == blocks.deep_view(),
            out.deep_view() == interface_names(models.take(i as int)),
        decreases blocks.len() - i,
    {
        proof {
            assert(models.take(i as int + 1).drop_last() == models.take(i as int));
        }
        match &blocks[i].context {
            Context::Interface(name) => {
                if blocks[i].methods.len() > 0 {
                    out.push(name.clone());
                }
            },
            Context::Inherent(name) => {},
        }
        i = i + 1;
    }
    assert(models.take(i as int) == models);
    out
}

fn ts_surface_name(blocks: &Vec<ResolvedBlock>) -> (r: String)
    ensures
        r@ == surface_name(blocks.deep_view()),
{
    let ghost models = blocks.deep_view();
    let mut i: usize = 0;
    while i < blocks.len()
        invariant
            i <= blocks.len(),
            models == blocks.deep_view(),
            first_inherent(models.take(i as int)) is None,
        decreases blocks.len() - i,
    {
        proof {
            assert(models.take(i as int + 1).drop_last() == models.take(i as int));
        }
        match &blocks[i].context {
            Context::Inherent(name) => {
                proof {
                    lemma_first_inherent_prefix(models, i as int + 1);
                }
                return name.clone();
            },
            Context::Interface(name) => {},
        }
        i = i + 1;
    }
    assert(models.take(i as int) == models);
    String::from_str("Contract")
}

/// Once a prefix of the blocks holds an inherent block, the first inherent
/// block of the whole is that of the prefix.
pub proof fn lemma_first_inherent_prefix(blocks: Seq<ResolvedBlockModel>, n: int)
    requires
        0 <= n <= blocks.len(),
        first_inherent(blocks.take(n)) is Some,
    ensures
        first_inherent(blocks) == first_inherent(blocks.take(n)),
    decreases blocks.len(),
{
    if n == blocks.len() {
        assert(blocks.take(n) == blocks);
    } else {
        assert(blocks.drop_last().take(n) == blocks.take(n));
        lemma_first_inherent_prefix(blocks.drop_last(), n);
    }
}

/// The declaration of the contract's whole surface, from the resolved blocks of all files.
pub fn ts_contract_methods(blocks: &Vec<ResolvedBlock>) -> (r: String)
    ensures
        r@ == surface_decl(blocks.deep_view()),
{
    let name = ts_surface_name(blocks);
    let names = ts_interface_names(blocks);
    let lines = ts_inherent_methods(blocks);
    let mut out = String::from_str("export interface ");
    out.append(name.as_str());
    if names.len() > 0 {
        let list = join_strings(&names, ", ");
        let mut clause = String::from_str(" extends ");
        clause.append(list.as_str());
        out.append(clause.as_str());
    }
    out.append(" {\n");
    out.append(lines.as_str());
    out.append("}\n");
    out
}

/// The whole bindings for `asts`: the opening comment, the declarations of
/// each file, and the contract's surface. The interface definitions of all
/// files are recorded before any block is resolved.
pub fn emit_ts(asts: &Vec<SourceFile>, bin: &str, version: &str, repository: &str, now: &str) -> (r:
    String)
    ensures
        r@ == bindings_text(asts.deep_view(), bin@, version@, repository@, now@),
{
    let contract = collect_traits(asts);
    let ghost models = asts.deep_view();
    let mut decls = String::new();
    let mut i: usize = 0;
    while i < asts.len()
        invariant
            i <= asts.len(),
            models == asts.deep_view(),
            decls@ == file_decls(models.take(i as int), contract@),
        decreases asts.len() - i,
    {
        proof {
            assert(models.take(i as int + 1).drop_last() == models.take(i as int));
        }
        let part = ts_items(&asts[i], &contract);
        decls.append(part.as_str());
        i = i + 1;
    }
    assert(models.take(i as int) == models);
    let blocks = resolve_files(asts, &contract);
    let surface = ts_contract_methods(&blocks);
    let mut out = ts_prelude(bin, version, repository, now);
    out.append(decls.as_str());
    out.append(surface.as_str());
    out
}

/// A whole run: parses every source text, then writes the bindings. One
/// text that is no source file fails the run, and nothing is written.
pub fn run_ts(srcs: &Vec<String>, bin: &str, version: &str, repository: &str, now: &str) -> (r:
    Result<String, usize>)
    ensures
        is_bindings_of(
            srcs.deep_view(),
            bin@,
            version@,
            repository@,
            now@,
            match r {
                Ok(text) => Ok(text@),
                Err(at) => Err(at as int),
            },
        ),
{
    match parse_sources(srcs) {
        Ok(asts) => Ok(emit_ts(&asts, bin, version, repository, now)),
        Err(at) => Err(at),
    }
}

} // verus!
