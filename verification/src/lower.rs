//! From the syntax tree of `syn` to the syntax model. What the model holds of
//! each node is stated over what the boundary reads of it.

use vstd::prelude::*;

use crate::ast::Attr;
use crate::ast::AttrModel;
use crate::ast::EnumDef;
use crate::ast::EnumDefModel;
use crate::ast::ImplBlock;
use crate::ast::ImplBlockModel;
use crate::ast::Method;
use crate::ast::MethodModel;
use crate::ast::Param;
use crate::ast::ParamModel;
use crate::ast::QualifiedName;
use crate::ast::Receiver;
use crate::ast::Record;
use crate::ast::RecordField;
use crate::ast::RecordFieldModel;
use crate::ast::RecordModel;
use crate::ast::SourceFile;
use crate::ast::SourceFileModel;
use crate::ast::SourceItem;
use crate::ast::SourceItemModel;
use crate::ast::TraitDef;
use crate::ast::TraitDefModel;
use crate::ast::TraitMethod;
use crate::ast::TraitMethodModel;
use crate::ast::TypeAlias;
use crate::ast::TypeAliasModel;
use crate::ast::TypeExpr;
use crate::ast::TypeModel;
use crate::ast::lemma_type_models;
use crate::syntax::ArgRef;
use crate::syntax::ItemRef;
use crate::syntax::MetaRef;
use crate::syntax::MetaRefView;
use crate::syntax::TypeRef;
use crate::syntax::TypeRefView;
use crate::syntax::VisRef;
use crate::syntax::alias_parts;
use crate::syntax::alias_parts_of;
use crate::syntax::arg_ref;
use crate::syntax::arg_ref_of;
use crate::syntax::attr_meta;
use crate::syntax::attr_meta_of;
use crate::syntax::attr_path;
use crate::syntax::attr_path_of;
use crate::syntax::attr_tokens;
use crate::syntax::attr_tokens_of;
use crate::syntax::enum_parts;
use crate::syntax::enum_parts_of;
use crate::syntax::field_parts;
use crate::syntax::field_parts_of;
use crate::syntax::file_attrs;
use crate::syntax::file_attrs_of;
use crate::syntax::file_items;
use crate::syntax::file_items_of;
use crate::syntax::generic_type;
use crate::syntax::generic_type_of;
use crate::syntax::impl_item_method;
use crate::syntax::impl_item_method_of;
use crate::syntax::impl_parts;
use crate::syntax::impl_parts_of;
use crate::syntax::item_ref;
use crate::syntax::item_ref_of;
use crate::syntax::meta_ref;
use crate::syntax::meta_ref_of;
use crate::syntax::method_parts;
use crate::syntax::method_parts_of;
use crate::syntax::method_vis;
use crate::syntax::method_vis_of;
use crate::syntax::nested_path;
use crate::syntax::nested_path_of;
use crate::syntax::pat_ident;
use crate::syntax::pat_ident_of;
use crate::syntax::path_ident;
use crate::syntax::path_ident_of;
use crate::syntax::path_idents;
use crate::syntax::path_idents_of;
use crate::syntax::path_segments;
use crate::syntax::path_segments_of;
use crate::syntax::segment_args;
use crate::syntax::segment_args_of;
use crate::syntax::struct_parts;
use crate::syntax::struct_parts_of;
use crate::syntax::trait_item_method;
use crate::syntax::trait_item_method_of;
use crate::syntax::trait_method_parts;
use crate::syntax::trait_method_parts_of;
use crate::syntax::trait_parts;
use crate::syntax::trait_parts_of;
use crate::syntax::type_ref;
use crate::syntax::type_ref_of;
use crate::syntax::type_tokens;
use crate::syntax::type_tokens_of;
use crate::syntax::variant_name;
use crate::syntax::variant_name_of;
use crate::tokens::TOKEN_DEPTH;
use crate::tokens::stream_accepted;
use crate::tokens::stream_ok;

verus! {

/// How deep into a type the lowering goes: deeper than any type nests.
pub const TYPE_DEPTH: usize = usize::MAX;

/// The names among the entries of a list attribute: of each entry that is a
/// single identifier, that identifier.
pub open spec fn nested_names(entries: Seq<&syn::NestedMeta>) -> Seq<Seq<char>>
    decreases entries.len(),
{
    if entries.len() == 0 {
        Seq::empty()
    } else {
        let rest = nested_names(entries.drop_last());
        match nested_path_of(*entries.last()) {
            Some(path) => match path_ident_of(*path) {
                Some(name) => rest.push(name),
                None => rest,
            },
            None => rest,
        }
    }
}

/// The content of an attribute, where the parser can read every literal
/// that it comes to among the attribute's tokens and the content has one of
/// the three forms.
pub open spec fn attr_content(a: syn::Attribute) -> Option<syn::Meta> {
    if stream_accepted(attr_tokens_of(a), TOKEN_DEPTH as nat) {
        attr_meta_of(a)
    } else {
        None
    }
}

/// The model of an attribute.
pub open spec fn attr_model(a: syn::Attribute) -> AttrModel {
    AttrModel {
        name: path_ident_of(attr_path_of(a)),
        value: match attr_content(a) {
            Some(meta) => match meta_ref_of(meta) {
                MetaRefView::NameValue { text } => text,
                _ => None,
            },
            None => None,
        },
        nested: match attr_content(a) {
            Some(meta) => match meta_ref_of(meta) {
                MetaRefView::List(entries) => nested_names(entries),
                _ => Seq::empty(),
            },
            None => Seq::empty(),
        },
    }
}

/// The models of `attrs`, in order.
pub open spec fn attr_models(attrs: Seq<syn::Attribute>) -> Seq<AttrModel> {
    attrs.map_values(|a: syn::Attribute| attr_model(a))
}

/// The types among the arguments of a path segment, in order.
pub open spec fn type_args(args: Seq<&syn::GenericArgument>) -> Seq<&syn::Type>
    decreases args.len(),
{
    if args.len() == 0 {
        Seq::empty()
    } else {
        match generic_type_of(*args.last()) {
            Some(ty) => type_args(args.drop_last()).push(ty),
            None => type_args(args.drop_last()),
        }
    }
}

/// The arguments in angle brackets of the last segment of a path.
pub open spec fn last_args(p: syn::Path) -> Seq<&'static syn::GenericArgument> {
    if path_segments_of(p).len() == 0 {
        Seq::empty()
    } else {
        segment_args_of(*path_segments_of(p).last())
    }
}

/// The models of `ts`, each read to the depth `depth`.
pub open spec fn lowered_types(ts: Seq<&syn::Type>, depth: nat) -> Seq<TypeModel>
    decreases depth, 1nat,
{
    Seq::new(
        ts.len(),
        |i: int|
            if 0 <= i < ts.len() {
                lowered_type(*ts[i], depth)
            } else {
                TypeModel::Tuple(Seq::empty())
            },
    )
}

/// The model of a type, read to the depth `depth`: a path with the types
/// among the arguments of its last segment, a tuple, a reference, or, for
/// any other shape and below the depth, the source text. Parentheses and
/// invisible delimiters round a type leave no trace but in the depth.
pub open spec fn lowered_type(t: syn::Type, depth: nat) -> TypeModel
    decreases depth, 0nat,
{
    if depth == 0 {
        TypeModel::Other(type_tokens_of(t))
    } else {
        match type_ref_of(t) {
            TypeRefView::Path(path) => TypeModel::Named {
                path: path_idents_of(*path),
                args: lowered_types(type_args(last_args(*path)), (depth - 1) as nat),
            },
            TypeRefView::Tuple(elems) => TypeModel::Tuple(lowered_types(elems, (depth - 1) as nat)),
            TypeRefView::Reference(inner) => TypeModel::Reference(
                Box::new(lowered_type(*inner, (depth - 1) as nat)),
            ),
            TypeRefView::Paren(inner) => lowered_type(*inner, (depth - 1) as nat),
            TypeRefView::Group(inner) => lowered_type(*inner, (depth - 1) as nat),
            TypeRefView::Other => TypeModel::Other(type_tokens_of(t)),
        }
    }
}

/// The model of a type as it stands in an item.
pub open spec fn item_type(t: syn::Type) -> TypeModel {
    lowered_type(t, TYPE_DEPTH as nat)
}

/// The receiver of a method with these inputs: the first input, if it is one.
pub open spec fn receiver_of(inputs: Seq<&syn::FnArg>) -> Receiver {
    if inputs.len() == 0 {
        Receiver::Absent
    } else {
        match arg_ref_of(*inputs[0]) {
            ArgRef::Receiver { mutable } => if mutable {
                Receiver::Mutable
            } else {
                Receiver::Immutable
            },
            ArgRef::Typed { pat, ty } => Receiver::Absent,
        }
    }
}

/// The parameters among the inputs of a method: each input that binds a
/// single identifier, with its type.
pub open spec fn params_of(inputs: Seq<&syn::FnArg>) -> Seq<ParamModel>
    decreases inputs.len(),
{
    if inputs.len() == 0 {
        Seq::empty()
    } else {
        let rest = params_of(inputs.drop_last());
        match arg_ref_of(*inputs.last()) {
            ArgRef::Typed { pat, ty } => match pat_ident_of(*pat) {
                Some(name) => rest.push(ParamModel { name, ty: item_type(*ty) }),
                None => rest,
            },
            ArgRef::Receiver { mutable } => rest,
        }
    }
}

/// The model of a method of an implementation block.
pub open spec fn method_model(m: syn::ImplItemMethod) -> MethodModel {
    let parts = method_parts_of(m);
    MethodModel {
        name: parts.name,
        attrs: attr_models(parts.attrs),
        public: method_vis_of(m) is Public,
        receiver: receiver_of(parts.inputs),
        params: params_of(parts.inputs),
        output: match parts.output {
            Some(ty) => Some(item_type(*ty)),
            None => None,
        },
    }
}

/// The models of the methods among the items of an implementation block.
pub open spec fn methods_of(items: Seq<syn::ImplItem>) -> Seq<MethodModel>
    decreases items.len(),
{
    if items.len() == 0 {
        Seq::empty()
    } else {
        match impl_item_method_of(items.last()) {
            Some(m) => methods_of(items.drop_last()).push(method_model(*m)),
            None => methods_of(items.drop_last()),
        }
    }
}

/// The model of an implementation block.
pub open spec fn impl_model(b: syn::ItemImpl) -> ImplBlockModel {
    let parts = impl_parts_of(b);
    ImplBlockModel {
        attrs: attr_models(parts.attrs),
        trait_path: match parts.trait_path {
            Some(path) => Some(path_idents_of(*path)),
            None => None,
        },
        self_ty: item_type(*parts.self_ty),
        methods: methods_of(parts.items),
    }
}

/// The models of the methods among the items of an interface definition.
pub open spec fn trait_methods_of(items: Seq<syn::TraitItem>) -> Seq<TraitMethodModel>
    decreases items.len(),
{
    if items.len() == 0 {
        Seq::empty()
    } else {
        match trait_item_method_of(items.last()) {
            Some(m) => trait_methods_of(items.drop_last()).push(
                TraitMethodModel {
                    name: trait_method_parts_of(*m).name,
                    attrs: attr_models(trait_method_parts_of(*m).attrs),
                },
            ),
            None => trait_methods_of(items.drop_last()),
        }
    }
}

/// The model of an interface definition.
pub open spec fn trait_model(t: syn::ItemTrait) -> TraitDefModel {
    TraitDefModel {
        name: trait_parts_of(t).name,
        methods: trait_methods_of(trait_parts_of(t).items),
    }
}

/// The model of a type alias.
pub open spec fn alias_model(a: syn::ItemType) -> TypeAliasModel {
    TypeAliasModel {
        name: alias_parts_of(a).name,
        attrs: attr_models(alias_parts_of(a).attrs),
        ty: item_type(*alias_parts_of(a).ty),
    }
}

/// The models of the named fields among `fields`.
pub open spec fn fields_of(fields: Seq<&syn::Field>) -> Seq<RecordFieldModel>
    decreases fields.len(),
{
    if fields.len() == 0 {
        Seq::empty()
    } else {
        let rest = fields_of(fields.drop_last());
        match field_parts_of(*fields.last()).name {
            Some(name) => rest.push(
                RecordFieldModel { name, ty: item_type(*field_parts_of(*fields.last()).ty) },
            ),
            None => rest,
        }
    }
}

/// The model of a structure.
pub open spec fn struct_model(s: syn::ItemStruct) -> RecordModel {
    RecordModel {
        name: struct_parts_of(s).name,
        attrs: attr_models(struct_parts_of(s).attrs),
        fields: fields_of(struct_parts_of(s).fields),
    }
}

/// The model of an enumeration.
pub open spec fn enum_model(e: syn::ItemEnum) -> EnumDefModel {
    EnumDefModel {
        name: enum_parts_of(e).name,
        attrs: attr_models(enum_parts_of(e).attrs),
        variants: enum_parts_of(e).variants.map_values(|v: &syn::Variant| variant_name_of(*v)),
    }
}

/// The model of a top-level item.
pub open spec fn item_model(i: syn::Item) -> SourceItemModel {
    match item_ref_of(i) {
        ItemRef::Alias(a) => SourceItemModel::Alias(alias_model(*a)),
        ItemRef::Struct(s) => SourceItemModel::Record(struct_model(*s)),
        ItemRef::Enum(e) => SourceItemModel::Enum(enum_model(*e)),
        ItemRef::Trait(t) => SourceItemModel::Interface(trait_model(*t)),
        ItemRef::Impl(b) => SourceItemModel::Impl(impl_model(*b)),
        ItemRef::Other => SourceItemModel::Other,
    }
}

/// The model of a source file.
pub open spec fn file_model(f: syn::File) -> SourceFileModel {
    SourceFileModel {
        attrs: attr_models(file_attrs_of(f)),
        items: file_items_of(f).map_values(|i: syn::Item| item_model(i)),
    }
}

fn lower_nested(entries: &Vec<&syn::NestedMeta>) -> (r: Vec<String>)
    ensures
        r.deep_view() == nested_names(entries@),
{
    let mut out: Vec<String> = Vec::new();
    let mut i: usize = 0;
    while i < entries.len()
        invariant
            i <= entries.len(),
            out.deep_view() == nested_names(entries@.take(i as int)),
        decreases entries.len() - i,
    {
        proof {
            assert(entries@.take(i as int + 1).drop_last() == entries@.take(i as int));
        }
        match nested_path(entries[i]) {
            Some(path) => match path_ident(path) {
                Some(name) => {
                    out.push(name);
                },
                None => {},
            },
            None => {},
        }
        i = i + 1;
    }
    assert(entries@.take(i as int) == entries@);
    out
}

/// The model of one attribute of the syntax tree.
pub fn lower_attr(a: &syn::Attribute) -> (r: Attr)
    ensures
        r@ == attr_model(*a),
{
    let name = path_ident(attr_path(a));
    let content = if stream_ok(attr_tokens(a), TOKEN_DEPTH) {
        attr_meta(a)
    } else {
        None
    };
    match content {
        Some(meta) => match meta_ref(&meta) {
            MetaRef::NameValue { text } => {
                let r = Attr { name, value: text, nested: Vec::new() };
                assert(r.nested.deep_view() == Seq::<Seq<char>>::empty());
                r
            },
            MetaRef::List(entries) => Attr { name, value: None, nested: lower_nested(&entries) },
            MetaRef::Path => {
                let r = Attr { name, value: None, nested: Vec::new() };
                assert(r.nested.deep_view() == Seq::<Seq<char>>::empty());
                r
            },
        },
        None => {
            let r = Attr { name, value: None, nested: Vec::new() };
            assert(r.nested.deep_view() == Seq::<Seq<char>>::empty());
            r
        },
    }
}

/// The models of the attributes of a node.
pub fn lower_attrs(attrs: &Vec<syn::Attribute>) -> (r: Vec<Attr>)
    ensures
        r.deep_view() == attr_models(attrs@),
{
    let mut out: Vec<Attr> = Vec::new();
    let mut i: usize = 0;
    while i < attrs.len()
        invariant
            i <= attrs.len(),
            out.len() == i,
            forall|j: int| 0 <= j < i ==> (#[trigger] out.deep_view()[j]) == attr_model(attrs[j]),
        decreases attrs.len() - i,
    {
        let entry = lower_attr(&attrs[i]);
        let ghost before = out.deep_view();
        out.push(entry);
        assert(out.deep_view() == before.push(entry@));
        i = i + 1;
    }
    out
}

fn lower_type_args<'a>(args: &Vec<&'a syn::GenericArgument>) -> (r: Vec<&'a syn::Type>)
    ensures
        r@ == type_args(args@),
{
    let mut out: Vec<&'a syn::Type> = Vec::new();
    let mut i: usize = 0;
    while i < args.len()
        invariant
            i <= args.len(),
            out@ == type_args(args@.take(i as int)),
        decreases args.len() - i,
    {
        proof {
            assert(args@.take(i as int + 1).drop_last() == args@.take(i as int));
        }
        match generic_type(args[i]) {
            Some(ty) => {
                out.push(ty);
            },
            None => {},
        }
        i = i + 1;
    }
    assert(args@.take(i as int) == args@);
    out
}

fn lower_types(ts: &Vec<&syn::Type>, depth: usize) -> (r: Vec<TypeExpr>)
    ensures
        r.deep_view() == lowered_types(ts@, depth as nat),
    decreases depth, 1nat,
{
    let mut out: Vec<TypeExpr> = Vec::new();
    let mut i: usize = 0;
    while i < ts.len()
        invariant
            i <= ts.len(),
            out.len() == i,
            forall|j: int|
                0 <= j < i ==> (#[trigger] out.deep_view()[j]) == lowered_type(*ts[j], depth as nat),
        decreases ts.len() - i,
    {
        let entry = lower_type(ts[i], depth);
        let ghost before = out.deep_view();
        out.push(entry);
        assert(out.deep_view() == before.push(entry@));
        i = i + 1;
    }
    out
}

/// The model of a type of the syntax tree, read to the depth `depth`.
pub fn lower_type(t: &syn::Type, depth: usize) -> (r: TypeExpr)
    ensures
        r@ == lowered_type(*t, depth as nat),
    decreases depth, 0nat,
{
    if depth == 0 {
        return TypeExpr::Other(type_tokens(t));
    }
    match type_ref(t) {
        TypeRef::Path(path) => {
            let segments = path_segments(path);
            let generic = if segments.len() == 0 {
                Vec::new()
            } else {
                segment_args(segments[segments.len() - 1])
            };
            let types = lower_type_args(&generic);
            let args = lower_types(&types, depth - 1);
            proof {
                lemma_type_models(args);
            }
            TypeExpr::Named { path: QualifiedName { segments: path_idents(path) }, args }
        },
        TypeRef::Tuple(elems) => {
            let items = lower_types(&elems, depth - 1);
            proof {
                lemma_type_models(items);
            }
            TypeExpr::Tuple(items)
        },
        TypeRef::Reference(inner) => TypeExpr::Reference(Box::new(lower_type(inner, depth - 1))),
        TypeRef::Paren(inner) => lower_type(inner, depth - 1),
        TypeRef::Group(inner) => lower_type(inner, depth - 1),
        TypeRef::Other => TypeExpr::Other(type_tokens(t)),
    }
}

fn lower_receiver(inputs: &Vec<&syn::FnArg>) -> (r: Receiver)
    ensures
        r == receiver_of(inputs@),
{
    if inputs.len() == 0 {
        Receiver::Absent
    } else {
        match arg_ref(inputs[0]) {
            ArgRef::Receiver { mutable } => if mutable {
                Receiver::Mutable
            } else {
                Receiver::Immutable
            },
            ArgRef::Typed { pat, ty } => Receiver::Absent,
        }
    }
}

fn lower_params(inputs: &Vec<&syn::FnArg>) -> (r: Vec<Param>)
    ensures
        r.deep_view() == params_of(inputs@),
{
    let mut out: Vec<Param> = Vec::new();
    let mut i: usize = 0;
    while i < inputs.len()
        invariant
            i <= inputs.len(),
            out.deep_view() == params_of(inputs@.take(i as int)),
        decreases inputs.len() - i,
    {
        proof {
            assert(inputs@.take(i as int + 1).drop_last() == inputs@.take(i as int));
        }
        match arg_ref(inputs[i]) {
            ArgRef::Typed { pat, ty } => match pat_ident(pat) {
                Some(name) => {
                    let entry = Param { name, ty: lower_type(ty, TYPE_DEPTH) };
                    out.push(entry);
                },
                None => {},
            },
            ArgRef::Receiver { mutable } => {},
        }
        i = i + 1;
    }
    assert(inputs@.take(i as int) == inputs@);
    out
}

/// The model of a method of the syntax tree.
pub fn lower_method(m: &syn::ImplItemMethod) -> (r: Method)
    ensures
        r@ == method_model(*m),
{
    let parts = method_parts(m);
    let output = match parts.output {
        Some(ty) => Some(lower_type(ty, TYPE_DEPTH)),
        None => None,
    };
    let public = match method_vis(m) {
        VisRef::Public => true,
        _ => false,
    };
    Method {
        name: parts.name,
        attrs: lower_attrs(parts.attrs),
        public,
        receiver: lower_receiver(&parts.inputs),
        params: lower_params(&parts.inputs),
        output,
    }
}

fn lower_methods(items: &Vec<syn::ImplItem>) -> (r: Vec<Method>)
    ensures
        r.deep_view() == methods_of(items@),
{
    let mut out: Vec<Method> = Vec::new();
    let mut i: usize = 0;
    while i < items.len()
        invariant
            i <= items.len(),
            out.deep_view() == methods_of(items@.take(i as int)),
        decreases items.len() - i,
    {
        proof {
            assert(items@.take(i as int + 1).drop_last() == items@.take(i as int));
        }
        match impl_item_method(&items[i]) {
            Some(m) => {
                let entry = lower_method(m);
                out.push(entry);
            },
            None => {},
        }
        i = i + 1;
    }
    assert(items@.take(i as int) == items@);
    out
}

/// The model of an implementation block of the syntax tree.
pub fn lower_impl(b: &syn::ItemImpl) -> (r: ImplBlock)
    ensures
        r@ == impl_model(*b),
{
    let parts = impl_parts(b);
    let trait_path = match parts.trait_path {
        Some(path) => Some(QualifiedName { segments: path_idents(path) }),
        None => None,
    };
    ImplBlock {
        attrs: lower_attrs(parts.attrs),
        trait_path,
        self_ty: lower_type(parts.self_ty, TYPE_DEPTH),
        methods: lower_methods(parts.items),
    }
}

/// The model of an interface definition of the syntax tree.
pub fn lower_trait(t: &syn::ItemTrait) -> (r: TraitDef)
    ensures
        r@ == trait_model(*t),
{
    let parts = trait_parts(t);
    let items = parts.items;
    let mut methods: Vec<TraitMethod> = Vec::new();
    let mut i: usize = 0;
    while i < items.len()
        invariant
            i <= items.len(),
            methods.deep_view() == trait_methods_of(items@.take(i as int)),
        decreases items.len() - i,
    {
        proof {
            assert(items@.take(i as int + 1).drop_last() == items@.take(i as int));
        }
        match trait_item_method(&items[i]) {
            Some(m) => {
                let method = trait_method_parts(m);
                let entry = TraitMethod { name: method.name, attrs: lower_attrs(method.attrs) };
                methods.push(entry);
            },
            None => {},
        }
        i = i + 1;
    }
    assert(items@.take(i as int) == items@);
    TraitDef { name: parts.name, methods }
}

/// The model of a type alias of the syntax tree.
pub fn lower_alias(a: &syn::ItemType) -> (r: TypeAlias)
    ensures
        r@ == alias_model(*a),
{
    let parts = alias_parts(a);
    TypeAlias {
        name: parts.name,
        attrs: lower_attrs(parts.attrs),
        ty: lower_type(parts.ty, TYPE_DEPTH),
    }
}

/// The model of a structure of the syntax tree.
pub fn lower_struct(s: &syn::ItemStruct) -> (r: Record)
    ensures
        r@ == struct_model(*s),
{
    let parts = struct_parts(s);
    let mut fields: Vec<RecordField> = Vec::new();
    let mut i: usize = 0;
    while i < parts.fields.len()
        invariant
            i <= parts.fields.len(),
            fields.deep_view() == fields_of(parts.fields@.take(i as int)),
        decreases parts.fields.len() - i,
    {
        proof {
            assert(parts.fields@.take(i as int + 1).drop_last() == parts.fields@.take(i as int));
        }
        let field = field_parts(parts.fields[i]);
        match field.name {
            Some(name) => {
                let entry = RecordField { name, ty: lower_type(field.ty, TYPE_DEPTH) };
                fields.push(entry);
            },
            None => {},
        }
        i = i + 1;
    }
    assert(parts.fields@.take(i as int) == parts.fields@);
    Record { name: parts.name, attrs: lower_attrs(parts.attrs), fields }
}

/// The model of an enumeration of the syntax tree.
pub fn lower_enum(e: &syn::ItemEnum) -> (r: EnumDef)
    ensures
        r@ == enum_model(*e),
{
    let parts = enum_parts(e);
    let mut variants: Vec<String> = Vec::new();
    let mut i: usize = 0;
    while i < parts.variants.len()
        invariant
            i <= parts.variants.len(),
            variants.len() == i,
            forall|j: int|
                0 <= j < i ==> (#[trigger] variants.deep_view()[j]) == variant_name_of(
                    *parts.variants[j],
                ),
        decreases parts.variants.len() - i,
    {
        let name = variant_name(parts.variants[i]);
        let ghost before = variants.deep_view();
        variants.push(name);
        assert(variants.deep_view() == before.push(name@));
        i = i + 1;
    }
    assert(variants.deep_view() == enum_model(*e).variants);
    EnumDef { name: parts.name, attrs: lower_attrs(parts.attrs), variants }
}

/// The model of a top-level item of the syntax tree.
pub fn lower_item(i: &syn::Item) -> (r: SourceItem)
    ensures
        r@ == item_model(*i),
{
    match item_ref(i) {
        ItemRef::Alias(a) => SourceItem::Alias(lower_alias(a)),
        ItemRef::Struct(s) => SourceItem::Record(lower_struct(s)),
        ItemRef::Enum(e) => SourceItem::Enum(lower_enum(e)),
        ItemRef::Trait(t) => SourceItem::Interface(lower_trait(t)),
        ItemRef::Impl(b) => SourceItem::Impl(lower_impl(b)),
        ItemRef::Other => SourceItem::Other,
    }
}

/// The model of a syntax tree.
pub fn lower_file(f: &syn::File) -> (r: SourceFile)
    ensures
        r@ == file_model(*f),
{
    let items = file_items(f);
    let mut out: Vec<SourceItem> = Vec::new();
    let mut i: usize = 0;
    while i < items.len()
        invariant
            i <= items.len(),
            out.len() == i,
            forall|j: int| 0 <= j < i ==> (#[trigger] out.deep_view()[j]) == item_model(items[j]),
        decreases items.len() - i,
    {
        let entry = lower_item(&items[i]);
        let ghost before = out.deep_view();
        out.push(entry);
        assert(out.deep_view() == before.push(entry@));
        i = i + 1;
    }
    assert(out.deep_view() == file_model(*f).items);
    SourceFile { attrs: lower_attrs(file_attrs(f)), items: out }
}

} // verus!
