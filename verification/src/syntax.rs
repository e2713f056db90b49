//! The boundary to `proc_macro2`, which divides the source text into tokens,
//! and to `syn`, which parses them. A token stream and a syntax tree are
//! opaque to the verifier: every function of this file reads one node and
//! hands out plain values and references to the nodes below. Their contracts
//! are taken on trust. Each says only that what it returns is a function of
//! what it reads, and gives that function a name. The two functions that
//! parse ask that no literal stands where the parser reads which it cannot
//! read to its end.

use vstd::prelude::*;

use crate::tokens::TOKEN_DEPTH;
use crate::tokens::stream_accepted;

verus! {

#[verifier::external_type_specification]
#[verifier::external_body]
pub struct ExTokenStream(proc_macro2::TokenStream);

#[verifier::external_type_specification]
#[verifier::external_body]
pub struct ExTokenTree(proc_macro2::TokenTree);

#[verifier::external_type_specification]
#[verifier::external_body]
pub struct ExFile(syn::File);

#[verifier::external_type_specification]
#[verifier::external_body]
pub struct ExItem(syn::Item);

#[verifier::external_type_specification]
#[verifier::external_body]
pub struct ExItemType(syn::ItemType);

#[verifier::external_type_specification]
#[verifier::external_body]
pub struct ExItemStruct(syn::ItemStruct);

#[verifier::external_type_specification]
#[verifier::external_body]
pub struct ExItemEnum(syn::ItemEnum);

#[verifier::external_type_specification]
#[verifier::external_body]
pub struct ExVariant(syn::Variant);

#[verifier::external_type_specification]
#[verifier::external_body]
pub struct ExItemTrait(syn::ItemTrait);

#[verifier::external_type_specification]
#[verifier::external_body]
pub struct ExItemImpl(syn::ItemImpl);

#[verifier::external_type_specification]
#[verifier::external_body]
pub struct ExField(syn::Field);

#[verifier::external_type_specification]
#[verifier::external_body]
pub struct ExTraitItem(syn::TraitItem);

#[verifier::external_type_specification]
#[verifier::external_body]
pub struct ExTraitItemMethod(syn::TraitItemMethod);

#[verifier::external_type_specification]
#[verifier::external_body]
pub struct ExImplItem(syn::ImplItem);

#[verifier::external_type_specification]
#[verifier::external_body]
pub struct ExImplItemMethod(syn::ImplItemMethod);

#[verifier::external_type_specification]
#[verifier::external_body]
pub struct ExFnArg(syn::FnArg);

#[verifier::external_type_specification]
#[verifier::external_body]
pub struct ExPat(syn::Pat);

#[verifier::external_type_specification]
#[verifier::external_body]
pub struct ExType(syn::Type);

#[verifier::external_type_specification]
#[verifier::external_body]
pub struct ExPath(syn::Path);

#[verifier::external_type_specification]
#[verifier::external_body]
pub struct ExPathSegment(syn::PathSegment);

#[verifier::external_type_specification]
#[verifier::external_body]
pub struct ExGenericArgument(syn::GenericArgument);

#[verifier::external_type_specification]
#[verifier::external_body]
pub struct ExAttribute(syn::Attribute);

#[verifier::external_type_specification]
#[verifier::external_body]
pub struct ExMeta(syn::Meta);

#[verifier::external_type_specification]
#[verifier::external_body]
pub struct ExNestedMeta(syn::NestedMeta);

/// The brackets of a bracketed group of tokens.
pub enum DelimRef {
    Parenthesis,
    Brace,
    Bracket,
    /// Invisible delimiters.
    Invisible,
}

/// A token, by its four kinds.
pub enum TreeRef {
    /// A bracketed group, with the tokens between the brackets.
    Group { stream: proc_macro2::TokenStream },
    /// An identifier, with its text.
    Ident(String),
    /// One character of punctuation.
    Punct(char),
    /// A literal, with its text.
    Literal(String),
}

/// The mathematical model of [`TreeRef`].
pub enum TreeRefView {
    Group { stream: proc_macro2::TokenStream },
    Ident(Seq<char>),
    Punct(char),
    Literal(Seq<char>),
}

impl View for TreeRef {
    type V = TreeRefView;

    open spec fn view(&self) -> TreeRefView {
        match self {
            TreeRef::Group { stream } => TreeRefView::Group { stream: *stream },
            TreeRef::Ident(text) => TreeRefView::Ident(text@),
            TreeRef::Punct(c) => TreeRefView::Punct(*c),
            TreeRef::Literal(text) => TreeRefView::Literal(text@),
        }
    }
}

/// A top-level item, by the kinds that the analysis reads.
pub enum ItemRef<'a> {
    Alias(&'a syn::ItemType),
    Struct(&'a syn::ItemStruct),
    Enum(&'a syn::ItemEnum),
    Trait(&'a syn::ItemTrait),
    Impl(&'a syn::ItemImpl),
    Other,
}

/// What is read of a type alias.
pub struct AliasParts<'a> {
    pub name: String,
    pub attrs: &'a Vec<syn::Attribute>,
    pub ty: &'a syn::Type,
}

/// What is read of a structure.
pub struct StructParts<'a> {
    pub name: String,
    pub attrs: &'a Vec<syn::Attribute>,
    pub fields: Vec<&'a syn::Field>,
}

/// What is read of an enumeration.
pub struct EnumParts<'a> {
    pub name: String,
    pub attrs: &'a Vec<syn::Attribute>,
    pub variants: Vec<&'a syn::Variant>,
}

/// What is read of a field: its name, if it has one, and its type.
pub struct FieldParts<'a> {
    pub name: Option<String>,
    pub ty: &'a syn::Type,
}

/// What is read of an interface definition.
pub struct TraitParts<'a> {
    pub name: String,
    pub items: &'a Vec<syn::TraitItem>,
}

/// What is read of a method that an interface declares.
pub struct TraitMethodParts<'a> {
    pub name: String,
    pub attrs: &'a Vec<syn::Attribute>,
}

/// What is read of an implementation block.
pub struct ImplParts<'a> {
    pub attrs: &'a Vec<syn::Attribute>,
    pub trait_path: Option<&'a syn::Path>,
    pub self_ty: &'a syn::Type,
    pub items: &'a Vec<syn::ImplItem>,
}

/// How far a method is visible, as it is declared.
pub enum VisRef {
    /// `pub`.
    Public,
    /// `crate`.
    Crate,
    /// `pub(..)`, with a path between the brackets.
    Restricted,
    /// Nothing.
    Inherited,
}

/// What is read of a method of an implementation block.
pub struct MethodParts<'a> {
    pub name: String,
    pub attrs: &'a Vec<syn::Attribute>,
    pub inputs: Vec<&'a syn::FnArg>,
    pub output: Option<&'a syn::Type>,
}

/// An argument of a method: the receiver, or a pattern with its type.
pub enum ArgRef<'a> {
    Receiver { mutable: bool },
    Typed { pat: &'a syn::Pat, ty: &'a syn::Type },
}

/// A type, by the shapes that the analysis tells apart.
pub enum TypeRef<'a> {
    Path(&'a syn::Path),
    Tuple(Vec<&'a syn::Type>),
    Reference(&'a syn::Type),
    /// A type in parentheses.
    Paren(&'a syn::Type),
    /// A type in invisible delimiters.
    Group(&'a syn::Type),
    Other,
}

/// The content of an attribute, by its three forms.
pub enum MetaRef<'a> {
    /// The name alone.
    Path,
    /// `name(a, b)`, with its entries.
    List(Vec<&'a syn::NestedMeta>),
    /// `name = literal`, with the text of the literal where it is a string.
    NameValue { text: Option<String> },
}

/// The mathematical model of [`AliasParts`].
pub struct AliasPartsView<'a> {
    pub name: Seq<char>,
    pub attrs: Seq<syn::Attribute>,
    pub ty: &'a syn::Type,
}

impl<'a> View for AliasParts<'a> {
    type V = AliasPartsView<'a>;

    open spec fn view(&self) -> AliasPartsView<'a> {
        AliasPartsView {
            name: self.name@,
            attrs: self.attrs@,
            ty: self.ty,
        }
    }
}

/// The mathematical model of [`StructParts`].
pub struct StructPartsView<'a> {
    pub name: Seq<char>,
    pub attrs: Seq<syn::Attribute>,
    pub fields: Seq<&'a syn::Field>,
}

impl<'a> View for StructParts<'a> {
    type V = StructPartsView<'a>;

    open spec fn view(&self) -> StructPartsView<'a> {
        StructPartsView {
            name: self.name@,
            attrs: self.attrs@,
            fields: self.fields@,
        }
    }
}

/// The mathematical model of [`EnumParts`].
pub struct EnumPartsView<'a> {
    pub name: Seq<char>,
    pub attrs: Seq<syn::Attribute>,
    pub variants: Seq<&'a syn::Variant>,
}

impl<'a> View for EnumParts<'a> {
    type V = EnumPartsView<'a>;

    open spec fn view(&self) -> EnumPartsView<'a> {
        EnumPartsView {
            name: self.name@,
            attrs: self.attrs@,
            variants: self.variants@,
        }
    }
}

/// The mathematical model of [`FieldParts`].
pub struct FieldPartsView<'a> {
    pub name: Option<Seq<char>>,
    pub ty: &'a syn::Type,
}

impl<'a> View for FieldParts<'a> {
    type V = FieldPartsView<'a>;

    open spec fn view(&self) -> FieldPartsView<'a> {
        FieldPartsView {
            name: self.name.deep_view(),
            ty: self.ty,
        }
    }
}

/// The mathematical model of [`TraitParts`].
pub struct TraitPartsView {
    pub name: Seq<char>,
    pub items: Seq<syn::TraitItem>,
}

impl<'a> View for TraitParts<'a> {
    type V = TraitPartsView;

    open spec fn view(&self) -> TraitPartsView {
        TraitPartsView {
            name: self.name@,
            items: self.items@,
        }
    }
}

/// The mathematical model of [`TraitMethodParts`].
pub struct TraitMethodPartsView {
    pub name: Seq<char>,
    pub attrs: Seq<syn::Attribute>,
}

impl<'a> View for TraitMethodParts<'a> {
    type V = TraitMethodPartsView;

    open spec fn view(&self) -> TraitMethodPartsView {
        TraitMethodPartsView {
            name: self.name@,
            attrs: self.attrs@,
        }
    }
}

/// The mathematical model of [`ImplParts`].
pub struct ImplPartsView<'a> {
    pub attrs: Seq<syn::Attribute>,
    pub trait_path: Option<&'a syn::Path>,
    pub self_ty: &'a syn::Type,
    pub items: Seq<syn::ImplItem>,
}

impl<'a> View for ImplParts<'a> {
    type V = ImplPartsView<'a>;

    open spec fn view(&self) -> ImplPartsView<'a> {
        ImplPartsView {
            attrs: self.attrs@,
            trait_path: self.trait_path,
            self_ty: self.self_ty,
            items: self.items@,
        }
    }
}

/// The mathematical model of [`MethodParts`].
pub struct MethodPartsView<'a> {
    pub name: Seq<char>,
    pub attrs: Seq<syn::Attribute>,
    pub inputs: Seq<&'a syn::FnArg>,
    pub output: Option<&'a syn::Type>,
}

impl<'a> View for MethodParts<'a> {
    type V = MethodPartsView<'a>;

    open spec fn view(&self) -> MethodPartsView<'a> {
        MethodPartsView {
            name: self.name@,
            attrs: self.attrs@,
            inputs: self.inputs@,
            output: self.output,
        }
    }
}

/// The mathematical model of [`TypeRef`].
pub enum TypeRefView<'a> {
    Path(&'a syn::Path),
    Tuple(Seq<&'a syn::Type>),
    Reference(&'a syn::Type),
    Paren(&'a syn::Type),
    Group(&'a syn::Type),
    Other,
}

impl<'a> View for TypeRef<'a> {
    type V = TypeRefView<'a>;

    open spec fn view(&self) -> TypeRefView<'a> {
        match self {
            TypeRef::Path(path) => TypeRefView::Path(path),
            TypeRef::Tuple(elems) => TypeRefView::Tuple(elems@),
            TypeRef::Reference(inner) => TypeRefView::Reference(inner),
            TypeRef::Paren(inner) => TypeRefView::Paren(inner),
            TypeRef::Group(inner) => TypeRefView::Group(inner),
            TypeRef::Other => TypeRefView::Other,
        }
    }
}

/// The mathematical model of [`MetaRef`].
pub enum MetaRefView<'a> {
    Path,
    List(Seq<&'a syn::NestedMeta>),
    NameValue { text: Option<Seq<char>> },
}

impl<'a> View for MetaRef<'a> {
    type V = MetaRefView<'a>;

    open spec fn view(&self) -> MetaRefView<'a> {
        match self {
            MetaRef::Path => MetaRefView::Path,
            MetaRef::List(entries) => MetaRefView::List(entries@),
            MetaRef::NameValue { text } => MetaRefView::NameValue { text: text.deep_view() },
        }
    }
}

/// The tokens of a source text, where the text divides into tokens.
pub uninterp spec fn lexed(src: Seq<char>) -> Option<proc_macro2::TokenStream>;

/// The tokens of a stream at its own level, in order: a bracketed group is one of them.
pub uninterp spec fn stream_trees_of(s: proc_macro2::TokenStream) -> Seq<proc_macro2::TokenTree>;

/// Of what kind a token is, with its text or the tokens that it holds.
pub uninterp spec fn tree_ref_of(t: proc_macro2::TokenTree) -> TreeRefView;

/// The brackets of a token, where the token is a bracketed group.
pub uninterp spec fn tree_delimiter_of(t: proc_macro2::TokenTree) -> Option<DelimRef>;

/// The syntax tree of a token stream, where the tokens parse as a source file.
pub uninterp spec fn parsed_tokens(s: proc_macro2::TokenStream) -> Option<syn::File>;

/// The tokens of an attribute behind its path.
pub uninterp spec fn attr_tokens_of(a: syn::Attribute) -> proc_macro2::TokenStream;

/// The inner attributes of a file.
pub uninterp spec fn file_attrs_of(f: syn::File) -> Seq<syn::Attribute>;

/// The items of a file, in declaration order.
pub uninterp spec fn file_items_of(f: syn::File) -> Seq<syn::Item>;

/// Of what kind an item is.
pub uninterp spec fn item_ref_of(i: syn::Item) -> ItemRef<'static>;

/// The name, the attributes and the type of a type alias.
pub uninterp spec fn alias_parts_of(a: syn::ItemType) -> AliasPartsView<'static>;

/// The name, the attributes and the fields of a structure.
pub uninterp spec fn struct_parts_of(s: syn::ItemStruct) -> StructPartsView<'static>;

/// The name, the attributes and the variants of an enumeration.
pub uninterp spec fn enum_parts_of(e: syn::ItemEnum) -> EnumPartsView<'static>;

/// The name of a variant of an enumeration.
pub uninterp spec fn variant_name_of(v: syn::Variant) -> Seq<char>;

/// The name and the type of a field.
pub uninterp spec fn field_parts_of(f: syn::Field) -> FieldPartsView<'static>;

/// The name and the items of an interface definition.
pub uninterp spec fn trait_parts_of(t: syn::ItemTrait) -> TraitPartsView;

/// The method that an item of an interface definition is, where it is one.
pub uninterp spec fn trait_item_method_of(i: syn::TraitItem) -> Option<&'static syn::TraitItemMethod>;

/// The name and the attributes of a method that an interface declares.
pub uninterp spec fn trait_method_parts_of(m: syn::TraitItemMethod) -> TraitMethodPartsView;

/// The attributes, the interface, the type and the items of an implementation block.
pub uninterp spec fn impl_parts_of(b: syn::ItemImpl) -> ImplPartsView<'static>;

/// The method that an item of an implementation block is, where it is one.
pub uninterp spec fn impl_item_method_of(i: syn::ImplItem) -> Option<&'static syn::ImplItemMethod>;

/// How far a method is visible.
pub uninterp spec fn method_vis_of(m: syn::ImplItemMethod) -> VisRef;

/// The name, the attributes, the inputs and the output of a method.
pub uninterp spec fn method_parts_of(m: syn::ImplItemMethod) -> MethodPartsView<'static>;

/// What an input of a method is.
pub uninterp spec fn arg_ref_of(a: syn::FnArg) -> ArgRef<'static>;

/// The identifier that a pattern binds, where the pattern is an identifier.
pub uninterp spec fn pat_ident_of(p: syn::Pat) -> Option<Seq<char>>;

/// Of what shape a type is.
pub uninterp spec fn type_ref_of(t: syn::Type) -> TypeRefView<'static>;

/// The source text of a type, token by token.
pub uninterp spec fn type_tokens_of(t: syn::Type) -> Seq<char>;

/// The identifiers of the segments of a path.
pub uninterp spec fn path_idents_of(p: syn::Path) -> Seq<Seq<char>>;

/// The identifier that a path consists of, where it is a single identifier.
pub uninterp spec fn path_ident_of(p: syn::Path) -> Option<Seq<char>>;

/// The segments of a path, in order.
pub uninterp spec fn path_segments_of(p: syn::Path) -> Seq<&'static syn::PathSegment>;

/// The arguments in angle brackets of a path segment; none where it has no such arguments.
pub uninterp spec fn segment_args_of(s: syn::PathSegment) -> Seq<&'static syn::GenericArgument>;

/// The type that an argument of a path segment is, where it is one.
pub uninterp spec fn generic_type_of(a: syn::GenericArgument) -> Option<&'static syn::Type>;

/// The path that names an attribute.
pub uninterp spec fn attr_path_of(a: syn::Attribute) -> syn::Path;

/// The content of an attribute, where it has one of the three forms.
pub uninterp spec fn attr_meta_of(a: syn::Attribute) -> Option<syn::Meta>;

/// Of which form the content of an attribute is.
pub uninterp spec fn meta_ref_of(m: syn::Meta) -> MetaRefView<'static>;

/// The path that names an entry of a list attribute, where the entry is no literal.
pub uninterp spec fn nested_path_of(n: syn::NestedMeta) -> Option<&'static syn::Path>;

/// Calls `proc_macro2::TokenStream::from_str`, which divides a text into
/// tokens. The tokens are a function of the text; a text that does not
/// divide into tokens gives none.
#[verifier::external_body]
pub(crate) fn lex(src: &str) -> (r: Option<proc_macro2::TokenStream>)
    ensures
        r == lexed(src@),
{
    src.parse::<proc_macro2::TokenStream>().ok()
}

/// Walks a `proc_macro2::TokenStream` with its own iterator.
#[verifier::external_body]
pub(crate) fn stream_trees(s: &proc_macro2::TokenStream) -> (r: Vec<proc_macro2::TokenTree>)
    ensures
        r@ == stream_trees_of(*s),
{
    s.clone().into_iter().collect()
}

/// Tells the variants of `proc_macro2::TokenTree` apart. Of a group it
/// calls `proc_macro2::Group::stream`, of a mark of punctuation
/// `proc_macro2::Punct::as_char`; an identifier and a literal it prints, the
/// literal as the text that the parser reads of it.
#[verifier::external_body]
pub(crate) fn tree_ref(t: &proc_macro2::TokenTree) -> (r: TreeRef)
    ensures
        r@ == tree_ref_of(*t),
{
    match t {
        proc_macro2::TokenTree::Group(group) => TreeRef::Group { stream: group.stream() },
        proc_macro2::TokenTree::Ident(ident) => TreeRef::Ident(ident.to_string()),
        proc_macro2::TokenTree::Punct(punct) => TreeRef::Punct(punct.as_char()),
        proc_macro2::TokenTree::Literal(literal) => TreeRef::Literal(literal.to_string()),
    }
}

/// Tells the variant `Group` of `proc_macro2::TokenTree` from the others,
/// calls `proc_macro2::Group::delimiter` on it and tells the variants of
/// `proc_macro2::Delimiter` apart.
#[verifier::external_body]
pub(crate) fn tree_delimiter(t: &proc_macro2::TokenTree) -> (r: Option<DelimRef>)
    ensures
        r == tree_delimiter_of(*t),
{
    match t {
        proc_macro2::TokenTree::Group(group) => Some(
            match group.delimiter() {
                proc_macro2::Delimiter::Parenthesis => DelimRef::Parenthesis,
                proc_macro2::Delimiter::Brace => DelimRef::Brace,
                proc_macro2::Delimiter::Bracket => DelimRef::Bracket,
                proc_macro2::Delimiter::None => DelimRef::Invisible,
            },
        ),
        _ => None,
    }
}

/// Calls `syn::parse2` for a `syn::File`. The parser gives up on a literal
/// whose text it cannot read to its end: no such literal may stand where the
/// parser reads. Tokens that do not parse as a source file give none.
#[verifier::external_body]
pub(crate) fn parse_tokens(s: proc_macro2::TokenStream) -> (r: Option<syn::File>)
    requires
        stream_accepted(s, TOKEN_DEPTH as nat),
    ensures
        r == parsed_tokens(s),
{
    syn::parse2::<syn::File>(s).ok()
}

/// Reads the field `attrs` of `syn::File`: the file's inner attributes.
#[verifier::external_body]
pub(crate) fn file_attrs(f: &syn::File) -> (r: &Vec<syn::Attribute>)
    ensures
        r@ == file_attrs_of(*f),
{
    &f.attrs
}

/// Reads the field `items` of `syn::File`.
#[verifier::external_body]
pub(crate) fn file_items(f: &syn::File) -> (r: &Vec<syn::Item>)
    ensures
        r@ == file_items_of(*f),
{
    &f.items
}

/// Tells the variants of `syn::Item` apart.
#[verifier::external_body]
pub(crate) fn item_ref<'a>(i: &'a syn::Item) -> (r: ItemRef<'a>)
    ensures
        r == item_ref_of(*i),
{
    match i {
        syn::Item::Type(a) => ItemRef::Alias(a),
        syn::Item::Struct(s) => ItemRef::Struct(s),
        syn::Item::Enum(e) => ItemRef::Enum(e),
        syn::Item::Trait(t) => ItemRef::Trait(t),
        syn::Item::Impl(b) => ItemRef::Impl(b),
        _ => ItemRef::Other,
    }
}

/// Reads the fields `ident`, `attrs` and `ty` of `syn::ItemType`.
#[verifier::external_body]
pub(crate) fn alias_parts<'a>(a: &'a syn::ItemType) -> (r: AliasParts<'a>)
    ensures
        r@ == alias_parts_of(*a),
{
    AliasParts { name: a.ident.to_string(), attrs: &a.attrs, ty: &a.ty }
}

/// Reads the fields `ident`, `attrs` and `fields` of `syn::ItemStruct`, the
/// last through `syn::Fields::iter`.
#[verifier::external_body]
pub(crate) fn struct_parts<'a>(s: &'a syn::ItemStruct) -> (r: StructParts<'a>)
    ensures
        r@ == struct_parts_of(*s),
{
    StructParts { name: s.ident.to_string(), attrs: &s.attrs, fields: s.fields.iter().collect() }
}

/// Reads the fields `ident`, `attrs` and `variants` of `syn::ItemEnum`.
#[verifier::external_body]
pub(crate) fn enum_parts<'a>(e: &'a syn::ItemEnum) -> (r: EnumParts<'a>)
    ensures
        r@ == enum_parts_of(*e),
{
    EnumParts { name: e.ident.to_string(), attrs: &e.attrs, variants: e.variants.iter().collect() }
}

/// Reads the field `ident` of `syn::Variant`.
#[verifier::external_body]
pub(crate) fn variant_name(v: &syn::Variant) -> (r: String)
    ensures
        r@ == variant_name_of(*v),
{
    v.ident.to_string()
}

/// Reads the fields `ident` and `ty` of `syn::Field`.
#[verifier::external_body]
pub(crate) fn field_parts<'a>(f: &'a syn::Field) -> (r: FieldParts<'a>)
    ensures
        r@ == field_parts_of(*f),
{
    FieldParts { name: f.ident.as_ref().map(|i| i.to_string()), ty: &f.ty }
}

/// Reads the fields `ident` and `items` of `syn::ItemTrait`.
#[verifier::external_body]
pub(crate) fn trait_parts<'a>(t: &'a syn::ItemTrait) -> (r: TraitParts<'a>)
    ensures
        r@ == trait_parts_of(*t),
{
    TraitParts { name: t.ident.to_string(), items: &t.items }
}

/// Tells the variant `Method` of `syn::TraitItem` from the others.
#[verifier::external_body]
pub(crate) fn trait_item_method<'a>(i: &'a syn::TraitItem) -> (r: Option<&'a syn::TraitItemMethod>)
    ensures
        r == trait_item_method_of(*i),
{
    match i {
        syn::TraitItem::Method(m) => Some(m),
        _ => None,
    }
}

/// Reads the identifier of the signature and the field `attrs` of `syn::TraitItemMethod`.
#[verifier::external_body]
pub(crate) fn trait_method_parts<'a>(m: &'a syn::TraitItemMethod) -> (r: TraitMethodParts<'a>)
    ensures
        r@ == trait_method_parts_of(*m),
{
    TraitMethodParts { name: m.sig.ident.to_string(), attrs: &m.attrs }
}

/// Reads the fields `attrs`, `trait_`, `self_ty` and `items` of `syn::ItemImpl`.
#[verifier::external_body]
pub(crate) fn impl_parts<'a>(b: &'a syn::ItemImpl) -> (r: ImplParts<'a>)
    ensures
        r@ == impl_parts_of(*b),
{
    ImplParts {
        attrs: &b.attrs,
        trait_path: b.trait_.as_ref().map(|t| &t.1),
        self_ty: &b.self_ty,
        items: &b.items,
    }
}

/// Tells the variant `Method` of `syn::ImplItem` from the others.
#[verifier::external_body]
pub(crate) fn impl_item_method<'a>(i: &'a syn::ImplItem) -> (r: Option<&'a syn::ImplItemMethod>)
    ensures
        r == impl_item_method_of(*i),
{
    match i {
        syn::ImplItem::Method(m) => Some(m),
        _ => None,
    }
}

/// Tells the variants of `syn::Visibility` apart, for the field `vis` of
/// `syn::ImplItemMethod`.
#[verifier::external_body]
pub(crate) fn method_vis(m: &syn::ImplItemMethod) -> (r: VisRef)
    ensures
        r == method_vis_of(*m),
{
    match &m.vis {
        syn::Visibility::Public(_) => VisRef::Public,
        syn::Visibility::Crate(_) => VisRef::Crate,
        syn::Visibility::Restricted(_) => VisRef::Restricted,
        syn::Visibility::Inherited => VisRef::Inherited,
    }
}

/// Reads `syn::ImplItemMethod`: the identifier, the inputs and the output of
/// its signature, and its attributes.
#[verifier::external_body]
pub(crate) fn method_parts<'a>(m: &'a syn::ImplItemMethod) -> (r: MethodParts<'a>)
    ensures
        r@ == method_parts_of(*m),
{
    MethodParts {
        name: m.sig.ident.to_string(),
        attrs: &m.attrs,
        inputs: m.sig.inputs.iter().collect(),
        output: match &m.sig.output {
            syn::ReturnType::Default => None,
            syn::ReturnType::Type(_, ty) => Some(ty),
        },
    }
}

/// Tells the variants of `syn::FnArg` apart. Of a receiver it reads whether
/// the field `mutability` is set.
#[verifier::external_body]
pub(crate) fn arg_ref<'a>(a: &'a syn::FnArg) -> (r: ArgRef<'a>)
    ensures
        r == arg_ref_of(*a),
{
    match a {
        syn::FnArg::Receiver(recv) => ArgRef::Receiver { mutable: recv.mutability.is_some() },
        syn::FnArg::Typed(typed) => ArgRef::Typed { pat: &typed.pat, ty: &typed.ty },
    }
}

/// Tells the variant `Ident` of `syn::Pat` from the others, and reads its identifier.
#[verifier::external_body]
pub(crate) fn pat_ident(p: &syn::Pat) -> (r: Option<String>)
    ensures
        r.deep_view() == pat_ident_of(*p),
{
    match p {
        syn::Pat::Ident(ident) => Some(ident.ident.to_string()),
        _ => None,
    }
}

/// Tells the variants of `syn::Type` apart.
#[verifier::external_body]
pub(crate) fn type_ref<'a>(t: &'a syn::Type) -> (r: TypeRef<'a>)
    ensures
        r@ == type_ref_of(*t),
{
    match t {
        syn::Type::Path(p) => TypeRef::Path(&p.path),
        syn::Type::Tuple(tuple) => TypeRef::Tuple(tuple.elems.iter().collect()),
        syn::Type::Reference(reference) => TypeRef::Reference(&reference.elem),
        syn::Type::Paren(paren) => TypeRef::Paren(&paren.elem),
        syn::Type::Group(group) => TypeRef::Group(&group.elem),
        _ => TypeRef::Other,
    }
}

/// Calls `quote::ToTokens::to_token_stream` on a type and prints the tokens.
#[verifier::external_body]
pub(crate) fn type_tokens(t: &syn::Type) -> (r: String)
    ensures
        r@ == type_tokens_of(*t),
{
    quote::ToTokens::to_token_stream(t).to_string()
}

/// Reads the identifier of every segment of `syn::Path`.
#[verifier::external_body]
pub(crate) fn path_idents(p: &syn::Path) -> (r: Vec<String>)
    ensures
        r.deep_view() == path_idents_of(*p),
{
    p.segments.iter().map(|segment| segment.ident.to_string()).collect()
}

/// Calls `syn::Path::get_ident`: the identifier of a path that has no leading
/// colons, one segment and no arguments.
#[verifier::external_body]
pub(crate) fn path_ident(p: &syn::Path) -> (r: Option<String>)
    ensures
        r.deep_view() == path_ident_of(*p),
{
    p.get_ident().map(|ident| ident.to_string())
}

/// Reads the segments of `syn::Path`.
#[verifier::external_body]
pub(crate) fn path_segments<'a>(p: &'a syn::Path) -> (r: Vec<&'a syn::PathSegment>)
    ensures
        r@ == path_segments_of(*p),
{
    p.segments.iter().collect()
}

/// Reads the field `arguments` of `syn::PathSegment`: the arguments, where
/// they stand in angle brackets; none otherwise.
#[verifier::external_body]
pub(crate) fn segment_args<'a>(s: &'a syn::PathSegment) -> (r: Vec<&'a syn::GenericArgument>)
    ensures
        r@ == segment_args_of(*s),
{
    match &s.arguments {
        syn::PathArguments::AngleBracketed(list) => list.args.iter().collect(),
        _ => Vec::new(),
    }
}

/// Tells the variant `Type` of `syn::GenericArgument` from the others.
#[verifier::external_body]
pub(crate) fn generic_type<'a>(a: &'a syn::GenericArgument) -> (r: Option<&'a syn::Type>)
    ensures
        r == generic_type_of(*a),
{
    match a {
        syn::GenericArgument::Type(ty) => Some(ty),
        _ => None,
    }
}

/// Reads the field `path` of `syn::Attribute`.
#[verifier::external_body]
pub(crate) fn attr_path(a: &syn::Attribute) -> (r: &syn::Path)
    ensures
        *r == attr_path_of(*a),
{
    &a.path
}

/// Reads the field `tokens` of `syn::Attribute`.
#[verifier::external_body]
pub(crate) fn attr_tokens(a: &syn::Attribute) -> (r: &proc_macro2::TokenStream)
    ensures
        *r == attr_tokens_of(*a),
{
    &a.tokens
}

/// Calls `syn::Attribute::parse_meta`, which parses the tokens of the
/// attribute: no literal may stand among them whose text the parser cannot
/// read to its end. An attribute whose content has none of the three forms
/// gives none.
#[verifier::external_body]
pub(crate) fn attr_meta(a: &syn::Attribute) -> (r: Option<syn::Meta>)
    requires
        stream_accepted(attr_tokens_of(*a), TOKEN_DEPTH as nat),
    ensures
        r == attr_meta_of(*a),
{
    a.parse_meta().ok()
}

/// Tells the variants of `syn::Meta` apart. Of the form `name = literal` it
/// reads the literal, with `syn::LitStr::value` where it is a string.
#[verifier::external_body]
pub(crate) fn meta_ref<'a>(m: &'a syn::Meta) -> (r: MetaRef<'a>)
    ensures
        r@ == meta_ref_of(*m),
{
    match m {
        syn::Meta::Path(_) => MetaRef::Path,
        syn::Meta::List(list) => MetaRef::List(list.nested.iter().collect()),
        syn::Meta::NameValue(pair) => MetaRef::NameValue {
            text: match &pair.lit {
                syn::Lit::Str(lit) => Some(lit.value()),
                _ => None,
            },
        },
    }
}

/// Tells the variant `Meta` of `syn::NestedMeta` from a literal, and calls
/// `syn::Meta::path` on it.
#[verifier::external_body]
pub(crate) fn nested_path<'a>(n: &'a syn::NestedMeta) -> (r: Option<&'a syn::Path>)
    ensures
        r == nested_path_of(*n),
{
    match n {
        syn::NestedMeta::Meta(meta) => Some(meta.path()),
        syn::NestedMeta::Lit(_) => None,
    }
}

} // verus!
