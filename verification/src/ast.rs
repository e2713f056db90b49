//! The syntax model: what the analysis reads of a source file, held as plain
//! values. Every type has a mathematical model, reached with `@`, over which
//! the contracts of the library are stated.

use vstd::prelude::*;

verus! {

/// One attribute of an item, an implementation block or a method.
#[derive(Debug, PartialEq, Eq)]
pub struct Attr {
    /// The attribute's name, when its path is a single identifier.
    pub name: Option<String>,
    /// The text of the string literal, for the form `name = "text"`.
    pub value: Option<String>,
    /// The single-identifier entries of the list, for the form `name(a, b)`.
    pub nested: Vec<String>,
}

/// The mathematical model of [`Attr`].
pub struct AttrModel {
    pub name: Option<Seq<char>>,
    pub value: Option<Seq<char>>,
    pub nested: Seq<Seq<char>>,
}

impl DeepView for Attr {
    type V = AttrModel;

    open spec fn deep_view(&self) -> AttrModel {
        AttrModel {
            name: self.name.deep_view(),
            value: self.value.deep_view(),
            nested: self.nested.deep_view(),
        }
    }
}

impl View for Attr {
    type V = AttrModel;

    open spec fn view(&self) -> AttrModel {
        self.deep_view()
    }
}

/// A path such as `std::collections::HashMap`, as the identifiers of its segments.
#[derive(Debug, PartialEq, Eq)]
pub struct QualifiedName {
    pub segments: Vec<String>,
}

impl DeepView for QualifiedName {
    type V = Seq<Seq<char>>;

    open spec fn deep_view(&self) -> Seq<Seq<char>> {
        self.segments.deep_view()
    }
}

impl View for QualifiedName {
    type V = Seq<Seq<char>>;

    open spec fn view(&self) -> Seq<Seq<char>> {
        self.deep_view()
    }
}

/// A type expression of the source language, in the shapes the translator tells apart.
#[derive(Debug, PartialEq, Eq)]
pub enum TypeExpr {
    /// A path, with the type arguments of its last segment.
    Named { path: QualifiedName, args: Vec<TypeExpr> },
    /// A tuple; the unit type is the empty one.
    Tuple(Vec<TypeExpr>),
    /// A reference to a type.
    Reference(Box<TypeExpr>),
    /// Any other shape, kept as its source text.
    Other(String),
}

/// The mathematical model of [`Type`].
pub enum TypeModel {
    Named { path: Seq<Seq<char>>, args: Seq<TypeModel> },
    Tuple(Seq<TypeModel>),
    Reference(Box<TypeModel>),
    Other(Seq<char>),
}

/// The models of the types of `ts`, in order.
pub open spec fn type_models(ts: Seq<TypeExpr>) -> Seq<TypeModel>
    decreases ts,
{
    Seq::new(
        ts.len(),
        |i: int|
            if 0 <= i < ts.len() {
                type_model(ts[i])
            } else {
                TypeModel::Tuple(Seq::empty())
            },
    )
}

/// The model of one type expression.
pub open spec fn type_model(t: TypeExpr) -> TypeModel
    decreases t,
{
    match t {
        TypeExpr::Named { path, args } => TypeModel::Named {
            path: path.deep_view(),
            args: type_models(args@),
        },
        TypeExpr::Tuple(elems) => TypeModel::Tuple(type_models(elems@)),
        TypeExpr::Reference(inner) => TypeModel::Reference(Box::new(type_model(*inner))),
        TypeExpr::Other(text) => TypeModel::Other(text@),
    }
}

impl DeepView for TypeExpr {
    type V = TypeModel;

    open spec fn deep_view(&self) -> TypeModel {
        type_model(*self)
    }
}

impl View for TypeExpr {
    type V = TypeModel;

    open spec fn view(&self) -> TypeModel {
        type_model(*self)
    }
}

/// The models of a vector of types, element by element.
pub proof fn lemma_type_models(ts: Vec<TypeExpr>)
    ensures
        ts.deep_view() == type_models(ts@),
        type_models(ts@).len() == ts.len(),
        forall|i: int| 0 <= i < ts.len() ==> (#[trigger] type_models(ts@)[i]) == ts[i]@,
{
}

/// How a method takes the value it is called on.
#[derive(Debug, Clone, Copy, PartialEq, Eq)]
pub enum Receiver {
    /// No receiver: an associated function.
    Absent,
    /// An immutable receiver.
    Immutable,
    /// A mutable receiver.
    Mutable,
}

/// A named parameter of a method.
#[derive(Debug, PartialEq, Eq)]
pub struct Param {
    pub name: String,
    pub ty: TypeExpr,
}

/// The mathematical model of [`Param`].
pub struct ParamModel {
    pub name: Seq<char>,
    pub ty: TypeModel,
}

impl DeepView for Param {
    type V = ParamModel;

    open spec fn deep_view(&self) -> ParamModel {
        ParamModel { name: self.name@, ty: self.ty@ }
    }
}

impl View for Param {
    type V = ParamModel;

    open spec fn view(&self) -> ParamModel {
        self.deep_view()
    }
}

/// A method of an implementation block.
#[derive(Debug, PartialEq, Eq)]
pub struct Method {
    pub name: String,
    pub attrs: Vec<Attr>,
    /// Whether the method is declared `pub`.
    pub public: bool,
    pub receiver: Receiver,
    /// The parameters besides the receiver.
    pub params: Vec<Param>,
    /// The declared return type, if any.
    pub output: Option<TypeExpr>,
}

/// The mathematical model of [`Method`].
pub struct MethodModel {
    pub name: Seq<char>,
    pub attrs: Seq<AttrModel>,
    pub public: bool,
    pub receiver: Receiver,
    pub params: Seq<ParamModel>,
    pub output: Option<TypeModel>,
}

impl DeepView for Method {
    type V = MethodModel;

    open spec fn deep_view(&self) -> MethodModel {
        MethodModel {
            name: self.name@,
            attrs: self.attrs.deep_view(),
            public: self.public,
            receiver: self.receiver,
            params: self.params.deep_view(),
            output: self.output.deep_view(),
        }
    }
}

impl View for Method {
    type V = MethodModel;

    open spec fn view(&self) -> MethodModel {
        self.deep_view()
    }
}

/// An implementation block: the methods given to a type, on its own or for an interface.
#[derive(Debug, PartialEq, Eq)]
pub struct ImplBlock {
    pub attrs: Vec<Attr>,
    /// The interface that the block implements, if it implements one.
    pub trait_path: Option<QualifiedName>,
    /// The type that the block is for.
    pub self_ty: TypeExpr,
    pub methods: Vec<Method>,
}

/// The mathematical model of [`ImplBlock`].
pub struct ImplBlockModel {
    pub attrs: Seq<AttrModel>,
    pub trait_path: Option<Seq<Seq<char>>>,
    pub self_ty: TypeModel,
    pub methods: Seq<MethodModel>,
}

impl DeepView for ImplBlock {
    type V = ImplBlockModel;

    open spec fn deep_view(&self) -> ImplBlockModel {
        ImplBlockModel {
            attrs: self.attrs.deep_view(),
            trait_path: self.trait_path.deep_view(),
            self_ty: self.self_ty@,
            methods: self.methods.deep_view(),
        }
    }
}

impl View for ImplBlock {
    type V = ImplBlockModel;

    open spec fn view(&self) -> ImplBlockModel {
        self.deep_view()
    }
}

/// A method declared by an interface definition.
#[derive(Debug, PartialEq, Eq)]
pub struct TraitMethod {
    pub name: String,
    pub attrs: Vec<Attr>,
}

/// The mathematical model of [`TraitMethod`].
pub struct TraitMethodModel {
    pub name: Seq<char>,
    pub attrs: Seq<AttrModel>,
}

impl DeepView for TraitMethod {
    type V = TraitMethodModel;

    open spec fn deep_view(&self) -> TraitMethodModel {
        TraitMethodModel { name: self.name@, attrs: self.attrs.deep_view() }
    }
}

impl View for TraitMethod {
    type V = TraitMethodModel;

    open spec fn view(&self) -> TraitMethodModel {
        self.deep_view()
    }
}

/// An interface definition: a named set of method declarations.
#[derive(Debug, PartialEq, Eq)]
pub struct TraitDef {
    pub name: String,
    pub methods: Vec<TraitMethod>,
}

/// The mathematical model of [`TraitDef`].
pub struct TraitDefModel {
    pub name: Seq<char>,
    pub methods: Seq<TraitMethodModel>,
}

impl DeepView for TraitDef {
    type V = TraitDefModel;

    open spec fn deep_view(&self) -> TraitDefModel {
        TraitDefModel { name: self.name@, methods: self.methods.deep_view() }
    }
}

impl View for TraitDef {
    type V = TraitDefModel;

    open spec fn view(&self) -> TraitDefModel {
        self.deep_view()
    }
}

/// A type alias: `type Name = Type;`.
#[derive(Debug, PartialEq, Eq)]
pub struct TypeAlias {
    pub name: String,
    pub attrs: Vec<Attr>,
    pub ty: TypeExpr,
}

/// The mathematical model of [`TypeAlias`].
pub struct TypeAliasModel {
    pub name: Seq<char>,
    pub attrs: Seq<AttrModel>,
    pub ty: TypeModel,
}

impl DeepView for TypeAlias {
    type V = TypeAliasModel;

    open spec fn deep_view(&self) -> TypeAliasModel {
        TypeAliasModel { name: self.name@, attrs: self.attrs.deep_view(), ty: self.ty@ }
    }
}

impl View for TypeAlias {
    type V = TypeAliasModel;

    open spec fn view(&self) -> TypeAliasModel {
        self.deep_view()
    }
}

/// A named field of a structure.
#[derive(Debug, PartialEq, Eq)]
pub struct RecordField {
    pub name: String,
    pub ty: TypeExpr,
}

/// The mathematical model of [`RecordField`].
pub struct RecordFieldModel {
    pub name: Seq<char>,
    pub ty: TypeModel,
}

impl DeepView for RecordField {
    type V = RecordFieldModel;

    open spec fn deep_view(&self) -> RecordFieldModel {
        RecordFieldModel { name: self.name@, ty: self.ty@ }
    }
}

impl View for RecordField {
    type V = RecordFieldModel;

    open spec fn view(&self) -> RecordFieldModel {
        self.deep_view()
    }
}

/// A structure with its named fields.
#[derive(Debug, PartialEq, Eq)]
pub struct Record {
    pub name: String,
    pub attrs: Vec<Attr>,
    pub fields: Vec<RecordField>,
}

/// The mathematical model of [`Record`].
pub struct RecordModel {
    pub name: Seq<char>,
    pub attrs: Seq<AttrModel>,
    pub fields: Seq<RecordFieldModel>,
}

impl DeepView for Record {
    type V = RecordModel;

    open spec fn deep_view(&self) -> RecordModel {
        RecordModel {
            name: self.name@,
            attrs: self.attrs.deep_view(),
            fields: self.fields.deep_view(),
        }
    }
}

impl View for Record {
    type V = RecordModel;

    open spec fn view(&self) -> RecordModel {
        self.deep_view()
    }
}

/// An enumeration with the names of its variants.
#[derive(Debug, PartialEq, Eq)]
pub struct EnumDef {
    pub name: String,
    pub attrs: Vec<Attr>,
    pub variants: Vec<String>,
}

/// The mathematical model of [`EnumDef`].
pub struct EnumDefModel {
    pub name: Seq<char>,
    pub attrs: Seq<AttrModel>,
    pub variants: Seq<Seq<char>>,
}

impl DeepView for EnumDef {
    type V = EnumDefModel;

    open spec fn deep_view(&self) -> EnumDefModel {
        EnumDefModel {
            name: self.name@,
            attrs: self.attrs.deep_view(),
            variants: self.variants.deep_view(),
        }
    }
}

impl View for EnumDef {
    type V = EnumDefModel;

    open spec fn view(&self) -> EnumDefModel {
        self.deep_view()
    }
}

/// A top-level item of a source file.
#[derive(Debug, PartialEq, Eq)]
pub enum SourceItem {
    Alias(TypeAlias),
    Record(Record),
    Enum(EnumDef),
    Interface(TraitDef),
    Impl(ImplBlock),
    /// An item that the analysis does not read.
    Other,
}

/// The mathematical model of [`SourceItem`].
pub enum SourceItemModel {
    Alias(TypeAliasModel),
    Record(RecordModel),
    Enum(EnumDefModel),
    Interface(TraitDefModel),
    Impl(ImplBlockModel),
    Other,
}

impl DeepView for SourceItem {
    type V = SourceItemModel;

    open spec fn deep_view(&self) -> SourceItemModel {
        match self {
            SourceItem::Alias(a) => SourceItemModel::Alias(a@),
            SourceItem::Record(r) => SourceItemModel::Record(r@),
            SourceItem::Enum(e) => SourceItemModel::Enum(e@),
            SourceItem::Interface(t) => SourceItemModel::Interface(t@),
            SourceItem::Impl(b) => SourceItemModel::Impl(b@),
            SourceItem::Other => SourceItemModel::Other,
        }
    }
}

impl View for SourceItem {
    type V = SourceItemModel;

    open spec fn view(&self) -> SourceItemModel {
        self.deep_view()
    }
}

/// One source file: its own attributes and its items, in declaration order.
#[derive(Debug, PartialEq, Eq)]
pub struct SourceFile {
    pub attrs: Vec<Attr>,
    pub items: Vec<SourceItem>,
}

/// The mathematical model of [`SourceFile`].
pub struct SourceFileModel {
    pub attrs: Seq<AttrModel>,
    pub items: Seq<SourceItemModel>,
}

impl DeepView for SourceFile {
    type V = SourceFileModel;

    open spec fn deep_view(&self) -> SourceFileModel {
        SourceFileModel { attrs: self.attrs.deep_view(), items: self.items.deep_view() }
    }
}

impl View for SourceFile {
    type V = SourceFileModel;

    open spec fn view(&self) -> SourceFileModel {
        self.deep_view()
    }
}

} // verus!
