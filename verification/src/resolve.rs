//! Roles and exposure: which methods of an implementation block belong to the
//! contract's public interface, under which role, and with what merged
//! documentation and translated signature.

use vstd::prelude::*;

use crate::ast::Attr;
use crate::ast::AttrModel;
use crate::ast::ImplBlock;
use crate::ast::ImplBlockModel;
use crate::ast::Method;
use crate::ast::MethodModel;
use crate::ast::ParamModel;
use crate::ast::Receiver;
use crate::ast::SourceFile;
use crate::ast::SourceFileModel;
use crate::ast::SourceItem;
use crate::ast::SourceItemModel;
use crate::ast::TypeExpr;
use crate::ast::TypeModel;
use crate::attr_present;
use crate::contract::Contract;
use crate::contract::NearItemTrait;
use crate::contract::NearItemTraitModel;
use crate::contract::recorded_docs;
use crate::doc_lines;
use crate::get_docs;
use crate::has_attr;
use crate::join_path;
use crate::path_text;
use crate::ts::return_text;
use crate::ts::ts_ret_type;
use crate::ts::ts_type;
use crate::ts::type_text;

verus! {

/// The role under which a method is exposed.
#[derive(Debug, Clone, Copy, PartialEq, Eq, Structural)]
pub enum Role {
    /// Reads the contract's state.
    View,
    /// Changes the contract's state.
    Call,
    /// Changes the contract's state and takes an attached deposit.
    PayableCall,
    /// Initializes the contract.
    Init,
}

/// The role that a receiver and a set of attributes give a method: an
/// initializer first; else by the receiver, and for a mutable one by whether
/// the method is payable.
pub open spec fn role_of(receiver: Receiver, attrs: Seq<AttrModel>) -> Role {
    if attr_present(attrs, "init"@) {
        Role::Init
    } else if receiver is Mutable {
        if attr_present(attrs, "payable"@) {
            Role::PayableCall
        } else {
            Role::Call
        }
    } else {
        Role::View
    }
}

/// The marker shown before the name of a method of this role.
pub open spec fn marker_text(role: Role) -> Seq<char> {
    match role {
        Role::Init => ":rocket:"@,
        Role::PayableCall => "&#x24C3;"@,
        Role::Call => ":writing_hand:"@,
        Role::View => ":eyeglasses:"@,
    }
}

/// The annotation shown after the name of a method of this role.
pub open spec fn suffix_text(role: Role) -> Seq<char> {
    match role {
        Role::Init => " (*constructor*)"@,
        _ => ""@,
    }
}

/// Whether the method is marked private, which keeps it out of the interface.
pub open spec fn is_private(m: MethodModel) -> bool {
    attr_present(m.attrs, "private"@)
}

/// Whether the method belongs to the interface: it is not marked private, and
/// it is public or stands in a block that implements an interface.
pub open spec fn is_exposed(m: MethodModel, for_interface: bool) -> bool {
    !is_private(m) && (m.public || for_interface)
}

/// The exposure rule for the methods of one block, as a predicate.
pub open spec fn exposure(for_interface: bool) -> spec_fn(MethodModel) -> bool {
    |m: MethodModel| is_exposed(m, for_interface)
}

/// The exposed methods among `ms`, in declaration order.
pub open spec fn exposed(ms: Seq<MethodModel>, for_interface: bool) -> Seq<MethodModel> {
    ms.filter(exposure(for_interface))
}

/// Whether the block is marked as exposed by the contract.
pub open spec fn is_eligible(b: ImplBlockModel) -> bool {
    attr_present(b.attrs, "near_bindgen"@)
}

/// The name of the type that an inherent block is for, if the type is a path.
pub open spec fn impl_name(self_ty: TypeModel) -> Option<Seq<char>> {
    match self_ty {
        TypeModel::Named { path, args } => Some(path_text(path)),
        _ => None,
    }
}

/// A parameter with its translated type.
#[derive(Debug, PartialEq, Eq)]
pub struct ParamRecord {
    pub name: String,
    pub ty: String,
}

/// The mathematical model of [`ParamRecord`].
pub struct ParamRecordModel {
    pub name: Seq<char>,
    pub ty: Seq<char>,
}

impl DeepView for ParamRecord {
    type V = ParamRecordModel;

    open spec fn deep_view(&self) -> ParamRecordModel {
        ParamRecordModel { name: self.name@, ty: self.ty@ }
    }
}

impl View for ParamRecord {
    type V = ParamRecordModel;

    open spec fn view(&self) -> ParamRecordModel {
        self.deep_view()
    }
}

/// An exposed method as the renderers read it.
#[derive(Debug, PartialEq, Eq)]
pub struct MethodRecord {
    pub name: String,
    pub params: Vec<ParamRecord>,
    /// The translated return type; `void` for no value.
    pub ret: String,
    pub receiver: Receiver,
    pub role: Role,
    /// The method's own documentation lines, then those that the interface records for it.
    pub docs: Vec<String>,
}

/// The mathematical model of [`MethodRecord`].
pub struct MethodRecordModel {
    pub name: Seq<char>,
    pub params: Seq<ParamRecordModel>,
    pub ret: Seq<char>,
    pub receiver: Receiver,
    pub role: Role,
    pub docs: Seq<Seq<char>>,
}

impl DeepView for MethodRecord {
    type V = MethodRecordModel;

    open spec fn deep_view(&self) -> MethodRecordModel {
        MethodRecordModel {
            name: self.name@,
            params: self.params.deep_view(),
            ret: self.ret@,
            receiver: self.receiver,
            role: self.role,
            docs: self.docs.deep_view(),
        }
    }
}

impl View for MethodRecord {
    type V = MethodRecordModel;

    open spec fn view(&self) -> MethodRecordModel {
        self.deep_view()
    }
}

/// To what an implementation block gives its methods.
#[derive(Debug, PartialEq, Eq)]
pub enum Context {
    /// The interface of this name.
    Interface(String),
    /// The type of this name itself; `Contract` where the type has no name.
    Inherent(String),
}

/// The mathematical model of [`Context`].
pub enum ContextModel {
    Interface(Seq<char>),
    Inherent(Seq<char>),
}

impl DeepView for Context {
    type V = ContextModel;

    open spec fn deep_view(&self) -> ContextModel {
        match self {
            Context::Interface(name) => ContextModel::Interface(name@),
            Context::Inherent(name) => ContextModel::Inherent(name@),
        }
    }
}

impl View for Context {
    type V = ContextModel;

    open spec fn view(&self) -> ContextModel {
        self.deep_view()
    }
}

/// One eligible implementation block, resolved: its context and its exposed methods.
#[derive(Debug, PartialEq, Eq)]
pub struct ResolvedBlock {
    pub context: Context,
    pub methods: Vec<MethodRecord>,
}

/// The mathematical model of [`ResolvedBlock`].
pub struct ResolvedBlockModel {
    pub context: ContextModel,
    pub methods: Seq<MethodRecordModel>,
}

impl DeepView for ResolvedBlock {
    type V = ResolvedBlockModel;

    open spec fn deep_view(&self) -> ResolvedBlockModel {
        ResolvedBlockModel { context: self.context@, methods: self.methods.deep_view() }
    }
}

impl View for ResolvedBlock {
    type V = ResolvedBlockModel;

    open spec fn view(&self) -> ResolvedBlockModel {
        self.deep_view()
    }
}

/// A parameter with its type translated.
pub open spec fn param_record(p: ParamModel) -> ParamRecordModel {
    ParamRecordModel { name: p.name, ty: type_text(p.ty) }
}

/// The documentation of a method in a block: its own lines, then the lines
/// that the interface records under the method's name, if any.
pub open spec fn merged_docs(
    own: Seq<Seq<char>>,
    name: Seq<char>,
    iface: Option<NearItemTraitModel>,
) -> Seq<Seq<char>> {
    match iface {
        Some(def) => match recorded_docs(def.methods, name) {
            Some(lines) => own + lines,
            None => own,
        },
        None => own,
    }
}

/// The record of a method in a block that implements `iface`, or none.
pub open spec fn record_of(m: MethodModel, iface: Option<NearItemTraitModel>) -> MethodRecordModel {
    MethodRecordModel {
        name: m.name,
        params: m.params.map_values(|p: ParamModel| param_record(p)),
        ret: return_text(m.output),
        receiver: m.receiver,
        role: role_of(m.receiver, m.attrs),
        docs: merged_docs(doc_lines(m.attrs), m.name, iface),
    }
}

/// The records of `ms`, in order.
pub open spec fn records_of(ms: Seq<MethodModel>, iface: Option<NearItemTraitModel>) -> Seq<
    MethodRecordModel,
> {
    ms.map_values(|m: MethodModel| record_of(m, iface))
}

/// The definition that the registry holds for the interface of a block, if
/// the block implements one and the registry knows it.
pub open spec fn interface_of(
    b: ImplBlockModel,
    registry: Map<Seq<char>, NearItemTraitModel>,
) -> Option<NearItemTraitModel> {
    match b.trait_path {
        Some(path) => if registry.contains_key(path_text(path)) {
            Some(registry[path_text(path)])
        } else {
            None
        },
        None => None,
    }
}

/// The context of a block: the interface it implements, else the type it is
/// for, else the label `Contract`.
pub open spec fn context_of(b: ImplBlockModel) -> ContextModel {
    match b.trait_path {
        Some(path) => ContextModel::Interface(path_text(path)),
        None => match impl_name(b.self_ty) {
            Some(name) => ContextModel::Inherent(name),
            None => ContextModel::Inherent("Contract"@),
        },
    }
}

/// A block resolved against the registry.
pub open spec fn resolved_block(
    b: ImplBlockModel,
    registry: Map<Seq<char>, NearItemTraitModel>,
) -> ResolvedBlockModel {
    ResolvedBlockModel {
        context: context_of(b),
        methods: records_of(exposed(b.methods, b.trait_path is Some), interface_of(b, registry)),
    }
}

/// The eligible blocks among `items`, resolved, in declaration order. A block
/// that exposes no method is among them, with no method.
pub open spec fn resolved_blocks(
    items: Seq<SourceItemModel>,
    registry: Map<Seq<char>, NearItemTraitModel>,
) -> Seq<ResolvedBlockModel>
    decreases items.len(),
{
    if items.len() == 0 {
        Seq::empty()
    } else {
        match items.last() {
            SourceItemModel::Impl(b) => if is_eligible(b) {
                resolved_blocks(items.drop_last(), registry).push(resolved_block(b, registry))
            } else {
                resolved_blocks(items.drop_last(), registry)
            },
            _ => resolved_blocks(items.drop_last(), registry),
        }
    }
}

/// The resolved blocks of `files`, in file order and, within a file, in declaration order.
pub open spec fn all_blocks(
    files: Seq<SourceFileModel>,
    registry: Map<Seq<char>, NearItemTraitModel>,
) -> Seq<ResolvedBlockModel>
    decreases files.len(),
{
    if files.len() == 0 {
        Seq::empty()
    } else {
        all_blocks(files.drop_last(), registry) + resolved_blocks(files.last().items, registry)
    }
}

/// No method marked private is among the exposed methods of a block,
/// whatever else the method carries and whatever the block implements.
pub proof fn lemma_private_never_exposed(ms: Seq<MethodModel>, for_interface: bool)
    ensures
        forall|i: int|
            0 <= i < exposed(ms, for_interface).len() ==> !is_private(
                #[trigger] exposed(ms, for_interface)[i],
            ),
        forall|m: MethodModel| is_private(m) ==> !exposed(ms, for_interface).contains(m),
{
    assert forall|i: int| 0 <= i < exposed(ms, for_interface).len() implies !is_private(
        #[trigger] exposed(ms, for_interface)[i],
    ) by {
        ms.lemma_filter_pred(exposure(for_interface), i);
    }
    assert forall|m: MethodModel| is_private(m) implies !exposed(ms, for_interface).contains(
        m,
    ) by {
        if exposed(ms, for_interface).contains(m) {
            let i = choose|i: int|
                0 <= i < exposed(ms, for_interface).len() && exposed(ms, for_interface)[i] == m;
            ms.lemma_filter_pred(exposure(for_interface), i);
        }
    }
}

/// Every method of a block that implements an interface is exposed, public
/// or not, unless it is marked private.
pub proof fn lemma_interface_methods_exposed(ms: Seq<MethodModel>, i: int)
    requires
        0 <= i < ms.len(),
        !is_private(ms[i]),
    ensures
        is_exposed(ms[i], true),
        exposed(ms, true).contains(ms[i]),
{
    ms.lemma_filter_contains(exposure(true), i);
}

/// The exposed methods are those that the exposure rule admits, and no
/// others: each stands among the methods of the block.
pub proof fn lemma_exposed_are_admitted(ms: Seq<MethodModel>, for_interface: bool, m: MethodModel)
    ensures
        exposed(ms, for_interface).contains(m) <==> ms.contains(m) && is_exposed(m, for_interface),
{
    if exposed(ms, for_interface).contains(m) {
        ms.lemma_filter_contains_rev(exposure(for_interface), m);
        let i = choose|i: int|
            0 <= i < exposed(ms, for_interface).len() && exposed(ms, for_interface)[i] == m;
        ms.lemma_filter_pred(exposure(for_interface), i);
    }
    if ms.contains(m) && is_exposed(m, for_interface) {
        let j = choose|j: int| 0 <= j < ms.len() && ms[j] == m;
        ms.lemma_filter_contains(exposure(for_interface), j);
    }
}

/// A method marked as an initializer has the role of one and the
/// constructor annotation, whatever its receiver.
pub proof fn lemma_init_is_constructor(receiver: Receiver, attrs: Seq<AttrModel>)
    requires
        attr_present(attrs, "init"@),
    ensures
        role_of(receiver, attrs) == Role::Init,
        marker_text(role_of(receiver, attrs)) == ":rocket:"@,
        suffix_text(role_of(receiver, attrs)) == " (*constructor*)"@,
{
}

/// A payable method with a mutable receiver is never a plain call; it is a
/// payable call unless it is marked as an initializer, which comes first.
pub proof fn lemma_payable_is_payable_call(receiver: Receiver, attrs: Seq<AttrModel>)
    requires
        receiver is Mutable,
        attr_present(attrs, "payable"@),
    ensures
        role_of(receiver, attrs) != Role::Call,
        !attr_present(attrs, "init"@) ==> role_of(receiver, attrs) == Role::PayableCall,
{
}

/// Where a method has documentation of its own and the interface records
/// documentation under its name, the merged documentation is the own lines
/// followed by the recorded lines, all of them, in this order.
pub proof fn lemma_docs_merge(m: MethodModel, def: NearItemTraitModel, lines: Seq<Seq<char>>)
    requires
        recorded_docs(def.methods, m.name) == Some(lines),
    ensures
        record_of(m, Some(def)).docs == doc_lines(m.attrs) + lines,
        record_of(m, Some(def)).docs.len() == doc_lines(m.attrs).len() + lines.len(),
        record_of(m, None).docs == doc_lines(m.attrs),
{
}

/// The role of a method with this receiver and these attributes.
pub fn classify(receiver: Receiver, attrs: &Vec<Attr>) -> (r: Role)
    ensures
        r == role_of(receiver, attrs.deep_view()),
{
    if has_attr(attrs, "init") {
        Role::Init
    } else {
        match receiver {
            Receiver::Mutable => {
                if has_attr(attrs, "payable") {
                    Role::PayableCall
                } else {
                    Role::Call
                }
            },
            _ => Role::View,
        }
    }
}

/// The marker of a role.
pub fn marker(role: Role) -> (r: &'static str)
    ensures
        r@ == marker_text(role),
{
    match role {
        Role::Init => ":rocket:",
        Role::PayableCall => "&#x24C3;",
        Role::Call => ":writing_hand:",
        Role::View => ":eyeglasses:",
    }
}

/// The annotation of a role.
pub fn suffix(role: Role) -> (r: &'static str)
    ensures
        r@ == suffix_text(role),
{
    match role {
        Role::Init => " (*constructor*)",
        _ => "",
    }
}

/// Whether the method is marked as an initializer.
pub fn is_init(method: &Method) -> (r: bool)
    ensures
        r == attr_present(method@.attrs, "init"@),
{
    has_attr(&method.attrs, "init")
}

/// Whether the method is marked as payable.
pub fn is_payable(method: &Method) -> (r: bool)
    ensures
        r == attr_present(method@.attrs, "payable"@),
{
    has_attr(&method.attrs, "payable")
}

/// Whether the implementation block is marked as exposed by the contract.
pub fn is_bindgen(block: &ImplBlock) -> (r: bool)
    ensures
        r == is_eligible(block@),
{
    has_attr(&block.attrs, "near_bindgen")
}

/// Whether the method of `block` belongs to the interface.
pub fn is_exported(block: &ImplBlock, method: &Method) -> (r: bool)
    ensures
        r == is_exposed(method@, block@.trait_path is Some),
{
    !has_attr(&method.attrs, "private") && (method.public || block.trait_path.is_some())
}

/// The exposed methods of `block`, in declaration order.
pub fn exported_methods<'a>(block: &'a ImplBlock) -> (r: Vec<&'a Method>)
    ensures
        r.deep_view() == exposed(block@.methods, block@.trait_path is Some),
{
    let mut out: Vec<&'a Method> = Vec::new();
    let mut i: usize = 0;
    let ghost models = block.methods.deep_view();
    let ghost keep = exposure(block@.trait_path is Some);
    proof {
        reveal(Seq::filter);
    }
    while i < block.methods.len()
        invariant
            i <= block.methods.len(),
            models == block.methods.deep_view(),
            keep == exposure(block@.trait_path is Some),
            out.deep_view() == models.take(i as int).filter(keep),
        decreases block.methods.len() - i,
    {
        proof {
            reveal(Seq::filter);
            assert(models.take(i as int + 1).drop_last() == models.take(i as int));
        }
        if is_exported(block, &block.methods[i]) {
            out.push(&block.methods[i]);
        }
        i = i + 1;
    }
    assert(models.take(i as int) == models);
    out
}

/// The name of the interface that the block implements, if it implements one.
pub fn get_trait_name(block: &ImplBlock) -> (r: Option<String>)
    ensures
        r.deep_view() == match block@.trait_path {
            Some(path) => Some(path_text(path)),
            None => None,
        },
{
    match &block.trait_path {
        Some(path) => Some(join_path(path)),
        None => None,
    }
}

/// The name of the type that the block is for, if the type is a path.
pub fn get_impl_name(block: &ImplBlock) -> (r: Option<String>)
    ensures
        r.deep_view() == impl_name(block@.self_ty),
{
    match &block.self_ty {
        TypeExpr::Named { path, args } => Some(join_path(path)),
        _ => None,
    }
}

/// The context of the block.
pub fn block_context(block: &ImplBlock) -> (r: Context)
    ensures
        r@ == context_of(block@),
{
    match get_trait_name(block) {
        Some(name) => Context::Interface(name),
        None => match get_impl_name(block) {
            Some(name) => Context::Inherent(name),
            None => Context::Inherent("Contract".to_string()),
        },
    }
}

/// The documentation of a method: its own lines, then the lines that
/// `item_trait` records under the method's name.
pub fn join_docs(method: &Method, item_trait: Option<&NearItemTrait>) -> (r: Vec<String>)
    ensures
        r.deep_view() == merged_docs(
            doc_lines(method@.attrs),
            method@.name,
            item_trait.deep_view(),
        ),
{
    let mut docs = get_docs(&method.attrs);
    match item_trait {
        Some(def) => {
            match def.get(method.name.as_str()) {
                Some(lines) => {
                    let ghost own = docs.deep_view();
                    let mut i: usize = 0;
                    while i < lines.len()
                        invariant
                            i <= lines.len(),
                            docs.deep_view() == own + lines.deep_view().take(i as int),
                        decreases lines.len() - i,
                    {
                        let ghost before = docs.deep_view();
                        let line = lines[i].clone();
                        docs.push(line);
                        proof {
                            assert(docs.deep_view() == before.push(lines[i as int]@));
                        }
                        i = i + 1;
                    }
                },
                None => {},
            }
        },
        None => {},
    }
    docs
}

/// The record of a method in a block that implements `item_trait`, or none.
pub fn method_record(method: &Method, item_trait: Option<&NearItemTrait>) -> (r: MethodRecord)
    ensures
        r@ == record_of(method@, item_trait.deep_view()),
{
    let mut params: Vec<ParamRecord> = Vec::new();
    let mut i: usize = 0;
    while i < method.params.len()
        invariant
            i <= method.params.len(),
            params.len() == i,
            forall|j: int|
                0 <= j < i ==> (#[trigger] params.deep_view()[j]) == param_record(
                    method.params.deep_view()[j],
                ),
        decreases method.params.len() - i,
    {
        let entry = ParamRecord {
            name: method.params[i].name.clone(),
            ty: ts_type(&method.params[i].ty),
        };
        let ghost before = params.deep_view();
        params.push(entry);
        assert(params.deep_view() == before.push(entry@));
        i = i + 1;
    }
    assert(params.deep_view() == record_of(method@, item_trait.deep_view()).params);
    MethodRecord {
        name: method.name.clone(),
        params,
        ret: ts_ret_type(&method.output),
        receiver: method.receiver,
        role: classify(method.receiver, &method.attrs),
        docs: join_docs(method, item_trait),
    }
}

/// The records of `methods`, in order.
pub fn method_records(methods: &Vec<&Method>, item_trait: Option<&NearItemTrait>) -> (r: Vec<
    MethodRecord,
>)
    ensures
        r.deep_view() == records_of(methods.deep_view(), item_trait.deep_view()),
{
    let mut out: Vec<MethodRecord> = Vec::new();
    let mut i: usize = 0;
    while i < methods.len()
        invariant
            i <= methods.len(),
            out.len() == i,
            forall|j: int|
                0 <= j < i ==> (#[trigger] out.deep_view()[j]) == record_of(
                    methods.deep_view()[j],
                    item_trait.deep_view(),
                ),
        decreases methods.len() - i,
    {
        let entry = method_record(methods[i], item_trait);
        let ghost before = out.deep_view();
        out.push(entry);
        assert(out.deep_view() == before.push(entry@));
        i = i + 1;
    }
    out
}

/// The definition that the registry holds for the interface of `block`.
pub fn block_interface<'a>(block: &ImplBlock, contract: &'a Contract) -> (r: Option<
    &'a NearItemTrait,
>)
    ensures
        r.deep_view() == interface_of(block@, contract@),
{
    match get_trait_name(block) {
        Some(name) => contract.lookup(name.as_str()),
        None => None,
    }
}

/// Resolves one block against the registry.
pub fn resolve_block(block: &ImplBlock, contract: &Contract) -> (r: ResolvedBlock)
    ensures
        r@ == resolved_block(block@, contract@),
{
    let methods = exported_methods(block);
    let item_trait = block_interface(block, contract);
    ResolvedBlock { context: block_context(block), methods: method_records(&methods, item_trait) }
}

/// Resolves the eligible implementation blocks of a file, in declaration order.
pub fn resolve_file(file: &SourceFile, contract: &Contract) -> (r: Vec<ResolvedBlock>)
    ensures
        r.deep_view() == resolved_blocks(file@.items, contract@),
{
    let mut out: Vec<ResolvedBlock> = Vec::new();
    let mut i: usize = 0;
    let ghost models = file.items.deep_view();
    while i < file.items.len()
        invariant
            i <= file.items.len(),
            models == file.items.deep_view(),
            out.deep_view() == resolved_blocks(models.take(i as int), contract@),
        decreases file.items.len() - i,
    {
        proof {
            assert(models.take(i as int + 1).drop_last() == models.take(i as int));
        }
        match &file.items[i] {
            SourceItem::Impl(block) => {
                if is_bindgen(block) {
                    let entry = resolve_block(block, contract);
                    out.push(entry);
                }
            },
            _ => {},
        }
        i = i + 1;
    }
    assert(models.take(i as int) == models);
    out
}

/// The resolved blocks of all of `asts`, in order.
pub fn resolve_files(asts: &Vec<SourceFile>, contract: &Contract) -> (r: Vec<ResolvedBlock>)
    ensures
        r.deep_view() == all_blocks(asts.deep_view(), contract@),
{
    let ghost models = asts.deep_view();
    let mut out: Vec<ResolvedBlock> = Vec::new();
    let mut i: usize = 0;
    while i < asts.len()
        invariant
            i <= asts.len(),
            models == asts.deep_view(),
            out.deep_view() == all_blocks(models.take(i as int), contract@),
        decreases asts.len() - i,
    {
        proof {
            assert(models.take(i as int + 1).drop_last() == models.take(i as int));
        }
        let mut blocks = resolve_file(&asts[i], contract);
        out.append(&mut blocks);
        i = i + 1;
    }
    assert(models.take(i as int) == models);
    out
}

} // verus!
