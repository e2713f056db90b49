//! The registry of interface definitions. It is filled from every source file
//! before any implementation block is resolved, so that a block may implement
//! an interface that a later file defines.

use vstd::prelude::*;

use crate::ast::SourceFile;
use crate::ast::SourceFileModel;
use crate::ast::SourceItem;
use crate::ast::SourceItemModel;
use crate::ast::TraitDef;
use crate::ast::TraitDefModel;
use crate::ast::TraitMethodModel;
use crate::doc_lines;
use crate::get_docs;
use crate::text::str_eq;

verus! {

/// The documentation recorded for one method of an interface.
#[derive(Debug, PartialEq, Eq)]
pub struct MethodDocs {
    pub name: String,
    pub docs: Vec<String>,
}

/// The mathematical model of [`MethodDocs`].
pub struct MethodDocsModel {
    pub name: Seq<char>,
    pub docs: Seq<Seq<char>>,
}

impl DeepView for MethodDocs {
    type V = MethodDocsModel;

    open spec fn deep_view(&self) -> MethodDocsModel {
        MethodDocsModel { name: self.name@, docs: self.docs.deep_view() }
    }
}

impl View for MethodDocs {
    type V = MethodDocsModel;

    open spec fn view(&self) -> MethodDocsModel {
        self.deep_view()
    }
}

/// What the registry records of one interface definition: its name and, for
/// each method it declares, the method's documentation lines.
#[derive(Debug, PartialEq, Eq)]
pub struct NearItemTrait {
    pub name: String,
    pub methods: Vec<MethodDocs>,
}

/// The mathematical model of [`NearItemTrait`].
pub struct NearItemTraitModel {
    pub name: Seq<char>,
    pub methods: Seq<MethodDocsModel>,
}

impl DeepView for NearItemTrait {
    type V = NearItemTraitModel;

    open spec fn deep_view(&self) -> NearItemTraitModel {
        NearItemTraitModel { name: self.name@, methods: self.methods.deep_view() }
    }
}

impl View for NearItemTrait {
    type V = NearItemTraitModel;

    open spec fn view(&self) -> NearItemTraitModel {
        self.deep_view()
    }
}

/// The documentation that `methods` record for the method `name`: that of the
/// last entry of this name, if there is one.
pub open spec fn recorded_docs(methods: Seq<MethodDocsModel>, name: Seq<char>) -> Option<
    Seq<Seq<char>>,
>
    decreases methods.len(),
{
    if methods.len() == 0 {
        None
    } else if methods.last().name == name {
        Some(methods.last().docs)
    } else {
        recorded_docs(methods.drop_last(), name)
    }
}

/// What is recorded of one declared method.
pub open spec fn method_docs_of(m: TraitMethodModel) -> MethodDocsModel {
    MethodDocsModel { name: m.name, docs: doc_lines(m.attrs) }
}

/// What is recorded of one interface definition.
pub open spec fn definition_of(t: TraitDefModel) -> NearItemTraitModel {
    NearItemTraitModel {
        name: t.name,
        methods: t.methods.map_values(|m: TraitMethodModel| method_docs_of(m)),
    }
}

/// The registry after the definitions of `defs` were recorded in order: each
/// under its name, a later one in place of an earlier one of the same name.
pub open spec fn registry_of(defs: Seq<NearItemTraitModel>) -> Map<Seq<char>, NearItemTraitModel>
    decreases defs.len(),
{
    if defs.len() == 0 {
        Map::empty()
    } else {
        registry_of(defs.drop_last()).insert(defs.last().name, defs.last())
    }
}

/// The registry `reg` after the interface definitions among `items` were
/// recorded in order. Items of other kinds leave it unchanged.
pub open spec fn register_all(
    reg: Map<Seq<char>, NearItemTraitModel>,
    items: Seq<SourceItemModel>,
) -> Map<Seq<char>, NearItemTraitModel>
    decreases items.len(),
{
    if items.len() == 0 {
        reg
    } else {
        match items.last() {
            SourceItemModel::Interface(t) => register_all(reg, items.drop_last()).insert(
                t.name,
                definition_of(t),
            ),
            _ => register_all(reg, items.drop_last()),
        }
    }
}

impl NearItemTrait {
    /// Records an interface definition.
    pub fn new(def: &TraitDef) -> (r: NearItemTrait)
        ensures
            r@ == definition_of(def@),
    {
        let mut methods: Vec<MethodDocs> = Vec::new();
        let mut i: usize = 0;
        while i < def.methods.len()
            invariant
                i <= def.methods.len(),
                methods.len() == i,
                forall|j: int|
                    0 <= j < i ==> (#[trigger] methods.deep_view()[j]) == method_docs_of(
                        def.methods.deep_view()[j],
                    ),
            decreases def.methods.len() - i,
        {
            let entry = MethodDocs {
                name: def.methods[i].name.clone(),
                docs: get_docs(&def.methods[i].attrs),
            };
            let ghost before = methods.deep_view();
            methods.push(entry);
            assert(methods.deep_view() == before.push(entry@));
            i = i + 1;
        }
        assert(methods.deep_view() == definition_of(def@).methods);
        NearItemTrait { name: def.name.clone(), methods }
    }

    /// The documentation recorded for the method `method_name`, if the
    /// interface declares a method of this name.
    pub fn get(&self, method_name: &str) -> (r: Option<&Vec<String>>)
        ensures
            r.deep_view() == recorded_docs(self@.methods, method_name@),
    {
        let ghost models = self.methods.deep_view();
        let mut i: usize = self.methods.len();
        assert(models.take(i as int) == models);
        while i > 0
            invariant
                i <= self.methods.len(),
                models == self.methods.deep_view(),
                recorded_docs(models, method_name@) == recorded_docs(
                    models.take(i as int),
                    method_name@,
                ),
            decreases i,
        {
            proof {
                assert(models.take(i as int).drop_last() == models.take(i as int - 1));
            }
            i = i - 1;
            if str_eq(self.methods[i].name.as_str(), method_name) {
                return Some(&self.methods[i].docs);
            }
        }
        None
    }
}

/// The interface definitions found so far, by name.
pub struct Contract {
    traits: Vec<NearItemTrait>,
}

impl View for Contract {
    type V = Map<Seq<char>, NearItemTraitModel>;

    closed spec fn view(&self) -> Map<Seq<char>, NearItemTraitModel> {
        registry_of(self.traits.deep_view())
    }
}

impl Contract {
    /// A registry that holds no definition.
    pub fn new() -> (r: Contract)
        ensures
            r@ == Map::<Seq<char>, NearItemTraitModel>::empty(),
    {
        let r = Contract { traits: Vec::new() };
        r
    }

    /// Records every interface definition among `items`, in order. A
    /// definition takes the place of an earlier one of the same name.
    pub fn forward_traits(&mut self, items: &Vec<SourceItem>)
        ensures
            final(self)@ == register_all(old(self)@, items.deep_view()),
    {
        let ghost models = items.deep_view();
        let mut i: usize = 0;
        while i < items.len()
            invariant
                i <= items.len(),
                models == items.deep_view(),
                self@ == register_all(old(self)@, models.take(i as int)),
            decreases items.len() - i,
        {
            proof {
                assert(models.take(i as int + 1).drop_last() == models.take(i as int));
            }
            match &items[i] {
                SourceItem::Interface(def) => {
                    let entry = NearItemTrait::new(def);
                    let ghost before = self.traits.deep_view();
                    self.traits.push(entry);
                    proof {
                        let after = self.traits.deep_view();
                        assert(after.drop_last() == before);
                    }
                },
                _ => {},
            }
            i = i + 1;
        }
        assert(models.take(i as int) == models);
    }

    /// The definition recorded under `name`, if there is one.
    pub fn lookup(&self, name: &str) -> (r: Option<&NearItemTrait>)
        ensures
            match r {
                Some(def) => self@.contains_key(name@) && def@ == self@[name@],
                None => !self@.contains_key(name@),
            },
    {
        let ghost defs = self.traits.deep_view();
        let mut i: usize = self.traits.len();
        assert(defs.take(i as int) == defs);
        while i > 0
            invariant
                i <= self.traits.len(),
                defs == self.traits.deep_view(),
                registry_of(defs).contains_key(name@) == registry_of(
                    defs.take(i as int),
                ).contains_key(name@),
                registry_of(defs).contains_key(name@) ==> registry_of(defs)[name@] == registry_of(
                    defs.take(i as int),
                )[name@],
            decreases i,
        {
            proof {
                assert(defs.take(i as int).drop_last() == defs.take(i as int - 1));
            }
            i = i - 1;
            if str_eq(self.traits[i].name.as_str(), name) {
                return Some(&self.traits[i]);
            }
        }
        None
    }
}

/// The registry after the interface definitions of all of `files` were recorded.
pub open spec fn registry_for(files: Seq<SourceFileModel>) -> Map<Seq<char>, NearItemTraitModel>
    decreases files.len(),
{
    if files.len() == 0 {
        Map::empty()
    } else {
        register_all(registry_for(files.drop_last()), files.last().items)
    }
}

/// Recording never forgets a name: what the registry held before, it holds after.
pub proof fn lemma_register_all_keeps(
    reg: Map<Seq<char>, NearItemTraitModel>,
    items: Seq<SourceItemModel>,
    name: Seq<char>,
)
    requires
        reg.contains_key(name),
    ensures
        register_all(reg, items).contains_key(name),
    decreases items.len(),
{
    if items.len() > 0 {
        lemma_register_all_keeps(reg, items.drop_last(), name);
    }
}

/// Every interface definition among the items is in the registry afterwards, under its name.
pub proof fn lemma_register_all_records(
    reg: Map<Seq<char>, NearItemTraitModel>,
    items: Seq<SourceItemModel>,
    j: int,
)
    requires
        0 <= j < items.len(),
        items[j] is Interface,
    ensures
        register_all(reg, items).contains_key(items[j]->Interface_0.name),
    decreases items.len(),
{
    if j < items.len() - 1 {
        lemma_register_all_records(reg, items.drop_last(), j);
    }
}

/// The registry of all files knows every interface that any of the files
/// defines, in whatever order the files come: a block may implement an
/// interface that a later file defines.
pub proof fn lemma_registry_knows_every_interface(files: Seq<SourceFileModel>, i: int, j: int)
    requires
        0 <= i < files.len(),
        0 <= j < files[i].items.len(),
        files[i].items[j] is Interface,
    ensures
        registry_for(files).contains_key(files[i].items[j]->Interface_0.name),
    decreases files.len(),
{
    if i == files.len() - 1 {
        lemma_register_all_records(registry_for(files.drop_last()), files.last().items, j);
    } else {
        lemma_registry_knows_every_interface(files.drop_last(), i, j);
        lemma_register_all_keeps(
            registry_for(files.drop_last()),
            files.last().items,
            files[i].items[j]->Interface_0.name,
        );
    }
}

/// Of two definitions of one name the later stays: after a definition was
/// recorded, the registry holds it under its name, whatever it held before.
pub proof fn lemma_later_definition_wins(
    reg: Map<Seq<char>, NearItemTraitModel>,
    items: Seq<SourceItemModel>,
    def: TraitDefModel,
)
    ensures
        register_all(reg, items.push(SourceItemModel::Interface(def)))[def.name] == definition_of(
            def,
        ),
{
}

/// The registry of the interface definitions of all of `asts`.
pub fn collect_traits(asts: &Vec<SourceFile>) -> (r: Contract)
    ensures
        r@ == registry_for(asts.deep_view()),
{
    let ghost models = asts.deep_view();
    let mut contract = Contract::new();
    let mut i: usize = 0;
    while i < asts.len()
        invariant
            i <= asts.len(),
            models == asts.deep_view(),
            contract@ == registry_for(models.take(i as int)),
        decreases asts.len() - i,
    {
        proof {
            assert(models.take(i as int + 1).drop_last() == models.take(i as int));
        }
        contract.forward_traits(&asts[i].items);
        i = i + 1;
    }
    assert(models.take(i as int) == models);
    contract
}

} // verus!
