//! Markdown: the reference documentation of a contract's interface.

use vstd::prelude::*;
use vstd::string::StringExecFns;

use crate::ast::AttrModel;
use crate::ast::Method;
use crate::ast::Receiver;
use crate::ast::SourceFile;
use crate::ast::SourceFileModel;
use crate::ast::SourceItem;
use crate::ast::SourceItemModel;
use crate::ast::TypeAliasModel;
use crate::attr_present;
use crate::contract::Contract;
use crate::contract::NearItemTrait;
use crate::contract::NearItemTraitModel;
use crate::contract::collect_traits;
use crate::contract::registry_for;
use crate::doc_lines;
use crate::first_unparsed;
use crate::get_docs;
use crate::parse_sources;
use crate::resolve::Context;
use crate::resolve::ContextModel;
use crate::resolve::MethodRecord;
use crate::resolve::MethodRecordModel;
use crate::resolve::Role;
use crate::resolve::block_context;
use crate::resolve::block_interface;
use crate::resolve::classify;
use crate::resolve::exported_methods;
use crate::resolve::exposed;
use crate::resolve::is_bindgen;
use crate::resolve::is_eligible;
use crate::resolve::is_payable;
use crate::resolve::marker;
use crate::resolve::marker_text;
use crate::resolve::method_records;
use crate::resolve::records_of;
use crate::resolve::resolved_block;
use crate::resolve::role_of;
use crate::resolve::suffix;
use crate::resolve::suffix_text;
use crate::source_models;
use crate::text::escape_pipe_chars;
use crate::text::escape_pipes;
use crate::text::join;
use crate::text::join_lines;
use crate::text::join_strings;
use crate::text::lines_text;
use crate::ts::sig_text;
use crate::ts::ts_sig;
use crate::write_docs;

verus! {

/// The opening of the document. `now` says when it was made, or is empty.
pub open spec fn prelude_text(now: Seq<char>) -> Seq<char> {
    "<!-- AUTOGENERATED doc"@ + now + ", do not modify! -->\n"@ + "# Contract\n\n"@
}

/// The legend: one line for each marker.
pub open spec fn legend_text() -> Seq<char> {
    "- "@ + marker_text(Role::Init)
        + " Initialization method. Needs to be called right after deployment.\n"@ + "- "@
        + marker_text(Role::View)
        + " View only method, *i.e.*, does not modify the contract state.\n"@ + "- "@ + marker_text(
        Role::Call,
    ) + " Call method, i.e., does modify the contract state.\n"@ + "- "@ + marker_text(
        Role::PayableCall,
    ) + " Payable method, i.e., call needs to have an attached NEAR deposit.\n"@
}

/// The closing of the document: the legend, then the line that names the
/// generator, its version and its home, and says when the document was made.
pub open spec fn footer_text(
    bin: Seq<char>,
    version: Seq<char>,
    repository: Seq<char>,
    now: Seq<char>,
) -> Seq<char> {
    "\n---\n\nReferences\n\n"@ + legend_text()
        + "\n---\n\n*This documentation was generated with* **"@ + bin + " v"@ + version + "** <"@
        + repository + ">"@ + now + "\n"@
}

/// The head of a method: its marker, its name and its annotation.
pub open spec fn title_text(rec: MethodRecordModel) -> Seq<char> {
    marker_text(rec.role) + " `"@ + rec.name + "`"@ + suffix_text(rec.role)
}

/// The row of the summary table for one method: its head, its documentation
/// on one line, and its return type.
pub open spec fn row_text(rec: MethodRecordModel) -> Seq<char> {
    "| "@ + title_text(rec) + " | "@ + join(rec.docs, " "@) + " | `"@ + escape_pipes(rec.ret)
        + "` |\n"@
}

/// The rows of the summary table for `recs`, in order.
pub open spec fn rows_text(recs: Seq<MethodRecordModel>) -> Seq<char>
    decreases recs.len(),
{
    if recs.len() == 0 {
        Seq::empty()
    } else {
        rows_text(recs.drop_last()) + row_text(recs.last())
    }
}

/// The section of one method: its head, its signature in a code block, and
/// its documentation.
pub open spec fn section_text(rec: MethodRecordModel) -> Seq<char> {
    "\n### "@ + title_text(rec) + "\n\n"@ + "```typescript\n"@ + sig_text(rec) + "\n```\n\n"@
        + lines_text(rec.docs)
}

/// The sections of `recs`, in order.
pub open spec fn sections_text(recs: Seq<MethodRecordModel>) -> Seq<char>
    decreases recs.len(),
{
    if recs.len() == 0 {
        Seq::empty()
    } else {
        sections_text(recs.drop_last()) + section_text(recs.last())
    }
}

/// The heading over the methods of a block.
pub open spec fn heading_text(context: ContextModel) -> Seq<char> {
    match context {
        ContextModel::Interface(name) => "\n## Methods for `"@ + name + "` interface\n"@,
        ContextModel::Inherent(name) => "\n## Methods for "@ + name + "\n"@,
    }
}

/// The section of a documented type alias: a heading with its name, then its
/// documentation lines as they stand.
pub open spec fn alias_text(alias: TypeAliasModel) -> Seq<char> {
    "\n## Type `"@ + alias.name + "`\n\n"@ + lines_text(doc_lines(alias.attrs))
}

/// What one item adds to the document: an eligible block that exposes a
/// method, its heading and its methods' sections; a type alias that carries
/// documentation, its section; any other item, nothing.
pub open spec fn item_text(item: SourceItemModel, registry: Map<Seq<char>, NearItemTraitModel>) -> Seq<
    char,
> {
    match item {
        SourceItemModel::Impl(b) => {
            let block = resolved_block(b, registry);
            if is_eligible(b) && block.methods.len() > 0 {
                heading_text(block.context) + sections_text(block.methods)
            } else {
                Seq::empty()
            }
        },
        SourceItemModel::Alias(alias) => if doc_lines(alias.attrs).len() > 0 {
            alias_text(alias)
        } else {
            Seq::empty()
        },
        _ => Seq::empty(),
    }
}

/// What `items` add to the document, in order.
pub open spec fn item_texts(items: Seq<SourceItemModel>, registry: Map<Seq<char>, NearItemTraitModel>) -> Seq<
    char,
>
    decreases items.len(),
{
    if items.len() == 0 {
        Seq::empty()
    } else {
        item_texts(items.drop_last(), registry) + item_text(items.last(), registry)
    }
}

/// The part of the document for one file: the file's own documentation, then its items.
pub open spec fn file_text(file: SourceFileModel, registry: Map<Seq<char>, NearItemTraitModel>) -> Seq<
    char,
> {
    lines_text(doc_lines(file.attrs)) + item_texts(file.items, registry)
}

/// The rows that one item adds to the summary table: those of its exposed
/// methods, if it is an eligible block.
pub open spec fn item_rows(item: SourceItemModel, registry: Map<Seq<char>, NearItemTraitModel>) -> Seq<
    char,
> {
    match item {
        SourceItemModel::Impl(b) => if is_eligible(b) {
            rows_text(resolved_block(b, registry).methods)
        } else {
            Seq::empty()
        },
        _ => Seq::empty(),
    }
}

/// The rows that `items` add to the summary table, in order.
pub open spec fn items_rows(items: Seq<SourceItemModel>, registry: Map<Seq<char>, NearItemTraitModel>) -> Seq<
    char,
>
    decreases items.len(),
{
    if items.len() == 0 {
        Seq::empty()
    } else {
        items_rows(items.drop_last(), registry) + item_rows(items.last(), registry)
    }
}

/// The rows that `files` add to the summary table, in order.
pub open spec fn files_rows(
    files: Seq<SourceFileModel>,
    registry: Map<Seq<char>, NearItemTraitModel>,
) -> Seq<char>
    decreases files.len(),
{
    if files.len() == 0 {
        Seq::empty()
    } else {
        files_rows(files.drop_last(), registry) + items_rows(files.last().items, registry)
    }
}

/// The summary table of every exposed method of `files`.
pub open spec fn table_text(
    files: Seq<SourceFileModel>,
    registry: Map<Seq<char>, NearItemTraitModel>,
) -> Seq<char> {
    "| Method | Description | Return |\n"@ + "| ------ | ----------- | ------ |\n"@ + files_rows(
        files,
        registry,
    ) + "\n"@
}

/// The parts of the document for `files`, in order.
pub open spec fn files_text(
    files: Seq<SourceFileModel>,
    registry: Map<Seq<char>, NearItemTraitModel>,
) -> Seq<char>
    decreases files.len(),
{
    if files.len() == 0 {
        Seq::empty()
    } else {
        files_text(files.drop_last(), registry) + file_text(files.last(), registry)
    }
}

/// The whole document for `files`. Every block is resolved against the
/// registry of all files, whatever the order of the files.
pub open spec fn document_text(
    files: Seq<SourceFileModel>,
    bin: Seq<char>,
    version: Seq<char>,
    repository: Seq<char>,
    now: Seq<char>,
) -> Seq<char> {
    prelude_text(now) + table_text(files, registry_for(files)) + files_text(
        files,
        registry_for(files),
    ) + footer_text(bin, version, repository, now)
}

/// Whether `result` is what a run on the source texts `srcs` gives: the
/// whole document, where every text is a source file; else the place of the
/// first text that is none.
pub open spec fn is_document_of(
    srcs: Seq<Seq<char>>,
    bin: Seq<char>,
    version: Seq<char>,
    repository: Seq<char>,
    now: Seq<char>,
    result: Result<Seq<char>, int>,
) -> bool {
    match result {
        Ok(text) => source_models(srcs) is Some && text == document_text(
            source_models(srcs)->0,
            bin,
            version,
            repository,
            now,
        ),
        Err(at) => first_unparsed(srcs, at),
    }
}

/// Two runs on the same source texts with the same stamp give the same
/// result, character by character: the same document, or the same place of
/// the first text that is no source file.
pub proof fn lemma_document_repeatable(
    srcs: Seq<Seq<char>>,
    bin: Seq<char>,
    version: Seq<char>,
    repository: Seq<char>,
    now: Seq<char>,
    first: Result<Seq<char>, int>,
    second: Result<Seq<char>, int>,
)
    requires
        is_document_of(srcs, bin, version, repository, now, first),
        is_document_of(srcs, bin, version, repository, now, second),
    ensures
        first == second,
{
}

/// The opening of the document.
pub fn md_prelude(now: &str) -> (r: String)
    ensures
        r@ == prelude_text(now@),
{
    let mut out = String::from_str("<!-- AUTOGENERATED doc");
    out.append(now);
    out.append(", do not modify! -->\n");
    out.append("# Contract\n\n");
    out
}

fn md_legend() -> (r: String)
    ensures
        r@ == legend_text(),
{
    let mut out = String::from_str("- ");
    out.append(marker(Role::Init));
    out.append(" Initialization method. Needs to be called right after deployment.\n");
    out.append("- ");
    out.append(marker(Role::View));
    out.append(" View only method, *i.e.*, does not modify the contract state.\n");
    out.append("- ");
    out.append(marker(Role::Call));
    out.append(" Call method, i.e., does modify the contract state.\n");
    out.append("- ");
    out.append(marker(Role::PayableCall));
    out.append(" Payable method, i.e., call needs to have an attached NEAR deposit.\n");
    out
}

/// The closing of the document.
pub fn md_footer(bin: &str, version: &str, repository: &str, now: &str) -> (r: String)
    ensures
        r@ == footer_text(bin@, version@, repository@, now@),
{
    let legend = md_legend();
    let mut out = String::from_str("\n---\n\nReferences\n\n");
    out.append(legend.as_str());
    out.append("\n---\n\n*This documentation was generated with* **");
    out.append(bin);
    out.append(" v");
    out.append(version);
    out.append("** <");
    out.append(repository);
    out.append(">");
    out.append(now);
    out.append("\n");
    out
}

fn md_title(rec: &MethodRecord) -> (r: String)
    ensures
        r@ == title_text(rec@),
{
    let mut out = String::from_str(marker(rec.role));
    out.append(" `");
    out.append(rec.name.as_str());
    out.append("`");
    out.append(suffix(rec.role));
    out
}

fn md_row(rec: &MethodRecord) -> (r: String)
    ensures
        r@ == row_text(rec@),
{
    let title = md_title(rec);
    let docs = join_strings(&rec.docs, " ");
    let ret = escape_pipe_chars(rec.ret.as_str());
    let mut out = String::from_str("| ");
    out.append(title.as_str());
    out.append(" | ");
    out.append(docs.as_str());
    out.append(" | `");
    out.append(ret.as_str());
    out.append("` |\n");
    out
}

fn md_section(rec: &MethodRecord) -> (r: String)
    ensures
        r@ == section_text(rec@),
{
    let title = md_title(rec);
    let sig = ts_sig(rec);
    let docs = join_lines(&rec.docs);
    let mut out = String::from_str("\n### ");
    out.append(title.as_str());
    out.append("\n\n");
    out.append("```typescript\n");
    out.append(sig.as_str());
    out.append("\n```\n\n");
    out.append(docs.as_str());
    out
}

/// The rows of the summary table for `methods`, whose block implements
/// `item_trait` or no interface.
pub fn md_methods_table_rows(methods: &Vec<&Method>, item_trait: Option<&NearItemTrait>) -> (r:
    String)
    ensures
        r@ == rows_text(records_of(methods.deep_view(), item_trait.deep_view())),
{
    let recs = method_records(methods, item_trait);
    let ghost models = recs.deep_view();
    let mut out = String::new();
    let mut i: usize = 0;
    while i < recs.len()
        invariant
            i <= recs.len(),
            models == recs.deep_view(),
            out@ == rows_text(models.take(i as int)),
        decreases recs.len() - i,
    {
        proof {
            assert(models.take(i as int + 1).drop_last() == models.take(i as int));
        }
        let row = md_row(&recs[i]);
        out.append(row.as_str());
        i = i + 1;
    }
    assert(models.take(i as int) == models);
    out
}

/// The sections of `methods`, whose block implements `item_trait` or no interface.
pub fn md_methods(methods: Vec<&Method>, item_trait: Option<&NearItemTrait>) -> (r: String)
    ensures
        r@ == sections_text(records_of(methods.deep_view(), item_trait.deep_view())),
{
    let recs = method_records(&methods, item_trait);
    let ghost models = recs.deep_view();
    let mut out = String::new();
    let mut i: usize = 0;
    while i < recs.len()
        invariant
            i <= recs.len(),
            models == recs.deep_view(),
            out@ == sections_text(models.take(i as int)),
        decreases recs.len() - i,
    {
        proof {
            assert(models.take(i as int + 1).drop_last() == models.take(i as int));
        }
        let section = md_section(&recs[i]);
        out.append(section.as_str());
        i = i + 1;
    }
    assert(models.take(i as int) == models);
    out
}

fn md_heading(context: &Context) -> (r: String)
    ensures
        r@ == heading_text(context@),
{
    match context {
        Context::Interface(name) => {
            let mut out = String::from_str("\n## Methods for `");
            out.append(name.as_str());
            out.append("` interface\n");
            out
        },
        Context::Inherent(name) => {
            let mut out = String::from_str("\n## Methods for ");
            out.append(name.as_str());
            out.append("\n");
            out
        },
    }
}

fn md_item(item: &SourceItem, contract: &Contract) -> (r: String)
    ensures
        r@ == item_text(item@, contract@),
{
    match item {
        SourceItem::Impl(block) => {
            if is_bindgen(block) {
                let methods = exported_methods(block);
                if methods.len() > 0 {
                    let item_trait = block_interface(block, contract);
                    let context = block_context(block);
                    let mut out = md_heading(&context);
                    let sections = md_methods(methods, item_trait);
                    out.append(sections.as_str());
                    out
                } else {
                    String::new()
                }
            } else {
                String::new()
            }
        },
        SourceItem::Alias(alias) => {
            let docs = get_docs(&alias.attrs);
            if docs.len() > 0 {
                let lines = join_lines(&docs);
                let mut out = String::from_str("\n## Type `");
                out.append(alias.name.as_str());
                out.append("`\n\n");
                out.append(lines.as_str());
                out
            } else {
                String::new()
            }
        },
        _ => String::new(),
    }
}

/// The part of the document for one file.
pub fn md_items(syntax: &SourceFile, contract: &Contract) -> (r: String)
    ensures
        r@ == file_text(syntax@, contract@),
{
    let mut out = write_docs(&syntax.attrs);
    let ghost head = out@;
    let ghost models = syntax.items.deep_view();
    let ghost mut body: Seq<char> = Seq::empty();
    let mut i: usize = 0;
    while i < syntax.items.len()
        invariant
            i <= syntax.items.len(),
            models == syntax.items.deep_view(),
            body == item_texts(models.take(i as int), contract@),
            out@ == head + body,
        decreases syntax.items.len() - i,
    {
        proof {
            assert(models.take(i as int + 1).drop_last() == models.take(i as int));
        }
        let piece = md_item(&syntax.items[i], contract);
        out.append(piece.as_str());
        proof {
            body = body + piece@;
        }
        i = i + 1;
    }
    assert(models.take(i as int) == models);
    out
}

fn md_item_rows(item: &SourceItem, contract: &Contract) -> (r: String)
    ensures
        r@ == item_rows(item@, contract@),
{
    match item {
        SourceItem::Impl(block) => {
            if is_bindgen(block) {
                let methods = exported_methods(block);
                let item_trait = block_interface(block, contract);
                md_methods_table_rows(&methods, item_trait)
            } else {
                String::new()
            }
        },
        _ => String::new(),
    }
}

fn md_file_rows(file: &SourceFile, contract: &Contract) -> (r: String)
    ensures
        r@ == items_rows(file@.items, contract@),
{
    let ghost models = file.items.deep_view();
    let mut out = String::new();
    let mut i: usize = 0;
    while i < file.items.len()
        invariant
            i <= file.items.len(),
            models == file.items.deep_view(),
            out@ == items_rows(models.take(i as int), contract@),
        decreases file.items.len() - i,
    {
        proof {
            assert(models.take(i as int + 1).drop_last() == models.take(i as int));
        }
        let rows = md_item_rows(&file.items[i], contract);
        out.append(rows.as_str());
        i = i + 1;
    }
    assert(models.take(i as int) == models);
    out
}

/// The summary table of every exposed method of `asts`.
pub fn md_methods_table(asts: &Vec<SourceFile>, contract: &Contract) -> (r: String)
    ensures
        r@ == table_text(asts.deep_view(), contract@),
{
    let ghost models = asts.deep_view();
    let mut rows = String::new();
    let mut i: usize = 0;
    while i < asts.len()
        invariant
            i <= asts.len(),
            models == asts.deep_view(),
            rows@ == files_rows(models.take(i as int), contract@),
        decreases asts.len() - i,
    {
        proof {
            assert(models.take(i as int + 1).drop_last() == models.take(i as int));
        }
        let file_rows = md_file_rows(&asts[i], contract);
        rows.append(file_rows.as_str());
        i = i + 1;
    }
    assert(models.take(i as int) == models);
    let mut out = String::from_str("| Method | Description | Return |\n");
    out.append("| ------ | ----------- | ------ |\n");
    out.append(rows.as_str());
    out.append("\n");
    out
}

/// The whole document for `asts`: the opening, the summary table, the part of
/// each file, and the closing. The interface definitions of all files are
/// recorded before any block is resolved.
pub fn emit_md(asts: &Vec<SourceFile>, bin: &str, version: &str, repository: &str, now: &str) -> (r:
    String)
    ensures
        r@ == document_text(asts.deep_view(), bin@, version@, repository@, now@),
{
    let contract = collect_traits(asts);
    let ghost models = asts.deep_view();
    let mut parts = String::new();
    let mut i: usize = 0;
    while i < asts.len()
        invariant
            i <= asts.len(),
            models == asts.deep_view(),
            parts@ == files_text(models.take(i as int), contract@),
        decreases asts.len() - i,
    {
        proof {
            assert(models.take(i as int + 1).drop_last() == models.take(i as int));
        }
        let part = md_items(&asts[i], &contract);
        parts.append(part.as_str());
        i = i + 1;
    }
    assert(models.take(i as int) == models);
    let table = md_methods_table(asts, &contract);
    let footer = md_footer(bin, version, repository, now);
    let mut out = md_prelude(now);
    out.append(table.as_str());
    out.append(parts.as_str());
    out.append(footer.as_str());
    out
}

/// A whole run: parses every source text, then writes the document. One
/// text that is no source file fails the run, and nothing is written.
pub fn run_md(srcs: &Vec<String>, bin: &str, version: &str, repository: &str, now: &str) -> (r:
    Result<String, usize>)
    ensures
        is_document_of(
            srcs.deep_view(),
            bin@,
            version@,
            repository@,
            now@,
            match r {
                Ok(text) => Ok(text@),
                Err(at) => Err(at as int),
            },
        ),
{
    match parse_sources(srcs) {
        Ok(asts) => Ok(emit_md(&asts, bin, version, repository, now)),
        Err(at) => Err(at),
    }
}

/// The markers of a method in the documentation.
pub trait MarkdownMethod {
    /// The receiver of the method.
    spec fn receiver(&self) -> Receiver;

    /// The attributes of the method.
    spec fn attrs(&self) -> Seq<AttrModel>;

    /// The marker by the receiver and the payable mark alone, as if the
    /// method were no initializer.
    fn mut_mod(&self) -> (r: &'static str)
        ensures
            r@ == marker_text(call_role(self.receiver(), self.attrs())),
    ;

    /// The marker and the annotation of the method's role.
    fn mods(&self) -> (r: (&'static str, &'static str))
        ensures
            r.0@ == marker_text(role_of(self.receiver(), self.attrs())),
            r.1@ == suffix_text(role_of(self.receiver(), self.attrs())),
    ;
}

/// The role by the receiver and the payable mark alone.
pub open spec fn call_role(receiver: Receiver, attrs: Seq<AttrModel>) -> Role {
    if receiver is Mutable {
        if attr_present(attrs, "payable"@) {
            Role::PayableCall
        } else {
            Role::Call
        }
    } else {
        Role::View
    }
}

impl MarkdownMethod for Method {
    open spec fn receiver(&self) -> Receiver {
        self@.receiver
    }

    open spec fn attrs(&self) -> Seq<AttrModel> {
        self@.attrs
    }

    fn mut_mod(&self) -> (r: &'static str) {
        match self.receiver {
            Receiver::Mutable => {
                if is_payable(self) {
                    marker(Role::PayableCall)
                } else {
                    marker(Role::Call)
                }
            },
            _ => marker(Role::View),
        }
    }

    fn mods(&self) -> (r: (&'static str, &'static str)) {
        let role = classify(self.receiver, &self.attrs);
        (marker(role), suffix(role))
    }
}

} // verus!
