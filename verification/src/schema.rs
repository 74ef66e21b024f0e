//! The shape of a manifest: how a formula is read out of a document tree.
//!
//! Every reader here comes as a pair: a spec function that says what a tree
//! holds, and the executable function that computes it. A key that the
//! schema does not name is ignored; a key that it names must have the
//! shape it asks for, even where the field is optional.

use vstd::prelude::*;
use crate::document::{
    keys_distinct, lemma_child_tables_distinct, lemma_node_view, tables_distinct, Node, NodeView,
};
use crate::extension::Extension;
use crate::formula::{
    dependency_pairs, opt_text, opt_texts, opt_view, text_pairs, Cask, CaskView, Dependencies,
    DependenciesDetail, DependenciesView, Formula, FormulaView, Package, PackageView, Platform,
    PlatformView, ResourceTarget, ResourceTargetDetail, ResourceTargetExecutable, TargetView,
};
use crate::text::texts;

verus! {

/// The text under a key that must be there.
pub open spec fn text_at(v: NodeView, key: Seq<char>) -> Option<Seq<char>> {
    match v.get(key) {
        Some(NodeView::Text(s)) => Some(s),
        _ => None,
    }
}

/// The text under a key that may be missing: `Some(None)` where it is
/// missing, `None` where the key holds something that is no text.
pub open spec fn opt_text_at(v: NodeView, key: Seq<char>) -> Option<Option<Seq<char>>> {
    match v.get(key) {
        None => Some(None),
        Some(NodeView::Text(s)) => Some(Some(s)),
        Some(_) => None,
    }
}

/// The texts of a list that holds nothing but texts.
pub open spec fn text_list(v: NodeView) -> Option<Seq<Seq<char>>> {
    match v {
        NodeView::List(items) => if forall|i: int| 0 <= i < items.len() ==> items[i] is Text {
            Some(items.map_values(|x: NodeView| x->Text_0))
        } else {
            None
        },
        _ => None,
    }
}

/// The list of texts under a key that may be missing.
pub open spec fn opt_list_at(v: NodeView, key: Seq<char>) -> Option<Option<Seq<Seq<char>>>> {
    match v.get(key) {
        None => Some(None),
        Some(x) => match text_list(x) {
            Some(l) => Some(Some(l)),
            None => None,
        },
    }
}

/// The archive format under a key that may be missing.
pub open spec fn opt_extension_at(v: NodeView, key: Seq<char>) -> Option<Option<Extension>> {
    match v.get(key) {
        None => Some(None),
        Some(NodeView::Text(s)) => match Extension::named(s) {
            Some(e) => Some(Some(e)),
            None => None,
        },
        Some(_) => None,
    }
}

/// A table as a detailed target: it needs a `url`.
pub open spec fn detailed_of(v: NodeView) -> Option<TargetView> {
    if text_at(v, "url"@) is Some && opt_text_at(v, "checksum"@) is Some && opt_extension_at(
        v,
        "extension"@,
    ) is Some && opt_text_at(v, "path"@) is Some {
        Some(
            TargetView::Detailed {
                url: text_at(v, "url"@)->0,
                checksum: opt_text_at(v, "checksum"@)->0,
                extension: opt_extension_at(v, "extension"@)->0,
                path: opt_text_at(v, "path"@)->0,
            },
        )
    } else {
        None
    }
}

/// A table as a bare executable: it needs an `executable`.
pub open spec fn executable_of(v: NodeView) -> Option<TargetView> {
    if text_at(v, "executable"@) is Some && opt_text_at(v, "checksum"@) is Some {
        Some(
            TargetView::Executable {
                executable: text_at(v, "executable"@)->0,
                checksum: opt_text_at(v, "checksum"@)->0,
            },
        )
    } else {
        None
    }
}

/// The target that a value describes. The three shapes are tried in turn:
/// a table that is a valid detailed target is one; else a table that is a
/// valid bare executable is one; else a text is a simple target.
pub open spec fn target_of(v: NodeView) -> Option<TargetView> {
    if detailed_of(v) is Some {
        detailed_of(v)
    } else if executable_of(v) is Some {
        executable_of(v)
    } else {
        match v {
            NodeView::Text(s) => Some(TargetView::Simple(s)),
            _ => None,
        }
    }
}

/// The target under a key that may be missing.
pub open spec fn opt_target_at(v: NodeView, key: Seq<char>) -> Option<Option<TargetView>> {
    match v.get(key) {
        None => Some(None),
        Some(x) => match target_of(x) {
            Some(t) => Some(Some(t)),
            None => None,
        },
    }
}

/// The block of an operating system: a table with a target for any of the
/// nine architectures.
pub open spec fn platform_of(v: NodeView) -> Option<PlatformView> {
    if v is Table && opt_target_at(v, "x86"@) is Some && opt_target_at(v, "x86_64"@) is Some
        && opt_target_at(v, "arm"@) is Some && opt_target_at(v, "armv7"@) is Some && opt_target_at(
        v,
        "aarch64"@,
    ) is Some && opt_target_at(v, "mips"@) is Some && opt_target_at(v, "mips64"@) is Some
        && opt_target_at(v, "mips64el"@) is Some && opt_target_at(v, "riscv64"@) is Some {
        Some(
            PlatformView {
                x86: opt_target_at(v, "x86"@)->0,
                x86_64: opt_target_at(v, "x86_64"@)->0,
                arm: opt_target_at(v, "arm"@)->0,
                armv7: opt_target_at(v, "armv7"@)->0,
                aarch64: opt_target_at(v, "aarch64"@)->0,
                mips: opt_target_at(v, "mips"@)->0,
                mips64: opt_target_at(v, "mips64"@)->0,
                mips64el: opt_target_at(v, "mips64el"@)->0,
                riscv64: opt_target_at(v, "riscv64"@)->0,
            },
        )
    } else {
        None
    }
}

/// The package block: `name`, `bin`, `repository` and `description` must be there.
pub open spec fn package_of(v: NodeView) -> Option<PackageView> {
    if text_at(v, "name"@) is Some && text_at(v, "bin"@) is Some && text_at(v, "repository"@) is Some
        && text_at(v, "description"@) is Some && opt_text_at(v, "version"@) is Some && opt_list_at(
        v,
        "versions"@,
    ) is Some && opt_list_at(v, "authors"@) is Some && opt_list_at(v, "keywords"@) is Some
        && opt_text_at(v, "license"@) is Some {
        Some(
            PackageView {
                name: text_at(v, "name"@)->0,
                bin: text_at(v, "bin"@)->0,
                repository: text_at(v, "repository"@)->0,
                description: text_at(v, "description"@)->0,
                version: opt_text_at(v, "version"@)->0,
                versions: opt_list_at(v, "versions"@)->0,
                authors: opt_list_at(v, "authors"@)->0,
                keywords: opt_list_at(v, "keywords"@)->0,
                license: opt_text_at(v, "license"@)->0,
            },
        )
    } else {
        None
    }
}

/// The record of an install: the name stands under `package_name`.
pub open spec fn cask_of(v: NodeView) -> Option<CaskView> {
    if text_at(v, "package_name"@) is Some && text_at(v, "created_at"@) is Some && text_at(
        v,
        "version"@,
    ) is Some && text_at(v, "repository"@) is Some {
        Some(
            CaskView {
                name: text_at(v, "package_name"@)->0,
                created_at: text_at(v, "created_at"@)->0,
                version: text_at(v, "version"@)->0,
                repository: text_at(v, "repository"@)->0,
            },
        )
    } else {
        None
    }
}

/// The names for the renderer: a table that holds nothing but texts.
pub open spec fn context_of(v: NodeView) -> Option<Seq<(Seq<char>, Seq<char>)>> {
    match v {
        NodeView::Table(entries) => if forall|i: int|
            0 <= i < entries.len() ==> (#[trigger] entries[i]).1 is Text {
            Some(entries.map_values(|e: (Seq<char>, NodeView)| (e.0, e.1->Text_0)))
        } else {
            None
        },
        _ => None,
    }
}

/// One dependency: a text is a bare version, anything else must be a
/// record with a `version`.
pub open spec fn dependency_of(v: NodeView) -> Option<DependenciesView> {
    match v {
        NodeView::Text(s) => Some(DependenciesView::Simple(s)),
        _ => match text_at(v, "version"@) {
            Some(s) => Some(DependenciesView::Detail(s)),
            None => None,
        },
    }
}

/// The dependencies: a table of them by package.
pub open spec fn dependencies_of(v: NodeView) -> Option<Seq<(Seq<char>, DependenciesView)>> {
    match v {
        NodeView::Table(entries) => if forall|i: int|
            0 <= i < entries.len() ==> dependency_of((#[trigger] entries[i]).1) is Some {
            Some(entries.map_values(|e: (Seq<char>, NodeView)| (e.0, dependency_of(e.1)->0)))
        } else {
            None
        },
        _ => None,
    }
}

/// The platform block under a key that may be missing.
pub open spec fn opt_platform_at(v: NodeView, key: Seq<char>) -> Option<Option<PlatformView>> {
    match v.get(key) {
        None => Some(None),
        Some(x) => match platform_of(x) {
            Some(p) => Some(Some(p)),
            None => None,
        },
    }
}

/// The install record under `cask`, which may be missing.
pub open spec fn opt_cask_in(v: NodeView) -> Option<Option<CaskView>> {
    match v.get("cask"@) {
        None => Some(None),
        Some(x) => match cask_of(x) {
            Some(c) => Some(Some(c)),
            None => None,
        },
    }
}

/// The renderer's names under `context`, which may be missing.
pub open spec fn opt_context_in(v: NodeView) -> Option<Option<Seq<(Seq<char>, Seq<char>)>>> {
    match v.get("context"@) {
        None => Some(None),
        Some(x) => match context_of(x) {
            Some(c) => Some(Some(c)),
            None => None,
        },
    }
}

/// The dependencies under `dependencies`, which may be missing.
pub open spec fn opt_dependencies_in(v: NodeView) -> Option<
    Option<Seq<(Seq<char>, DependenciesView)>>,
> {
    match v.get("dependencies"@) {
        None => Some(None),
        Some(x) => match dependencies_of(x) {
            Some(d) => Some(Some(d)),
            None => None,
        },
    }
}

/// The package block under `package`, which must be there.
pub open spec fn package_in(v: NodeView) -> Option<PackageView> {
    match v.get("package"@) {
        Some(x) => package_of(x),
        None => None,
    }
}

/// The formula that a document holds, with the text it was read from, the
/// place of the file and the repository it came from; `None` where the
/// document does not fit the schema.
pub open spec fn formula_of(
    doc: NodeView,
    file_content: Seq<char>,
    filepath: Seq<char>,
    repository: Seq<char>,
) -> Option<FormulaView> {
    if package_in(doc) is Some && opt_cask_in(doc) is Some && opt_context_in(doc) is Some
        && opt_platform_at(doc, "windows"@) is Some && opt_platform_at(doc, "darwin"@) is Some
        && opt_platform_at(doc, "linux"@) is Some && opt_dependencies_in(doc) is Some {
        Some(
            FormulaView {
                file_content,
                repository,
                filepath,
                cask: opt_cask_in(doc)->0,
                package: package_in(doc)->0,
                context: opt_context_in(doc)->0,
                windows: opt_platform_at(doc, "windows"@)->0,
                darwin: opt_platform_at(doc, "darwin"@)->0,
                linux: opt_platform_at(doc, "linux"@)->0,
                dependencies: opt_dependencies_in(doc)->0,
                hook: doc.get("hook"@),
            },
        )
    } else {
        None
    }
}

/// A document whose tables name each key once holds a well-formed formula.
pub proof fn lemma_formula_of_well_formed(
    doc: NodeView,
    file_content: Seq<char>,
    filepath: Seq<char>,
    repository: Seq<char>,
)
    requires
        tables_distinct(doc),
        formula_of(doc, file_content, filepath, repository) is Some,
    ensures
        formula_of(doc, file_content, filepath, repository)->0.well_formed(),
{
    let f = formula_of(doc, file_content, filepath, repository)->0;
    if doc.get("context"@) is Some {
        lemma_child_tables_distinct(doc, "context"@);
        let entries = doc.get("context"@)->0->Table_0;
        assert(keys_distinct(f.context->0)) by {
            assert forall|i: int, j: int| 0 <= i < j < f.context->0.len() implies (
            #[trigger] f.context->0[i]).0 != (#[trigger] f.context->0[j]).0 by {
                assert(entries[i].0 != entries[j].0);
            }
        }
    }
    if doc.get("dependencies"@) is Some {
        lemma_child_tables_distinct(doc, "dependencies"@);
        let entries = doc.get("dependencies"@)->0->Table_0;
        assert(keys_distinct(f.dependencies->0)) by {
            assert forall|i: int, j: int| 0 <= i < j < f.dependencies->0.len() implies (
            #[trigger] f.dependencies->0[i]).0 != (#[trigger] f.dependencies->0[j]).0 by {
                assert(entries[i].0 != entries[j].0);
            }
        }
    }
    if doc.get("hook"@) is Some {
        lemma_child_tables_distinct(doc, "hook"@);
    }
}

fn read_text(v: &Node, key: &str) -> (r: Option<String>)
    ensures
        opt_text(r) == text_at(v@, key@),
{
    match v.get(key) {
        Some(Node::Text(s)) => Some(s.clone()),
        _ => None,
    }
}

fn read_opt_text(v: &Node, key: &str) -> (r: Option<Option<String>>)
    ensures
        match r {
            Some(o) => opt_text_at(v@, key@) == Some(opt_text(o)),
            None => opt_text_at(v@, key@) is None,
        },
{
    match v.get(key) {
        None => Some(None),
        Some(Node::Text(s)) => Some(Some(s.clone())),
        Some(_) => None,
    }
}

fn read_list(v: &Node) -> (r: Option<Vec<String>>)
    ensures
        opt_texts(r) == text_list(v@),
{
    match v {
        Node::List(items) => {
            let mut out: Vec<String> = Vec::new();
            let mut i: usize = 0;
            while i < items.len()
                invariant
                    i <= items.len(),
                    out.len() == i,
                    *v == Node::List(*items),
                    forall|k: int| 0 <= k < i ==> (#[trigger] v@->List_0[k]) is Text,
                    forall|k: int| 0 <= k < i ==> out[k]@ == v@->List_0[k]->Text_0,
                decreases items.len() - i,
            {
                proof {
                    lemma_node_view(*v);
                    lemma_node_view(items[i as int]);
                }
                match &items[i] {
                    Node::Text(s) => {
                        out.push(s.clone());
                    },
                    _ => {
                        assert(!(v@->List_0[i as int] is Text));
                        return None;
                    },
                }
                i += 1;
            }
            assert(texts(out@) =~= v@->List_0.map_values(|x: NodeView| x->Text_0));
            Some(out)
        },
        _ => None,
    }
}

fn read_opt_list(v: &Node, key: &str) -> (r: Option<Option<Vec<String>>>)
    ensures
        match r {
            Some(o) => opt_list_at(v@, key@) == Some(opt_texts(o)),
            None => opt_list_at(v@, key@) is None,
        },
{
    match v.get(key) {
        None => Some(None),
        Some(x) => match read_list(x) {
            Some(l) => Some(Some(l)),
            None => None,
        },
    }
}

fn read_opt_extension(v: &Node, key: &str) -> (r: Option<Option<Extension>>)
    ensures
        r == opt_extension_at(v@, key@),
{
    match v.get(key) {
        None => Some(None),
        Some(Node::Text(s)) => match Extension::from_text(s.as_str()) {
            Some(e) => Some(Some(e)),
            None => None,
        },
        Some(_) => None,
    }
}

fn read_detailed(v: &Node) -> (r: Option<ResourceTargetDetail>)
    ensures
        opt_view(r) == detailed_of(v@),
{
    let url = match read_text(v, "url") {
        Some(s) => s,
        None => return None,
    };
    let checksum = match read_opt_text(v, "checksum") {
        Some(o) => o,
        None => return None,
    };
    let extension = match read_opt_extension(v, "extension") {
        Some(o) => o,
        None => return None,
    };
    let path = match read_opt_text(v, "path") {
        Some(o) => o,
        None => return None,
    };
    Some(ResourceTargetDetail { url, checksum, extension, path })
}

fn read_executable(v: &Node) -> (r: Option<ResourceTargetExecutable>)
    ensures
        opt_view(r) == executable_of(v@),
{
    let executable = match read_text(v, "executable") {
        Some(s) => s,
        None => return None,
    };
    let checksum = match read_opt_text(v, "checksum") {
        Some(o) => o,
        None => return None,
    };
    Some(ResourceTargetExecutable { executable, checksum })
}

/// Reads the target that a value describes.
pub fn read_target(v: &Node) -> (r: Option<ResourceTarget>)
    ensures
        opt_view(r) == target_of(v@),
{
    if let Some(d) = read_detailed(v) {
        return Some(ResourceTarget::Detailed(d));
    }
    if let Some(e) = read_executable(v) {
        return Some(ResourceTarget::Executable(e));
    }
    match v {
        Node::Text(s) => Some(ResourceTarget::Simple(s.clone())),
        _ => None,
    }
}

fn read_opt_target(v: &Node, key: &str) -> (r: Option<Option<ResourceTarget>>)
    ensures
        match r {
            Some(o) => opt_target_at(v@, key@) == Some(opt_view(o)),
            None => opt_target_at(v@, key@) is None,
        },
{
    match v.get(key) {
        None => Some(None),
        Some(x) => match read_target(x) {
            Some(t) => Some(Some(t)),
            None => None,
        },
    }
}

/// Reads the block of an operating system.
pub fn read_platform(v: &Node) -> (r: Option<Platform>)
    ensures
        opt_view(r) == platform_of(v@),
{
    match v {
        Node::Table(_) => {},
        _ => {
            return None;
        },
    }
    let x86 = match read_opt_target(v, "x86") {
        Some(o) => o,
        None => return None,
    };
    let x86_64 = match read_opt_target(v, "x86_64") {
        Some(o) => o,
        None => return None,
    };
    let arm = match read_opt_target(v, "arm") {
        Some(o) => o,
        None => return None,
    };
    let armv7 = match read_opt_target(v, "armv7") {
        Some(o) => o,
        None => return None,
    };
    let aarch64 = match read_opt_target(v, "aarch64") {
        Some(o) => o,
        None => return None,
    };
    let mips = match read_opt_target(v, "mips") {
        Some(o) => o,
        None => return None,
    };
    let mips64 = match read_opt_target(v, "mips64") {
        Some(o) => o,
        None => return None,
    };
    let mips64el = match read_opt_target(v, "mips64el") {
        Some(o) => o,
        None => return None,
    };
    let riscv64 = match read_opt_target(v, "riscv64") {
        Some(o) => o,
        None => return None,
    };
    Some(Platform { x86, x86_64, arm, armv7, aarch64, mips, mips64, mips64el, riscv64 })
}

/// Reads the package block.
pub fn read_package(v: &Node) -> (r: Option<Package>)
    ensures
        opt_view(r) == package_of(v@),
{
    let name = match read_text(v, "name") {
        Some(s) => s,
        None => return None,
    };
    let bin = match read_text(v, "bin") {
        Some(s) => s,
        None => return None,
    };
    let repository = match read_text(v, "repository") {
        Some(s) => s,
        None => return None,
    };
    let description = match read_text(v, "description") {
        Some(s) => s,
        None => return None,
    };
    let version = match read_opt_text(v, "version") {
        Some(o) => o,
        None => return None,
    };
    let versions = match read_opt_list(v, "versions") {
        Some(o) => o,
        None => return None,
    };
    let authors = match read_opt_list(v, "authors") {
        Some(o) => o,
        None => return None,
    };
    let keywords = match read_opt_list(v, "keywords") {
        Some(o) => o,
        None => return None,
    };
    let license = match read_opt_text(v, "license") {
        Some(o) => o,
        None => return None,
    };
    Some(
        Package { name, bin, repository, description, version, versions, authors, keywords, license },
    )
}

/// Reads the record of an install.
pub fn read_cask(v: &Node) -> (r: Option<Cask>)
    ensures
        opt_view(r) == cask_of(v@),
{
    let name = match read_text(v, "package_name") {
        Some(s) => s,
        None => return None,
    };
    let created_at = match read_text(v, "created_at") {
        Some(s) => s,
        None => return None,
    };
    let version = match read_text(v, "version") {
        Some(s) => s,
        None => return None,
    };
    let repository = match read_text(v, "repository") {
        Some(s) => s,
        None => return None,
    };
    Some(Cask { name, created_at, version, repository })
}

/// Reads the names for the renderer.
pub fn read_context(v: &Node) -> (r: Option<Vec<(String, String)>>)
    ensures
        match r {
            Some(c) => context_of(v@) == Some(text_pairs(c@)),
            None => context_of(v@) is None,
        },
{
    match v {
        Node::Table(entries) => {
            let mut out: Vec<(String, String)> = Vec::new();
            let mut i: usize = 0;
            while i < entries.len()
                invariant
                    i <= entries.len(),
                    out.len() == i,
                    *v == Node::Table(*entries),
                    forall|k: int| 0 <= k < i ==> (#[trigger] v@->Table_0[k]).1 is Text,
                    forall|k: int|
                        0 <= k < i ==> out[k].0@ == v@->Table_0[k].0 && out[k].1@
                            == v@->Table_0[k].1->Text_0,
                decreases entries.len() - i,
            {
                proof {
                    lemma_node_view(*v);
                    lemma_node_view(entries[i as int].1);
                }
                match &entries[i].1 {
                    Node::Text(s) => {
                        out.push((entries[i].0.clone(), s.clone()));
                    },
                    _ => {
                        assert(!(v@->Table_0[i as int].1 is Text));
                        return None;
                    },
                }
                i += 1;
            }
            assert(text_pairs(out@) =~= v@->Table_0.map_values(
                |e: (Seq<char>, NodeView)| (e.0, e.1->Text_0),
            ));
            Some(out)
        },
        _ => None,
    }
}

fn read_dependency(v: &Node) -> (r: Option<Dependencies>)
    ensures
        opt_view(r) == dependency_of(v@),
{
    match v {
        Node::Text(s) => Some(Dependencies::Simple(s.clone())),
        _ => match read_text(v, "version") {
            Some(version) => Some(Dependencies::Detail(DependenciesDetail { version })),
            None => None,
        },
    }
}

/// Reads the dependencies.
pub fn read_dependencies(v: &Node) -> (r: Option<Vec<(String, Dependencies)>>)
    ensures
        match r {
            Some(d) => dependencies_of(v@) == Some(dependency_pairs(d@)),
            None => dependencies_of(v@) is None,
        },
{
    match v {
        Node::Table(entries) => {
            let mut out: Vec<(String, Dependencies)> = Vec::new();
            let mut i: usize = 0;
            while i < entries.len()
                invariant
                    i <= entries.len(),
                    out.len() == i,
                    *v == Node::Table(*entries),
                    forall|k: int|
                        0 <= k < i ==> dependency_of((#[trigger] v@->Table_0[k]).1) is Some,
                    forall|k: int|
                        0 <= k < i ==> out[k].0@ == v@->Table_0[k].0 && out[k].1@
                            == dependency_of(v@->Table_0[k].1)->0,
                decreases entries.len() - i,
            {
                proof {
                    lemma_node_view(*v);
                }
                match read_dependency(&entries[i].1) {
                    Some(d) => {
                        out.push((entries[i].0.clone(), d));
                    },
                    None => {
                        assert(dependency_of(v@->Table_0[i as int].1) is None);
                        return None;
                    },
                }
                i += 1;
            }
            assert(dependency_pairs(out@) =~= v@->Table_0.map_values(
                |e: (Seq<char>, NodeView)| (e.0, dependency_of(e.1)->0),
            ));
            Some(out)
        },
        _ => None,
    }
}

fn read_opt_platform(v: &Node, key: &str) -> (r: Option<Option<Platform>>)
    ensures
        match r {
            Some(o) => opt_platform_at(v@, key@) == Some(opt_view(o)),
            None => opt_platform_at(v@, key@) is None,
        },
{
    match v.get(key) {
        None => Some(None),
        Some(x) => match read_platform(x) {
            Some(p) => Some(Some(p)),
            None => None,
        },
    }
}

/// Reads a formula out of a document. The text, the place of the file and
/// the repository are taken over as they are given.
pub fn read_formula(doc: &Node, file_content: String, filepath: &str, repository: &str) -> (r:
    Option<Formula>)
    ensures
        opt_view(r) == formula_of(doc@, file_content@, filepath@, repository@),
        tables_distinct(doc@) ==> (r matches Some(f) ==> f@.well_formed()),
{
    proof {
        if tables_distinct(doc@) && formula_of(doc@, file_content@, filepath@, repository@) is Some {
            lemma_formula_of_well_formed(doc@, file_content@, filepath@, repository@);
        }
    }
    let package = match doc.get("package") {
        Some(x) => match read_package(x) {
            Some(p) => p,
            None => return None,
        },
        None => return None,
    };
    let cask = match doc.get("cask") {
        None => None,
        Some(x) => match read_cask(x) {
            Some(c) => Some(c),
            None => return None,
        },
    };
    let context = match doc.get("context") {
        None => None,
        Some(x) => match read_context(x) {
            Some(c) => Some(c),
            None => return None,
        },
    };
    let windows = match read_opt_platform(doc, "windows") {
        Some(o) => o,
        None => return None,
    };
    let darwin = match read_opt_platform(doc, "darwin") {
        Some(o) => o,
        None => return None,
    };
    let linux = match read_opt_platform(doc, "linux") {
        Some(o) => o,
        None => return None,
    };
    let dependencies = match doc.get("dependencies") {
        None => None,
        Some(x) => match read_dependencies(x) {
            Some(d) => Some(d),
            None => return None,
        },
    };
    let hook = match doc.get("hook") {
        None => None,
        Some(x) => Some(x.duplicate()),
    };
    Some(
        Formula {
            file_content,
            repository: String::from_str(repository),
            filepath: String::from_str(filepath),
            cask,
            package,
            context,
            windows,
            darwin,
            linux,
            dependencies,
            hook,
        },
    )
}

} // verus!
