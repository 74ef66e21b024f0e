//! The formula: the manifest of a package, its targets and its versions.

use vstd::prelude::*;
use crate::address::{last_segment, url_of, Address, AddressView};
use crate::document::{keys_distinct, parse, tables_distinct, toml_document, Node, NodeView};
use crate::error::{CaskError, ErrorKind};
use crate::extension::Extension;
use crate::host::{Arch, Host, Os};
pub use crate::resolver::{fetch, fetch_with_git_url, find_package_in_build_in, get_formula_git_url};
use crate::schema::{formula_of, read_formula};
use crate::store::{read_stored_manifest, stored_parts};
use crate::template::{context_for, expanded, render, template_context};
use crate::text::{clone_texts, is_space, lemma_trimmed_empty, str_eq, texts, trim, trimmed};

verus! {

/// The text of an optional string.
pub open spec fn opt_text(o: Option<String>) -> Option<Seq<char>> {
    match o {
        Some(s) => Some(s@),
        None => None,
    }
}

/// The texts of an optional list of strings.
pub open spec fn opt_texts(o: Option<Vec<String>>) -> Option<Seq<Seq<char>>> {
    match o {
        Some(v) => Some(texts(v@)),
        None => None,
    }
}

/// The view of an optional value.
pub open spec fn opt_view<T: View>(o: Option<T>) -> Option<T::V> {
    match o {
        Some(x) => Some(x@),
        None => None,
    }
}

/// The texts of a list of pairs of strings.
pub open spec fn text_pairs(v: Seq<(String, String)>) -> Seq<(Seq<char>, Seq<char>)> {
    v.map_values(|p: (String, String)| (p.0@, p.1@))
}

/// The parsed manifest of a package.
#[derive(Debug)]
pub struct Formula {
    /// The text of the manifest, as it was read.
    pub file_content: String,
    /// The repository that the manifest was cloned from; empty for a built-in one.
    pub repository: String,
    /// Where the manifest was read.
    pub filepath: String,
    /// What was recorded at install time; only an installed manifest has it.
    pub cask: Option<Cask>,
    pub package: Package,
    /// Names for the template renderer, each with its text.
    pub context: Option<Vec<(String, String)>>,
    pub windows: Option<Platform>,
    pub darwin: Option<Platform>,
    pub linux: Option<Platform>,
    /// Reserved: other packages by name; nothing acts on it.
    pub dependencies: Option<Vec<(String, Dependencies)>>,
    /// The hooks, kept as they stand in the document.
    pub hook: Option<Node>,
}

/// What an install records about itself.
#[derive(Debug)]
pub struct Cask {
    pub name: String,
    pub created_at: String,
    pub version: String,
    pub repository: String,
}

/// A dependency: a version, bare or inside a record.
#[derive(Debug)]
pub enum Dependencies {
    Detail(DependenciesDetail),
    Simple(String),
}

#[derive(Debug)]
pub struct DependenciesDetail {
    pub version: String,
}

/// What a manifest says of its package.
#[derive(Debug)]
pub struct Package {
    pub name: String,
    /// The base name of the executable.
    pub bin: String,
    pub repository: String,
    pub description: String,
    /// The version to install where none is asked for.
    pub version: Option<String>,
    /// The versions on offer, newest first.
    pub versions: Option<Vec<String>>,
    pub authors: Option<Vec<String>>,
    pub keywords: Option<Vec<String>>,
    pub license: Option<String>,
}

/// The artifacts of one operating system, by architecture.
#[derive(Debug)]
pub struct Platform {
    pub x86: Option<ResourceTarget>,
    pub x86_64: Option<ResourceTarget>,
    pub arm: Option<ResourceTarget>,
    pub armv7: Option<ResourceTarget>,
    pub aarch64: Option<ResourceTarget>,
    pub mips: Option<ResourceTarget>,
    pub mips64: Option<ResourceTarget>,
    pub mips64el: Option<ResourceTarget>,
    pub riscv64: Option<ResourceTarget>,
}

/// Where the artifact for one host comes from.
#[derive(Debug)]
pub enum ResourceTarget {
    /// An archive, with what is known of it.
    Detailed(ResourceTargetDetail),
    /// The executable itself.
    Executable(ResourceTargetExecutable),
    /// The template of an archive's URL, and nothing else.
    Simple(String),
}

#[derive(Debug)]
pub struct ResourceTargetDetail {
    /// The template of the URL.
    pub url: String,
    /// The SHA-256 of the artifact, in hexadecimal.
    pub checksum: Option<String>,
    pub extension: Option<Extension>,
    /// The template of the directory inside the archive that holds the executable.
    pub path: Option<String>,
}

#[derive(Debug)]
pub struct ResourceTargetExecutable {
    /// The template of the URL of the executable.
    pub executable: String,
    /// The SHA-256 of the artifact, in hexadecimal.
    pub checksum: Option<String>,
}

/// What to download for one host and version, with every template expanded.
#[derive(Debug)]
pub struct DownloadTarget {
    pub url: String,
    /// The directory inside the archive that holds the executable.
    pub path: String,
    pub checksum: Option<String>,
    /// The extension of the artifact's file; empty for a bare executable on a POSIX host.
    pub ext: String,
    /// Whether the artifact is the executable itself and no archive.
    pub executable: bool,
}

pub struct CaskView {
    pub name: Seq<char>,
    pub created_at: Seq<char>,
    pub version: Seq<char>,
    pub repository: Seq<char>,
}

pub enum DependenciesView {
    Detail(Seq<char>),
    Simple(Seq<char>),
}

pub struct PackageView {
    pub name: Seq<char>,
    pub bin: Seq<char>,
    pub repository: Seq<char>,
    pub description: Seq<char>,
    pub version: Option<Seq<char>>,
    pub versions: Option<Seq<Seq<char>>>,
    pub authors: Option<Seq<Seq<char>>>,
    pub keywords: Option<Seq<Seq<char>>>,
    pub license: Option<Seq<char>>,
}

pub enum TargetView {
    Detailed {
        url: Seq<char>,
        checksum: Option<Seq<char>>,
        extension: Option<Extension>,
        path: Option<Seq<char>>,
    },
    Executable { executable: Seq<char>, checksum: Option<Seq<char>> },
    Simple(Seq<char>),
}

pub struct PlatformView {
    pub x86: Option<TargetView>,
    pub x86_64: Option<TargetView>,
    pub arm: Option<TargetView>,
    pub armv7: Option<TargetView>,
    pub aarch64: Option<TargetView>,
    pub mips: Option<TargetView>,
    pub mips64: Option<TargetView>,
    pub mips64el: Option<TargetView>,
    pub riscv64: Option<TargetView>,
}

pub struct FormulaView {
    pub file_content: Seq<char>,
    pub repository: Seq<char>,
    pub filepath: Seq<char>,
    pub cask: Option<CaskView>,
    pub package: PackageView,
    pub context: Option<Seq<(Seq<char>, Seq<char>)>>,
    pub windows: Option<PlatformView>,
    pub darwin: Option<PlatformView>,
    pub linux: Option<PlatformView>,
    pub dependencies: Option<Seq<(Seq<char>, DependenciesView)>>,
    pub hook: Option<NodeView>,
}

pub struct DownloadTargetView {
    pub url: Seq<char>,
    pub path: Seq<char>,
    pub checksum: Option<Seq<char>>,
    pub ext: Seq<char>,
    pub executable: bool,
}

impl View for Cask {
    type V = CaskView;

    open spec fn view(&self) -> CaskView {
        CaskView {
            name: self.name@,
            created_at: self.created_at@,
            version: self.version@,
            repository: self.repository@,
        }
    }
}

impl View for DependenciesDetail {
    type V = Seq<char>;

    open spec fn view(&self) -> Seq<char> {
        self.version@
    }
}

impl View for Dependencies {
    type V = DependenciesView;

    open spec fn view(&self) -> DependenciesView {
        match self {
            Dependencies::Detail(d) => DependenciesView::Detail(d.version@),
            Dependencies::Simple(s) => DependenciesView::Simple(s@),
        }
    }
}

impl View for Package {
    type V = PackageView;

    open spec fn view(&self) -> PackageView {
        PackageView {
            name: self.name@,
            bin: self.bin@,
            repository: self.repository@,
            description: self.description@,
            version: opt_text(self.version),
            versions: opt_texts(self.versions),
            authors: opt_texts(self.authors),
            keywords: opt_texts(self.keywords),
            license: opt_text(self.license),
        }
    }
}

impl View for ResourceTargetDetail {
    type V = TargetView;

    open spec fn view(&self) -> TargetView {
        TargetView::Detailed {
            url: self.url@,
            checksum: opt_text(self.checksum),
            extension: self.extension,
            path: opt_text(self.path),
        }
    }
}

impl View for ResourceTargetExecutable {
    type V = TargetView;

    open spec fn view(&self) -> TargetView {
        TargetView::Executable { executable: self.executable@, checksum: opt_text(self.checksum) }
    }
}

impl View for ResourceTarget {
    type V = TargetView;

    open spec fn view(&self) -> TargetView {
        match self {
            ResourceTarget::Detailed(d) => d@,
            ResourceTarget::Executable(e) => e@,
            ResourceTarget::Simple(s) => TargetView::Simple(s@),
        }
    }
}

impl View for Platform {
    type V = PlatformView;

    open spec fn view(&self) -> PlatformView {
        PlatformView {
            x86: opt_view(self.x86),
            x86_64: opt_view(self.x86_64),
            arm: opt_view(self.arm),
            armv7: opt_view(self.armv7),
            aarch64: opt_view(self.aarch64),
            mips: opt_view(self.mips),
            mips64: opt_view(self.mips64),
            mips64el: opt_view(self.mips64el),
            riscv64: opt_view(self.riscv64),
        }
    }
}

/// The views of a list of dependencies by name.
pub open spec fn dependency_pairs(v: Seq<(String, Dependencies)>) -> Seq<
    (Seq<char>, DependenciesView),
> {
    v.map_values(|p: (String, Dependencies)| (p.0@, p.1@))
}

impl View for Formula {
    type V = FormulaView;

    open spec fn view(&self) -> FormulaView {
        FormulaView {
            file_content: self.file_content@,
            repository: self.repository@,
            filepath: self.filepath@,
            cask: opt_view(self.cask),
            package: self.package@,
            context: match self.context {
                Some(c) => Some(text_pairs(c@)),
                None => None,
            },
            windows: opt_view(self.windows),
            darwin: opt_view(self.darwin),
            linux: opt_view(self.linux),
            dependencies: match self.dependencies {
                Some(d) => Some(dependency_pairs(d@)),
                None => None,
            },
            hook: opt_view(self.hook),
        }
    }
}

impl View for DownloadTarget {
    type V = DownloadTargetView;

    open spec fn view(&self) -> DownloadTargetView {
        DownloadTargetView {
            url: self.url@,
            path: self.path@,
            checksum: opt_text(self.checksum),
            ext: self.ext@,
            executable: self.executable,
        }
    }
}

impl PlatformView {
    /// The artifact for an architecture.
    pub open spec fn target(self, arch: Arch) -> Option<TargetView> {
        match arch {
            Arch::X86 => self.x86,
            Arch::X86_64 => self.x86_64,
            Arch::Arm => self.arm,
            Arch::Armv7 => self.armv7,
            Arch::Aarch64 => self.aarch64,
            Arch::Mips => self.mips,
            Arch::Mips64 => self.mips64,
            Arch::Mips64el => self.mips64el,
            Arch::Riscv64 => self.riscv64,
            Arch::Other => None,
        }
    }
}

impl FormulaView {
    /// Whether the formula is one that a manifest can hold: no name of the
    /// context and no dependency occurs twice, and no table of the hooks
    /// has a key twice.
    pub open spec fn well_formed(self) -> bool {
        &&& self.context matches Some(c) ==> keys_distinct(c)
        &&& self.dependencies matches Some(d) ==> keys_distinct(d)
        &&& self.hook matches Some(h) ==> tables_distinct(h)
    }

    /// Whether the package of the formula is the one that its text holds.
    pub open spec fn true_to_text(self) -> bool {
        loaded(Some(self.file_content), self.filepath, self.repository) matches Ok(g)
            && g.package == self.package
    }

    /// The block of an operating system: `darwin` for macOS, and the
    /// blocks of their own name for Windows and Linux.
    pub open spec fn platform(self, os: Os) -> Option<PlatformView> {
        match os {
            Os::Macos => self.darwin,
            Os::Windows => self.windows,
            Os::Linux => self.linux,
            Os::Other => None,
        }
    }

    /// The one artifact that a host selects: the entry of its architecture
    /// in the block of its operating system.
    pub open spec fn target(self, host: Host) -> Option<TargetView> {
        match self.platform(host.os) {
            Some(p) => p.target(host.arch),
            None => None,
        }
    }
}

impl Platform {
    /// The artifact for an architecture.
    pub fn target(&self, arch: Arch) -> (r: Option<&ResourceTarget>)
        ensures
            opt_view(r) == self@.target(arch),
    {
        match arch {
            Arch::X86 => self.x86.as_ref(),
            Arch::X86_64 => self.x86_64.as_ref(),
            Arch::Arm => self.arm.as_ref(),
            Arch::Armv7 => self.armv7.as_ref(),
            Arch::Aarch64 => self.aarch64.as_ref(),
            Arch::Mips => self.mips.as_ref(),
            Arch::Mips64 => self.mips64.as_ref(),
            Arch::Mips64el => self.mips64el.as_ref(),
            Arch::Riscv64 => self.riscv64.as_ref(),
            Arch::Other => None,
        }
    }
}

impl Formula {
    /// The block of the host's operating system.
    pub fn get_current_os(&self, os: Os) -> (r: Option<&Platform>)
        ensures
            opt_view(r) == self@.platform(os),
    {
        match os {
            Os::Macos => self.darwin.as_ref(),
            Os::Windows => self.windows.as_ref(),
            Os::Linux => self.linux.as_ref(),
            Os::Other => None,
        }
    }

    /// The artifact that the host selects, if the manifest has one for it.
    pub fn get_current_arch(&self, host: Host) -> (r: Option<&ResourceTarget>)
        ensures
            opt_view(r) == self@.target(host),
    {
        match self.get_current_os(host.os) {
            Some(platform) => platform.target(host.arch),
            None => None,
        }
    }

    /// The text of the manifest, exactly as it was read.
    pub fn get_file_content(&self) -> (r: String)
        ensures
            r@ == self@.file_content,
    {
        self.file_content.clone()
    }
}

/// What loading a manifest gives. `file_content` is what reading the file
/// gave: `None` where there is no file, which is the failure `NotFound`.
/// A text that is no well-formed document is a parse error, and a document
/// that does not fit the schema is a schema error; any other text gives
/// the formula that its document holds.
pub open spec fn loaded(
    file_content: Option<Seq<char>>,
    filepath: Seq<char>,
    repository: Seq<char>,
) -> Result<FormulaView, ErrorKind> {
    match file_content {
        None => Err(ErrorKind::NotFound),
        Some(text) => match toml_document(text) {
            None => Err(ErrorKind::ParseError),
            Some(doc) => match formula_of(doc, text, filepath, repository) {
                Some(f) => Ok(f),
                None => Err(ErrorKind::SchemaError),
            },
        },
    }
}

/// Loads the manifest at `formula_file`, which came from the repository
/// `repo`. `file_content` is the text of the file, and `None` where no
/// file is there.
pub fn new(formula_file: &str, file_content: Option<String>, repo: &str) -> (r: Result<
    Formula,
    CaskError,
>)
    ensures
        match r {
            Ok(f) => {
                &&& loaded(opt_text(file_content), formula_file@, repo@) == Ok::<
                    FormulaView,
                    ErrorKind,
                >(f@)
                &&& Some(f@.file_content) == opt_text(file_content)
                &&& f@.filepath == formula_file@
                &&& f@.repository == repo@
                &&& f@.well_formed()
                &&& f@.true_to_text()
            },
            Err(e) => {
                &&& loaded(opt_text(file_content), formula_file@, repo@) == Err::<
                    FormulaView,
                    ErrorKind,
                >(e@.kind)
                &&& e@.subject == formula_file@
            },
        },
{
    let text = match file_content {
        Some(text) => text,
        None => {
            return Err(CaskError::new(ErrorKind::NotFound, formula_file));
        },
    };
    let doc = match parse(text.as_str()) {
        Some(doc) => doc,
        None => {
            return Err(CaskError::new(ErrorKind::ParseError, formula_file));
        },
    };
    match read_formula(&doc, text, formula_file, repo) {
        Some(f) => Ok(f),
        None => Err(CaskError::new(ErrorKind::SchemaError, formula_file)),
    }
}

/// What reading an installed manifest gives: the formula that the
/// manifest behind the generated block holds, with the record of that
/// block as its install record. A text without a generated block does not
/// fit the schema of an installed manifest.
pub open spec fn reloaded(
    file_content: Option<Seq<char>>,
    filepath: Seq<char>,
    repository: Seq<char>,
) -> Result<FormulaView, ErrorKind> {
    match file_content {
        None => Err(ErrorKind::NotFound),
        Some(text) => match stored_parts(text) {
            None => Err(ErrorKind::SchemaError),
            Some(parts) => match loaded(Some(parts.1), filepath, repository) {
                Ok(f) => Ok(FormulaView { cask: Some(parts.0), ..f }),
                Err(kind) => Err(kind),
            },
        },
    }
}

/// Loads the stored manifest of an installed package: `file_content` is
/// the text of `Cask.toml` in the package's directory, and `None` where
/// no file is there.
pub fn load_installed(formula_file: &str, file_content: Option<String>, repo: &str) -> (r: Result<
    Formula,
    CaskError,
>)
    ensures
        match r {
            Ok(f) => {
                &&& reloaded(opt_text(file_content), formula_file@, repo@) == Ok::<
                    FormulaView,
                    ErrorKind,
                >(f@)
                &&& f@.cask is Some
                &&& f@.well_formed()
                &&& f@.true_to_text()
            },
            Err(e) => {
                &&& reloaded(opt_text(file_content), formula_file@, repo@) == Err::<
                    FormulaView,
                    ErrorKind,
                >(e@.kind)
                &&& e@.subject == formula_file@
            },
        },
{
    let text = match file_content {
        Some(text) => text,
        None => {
            return Err(CaskError::new(ErrorKind::NotFound, formula_file));
        },
    };
    let (record, body) = match read_stored_manifest(text.as_str()) {
        Some(parts) => parts,
        None => {
            return Err(CaskError::new(ErrorKind::SchemaError, formula_file));
        },
    };
    match new(formula_file, Some(body), repo) {
        Ok(f) => {
            let mut installed = f;
            installed.cask = Some(record);
            Ok(installed)
        },
        Err(e) => Err(e),
    }
}

/// The versions that a package lists; none where it has no list.
pub open spec fn listed_versions(p: PackageView) -> Seq<Seq<char>> {
    match p.versions {
        Some(v) => v,
        None => Seq::empty(),
    }
}

/// The version to install. A version that is asked for, or else the
/// package's default, must be among the listed versions. Without either,
/// the first listed version is taken, and where none is listed, the first
/// tag of the repository.
pub open spec fn selected_version(
    p: PackageView,
    explicit: Option<Seq<char>>,
    remote: Seq<Seq<char>>,
) -> Result<Seq<char>, ErrorKind> {
    let listed = listed_versions(p);
    match explicit {
        Some(v) => if listed.contains(v) {
            Ok(v)
        } else {
            Err(ErrorKind::UnknownVersion)
        },
        None => match p.version {
            Some(v) => if listed.contains(v) {
                Ok(v)
            } else {
                Err(ErrorKind::UnknownVersion)
            },
            None => if listed.len() > 0 {
                Ok(listed[0])
            } else if remote.len() > 0 {
                Ok(remote[0])
            } else {
                Err(ErrorKind::NoVersionsAvailable)
            },
        },
    }
}

/// Whether the tags of the repository decide the version: nothing is asked
/// for, the package has no default, and it lists no version.
pub open spec fn remote_decides(p: PackageView, explicit: Option<Seq<char>>) -> bool {
    explicit is None && p.version is None && listed_versions(p).len() == 0
}

/// What a failed selection is about: the version that is not listed, or
/// the package that has no version at all.
pub open spec fn selection_subject(p: PackageView, explicit: Option<Seq<char>>) -> Seq<char> {
    match explicit {
        Some(v) => v,
        None => match p.version {
            Some(v) => v,
            None => p.name,
        },
    }
}

/// Whether `v` is among `list`.
pub fn has_text(list: &Vec<String>, v: &str) -> (r: bool)
    ensures
        r == texts(list@).contains(v@),
{
    let mut i: usize = 0;
    while i < list.len()
        invariant
            i <= list.len(),
            forall|k: int| 0 <= k < i ==> texts(list@)[k] != v@,
        decreases list.len() - i,
    {
        if str_eq(list[i].as_str(), v) {
            assert(texts(list@)[i as int] == v@);
            return true;
        }
        i += 1;
    }
    false
}

/// The URL template of a target.
pub open spec fn url_template(t: TargetView) -> Seq<char> {
    match t {
        TargetView::Detailed { url, .. } => url,
        TargetView::Executable { executable, .. } => executable,
        TargetView::Simple(s) => s,
    }
}

/// The template of the directory inside the archive: the root where the
/// target names none, or one of white space only.
pub open spec fn path_template(t: TargetView) -> Seq<char> {
    match t {
        TargetView::Detailed { path: Some(p), .. } => if trimmed(p).len() == 0 {
            "/"@
        } else {
            p
        },
        _ => "/"@,
    }
}

/// The digest that a target gives for its artifact.
pub open spec fn target_checksum(t: TargetView) -> Option<Seq<char>> {
    match t {
        TargetView::Detailed { checksum, .. } => checksum,
        TargetView::Executable { checksum, .. } => checksum,
        TargetView::Simple(_) => None,
    }
}

/// The extension of the artifact's file. A bare executable has `.exe` on
/// Windows and none elsewhere. An archive has the extension that its
/// target gives; where it gives none, the one that the file name of the
/// expanded URL suggests, which needs that URL to be one.
pub open spec fn resolved_extension(t: TargetView, os: Os, address: Option<AddressView>) -> Result<
    Seq<char>,
    ErrorKind,
> {
    match t {
        TargetView::Executable { .. } => Ok(
            if os == Os::Windows {
                ".exe"@
            } else {
                ""@
            },
        ),
        TargetView::Detailed { extension: Some(e), .. } => Ok(e.text()),
        _ => match address {
            None => Err(ErrorKind::TemplateError),
            Some(a) => Ok(
                match last_segment(a.path) {
                    Some(name) => Extension::inferred(name).text(),
                    None => Extension::TarGz.text(),
                },
            ),
        },
    }
}

/// The download target of a target whose templates expanded to `url` and
/// `path`, where `address` is what `url` reads as.
pub open spec fn assembled(
    t: TargetView,
    os: Os,
    url: Seq<char>,
    path: Seq<char>,
    address: Option<AddressView>,
) -> Result<DownloadTargetView, ErrorKind> {
    match resolved_extension(t, os, address) {
        Err(k) => Err(k),
        Ok(ext) => Ok(
            DownloadTargetView {
                url,
                path: trimmed(path),
                checksum: target_checksum(t),
                ext,
                executable: t is Executable,
            },
        ),
    }
}

/// What a host downloads for a version: the host's target with its
/// templates expanded over the version, the package and the user's names.
/// A host without a target is unsupported; templates that are not plain,
/// or that the renderer cannot expand, are a template error.
pub open spec fn download_target_of(f: FormulaView, host: Host, version: Seq<char>) -> Result<
    DownloadTargetView,
    ErrorKind,
> {
    match f.target(host) {
        None => Err(ErrorKind::UnsupportedPlatform),
        Some(t) => match expanded(
            url_template(t),
            path_template(t),
            template_context(version, f.package, f.context),
        ) {
            None => Err(ErrorKind::TemplateError),
            Some(pair) => assembled(t, host.os, pair.0, pair.1, url_of(pair.0)),
        },
    }
}

/// Whether the extension of a target's artifact is read off the expanded
/// URL: the target is an archive and names no extension itself.
pub open spec fn extension_is_inferred(t: TargetView) -> bool {
    match t {
        TargetView::Executable { .. } => false,
        TargetView::Detailed { extension: Some(_), .. } => false,
        _ => true,
    }
}

/// Where the extension is not read off the URL, it does not matter what
/// the URL reads as.
pub proof fn lemma_address_matters_only_for_inference(
    t: TargetView,
    os: Os,
    url: Seq<char>,
    path: Seq<char>,
    a: Option<AddressView>,
    b: Option<AddressView>,
)
    requires
        !extension_is_inferred(t),
    ensures
        assembled(t, os, url, path, a) == assembled(t, os, url, path, b),
{
}

impl ResourceTarget {
    /// Whether the extension of the artifact is read off the expanded URL.
    pub fn infers_extension(&self) -> (r: bool)
        ensures
            r == extension_is_inferred(self@),
    {
        match self {
            ResourceTarget::Executable(_) => false,
            ResourceTarget::Detailed(ResourceTargetDetail { extension: Some(_), .. }) => false,
            _ => true,
        }
    }

    /// The URL template of the target.
    pub fn url_template(&self) -> (r: &String)
        ensures
            r@ == url_template(self@),
    {
        match self {
            ResourceTarget::Detailed(d) => &d.url,
            ResourceTarget::Executable(e) => &e.executable,
            ResourceTarget::Simple(s) => s,
        }
    }

    /// The template of the directory inside the archive.
    pub fn path_template(&self) -> (r: String)
        ensures
            r@ == path_template(self@),
    {
        match self {
            ResourceTarget::Detailed(d) => match &d.path {
                Some(p) => {
                    if trim(p.as_str()).as_str().is_empty() {
                        String::from_str("/")
                    } else {
                        p.clone()
                    }
                },
                None => String::from_str("/"),
            },
            _ => String::from_str("/"),
        }
    }

    /// The digest that the target gives for its artifact.
    pub fn checksum(&self) -> (r: Option<String>)
        ensures
            opt_text(r) == target_checksum(self@),
    {
        match self {
            ResourceTarget::Detailed(d) => d.checksum.clone(),
            ResourceTarget::Executable(e) => e.checksum.clone(),
            ResourceTarget::Simple(_) => None,
        }
    }

    /// The extension of the artifact's file, given what the expanded URL reads as.
    pub fn resolve_extension(&self, os: Os, address: Option<&Address>) -> (r: Result<
        String,
        ErrorKind,
    >)
        ensures
            match r {
                Ok(ext) => resolved_extension(self@, os, opt_view(address)) == Ok::<
                    Seq<char>,
                    ErrorKind,
                >(ext@),
                Err(k) => resolved_extension(self@, os, opt_view(address)) == Err::<
                    Seq<char>,
                    ErrorKind,
                >(k),
            },
    {
        match self {
            ResourceTarget::Executable(_) => {
                if os == Os::Windows {
                    Ok(String::from_str(".exe"))
                } else {
                    Ok(String::from_str(""))
                }
            },
            ResourceTarget::Detailed(ResourceTargetDetail { extension: Some(e), .. }) => Ok(
                String::from_str(e.as_str()),
            ),
            _ => match address {
                None => Err(ErrorKind::TemplateError),
                Some(a) => match a.file_name() {
                    Some(name) => Ok(String::from_str(Extension::infer(name.as_str()).as_str())),
                    None => Ok(String::from_str(Extension::TarGz.as_str())),
                },
            },
        }
    }

    /// Puts together the download target once the templates are expanded:
    /// `url` and `path` are the expansions, `address` is what `url` reads as.
    pub fn assemble(&self, os: Os, url: String, path: &str, address: Option<&Address>) -> (r:
        Result<DownloadTarget, ErrorKind>)
        ensures
            match r {
                Ok(t) => assembled(self@, os, url@, path@, opt_view(address)) == Ok::<
                    DownloadTargetView,
                    ErrorKind,
                >(t@),
                Err(k) => assembled(self@, os, url@, path@, opt_view(address)) == Err::<
                    DownloadTargetView,
                    ErrorKind,
                >(k),
            },
    {
        let ext = match self.resolve_extension(os, address) {
            Ok(ext) => ext,
            Err(k) => {
                return Err(k);
            },
        };
        let executable = match self {
            ResourceTarget::Executable(_) => true,
            _ => false,
        };
        Ok(DownloadTarget { url, path: trim(path), checksum: self.checksum(), ext, executable })
    }
}

impl Formula {
    /// What the host downloads for `version`: the selected target with its
    /// URL and its inner path expanded.
    pub fn get_current_download_url(&self, host: Host, version: &str) -> (r: Result<
        DownloadTarget,
        CaskError,
    >)
        ensures
            match r {
                Ok(t) => download_target_of(self@, host, version@) == Ok::<
                    DownloadTargetView,
                    ErrorKind,
                >(t@),
                Err(e) => {
                    &&& download_target_of(self@, host, version@) == Err::<
                        DownloadTargetView,
                        ErrorKind,
                    >(e@.kind)
                    &&& e@.subject == self@.package.name
                },
            },
    {
        let target = match self.get_current_arch(host) {
            Some(t) => t,
            None => {
                return Err(
                    CaskError::new(ErrorKind::UnsupportedPlatform, self.package.name.as_str()),
                );
            },
        };
        let context = context_for(version, &self.package, &self.context);
        let path_template = target.path_template();
        let (url, path) = match render(
            target.url_template().as_str(),
            path_template.as_str(),
            &context,
        ) {
            Some(pair) => pair,
            None => {
                return Err(CaskError::new(ErrorKind::TemplateError, self.package.name.as_str()));
            },
        };
        let address = if target.infers_extension() {
            Address::parse(url.as_str())
        } else {
            None
        };
        match target.assemble(host.os, url, path.as_str(), address.as_ref()) {
            Ok(t) => Ok(t),
            Err(k) => Err(CaskError::new(k, self.package.name.as_str())),
        }
    }

    /// All versions of the package: the listed ones as they stand, and the
    /// tags of the repository where the manifest has no list.
    pub fn get_versions(&self, remote_tags: &Vec<String>) -> (r: Vec<String>)
        ensures
            texts(r@) == match self@.package.versions {
                Some(v) => v,
                None => texts(remote_tags@),
            },
    {
        match &self.package.versions {
            Some(v) => clone_texts(v),
            None => clone_texts(remote_tags),
        }
    }

    /// The newest version: the first of [`Formula::get_versions`].
    pub fn get_latest_version(&self, remote_tags: &Vec<String>) -> (r: Option<String>)
        ensures
            opt_text(r) == match self@.package.versions {
                Some(v) => if v.len() > 0 {
                    Some(v[0])
                } else {
                    None
                },
                None => if remote_tags@.len() > 0 {
                    Some(remote_tags@[0]@)
                } else {
                    None
                },
            },
    {
        let versions = match &self.package.versions {
            Some(v) => v,
            None => remote_tags,
        };
        if versions.len() > 0 {
            Some(versions[0].clone())
        } else {
            None
        }
    }

    /// Whether the version can only come from the tags of the repository.
    pub fn needs_remote_versions(&self, explicit: Option<&str>) -> (r: bool)
        ensures
            r == remote_decides(self@.package, opt_str(explicit)),
    {
        let unlisted = match &self.package.versions {
            Some(v) => v.len() == 0,
            None => true,
        };
        explicit.is_none() && self.package.version.is_none() && unlisted
    }

    /// Selects the version to install. `remote_tags` are the tags of the
    /// package's repository, newest first; they are looked at only where
    /// [`Formula::needs_remote_versions`] holds.
    pub fn select_version(&self, explicit: Option<&str>, remote_tags: &Vec<String>) -> (r: Result<
        String,
        CaskError,
    >)
        ensures
            match r {
                Ok(v) => selected_version(self@.package, opt_str(explicit), texts(remote_tags@))
                    == Ok::<Seq<char>, ErrorKind>(v@),
                Err(e) => {
                    &&& selected_version(self@.package, opt_str(explicit), texts(remote_tags@))
                        == Err::<Seq<char>, ErrorKind>(e@.kind)
                    &&& e@.subject == selection_subject(self@.package, opt_str(explicit))
                },
            },
    {
        let asked: Option<String> = match explicit {
            Some(v) => Some(String::from_str(v)),
            None => self.package.version.clone(),
        };
        match asked {
            Some(v) => {
                let listed = match &self.package.versions {
                    Some(list) => has_text(list, v.as_str()),
                    None => false,
                };
                if listed {
                    Ok(v)
                } else {
                    Err(CaskError::new(ErrorKind::UnknownVersion, v.as_str()))
                }
            },
            None => {
                let listed: Option<String> = match &self.package.versions {
                    Some(list) => if list.len() > 0 {
                        Some(list[0].clone())
                    } else {
                        None
                    },
                    None => None,
                };
                match listed {
                    Some(v) => Ok(v),
                    None => if remote_tags.len() > 0 {
                        Ok(remote_tags[0].clone())
                    } else {
                        Err(
                            CaskError::new(
                                ErrorKind::NoVersionsAvailable,
                                self.package.name.as_str(),
                            ),
                        )
                    },
                }
            },
        }
    }
}

/// The text of an optional string slice.
pub open spec fn opt_str(o: Option<&str>) -> Option<Seq<char>> {
    match o {
        Some(s) => Some(s@),
        None => None,
    }
}

/// Selection is a function of the manifest and the host: manifests that
/// agree on the block of the host's operating system select the same
/// target, whatever else they hold.
pub proof fn lemma_selection_is_determined(f: FormulaView, g: FormulaView, host: Host)
    requires
        f.platform(host.os) == g.platform(host.os),
    ensures
        f.target(host) == g.target(host),
{
}

/// A host of a system or an architecture that manifests do not know selects nothing.
pub proof fn lemma_unknown_host_selects_nothing(f: FormulaView, host: Host)
    requires
        host.os == Os::Other || host.arch == Arch::Other,
    ensures
        f.target(host) is None,
{
}

/// Where no version is asked for and the package has no default, the
/// first listed version is selected, whatever the repository's tags are.
pub proof fn lemma_first_listed_is_selected(p: PackageView, remote: Seq<Seq<char>>)
    requires
        p.version is None,
        p.versions is Some,
        p.versions->0.len() > 0,
    ensures
        selected_version(p, None, remote) == Ok::<Seq<char>, ErrorKind>(p.versions->0[0]),
{
}

/// A version that is asked for is selected exactly where it is listed,
/// and is unknown everywhere else.
pub proof fn lemma_explicit_version(p: PackageView, v: Seq<char>, remote: Seq<Seq<char>>)
    ensures
        listed_versions(p).contains(v) ==> selected_version(p, Some(v), remote) == Ok::<
            Seq<char>,
            ErrorKind,
        >(v),
        !listed_versions(p).contains(v) ==> selected_version(p, Some(v), remote) == Err::<
            Seq<char>,
            ErrorKind,
        >(ErrorKind::UnknownVersion),
{
}

/// A manifest that loads keeps the text it was read from, character for character.
pub proof fn lemma_loaded_keeps_text(
    file_content: Seq<char>,
    filepath: Seq<char>,
    repository: Seq<char>,
)
    requires
        loaded(Some(file_content), filepath, repository) is Ok,
    ensures
        loaded(Some(file_content), filepath, repository)->Ok_0.file_content == file_content,
        loaded(Some(file_content), filepath, repository)->Ok_0.filepath == filepath,
        loaded(Some(file_content), filepath, repository)->Ok_0.repository == repository,
{
}

/// An inner path of white space only stands for the root of the archive,
/// as a missing one does.
pub proof fn lemma_blank_path_is_root(t: TargetView)
    requires
        t matches TargetView::Detailed { path: Some(p), .. } && forall|i: int|
            0 <= i < p.len() ==> is_space(p[i]),
    ensures
        path_template(t) == "/"@,
{
    lemma_trimmed_empty(t->Detailed_path->0);
}

/// Every written extension names the format that it is the extension of.
pub proof fn lemma_extension_reads_back(e: Extension)
    ensures
        Extension::named(e.text()) == Some(e),
{
    reveal_strlit(".tar.gz");
    reveal_strlit(".tgz");
    reveal_strlit(".tar");
    reveal_strlit(".zip");
    assert(".tgz"@.len() != ".tar.gz"@.len());
    assert(".tar"@.len() != ".tar.gz"@.len());
    assert(".zip"@.len() != ".tar.gz"@.len());
    assert(".tar"@[2] != ".tgz"@[2]);
    assert(".zip"@[1] != ".tgz"@[1]);
    assert(".zip"@[1] != ".tar"@[1]);
}

/// A download target is marked as an executable exactly where its target
/// is one, and one that is put together for an archive always has the
/// extension of a known format.
pub proof fn lemma_archive_target_has_known_format(
    t: TargetView,
    os: Os,
    url: Seq<char>,
    path: Seq<char>,
    address: Option<AddressView>,
)
    requires
        assembled(t, os, url, path, address) is Ok,
    ensures
        assembled(t, os, url, path, address)->Ok_0.executable == (t is Executable),
        !(t is Executable) ==> Extension::named(assembled(t, os, url, path, address)->Ok_0.ext)
            is Some,
{
    lemma_extension_reads_back(Extension::TarGz);
    lemma_extension_reads_back(Extension::Tgz);
    lemma_extension_reads_back(Extension::Tar);
    lemma_extension_reads_back(Extension::Zip);
}

} // verus!
