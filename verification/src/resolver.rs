//! Resolving a package identifier to its formula.
//!
//! The resolver talks to the outside world: it asks whether a repository
//! exists, clones it and reads files. Here it is a machine that decides:
//! [`fetch`] takes the state and what happened last, and says what to do
//! next. Whoever drives it performs the action and comes back with the
//! event.

use vstd::prelude::*;
use vstd::string::*;
use crate::address::{url_of, Address};
use crate::error::{CaskError, CaskErrorView, ErrorKind};
use crate::formula::{loaded, new, opt_text, Formula, FormulaView};
use crate::store::{repository_dir, repository_dir_of};
use crate::text::{decimal, decimal_text, split, split_on, str_eq, texts};

verus! {

/// What is asked of the resolver.
#[derive(Debug)]
pub struct FetchRequest {
    /// The identifier of the package: a name, or the URL of a repository.
    pub package_name: String,
    /// Whether the clone is thrown away once the manifest is read.
    pub temp: bool,
    pub is_verbose: bool,
    /// The time of the request, in seconds since the start of 1970.
    pub unix_time: u64,
}

/// How a repository is cloned.
#[derive(Debug)]
pub struct CloneOption {
    pub depth: Option<u32>,
    pub quiet: Option<bool>,
    pub verbose: Option<bool>,
    pub progress: Option<bool>,
    pub single_branch: Option<bool>,
    pub dissociate: Option<bool>,
    pub filter: Option<String>,
}

/// Where a clone goes: a directory of its own below the system's
/// temporary directory, or a place below the root of the store.
#[derive(Debug)]
pub struct ClonePlace {
    pub temporary: bool,
    pub parts: Vec<String>,
}

/// A manifest as it was found: where, and its text.
#[derive(Debug)]
pub struct ManifestFile {
    pub path: String,
    pub text: String,
}

/// Where the resolver stands.
#[derive(Debug)]
pub enum FetchState {
    Start,
    /// Asked whether the repository at `url` exists.
    Probing { url: String },
    /// Asked for the built-in manifest of the package.
    SearchingBuiltin,
    /// Asked for a clone of `url` at `place`.
    Cloning { url: String, place: ClonePlace },
    /// Asked for the manifest at the root of the clone.
    Reading { url: String, place: ClonePlace },
    Done,
}

/// What happened since the last step.
#[derive(Debug)]
pub enum FetchEvent {
    /// Nothing yet: the resolver is to start.
    Begin,
    /// Whether the repository exists.
    RepositoryExists(bool),
    /// The built-in manifest, if there is one.
    Builtin(Option<ManifestFile>),
    /// The clone is there.
    Cloned,
    /// The manifest at the root of the clone, if there is one.
    Manifest(Option<ManifestFile>),
    /// The action failed, with the words of the failure.
    Failed(String),
}

/// What to do next.
#[derive(Debug)]
pub enum FetchAction {
    /// Find out whether the repository at `url` exists.
    Probe { url: String },
    /// Read the file at `path` below the built-in directory, if it and the directory exist.
    ReadBuiltin { path: Vec<String> },
    /// Remove what is at `place`, then clone `url` there.
    Clone { url: String, place: ClonePlace, options: CloneOption },
    /// Read the manifest at the root of the clone, if there is one.
    ReadManifest { place: ClonePlace },
    /// Show `hint` if there is one, remove the clone at `remove` if there
    /// is one, and end with `outcome`.
    Finish { outcome: Result<Formula, CaskError>, hint: Option<String>, remove: Option<ClonePlace> },
}

pub struct FetchRequestView {
    pub package_name: Seq<char>,
    pub temp: bool,
    pub is_verbose: bool,
    pub unix_time: nat,
}

pub struct CloneOptionView {
    pub depth: Option<u32>,
    pub quiet: Option<bool>,
    pub verbose: Option<bool>,
    pub progress: Option<bool>,
    pub single_branch: Option<bool>,
    pub dissociate: Option<bool>,
    pub filter: Option<Seq<char>>,
}

pub struct ClonePlaceView {
    pub temporary: bool,
    pub parts: Seq<Seq<char>>,
}

pub struct ManifestFileView {
    pub path: Seq<char>,
    pub text: Seq<char>,
}

pub enum FetchStateView {
    Start,
    Probing { url: Seq<char> },
    SearchingBuiltin,
    Cloning { url: Seq<char>, place: ClonePlaceView },
    Reading { url: Seq<char>, place: ClonePlaceView },
    Done,
}

pub enum FetchEventView {
    Begin,
    RepositoryExists(bool),
    Builtin(Option<ManifestFileView>),
    Cloned,
    Manifest(Option<ManifestFileView>),
    Failed(Seq<char>),
}

pub enum FetchActionView {
    Probe { url: Seq<char> },
    ReadBuiltin { path: Seq<Seq<char>> },
    Clone { url: Seq<char>, place: ClonePlaceView, options: CloneOptionView },
    ReadManifest { place: ClonePlaceView },
    Finish {
        outcome: Result<FormulaView, CaskErrorView>,
        hint: Option<Seq<char>>,
        remove: Option<ClonePlaceView>,
    },
}

impl View for FetchRequest {
    type V = FetchRequestView;

    open spec fn view(&self) -> FetchRequestView {
        FetchRequestView {
            package_name: self.package_name@,
            temp: self.temp,
            is_verbose: self.is_verbose,
            unix_time: self.unix_time as nat,
        }
    }
}

impl View for CloneOption {
    type V = CloneOptionView;

    open spec fn view(&self) -> CloneOptionView {
        CloneOptionView {
            depth: self.depth,
            quiet: self.quiet,
            verbose: self.verbose,
            progress: self.progress,
            single_branch: self.single_branch,
            dissociate: self.dissociate,
            filter: opt_text(self.filter),
        }
    }
}

impl View for ClonePlace {
    type V = ClonePlaceView;

    open spec fn view(&self) -> ClonePlaceView {
        ClonePlaceView { temporary: self.temporary, parts: texts(self.parts@) }
    }
}

impl View for ManifestFile {
    type V = ManifestFileView;

    open spec fn view(&self) -> ManifestFileView {
        ManifestFileView { path: self.path@, text: self.text@ }
    }
}

/// The view of an optional manifest.
pub open spec fn opt_file(o: Option<ManifestFile>) -> Option<ManifestFileView> {
    match o {
        Some(f) => Some(f@),
        None => None,
    }
}

/// The view of an optional place.
pub open spec fn opt_place(o: Option<ClonePlace>) -> Option<ClonePlaceView> {
    match o {
        Some(p) => Some(p@),
        None => None,
    }
}

/// The view of the outcome of a resolution.
pub open spec fn outcome_view(r: Result<Formula, CaskError>) -> Result<FormulaView, CaskErrorView> {
    match r {
        Ok(f) => Ok(f@),
        Err(e) => Err(e@),
    }
}

impl View for FetchState {
    type V = FetchStateView;

    open spec fn view(&self) -> FetchStateView {
        match self {
            FetchState::Start => FetchStateView::Start,
            FetchState::Probing { url } => FetchStateView::Probing { url: url@ },
            FetchState::SearchingBuiltin => FetchStateView::SearchingBuiltin,
            FetchState::Cloning { url, place } => FetchStateView::Cloning {
                url: url@,
                place: place@,
            },
            FetchState::Reading { url, place } => FetchStateView::Reading {
                url: url@,
                place: place@,
            },
            FetchState::Done => FetchStateView::Done,
        }
    }
}

impl View for FetchEvent {
    type V = FetchEventView;

    open spec fn view(&self) -> FetchEventView {
        match self {
            FetchEvent::Begin => FetchEventView::Begin,
            FetchEvent::RepositoryExists(b) => FetchEventView::RepositoryExists(*b),
            FetchEvent::Builtin(f) => FetchEventView::Builtin(opt_file(*f)),
            FetchEvent::Cloned => FetchEventView::Cloned,
            FetchEvent::Manifest(f) => FetchEventView::Manifest(opt_file(*f)),
            FetchEvent::Failed(s) => FetchEventView::Failed(s@),
        }
    }
}

impl View for FetchAction {
    type V = FetchActionView;

    open spec fn view(&self) -> FetchActionView {
        match self {
            FetchAction::Probe { url } => FetchActionView::Probe { url: url@ },
            FetchAction::ReadBuiltin { path } => FetchActionView::ReadBuiltin { path: texts(path@) },
            FetchAction::Clone { url, place, options } => FetchActionView::Clone {
                url: url@,
                place: place@,
                options: options@,
            },
            FetchAction::ReadManifest { place } => FetchActionView::ReadManifest { place: place@ },
            FetchAction::Finish { outcome, hint, remove } => FetchActionView::Finish {
                outcome: outcome_view(*outcome),
                hint: opt_text(*hint),
                remove: opt_place(*remove),
            },
        }
    }
}

/// The URL of the repository that holds the formula of a named package.
pub open spec fn formula_git_url(package_name: Seq<char>) -> Seq<char> {
    "https://"@ + package_name + ".git"@
}

/// The URL of the repository that holds the formula of a named package.
pub fn get_formula_git_url(package_name: &str) -> (r: String)
    ensures
        r@ == formula_git_url(package_name@),
{
    let mut out = String::from_str("https://");
    out.append(package_name);
    out.append(".git");
    out
}

/// What a user is told whose package has no manifest.
pub open spec fn publishing_text() -> Seq<char> {
    "It looks like the package does not support Cask\nIf you are the package owner, see our documentation for how to publish a package:\nhttps://github.com/cask-pkg/cask.rs/blob/main/DESIGN.md#how-do-i-publish-package"@
}

/// What a user is told whose package has no manifest.
pub fn publishing_msg() -> (r: String)
    ensures
        r@ == publishing_text(),
{
    String::from_str(
        "It looks like the package does not support Cask\nIf you are the package owner, see our documentation for how to publish a package:\nhttps://github.com/cask-pkg/cask.rs/blob/main/DESIGN.md#how-do-i-publish-package",
    )
}

/// Where the built-in manifest of a package lies below the built-in
/// directory: the pieces of the name between slashes, then `Cask.toml`.
pub open spec fn builtin_path_of(package_name: Seq<char>) -> Seq<Seq<char>> {
    split_on(package_name, '/').push("Cask.toml"@)
}

/// Where the built-in manifest of a package lies below the built-in directory.
pub fn find_package_in_build_in(package_name: &str) -> (r: Vec<String>)
    ensures
        texts(r@) == builtin_path_of(package_name@),
{
    let mut out = split(package_name, '/');
    let ghost before = out@;
    out.push(String::from_str("Cask.toml"));
    assert(texts(out@) =~= texts(before).push("Cask.toml"@));
    out
}

/// The options of every clone: one commit deep, one branch, cut loose
/// from its origin, trees fetched on demand; quiet with a progress bar
/// unless the request is verbose.
pub open spec fn clone_options_of(is_verbose: bool) -> CloneOptionView {
    CloneOptionView {
        depth: Some(1u32),
        quiet: Some(!is_verbose),
        verbose: Some(is_verbose),
        progress: Some(!is_verbose),
        single_branch: Some(true),
        dissociate: Some(true),
        filter: Some("tree:0"@),
    }
}

/// The options of every clone.
pub fn clone_options(is_verbose: bool) -> (r: CloneOption)
    ensures
        r@ == clone_options_of(is_verbose),
{
    CloneOption {
        depth: Some(1),
        quiet: Some(!is_verbose),
        verbose: Some(is_verbose),
        progress: Some(!is_verbose),
        single_branch: Some(true),
        dissociate: Some(true),
        filter: Some(String::from_str("tree:0")),
    }
}

/// Where the clone of a request goes: a directory named after the time of
/// the request where it is thrown away, the package's `repository`
/// directory in the store where it is kept.
pub open spec fn clone_place_of(request: FetchRequestView) -> ClonePlaceView {
    if request.temp {
        ClonePlaceView {
            temporary: true,
            parts: seq!["cask_formula_"@ + decimal(request.unix_time)],
        }
    } else {
        ClonePlaceView { temporary: false, parts: repository_dir_of(request.package_name) }
    }
}

/// Where the clone of a request goes.
pub fn clone_place(request: &FetchRequest) -> (r: ClonePlace)
    ensures
        r@ == clone_place_of(request@),
{
    if request.temp {
        let mut name = String::from_str("cask_formula_");
        name.append(decimal_text(request.unix_time).as_str());
        let mut parts: Vec<String> = Vec::new();
        parts.push(name);
        assert(texts(parts@) =~= seq!["cask_formula_"@ + decimal(request.unix_time as nat)]);
        ClonePlace { temporary: true, parts }
    } else {
        ClonePlace { temporary: false, parts: repository_dir(request.package_name.as_str()) }
    }
}

/// Whether a scheme is one of the web.
pub open spec fn is_web_scheme(scheme: Seq<char>) -> bool {
    scheme == "http"@ || scheme == "https"@
}

/// What loading a found manifest gives, as the resolver's outcome.
pub open spec fn load_outcome(file: ManifestFileView, repository: Seq<char>) -> Result<
    FormulaView,
    CaskErrorView,
> {
    match loaded(Some(file.text), file.path, repository) {
        Ok(f) => Ok(f),
        Err(kind) => Err(CaskErrorView { kind, subject: file.path }),
    }
}

/// The clone to remove at the end: the one at `place` where it is temporary.
pub open spec fn cleanup_of(place: ClonePlaceView) -> Option<ClonePlaceView> {
    if place.temporary {
        Some(place)
    } else {
        None
    }
}

/// The clone that a state has asked for and that is to be thrown away.
pub open spec fn pending_cleanup(state: FetchStateView) -> Option<ClonePlaceView> {
    match state {
        FetchStateView::Cloning { place, .. } => cleanup_of(place),
        FetchStateView::Reading { place, .. } => cleanup_of(place),
        _ => None,
    }
}

/// The action that ends a resolution with a failure.
pub open spec fn failing(
    kind: ErrorKind,
    subject: Seq<char>,
    remove: Option<ClonePlaceView>,
) -> FetchActionView {
    FetchActionView::Finish {
        outcome: Err(CaskErrorView { kind, subject }),
        hint: None,
        remove,
    }
}

/// One step of the resolver.
///
/// An identifier that reads as a URL names a repository, which must be of
/// the web and must exist. Any other identifier is looked up among the
/// built-in manifests first, and then in the repository that its name
/// derives. A repository is cloned and the manifest at its root loaded;
/// a clone without one is no formula, which comes with a hint for its
/// owner. A failed action, and an event that the state does not wait for,
/// end the resolution as an I/O failure. Whenever the resolution ends
/// and a temporary clone was asked for, the clone is removed.
pub open spec fn fetch_step(
    request: FetchRequestView,
    state: FetchStateView,
    event: FetchEventView,
) -> (FetchStateView, FetchActionView) {
    match (state, event) {
        (FetchStateView::Start, FetchEventView::Begin) => match url_of(request.package_name) {
            Some(a) => if is_web_scheme(a.scheme) {
                (FetchStateView::Probing { url: a.href }, FetchActionView::Probe { url: a.href })
            } else {
                (FetchStateView::Done, failing(ErrorKind::UnsupportedScheme, a.scheme, None))
            },
            None => (
                FetchStateView::SearchingBuiltin,
                FetchActionView::ReadBuiltin { path: builtin_path_of(request.package_name) },
            ),
        },
        (FetchStateView::Probing { url }, FetchEventView::RepositoryExists(exists)) => if exists {
            (
                FetchStateView::Cloning { url, place: clone_place_of(request) },
                FetchActionView::Clone {
                    url,
                    place: clone_place_of(request),
                    options: clone_options_of(request.is_verbose),
                },
            )
        } else {
            (FetchStateView::Done, failing(ErrorKind::NotFound, request.package_name, None))
        },
        (FetchStateView::SearchingBuiltin, FetchEventView::Builtin(Some(file))) => (
            FetchStateView::Done,
            FetchActionView::Finish {
                outcome: load_outcome(file, ""@),
                hint: None,
                remove: None,
            },
        ),
        (FetchStateView::SearchingBuiltin, FetchEventView::Builtin(None)) => (
            FetchStateView::Probing { url: formula_git_url(request.package_name) },
            FetchActionView::Probe { url: formula_git_url(request.package_name) },
        ),
        (FetchStateView::Cloning { url, place }, FetchEventView::Cloned) => (
            FetchStateView::Reading { url, place },
            FetchActionView::ReadManifest { place },
        ),
        (FetchStateView::Reading { url, place }, FetchEventView::Manifest(Some(file))) => (
            FetchStateView::Done,
            FetchActionView::Finish {
                outcome: load_outcome(file, url),
                hint: None,
                remove: cleanup_of(place),
            },
        ),
        (FetchStateView::Reading { url, place }, FetchEventView::Manifest(None)) => (
            FetchStateView::Done,
            FetchActionView::Finish {
                outcome: Err(
                    CaskErrorView {
                        kind: ErrorKind::NotAFormula,
                        subject: request.package_name,
                    },
                ),
                hint: Some(publishing_text()),
                remove: cleanup_of(place),
            },
        ),
        (_, FetchEventView::Failed(detail)) => (
            FetchStateView::Done,
            failing(ErrorKind::IOError, detail, pending_cleanup(state)),
        ),
        _ => (
            FetchStateView::Done,
            failing(ErrorKind::IOError, request.package_name, pending_cleanup(state)),
        ),
    }
}

fn fail(kind: ErrorKind, subject: &str, remove: Option<ClonePlace>) -> (r: FetchAction)
    ensures
        r@ == failing(kind, subject@, opt_place(remove)),
{
    FetchAction::Finish { outcome: Err(CaskError::new(kind, subject)), hint: None, remove }
}

fn cleanup(place: ClonePlace) -> (r: Option<ClonePlace>)
    ensures
        opt_place(r) == cleanup_of(place@),
{
    if place.temporary {
        Some(place)
    } else {
        None
    }
}

fn pending(state: FetchState) -> (r: Option<ClonePlace>)
    ensures
        opt_place(r) == pending_cleanup(state@),
{
    match state {
        FetchState::Cloning { url, place } => cleanup(place),
        FetchState::Reading { url, place } => cleanup(place),
        _ => None,
    }
}

fn load(file: ManifestFile, repository: &str) -> (r: Result<Formula, CaskError>)
    ensures
        outcome_view(r) == load_outcome(file@, repository@),
        r matches Ok(f) ==> f@.well_formed(),
{
    let ManifestFile { path, text } = file;
    new(path.as_str(), Some(text), repository)
}

/// The first step of a resolution: what the identifier is read as.
pub fn classify(request: &FetchRequest, address: Option<Address>) -> (r: (FetchState, FetchAction))
    ensures
        (r.0@, r.1@) == match crate::formula::opt_view(address) {
            Some(a) => if is_web_scheme(a.scheme) {
                (FetchStateView::Probing { url: a.href }, FetchActionView::Probe { url: a.href })
            } else {
                (FetchStateView::Done, failing(ErrorKind::UnsupportedScheme, a.scheme, None))
            },
            None => (
                FetchStateView::SearchingBuiltin,
                FetchActionView::ReadBuiltin { path: builtin_path_of(request@.package_name) },
            ),
        },
{
    match address {
        Some(a) => {
            if str_eq(a.scheme.as_str(), "http") || str_eq(a.scheme.as_str(), "https") {
                (FetchState::Probing { url: a.href.clone() }, FetchAction::Probe { url: a.href })
            } else {
                (FetchState::Done, fail(ErrorKind::UnsupportedScheme, a.scheme.as_str(), None))
            }
        },
        None => (
            FetchState::SearchingBuiltin,
            FetchAction::ReadBuiltin {
                path: find_package_in_build_in(request.package_name.as_str()),
            },
        ),
    }
}

/// What follows once a repository is known to exist: its clone.
pub fn fetch_with_git_url(request: &FetchRequest, git_url: String) -> (r: (
    FetchState,
    FetchAction,
))
    ensures
        r.0@ == (FetchStateView::Cloning { url: git_url@, place: clone_place_of(request@) }),
        r.1@ == (FetchActionView::Clone {
            url: git_url@,
            place: clone_place_of(request@),
            options: clone_options_of(request@.is_verbose),
        }),
{
    (
        FetchState::Cloning { url: git_url.clone(), place: clone_place(request) },
        FetchAction::Clone {
            url: git_url,
            place: clone_place(request),
            options: clone_options(request.is_verbose),
        },
    )
}

/// Decides the next step of a resolution from its state and what happened.
pub fn fetch(request: &FetchRequest, state: FetchState, event: FetchEvent) -> (r: (
    FetchState,
    FetchAction,
))
    ensures
        (r.0@, r.1@) == fetch_step(request@, state@, event@),
        r.1 matches FetchAction::Finish { outcome: Ok(f), .. } ==> f@.well_formed(),
{
    let name = request.package_name.as_str();
    match (state, event) {
        (FetchState::Start, FetchEvent::Begin) => classify(request, Address::parse(name)),
        (FetchState::Probing { url }, FetchEvent::RepositoryExists(exists)) => {
            if exists {
                fetch_with_git_url(request, url)
            } else {
                (FetchState::Done, fail(ErrorKind::NotFound, name, None))
            }
        },
        (FetchState::SearchingBuiltin, FetchEvent::Builtin(Some(file))) => (
            FetchState::Done,
            FetchAction::Finish { outcome: load(file, ""), hint: None, remove: None },
        ),
        (FetchState::SearchingBuiltin, FetchEvent::Builtin(None)) => {
            let url = get_formula_git_url(name);
            (FetchState::Probing { url: url.clone() }, FetchAction::Probe { url })
        },
        (FetchState::Cloning { url, place }, FetchEvent::Cloned) => {
            let again = ClonePlace { temporary: place.temporary, parts: place.parts.clone() };
            assert(again@.parts =~= place@.parts);
            (FetchState::Reading { url, place }, FetchAction::ReadManifest { place: again })
        },
        (FetchState::Reading { url, place }, FetchEvent::Manifest(Some(file))) => (
            FetchState::Done,
            FetchAction::Finish {
                outcome: load(file, url.as_str()),
                hint: None,
                remove: cleanup(place),
            },
        ),
        (FetchState::Reading { url, place }, FetchEvent::Manifest(None)) => (
            FetchState::Done,
            FetchAction::Finish {
                outcome: Err(CaskError::new(ErrorKind::NotAFormula, name)),
                hint: Some(publishing_msg()),
                remove: cleanup(place),
            },
        ),
        (state, FetchEvent::Failed(detail)) => (
            FetchState::Done,
            fail(ErrorKind::IOError, detail.as_str(), pending(state)),
        ),
        (state, _) => (FetchState::Done, fail(ErrorKind::IOError, name, pending(state))),
    }
}

/// Whether a state is one that a resolution of `request` can be in: a
/// clone that was asked for lies where the request puts it.
pub open spec fn fetch_state_valid(request: FetchRequestView, state: FetchStateView) -> bool {
    match state {
        FetchStateView::Cloning { place, .. } => place == clone_place_of(request),
        FetchStateView::Reading { place, .. } => place == clone_place_of(request),
        _ => true,
    }
}

/// The resolver starts in a valid state and every step keeps it valid.
pub proof fn lemma_fetch_keeps_valid(
    request: FetchRequestView,
    state: FetchStateView,
    event: FetchEventView,
)
    requires
        fetch_state_valid(request, state),
    ensures
        fetch_state_valid(request, FetchStateView::Start),
        fetch_state_valid(request, fetch_step(request, state, event).0),
{
}

/// A resolution is over exactly when the action is the finishing one, and
/// once it is over, every further step finishes with a failure.
pub proof fn lemma_fetch_ends_with_finish(
    request: FetchRequestView,
    state: FetchStateView,
    event: FetchEventView,
)
    ensures
        fetch_step(request, state, event).0 is Done <==> fetch_step(request, state, event).1
            is Finish,
        state is Done ==> fetch_step(request, state, event).1 == failing(
            ErrorKind::IOError,
            match event {
                FetchEventView::Failed(detail) => detail,
                _ => request.package_name,
            },
            None,
        ),
{
}

/// A temporary clone never outlives the resolution: once a clone was
/// asked for, whatever ends the resolution, be it the formula or any
/// failure, removes the clone. A clone that is kept is never removed.
pub proof fn lemma_temporary_clone_is_removed(
    request: FetchRequestView,
    state: FetchStateView,
    event: FetchEventView,
)
    requires
        fetch_state_valid(request, state),
        state is Cloning || state is Reading,
        fetch_step(request, state, event).0 is Done,
    ensures
        fetch_step(request, state, event).1 is Finish,
        fetch_step(request, state, event).1->Finish_remove == if request.temp {
            Some(clone_place_of(request))
        } else {
            None
        },
{
}

/// Before a clone is asked for there is nothing to remove.
pub proof fn lemma_nothing_to_remove_before_clone(
    request: FetchRequestView,
    state: FetchStateView,
    event: FetchEventView,
)
    requires
        !(state is Cloning),
        !(state is Reading),
        fetch_step(request, state, event).1 is Finish,
    ensures
        fetch_step(request, state, event).1->Finish_remove is None,
{
}

} // verus!
