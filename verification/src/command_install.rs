//! Installing a package from its resolved formula.
//!
//! An install writes files, downloads and links. Here it is a plan and a
//! machine that decides: [`plan_install`] fixes everything that is known
//! before a byte is written, and [`install`] takes the state and what
//! happened last and says what to do next. Whoever drives it performs the
//! action and comes back with the event.

use vstd::prelude::*;
use crate::archive::{
    executable_mode, executable_mode_of, extract, extraction, is_wanted,
    lemma_nothing_wanted_is_not_found, tar_listing,
};
use crate::digest::{digest_accepted, digest_text, verify_checksum};
use crate::error::{CaskError, CaskErrorView, ErrorKind};
use crate::extension::Extension;
use crate::formula::{
    download_target_of, opt_str, reloaded, selected_version, selection_subject, Cask, CaskView,
    DownloadTarget, DownloadTargetView, Formula, FormulaView,
};
use crate::host::Host;
use crate::store::{
    artifact_path, artifact_path_of, binary_name, binary_name_of, binary_path, binary_path_of,
    install_dirs, install_dirs_of, lemma_stored_manifest_reads_back, link_path, link_path_of,
    manifest_path, manifest_path_of, places, record_is_plain, render_stored_manifest,
    stored_manifest,
};
use crate::text::texts;

verus! {

/// What an install does, step by step. Every place is a list of names
/// below the root of the store.
#[derive(Debug)]
pub struct InstallPlan {
    /// The version that is installed.
    pub version: String,
    /// The directories to make sure of, parents first.
    pub directories: Vec<Vec<String>>,
    /// Where the stored manifest goes.
    pub manifest_path: Vec<String>,
    /// The text of the stored manifest.
    pub manifest: String,
    /// What to download.
    pub target: DownloadTarget,
    /// Where the downloaded artifact is kept.
    pub artifact_path: Vec<String>,
    /// The file name of the executable on the host.
    pub binary_name: String,
    /// Where the executable is extracted to.
    pub binary_path: Vec<String>,
    /// Where the executable is published: the link to `binary_path`.
    pub link_path: Vec<String>,
}

/// The mathematical value of an [`InstallPlan`].
pub struct InstallPlanView {
    pub version: Seq<char>,
    pub directories: Seq<Seq<Seq<char>>>,
    pub manifest_path: Seq<Seq<char>>,
    pub manifest: Seq<char>,
    pub target: DownloadTargetView,
    pub artifact_path: Seq<Seq<char>>,
    pub binary_name: Seq<char>,
    pub binary_path: Seq<Seq<char>>,
    pub link_path: Seq<Seq<char>>,
}

impl View for InstallPlan {
    type V = InstallPlanView;

    open spec fn view(&self) -> InstallPlanView {
        InstallPlanView {
            version: self.version@,
            directories: places(self.directories@),
            manifest_path: texts(self.manifest_path@),
            manifest: self.manifest@,
            target: self.target@,
            artifact_path: texts(self.artifact_path@),
            binary_name: self.binary_name@,
            binary_path: texts(self.binary_path@),
            link_path: texts(self.link_path@),
        }
    }
}

/// What an install records about itself.
pub open spec fn install_record(f: FormulaView, version: Seq<char>, created_at: Seq<char>) -> CaskView {
    CaskView { name: f.package.name, created_at, version, repository: f.repository }
}

/// The plan for a version of a package on a host.
pub open spec fn plan_for(
    f: FormulaView,
    host: Host,
    version: Seq<char>,
    target: DownloadTargetView,
    created_at: Seq<char>,
) -> InstallPlanView {
    InstallPlanView {
        version,
        directories: install_dirs_of(f.package.name),
        manifest_path: manifest_path_of(f.package.name),
        manifest: stored_manifest(install_record(f, version, created_at), f.file_content),
        target,
        artifact_path: artifact_path_of(f.package.name, version, target.ext),
        binary_name: binary_name_of(f.package.bin, host.os),
        binary_path: binary_path_of(f.package.name, f.package.bin, host.os),
        link_path: link_path_of(f.package.bin, host.os),
    }
}

/// The plan of an install, or why there is none. The host must have a
/// target; then the version is selected; then the target's templates are
/// expanded for that version.
pub open spec fn planned(
    f: FormulaView,
    host: Host,
    explicit: Option<Seq<char>>,
    remote: Seq<Seq<char>>,
    created_at: Seq<char>,
) -> Result<InstallPlanView, CaskErrorView> {
    if f.target(host) is None {
        Err(CaskErrorView { kind: ErrorKind::UnsupportedPlatform, subject: f.package.name })
    } else {
        match selected_version(f.package, explicit, remote) {
            Err(kind) => Err(
                CaskErrorView { kind, subject: selection_subject(f.package, explicit) },
            ),
            Ok(version) => match download_target_of(f, host, version) {
                Err(kind) => Err(CaskErrorView { kind, subject: f.package.name }),
                Ok(target) => Ok(plan_for(f, host, version, target, created_at)),
            },
        }
    }
}

/// Plans the install of a package from its formula. `version` is the
/// version that the user asks for, `remote_tags` are the tags of the
/// package's repository, newest first, and `created_at` is the time of
/// the install as it goes into the record.
pub fn plan_install(
    formula: &Formula,
    host: Host,
    version: Option<&str>,
    remote_tags: &Vec<String>,
    created_at: &str,
) -> (r: Result<InstallPlan, CaskError>)
    ensures
        match r {
            Ok(plan) => planned(
                formula@,
                host,
                opt_str(version),
                texts(remote_tags@),
                created_at@,
            ) == Ok::<InstallPlanView, CaskErrorView>(plan@),
            Err(e) => planned(formula@, host, opt_str(version), texts(remote_tags@), created_at@)
                == Err::<InstallPlanView, CaskErrorView>(e@),
        },
{
    let name = formula.package.name.as_str();
    let bin = formula.package.bin.as_str();
    if formula.get_current_arch(host).is_none() {
        return Err(CaskError::new(ErrorKind::UnsupportedPlatform, name));
    }
    let chosen = match formula.select_version(version, remote_tags) {
        Ok(v) => v,
        Err(e) => {
            return Err(e);
        },
    };
    let target = match formula.get_current_download_url(host, chosen.as_str()) {
        Ok(t) => t,
        Err(e) => {
            return Err(e);
        },
    };
    let record = Cask {
        name: formula.package.name.clone(),
        created_at: String::from_str(created_at),
        version: chosen.clone(),
        repository: formula.repository.clone(),
    };
    let manifest = render_stored_manifest(&record, formula.file_content.as_str());
    let artifact = artifact_path(name, chosen.as_str(), target.ext.as_str());
    Ok(
        InstallPlan {
            version: chosen,
            directories: install_dirs(name),
            manifest_path: manifest_path(name),
            manifest,
            target,
            artifact_path: artifact,
            binary_name: binary_name(bin, host.os),
            binary_path: binary_path(name, bin, host.os),
            link_path: link_path(bin, host.os),
        },
    )
}

/// The stored manifest of a plan records the package's name and the
/// version that was selected, and holds the manifest as it was read.
pub proof fn lemma_plan_records_selection(
    f: FormulaView,
    host: Host,
    explicit: Option<Seq<char>>,
    remote: Seq<Seq<char>>,
    created_at: Seq<char>,
)
    requires
        planned(f, host, explicit, remote, created_at) is Ok,
    ensures
        ({
            let plan = planned(f, host, explicit, remote, created_at)->Ok_0;
            &&& selected_version(f.package, explicit, remote) == Ok::<Seq<char>, ErrorKind>(
                plan.version,
            )
            &&& plan.manifest == stored_manifest(
                CaskView {
                    name: f.package.name,
                    created_at,
                    version: plan.version,
                    repository: f.repository,
                },
                f.file_content,
            )
        }),
{
}

/// What an install stores reads back as the package that was installed
/// and the version that was selected: the stored manifest of a plan loads
/// as an installed manifest, wherever it is read from, with the package
/// of the formula, with the formula's text, and with an install record
/// that names the package and the selected version. This holds of every
/// formula whose package is the one that its text holds, as long as no
/// field of the record holds a double quote.
pub proof fn lemma_install_reads_back(
    f: FormulaView,
    host: Host,
    explicit: Option<Seq<char>>,
    remote: Seq<Seq<char>>,
    created_at: Seq<char>,
    filepath: Seq<char>,
    repository: Seq<char>,
)
    requires
        f.true_to_text(),
        planned(f, host, explicit, remote, created_at) is Ok,
        record_is_plain(
            install_record(f, planned(f, host, explicit, remote, created_at)->Ok_0.version, created_at),
        ),
    ensures
        ({
            let plan = planned(f, host, explicit, remote, created_at)->Ok_0;
            let again = reloaded(Some(plan.manifest), filepath, repository);
            &&& again is Ok
            &&& again->Ok_0.package == f.package
            &&& again->Ok_0.file_content == f.file_content
            &&& again->Ok_0.cask == Some(install_record(f, plan.version, created_at))
            &&& again->Ok_0.cask->0.name == f.package.name
            &&& selected_version(f.package, explicit, remote) == Ok::<Seq<char>, ErrorKind>(
                again->Ok_0.cask->0.version,
            )
        }),
{
    let plan = planned(f, host, explicit, remote, created_at)->Ok_0;
    lemma_stored_manifest_reads_back(install_record(f, plan.version, created_at), f.file_content);
}

/// How far an install has come.
#[derive(Clone, Copy, Debug, PartialEq, Eq, Structural)]
pub enum Phase {
    Start,
    /// Asked for the directories of the plan.
    MakingDirectories,
    /// Asked for the stored manifest to be written.
    WritingManifest,
    /// Asked for the artifact to be downloaded to its place.
    Downloading,
    /// Asked for the bytes of the downloaded artifact.
    ReadingArtifact,
    /// Asked for the executable to be written to its place.
    WritingBinary,
    /// Asked for the link to the executable.
    Publishing,
    Done,
}

/// Where an install stands: its phase, and its plan once there is one.
#[derive(Debug)]
pub struct InstallState {
    pub phase: Phase,
    pub plan: Option<InstallPlan>,
}

/// What happened since the last step of an install.
#[derive(Debug)]
pub enum InstallEvent {
    /// Nothing yet: the install is to start.
    Begin,
    /// The action was carried out.
    Completed,
    /// The bytes of the downloaded artifact.
    Artifact(Vec<u8>),
    /// The action failed, with the failure.
    Failed(CaskError),
}

/// What to do next in an install. The places and texts are those of the
/// plan in the state.
#[derive(Debug)]
pub enum InstallAction {
    /// Make sure of `directories`, parents first.
    EnsureDirectories,
    /// Write `manifest` to `manifest_path`.
    WriteManifest,
    /// Download the URL of `target` to `artifact_path`.
    Download,
    /// Read the file at `artifact_path`.
    ReadArtifact,
    /// Write `data` to `binary_path` and, on a POSIX host, give it `mode`.
    WriteBinary { data: Vec<u8>, mode: u32 },
    /// Put a link to `binary_path` at `link_path`, in place of what is there.
    Publish,
    /// End the install with this outcome.
    Finish(Result<(), CaskError>),
}

pub struct InstallStateView {
    pub phase: Phase,
    pub plan: Option<InstallPlanView>,
}

pub enum InstallEventView {
    Begin,
    Completed,
    Artifact(Seq<u8>),
    Failed(CaskErrorView),
}

pub enum InstallActionView {
    EnsureDirectories,
    WriteManifest,
    Download,
    ReadArtifact,
    WriteBinary { data: Seq<u8>, mode: u32 },
    Publish,
    Finish(Result<(), CaskErrorView>),
}

impl View for InstallState {
    type V = InstallStateView;

    open spec fn view(&self) -> InstallStateView {
        InstallStateView {
            phase: self.phase,
            plan: match self.plan {
                Some(p) => Some(p@),
                None => None,
            },
        }
    }
}

impl View for InstallEvent {
    type V = InstallEventView;

    open spec fn view(&self) -> InstallEventView {
        match self {
            InstallEvent::Begin => InstallEventView::Begin,
            InstallEvent::Completed => InstallEventView::Completed,
            InstallEvent::Artifact(bytes) => InstallEventView::Artifact(bytes@),
            InstallEvent::Failed(e) => InstallEventView::Failed(e@),
        }
    }
}

impl View for InstallAction {
    type V = InstallActionView;

    open spec fn view(&self) -> InstallActionView {
        match self {
            InstallAction::EnsureDirectories => InstallActionView::EnsureDirectories,
            InstallAction::WriteManifest => InstallActionView::WriteManifest,
            InstallAction::Download => InstallActionView::Download,
            InstallAction::ReadArtifact => InstallActionView::ReadArtifact,
            InstallAction::WriteBinary { data, mode } => InstallActionView::WriteBinary {
                data: data@,
                mode: *mode,
            },
            InstallAction::Publish => InstallActionView::Publish,
            InstallAction::Finish(outcome) => InstallActionView::Finish(
                match outcome {
                    Ok(_) => Ok(()),
                    Err(e) => Err(e@),
                },
            ),
        }
    }
}

/// The end of an install with a failure.
pub open spec fn stopped(plan: Option<InstallPlanView>, kind: ErrorKind, subject: Seq<char>) -> (
    InstallStateView,
    InstallActionView,
) {
    (
        InstallStateView { phase: Phase::Done, plan },
        InstallActionView::Finish(Err(CaskErrorView { kind, subject })),
    )
}

/// What follows the download: the artifact is held against the digest of
/// the plan, and only an artifact that passes is opened for the
/// executable, which is then to be written with its mode.
pub open spec fn artifact_step(plan: InstallPlanView, artifact: Seq<u8>) -> (
    InstallStateView,
    InstallActionView,
) {
    if !digest_accepted(plan.target.checksum, digest_text(artifact)) {
        stopped(Some(plan), ErrorKind::ChecksumMismatch, plan.target.url)
    } else {
        match extraction(artifact, plan.target, plan.binary_name) {
            Ok(found) => (
                InstallStateView { phase: Phase::WritingBinary, plan: Some(plan) },
                InstallActionView::WriteBinary {
                    data: found.0,
                    mode: executable_mode_of(found.1),
                },
            ),
            Err(kind) => stopped(Some(plan), kind, plan.binary_name),
        }
    }
}

/// One step of an install.
///
/// The first step plans; an install that cannot be planned ends there,
/// before anything is asked for. Then the steps follow one another:
/// directories, stored manifest, download, the artifact's digest and the
/// executable in it, the executable's file, and last of all the link. A
/// failed action ends the install with its failure, and a failed link
/// with `SymlinkFailed`; what was written until then stays. An event
/// that the phase does not wait for ends the install as an I/O failure.
pub open spec fn install_step(
    f: FormulaView,
    host: Host,
    explicit: Option<Seq<char>>,
    remote: Seq<Seq<char>>,
    created_at: Seq<char>,
    state: InstallStateView,
    event: InstallEventView,
) -> (InstallStateView, InstallActionView) {
    let go = |phase: Phase, action: InstallActionView|
        (InstallStateView { phase, plan: state.plan }, action);
    match (state.phase, event, state.plan) {
        (Phase::Start, InstallEventView::Begin, _) => match planned(
            f,
            host,
            explicit,
            remote,
            created_at,
        ) {
            Ok(plan) => (
                InstallStateView { phase: Phase::MakingDirectories, plan: Some(plan) },
                InstallActionView::EnsureDirectories,
            ),
            Err(e) => stopped(None, e.kind, e.subject),
        },
        (Phase::Done, _, _) => stopped(state.plan, ErrorKind::IOError, f.package.name),
        (Phase::Publishing, InstallEventView::Failed(_), Some(plan)) => stopped(
            state.plan,
            ErrorKind::SymlinkFailed,
            plan.binary_name,
        ),
        (_, InstallEventView::Failed(e), _) => stopped(state.plan, e.kind, e.subject),
        (Phase::MakingDirectories, InstallEventView::Completed, Some(_)) => go(
            Phase::WritingManifest,
            InstallActionView::WriteManifest,
        ),
        (Phase::WritingManifest, InstallEventView::Completed, Some(_)) => go(
            Phase::Downloading,
            InstallActionView::Download,
        ),
        (Phase::Downloading, InstallEventView::Completed, Some(_)) => go(
            Phase::ReadingArtifact,
            InstallActionView::ReadArtifact,
        ),
        (Phase::ReadingArtifact, InstallEventView::Artifact(bytes), Some(plan)) => artifact_step(
            plan,
            bytes,
        ),
        (Phase::WritingBinary, InstallEventView::Completed, Some(_)) => go(
            Phase::Publishing,
            InstallActionView::Publish,
        ),
        (Phase::Publishing, InstallEventView::Completed, Some(_)) => (
            InstallStateView { phase: Phase::Done, plan: state.plan },
            InstallActionView::Finish(Ok(())),
        ),
        _ => stopped(state.plan, ErrorKind::IOError, f.package.name),
    }
}

fn stop(plan: Option<InstallPlan>, kind: ErrorKind, subject: &str) -> (r: (
    InstallState,
    InstallAction,
))
    ensures
        (r.0@, r.1@) == stopped(
            match plan {
                Some(p) => Some(p@),
                None => None,
            },
            kind,
            subject@,
        ),
{
    (
        InstallState { phase: Phase::Done, plan },
        InstallAction::Finish(Err(CaskError::new(kind, subject))),
    )
}

/// Decides what follows the download, given the bytes of the artifact.
pub fn check_artifact(plan: InstallPlan, artifact: &[u8]) -> (r: (InstallState, InstallAction))
    ensures
        (r.0@, r.1@) == artifact_step(plan@, artifact@),
{
    let accepted = match &plan.target.checksum {
        Some(c) => verify_checksum(Some(c.as_str()), artifact),
        None => verify_checksum(None, artifact),
    };
    if accepted.is_err() {
        let url = plan.target.url.clone();
        return stop(Some(plan), ErrorKind::ChecksumMismatch, url.as_str());
    }
    match extract(artifact, &plan.target, plan.binary_name.as_str()) {
        Ok(found) => (
            InstallState { phase: Phase::WritingBinary, plan: Some(plan) },
            InstallAction::WriteBinary { data: found.data, mode: executable_mode(found.mode) },
        ),
        Err(e) => {
            let name = plan.binary_name.clone();
            stop(Some(plan), e.kind, name.as_str())
        },
    }
}

/// Decides the next step of an install from its state and what happened.
/// `version` is the version that the user asks for, `remote_tags` are the
/// tags of the package's repository, newest first, and `created_at` is
/// the time of the install; they are looked at in the first step only.
pub fn install(
    formula: &Formula,
    host: Host,
    version: Option<&str>,
    remote_tags: &Vec<String>,
    created_at: &str,
    state: InstallState,
    event: InstallEvent,
) -> (r: (InstallState, InstallAction))
    ensures
        (r.0@, r.1@) == install_step(
            formula@,
            host,
            opt_str(version),
            texts(remote_tags@),
            created_at@,
            state@,
            event@,
        ),
{
    let name = formula.package.name.as_str();
    let InstallState { phase, plan } = state;
    match (phase, event, plan) {
        (Phase::Start, InstallEvent::Begin, _) => {
            match plan_install(formula, host, version, remote_tags, created_at) {
                Ok(plan) => (
                    InstallState { phase: Phase::MakingDirectories, plan: Some(plan) },
                    InstallAction::EnsureDirectories,
                ),
                Err(e) => stop(None, e.kind, e.subject.as_str()),
            }
        },
        (Phase::Done, _, plan) => stop(plan, ErrorKind::IOError, name),
        (Phase::Publishing, InstallEvent::Failed(_), Some(plan)) => {
            let binary = plan.binary_name.clone();
            stop(Some(plan), ErrorKind::SymlinkFailed, binary.as_str())
        },
        (_, InstallEvent::Failed(e), plan) => stop(plan, e.kind, e.subject.as_str()),
        (Phase::MakingDirectories, InstallEvent::Completed, Some(plan)) => (
            InstallState { phase: Phase::WritingManifest, plan: Some(plan) },
            InstallAction::WriteManifest,
        ),
        (Phase::WritingManifest, InstallEvent::Completed, Some(plan)) => (
            InstallState { phase: Phase::Downloading, plan: Some(plan) },
            InstallAction::Download,
        ),
        (Phase::Downloading, InstallEvent::Completed, Some(plan)) => (
            InstallState { phase: Phase::ReadingArtifact, plan: Some(plan) },
            InstallAction::ReadArtifact,
        ),
        (Phase::ReadingArtifact, InstallEvent::Artifact(bytes), Some(plan)) => check_artifact(
            plan,
            bytes.as_slice(),
        ),
        (Phase::WritingBinary, InstallEvent::Completed, Some(plan)) => (
            InstallState { phase: Phase::Publishing, plan: Some(plan) },
            InstallAction::Publish,
        ),
        (Phase::Publishing, InstallEvent::Completed, Some(plan)) => (
            InstallState { phase: Phase::Done, plan: Some(plan) },
            InstallAction::Finish(Ok(())),
        ),
        (_, _, plan) => stop(plan, ErrorKind::IOError, name),
    }
}

/// The link is made last: it is asked for only once the executable is
/// written, and the install succeeds only once the link is made.
pub proof fn lemma_link_is_made_last(
    f: FormulaView,
    host: Host,
    explicit: Option<Seq<char>>,
    remote: Seq<Seq<char>>,
    created_at: Seq<char>,
    state: InstallStateView,
    event: InstallEventView,
)
    ensures
        install_step(f, host, explicit, remote, created_at, state, event).1 is Publish ==> (
        state.phase == Phase::WritingBinary && event is Completed),
        install_step(f, host, explicit, remote, created_at, state, event).1
            == InstallActionView::Finish(Ok(())) ==> (state.phase == Phase::Publishing && event
            is Completed),
        install_step(f, host, explicit, remote, created_at, state, event).1 is Finish <==> install_step(
            f,
            host,
            explicit,
            remote,
            created_at,
            state,
            event,
        ).0.phase == Phase::Done,
{
}

/// The executable is written only from an artifact that passed its
/// digest and that holds the executable: a digest that does not match
/// stops the install before the artifact is opened.
pub proof fn lemma_binary_comes_from_checked_artifact(
    f: FormulaView,
    host: Host,
    explicit: Option<Seq<char>>,
    remote: Seq<Seq<char>>,
    created_at: Seq<char>,
    state: InstallStateView,
    event: InstallEventView,
)
    requires
        install_step(f, host, explicit, remote, created_at, state, event).1 is WriteBinary,
    ensures
        state.phase == Phase::ReadingArtifact,
        state.plan is Some,
        event is Artifact,
        digest_accepted(state.plan->0.target.checksum, digest_text(event->Artifact_0)),
        extraction(event->Artifact_0, state.plan->0.target, state.plan->0.binary_name) is Ok,
        install_step(f, host, explicit, remote, created_at, state, event).1->WriteBinary_data
            == extraction(
            event->Artifact_0,
            state.plan->0.target,
            state.plan->0.binary_name,
        )->Ok_0.0,
{
}

/// A digest that does not match ends the install with `ChecksumMismatch`.
pub proof fn lemma_mismatch_stops_the_install(plan: InstallPlanView, artifact: Seq<u8>)
    requires
        !digest_accepted(plan.target.checksum, digest_text(artifact)),
    ensures
        artifact_step(plan, artifact) == stopped(
            Some(plan),
            ErrorKind::ChecksumMismatch,
            plan.target.url,
        ),
{
}

/// A tar archive without an entry for the executable ends the install
/// with `BinaryNotFound`: once such an artifact is read, the install is
/// over, no executable is written and no link is made.
pub proof fn lemma_tar_without_binary_stops_the_install(
    f: FormulaView,
    host: Host,
    explicit: Option<Seq<char>>,
    remote: Seq<Seq<char>>,
    created_at: Seq<char>,
    plan: InstallPlanView,
    artifact: Seq<u8>,
)
    requires
        !plan.target.executable,
        Extension::named(plan.target.ext) == Some(Extension::Tar),
        digest_accepted(plan.target.checksum, digest_text(artifact)),
        tar_listing(artifact).complete,
        forall|i: int|
            0 <= i < tar_listing(artifact).entries.len() ==> !is_wanted(
                #[trigger] tar_listing(artifact).entries[i],
                plan.binary_name,
                plan.target.path,
                false,
            ),
    ensures
        install_step(
            f,
            host,
            explicit,
            remote,
            created_at,
            InstallStateView { phase: Phase::ReadingArtifact, plan: Some(plan) },
            InstallEventView::Artifact(artifact),
        ) == stopped(Some(plan), ErrorKind::BinaryNotFound, plan.binary_name),
{
    lemma_nothing_wanted_is_not_found(
        artifact,
        Extension::Tar,
        plan.binary_name,
        plan.target.path,
    );
}

} // verus!
