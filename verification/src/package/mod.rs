//! Hook packages: where they are fetched to, and the steps of a fetch.
//!
//! A package is installed in three steps: it is resolved to a place it can
//! be had from, it is fetched, and it is linked into the project. Nothing
//! here touches the network or the file system. A fetch is a small machine:
//! it says what is to be done next, is told how that went, and so on until
//! it ends with a package or an error.
pub mod cache;
pub mod resolve;

use vstd::prelude::*;
use vstd::string::StringExecFns;

use crate::config::Package;
use crate::errors::TackleError;
use crate::paths::{join, join_path, PathStatus};
use crate::util::{names_repository, package_into_git_url, repository_id};

verus! {

/// The directory of a project, relative to its root, that fetched packages
/// are kept in.
pub const HOOKS_DIRECTORY: &'static str = ".tackle/hooks";

/// The name of the manifest file at the root of a package's repository.
pub const PACKAGE_MANIFEST: &'static str = "package.toml";

/// How an attempt to load and parse a manifest file went.
#[derive(Debug, Clone, PartialEq, Eq)]
pub enum Loaded<T> {
    /// No regular file is at the path.
    Missing,
    /// The file is there but could not be read.
    Unreadable,
    /// The file was read but is not a valid manifest; carries the parser's
    /// diagnostic.
    Malformed(String),
    /// The manifest.
    Parsed(T),
}

/// What a loaded manifest of a package amounts to.
pub open spec fn package_of(load: Loaded<Package>) -> Result<Package, TackleError> {
    match load {
        Loaded::Missing => Err(TackleError::ManifestNotFound),
        Loaded::Unreadable => Err(TackleError::ManifestReadFailed),
        Loaded::Malformed(diagnostic) => Err(TackleError::ManifestParseFailed(diagnostic)),
        Loaded::Parsed(package) => Ok(package),
    }
}

impl Package {
    /// The package of a manifest that was loaded, or the error that says
    /// why there is none.
    pub fn from_load(load: Loaded<Package>) -> (package: Result<Package, TackleError>)
        ensures
            package == package_of(load),
    {
        match load {
            Loaded::Missing => Err(TackleError::ManifestNotFound),
            Loaded::Unreadable => Err(TackleError::ManifestReadFailed),
            Loaded::Malformed(diagnostic) => Err(TackleError::ManifestParseFailed(diagnostic)),
            Loaded::Parsed(package) => Ok(package),
        }
    }
}

/// The directory that the repository `repository` is fetched to in the
/// project at `project_root`.
pub open spec fn fetch_target(project_root: Seq<char>, repository: Seq<char>) -> Seq<char> {
    join_path(join_path(project_root, HOOKS_DIRECTORY@), repository)
}

/// The address that the repository `repository` is cloned from.
pub open spec fn clone_url(repository: Seq<char>) -> Seq<char> {
    "https://"@ + repository + ".git"@
}

/// How far a fetch has come.
#[derive(Debug, Clone, Copy, PartialEq, Eq, Structural)]
pub enum FetchStage {
    /// It waits to learn what is at the target.
    Probing,
    /// It waits for the clone to end.
    Cloning,
    /// It waits for the manifest of the clone.
    Loading,
    /// It has ended.
    Finished,
}

/// What the one who drives a fetch is to do next.
#[derive(Debug, PartialEq, Eq)]
pub enum FetchAction {
    /// Look at what is at `path`, and report it with [`FetchEvent::Probed`].
    Probe { path: String },
    /// Clone the repository at `url` into the directory `into`, and report
    /// with [`FetchEvent::Cloned`] or [`FetchEvent::CloneFailed`].
    Clone { url: String, into: String },
    /// Load and parse the manifest at `path`, and report it with
    /// [`FetchEvent::Loaded`].
    Load { path: String },
    /// Nothing: the fetch has ended, with this package or error.
    Finish { result: Result<Package, TackleError> },
}

/// The mathematical content of a [`FetchAction`].
pub enum FetchActionView {
    Probe { path: Seq<char> },
    Clone { url: Seq<char>, into: Seq<char> },
    Load { path: Seq<char> },
    Finish { result: Result<Package, TackleError> },
}

impl View for FetchAction {
    type V = FetchActionView;

    open spec fn view(&self) -> FetchActionView {
        match self {
            FetchAction::Probe { path } => FetchActionView::Probe { path: path@ },
            FetchAction::Clone { url, into } => FetchActionView::Clone { url: url@, into: into@ },
            FetchAction::Load { path } => FetchActionView::Load { path: path@ },
            FetchAction::Finish { result } => FetchActionView::Finish { result: *result },
        }
    }
}

/// What the one who drives a fetch reports back.
#[derive(Debug, Clone, PartialEq, Eq)]
pub enum FetchEvent {
    /// What was found at the path of the last [`FetchAction::Probe`].
    Probed(PathStatus),
    /// The clone succeeded; carries the working directory of the clone.
    Cloned(String),
    /// The clone failed.
    CloneFailed,
    /// How loading the manifest went.
    Loaded(Loaded<Package>),
}

/// A fetch in progress.
#[derive(Debug)]
pub struct Fetch {
    repository: String,
    target: String,
    stage: FetchStage,
}

/// The mathematical content of a [`Fetch`].
pub struct FetchView {
    /// The repository that is fetched, as `host/owner/name`.
    pub repository: Seq<char>,
    /// The directory that it is fetched to.
    pub target: Seq<char>,
    /// How far the fetch has come.
    pub stage: FetchStage,
}

impl View for Fetch {
    type V = FetchView;

    closed spec fn view(&self) -> FetchView {
        FetchView { repository: self.repository@, target: self.target@, stage: self.stage }
    }
}

/// The event `event` is one that a fetch at stage `stage` waits for.
pub open spec fn awaited(stage: FetchStage, event: FetchEvent) -> bool {
    match stage {
        FetchStage::Probing => event is Probed,
        FetchStage::Cloning => event is Cloned || event is CloneFailed,
        FetchStage::Loading => event is Loaded,
        FetchStage::Finished => false,
    }
}

/// The stage that a fetch at stage `stage` is at after `event`.
pub open spec fn stage_after(stage: FetchStage, event: FetchEvent) -> FetchStage {
    match (stage, event) {
        (FetchStage::Probing, FetchEvent::Probed(PathStatus::Missing)) => FetchStage::Cloning,
        (FetchStage::Cloning, FetchEvent::Cloned(_)) => FetchStage::Loading,
        _ => FetchStage::Finished,
    }
}

/// What is to be done after `event`, in a fetch of `repository` to
/// `target`.
///
/// - Something is at the target already: the fetch ends with
///   `AlreadyFetched`. Nothing is there: the repository is to be cloned
///   from its `https` address to the target.
/// - The clone failed: the fetch ends with `RepositoryCloneFailed`. It
///   succeeded: the manifest at the root of its working directory is to be
///   loaded.
/// - The manifest is missing, unreadable or malformed: the fetch ends with
///   the error that says so. Else it ends with the package.
pub open spec fn action_after(repository: Seq<char>, target: Seq<char>, event: FetchEvent) -> FetchActionView {
    match event {
        FetchEvent::Probed(found) => if found.present() {
            FetchActionView::Finish { result: Err(TackleError::AlreadyFetched) }
        } else {
            FetchActionView::Clone { url: clone_url(repository), into: target }
        },
        FetchEvent::CloneFailed => FetchActionView::Finish {
            result: Err(TackleError::RepositoryCloneFailed),
        },
        FetchEvent::Cloned(workdir) => FetchActionView::Load {
            path: join_path(workdir@, PACKAGE_MANIFEST@),
        },
        FetchEvent::Loaded(load) => FetchActionView::Finish { result: package_of(load) },
    }
}

/// Begins to fetch the package `package` into the project at
/// `project_root`. An identifier that names no repository is refused. Else
/// the fetch waits to learn what is at its target, and the first thing to
/// do is to look there.
pub fn fetch_package(project_root: &str, package: &str) -> (begun: Result<
    (Fetch, FetchAction),
    TackleError,
>)
    ensures
        match begun {
            Ok((fetch, action)) => {
                &&& names_repository(package@)
                &&& fetch@.repository == repository_id(package@)
                &&& fetch@.target == fetch_target(project_root@, repository_id(package@))
                &&& fetch@.stage == FetchStage::Probing
                &&& action@ == (FetchActionView::Probe { path: fetch@.target })
            },
            Err(e) => !names_repository(package@) && e == TackleError::InvalidIdentifier,
        },
{
    let repository = match package_into_git_url(package) {
        Ok(repository) => repository,
        Err(e) => { return Err(e); },
    };
    let hooks = join(project_root, HOOKS_DIRECTORY);
    let target = join(hooks.as_str(), repository.as_str());
    let path = target.clone();
    Ok((Fetch { repository, target, stage: FetchStage::Probing }, FetchAction::Probe { path }))
}

impl Fetch {
    /// How far the fetch has come.
    pub fn stage(&self) -> (stage: FetchStage)
        ensures
            stage == self@.stage,
    {
        self.stage
    }

    /// Whether the fetch waits for `event`.
    pub fn awaits(&self, event: &FetchEvent) -> (waits: bool)
        ensures
            waits == awaited(self@.stage, *event),
    {
        match self.stage {
            FetchStage::Probing => matches!(event, FetchEvent::Probed(_)),
            FetchStage::Cloning => matches!(event, FetchEvent::Cloned(_))
                || matches!(event, FetchEvent::CloneFailed),
            FetchStage::Loading => matches!(event, FetchEvent::Loaded(_)),
            FetchStage::Finished => false,
        }
    }

    /// Takes the fetch one step on: told how the last action went, it says
    /// what is to be done next. The event must be one the fetch waits for.
    pub fn step(&mut self, event: FetchEvent) -> (action: FetchAction)
        requires
            awaited(old(self)@.stage, event),
        ensures
            final(self)@.repository == old(self)@.repository,
            final(self)@.target == old(self)@.target,
            final(self)@.stage == stage_after(old(self)@.stage, event),
            action@ == action_after(old(self)@.repository, old(self)@.target, event),
    {
        match event {
            FetchEvent::Probed(status) => {
                if status.is_present() {
                    self.stage = FetchStage::Finished;
                    FetchAction::Finish { result: Err(TackleError::AlreadyFetched) }
                } else {
                    self.stage = FetchStage::Cloning;
                    let mut url = String::from_str("https://");
                    url.append(self.repository.as_str());
                    url.append(".git");
                    FetchAction::Clone { url, into: self.target.clone() }
                }
            },
            FetchEvent::CloneFailed => {
                self.stage = FetchStage::Finished;
                FetchAction::Finish { result: Err(TackleError::RepositoryCloneFailed) }
            },
            FetchEvent::Cloned(workdir) => {
                self.stage = FetchStage::Loading;
                FetchAction::Load { path: join(workdir.as_str(), PACKAGE_MANIFEST) }
            },
            FetchEvent::Loaded(load) => {
                self.stage = FetchStage::Finished;
                FetchAction::Finish { result: Package::from_load(load) }
            },
        }
    }
}

/// Where something is at the target, the fetch ends at once with
/// `AlreadyFetched`: nothing is cloned, nothing is loaded, and the fetch
/// waits for no further event, so nothing is ever asked to be done to what
/// is there. A package that was fetched is therefore not fetched over.
pub proof fn lemma_taken_target_ends_fetch(
    repository: Seq<char>,
    target: Seq<char>,
    found: PathStatus,
    later: FetchEvent,
)
    requires
        found.present(),
    ensures
        action_after(repository, target, FetchEvent::Probed(found)) == (FetchActionView::Finish {
            result: Err(TackleError::AlreadyFetched),
        }),
        stage_after(FetchStage::Probing, FetchEvent::Probed(found)) == FetchStage::Finished,
        !awaited(stage_after(FetchStage::Probing, FetchEvent::Probed(found)), later),
{
}

/// What a fetch ends with, where `found` is what is at its target,
/// `cloned` is the working directory of the clone, or `None` where the
/// clone failed, and `load` is how loading the manifest went. What comes
/// first decides: a taken target, then a failed clone, then the manifest.
pub open spec fn fetch_outcome(found: PathStatus, cloned: Option<String>, load: Loaded<Package>) -> Result<
    Package,
    TackleError,
> {
    if found.present() {
        Err(TackleError::AlreadyFetched)
    } else if cloned is None {
        Err(TackleError::RepositoryCloneFailed)
    } else {
        package_of(load)
    }
}

/// The event that reports how a clone went.
pub open spec fn clone_event(cloned: Option<String>) -> FetchEvent {
    match cloned {
        Some(workdir) => FetchEvent::Cloned(workdir),
        None => FetchEvent::CloneFailed,
    }
}

/// A fetch that is driven as it asks to be ends with [`fetch_outcome`]:
/// at the first step where something is at the target, at the second where
/// the clone failed, and else at the third. Until it ends, it waits for the
/// event that reports on what it asked for last.
pub proof fn lemma_fetch_ends_with_outcome(
    repository: Seq<char>,
    target: Seq<char>,
    found: PathStatus,
    cloned: Option<String>,
    load: Loaded<Package>,
)
    ensures
        ({
            let outcome = FetchActionView::Finish { result: fetch_outcome(found, cloned, load) };
            let probed = FetchEvent::Probed(found);
            let second = stage_after(FetchStage::Probing, probed);
            let third = stage_after(second, clone_event(cloned));
            let loaded = FetchEvent::Loaded(load);
            if found.present() {
                action_after(repository, target, probed) == outcome && second
                    == FetchStage::Finished
            } else if cloned is None {
                &&& action_after(repository, target, probed) is Clone
                &&& awaited(second, clone_event(cloned))
                &&& action_after(repository, target, clone_event(cloned)) == outcome
                &&& third == FetchStage::Finished
            } else {
                &&& action_after(repository, target, probed) is Clone
                &&& awaited(second, clone_event(cloned))
                &&& action_after(repository, target, clone_event(cloned)) is Load
                &&& awaited(third, loaded)
                &&& action_after(repository, target, loaded) == outcome
                &&& stage_after(third, loaded) == FetchStage::Finished
            }
        }),
{
}

} // verus!
