//! A project that hooks are installed into: where its files lie, and the
//! decisions of setting it up, installing into it and listing it.
use vstd::prelude::*;
use vstd::string::StringExecFns;

use crate::config::{TackleManifest, TackleManifestHook, TackleManifestHookView, TackleManifestView};
use crate::errors::TackleError;
use crate::package::Loaded;
use crate::paths::{join, join_path, PathStatus};

verus! {

/// The directory of a project, relative to its root, that holds what
/// belongs to the hook manager.
pub const TACKLE_DIRECTORY: &'static str = ".tackle";

/// The manifest of a project, relative to its root.
pub const PROJECT_MANIFEST: &'static str = ".tackle/tackle.toml";

/// What the search for the git repository around the working directory
/// found.
#[derive(Debug, Clone, PartialEq, Eq)]
pub enum Discovery {
    /// No repository.
    NotFound,
    /// A repository without a work tree.
    Bare,
    /// A repository whose work tree is at this path.
    WorkTree(String),
}

/// One thing to do to set a project up.
#[derive(Debug, Clone, PartialEq, Eq)]
pub enum SetupStep {
    /// Create the directory at this path, with the directories above it.
    CreateDirectory(String),
    /// Write the default project manifest to this path.
    WriteManifest(String),
    /// Write the default ignore file to this path.
    WriteIgnoreFile(String),
}

/// The mathematical content of a [`SetupStep`].
pub enum SetupStepView {
    CreateDirectory(Seq<char>),
    WriteManifest(Seq<char>),
    WriteIgnoreFile(Seq<char>),
}

impl View for SetupStep {
    type V = SetupStepView;

    open spec fn view(&self) -> SetupStepView {
        match self {
            SetupStep::CreateDirectory(path) => SetupStepView::CreateDirectory(path@),
            SetupStep::WriteManifest(path) => SetupStepView::WriteManifest(path@),
            SetupStep::WriteIgnoreFile(path) => SetupStepView::WriteIgnoreFile(path@),
        }
    }
}

impl DeepView for SetupStep {
    type V = SetupStepView;

    open spec fn deep_view(&self) -> SetupStepView {
        self.view()
    }
}

impl SetupStep {
    /// The error that a failure of this step is reported as; `message` is
    /// what the system said.
    pub fn failure(&self, message: String) -> (error: TackleError)
        ensures
            error == match self {
                SetupStep::CreateDirectory(_) => TackleError::CreateTackleDirectoryFailed(message),
                _ => TackleError::ManifestWriteFailed,
            },
    {
        match self {
            SetupStep::CreateDirectory(_) => TackleError::CreateTackleDirectoryFailed(message),
            _ => TackleError::ManifestWriteFailed,
        }
    }
}

/// The root of the project: the work tree of the repository that was
/// found. No repository, or one without a work tree, is an error.
pub fn get_project_root(discovery: Discovery) -> (root: Result<String, TackleError>)
    ensures
        root == match discovery {
            Discovery::WorkTree(path) => Ok::<String, TackleError>(path),
            _ => Err(TackleError::RepositoryDiscoveryFailed),
        },
{
    match discovery {
        Discovery::WorkTree(path) => Ok(path),
        _ => Err(TackleError::RepositoryDiscoveryFailed),
    }
}

/// The hook manager's directory in the project at `workdir`.
pub fn tackle_directory(workdir: &str) -> (path: String)
    ensures
        path@ == join_path(workdir@, TACKLE_DIRECTORY@),
{
    join(workdir, TACKLE_DIRECTORY)
}

/// The manifest of the project at `workdir`.
pub fn manifest_path(workdir: &str) -> (path: String)
    ensures
        path@ == join_path(workdir@, PROJECT_MANIFEST@),
{
    join(workdir, PROJECT_MANIFEST)
}

/// Whether a project has the hook manager's directory, given in `found`
/// what is at the path that [`tackle_directory`] names: it has where a
/// directory is there.
pub fn check_tackle_directory_exists(found: PathStatus) -> (exists_as_directory: bool)
    ensures
        exists_as_directory == (found == PathStatus::Directory),
{
    found.is_present() && found.is_dir()
}

/// Whether the project is set up, given in `found` what is at the hook
/// manager's directory of the project, or `None` where no project root was
/// found at all.
pub fn is_initialized(found: Option<PathStatus>) -> (initialized: bool)
    ensures
        initialized == (found == Some(PathStatus::Directory)),
{
    match found {
        Some(found) => check_tackle_directory_exists(found),
        None => false,
    }
}

/// Whether a project may be set up, given in `found` what is at its hook
/// manager's directory: a project that has the directory is set up already.
pub fn initialize(found: PathStatus) -> (admitted: Result<(), TackleError>)
    ensures
        admitted == if found == PathStatus::Directory {
            Err::<(), TackleError>(TackleError::AlreadyInitialized)
        } else {
            Ok(())
        },
{
    if check_tackle_directory_exists(found) {
        Err(TackleError::AlreadyInitialized)
    } else {
        Ok(())
    }
}

/// What is to be done to set up the project at `workdir`, where `tackle` is
/// what is at its hook manager's directory and `hooks` what is at the
/// `hooks` directory in it.
pub open spec fn setup_steps(workdir: Seq<char>, tackle: PathStatus, hooks: PathStatus) -> Seq<
    SetupStepView,
> {
    let directory = join_path(workdir, TACKLE_DIRECTORY@);
    let create_directory = if tackle.present() {
        Seq::empty()
    } else {
        seq![SetupStepView::CreateDirectory(directory)]
    };
    let create_hooks = if hooks.present() {
        Seq::empty()
    } else {
        seq![SetupStepView::CreateDirectory(join_path(directory, "hooks"@))]
    };
    create_directory + create_hooks + seq![
        SetupStepView::WriteManifest(join_path(directory, "tackle.toml"@)),
        SetupStepView::WriteIgnoreFile(join_path(directory, ".gitignore"@)),
    ]
}

/// What is to be done, in this order, to set up the project at `workdir`:
/// the hook manager's directory and the `hooks` directory in it are
/// created where nothing is there, and the default manifest and the
/// default ignore file are written, over what may be there.
pub fn create_tackle_directory(workdir: &str, tackle: PathStatus, hooks: PathStatus) -> (steps: Vec<
    SetupStep,
>)
    ensures
        steps.deep_view() == setup_steps(workdir@, tackle, hooks),
{
    let directory = tackle_directory(workdir);
    let mut steps: Vec<SetupStep> = Vec::new();
    if !tackle.is_present() {
        steps.push(SetupStep::CreateDirectory(directory.clone()));
    }
    if !hooks.is_present() {
        steps.push(SetupStep::CreateDirectory(join(directory.as_str(), "hooks")));
    }
    steps.push(SetupStep::WriteManifest(join(directory.as_str(), "tackle.toml")));
    steps.push(SetupStep::WriteIgnoreFile(join(directory.as_str(), ".gitignore")));
    assert(steps.deep_view() =~= setup_steps(workdir@, tackle, hooks));
    steps
}

/// What a loaded project manifest amounts to.
pub open spec fn manifest_of(load: Loaded<TackleManifest>) -> Result<TackleManifest, TackleError> {
    match load {
        Loaded::Missing => Err(TackleError::ManifestReadFailed),
        Loaded::Unreadable => Err(TackleError::ManifestReadFailed),
        Loaded::Malformed(diagnostic) => Err(TackleError::ManifestParseFailed(diagnostic)),
        Loaded::Parsed(manifest) => Ok(manifest),
    }
}

/// The manifest of a project, given how loading the file that
/// [`manifest_path`] names went; or the error that says why there is none.
pub fn read_manifest(load: Loaded<TackleManifest>) -> (manifest: Result<
    TackleManifest,
    TackleError,
>)
    ensures
        manifest == manifest_of(load),
{
    match load {
        Loaded::Missing => Err(TackleError::ManifestReadFailed),
        Loaded::Unreadable => Err(TackleError::ManifestReadFailed),
        Loaded::Malformed(diagnostic) => Err(TackleError::ManifestParseFailed(diagnostic)),
        Loaded::Parsed(manifest) => Ok(manifest),
    }
}

/// The record that the project manifest gets for a package installed
/// under the identifier `url`.
pub open spec fn manifest_entry(url: Seq<char>) -> TackleManifestHookView {
    TackleManifestHookView { url: url, version: seq!['1'], integrity: Seq::empty() }
}

/// The record of a package that is installed under the identifier `url`
/// into a project; a project that is not set up takes no package.
pub fn install(url: String, initialized: bool) -> (entry: Result<TackleManifestHook, TackleError>)
    ensures
        match entry {
            Ok(entry) => initialized && entry@ == manifest_entry(url@),
            Err(e) => !initialized && e == TackleError::NotInitialized,
        },
{
    if !initialized {
        return Err(TackleError::NotInitialized);
    }
    proof {
        reveal_strlit("1");
        assert("1"@ =~= seq!['1']);
    }
    Ok(TackleManifestHook { url, integrity: String::new(), version: String::from_str("1") })
}

/// One line for each of `hooks`: a tab and the identifier it was installed
/// under.
pub open spec fn hook_lines(hooks: Seq<TackleManifestHookView>) -> Seq<Seq<char>> {
    Seq::new(hooks.len(), |i: int| seq!['\t'] + hooks[i].url)
}

/// The line that stands for an empty list.
pub open spec fn empty_notice(empty: bool) -> Seq<Seq<char>> {
    if empty {
        seq!["\tNo hooks installed."@]
    } else {
        Seq::empty()
    }
}

/// The lines that list the installed hooks of `manifest`. The notice of an
/// empty list is shown under both headings when no pre-commit hook is
/// installed, and under neither when one is.
pub open spec fn listing(manifest: TackleManifestView) -> Seq<Seq<char>> {
    seq!["Pre-commit Hooks:"@] + hook_lines(manifest.hooks.precommit) + empty_notice(
        manifest.hooks.precommit.len() == 0,
    ) + seq!["Post-commit Hooks:"@] + hook_lines(manifest.hooks.postcommit) + empty_notice(
        manifest.hooks.precommit.len() == 0,
    )
}

/// Adds one line for each of `hooks` to `lines`.
fn push_hook_lines(lines: &mut Vec<String>, hooks: &Vec<TackleManifestHook>)
    ensures
        final(lines).deep_view() == old(lines).deep_view() + hook_lines(hooks.deep_view()),
{
    let ghost start = lines.deep_view();
    let mut i: usize = 0;
    while i < hooks.len()
        invariant
            i <= hooks.len(),
            lines.deep_view() == start + hook_lines(hooks.deep_view().take(i as int)),
        decreases hooks.len() - i,
    {
        let ghost before = lines.deep_view();
        let mut line = String::from_str("\t");
        proof {
            reveal_strlit("\t");
            assert("\t"@ =~= seq!['\t']);
        }
        line.append(hooks[i].url.as_str());
        lines.push(line);
        assert(lines.deep_view() =~= start + hook_lines(hooks.deep_view().take(i + 1))) by {
            let now = start + hook_lines(hooks.deep_view().take(i + 1));
            assert(before.len() == start.len() + i);
            assert(lines.deep_view().len() == before.len() + 1);
            assert forall|k: int| 0 <= k < lines.deep_view().len() implies lines.deep_view()[k]
                == now[k] by {
                if k < before.len() {
                    assert(lines.deep_view()[k] == before[k]);
                } else {
                    assert(hooks.deep_view()[i as int].url == hooks[i as int].url@);
                }
            }
        }
        i += 1;
    }
    assert(hooks.deep_view().take(hooks.len() as int) =~= hooks.deep_view());
}

/// Adds the notice of an empty list to `lines` where `empty` says so.
fn push_empty_notice(lines: &mut Vec<String>, empty: bool)
    ensures
        final(lines).deep_view() == old(lines).deep_view() + empty_notice(empty),
{
    let ghost before = lines.deep_view();
    if empty {
        lines.push(String::from_str("\tNo hooks installed."));
        assert(lines.deep_view() =~= before + empty_notice(empty)) by {
            assert forall|k: int| 0 <= k < before.len() implies lines.deep_view()[k]
                == before[k] by {}
        }
    } else {
        assert(lines.deep_view() =~= before + empty_notice(empty));
    }
}

/// The lines that list the installed hooks of `manifest`, to be shown one
/// below the other.
pub fn list(manifest: &TackleManifest) -> (lines: Vec<String>)
    ensures
        lines.deep_view() == listing(manifest@),
{
    let mut lines: Vec<String> = Vec::new();
    let none = manifest.hooks.precommit.len() == 0;
    lines.push(String::from_str("Pre-commit Hooks:"));
    assert(lines.deep_view() =~= seq!["Pre-commit Hooks:"@]);
    push_hook_lines(&mut lines, &manifest.hooks.precommit);
    push_empty_notice(&mut lines, none);
    let ghost before = lines.deep_view();
    lines.push(String::from_str("Post-commit Hooks:"));
    assert(lines.deep_view() =~= before + seq!["Post-commit Hooks:"@]) by {
        assert forall|k: int| 0 <= k < before.len() implies lines.deep_view()[k] == before[k] by {}
    }
    push_hook_lines(&mut lines, &manifest.hooks.postcommit);
    push_empty_notice(&mut lines, none);
    lines
}

} // verus!
