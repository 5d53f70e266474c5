//! The manifests: what a hook package declares, and what a project has
//! installed.
use vstd::prelude::*;

use crate::errors::TackleError;
use crate::text::same_text;

verus! {

/// The git events that a hook can be named for on the command line.
#[derive(Debug, Clone, Copy, PartialEq, Eq, Structural)]
pub enum Hook {
    /// Before a commit is made.
    PreCommit,
}

impl Hook {
    /// The event that `name` names; any name but `precommit` is refused.
    pub fn from_name(name: &str) -> (hook: Result<Hook, TackleError>)
        ensures
            match hook {
                Ok(hook) => name@ == "precommit"@ && hook == Hook::PreCommit,
                Err(e) => name@ != "precommit"@ && e == TackleError::InvalidCommitHook,
            },
    {
        if same_text(name, "precommit") {
            Ok(Hook::PreCommit)
        } else {
            Err(TackleError::InvalidCommitHook)
        }
    }
}

impl core::str::FromStr for Hook {
    type Err = TackleError;

    /// The event that `s` names; any name but `precommit` is refused.
    fn from_str(s: &str) -> (hook: Result<Hook, TackleError>)
        ensures
            match hook {
                Ok(hook) => s@ == "precommit"@ && hook == Hook::PreCommit,
                Err(e) => s@ != "precommit"@ && e == TackleError::InvalidCommitHook,
            },
    {
        Hook::from_name(s)
    }
}

/// One clause of a hook's conditions. Every list must hold for the clause
/// to hold; an empty list asks for nothing.
#[derive(Debug, Clone, PartialEq, Eq)]
pub struct HookCondition {
    /// Ids of hooks that must have succeeded.
    pub successful: Vec<String>,
    /// Ids of hooks that must have failed.
    pub failed: Vec<String>,
    /// Ids of hooks that must have been skipped.
    pub skipped: Vec<String>,
    /// Paths that must be present.
    pub exists: Vec<String>,
    /// Names that the current branch must bear.
    pub branch: Vec<String>,
}

/// The mathematical content of a [`HookCondition`].
pub struct HookConditionView {
    pub successful: Seq<Seq<char>>,
    pub failed: Seq<Seq<char>>,
    pub skipped: Seq<Seq<char>>,
    pub exists: Seq<Seq<char>>,
    pub branch: Seq<Seq<char>>,
}

impl View for HookCondition {
    type V = HookConditionView;

    open spec fn view(&self) -> HookConditionView {
        HookConditionView {
            successful: self.successful.deep_view(),
            failed: self.failed.deep_view(),
            skipped: self.skipped.deep_view(),
            exists: self.exists.deep_view(),
            branch: self.branch.deep_view(),
        }
    }
}

impl DeepView for HookCondition {
    type V = HookConditionView;

    open spec fn deep_view(&self) -> HookConditionView {
        self.view()
    }
}

impl HookConditionView {
    /// A clause that asks for nothing.
    pub open spec fn is_empty(self) -> bool {
        &&& self.successful.len() == 0
        &&& self.failed.len() == 0
        &&& self.skipped.len() == 0
        &&& self.exists.len() == 0
        &&& self.branch.len() == 0
    }
}

impl HookCondition {
    /// The clause that asks for nothing, and so always holds.
    pub fn always() -> (clause: HookCondition)
        ensures
            clause@.is_empty(),
    {
        HookCondition {
            successful: Vec::new(),
            failed: Vec::new(),
            skipped: Vec::new(),
            exists: Vec::new(),
            branch: Vec::new(),
        }
    }
}

/// A hook as a package declares it.
#[derive(Debug, Clone, PartialEq, Eq)]
pub struct HookDefinition {
    /// The name by which the conditions of other hooks refer to this one.
    pub id: Option<String>,
    /// The command to run, as an argument vector.
    pub command: Vec<String>,
    /// Executables that must be on the search path for the hook to run.
    pub dependencies: Vec<String>,
    /// The hook may run when any one of these clauses holds.
    pub conditions: Vec<HookCondition>,
}

/// The mathematical content of a [`HookDefinition`].
pub struct HookDefinitionView {
    pub id: Option<Seq<char>>,
    pub command: Seq<Seq<char>>,
    pub dependencies: Seq<Seq<char>>,
    pub conditions: Seq<HookConditionView>,
}

impl View for HookDefinition {
    type V = HookDefinitionView;

    open spec fn view(&self) -> HookDefinitionView {
        HookDefinitionView {
            id: self.id.deep_view(),
            command: self.command.deep_view(),
            dependencies: self.dependencies.deep_view(),
            conditions: self.conditions.deep_view(),
        }
    }
}

impl DeepView for HookDefinition {
    type V = HookDefinitionView;

    open spec fn deep_view(&self) -> HookDefinitionView {
        self.view()
    }
}

/// The hooks of a package, by the git event they are run on. The order
/// within a list is the order of declaration, and is the order of priority.
#[derive(Debug, Clone, PartialEq, Eq)]
pub struct HookDefinitions {
    /// Hooks run before a commit.
    pub precommit: Vec<HookDefinition>,
    /// Hooks run after a commit.
    pub postcommit: Vec<HookDefinition>,
}

/// The mathematical content of [`HookDefinitions`].
pub struct HookDefinitionsView {
    pub precommit: Seq<HookDefinitionView>,
    pub postcommit: Seq<HookDefinitionView>,
}

impl View for HookDefinitions {
    type V = HookDefinitionsView;

    open spec fn view(&self) -> HookDefinitionsView {
        HookDefinitionsView {
            precommit: self.precommit.deep_view(),
            postcommit: self.postcommit.deep_view(),
        }
    }
}

/// The manifest of a hook package.
#[derive(Debug, Clone, PartialEq, Eq)]
pub struct Package {
    /// The name of the package.
    pub name: Option<String>,
    /// A description of the package.
    pub description: Option<String>,
    /// The version of the package.
    pub version: Option<String>,
    /// The hooks that the package defines.
    pub hooks: HookDefinitions,
}

/// The mathematical content of a [`Package`].
pub struct PackageView {
    pub name: Option<Seq<char>>,
    pub description: Option<Seq<char>>,
    pub version: Option<Seq<char>>,
    pub hooks: HookDefinitionsView,
}

impl View for Package {
    type V = PackageView;

    open spec fn view(&self) -> PackageView {
        PackageView {
            name: self.name.deep_view(),
            description: self.description.deep_view(),
            version: self.version.deep_view(),
            hooks: self.hooks@,
        }
    }
}

/// One installed hook package, as the project manifest records it.
#[derive(Debug, Clone, PartialEq, Eq)]
pub struct TackleManifestHook {
    /// The identifier the package was installed under.
    pub url: String,
    /// The installed version.
    pub version: String,
    /// The integrity hash of what was installed.
    pub integrity: String,
}

/// The mathematical content of a [`TackleManifestHook`].
pub struct TackleManifestHookView {
    pub url: Seq<char>,
    pub version: Seq<char>,
    pub integrity: Seq<char>,
}

impl View for TackleManifestHook {
    type V = TackleManifestHookView;

    open spec fn view(&self) -> TackleManifestHookView {
        TackleManifestHookView {
            url: self.url@,
            version: self.version@,
            integrity: self.integrity@,
        }
    }
}

impl DeepView for TackleManifestHook {
    type V = TackleManifestHookView;

    open spec fn deep_view(&self) -> TackleManifestHookView {
        self.view()
    }
}

/// The installed hook packages of a project, by git event.
#[derive(Debug, Clone, PartialEq, Eq)]
pub struct TackleManifestHooks {
    pub precommit: Vec<TackleManifestHook>,
    pub postcommit: Vec<TackleManifestHook>,
    pub prepush: Vec<TackleManifestHook>,
    pub postpush: Vec<TackleManifestHook>,
}

/// The mathematical content of [`TackleManifestHooks`].
pub struct TackleManifestHooksView {
    pub precommit: Seq<TackleManifestHookView>,
    pub postcommit: Seq<TackleManifestHookView>,
    pub prepush: Seq<TackleManifestHookView>,
    pub postpush: Seq<TackleManifestHookView>,
}

impl View for TackleManifestHooks {
    type V = TackleManifestHooksView;

    open spec fn view(&self) -> TackleManifestHooksView {
        TackleManifestHooksView {
            precommit: self.precommit.deep_view(),
            postcommit: self.postcommit.deep_view(),
            prepush: self.prepush.deep_view(),
            postpush: self.postpush.deep_view(),
        }
    }
}

/// The manifest of a project: the file `.tackle/tackle.toml`.
#[derive(Debug, Clone, PartialEq, Eq)]
pub struct TackleManifest {
    /// The version of the manifest format.
    pub version: String,
    /// The installed hook packages.
    pub hooks: TackleManifestHooks,
}

/// The mathematical content of a [`TackleManifest`].
pub struct TackleManifestView {
    pub version: Seq<char>,
    pub hooks: TackleManifestHooksView,
}

impl View for TackleManifest {
    type V = TackleManifestView;

    open spec fn view(&self) -> TackleManifestView {
        TackleManifestView { version: self.version@, hooks: self.hooks@ }
    }
}

} // verus!
