//! The error type shared by every operation of the package manager.
use vstd::prelude::*;
use vstd::string::StringExecFns;

verus! {

/// Everything that can go wrong while resolving, fetching or installing a
/// hook package.
#[derive(Debug, Clone, PartialEq, Eq)]
pub enum TackleError {
    /// The current working directory is not inside a git work tree.
    RepositoryDiscoveryFailed,
    /// The project manifest could not be written.
    ManifestWriteFailed,
    /// A manifest file could not be read.
    ManifestReadFailed,
    /// A manifest file was read but is not a valid manifest; carries the
    /// parser's diagnostic.
    ManifestParseFailed(String),
    /// A directory could not be created; carries the system's message.
    CreateTackleDirectoryFailed(String),
    /// The project already has a `.tackle` directory.
    AlreadyInitialized,
    /// The project has no `.tackle` directory yet.
    NotInitialized,
    /// A hook or package reference is not usable.
    InvalidCommitHook,
    /// The repository of a package could not be cloned.
    RepositoryCloneFailed,
    /// A package identifier names no repository: it has no `/`, or it is a
    /// host with a single piece behind it.
    InvalidIdentifier,
    /// The place a package would be fetched to is already taken.
    AlreadyFetched,
    /// A fetched repository has no `package.toml` at its root.
    ManifestNotFound,
}

impl TackleError {
    /// The sentence shown to the user for each error.
    pub open spec fn message_text(self) -> Seq<char> {
        match self {
            TackleError::RepositoryDiscoveryFailed =>
                "The current working directory is not a git repository"@,
            TackleError::ManifestWriteFailed => "Failed to write the manifest file"@,
            TackleError::ManifestReadFailed => "Failed to read the manifest file"@,
            TackleError::ManifestParseFailed(_) => "Failed to parse the manifest file"@,
            TackleError::CreateTackleDirectoryFailed(_) =>
                "Failed to create the .tackle directory"@,
            TackleError::AlreadyInitialized => "Cannot initialize an existing project"@,
            TackleError::NotInitialized =>
                "Cannot perform operation on a non-initialized project"@,
            TackleError::InvalidCommitHook => "Invalid commit hook"@,
            TackleError::RepositoryCloneFailed => "Repository clone failed"@,
            TackleError::InvalidIdentifier => "Invalid package identifier"@,
            TackleError::AlreadyFetched => "The package has already been fetched"@,
            TackleError::ManifestNotFound => "The package has no manifest file"@,
        }
    }

    /// The sentence shown to the user for this error.
    pub fn message(&self) -> (text: String)
        ensures
            text@ == self.message_text(),
    {
        let text = match self {
            TackleError::RepositoryDiscoveryFailed =>
                "The current working directory is not a git repository",
            TackleError::ManifestWriteFailed => "Failed to write the manifest file",
            TackleError::ManifestReadFailed => "Failed to read the manifest file",
            TackleError::ManifestParseFailed(_) => "Failed to parse the manifest file",
            TackleError::CreateTackleDirectoryFailed(_) =>
                "Failed to create the .tackle directory",
            TackleError::AlreadyInitialized => "Cannot initialize an existing project",
            TackleError::NotInitialized =>
                "Cannot perform operation on a non-initialized project",
            TackleError::InvalidCommitHook => "Invalid commit hook",
            TackleError::RepositoryCloneFailed => "Repository clone failed",
            TackleError::InvalidIdentifier => "Invalid package identifier",
            TackleError::AlreadyFetched => "The package has already been fetched",
            TackleError::ManifestNotFound => "The package has no manifest file",
        };
        String::from_str(text)
    }
}

} // verus!
