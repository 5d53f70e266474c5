//! The cache of fetched repositories: where it lies, and what is looked up
//! in it.
use vstd::prelude::*;

use crate::config::Package;
use crate::errors::TackleError;
use crate::package::{package_of, Loaded, PACKAGE_MANIFEST};
use crate::paths::{join, join_path, PathStatus};
use crate::util::{
    extract_package_path, names_repository, package_into_git_url, package_path, repository_id,
};

verus! {

/// The name of the cache directory inside the home directory.
pub const CACHE_DIRECTORY: &'static str = ".tackle";

/// The place of the cache directory, once it has been settled. It is
/// settled at most once: whoever holds the one `CacheRoot` of a process
/// behind a lock gets the same directory from it for as long as the process
/// lives.
#[derive(Debug)]
pub struct CacheRoot {
    settled: Option<String>,
}

impl View for CacheRoot {
    type V = Option<Seq<char>>;

    closed spec fn view(&self) -> Option<Seq<char>> {
        self.settled.deep_view()
    }
}

/// What is to be done to have the cache directory.
#[derive(Debug, Clone, PartialEq, Eq)]
pub enum CacheDirectory {
    /// The directory was settled before: nothing is to be done.
    Settled(String),
    /// The directory is to be created where it is missing, and then to be
    /// settled with [`CacheRoot::settle`].
    Fresh(String),
}

/// The place of the cache directory of the user whose home directory is
/// `home`.
pub open spec fn cache_directory(home: Seq<char>) -> Seq<char> {
    join_path(home, CACHE_DIRECTORY@)
}

/// The place in the cache at `cache_dir` of the repository that the
/// identifier `url` means.
pub open spec fn repository_path(cache_dir: Seq<char>, url: Seq<char>) -> Seq<char> {
    join_path(cache_dir, repository_id(url))
}

/// The place in the cache at `cache_dir` of the manifest of the package
/// that the identifier `url` means.
pub open spec fn manifest_path(cache_dir: Seq<char>, url: Seq<char>) -> Seq<char> {
    join_path(join_path(repository_path(cache_dir, url), package_path(url)), PACKAGE_MANIFEST@)
}

impl CacheRoot {
    /// A cache root that has not been settled yet.
    pub fn new() -> (root: CacheRoot)
        ensures
            root@ is None,
    {
        CacheRoot { settled: None }
    }

    /// The settled directory, if there is one.
    pub fn settled(&self) -> (path: Option<String>)
        ensures
            path.deep_view() == self@,
    {
        match &self.settled {
            Some(path) => Some(path.clone()),
            None => None,
        }
    }

    /// Settles the cache directory at `path`, unless it has been settled
    /// before: the first directory stays. Returns the settled directory.
    pub fn settle(&mut self, path: String) -> (settled: String)
        ensures
            final(self)@ == Some(settled@),
            settled@ == match old(self)@ {
                Some(first) => first,
                None => path@,
            },
    {
        match &self.settled {
            Some(first) => first.clone(),
            None => {
                self.settled = Some(path.clone());
                path
            },
        }
    }
}

/// Where the cache directory is: the settled place if there is one, and
/// else `.tackle` in the home directory `home`, which is then still to be
/// created and settled.
pub fn resolve_cache_directory(root: &CacheRoot, home: &str) -> (directory: CacheDirectory)
    ensures
        match directory {
            CacheDirectory::Settled(path) => resolution(root@, home@) == (path@, false),
            CacheDirectory::Fresh(path) => resolution(root@, home@) == (path@, true),
        },
{
    match root.settled() {
        Some(path) => CacheDirectory::Settled(path),
        None => CacheDirectory::Fresh(join(home, CACHE_DIRECTORY)),
    }
}

/// The path at which the repository of `url` lies in the cache at
/// `cache_dir`, if it is cached. An identifier that names no repository is
/// refused.
pub fn locate_repository(cache_dir: &str, url: &str) -> (path: Result<String, TackleError>)
    ensures
        match path {
            Ok(path) => names_repository(url@) && path@ == repository_path(cache_dir@, url@),
            Err(e) => !names_repository(url@) && e == TackleError::InvalidIdentifier,
        },
{
    match package_into_git_url(url) {
        Ok(repository) => Ok(join(cache_dir, repository.as_str())),
        Err(e) => Err(e),
    }
}

/// Looks the repository of `url` up in the cache at `cache_dir`, given in
/// `found` what is at the path that [`locate_repository`] names: that path
/// where something is there, and `None` where nothing is.
pub fn lookup_repository(cache_dir: &str, url: &str, found: PathStatus) -> (path: Result<
    Option<String>,
    TackleError,
>)
    ensures
        match path {
            Ok(Some(path)) => names_repository(url@) && found.present() && path@ == repository_path(
                cache_dir@,
                url@,
            ),
            Ok(None) => names_repository(url@) && !found.present(),
            Err(e) => !names_repository(url@) && e == TackleError::InvalidIdentifier,
        },
{
    match locate_repository(cache_dir, url) {
        Ok(path) => if found.is_present() {
            Ok(Some(path))
        } else {
            Ok(None)
        },
        Err(e) => Err(e),
    }
}

/// The path at which the manifest of the package of `url` lies in the
/// cache at `cache_dir`, if its repository is cached. An identifier that
/// names no repository is refused.
pub fn locate_package(cache_dir: &str, url: &str) -> (path: Result<String, TackleError>)
    ensures
        match path {
            Ok(path) => names_repository(url@) && path@ == manifest_path(cache_dir@, url@),
            Err(e) => !names_repository(url@) && e == TackleError::InvalidIdentifier,
        },
{
    let repository = match locate_repository(cache_dir, url) {
        Ok(repository) => repository,
        Err(e) => { return Err(e); },
    };
    let subpath = match extract_package_path(url) {
        Ok(subpath) => subpath,
        Err(e) => { return Err(e); },
    };
    let package_dir = join(repository.as_str(), subpath.as_str());
    Ok(join(package_dir.as_str(), PACKAGE_MANIFEST))
}

/// What looking up the package of `url` comes to, where `found` is what is
/// at the path of its repository and `load` is how loading its manifest
/// went.
pub open spec fn package_lookup(url: Seq<char>, found: PathStatus, load: Loaded<Package>) -> Result<
    Option<Package>,
    TackleError,
> {
    if !names_repository(url) {
        Err(TackleError::InvalidIdentifier)
    } else if !found.present() {
        Ok(None)
    } else {
        match package_of(load) {
            Ok(package) => Ok(Some(package)),
            Err(e) => Err(e),
        }
    }
}

/// Looks the package of `url` up in the cache, given in `found` what is at
/// the path that [`locate_repository`] names and in `load` how loading the
/// manifest that [`locate_package`] names went. The result is `None` only
/// where the repository is not cached, and then `load` is not read. Once
/// the repository is there, a manifest that is missing, unreadable or
/// malformed is an error.
pub fn lookup_package(url: &str, found: PathStatus, load: Loaded<Package>) -> (package: Result<
    Option<Package>,
    TackleError,
>)
    ensures
        package == package_lookup(url@, found, load),
{
    match package_into_git_url(url) {
        Ok(_) => {},
        Err(e) => { return Err(e); },
    }
    if !found.is_present() {
        return Ok(None);
    }
    match Package::from_load(load) {
        Ok(package) => Ok(Some(package)),
        Err(e) => Err(e),
    }
}

/// What one resolution of the cache directory comes to, for a root that
/// holds `root` and a home directory `home`: the directory it yields, and
/// whether it is the one that has to create it.
pub open spec fn resolution(root: Option<Seq<char>>, home: Seq<char>) -> (Seq<char>, bool) {
    match root {
        Some(settled) => (settled, false),
        None => (cache_directory(home), true),
    }
}

/// What the resolutions of a run come to, one after the other on one root
/// that starts out holding `root`; the resolution at place `i` is made with
/// the home directory `homes[i]`, and settles what it yields.
pub open spec fn resolutions(root: Option<Seq<char>>, homes: Seq<Seq<char>>) -> Seq<
    (Seq<char>, bool),
>
    decreases homes.len(),
{
    if homes.len() == 0 {
        Seq::empty()
    } else {
        let first = resolution(root, homes[0]);
        seq![first] + resolutions(Some(first.0), homes.drop_first())
    }
}

/// However many resolutions are made on one root, they all yield the
/// directory that the first one yields, and none but the first, and that
/// only on a root not settled before, has to create it.
pub proof fn lemma_resolved_once(root: Option<Seq<char>>, homes: Seq<Seq<char>>, i: int)
    requires
        0 <= i < homes.len(),
    ensures
        resolutions(root, homes).len() == homes.len(),
        resolutions(root, homes)[i].0 == resolution(root, homes[0]).0,
        resolutions(root, homes)[i].1 == (i == 0 && root is None),
    decreases homes.len(),
{
    lemma_resolutions_len(root, homes);
    if i > 0 {
        let first = resolution(root, homes[0]);
        lemma_resolved_once(Some(first.0), homes.drop_first(), i - 1);
    }
}

/// There is one resolution for each home directory given.
pub proof fn lemma_resolutions_len(root: Option<Seq<char>>, homes: Seq<Seq<char>>)
    ensures
        resolutions(root, homes).len() == homes.len(),
    decreases homes.len(),
{
    if homes.len() > 0 {
        lemma_resolutions_len(Some(resolution(root, homes[0]).0), homes.drop_first());
    }
}

} // verus!
