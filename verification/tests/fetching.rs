use std::collections::HashMap;

use tackle::config::{HookDefinitions, Package};
use tackle::errors::TackleError;
use tackle::package::{fetch_package, Fetch, FetchAction, FetchEvent, FetchStage, Loaded};
use tackle::paths::PathStatus;

fn package(name: &str) -> Package {
    Package {
        name: Some(name.to_string()),
        description: None,
        version: Some("1.0.0".to_string()),
        hooks: HookDefinitions {
            precommit: vec![],
            postcommit: vec![],
        },
    }
}

/// A file system and a network that exist only in memory.
struct World {
    paths: HashMap<String, PathStatus>,
    remotes: HashMap<String, Loaded<Package>>,
    clones: usize,
}

impl World {
    fn new() -> World {
        World {
            paths: HashMap::new(),
            remotes: HashMap::new(),
            clones: 0,
        }
    }

    fn status(&self, path: &str) -> PathStatus {
        self.paths.get(path).copied().unwrap_or(PathStatus::Missing)
    }

    fn fetch(&mut self, root: &str, id: &str) -> Result<Package, TackleError> {
        let (mut fetch, mut action) = fetch_package(root, id)?;
        let mut pending_load = Loaded::Missing;
        loop {
            let event = match action {
                FetchAction::Probe { path } => FetchEvent::Probed(self.status(&path)),
                FetchAction::Clone { url, into } => match self.remotes.get(&url) {
                    Some(manifest) => {
                        self.clones += 1;
                        self.paths.insert(into.clone(), PathStatus::Directory);
                        pending_load = manifest.clone();
                        FetchEvent::Cloned(format!("{into}/"))
                    }
                    None => FetchEvent::CloneFailed,
                },
                FetchAction::Load { path: _ } => FetchEvent::Loaded(pending_load.clone()),
                FetchAction::Finish { result } => return result,
            };
            assert!(fetch.awaits(&event));
            action = fetch.step(event);
        }
    }
}

fn begin(root: &str, id: &str) -> (Fetch, FetchAction) {
    fetch_package(root, id).unwrap()
}

#[test]
fn fetch_begins_by_probing_the_target() {
    let (fetch, action) = begin("/work/project", "skyezerfox/hooks");
    assert_eq!(fetch.stage(), FetchStage::Probing);
    assert_eq!(
        action,
        FetchAction::Probe {
            path: "/work/project/.tackle/hooks/github.com/skyezerfox/hooks".to_string()
        }
    );
}

#[test]
fn fetch_target_ignores_the_subpath() {
    let (_, action) = begin("/work/project/", "mygitserver.com/o/r/deep/package");
    assert_eq!(
        action,
        FetchAction::Probe {
            path: "/work/project/.tackle/hooks/mygitserver.com/o/r".to_string()
        }
    );
}

#[test]
fn fetch_refuses_an_identifier_without_slash() {
    assert_eq!(
        fetch_package("/work/project", "hooks").err(),
        Some(TackleError::InvalidIdentifier)
    );
}

#[test]
fn fetch_refuses_a_host_with_a_single_piece() {
    assert_eq!(
        fetch_package("/work/project", "github.com/hooks").err(),
        Some(TackleError::InvalidIdentifier)
    );
}

#[test]
fn fetch_clones_from_the_https_address() {
    let (mut fetch, _) = begin("/work/project", "skyezerfox/hooks");
    let action = fetch.step(FetchEvent::Probed(PathStatus::Missing));
    assert_eq!(fetch.stage(), FetchStage::Cloning);
    assert_eq!(
        action,
        FetchAction::Clone {
            url: "https://github.com/skyezerfox/hooks.git".to_string(),
            into: "/work/project/.tackle/hooks/github.com/skyezerfox/hooks".to_string(),
        }
    );
}

#[test]
fn fetch_stops_at_a_taken_target() {
    for found in [PathStatus::Directory, PathStatus::File, PathStatus::Other] {
        let (mut fetch, _) = begin("/work/project", "skyezerfox/hooks");
        let action = fetch.step(FetchEvent::Probed(found));
        assert_eq!(
            action,
            FetchAction::Finish {
                result: Err(TackleError::AlreadyFetched)
            }
        );
        assert_eq!(fetch.stage(), FetchStage::Finished);
        assert!(!fetch.awaits(&FetchEvent::Probed(PathStatus::Missing)));
        assert!(!fetch.awaits(&FetchEvent::CloneFailed));
        assert!(!fetch.awaits(&FetchEvent::Cloned("x".to_string())));
        assert!(!fetch.awaits(&FetchEvent::Loaded(Loaded::Missing)));
    }
}

#[test]
fn fetch_reports_a_failed_clone() {
    let (mut fetch, _) = begin("/work/project", "skyezerfox/hooks");
    fetch.step(FetchEvent::Probed(PathStatus::Missing));
    let action = fetch.step(FetchEvent::CloneFailed);
    assert_eq!(
        action,
        FetchAction::Finish {
            result: Err(TackleError::RepositoryCloneFailed)
        }
    );
    assert_eq!(fetch.stage(), FetchStage::Finished);
}

#[test]
fn fetch_loads_the_manifest_at_the_root_of_the_clone() {
    let (mut fetch, _) = begin("/work/project", "skyezerfox/hooks");
    fetch.step(FetchEvent::Probed(PathStatus::Missing));
    let action = fetch.step(FetchEvent::Cloned("/work/clone/".to_string()));
    assert_eq!(fetch.stage(), FetchStage::Loading);
    assert_eq!(
        action,
        FetchAction::Load {
            path: "/work/clone/package.toml".to_string()
        }
    );
    let (mut fetch, _) = begin("/work/project", "skyezerfox/hooks");
    fetch.step(FetchEvent::Probed(PathStatus::Missing));
    let action = fetch.step(FetchEvent::Cloned("/work/clone".to_string()));
    assert_eq!(
        action,
        FetchAction::Load {
            path: "/work/clone/package.toml".to_string()
        }
    );
}

fn finish_with(load: Loaded<Package>) -> Result<Package, TackleError> {
    let (mut fetch, _) = begin("/work/project", "skyezerfox/hooks");
    fetch.step(FetchEvent::Probed(PathStatus::Missing));
    fetch.step(FetchEvent::Cloned("/work/clone".to_string()));
    match fetch.step(FetchEvent::Loaded(load)) {
        FetchAction::Finish { result } => {
            assert_eq!(fetch.stage(), FetchStage::Finished);
            result
        }
        other => panic!("the fetch went on with {other:?}"),
    }
}

#[test]
fn fetch_ends_with_the_package_or_the_manifest_error() {
    assert_eq!(
        finish_with(Loaded::Missing),
        Err(TackleError::ManifestNotFound)
    );
    assert_eq!(
        finish_with(Loaded::Unreadable),
        Err(TackleError::ManifestReadFailed)
    );
    assert_eq!(
        finish_with(Loaded::Malformed("expected a table".to_string())),
        Err(TackleError::ManifestParseFailed(
            "expected a table".to_string()
        ))
    );
    assert_eq!(
        finish_with(Loaded::Parsed(package("hooks"))),
        Ok(package("hooks"))
    );
}

#[test]
fn fetch_waits_for_one_kind_of_event_at_a_time() {
    let (mut fetch, _) = begin("/work/project", "skyezerfox/hooks");
    assert!(fetch.awaits(&FetchEvent::Probed(PathStatus::File)));
    assert!(!fetch.awaits(&FetchEvent::CloneFailed));
    assert!(!fetch.awaits(&FetchEvent::Loaded(Loaded::Missing)));
    fetch.step(FetchEvent::Probed(PathStatus::Missing));
    assert!(fetch.awaits(&FetchEvent::CloneFailed));
    assert!(fetch.awaits(&FetchEvent::Cloned("w".to_string())));
    assert!(!fetch.awaits(&FetchEvent::Probed(PathStatus::Missing)));
    fetch.step(FetchEvent::Cloned("w".to_string()));
    assert!(fetch.awaits(&FetchEvent::Loaded(Loaded::Unreadable)));
    assert!(!fetch.awaits(&FetchEvent::CloneFailed));
}

#[test]
fn second_fetch_fails_and_leaves_the_first_alone() {
    let mut world = World::new();
    world.remotes.insert(
        "https://github.com/skyezerfox/hooks.git".to_string(),
        Loaded::Parsed(package("hooks")),
    );
    let first = world.fetch("/work/project", "skyezerfox/hooks");
    assert_eq!(first, Ok(package("hooks")));
    assert_eq!(world.clones, 1);
    let after_first = world.paths.clone();

    let second = world.fetch("/work/project", "skyezerfox/hooks");
    assert_eq!(second, Err(TackleError::AlreadyFetched));
    assert_eq!(world.clones, 1);
    assert_eq!(world.paths, after_first);

    // another spelling of the same repository meets the same target
    let third = world.fetch("/work/project", "github.com/skyezerfox/hooks/lint");
    assert_eq!(third, Err(TackleError::AlreadyFetched));
    assert_eq!(world.clones, 1);
}

#[test]
fn fetch_of_an_unknown_repository_fails_to_clone() {
    let mut world = World::new();
    assert_eq!(
        world.fetch("/work/project", "nobody/nothing"),
        Err(TackleError::RepositoryCloneFailed)
    );
    assert!(world.paths.is_empty());
}

#[test]
fn package_from_load() {
    assert_eq!(
        Package::from_load(Loaded::Parsed(package("a"))),
        Ok(package("a"))
    );
    assert_eq!(
        Package::from_load(Loaded::Missing),
        Err(TackleError::ManifestNotFound)
    );
    assert_eq!(
        Package::from_load(Loaded::Unreadable),
        Err(TackleError::ManifestReadFailed)
    );
    assert_eq!(
        Package::from_load(Loaded::Malformed("x".to_string())),
        Err(TackleError::ManifestParseFailed("x".to_string()))
    );
}
