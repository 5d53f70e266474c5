use tackle::config::{HookDefinitions, Package};
use tackle::errors::TackleError;
use tackle::package::cache::{
    locate_package, locate_repository, lookup_package, lookup_repository,
    resolve_cache_directory, CacheDirectory, CacheRoot,
};
use tackle::package::Loaded;
use tackle::paths::PathStatus;

#[test]
fn cache_directory_lies_in_the_home_directory() {
    let root = CacheRoot::new();
    assert_eq!(
        resolve_cache_directory(&root, "/home/skye"),
        CacheDirectory::Fresh("/home/skye/.tackle".to_string())
    );
    assert_eq!(
        resolve_cache_directory(&root, "/home/skye/"),
        CacheDirectory::Fresh("/home/skye/.tackle".to_string())
    );
    assert_eq!(root.settled(), None);
}

#[test]
fn cache_directory_is_settled_once() {
    let mut root = CacheRoot::new();
    let mut fresh = 0;
    let mut seen = Vec::new();
    for home in ["/home/a", "/home/b", "/home/a", "/elsewhere"] {
        let path = match resolve_cache_directory(&root, home) {
            CacheDirectory::Settled(path) => path,
            CacheDirectory::Fresh(path) => {
                fresh += 1;
                root.settle(path)
            }
        };
        seen.push(path);
    }
    assert_eq!(fresh, 1);
    assert!(seen.iter().all(|path| path == "/home/a/.tackle"));
    assert_eq!(root.settled(), Some("/home/a/.tackle".to_string()));
}

#[test]
fn settling_again_keeps_the_first_directory() {
    let mut root = CacheRoot::new();
    assert_eq!(root.settle("/one".to_string()), "/one");
    assert_eq!(root.settle("/two".to_string()), "/one");
    assert_eq!(root.settled(), Some("/one".to_string()));
    assert_eq!(
        resolve_cache_directory(&root, "/home/skye"),
        CacheDirectory::Settled("/one".to_string())
    );
}

#[test]
fn repository_lies_below_the_cache_directory() {
    assert_eq!(
        locate_repository("/home/skye/.tackle", "skyezerfox/hooks"),
        Ok("/home/skye/.tackle/github.com/skyezerfox/hooks".to_string())
    );
    assert_eq!(
        locate_repository("/home/skye/.tackle", "mygitserver.com/o/r/deep/package"),
        Ok("/home/skye/.tackle/mygitserver.com/o/r".to_string())
    );
    assert_eq!(
        locate_repository("/home/skye/.tackle", "hooks"),
        Err(TackleError::InvalidIdentifier)
    );
}

#[test]
fn lookup_repository_hits_only_what_is_there() {
    let cache = "/home/skye/.tackle";
    assert_eq!(
        lookup_repository(cache, "skyezerfox/hooks", PathStatus::Directory),
        Ok(Some(
            "/home/skye/.tackle/github.com/skyezerfox/hooks".to_string()
        ))
    );
    assert_eq!(
        lookup_repository(cache, "skyezerfox/hooks", PathStatus::File),
        Ok(Some(
            "/home/skye/.tackle/github.com/skyezerfox/hooks".to_string()
        ))
    );
    assert_eq!(
        lookup_repository(cache, "skyezerfox/hooks", PathStatus::Missing),
        Ok(None)
    );
    assert_eq!(
        lookup_repository(cache, "hooks", PathStatus::Directory),
        Err(TackleError::InvalidIdentifier)
    );
}

#[test]
fn package_manifest_lies_below_the_repository() {
    let cache = "/home/skye/.tackle";
    assert_eq!(
        locate_package(cache, "skyezerfox/hooks"),
        Ok("/home/skye/.tackle/github.com/skyezerfox/hooks/./package.toml".to_string())
    );
    assert_eq!(
        locate_package(cache, "github.com/skyezerfox/hooks/some/sub"),
        Ok("/home/skye/.tackle/github.com/skyezerfox/hooks/some/sub/package.toml".to_string())
    );
    assert_eq!(
        locate_package(cache, "hooks"),
        Err(TackleError::InvalidIdentifier)
    );
}

fn package(name: &str) -> Package {
    Package {
        name: Some(name.to_string()),
        description: Some("Example hooks".to_string()),
        version: None,
        hooks: HookDefinitions {
            precommit: vec![],
            postcommit: vec![],
        },
    }
}

#[test]
fn lookup_package_misses_only_what_is_not_cached() {
    assert_eq!(
        lookup_package(
            "skyezerfox/hooks",
            PathStatus::Missing,
            Loaded::Parsed(package("hooks"))
        ),
        Ok(None)
    );
    assert_eq!(
        lookup_package("skyezerfox/hooks", PathStatus::Missing, Loaded::Missing),
        Ok(None)
    );
    assert_eq!(
        lookup_package(
            "skyezerfox/hooks",
            PathStatus::Directory,
            Loaded::Parsed(package("hooks"))
        ),
        Ok(Some(package("hooks")))
    );
}

#[test]
fn lookup_package_fails_on_a_cached_repository_without_a_good_manifest() {
    assert_eq!(
        lookup_package("skyezerfox/hooks", PathStatus::Directory, Loaded::Missing),
        Err(TackleError::ManifestNotFound)
    );
    assert_eq!(
        lookup_package("skyezerfox/hooks", PathStatus::Directory, Loaded::Unreadable),
        Err(TackleError::ManifestReadFailed)
    );
    assert_eq!(
        lookup_package(
            "skyezerfox/hooks",
            PathStatus::Directory,
            Loaded::Malformed("unknown field `hook`".to_string())
        ),
        Err(TackleError::ManifestParseFailed(
            "unknown field `hook`".to_string()
        ))
    );
}

#[test]
fn lookup_package_refuses_an_identifier_without_slash() {
    assert_eq!(
        lookup_package("hooks", PathStatus::Missing, Loaded::Missing),
        Err(TackleError::InvalidIdentifier)
    );
    assert_eq!(
        lookup_package(
            "hooks",
            PathStatus::Directory,
            Loaded::Parsed(package("hooks"))
        ),
        Err(TackleError::InvalidIdentifier)
    );
}

#[test]
fn cache_refuses_a_host_with_a_single_piece() {
    let cache = "/home/skye/.tackle";
    let raw = "github.com/hooks";
    assert_eq!(
        locate_repository(cache, raw),
        Err(TackleError::InvalidIdentifier)
    );
    assert_eq!(
        locate_package(cache, raw),
        Err(TackleError::InvalidIdentifier)
    );
    assert_eq!(
        lookup_repository(cache, raw, PathStatus::Directory),
        Err(TackleError::InvalidIdentifier)
    );
    assert_eq!(
        lookup_repository(cache, raw, PathStatus::Missing),
        Err(TackleError::InvalidIdentifier)
    );
    assert_eq!(
        lookup_package(raw, PathStatus::Directory, Loaded::Parsed(package("hooks"))),
        Err(TackleError::InvalidIdentifier)
    );
    assert_eq!(
        lookup_package(raw, PathStatus::Missing, Loaded::Missing),
        Err(TackleError::InvalidIdentifier)
    );
}
