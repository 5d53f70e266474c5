use tackle::errors::TackleError;
use tackle::package::resolve::{
    has_tag, resolve_at, scratch_prefix, PackageResolver, Repository, Resolution,
    ResolvedPackage, ResolvedPackageUrl, SourceProbe, Version,
};

fn version(text: &str) -> Version {
    Version::parse(text).unwrap()
}

fn tags(names: &[&str]) -> SourceProbe {
    SourceProbe::Tags(names.iter().map(|name| Some(name.to_string())).collect())
}

fn resolver(urls: &[&str]) -> PackageResolver {
    PackageResolver {
        repositories: urls
            .iter()
            .map(|url| Repository {
                url: url.to_string(),
            })
            .collect(),
    }
}

fn remote(url: &str, name: &str, text: &str) -> ResolvedPackage {
    ResolvedPackage {
        url: ResolvedPackageUrl::Remote(url.to_string()),
        name: name.to_string(),
        version: version(text),
    }
}

#[test]
fn version_is_read_and_written_back() {
    assert_eq!(version("1.2.3").to_string(), "1.2.3");
    assert_eq!(version("0.0.0").to_string(), "0.0.0");
    assert_eq!(
        version("1.0.0-alpha.1+build.5").to_string(),
        "1.0.0-alpha.1+build.5"
    );
    assert_eq!(version("1.2.3").clone(), version("1.2.3"));
}

#[test]
fn what_is_no_version_is_refused() {
    for text in ["", "1", "1.0", "1.0.01", "1.0.unknown", "1.0.0-", "v1.0.0", " 1.0.0", "1.0.0 "] {
        assert_eq!(Version::parse(text), None, "for {text:?}");
    }
}

#[test]
fn package_address_is_joined_to_the_base() {
    let base = Repository {
        url: "https://github.com/".to_string(),
    };
    assert_eq!(
        base.package_url("skyezerfox/hooks"),
        Some("https://github.com/skyezerfox/hooks".to_string())
    );
    // the last piece of a base without a closing slash is replaced
    let file = Repository {
        url: "https://example.net/a/b.html".to_string(),
    };
    assert_eq!(
        file.package_url("c.png"),
        Some("https://example.net/a/c.png".to_string())
    );
    // an absolute address takes the place of the base
    assert_eq!(
        base.package_url("http://eve.com/b"),
        Some("http://eve.com/b".to_string())
    );
}

#[test]
fn package_has_no_address_at_a_base_that_is_none() {
    let relative = Repository {
        url: "github.com/packages".to_string(),
    };
    assert_eq!(relative.package_url("hooks"), None);
    let empty = Repository {
        url: String::new(),
    };
    assert_eq!(empty.package_url("hooks"), None);
}

#[test]
fn scratch_directory_is_named_after_package_and_version() {
    assert_eq!(scratch_prefix("hooks", &version("1.2.3")), "hooks-1.2.3");
    assert_eq!(scratch_prefix("", &version("0.1.0-rc.1")), "-0.1.0-rc.1");
}

#[test]
fn tag_must_be_the_version_letter_for_letter() {
    let names = vec![
        Some("v1.0.0".to_string()),
        None,
        Some("1.0.0".to_string()),
        Some("2.0.0".to_string()),
    ];
    assert!(has_tag(&names, "1.0.0"));
    assert!(has_tag(&names, "v1.0.0"));
    assert!(has_tag(&names, "2.0.0"));
    assert!(!has_tag(&names, "1.0"));
    assert!(!has_tag(&names, "1.0.0 "));
    assert!(!has_tag(&names, ""));
    assert!(!has_tag(&vec![], "1.0.0"));
    assert!(!has_tag(&vec![None], ""));
}

#[test]
fn answer_of_one_repository() {
    let url = || Some("https://github.com/hooks".to_string());
    let name = || "hooks".to_string();
    assert_eq!(
        resolve_at(url(), name(), version("1.0.0"), &tags(&["0.9.0", "1.0.0"])),
        Ok(Some(remote("https://github.com/hooks", "hooks", "1.0.0")))
    );
    assert_eq!(
        resolve_at(url(), name(), version("1.0.0"), &tags(&["0.9.0", "v1.0.0"])),
        Ok(None)
    );
    assert_eq!(
        resolve_at(url(), name(), version("1.0.0"), &tags(&[])),
        Ok(None)
    );
    assert_eq!(
        resolve_at(url(), name(), version("1.0.0"), &SourceProbe::CloneFailed),
        Err(TackleError::RepositoryCloneFailed)
    );
    assert_eq!(
        resolve_at(url(), name(), version("1.0.0"), &SourceProbe::ScratchFailed),
        Err(TackleError::AlreadyInitialized)
    );
    assert_eq!(
        resolve_at(None, name(), version("1.0.0"), &tags(&["1.0.0"])),
        Err(TackleError::InvalidCommitHook)
    );
}

#[test]
fn repository_resolves_at_its_own_address() {
    let repository = Repository {
        url: "https://git.example.org/packages/".to_string(),
    };
    assert_eq!(
        repository.resolve("lint".to_string(), version("2.1.0"), &tags(&["2.1.0"])),
        Ok(Some(remote(
            "https://git.example.org/packages/lint",
            "lint",
            "2.1.0"
        )))
    );
    let broken = Repository {
        url: "no address".to_string(),
    };
    assert_eq!(
        broken.resolve("lint".to_string(), version("2.1.0"), &tags(&["2.1.0"])),
        Err(TackleError::InvalidCommitHook)
    );
}

#[test]
fn earlier_repository_wins_the_tie() {
    let both = resolver(&["https://first.example.org/", "https://second.example.org/"]);
    let probes = vec![tags(&["1.0.0"]), tags(&["1.0.0"])];
    assert_eq!(
        both.resolve("hooks".to_string(), version("1.0.0"), &probes),
        Some(remote("https://first.example.org/hooks", "hooks", "1.0.0"))
    );
}

#[test]
fn arrival_order_does_not_change_the_choice() {
    let sources = resolver(&[
        "https://first.example.org/",
        "https://second.example.org/",
        "https://third.example.org/",
    ]);
    let answers = [tags(&["0.1.0"]), tags(&["1.0.0"]), tags(&["1.0.0", "2.0.0"])];
    let orders: [[usize; 3]; 6] = [
        [0, 1, 2],
        [0, 2, 1],
        [1, 0, 2],
        [1, 2, 0],
        [2, 0, 1],
        [2, 1, 0],
    ];
    for order in orders {
        let mut resolution = Resolution::new(3);
        assert!(!resolution.is_complete());
        for source in order {
            resolution.record(source, answers[source].clone());
        }
        assert!(resolution.is_complete());
        let probes = resolution.into_probes();
        assert_eq!(probes, answers.to_vec());
        assert_eq!(
            sources.resolve("hooks".to_string(), version("1.0.0"), &probes),
            Some(remote("https://second.example.org/hooks", "hooks", "1.0.0")),
            "for the order {order:?}"
        );
    }
}

#[test]
fn failing_repositories_do_not_stand_in_the_way() {
    let sources = resolver(&[
        "not an address",
        "https://second.example.org/",
        "https://third.example.org/",
        "https://fourth.example.org/",
    ]);
    let probes = vec![
        tags(&["1.0.0"]),
        SourceProbe::CloneFailed,
        SourceProbe::ScratchFailed,
        tags(&["1.0.0"]),
    ];
    assert_eq!(
        sources.resolve("hooks".to_string(), version("1.0.0"), &probes),
        Some(remote("https://fourth.example.org/hooks", "hooks", "1.0.0"))
    );
}

#[test]
fn nothing_is_resolved_where_nothing_matches() {
    let sources = resolver(&["https://first.example.org/", "https://second.example.org/"]);
    let probes = vec![tags(&["0.9.0"]), SourceProbe::CloneFailed];
    assert_eq!(
        sources.resolve("hooks".to_string(), version("1.0.0"), &probes),
        None
    );
    let nobody = resolver(&[]);
    assert_eq!(
        nobody.resolve("hooks".to_string(), version("1.0.0"), &vec![]),
        None
    );
}

#[test]
fn resolution_waits_for_every_answer() {
    let mut resolution = Resolution::new(2);
    assert_eq!(resolution.len(), 2);
    assert!(!resolution.is_complete());
    resolution.record(1, SourceProbe::CloneFailed);
    assert!(!resolution.is_complete());
    resolution.record(1, tags(&["1.0.0"]));
    assert!(!resolution.is_complete());
    resolution.record(0, SourceProbe::ScratchFailed);
    assert!(resolution.is_complete());
    assert_eq!(
        resolution.into_probes(),
        vec![SourceProbe::ScratchFailed, tags(&["1.0.0"])]
    );
    assert!(Resolution::new(0).is_complete());
}
