use tackle::errors::TackleError;
use tackle::util::{
    canonicalize, extract_package_path, matches_host_pattern, package_into_git_url,
    resolve_package_url,
};

#[test]
fn package_test_url_regex() {
    let url = "github.com/rust-lang/rust";
    assert!(matches_host_pattern(url));
    let url = "rust-lang/rust";
    assert!(!matches_host_pattern(url));
}

#[test]
fn packages_test_url_regex() {
    let url = "github.com/rust-lang/rust";
    assert!(matches_host_pattern(url));
    let url = "rust-lang/rust";
    assert!(!matches_host_pattern(url));
}

#[test]
fn util_test_url_regex() {
    let url = "github.com/rust-lang/rust";
    assert!(matches_host_pattern(url));
    let url = "rust-lang/rust";
    assert!(!matches_host_pattern(url));
}

#[test]
fn test_package_into_git_url() {
    assert_eq!(
        package_into_git_url("skyezerfox/hooks").unwrap(),
        "github.com/skyezerfox/hooks"
    );
    assert_eq!(
        package_into_git_url("github.com/skyezerfox/hooks/some/sub/directories").unwrap(),
        "github.com/skyezerfox/hooks"
    );
    assert_eq!(
        package_into_git_url("mygitserver.com/skyezerfox/hooks").unwrap(),
        "mygitserver.com/skyezerfox/hooks"
    )
}

#[test]
fn test_resolve_package_url() {
    assert_eq!(
        resolve_package_url("skyezerfox/hooks").unwrap(),
        "github.com/skyezerfox/hooks"
    );
    assert_eq!(
        resolve_package_url("github.com/skyezerfox/hooks/project").unwrap(),
        "github.com/skyezerfox/hooks/project"
    );
    assert_eq!(
        resolve_package_url("mygitserver.com/skyezerfox/hooks/project").unwrap(),
        "mygitserver.com/skyezerfox/hooks/project"
    )
}

#[test]
fn test_extract_package_name() {
    assert_eq!(extract_package_path("skyezerfox/eslint-hook").unwrap(), ".");
    assert_eq!(
        extract_package_path("github.com/skyezerfox/hooks/project").unwrap(),
        "project"
    );
    assert_eq!(
        extract_package_path("mygitserver.com/skyezerfox/hooks/deep/project").unwrap(),
        "deep/project"
    )
}

#[test]
fn canonicalize_short_identifier() {
    let id = canonicalize("skyezerfox/hooks").unwrap();
    assert_eq!(id.repo_id, "github.com/skyezerfox/hooks");
    assert_eq!(id.subpath, ".");
}

#[test]
fn canonicalize_with_subpath() {
    let id = canonicalize("github.com/skyezerfox/hooks/some/sub").unwrap();
    assert_eq!(id.repo_id, "github.com/skyezerfox/hooks");
    assert_eq!(id.subpath, "some/sub");
}

#[test]
fn canonicalize_leaves_other_hosts_alone() {
    let id = canonicalize("mygitserver.com/skyezerfox/hooks").unwrap();
    assert_eq!(id.repo_id, "mygitserver.com/skyezerfox/hooks");
    assert_eq!(id.subpath, ".");
}

#[test]
fn identifier_without_slash_is_refused() {
    assert_eq!(canonicalize("hooks"), Err(TackleError::InvalidIdentifier));
    assert_eq!(canonicalize(""), Err(TackleError::InvalidIdentifier));
    assert_eq!(
        resolve_package_url("github.com"),
        Err(TackleError::InvalidIdentifier)
    );
    assert_eq!(
        package_into_git_url("hooks"),
        Err(TackleError::InvalidIdentifier)
    );
    assert_eq!(
        extract_package_path("hooks"),
        Err(TackleError::InvalidIdentifier)
    );
}

#[test]
fn canonicalize_is_idempotent_on_its_output() {
    for raw in [
        "skyezerfox/hooks",
        "github.com/skyezerfox/hooks/some/sub",
        "mygitserver.com/skyezerfox/hooks",
        "a/b/c/d/e",
        "/",
        "a//b",
        "x/",
    ] {
        let first = canonicalize(raw).unwrap();
        let again = canonicalize(&first.repo_id).unwrap();
        assert_eq!(again.repo_id, first.repo_id, "for {raw}");
        assert_eq!(again.subpath, ".", "for {raw}");
        assert_eq!(resolve_package_url(&first.repo_id).unwrap(), first.repo_id);
    }
}

#[test]
fn repository_has_three_pieces_after_qualification() {
    for raw in ["skyezerfox/hooks", "a/b/c/d/e", "mygitserver.com/o/r/x", "/", "x/"] {
        let id = canonicalize(raw).unwrap();
        assert_eq!(id.repo_id.split('/').count(), 3, "for {raw}");
    }
    assert_eq!(
        canonicalize("github.com/hooks"),
        Err(TackleError::InvalidIdentifier)
    );
}

#[test]
fn host_with_a_single_piece_names_no_repository() {
    for raw in ["github.com/hooks", "mygitserver.com/hooks", "example.org/"] {
        assert_eq!(
            canonicalize(raw),
            Err(TackleError::InvalidIdentifier),
            "for {raw}"
        );
        assert_eq!(
            package_into_git_url(raw),
            Err(TackleError::InvalidIdentifier),
            "for {raw}"
        );
        assert_eq!(
            extract_package_path(raw),
            Err(TackleError::InvalidIdentifier),
            "for {raw}"
        );
        // qualifying alone asks for no more than a `/`
        assert_eq!(resolve_package_url(raw).unwrap(), raw);
    }
    // a third piece, even an empty one, makes a repository
    assert_eq!(
        package_into_git_url("github.com/hooks/").unwrap(),
        "github.com/hooks/"
    );
    // an owner that only looks like a short host is an owner
    assert_eq!(
        package_into_git_url("ab.com/hooks").unwrap(),
        "github.com/ab.com/hooks"
    );
}

#[test]
fn empty_pieces_are_kept() {
    assert_eq!(package_into_git_url("/").unwrap(), "github.com//");
    assert_eq!(extract_package_path("/").unwrap(), ".");
    assert_eq!(package_into_git_url("a//b").unwrap(), "github.com/a/");
    assert_eq!(extract_package_path("a//b").unwrap(), "b");
    assert_eq!(extract_package_path("github.com/a/b/").unwrap(), ".");
    assert_eq!(extract_package_path("github.com/a/b//").unwrap(), "/");
}

#[test]
fn host_pattern_edges() {
    // the label has at least three characters
    assert!(!matches_host_pattern("ab.com"));
    assert!(matches_host_pattern("abc.com"));
    assert!(matches_host_pattern("a-c.io"));
    // it begins and ends with a letter or digit
    assert!(!matches_host_pattern("-bc.com"));
    assert!(!matches_host_pattern("ab-.com"));
    // the top-level name has at least two letters
    assert!(!matches_host_pattern("abc.c"));
    assert!(!matches_host_pattern("abc.c1"));
    assert!(matches_host_pattern("abc.co1"));
    // a label of sixty-three characters is the longest
    let longest = format!("{}.com", "a".repeat(63));
    let too_long = format!("{}.com", "a".repeat(64));
    assert!(matches_host_pattern(&longest));
    assert!(!matches_host_pattern(&too_long));
    // only the beginning counts
    assert!(matches_host_pattern("github.com/anything at all"));
    assert!(!matches_host_pattern(" github.com"));
    assert!(!matches_host_pattern(""));
    // letters outside ASCII are not letters of a host
    assert!(!matches_host_pattern("gïthub.com"));
}

#[test]
fn unqualified_host_like_owner() {
    // the first piece is what decides
    assert_eq!(
        resolve_package_url("ab.com/x").unwrap(),
        "github.com/ab.com/x"
    );
    assert_eq!(
        resolve_package_url("example.org/x").unwrap(),
        "example.org/x"
    );
}

fn is_alphanumeric(c: char) -> bool {
    c.is_ascii_alphanumeric()
}

/// What the host pattern says, written out by hand: a letter or digit,
/// one to sixty-one letters, digits or hyphens, a letter or digit, a dot,
/// and two letters, from the start of the text.
fn begins_with_host(text: &str) -> bool {
    let chars: Vec<char> = text.chars().collect();
    (1..=61usize).any(|middle| {
        chars.len() >= middle + 5
            && is_alphanumeric(chars[0])
            && (1..=middle).all(|i| is_alphanumeric(chars[i]) || chars[i] == '-')
            && is_alphanumeric(chars[middle + 1])
            && chars[middle + 2] == '.'
            && chars[middle + 3].is_ascii_alphabetic()
            && chars[middle + 4].is_ascii_alphabetic()
    })
}

#[test]
fn host_pattern_on_every_short_text() {
    let alphabet = ['a', 'Z', '7', '-', '.'];
    let mut texts = vec![String::new()];
    let mut matched = 0;
    for _ in 0..6 {
        let mut longer = Vec::new();
        for text in &texts {
            for c in alphabet {
                let mut next = text.clone();
                next.push(c);
                longer.push(next);
            }
        }
        for text in &longer {
            let expected = begins_with_host(text);
            assert_eq!(matches_host_pattern(text), expected, "for {text:?}");
            if expected {
                matched += 1;
            }
        }
        texts = longer;
    }
    // a letter or digit, a label character, a letter or digit, a dot, two letters
    assert_eq!(matched, 3 * 4 * 3 * 2 * 2);
}

#[test]
fn host_pattern_on_long_texts() {
    let alphabet = ['a', 'b', 'Y', 'Z', '0', '9', '-', '-', '.', '/', 'é', ' '];
    let mut state: u64 = 0x2545_f491_4f6c_dd1d;
    let mut matched = 0;
    for round in 0..3000 {
        let mut text = String::new();
        let label = 1 + (round % 70);
        for place in 0..label + 6 {
            state = state
                .wrapping_mul(6364136223846793005)
                .wrapping_add(1442695040888963407);
            let pick = (state >> 33) as usize;
            // mostly a host name, with a stray character now and then
            let c = if pick % 23 == 0 {
                alphabet[pick % alphabet.len()]
            } else if place < label {
                alphabet[pick % 8]
            } else if place == label {
                '.'
            } else {
                alphabet[pick % 4]
            };
            text.push(c);
        }
        let expected = begins_with_host(&text);
        assert_eq!(matches_host_pattern(&text), expected, "for {text:?}");
        if expected {
            matched += 1;
        }
    }
    assert!(matched > 300, "only {matched} texts matched");
    assert!(matched < 2700, "{matched} texts matched");
}
