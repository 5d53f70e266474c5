//! Package identifiers: from what a user writes to the repository that is
//! meant, and the place of the package inside it.
use vstd::prelude::*;
use vstd::string::StringExecFns;

use crate::errors::TackleError;
use crate::text::{
    after_n, contains_char, first_n, free_of, join, join_text, lemma_join_concat,
    lemma_join_split, lemma_split_concat, lemma_split_join, lemma_split_len, lemma_split_pieces,
    lemma_split_without_separator, split, split_text,
};

verus! {

/// The pattern that the first piece of an identifier is held against, to
/// tell whether it names a host.
pub const HOST_PATTERN: &'static str = "^[a-zA-Z0-9][a-zA-Z0-9-]{1,61}[a-zA-Z0-9]\\.[a-zA-Z]{2,}";

/// The host that an identifier without a host of its own is taken from.
pub const DEFAULT_HOST: &'static str = "github.com";

/// An ASCII letter or digit.
pub open spec fn is_alphanumeric(c: char) -> bool {
    ('a' <= c <= 'z') || ('A' <= c <= 'Z') || ('0' <= c <= '9')
}

/// An ASCII letter.
pub open spec fn is_letter(c: char) -> bool {
    ('a' <= c <= 'z') || ('A' <= c <= 'Z')
}

/// `text` begins with a host name whose label has `middle` characters
/// between its first and its last: a letter or digit, `middle` letters,
/// digits or hyphens, a letter or digit, a dot, and two letters.
pub open spec fn begins_with_host_of(text: Seq<char>, middle: int) -> bool {
    &&& 1 <= middle <= 61
    &&& text.len() >= middle + 5
    &&& is_alphanumeric(text[0])
    &&& forall|i: int| 1 <= i <= middle ==> is_alphanumeric(#[trigger] text[i]) || text[i] == '-'
    &&& is_alphanumeric(text[middle + 1])
    &&& text[middle + 2] == '.'
    &&& is_letter(text[middle + 3])
    &&& is_letter(text[middle + 4])
}

/// The language of [`HOST_PATTERN`]: `text` begins with a label of three to
/// sixty-three characters, a dot, and at least two letters.
pub open spec fn begins_with_host(text: Seq<char>) -> bool {
    exists|middle: int| begins_with_host_of(text, middle)
}

/// Calls `regex::Regex::new` on `pattern` and `Regex::is_match` of the
/// result on `text`. For [`HOST_PATTERN`], the only pattern admitted, the
/// contract spells out what the pattern says in the syntax of the `regex`
/// crate: `^` ties the match to the start of `text`, each bracket is a
/// class of ASCII characters, `{1,61}` and `{2,}` count repetitions, and
/// `\.` is a dot. A match may end anywhere, so only a prefix is described.
#[verifier::external_body]
fn pattern_is_match(pattern: &str, text: &str) -> (found: bool)
    requires
        pattern@ == HOST_PATTERN@,
    ensures
        found == begins_with_host(text@),
{
    match regex::Regex::new(pattern) {
        Ok(compiled) => compiled.is_match(text),
        Err(_) => false,
    }
}

/// Whether `text` begins with a host name, as [`HOST_PATTERN`] describes it.
pub fn matches_host_pattern(text: &str) -> (found: bool)
    ensures
        found == begins_with_host(text@),
{
    pattern_is_match(HOST_PATTERN, text)
}

/// Whether the first piece of `raw` names a host.
pub open spec fn is_host_qualified(raw: Seq<char>) -> bool {
    begins_with_host(split(raw, '/')[0])
}

/// `raw` with the default host put in front, unless its first piece names a
/// host already.
pub open spec fn qualified(raw: Seq<char>) -> Seq<char> {
    if is_host_qualified(raw) {
        raw
    } else {
        DEFAULT_HOST@ + seq!['/'] + raw
    }
}

/// `raw` names a repository: it has a `/`, and once qualified it has the
/// three pieces of a repository, host, owner and name. A host with a single
/// piece behind it names none.
pub open spec fn names_repository(raw: Seq<char>) -> bool {
    raw.contains('/') && split(qualified(raw), '/').len() >= 3
}

/// The repository that `raw` means: host, owner and name, the first three
/// pieces of the qualified identifier.
pub open spec fn repository_id(raw: Seq<char>) -> Seq<char> {
    join(first_n(split(qualified(raw), '/'), 3), '/')
}

/// The place of the package inside its repository: what follows the first
/// three pieces of the qualified identifier, or `.` where nothing does.
pub open spec fn package_path(raw: Seq<char>) -> Seq<char> {
    let rest = join(after_n(split(qualified(raw), '/'), 3), '/');
    if rest.len() == 0 {
        seq!['.']
    } else {
        rest
    }
}

/// Puts the default host in front of an identifier that names none. An
/// identifier without any `/` is refused.
pub fn resolve_package_url(url: &str) -> (resolved: Result<String, TackleError>)
    ensures
        match resolved {
            Ok(full) => url@.contains('/') && full@ == qualified(url@),
            Err(e) => !url@.contains('/') && e == TackleError::InvalidIdentifier,
        },
{
    if !contains_char(url, '/') {
        return Err(TackleError::InvalidIdentifier);
    }
    let pieces = split_text(url, '/');
    proof {
        lemma_split_pieces(url@, '/');
    }
    if matches_host_pattern(pieces[0].as_str()) {
        Ok(url.to_owned())
    } else {
        let mut full = String::from_str(DEFAULT_HOST);
        full.append("/");
        full.append(url);
        proof {
            reveal_strlit("/");
            assert("/"@ =~= seq!['/']);
        }
        Ok(full)
    }
}

/// The pieces of the qualified form of an identifier that names a
/// repository. An identifier that names none is refused: one without any
/// `/`, and one that is a host and a single piece more.
fn repository_pieces(url: &str) -> (pieces: Result<Vec<String>, TackleError>)
    ensures
        match pieces {
            Ok(pieces) => names_repository(url@) && pieces.deep_view() == split(
                qualified(url@),
                '/',
            ),
            Err(e) => !names_repository(url@) && e == TackleError::InvalidIdentifier,
        },
{
    match resolve_package_url(url) {
        Ok(full) => {
            let pieces = split_text(full.as_str(), '/');
            if pieces.len() < 3 {
                Err(TackleError::InvalidIdentifier)
            } else {
                Ok(pieces)
            }
        },
        Err(e) => Err(e),
    }
}

/// The repository that an identifier means, as `host/owner/name`. An
/// identifier that names no repository is refused.
pub fn package_into_git_url(url: &str) -> (repository: Result<String, TackleError>)
    ensures
        match repository {
            Ok(id) => names_repository(url@) && id@ == repository_id(url@),
            Err(e) => !names_repository(url@) && e == TackleError::InvalidIdentifier,
        },
{
    match repository_pieces(url) {
        Ok(pieces) => {
            proof {
                reveal_strlit("/");
                assert(pieces.deep_view().subrange(0, 3) =~= first_n(pieces.deep_view(), 3));
            }
            Ok(join_text(&pieces, 0, 3, "/"))
        },
        Err(e) => Err(e),
    }
}

/// The place of a package inside its repository, as a path from the root
/// of the repository. An identifier that names no repository is refused.
pub fn extract_package_path(url: &str) -> (path: Result<String, TackleError>)
    ensures
        match path {
            Ok(p) => names_repository(url@) && p@ == package_path(url@),
            Err(e) => !names_repository(url@) && e == TackleError::InvalidIdentifier,
        },
{
    match repository_pieces(url) {
        Ok(pieces) => {
            proof {
                reveal_strlit("/");
                reveal_strlit(".");
                assert(pieces.deep_view().subrange(3, pieces.len() as int) =~= after_n(
                    pieces.deep_view(),
                    3,
                ));
                assert("."@ =~= seq!['.']);
            }
            let rest = join_text(&pieces, 3, pieces.len(), "/");
            if rest.as_str().unicode_len() == 0 {
                Ok(String::from_str("."))
            } else {
                Ok(rest)
            }
        },
        Err(e) => Err(e),
    }
}

/// An identifier in canonical form: the repository, and the place of the
/// package inside it.
#[derive(Debug, Clone, PartialEq, Eq)]
pub struct CanonicalId {
    /// The repository, as `host/owner/name`.
    pub repo_id: String,
    /// The path from the root of the repository to the package; `.` for
    /// the root itself.
    pub subpath: String,
}

/// The mathematical content of a [`CanonicalId`].
pub struct CanonicalIdView {
    pub repo_id: Seq<char>,
    pub subpath: Seq<char>,
}

impl View for CanonicalId {
    type V = CanonicalIdView;

    open spec fn view(&self) -> CanonicalIdView {
        CanonicalIdView { repo_id: self.repo_id@, subpath: self.subpath@ }
    }
}

/// The canonical form of the identifier `raw`.
pub open spec fn canonical(raw: Seq<char>) -> CanonicalIdView {
    CanonicalIdView { repo_id: repository_id(raw), subpath: package_path(raw) }
}

/// Brings an identifier into canonical form. An identifier that names no
/// repository is refused: one without any `/`, and one that is a host and
/// a single piece more.
pub fn canonicalize(raw: &str) -> (id: Result<CanonicalId, TackleError>)
    ensures
        match id {
            Ok(id) => names_repository(raw@) && id@ == canonical(raw@),
            Err(e) => !names_repository(raw@) && e == TackleError::InvalidIdentifier,
        },
{
    let repo_id = match package_into_git_url(raw) {
        Ok(repo_id) => repo_id,
        Err(e) => { return Err(e); },
    };
    let subpath = match extract_package_path(raw) {
        Ok(subpath) => subpath,
        Err(e) => { return Err(e); },
    };
    Ok(CanonicalId { repo_id, subpath })
}

/// The default host names a host, and is a single piece.
pub proof fn lemma_default_host_is_host()
    ensures
        begins_with_host(DEFAULT_HOST@),
        !DEFAULT_HOST@.contains('/'),
        split(DEFAULT_HOST@, '/') == seq![DEFAULT_HOST@],
{
    reveal_strlit("github.com");
    assert(begins_with_host_of(DEFAULT_HOST@, 4));
    lemma_split_without_separator(DEFAULT_HOST@, '/');
}

/// The pieces of a qualified identifier: those of the identifier itself,
/// after the default host where the identifier names no host. There are at
/// least two, and the first names a host.
pub proof fn lemma_qualified_pieces(raw: Seq<char>)
    requires
        raw.contains('/'),
    ensures
        split(qualified(raw), '/') == if is_host_qualified(raw) {
            split(raw, '/')
        } else {
            seq![DEFAULT_HOST@] + split(raw, '/')
        },
        split(qualified(raw), '/').len() >= 2,
        !is_host_qualified(raw) ==> split(qualified(raw), '/').len() >= 3,
        begins_with_host(split(qualified(raw), '/')[0]),
        free_of(split(qualified(raw), '/'), '/'),
{
    lemma_split_len(raw, '/');
    lemma_split_pieces(qualified(raw), '/');
    if !is_host_qualified(raw) {
        lemma_default_host_is_host();
        lemma_split_concat(DEFAULT_HOST@, raw, '/');
    }
}

/// The repository of an identifier that names one has exactly three
/// pieces, the first three of the qualified identifier, and the first of
/// them names a host.
pub proof fn lemma_repository_id_pieces(raw: Seq<char>)
    requires
        names_repository(raw),
    ensures
        split(repository_id(raw), '/') == split(qualified(raw), '/').take(3),
        split(repository_id(raw), '/').len() == 3,
        begins_with_host(split(repository_id(raw), '/')[0]),
        free_of(split(repository_id(raw), '/'), '/'),
        repository_id(raw).contains('/'),
{
    lemma_qualified_pieces(raw);
    let kept = first_n(split(qualified(raw), '/'), 3);
    assert(free_of(kept, '/')) by {
        assert forall|i: int| 0 <= i < kept.len() implies !(#[trigger] kept[i]).contains('/') by {
            assert(kept[i] == split(qualified(raw), '/')[i]);
        }
    }
    lemma_split_join(kept, '/');
    lemma_split_len(repository_id(raw), '/');
}

/// An identifier names a repository exactly when it has a `/` and either
/// names no host, so that the default host is put in front, or has at least
/// three pieces of its own.
pub proof fn lemma_names_repository(raw: Seq<char>)
    ensures
        names_repository(raw) <==> raw.contains('/') && (!is_host_qualified(raw) || split(
            raw,
            '/',
        ).len() >= 3),
{
    if raw.contains('/') {
        lemma_qualified_pieces(raw);
    }
}

/// The repository of an identifier is an identifier that means itself: it
/// names a repository, nothing is put in front of it, its repository is
/// itself, and the package lies at its root.
pub proof fn lemma_repository_id_is_canonical(raw: Seq<char>)
    requires
        names_repository(raw),
    ensures
        names_repository(repository_id(raw)),
        qualified(repository_id(raw)) == repository_id(raw),
        repository_id(repository_id(raw)) == repository_id(raw),
        package_path(repository_id(raw)) == seq!['.'],
{
    lemma_repository_id_pieces(raw);
    let id = repository_id(raw);
    let kept = split(id, '/');
    assert(kept == first_n(split(qualified(raw), '/'), 3));
    assert(first_n(kept, 3) =~= kept);
    assert(after_n(kept, 3) =~= Seq::<Seq<char>>::empty());
}

/// The canonical form loses nothing: the repository, and behind a `/` what
/// follows it, make up the qualified identifier again. What follows is the
/// package path; where nothing follows, the path is `.` and the repository
/// is the whole qualified identifier.
pub proof fn lemma_canonical_form_keeps_everything(raw: Seq<char>)
    requires
        names_repository(raw),
    ensures
        split(qualified(raw), '/').len() == 3 ==> qualified(raw) == repository_id(raw)
            && package_path(raw) == seq!['.'],
        split(qualified(raw), '/').len() > 3 ==> qualified(raw) == repository_id(raw) + seq!['/']
            + join(split(qualified(raw), '/').skip(3), '/'),
        split(qualified(raw), '/').len() > 3 && join(split(qualified(raw), '/').skip(3), '/').len()
            > 0 ==> qualified(raw) == repository_id(raw) + seq!['/'] + package_path(raw),
{
    let pieces = split(qualified(raw), '/');
    lemma_qualified_pieces(raw);
    lemma_join_split(qualified(raw), '/');
    if pieces.len() > 3 {
        assert(first_n(pieces, 3) + after_n(pieces, 3) =~= pieces);
        lemma_join_concat(first_n(pieces, 3), after_n(pieces, 3), '/');
    } else {
        assert(after_n(pieces, 3) =~= Seq::<Seq<char>>::empty());
    }
}

} // verus!
