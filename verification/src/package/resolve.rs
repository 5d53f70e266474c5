//! Resolving a package name and version to a place it can be had from.
//!
//! Every configured repository is asked, all at once and each on its own:
//! the package is cloned from it into a scratch directory and the tags of
//! the clone are listed. None of that happens here. What happens here is
//! what is asked for, what each answer amounts to, and which answer wins:
//! that of the first repository, in the order they are configured, that has
//! a tag for the version, whichever answer came in first.
use vstd::prelude::*;
use vstd::string::StringExecFns;

use crate::errors::TackleError;
use crate::text::same_text;

verus! {

/// What `semver::Version::parse` makes of `input`, written out again: the
/// text of the version, or `None` where `input` is no semantic version.
pub uninterp spec fn semver_text(input: Seq<char>) -> Option<Seq<char>>;

/// What `url::Url::join` makes of `reference` on the base address `base`,
/// written out again; `None` where `base` is no absolute address or
/// `reference` cannot be joined to it.
pub uninterp spec fn url_joined(base: Seq<char>, reference: Seq<char>) -> Option<Seq<char>>;

/// Calls `semver::Version::parse` on `text` and writes the version out
/// with its `Display`. The result is given the name [`semver_text`];
/// nothing else is claimed of it.
#[verifier::external_body]
fn parse_semver(text: &str) -> (canonical: Option<String>)
    ensures
        canonical.deep_view() == semver_text(text@),
{
    match semver::Version::parse(text) {
        Ok(version) => Some(version.to_string()),
        Err(_) => None,
    }
}

/// Calls `url::Url::parse` on `base` and `url::Url::join` of the result on
/// `reference`, and takes the serialization of the joined address. The
/// result is given the name [`url_joined`]; nothing else is claimed of it.
#[verifier::external_body]
fn join_url(base: &str, reference: &str) -> (joined: Option<String>)
    ensures
        joined.deep_view() == url_joined(base@, reference@),
{
    match url::Url::parse(base) {
        Ok(base) => match base.join(reference) {
            Ok(joined) => Some(String::from(joined)),
            Err(_) => None,
        },
        Err(_) => None,
    }
}

/// A semantic version, held as the text that tags are compared with.
#[derive(Debug, PartialEq, Eq)]
pub struct Version {
    text: String,
}

impl View for Version {
    type V = Seq<char>;

    closed spec fn view(&self) -> Seq<char> {
        self.text@
    }
}

impl Clone for Version {
    fn clone(&self) -> (copy: Version)
        ensures
            copy@ == self@,
    {
        Version { text: self.text.clone() }
    }
}

impl Version {
    /// Reads a semantic version; `None` where `text` is none.
    pub fn parse(text: &str) -> (version: Option<Version>)
        ensures
            match version {
                Some(version) => semver_text(text@) == Some(version@),
                None => semver_text(text@) is None,
            },
    {
        match parse_semver(text) {
            Some(text) => Some(Version { text }),
            None => None,
        }
    }

    /// The text of the version.
    pub fn to_string(&self) -> (text: String)
        ensures
            text@ == self@,
    {
        self.text.clone()
    }
}

/// Where a resolved package is to be had from.
#[derive(Debug, Clone, PartialEq, Eq)]
pub enum ResolvedPackageUrl {
    /// The address of a repository to clone.
    Remote(String),
    /// The path of a repository in the cache.
    Cache(String),
}

/// The mathematical content of a [`ResolvedPackageUrl`].
pub enum ResolvedPackageUrlView {
    Remote(Seq<char>),
    Cache(Seq<char>),
}

impl View for ResolvedPackageUrl {
    type V = ResolvedPackageUrlView;

    open spec fn view(&self) -> ResolvedPackageUrlView {
        match self {
            ResolvedPackageUrl::Remote(url) => ResolvedPackageUrlView::Remote(url@),
            ResolvedPackageUrl::Cache(path) => ResolvedPackageUrlView::Cache(path@),
        }
    }
}

/// A package that was resolved.
#[derive(Debug, Clone, PartialEq, Eq)]
pub struct ResolvedPackage {
    /// Where the package is to be had from.
    pub url: ResolvedPackageUrl,
    /// The name of the package.
    pub name: String,
    /// The version of the package.
    pub version: Version,
}

/// The mathematical content of a [`ResolvedPackage`].
pub struct ResolvedPackageView {
    pub url: ResolvedPackageUrlView,
    pub name: Seq<char>,
    pub version: Seq<char>,
}

impl View for ResolvedPackage {
    type V = ResolvedPackageView;

    open spec fn view(&self) -> ResolvedPackageView {
        ResolvedPackageView { url: self.url@, name: self.name@, version: self.version@ }
    }
}

/// What was learnt of a package at one repository.
#[derive(Debug, Clone, PartialEq, Eq)]
pub enum SourceProbe {
    /// No scratch directory could be made to clone into.
    ScratchFailed,
    /// The package could not be cloned.
    CloneFailed,
    /// The package was cloned, and these are the names of its tags; `None`
    /// stands for a name that is not valid text.
    Tags(Vec<Option<String>>),
}

/// The mathematical content of a [`SourceProbe`].
pub enum SourceProbeView {
    ScratchFailed,
    CloneFailed,
    Tags(Seq<Option<Seq<char>>>),
}

impl View for SourceProbe {
    type V = SourceProbeView;

    open spec fn view(&self) -> SourceProbeView {
        match self {
            SourceProbe::ScratchFailed => SourceProbeView::ScratchFailed,
            SourceProbe::CloneFailed => SourceProbeView::CloneFailed,
            SourceProbe::Tags(tags) => SourceProbeView::Tags(tags.deep_view()),
        }
    }
}

impl DeepView for SourceProbe {
    type V = SourceProbeView;

    open spec fn deep_view(&self) -> SourceProbeView {
        self.view()
    }
}

/// What asking one repository comes to.
pub enum Attempt {
    /// The repository could not be asked, for the reason given.
    Failed(TackleError),
    /// The repository has no tag for the version.
    NoMatch,
    /// The repository has a tag for the version.
    Match(ResolvedPackageView),
}

/// The name that a scratch directory for `name` at `version` begins with.
pub open spec fn scratch_name(name: Seq<char>, version: Seq<char>) -> Seq<char> {
    name + seq!['-'] + version
}

/// What the answer `probe` of a repository comes to, where `package_url`
/// is the address of the package at that repository, or `None` where the
/// package has no address there. A tag matches when its name is, letter
/// for letter, the text of the version.
pub open spec fn attempt_of(
    package_url: Option<Seq<char>>,
    name: Seq<char>,
    version: Seq<char>,
    probe: SourceProbeView,
) -> Attempt {
    match package_url {
        None => Attempt::Failed(TackleError::InvalidCommitHook),
        Some(url) => match probe {
            SourceProbeView::ScratchFailed => Attempt::Failed(TackleError::AlreadyInitialized),
            SourceProbeView::CloneFailed => Attempt::Failed(TackleError::RepositoryCloneFailed),
            SourceProbeView::Tags(tags) => if tags.contains(Some(version)) {
                Attempt::Match(
                    ResolvedPackageView {
                        url: ResolvedPackageUrlView::Remote(url),
                        name: name,
                        version: version,
                    },
                )
            } else {
                Attempt::NoMatch
            },
        },
    }
}

/// What a result of [`resolve_at`] or [`Repository::resolve`] says.
pub open spec fn attempt_made(result: Result<Option<ResolvedPackage>, TackleError>) -> Attempt {
    match result {
        Err(e) => Attempt::Failed(e),
        Ok(None) => Attempt::NoMatch,
        Ok(Some(package)) => Attempt::Match(package@),
    }
}

/// The name that the scratch directory for cloning `name` at `version`
/// begins with.
pub fn scratch_prefix(name: &str, version: &Version) -> (prefix: String)
    ensures
        prefix@ == scratch_name(name@, version@),
{
    let mut prefix = name.to_owned();
    proof {
        reveal_strlit("-");
        assert("-"@ =~= seq!['-']);
    }
    prefix.append("-");
    prefix.append(version.text.as_str());
    prefix
}

/// Whether one of `tags` is, letter for letter, `version`.
pub fn has_tag(tags: &Vec<Option<String>>, version: &str) -> (found: bool)
    ensures
        found == tags.deep_view().contains(Some(version@)),
{
    let mut i: usize = 0;
    while i < tags.len()
        invariant
            i <= tags.len(),
            forall|k: int| 0 <= k < i ==> tags.deep_view()[k] != Some(version@),
        decreases tags.len() - i,
    {
        let hit = match &tags[i] {
            Some(tag) => same_text(tag.as_str(), version),
            None => false,
        };
        if hit {
            assert(tags.deep_view()[i as int] == Some(version@));
            return true;
        }
        i += 1;
    }
    false
}

/// What the answer `probe` comes to for the package `name` at `version`,
/// where `package_url` is its address at the repository that answered.
pub fn resolve_at(
    package_url: Option<String>,
    name: String,
    version: Version,
    probe: &SourceProbe,
) -> (result: Result<Option<ResolvedPackage>, TackleError>)
    ensures
        attempt_made(result) == attempt_of(package_url.deep_view(), name@, version@, probe@),
{
    let url = match package_url {
        Some(url) => url,
        None => { return Err(TackleError::InvalidCommitHook); },
    };
    match probe {
        SourceProbe::ScratchFailed => Err(TackleError::AlreadyInitialized),
        SourceProbe::CloneFailed => Err(TackleError::RepositoryCloneFailed),
        SourceProbe::Tags(tags) => {
            if has_tag(tags, version.text.as_str()) {
                Ok(Some(ResolvedPackage { url: ResolvedPackageUrl::Remote(url), name, version }))
            } else {
                Ok(None)
            }
        },
    }
}

/// A repository of packages: an address below which packages lie.
#[derive(Debug, Clone, PartialEq, Eq)]
pub struct Repository {
    /// The base address.
    pub url: String,
}

impl View for Repository {
    type V = Seq<char>;

    open spec fn view(&self) -> Seq<char> {
        self.url@
    }
}

impl DeepView for Repository {
    type V = Seq<char>;

    open spec fn deep_view(&self) -> Seq<char> {
        self.url@
    }
}

impl Repository {
    /// The address of the package `name` at this repository, which is what
    /// is to be cloned; `None` where the name cannot be joined to the base
    /// address.
    pub fn package_url(&self, name: &str) -> (url: Option<String>)
        ensures
            url.deep_view() == url_joined(self@, name@),
    {
        join_url(self.url.as_str(), name)
    }

    /// What the answer `probe` of this repository comes to for the package
    /// `name` at `version`.
    pub fn resolve(&self, name: String, version: Version, probe: &SourceProbe) -> (result: Result<
        Option<ResolvedPackage>,
        TackleError,
    >)
        ensures
            attempt_made(result) == attempt_of(
                url_joined(self@, name@),
                name@,
                version@,
                probe@,
            ),
    {
        let package_url = self.package_url(name.as_str());
        resolve_at(package_url, name, version, probe)
    }
}

/// The package of the first attempt, in order, that matched.
pub open spec fn first_match(attempts: Seq<Attempt>) -> Option<ResolvedPackageView>
    decreases attempts.len(),
{
    if attempts.len() == 0 {
        None
    } else {
        match attempts[0] {
            Attempt::Match(package) => Some(package),
            _ => first_match(attempts.drop_first()),
        }
    }
}

/// What asking each of `repositories` for `name` at `version` comes to,
/// where `probes[i]` is the answer of `repositories[i]`.
pub open spec fn attempts(
    repositories: Seq<Seq<char>>,
    name: Seq<char>,
    version: Seq<char>,
    probes: Seq<SourceProbeView>,
) -> Seq<Attempt> {
    Seq::new(
        repositories.len(),
        |i: int| attempt_of(url_joined(repositories[i], name), name, version, probes[i]),
    )
}

/// Where the attempt at place `i` matched and none before it did, its
/// package is the first match: an earlier repository wins over a later one.
pub proof fn lemma_first_match_is_earliest(attempts: Seq<Attempt>, i: int)
    requires
        0 <= i < attempts.len(),
        attempts[i] is Match,
        forall|j: int| 0 <= j < i ==> !(#[trigger] attempts[j] is Match),
    ensures
        first_match(attempts) == Some(attempts[i]->Match_0),
    decreases i,
{
    if i > 0 {
        assert(!(attempts[0] is Match));
        let rest = attempts.drop_first();
        assert forall|j: int| 0 <= j < i - 1 implies !(#[trigger] rest[j] is Match) by {
            assert(rest[j] == attempts[j + 1]);
        }
        lemma_first_match_is_earliest(rest, i - 1);
    }
}

/// Where no attempt matched, nothing is resolved: that is no error.
pub proof fn lemma_no_match_resolves_nothing(attempts: Seq<Attempt>)
    requires
        forall|j: int| 0 <= j < attempts.len() ==> !(#[trigger] attempts[j] is Match),
    ensures
        first_match(attempts) is None,
    decreases attempts.len(),
{
    if attempts.len() > 0 {
        assert(!(attempts[0] is Match));
        let rest = attempts.drop_first();
        assert forall|j: int| 0 <= j < rest.len() implies !(#[trigger] rest[j] is Match) by {
            assert(rest[j] == attempts[j + 1]);
        }
        lemma_no_match_resolves_nothing(rest);
    }
}

/// Resolves packages from a list of repositories, in the order of their
/// priority.
#[derive(Debug, Clone, PartialEq, Eq)]
pub struct PackageResolver {
    /// The repositories, the one of highest priority first.
    pub repositories: Vec<Repository>,
}

impl View for PackageResolver {
    type V = Seq<Seq<char>>;

    open spec fn view(&self) -> Seq<Seq<char>> {
        self.repositories.deep_view()
    }
}

impl PackageResolver {
    /// The package `name` at `version`, from the first repository, in the
    /// order of priority, whose answer has a tag for the version; `None`
    /// where no repository has one. `probes[i]` is the answer of the
    /// repository at place `i`. A repository that could not be asked, or
    /// that failed, does not stand in the way of the others.
    pub fn resolve(&self, name: String, version: Version, probes: &Vec<SourceProbe>) -> (resolved:
        Option<ResolvedPackage>)
        requires
            probes.len() == self@.len(),
        ensures
            match resolved {
                Some(package) => first_match(
                    attempts(self@, name@, version@, probes.deep_view()),
                ) == Some(package@),
                None => first_match(attempts(self@, name@, version@, probes.deep_view()))
                    is None,
            },
    {
        let ghost all = attempts(self@, name@, version@, probes.deep_view());
        let mut i: usize = 0;
        while i < self.repositories.len()
            invariant
                i <= self.repositories.len(),
                probes.len() == self@.len(),
                all == attempts(self@, name@, version@, probes.deep_view()),
                forall|j: int| 0 <= j < i ==> !(#[trigger] all[j] is Match),
            decreases self.repositories.len() - i,
        {
            let result = self.repositories[i].resolve(name.clone(), version.clone(), &probes[i]);
            assert(attempt_made(result) == all[i as int]);
            match result {
                Ok(Some(package)) => {
                    proof {
                        lemma_first_match_is_earliest(all, i as int);
                    }
                    return Some(package);
                },
                _ => {},
            }
            i += 1;
        }
        proof {
            lemma_no_match_resolves_nothing(all);
        }
        None
    }
}

/// The answers of the repositories as they come in, in whatever order:
/// one place for each repository, empty until its answer is there.
#[derive(Debug)]
pub struct Resolution {
    answers: Vec<Option<SourceProbe>>,
}

impl View for Resolution {
    type V = Seq<Option<SourceProbeView>>;

    closed spec fn view(&self) -> Seq<Option<SourceProbeView>> {
        self.answers.deep_view()
    }
}

/// The places of `sources` repositories, none of which has answered.
pub open spec fn unanswered(sources: nat) -> Seq<Option<SourceProbeView>> {
    Seq::new(sources, |i: int| None)
}

/// The places after the answers `arrivals` have come in, in that order;
/// each is an answer together with the place of the repository that gave
/// it.
pub open spec fn recorded(
    answers: Seq<Option<SourceProbeView>>,
    arrivals: Seq<(int, SourceProbeView)>,
) -> Seq<Option<SourceProbeView>>
    decreases arrivals.len(),
{
    if arrivals.len() == 0 {
        answers
    } else {
        recorded(answers, arrivals.drop_last()).update(
            arrivals.last().0,
            Some(arrivals.last().1),
        )
    }
}

/// The repository at place `source` is among those whose answers came in.
pub open spec fn arrived(arrivals: Seq<(int, SourceProbeView)>, source: int) -> bool {
    exists|k: int| 0 <= k < arrivals.len() && (#[trigger] arrivals[k]).0 == source
}

/// Every place holds an answer.
pub open spec fn complete(answers: Seq<Option<SourceProbeView>>) -> bool {
    forall|i: int| 0 <= i < answers.len() ==> (#[trigger] answers[i]) is Some
}

/// The answers of places that all hold one.
pub open spec fn answers_of(answers: Seq<Option<SourceProbeView>>) -> Seq<SourceProbeView> {
    Seq::new(answers.len(), |i: int| answers[i]->0)
}

impl Resolution {
    /// The places of `sources` repositories, none of which has answered.
    pub fn new(sources: usize) -> (resolution: Resolution)
        ensures
            resolution@ == unanswered(sources as nat),
    {
        let mut answers: Vec<Option<SourceProbe>> = Vec::new();
        let mut i: usize = 0;
        while i < sources
            invariant
                i <= sources,
                answers.len() == i,
                answers.deep_view() == unanswered(i as nat),
            decreases sources - i,
        {
            let ghost before = answers.deep_view();
            answers.push(None);
            assert(answers.deep_view() =~= unanswered((i + 1) as nat)) by {
                assert forall|k: int| 0 <= k <= i implies answers.deep_view()[k] is None by {
                    if k < i {
                        assert(answers.deep_view()[k] == before[k]);
                    }
                }
            }
            i += 1;
        }
        Resolution { answers }
    }

    /// The number of repositories.
    pub fn len(&self) -> (sources: usize)
        ensures
            sources == self@.len(),
    {
        self.answers.len()
    }

    /// Takes in the answer of the repository at place `source`.
    pub fn record(&mut self, source: usize, probe: SourceProbe)
        requires
            source < old(self)@.len(),
        ensures
            final(self)@ == old(self)@.update(source as int, Some(probe@)),
    {
        let ghost before = self.answers.deep_view();
        let ghost answer = probe@;
        self.answers[source] = Some(probe);
        assert(self.answers.deep_view() =~= before.update(source as int, Some(answer))) by {
            assert forall|k: int| 0 <= k < before.len() && k != source implies self.answers.deep_view()[k]
                == before[k] by {}
        }
    }

    /// Whether every repository has answered.
    pub fn is_complete(&self) -> (all: bool)
        ensures
            all == complete(self@),
    {
        let mut i: usize = 0;
        while i < self.answers.len()
            invariant
                i <= self.answers.len(),
                forall|k: int| 0 <= k < i ==> (#[trigger] self@[k]) is Some,
            decreases self.answers.len() - i,
        {
            if self.answers[i].is_none() {
                assert(self@[i as int] is None);
                return false;
            }
            i += 1;
        }
        true
    }

    /// The answers, in the order of the repositories, once all are there.
    pub fn into_probes(self) -> (probes: Vec<SourceProbe>)
        requires
            complete(self@),
        ensures
            probes.deep_view() == answers_of(self@),
    {
        let ghost places = self@;
        let mut probes: Vec<SourceProbe> = Vec::new();
        for answer in it: self.answers
            invariant
                it.seq().len() == places.len(),
                forall|k: int| 0 <= k < places.len() ==> it.seq()[k].deep_view() == places[k],
                complete(places),
                probes.len() == it.index(),
                probes.deep_view() == answers_of(places.take(it.index() as int)),
        {
            let ghost so_far = probes.deep_view();
            let ghost place = it.index() as int;
            assert(answer.deep_view() == places[place]);
            assert(places[place] is Some);
            match answer {
                Some(probe) => {
                    assert(probe@ == places[place]->0);
                    probes.push(probe);
                },
                None => {},
            }
            assert(probes.deep_view() =~= answers_of(places.take(place + 1))) by {
                assert(probes.deep_view().len() == so_far.len() + 1);
                assert forall|k: int| 0 <= k <= place implies probes.deep_view()[k] == answers_of(
                    places.take(place + 1),
                )[k] by {
                    if k < place {
                        assert(probes.deep_view()[k] == so_far[k]);
                    }
                }
            }
        }
        assert(places.take(places.len() as int) =~= places);
        probes
    }
}

/// The order in which the answers come in does not matter. Where every
/// arrival is the answer of the repository it names, and every repository
/// has answered, each place holds the answer of its repository; so what is
/// resolved from them is what is resolved from the answers told in the
/// order of the repositories.
pub proof fn lemma_arrival_order_is_irrelevant(
    probes: Seq<SourceProbeView>,
    arrivals: Seq<(int, SourceProbeView)>,
)
    requires
        forall|k: int|
            0 <= k < arrivals.len() ==> 0 <= (#[trigger] arrivals[k]).0 < probes.len()
                && arrivals[k].1 == probes[arrivals[k].0],
        forall|s: int| 0 <= s < probes.len() ==> #[trigger] arrived(arrivals, s),
    ensures
        complete(recorded(unanswered(probes.len()), arrivals)),
        answers_of(recorded(unanswered(probes.len()), arrivals)) == probes,
{
    let places = recorded(unanswered(probes.len()), arrivals);
    lemma_recorded_places(probes, arrivals);
    assert(answers_of(places) =~= probes);
}

/// After some answers have come in, a place holds the answer of its
/// repository where that repository is among them, and is empty where it
/// is not.
pub proof fn lemma_recorded_places(
    probes: Seq<SourceProbeView>,
    arrivals: Seq<(int, SourceProbeView)>,
)
    requires
        forall|k: int|
            0 <= k < arrivals.len() ==> 0 <= (#[trigger] arrivals[k]).0 < probes.len()
                && arrivals[k].1 == probes[arrivals[k].0],
    ensures
        recorded(unanswered(probes.len()), arrivals).len() == probes.len(),
        forall|s: int|
            0 <= s < probes.len() ==> #[trigger] recorded(unanswered(probes.len()), arrivals)[s]
                == if arrived(arrivals, s) {
                Some(probes[s])
            } else {
                None
            },
    decreases arrivals.len(),
{
    if arrivals.len() > 0 {
        let earlier = arrivals.drop_last();
        lemma_recorded_places(probes, earlier);
        let before = recorded(unanswered(probes.len()), earlier);
        let after = recorded(unanswered(probes.len()), arrivals);
        assert forall|s: int| 0 <= s < probes.len() implies #[trigger] after[s] == if arrived(
            arrivals,
            s,
        ) {
            Some(probes[s])
        } else {
            None
        } by {
            if arrivals.last().0 == s {
                assert(arrivals[arrivals.len() - 1].0 == s);
            } else if arrived(earlier, s) {
                let k = choose|k: int| 0 <= k < earlier.len() && (#[trigger] earlier[k]).0 == s;
                assert(arrivals[k].0 == s);
            } else if arrived(arrivals, s) {
                let k = choose|k: int| 0 <= k < arrivals.len() && (#[trigger] arrivals[k]).0 == s;
                assert(earlier[k].0 == s);
            }
        }
    }
}

} // verus!
