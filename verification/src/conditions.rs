//! The hook scheduler: which hook may run next, given what has run so far
//! and what was last observed of the machine.
use vstd::prelude::*;

use crate::config::{HookCondition, HookConditionView, HookDefinition, HookDefinitionView};
use crate::text::{contains_text, same_text};

verus! {

/// The state of one hook during a scheduling pass.
#[derive(Debug, Clone, Copy, PartialEq, Eq, Structural)]
pub enum HookState {
    /// The hook ran and exited with success.
    Successful,
    /// The hook ran and exited with a failure.
    Failed,
    /// The hook was passed over.
    Skipped,
    /// The hook is waiting to be run.
    Pending,
}

/// What the scheduler was last told about the machine it runs on. It is a
/// record of observations, made by whoever drives the scheduler.
#[derive(Debug, Clone, PartialEq, Eq)]
pub struct Environment {
    /// The name of the branch that is checked out, if `HEAD` names one.
    pub branch: Option<String>,
    /// The executables that were found on the search path.
    pub programs: Vec<String>,
    /// The paths that were found to be present.
    pub files: Vec<String>,
}

/// The mathematical content of an [`Environment`].
pub struct EnvironmentView {
    pub branch: Option<Seq<char>>,
    pub programs: Seq<Seq<char>>,
    pub files: Seq<Seq<char>>,
}

impl View for Environment {
    type V = EnvironmentView;

    open spec fn view(&self) -> EnvironmentView {
        EnvironmentView {
            branch: self.branch.deep_view(),
            programs: self.programs.deep_view(),
            files: self.files.deep_view(),
        }
    }
}

impl Environment {
    /// The environment of which nothing has been observed: no branch, no
    /// executable, no file.
    pub fn unobserved() -> (env: Environment)
        ensures
            env@.branch is None,
            env@.programs.len() == 0,
            env@.files.len() == 0,
    {
        Environment { branch: None, programs: Vec::new(), files: Vec::new() }
    }
}

/// A hook together with its state.
#[derive(Debug, PartialEq, Eq)]
pub struct HookWithState {
    pub hook: HookDefinition,
    pub state: HookState,
}

/// The mathematical content of a [`HookWithState`].
pub struct HookWithStateView {
    pub hook: HookDefinitionView,
    pub state: HookState,
}

impl View for HookWithState {
    type V = HookWithStateView;

    open spec fn view(&self) -> HookWithStateView {
        HookWithStateView { hook: self.hook@, state: self.state }
    }
}

impl DeepView for HookWithState {
    type V = HookWithStateView;

    open spec fn deep_view(&self) -> HookWithStateView {
        self.view()
    }
}

/// Some hook of `hooks` bears the id `id` and is in state `state`.
pub open spec fn names_hook_in_state(
    hooks: Seq<HookWithStateView>,
    id: Seq<char>,
    state: HookState,
) -> bool {
    exists|i: int|
        0 <= i < hooks.len() && (#[trigger] hooks[i]).hook.id == Some(id) && hooks[i].state
            == state
}

/// Every id of `ids` names a hook of `hooks` that is in state `state`.
pub open spec fn all_in_state(
    hooks: Seq<HookWithStateView>,
    ids: Seq<Seq<char>>,
    state: HookState,
) -> bool {
    forall|k: int| 0 <= k < ids.len() ==> names_hook_in_state(hooks, #[trigger] ids[k], state)
}

/// Every path of `paths` was observed to be present.
pub open spec fn all_present(env: EnvironmentView, paths: Seq<Seq<char>>) -> bool {
    forall|k: int| 0 <= k < paths.len() ==> env.files.contains(#[trigger] paths[k])
}

/// Every name of `names` is the name of the current branch.
pub open spec fn all_on_branch(env: EnvironmentView, names: Seq<Seq<char>>) -> bool {
    forall|k: int| 0 <= k < names.len() ==> env.branch == Some(#[trigger] names[k])
}

/// Every executable of `names` was observed on the search path.
pub open spec fn all_available(env: EnvironmentView, names: Seq<Seq<char>>) -> bool {
    forall|k: int| 0 <= k < names.len() ==> env.programs.contains(#[trigger] names[k])
}

/// One clause holds when each of its five lists holds.
pub open spec fn clause_satisfied(
    hooks: Seq<HookWithStateView>,
    env: EnvironmentView,
    clause: HookConditionView,
) -> bool {
    &&& all_in_state(hooks, clause.skipped, HookState::Skipped)
    &&& all_in_state(hooks, clause.successful, HookState::Successful)
    &&& all_in_state(hooks, clause.failed, HookState::Failed)
    &&& all_present(env, clause.exists)
    &&& all_on_branch(env, clause.branch)
}

/// At least one clause of `clauses` holds.
pub open spec fn some_clause_satisfied(
    hooks: Seq<HookWithStateView>,
    env: EnvironmentView,
    clauses: Seq<HookConditionView>,
) -> bool {
    exists|c: int| 0 <= c < clauses.len() && clause_satisfied(hooks, env, #[trigger] clauses[c])
}

/// A hook may run when it is pending, all the executables it depends on
/// are available, and at least one of its clauses holds.
pub open spec fn eligible(
    hooks: Seq<HookWithStateView>,
    env: EnvironmentView,
    hook: HookWithStateView,
) -> bool {
    &&& hook.state == HookState::Pending
    &&& all_available(env, hook.hook.dependencies)
    &&& some_clause_satisfied(hooks, env, hook.hook.conditions)
}

/// `i` is the place of the first hook of `hooks` that may run.
pub open spec fn is_next(hooks: Seq<HookWithStateView>, env: EnvironmentView, i: int) -> bool {
    &&& 0 <= i < hooks.len()
    &&& eligible(hooks, env, hooks[i])
    &&& forall|j: int| 0 <= j < i ==> !eligible(hooks, env, #[trigger] hooks[j])
}

/// `i` is the place of the first hook of `hooks` that bears the id `id`.
pub open spec fn is_first_with_id(hooks: Seq<HookWithStateView>, id: Seq<char>, i: int) -> bool {
    &&& 0 <= i < hooks.len()
    &&& hooks[i].hook.id == Some(id)
    &&& forall|j: int| 0 <= j < i ==> (#[trigger] hooks[j]).hook.id != Some(id)
}

/// The hooks after the hook at place `i` was settled with `state`: a
/// pending hook takes the state, a hook that is no longer pending keeps its
/// own.
pub open spec fn settled(hooks: Seq<HookWithStateView>, i: int, state: HookState) -> Seq<
    HookWithStateView,
> {
    if hooks[i].state == HookState::Pending {
        hooks.update(i, HookWithStateView { hook: hooks[i].hook, state: state })
    } else {
        hooks
    }
}

/// Some hook of `hooks` bears the id `id`.
pub open spec fn has_id(hooks: Seq<HookWithStateView>, id: Seq<char>) -> bool {
    exists|i: int| 0 <= i < hooks.len() && (#[trigger] hooks[i]).hook.id == Some(id)
}

/// Some hook of `hooks` is still waiting to be run.
pub open spec fn some_pending(hooks: Seq<HookWithStateView>) -> bool {
    exists|i: int| 0 <= i < hooks.len() && (#[trigger] hooks[i]).state == HookState::Pending
}

/// No hook of `hooks` may run.
pub open spec fn none_eligible(hooks: Seq<HookWithStateView>, env: EnvironmentView) -> bool {
    forall|i: int| 0 <= i < hooks.len() ==> !eligible(hooks, env, #[trigger] hooks[i])
}

/// The scheduler of one pass over the hooks of a manifest.
pub struct HookRunner {
    hooks: Vec<HookWithState>,
    env: Environment,
}

/// The mathematical content of a [`HookRunner`].
pub struct HookRunnerView {
    pub hooks: Seq<HookWithStateView>,
    pub env: EnvironmentView,
}

impl View for HookRunner {
    type V = HookRunnerView;

    closed spec fn view(&self) -> HookRunnerView {
        HookRunnerView { hooks: self.hooks.deep_view(), env: self.env@ }
    }
}

/// Every hook of `definitions`, in order, waiting to be run.
pub open spec fn all_pending(definitions: Seq<HookDefinitionView>) -> Seq<HookWithStateView> {
    Seq::new(
        definitions.len(),
        |i: int| HookWithStateView { hook: definitions[i], state: HookState::Pending },
    )
}

impl HookRunner {
    /// Starts a pass: every hook is pending, in the order given, and
    /// nothing has been observed of the machine.
    pub fn from_hooks(hooks: Vec<HookDefinition>) -> (runner: HookRunner)
        ensures
            runner@.hooks == all_pending(hooks.deep_view()),
            runner@.env.branch is None,
            runner@.env.programs.len() == 0,
            runner@.env.files.len() == 0,
    {
        let ghost given = hooks.deep_view();
        let mut out: Vec<HookWithState> = Vec::new();
        for hook in it: hooks
            invariant
                it.seq().len() == given.len(),
                forall|i: int| 0 <= i < given.len() ==> it.seq()[i]@ == given[i],
                out.deep_view() == all_pending(given.take(it.index() as int)),
        {
            let ghost so_far = out.deep_view();
            assert(hook@ == given[it.index() as int]);
            out.push(HookWithState { hook, state: HookState::Pending });
            assert(out.deep_view() =~= all_pending(given.take(it.index() + 1))) by {
                assert(out.deep_view().len() == so_far.len() + 1);
                assert forall|k: int| 0 <= k < out.len() implies out.deep_view()[k]
                    == all_pending(given.take(it.index() + 1))[k] by {
                    if k < so_far.len() {
                        assert(out.deep_view()[k] == so_far[k]);
                    }
                }
            }
        }
        assert(given.take(given.len() as int) =~= given);
        HookRunner { hooks: out, env: Environment::unobserved() }
    }

    /// Records a new observation of the machine, in place of the last one.
    /// The hooks and their states stay as they are.
    pub fn observe(&mut self, env: Environment)
        ensures
            final(self)@.hooks == old(self)@.hooks,
            final(self)@.env == env@,
    {
        self.env = env;
    }

    /// The number of hooks of this pass.
    pub fn len(&self) -> (n: usize)
        ensures
            n == self@.hooks.len(),
    {
        self.hooks.len()
    }

    /// The hook at place `index`, with its state.
    pub fn get(&self, index: usize) -> (entry: &HookWithState)
        requires
            index < self@.hooks.len(),
        ensures
            entry@ == self@.hooks[index as int],
    {
        &self.hooks[index]
    }

    /// Whether some hook bears the id `hook_id`.
    pub fn contains_hook(&self, hook_id: &str) -> (found: bool)
        ensures
            found == has_id(self@.hooks, hook_id@),
    {
        let mut i: usize = 0;
        while i < self.hooks.len()
            invariant
                i <= self.hooks.len(),
                forall|j: int| 0 <= j < i ==> (#[trigger] self@.hooks[j]).hook.id != Some(hook_id@),
            decreases self.hooks.len() - i,
        {
            if bears_id(&self.hooks[i].hook, hook_id) {
                assert(self@.hooks[i as int].hook.id == Some(hook_id@));
                return true;
            }
            i += 1;
        }
        false
    }

    /// Settles the first hook that bears the id `hook_id`: where it is
    /// pending, its state becomes `state`; where it has left the pending
    /// state, it keeps the state it has. The other hooks, and that hook's
    /// definition, stay as they are. The id must be the id of some hook.
    pub fn set_hook_state(&mut self, hook_id: &str, state: HookState)
        requires
            has_id(old(self)@.hooks, hook_id@),
        ensures
            final(self)@.env == old(self)@.env,
            exists|i: int|
                is_first_with_id(old(self)@.hooks, hook_id@, i) && final(self)@.hooks == settled(
                    old(self)@.hooks,
                    i,
                    state,
                ),
    {
        let mut i: usize = 0;
        while i < self.hooks.len()
            invariant
                i <= self.hooks.len(),
                *self == *old(self),
                has_id(self@.hooks, hook_id@),
                forall|j: int| 0 <= j < i ==> (#[trigger] self@.hooks[j]).hook.id != Some(hook_id@),
            decreases self.hooks.len() - i,
        {
            if bears_id(&self.hooks[i].hook, hook_id) {
                let ghost before = self@.hooks;
                assert(is_first_with_id(before, hook_id@, i as int));
                assert(before[i as int].state == self.hooks[i as int].state);
                if self.hooks[i].state == HookState::Pending {
                    self.hooks[i].state = state;
                }
                assert(self@.hooks =~= settled(before, i as int, state));
                return ;
            }
            i += 1;
        }
    }

    /// Whether some hook bears the id `id` and is in state `state`.
    fn hook_in_state(&self, id: &str, state: HookState) -> (found: bool)
        ensures
            found == names_hook_in_state(self@.hooks, id@, state),
    {
        let mut i: usize = 0;
        while i < self.hooks.len()
            invariant
                i <= self.hooks.len(),
                forall|j: int|
                    0 <= j < i ==> !((#[trigger] self@.hooks[j]).hook.id == Some(id@)
                        && self@.hooks[j].state == state),
            decreases self.hooks.len() - i,
        {
            if bears_id(&self.hooks[i].hook, id) && self.hooks[i].state == state {
                assert(self@.hooks[i as int].hook.id == Some(id@));
                return true;
            }
            i += 1;
        }
        false
    }

    /// Whether every id of `ids` names a hook that is in state `state`.
    fn hooks_in_state(&self, ids: &Vec<String>, state: HookState) -> (all: bool)
        ensures
            all == all_in_state(self@.hooks, ids.deep_view(), state),
    {
        let mut k: usize = 0;
        while k < ids.len()
            invariant
                k <= ids.len(),
                forall|m: int|
                    0 <= m < k ==> names_hook_in_state(
                        self@.hooks,
                        #[trigger] ids.deep_view()[m],
                        state,
                    ),
            decreases ids.len() - k,
        {
            if !self.hook_in_state(ids[k].as_str(), state) {
                assert(!names_hook_in_state(self@.hooks, ids.deep_view()[k as int], state));
                return false;
            }
            k += 1;
        }
        true
    }

    /// Whether the clause `clause` holds.
    pub fn clause_holds(&self, clause: &HookCondition) -> (holds: bool)
        ensures
            holds == clause_satisfied(self@.hooks, self@.env, clause@),
    {
        let matches_skip = self.hooks_in_state(&clause.skipped, HookState::Skipped);
        let matches_success = self.hooks_in_state(&clause.successful, HookState::Successful);
        let matches_failed = self.hooks_in_state(&clause.failed, HookState::Failed);
        let matches_exists = includes_all(&self.env.files, &clause.exists);
        let matches_branch = names_branch(&self.env.branch, &clause.branch);
        matches_skip && matches_success && matches_failed && matches_exists && matches_branch
    }

    /// Whether `hook` may run now: it is pending, what it depends on is
    /// available, and one of its clauses holds.
    pub fn is_matching_hook(&self, hook: &HookWithState) -> (matching: bool)
        ensures
            matching == eligible(self@.hooks, self@.env, hook@),
    {
        if hook.state != HookState::Pending {
            return false;
        }
        if !includes_all(&self.env.programs, &hook.hook.dependencies) {
            return false;
        }
        let conditions = &hook.hook.conditions;
        let mut c: usize = 0;
        while c < conditions.len()
            invariant
                c <= conditions.len(),
                conditions.deep_view() == hook@.hook.conditions,
                hook@.state == HookState::Pending,
                all_available(self@.env, hook@.hook.dependencies),
                forall|m: int|
                    0 <= m < c ==> !clause_satisfied(
                        self@.hooks,
                        self@.env,
                        #[trigger] conditions.deep_view()[m],
                    ),
            decreases conditions.len() - c,
        {
            if self.clause_holds(&conditions[c]) {
                assert(clause_satisfied(
                    self@.hooks,
                    self@.env,
                    hook@.hook.conditions[c as int],
                ));
                return true;
            }
            c += 1;
        }
        false
    }

    /// The first hook, in the order of the manifest, that may run now; or
    /// `None` when no hook may.
    pub fn next_hook(&mut self) -> (next: Option<&HookDefinition>)
        ensures
            *final(self) == *old(self),
            match next {
                Some(hook) => exists|i: int|
                    is_next(old(self)@.hooks, old(self)@.env, i) && hook@ == old(self)@.hooks[i].hook,
                None => none_eligible(old(self)@.hooks, old(self)@.env),
            },
    {
        let mut i: usize = 0;
        while i < self.hooks.len()
            invariant
                i <= self.hooks.len(),
                forall|j: int|
                    0 <= j < i ==> !eligible(self@.hooks, self@.env, #[trigger] self@.hooks[j]),
            decreases self.hooks.len() - i,
        {
            if self.is_matching_hook(&self.hooks[i]) {
                assert(is_next(self@.hooks, self@.env, i as int));
                return Some(&self.hooks[i].hook);
            }
            i += 1;
        }
        None
    }

    /// Whether some hook is still waiting to be run.
    pub fn has_pending(&self) -> (pending: bool)
        ensures
            pending == some_pending(self@.hooks),
    {
        let mut i: usize = 0;
        while i < self.hooks.len()
            invariant
                i <= self.hooks.len(),
                forall|j: int| 0 <= j < i ==> (#[trigger] self@.hooks[j]).state != HookState::Pending,
            decreases self.hooks.len() - i,
        {
            if self.hooks[i].state == HookState::Pending {
                assert(self@.hooks[i as int].state == HookState::Pending);
                return true;
            }
            i += 1;
        }
        false
    }

    /// Whether the pass is stuck: hooks are still waiting, and none of
    /// them may run. Hooks whose conditions wait for each other end so.
    pub fn is_stalled(&self) -> (stalled: bool)
        ensures
            stalled == (some_pending(self@.hooks) && none_eligible(self@.hooks, self@.env)),
    {
        if !self.has_pending() {
            return false;
        }
        let mut i: usize = 0;
        while i < self.hooks.len()
            invariant
                i <= self.hooks.len(),
                some_pending(self@.hooks),
                forall|j: int|
                    0 <= j < i ==> !eligible(self@.hooks, self@.env, #[trigger] self@.hooks[j]),
            decreases self.hooks.len() - i,
        {
            if self.is_matching_hook(&self.hooks[i]) {
                assert(eligible(self@.hooks, self@.env, self@.hooks[i as int]));
                return false;
            }
            i += 1;
        }
        true
    }
}

/// Whether `hook` bears the id `id`.
fn bears_id(hook: &HookDefinition, id: &str) -> (bears: bool)
    ensures
        bears == (hook@.id == Some(id@)),
{
    match &hook.id {
        Some(own) => same_text(own.as_str(), id),
        None => false,
    }
}

/// Whether every string of `wanted` is one of `have`.
fn includes_all(have: &Vec<String>, wanted: &Vec<String>) -> (all: bool)
    ensures
        all == (forall|k: int|
            0 <= k < wanted.len() ==> have.deep_view().contains(#[trigger] wanted.deep_view()[k])),
{
    let mut k: usize = 0;
    while k < wanted.len()
        invariant
            k <= wanted.len(),
            forall|m: int|
                0 <= m < k ==> have.deep_view().contains(#[trigger] wanted.deep_view()[m]),
        decreases wanted.len() - k,
    {
        if !contains_text(have, wanted[k].as_str()) {
            assert(!have.deep_view().contains(wanted.deep_view()[k as int]));
            return false;
        }
        k += 1;
    }
    true
}

/// Whether every name of `names` is the name of the branch `branch`.
fn names_branch(branch: &Option<String>, names: &Vec<String>) -> (all: bool)
    ensures
        all == (forall|k: int|
            0 <= k < names.len() ==> branch.deep_view() == Some(#[trigger] names.deep_view()[k])),
{
    let mut k: usize = 0;
    while k < names.len()
        invariant
            k <= names.len(),
            forall|m: int|
                0 <= m < k ==> branch.deep_view() == Some(#[trigger] names.deep_view()[m]),
        decreases names.len() - k,
    {
        let on_it = match branch {
            Some(current) => same_text(current.as_str(), names[k].as_str()),
            None => false,
        };
        if !on_it {
            assert(branch.deep_view() != Some(names.deep_view()[k as int]));
            return false;
        }
        k += 1;
    }
    true
}

/// A clause whose five lists are all empty holds whatever the states of
/// the hooks and whatever was observed of the machine.
pub proof fn lemma_empty_clause_always_holds(
    hooks: Seq<HookWithStateView>,
    env: EnvironmentView,
    clause: HookConditionView,
)
    requires
        clause.is_empty(),
    ensures
        clause_satisfied(hooks, env, clause),
{
}

/// A pending hook that depends on no executable and has a clause that asks
/// for nothing may always run.
pub proof fn lemma_unconditional_hook_is_eligible(
    hooks: Seq<HookWithStateView>,
    env: EnvironmentView,
    hook: HookWithStateView,
    c: int,
)
    requires
        hook.state == HookState::Pending,
        hook.hook.dependencies.len() == 0,
        0 <= c < hook.hook.conditions.len(),
        hook.hook.conditions[c].is_empty(),
    ensures
        eligible(hooks, env, hook),
{
    lemma_empty_clause_always_holds(hooks, env, hook.hook.conditions[c]);
}

/// A hook that has left the pending state is never chosen again, and
/// neither is a hook without any clause.
pub proof fn lemma_settled_hook_is_not_eligible(
    hooks: Seq<HookWithStateView>,
    env: EnvironmentView,
    hook: HookWithStateView,
)
    requires
        hook.state != HookState::Pending || hook.hook.conditions.len() == 0,
    ensures
        !eligible(hooks, env, hook),
{
}

/// No hook ever leaves a state other than pending, and settling one hook
/// changes no other: whichever hook is settled with whichever state, a
/// hook that was no longer pending is as it was, and so is every hook but
/// the one settled.
pub proof fn lemma_settled_states_are_final(
    hooks: Seq<HookWithStateView>,
    i: int,
    state: HookState,
    j: int,
)
    requires
        0 <= i < hooks.len(),
        0 <= j < hooks.len(),
    ensures
        settled(hooks, i, state).len() == hooks.len(),
        settled(hooks, i, state)[j].hook == hooks[j].hook,
        hooks[j].state != HookState::Pending || j != i ==> settled(hooks, i, state)[j]
            == hooks[j],
        settled(hooks, i, state)[j].state == hooks[j].state || (j == i && hooks[j].state
            == HookState::Pending && settled(hooks, i, state)[j].state == state),
{
}

/// The number of hooks of `hooks` that are still waiting to be run.
pub open spec fn pending_count(hooks: Seq<HookWithStateView>) -> nat
    decreases hooks.len(),
{
    if hooks.len() == 0 {
        0
    } else if hooks.last().state == HookState::Pending {
        pending_count(hooks.drop_last()) + 1
    } else {
        pending_count(hooks.drop_last())
    }
}

/// A pass comes to an end: each time a pending hook is settled with a state
/// other than pending, one hook fewer is waiting.
pub proof fn lemma_settling_makes_progress(
    hooks: Seq<HookWithStateView>,
    i: int,
    state: HookState,
)
    requires
        0 <= i < hooks.len(),
        hooks[i].state == HookState::Pending,
        state != HookState::Pending,
    ensures
        pending_count(settled(hooks, i, state)) + 1 == pending_count(hooks),
    decreases hooks.len(),
{
    let after = settled(hooks, i, state);
    if i == hooks.len() - 1 {
        assert(after.drop_last() =~= hooks.drop_last());
    } else {
        lemma_settling_makes_progress(hooks.drop_last(), i, state);
        assert(after.drop_last() =~= settled(hooks.drop_last(), i, state));
        assert(after.last() == hooks.last());
    }
}

/// The choice of the next hook is determined: at most one place is the
/// place of the first hook that may run.
pub proof fn lemma_next_is_unique(
    hooks: Seq<HookWithStateView>,
    env: EnvironmentView,
    i: int,
    j: int,
)
    requires
        is_next(hooks, env, i),
        is_next(hooks, env, j),
    ensures
        i == j,
{
    if i < j {
        assert(!eligible(hooks, env, hooks[i]));
    } else if j < i {
        assert(!eligible(hooks, env, hooks[j]));
    }
}

/// At most one place is the place of the first hook with a given id.
pub proof fn lemma_first_with_id_is_unique(
    hooks: Seq<HookWithStateView>,
    id: Seq<char>,
    i: int,
    j: int,
)
    requires
        is_first_with_id(hooks, id, i),
        is_first_with_id(hooks, id, j),
    ensures
        i == j,
{
    if i < j {
        assert(hooks[i].hook.id != Some(id));
    } else if j < i {
        assert(hooks[j].hook.id != Some(id));
    }
}

/// A clause that names two different branches never holds: every name in
/// the list has to be the name of the one current branch.
pub proof fn lemma_two_branches_never_hold(
    hooks: Seq<HookWithStateView>,
    env: EnvironmentView,
    clause: HookConditionView,
    a: int,
    b: int,
)
    requires
        0 <= a < clause.branch.len(),
        0 <= b < clause.branch.len(),
        clause.branch[a] != clause.branch[b],
    ensures
        !clause_satisfied(hooks, env, clause),
{
    if all_on_branch(env, clause.branch) {
        assert(env.branch == Some(clause.branch[a]));
        assert(env.branch == Some(clause.branch[b]));
    }
}

} // verus!
