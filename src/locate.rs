//! Runtime location of the native library: the candidates in order of
//! preference, and the search over them, one opening attempt at a time.
use vstd::prelude::*;

verus! {

/// A directory searched for the library.
#[derive(Debug, Clone, Copy, PartialEq, Eq, Structural)]
pub enum SearchDir {
    /// `target/debug/deps`, relative to the working directory.
    DebugDeps,
    /// `../target/debug/deps`, for a workspace one level up.
    ParentDebugDeps,
    /// The working directory itself.
    WorkingDir,
    /// `zig-out/lib`, the native build's output.
    BuildOutput,
    /// `../../../zig-out/lib`, the native build's output at the project root.
    ProjectBuildOutput,
    /// `target/debug/deps` under the absolute working directory.
    AbsoluteDebugDeps,
    /// The directory of the running executable.
    ExecutableDir,
}

/// What a search directory's path is relative to.
#[derive(Debug, Clone, Copy, PartialEq, Eq, Structural)]
pub enum SearchBase {
    /// The working directory, as the process resolves relative paths.
    Relative,
    /// The working directory, made absolute.
    AbsoluteWorkingDir,
    /// The directory of the running executable.
    ExecutableDir,
}

/// The path of each search directory below its base.
pub open spec fn dir_path(d: SearchDir) -> Seq<char> {
    match d {
        SearchDir::DebugDeps => "target/debug/deps"@,
        SearchDir::ParentDebugDeps => "../target/debug/deps"@,
        SearchDir::WorkingDir => ""@,
        SearchDir::BuildOutput => "zig-out/lib"@,
        SearchDir::ProjectBuildOutput => "../../../zig-out/lib"@,
        SearchDir::AbsoluteDebugDeps => "target/debug/deps"@,
        SearchDir::ExecutableDir => ""@,
    }
}

/// The base of each search directory.
pub open spec fn dir_base(d: SearchDir) -> SearchBase {
    match d {
        SearchDir::AbsoluteDebugDeps => SearchBase::AbsoluteWorkingDir,
        SearchDir::ExecutableDir => SearchBase::ExecutableDir,
        _ => SearchBase::Relative,
    }
}

impl SearchDir {
    /// The directory's path below its base; empty for the base itself.
    pub fn relative_path(&self) -> (r: &'static str)
        ensures
            r@ == dir_path(*self),
    {
        match self {
            SearchDir::DebugDeps => "target/debug/deps",
            SearchDir::ParentDebugDeps => "../target/debug/deps",
            SearchDir::WorkingDir => "",
            SearchDir::BuildOutput => "zig-out/lib",
            SearchDir::ProjectBuildOutput => "../../../zig-out/lib",
            SearchDir::AbsoluteDebugDeps => "target/debug/deps",
            SearchDir::ExecutableDir => "",
        }
    }

    /// What the directory's path is relative to.
    pub fn base(&self) -> (r: SearchBase)
        ensures
            r == dir_base(*self),
    {
        match self {
            SearchDir::AbsoluteDebugDeps => SearchBase::AbsoluteWorkingDir,
            SearchDir::ExecutableDir => SearchBase::ExecutableDir,
            _ => SearchBase::Relative,
        }
    }
}

/// Which file name is tried.
#[derive(Debug, Clone, Copy, PartialEq, Eq, Structural)]
pub enum FileVariant {
    /// The platform's usual name (`libzrraw.so`).
    Primary,
    /// The name without the `lib` prefix (`zrraw.so`).
    Alternate,
}

/// One place to open the library from.
#[derive(Debug, Clone, Copy, PartialEq, Eq, Structural)]
pub enum Candidate {
    /// A file name in a directory.
    File(SearchDir, FileVariant),
    /// The bare name `zrraw`, resolved by the system's library search.
    System,
}

/// The candidates in order of preference: freshly built artifacts first,
/// each directory with the usual file name and right after it the name
/// without the `lib` prefix, and the system-wide search last.
pub open spec fn search_order() -> Seq<Candidate> {
    seq![
        Candidate::File(SearchDir::DebugDeps, FileVariant::Primary),
        Candidate::File(SearchDir::DebugDeps, FileVariant::Alternate),
        Candidate::File(SearchDir::ParentDebugDeps, FileVariant::Primary),
        Candidate::File(SearchDir::ParentDebugDeps, FileVariant::Alternate),
        Candidate::File(SearchDir::WorkingDir, FileVariant::Primary),
        Candidate::File(SearchDir::WorkingDir, FileVariant::Alternate),
        Candidate::File(SearchDir::BuildOutput, FileVariant::Primary),
        Candidate::File(SearchDir::BuildOutput, FileVariant::Alternate),
        Candidate::File(SearchDir::ProjectBuildOutput, FileVariant::Primary),
        Candidate::File(SearchDir::ProjectBuildOutput, FileVariant::Alternate),
        Candidate::File(SearchDir::AbsoluteDebugDeps, FileVariant::Primary),
        Candidate::File(SearchDir::AbsoluteDebugDeps, FileVariant::Alternate),
        Candidate::File(SearchDir::ExecutableDir, FileVariant::Primary),
        Candidate::File(SearchDir::ExecutableDir, FileVariant::Alternate),
        Candidate::System,
    ]
}

/// The candidates in order of preference.
pub fn candidates() -> (r: Vec<Candidate>)
    ensures
        r@ == search_order(),
{
    let r = vec![
        Candidate::File(SearchDir::DebugDeps, FileVariant::Primary),
        Candidate::File(SearchDir::DebugDeps, FileVariant::Alternate),
        Candidate::File(SearchDir::ParentDebugDeps, FileVariant::Primary),
        Candidate::File(SearchDir::ParentDebugDeps, FileVariant::Alternate),
        Candidate::File(SearchDir::WorkingDir, FileVariant::Primary),
        Candidate::File(SearchDir::WorkingDir, FileVariant::Alternate),
        Candidate::File(SearchDir::BuildOutput, FileVariant::Primary),
        Candidate::File(SearchDir::BuildOutput, FileVariant::Alternate),
        Candidate::File(SearchDir::ProjectBuildOutput, FileVariant::Primary),
        Candidate::File(SearchDir::ProjectBuildOutput, FileVariant::Alternate),
        Candidate::File(SearchDir::AbsoluteDebugDeps, FileVariant::Primary),
        Candidate::File(SearchDir::AbsoluteDebugDeps, FileVariant::Alternate),
        Candidate::File(SearchDir::ExecutableDir, FileVariant::Primary),
        Candidate::File(SearchDir::ExecutableDir, FileVariant::Alternate),
        Candidate::System,
    ];
    assert(r@ =~= search_order());
    r
}

/// In the order of preference every directory is tried with the usual
/// file name and right after it with the name without the `lib` prefix;
/// the system-wide search comes last.
pub proof fn lemma_alternate_follows_primary()
    ensures
        forall|i: int|
            0 <= i < search_order().len() ==> (#[trigger] search_order()[i] matches Candidate::File(
                d,
                FileVariant::Primary,
            ) ==> i + 1 < search_order().len() && search_order()[i + 1] == Candidate::File(
                d,
                FileVariant::Alternate,
            )),
        search_order().last() == Candidate::System,
{
}

/// Where a search stands: how many candidates it has tried, and which one
/// opened, if any did.
pub struct SearchState {
    pub tried: nat,
    pub opened: Option<nat>,
}

/// The search before any attempt.
pub open spec fn initial_search() -> SearchState {
    SearchState { tried: 0, opened: None }
}

/// The search after the next candidate's attempt: one more tried, and that
/// one opened if the attempt succeeded. A search that has opened a
/// candidate is over.
pub open spec fn after_attempt(s: SearchState, success: bool) -> SearchState {
    if s.opened is Some {
        s
    } else {
        SearchState { tried: s.tried + 1, opened: if success { Some(s.tried) } else { None } }
    }
}

/// The search after the attempts with these outcomes, in order.
pub open spec fn after_attempts(s: SearchState, outcomes: Seq<bool>) -> SearchState
    decreases outcomes.len(),
{
    if outcomes.len() == 0 {
        s
    } else {
        after_attempts(after_attempt(s, outcomes[0]), outcomes.drop_first())
    }
}

/// The index of the first successful outcome, if any.
pub open spec fn first_success(outcomes: Seq<bool>) -> Option<nat>
    decreases outcomes.len(),
{
    if outcomes.len() == 0 {
        None
    } else if outcomes[0] {
        Some(0)
    } else {
        match first_success(outcomes.drop_first()) {
            Some(i) => Some(i + 1),
            None => None,
        }
    }
}

/// What the search asks for next.
#[derive(Debug, Clone, Copy, PartialEq, Eq, Structural)]
pub enum LocateAction {
    /// Try to open this candidate and report the outcome.
    Try(Candidate),
    /// The candidate at this position of the order opened: use it.
    Opened(usize),
    /// Every candidate failed.
    Exhausted,
}

/// The action a search state calls for.
pub open spec fn action_of(s: SearchState) -> LocateAction {
    match s.opened {
        Some(i) => LocateAction::Opened(i as usize),
        None => if s.tried < search_order().len() {
            LocateAction::Try(search_order()[s.tried as int])
        } else {
            LocateAction::Exhausted
        },
    }
}

/// A search for the library over the candidates, in order of preference.
/// The caller performs each attempt and reports its outcome.
pub struct Locator {
    order: Vec<Candidate>,
    tried: usize,
    opened: Option<usize>,
}

impl View for Locator {
    type V = SearchState;

    closed spec fn view(&self) -> SearchState {
        SearchState {
            tried: self.tried as nat,
            opened: match self.opened {
                Some(i) => Some(i as nat),
                None => None,
            },
        }
    }
}

impl Locator {
    /// The locator's fields agree with the order of preference.
    pub closed spec fn wf(&self) -> bool {
        &&& self.order@ == search_order()
        &&& self.tried <= self.order@.len()
        &&& (self.opened matches Some(i) ==> i + 1 == self.tried)
    }

    /// A search that has tried nothing yet.
    pub fn new() -> (r: Locator)
        ensures
            r.wf(),
            r@ == initial_search(),
    {
        Locator { order: candidates(), tried: 0, opened: None }
    }

    /// What to do next.
    pub fn next_action(&self) -> (r: LocateAction)
        requires
            self.wf(),
        ensures
            r == action_of(self@),
    {
        match self.opened {
            Some(i) => LocateAction::Opened(i),
            None => if self.tried < self.order.len() {
                LocateAction::Try(self.order[self.tried])
            } else {
                LocateAction::Exhausted
            },
        }
    }

    /// Reports the outcome of the attempt that `next_action` asked for.
    pub fn report(&mut self, success: bool)
        requires
            old(self).wf(),
            action_of(old(self)@) is Try,
        ensures
            final(self).wf(),
            final(self)@ == after_attempt(old(self)@, success),
    {
        if success {
            self.opened = Some(self.tried);
        }
        self.tried = self.tried + 1;
    }
}

proof fn lemma_after_attempts(t: nat, outcomes: Seq<bool>)
    ensures
        after_attempts(SearchState { tried: t, opened: None }, outcomes) == match first_success(outcomes) {
            Some(i) => SearchState { tried: t + i + 1, opened: Some(t + i) },
            None => SearchState { tried: t + outcomes.len(), opened: None },
        },
    decreases outcomes.len(),
{
    if outcomes.len() > 0 {
        let s = SearchState { tried: t, opened: None };
        if outcomes[0] {
            lemma_finished_search(after_attempt(s, true), outcomes.drop_first());
        } else {
            lemma_after_attempts(t + 1, outcomes.drop_first());
        }
    }
}

proof fn lemma_finished_search(s: SearchState, outcomes: Seq<bool>)
    requires
        s.opened is Some,
    ensures
        after_attempts(s, outcomes) == s,
    decreases outcomes.len(),
{
    if outcomes.len() > 0 {
        lemma_finished_search(s, outcomes.drop_first());
    }
}

/// Whatever the outcomes of the attempts, one per candidate in order of
/// preference, the search opens the first candidate that succeeds, never a
/// later one, and makes no attempt after it; when none succeeds it has
/// tried them all and reports the search exhausted.
pub proof fn lemma_first_success_wins(outcomes: Seq<bool>)
    requires
        outcomes.len() == search_order().len(),
    ensures
        after_attempts(initial_search(), outcomes).opened == first_success(outcomes),
        first_success(outcomes) matches Some(i) ==> {
            &&& outcomes[i as int]
            &&& forall|j: int| 0 <= j < i ==> !outcomes[j]
            &&& after_attempts(initial_search(), outcomes).tried == i + 1
            &&& action_of(after_attempts(initial_search(), outcomes)) == LocateAction::Opened(i as usize)
        },
        first_success(outcomes) is None ==> {
            &&& forall|j: int| 0 <= j < outcomes.len() ==> !outcomes[j]
            &&& action_of(after_attempts(initial_search(), outcomes)) == LocateAction::Exhausted
        },
{
    lemma_after_attempts(0, outcomes);
    lemma_first_success_spec(outcomes);
}

proof fn lemma_first_success_spec(outcomes: Seq<bool>)
    ensures
        first_success(outcomes) matches Some(i) ==> {
            &&& i < outcomes.len()
            &&& outcomes[i as int]
            &&& forall|j: int| 0 <= j < i ==> !outcomes[j]
        },
        first_success(outcomes) is None ==> forall|j: int| 0 <= j < outcomes.len() ==> !outcomes[j],
    decreases outcomes.len(),
{
    if outcomes.len() > 0 {
        let rest = outcomes.drop_first();
        lemma_first_success_spec(rest);
        if !outcomes[0] {
            assert forall|j: int| 1 <= j < outcomes.len() implies outcomes[j] == rest[j - 1] by {}
        }
    }
}

} // verus!
