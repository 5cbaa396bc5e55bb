use vstd::prelude::*;
use crate::error::SyncError;
use crate::event::{EntryRef, Event};
use crate::ids::ObjectId;
use crate::tree::TREE_MODE;

verus! {

/// Whether a module must receive a new commit.
#[derive(Clone, Copy, PartialEq, Eq, Structural, Debug)]
pub enum SubmitDecision {
    /// The central subtree equals the module's current tree: nothing to do.
    Skip,
    /// The module is behind: write and push a commit.
    Update,
}

/// The decision for one module, from the tree of its tracked `master` and the
/// entry at the module's path in the central tree.
pub open spec fn submit_decision(master_tree: ObjectId, found: Option<EntryRef>) -> Result<
    SubmitDecision,
    SyncError,
> {
    match found {
        Some(e) => if e.mode != TREE_MODE {
            Err(SyncError::SubtreeLookupFailure)
        } else if e.id == master_tree {
            Ok(SubmitDecision::Skip)
        } else {
            Ok(SubmitDecision::Update)
        },
        None => Err(SyncError::SubtreeLookupFailure),
    }
}

/// Compares a module's current tree with the central subtree at its path.
pub fn decide_submit(master_tree: ObjectId, found: Option<EntryRef>) -> (r: Result<
    SubmitDecision,
    SyncError,
>)
    ensures
        r == submit_decision(master_tree, found),
{
    match found {
        Some(e) => if e.mode != TREE_MODE {
            Err(SyncError::SubtreeLookupFailure)
        } else if e.id.same(&master_tree) {
            Ok(SubmitDecision::Skip)
        } else {
            Ok(SubmitDecision::Update)
        },
        None => Err(SyncError::SubtreeLookupFailure),
    }
}

/// What the central-submit workflow asks of the store next. Modules are
/// named by their position in the discovered module list.
#[derive(Clone, Copy, PartialEq, Eq, Structural, Debug)]
pub enum SubmitAction {
    /// Fetch and resolve the module's tracked `master`; answer `Resolved`.
    TrackMaster { module: usize },
    /// Read the tree of a commit; answer `Resolved`.
    ReadTree { commit: ObjectId },
    /// Look up the module's path in the central commit's tree; answer `Found`.
    LookupSubtree { module: usize },
    /// Reconstruct `base` with `tree` on the single parent `parent`; answer
    /// `Resolved` with the new commit.
    WriteCommit { base: ObjectId, parent: ObjectId, tree: ObjectId },
    /// Push `commit` as the module's `master`; answer `Pushed`.
    Push { module: usize, commit: ObjectId },
    /// The workflow is complete.
    Finish,
}

/// Which answer the central-submit workflow waits for.
#[derive(Clone, Copy, PartialEq, Eq, Structural, Debug)]
pub enum SubmitPhase {
    AwaitMaster,
    AwaitMasterTree { master: ObjectId },
    AwaitSubtree { master: ObjectId, master_tree: ObjectId },
    AwaitWritten { master: ObjectId },
    AwaitPushed,
    Done,
}

/// The central-submit workflow: for each module in turn, compare its tracked
/// tree with the central subtree and, where they differ, write one commit on
/// its `master` and push it.
pub struct CentralSubmit {
    /// The central commit whose content is submitted.
    pub central: ObjectId,
    /// Number of modules.
    pub modules: usize,
    /// The module being handled.
    pub index: usize,
    pub phase: SubmitPhase,
    /// The pushes requested so far: module and commit.
    pub pushes: Ghost<Seq<(usize, ObjectId)>>,
}

impl CentralSubmit {
    /// A running workflow handles an existing module.
    pub open spec fn wf(&self) -> bool {
        self.phase != SubmitPhase::Done ==> self.index < self.modules
    }

    /// State and action after module `index` is finished.
    pub open spec fn after_module(self) -> (CentralSubmit, SubmitAction) {
        if self.index + 1 < self.modules {
            (
                CentralSubmit { index: (self.index + 1) as usize, phase: SubmitPhase::AwaitMaster, ..self },
                SubmitAction::TrackMaster { module: (self.index + 1) as usize },
            )
        } else {
            (CentralSubmit { phase: SubmitPhase::Done, ..self }, SubmitAction::Finish)
        }
    }

    /// One step: the state after `ev` and the next action, or the error that
    /// ends the workflow.
    pub open spec fn next(self, ev: Event) -> (CentralSubmit, Result<SubmitAction, SyncError>) {
        match (self.phase, ev) {
            (SubmitPhase::AwaitMaster, Event::Resolved(m)) => (
                CentralSubmit { phase: SubmitPhase::AwaitMasterTree { master: m }, ..self },
                Ok(SubmitAction::ReadTree { commit: m }),
            ),
            (SubmitPhase::AwaitMasterTree { master }, Event::Resolved(t)) => (
                CentralSubmit {
                    phase: SubmitPhase::AwaitSubtree { master, master_tree: t },
                    ..self
                },
                Ok(SubmitAction::LookupSubtree { module: self.index }),
            ),
            (SubmitPhase::AwaitSubtree { master, master_tree }, Event::Found(f)) => {
                match submit_decision(master_tree, f) {
                    Err(e) => (CentralSubmit { phase: SubmitPhase::Done, ..self }, Err(e)),
                    Ok(SubmitDecision::Skip) => {
                        let (s, a) = self.after_module();
                        (s, Ok(a))
                    },
                    Ok(SubmitDecision::Update) => (
                        CentralSubmit { phase: SubmitPhase::AwaitWritten { master }, ..self },
                        Ok(
                            SubmitAction::WriteCommit {
                                base: self.central,
                                parent: master,
                                tree: f.unwrap().id,
                            },
                        ),
                    ),
                }
            },
            (SubmitPhase::AwaitWritten { master }, Event::Resolved(c)) => (
                CentralSubmit {
                    phase: SubmitPhase::AwaitPushed,
                    pushes: Ghost(self.pushes@.push((self.index, c))),
                    ..self
                },
                Ok(SubmitAction::Push { module: self.index, commit: c }),
            ),
            (SubmitPhase::AwaitPushed, Event::Pushed) => {
                let (s, a) = self.after_module();
                (s, Ok(a))
            },
            _ => (self, Err(SyncError::UnexpectedEvent)),
        }
    }

    /// The initial state and first action for `central` over `modules`
    /// modules.
    pub open spec fn initial(central: ObjectId, modules: usize) -> (CentralSubmit, SubmitAction) {
        let pushes = Ghost(Seq::<(usize, ObjectId)>::empty());
        if modules == 0 {
            (
                CentralSubmit { central, modules, index: 0, phase: SubmitPhase::Done, pushes },
                SubmitAction::Finish,
            )
        } else {
            (
                CentralSubmit { central, modules, index: 0, phase: SubmitPhase::AwaitMaster, pushes },
                SubmitAction::TrackMaster { module: 0 },
            )
        }
    }

    /// Starts the workflow for `central` over `modules` modules.
    pub fn start(central: ObjectId, modules: usize) -> (r: (CentralSubmit, SubmitAction))
        ensures
            r.0.wf(),
            r == CentralSubmit::initial(central, modules),
    {
        let pushes: Ghost<Seq<(usize, ObjectId)>> = Ghost(Seq::empty());
        if modules == 0 {
            (
                CentralSubmit { central, modules, index: 0, phase: SubmitPhase::Done, pushes },
                SubmitAction::Finish,
            )
        } else {
            (
                CentralSubmit { central, modules, index: 0, phase: SubmitPhase::AwaitMaster, pushes },
                SubmitAction::TrackMaster { module: 0 },
            )
        }
    }

    fn finish_module(&mut self) -> (r: SubmitAction)
        requires
            old(self).wf(),
            old(self).phase != SubmitPhase::Done,
        ensures
            (*final(self), r) == old(self).after_module(),
            final(self).wf(),
    {
        if self.index + 1 < self.modules {
            self.index = self.index + 1;
            self.phase = SubmitPhase::AwaitMaster;
            SubmitAction::TrackMaster { module: self.index }
        } else {
            self.phase = SubmitPhase::Done;
            SubmitAction::Finish
        }
    }

    /// Takes the store's answer to the last action and returns the next one.
    pub fn step(&mut self, ev: Event) -> (r: Result<SubmitAction, SyncError>)
        requires
            old(self).wf(),
        ensures
            final(self).wf(),
            (*final(self), r) == old(self).next(ev),
    {
        match (self.phase, ev) {
            (SubmitPhase::AwaitMaster, Event::Resolved(m)) => {
                self.phase = SubmitPhase::AwaitMasterTree { master: m };
                Ok(SubmitAction::ReadTree { commit: m })
            },
            (SubmitPhase::AwaitMasterTree { master }, Event::Resolved(t)) => {
                self.phase = SubmitPhase::AwaitSubtree { master, master_tree: t };
                Ok(SubmitAction::LookupSubtree { module: self.index })
            },
            (SubmitPhase::AwaitSubtree { master, master_tree }, Event::Found(f)) => {
                match decide_submit(master_tree, f) {
                    Err(e) => {
                        self.phase = SubmitPhase::Done;
                        Err(e)
                    },
                    Ok(SubmitDecision::Skip) => Ok(self.finish_module()),
                    Ok(SubmitDecision::Update) => {
                        self.phase = SubmitPhase::AwaitWritten { master };
                        let tree = match f {
                            Some(e) => e.id,
                            None => master_tree,
                        };
                        Ok(SubmitAction::WriteCommit { base: self.central, parent: master, tree })
                    },
                }
            },
            (SubmitPhase::AwaitWritten { master }, Event::Resolved(c)) => {
                self.phase = SubmitPhase::AwaitPushed;
                self.pushes = Ghost(self.pushes@.push((self.index, c)));
                Ok(SubmitAction::Push { module: self.index, commit: c })
            },
            (SubmitPhase::AwaitPushed, Event::Pushed) => Ok(self.finish_module()),
            _ => Err(SyncError::UnexpectedEvent),
        }
    }
}

/// A module whose central subtree equals the tree of its tracked `master` is
/// passed over: no commit is written and nothing is pushed for it; the
/// workflow moves on to the next module or finishes.
pub proof fn lemma_unchanged_module_is_skipped(s: CentralSubmit, master: ObjectId, tree: ObjectId)
    requires
        s.wf(),
        s.phase == (SubmitPhase::AwaitSubtree { master, master_tree: tree }),
    ensures
        ({
            let (t, r) = s.next(Event::Found(Some(EntryRef { id: tree, mode: TREE_MODE })));
            &&& t.pushes == s.pushes
            &&& r == Ok::<SubmitAction, SyncError>(
                SubmitAction::TrackMaster { module: (s.index + 1) as usize },
            ) || r == Ok::<SubmitAction, SyncError>(SubmitAction::Finish)
        }),
{
}

/// The store's answer to `a` when nothing changed centrally: module `i`'s
/// `master` is `master_of(i)`, a commit `c` has the tree `tree_of(c)`, and the
/// central subtree at each module's path is the tree of that module's
/// `master`.
pub open spec fn unchanged_answer(
    a: SubmitAction,
    master_of: spec_fn(usize) -> ObjectId,
    tree_of: spec_fn(ObjectId) -> ObjectId,
) -> Event {
    match a {
        SubmitAction::TrackMaster { module } => Event::Resolved(master_of(module)),
        SubmitAction::ReadTree { commit } => Event::Resolved(tree_of(commit)),
        SubmitAction::LookupSubtree { module } => Event::Found(
            Some(EntryRef { id: tree_of(master_of(module)), mode: TREE_MODE }),
        ),
        _ => Event::Pushed,
    }
}

/// Up to `n` steps of the workflow from `s` with next action `a`, each
/// answered by `unchanged_answer`; stops at `Finish` or at an error.
pub open spec fn run_unchanged(
    s: CentralSubmit,
    a: SubmitAction,
    n: nat,
    master_of: spec_fn(usize) -> ObjectId,
    tree_of: spec_fn(ObjectId) -> ObjectId,
) -> (CentralSubmit, Result<SubmitAction, SyncError>)
    decreases n,
{
    if n == 0 || a == SubmitAction::Finish {
        (s, Ok(a))
    } else {
        let (t, r) = s.next(unchanged_answer(a, master_of, tree_of));
        match r {
            Ok(b) => run_unchanged(t, b, (n - 1) as nat, master_of, tree_of),
            Err(e) => (t, Err(e)),
        }
    }
}

/// A run state in which nothing has been pushed and `a` asks only for reads.
pub open spec fn quiet(
    s: CentralSubmit,
    a: SubmitAction,
    master_of: spec_fn(usize) -> ObjectId,
    tree_of: spec_fn(ObjectId) -> ObjectId,
) -> bool {
    &&& s.wf()
    &&& s.pushes@ == Seq::<(usize, ObjectId)>::empty()
    &&& match s.phase {
        SubmitPhase::AwaitMaster => a == SubmitAction::TrackMaster { module: s.index },
        SubmitPhase::AwaitMasterTree { master } => master == master_of(s.index) && a
            == SubmitAction::ReadTree { commit: master },
        SubmitPhase::AwaitSubtree { master, master_tree } => master == master_of(s.index)
            && master_tree == tree_of(master) && a == SubmitAction::LookupSubtree {
            module: s.index,
        },
        SubmitPhase::Done => a == SubmitAction::Finish,
        _ => false,
    }
}

proof fn lemma_quiet_run(
    s: CentralSubmit,
    a: SubmitAction,
    n: nat,
    master_of: spec_fn(usize) -> ObjectId,
    tree_of: spec_fn(ObjectId) -> ObjectId,
)
    requires
        quiet(s, a, master_of, tree_of),
    ensures
        run_unchanged(s, a, n, master_of, tree_of).1 is Ok,
        quiet(
            run_unchanged(s, a, n, master_of, tree_of).0,
            run_unchanged(s, a, n, master_of, tree_of).1->Ok_0,
            master_of,
            tree_of,
        ),
    decreases n,
{
    if n == 0 || a == SubmitAction::Finish {
    } else {
        let (t, r) = s.next(unchanged_answer(a, master_of, tree_of));
        assert(r is Ok);
        assert(quiet(t, r->Ok_0, master_of, tree_of));
        lemma_quiet_run(t, r->Ok_0, (n - 1) as nat, master_of, tree_of);
    }
}

/// Submitting a central revision whose module subtrees all equal the trees
/// of the modules' current `master`s, as after a previous submit with no
/// central change in between, writes no commit and pushes nothing: however
/// many steps are taken, no push has been requested, no error arises, and
/// the next action is never a commit write or a push.
pub proof fn lemma_resubmission_is_noop(
    central: ObjectId,
    modules: usize,
    n: nat,
    master_of: spec_fn(usize) -> ObjectId,
    tree_of: spec_fn(ObjectId) -> ObjectId,
)
    ensures
        ({
            let (s0, a0) = CentralSubmit::initial(central, modules);
            let (t, r) = run_unchanged(s0, a0, n, master_of, tree_of);
            &&& t.pushes@ == Seq::<(usize, ObjectId)>::empty()
            &&& r is Ok
            &&& !(r->Ok_0 is Push)
            &&& !(r->Ok_0 is WriteCommit)
        }),
{
    let (s0, a0) = CentralSubmit::initial(central, modules);
    assert(quiet(s0, a0, master_of, tree_of));
    lemma_quiet_run(s0, a0, n, master_of, tree_of);
}

} // verus!
