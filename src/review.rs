use vstd::prelude::*;
use crate::error::SyncError;
use crate::event::Event;
use crate::ids::ObjectId;
use crate::paths::ModulePath;
use crate::rewire::{graft_group, graft_root, subtree_id, subtree_of};
use crate::tree::{entries_view, tree_entry, with_entry, TreeEntry};

verus! {

/// How a review upload ended.
#[derive(Clone, Copy, PartialEq, Eq, Structural, Debug)]
pub enum ReviewOutcome {
    /// The rewritten chain was pushed to the central review ref.
    Uploaded,
    /// The module revision does not descend from the module's `master`:
    /// nothing was pushed; rebase and try again.
    NeedsRebase,
}

/// What the review-upload workflow asks of the store next.
pub enum ReviewAction {
    /// Bring the module revision into the scratch store; answer `Resolved`.
    TransferNew,
    /// Fetch and resolve the module's tracked `master`; answer `Resolved`.
    TrackModuleMaster,
    /// Ask whether `new` descends from `old`; answer `Ancestry`.
    CheckAncestry { new: ObjectId, old: ObjectId },
    /// List the commits of `old..new`, oldest first; answer `Range`.
    ListRange { old: ObjectId, new: ObjectId },
    /// Fetch and resolve the central `master`; answer `Resolved`.
    TrackCentralMaster,
    /// Read the tree id of a commit; answer `Resolved`.
    ReadCommitTree { commit: ObjectId },
    /// List the root tree of a commit; answer `Listing`.
    ReadCommitListing { commit: ObjectId },
    /// List a tree; answer `Listing`.
    ReadTreeListing { tree: ObjectId },
    /// Write a tree with these entries; answer `Resolved` with its id.
    WriteTree { entries: Vec<TreeEntry> },
    /// Reconstruct `base` onto `tree` with the single parent `parent`; answer
    /// `Resolved` with the new commit.
    WriteCommit { base: ObjectId, parent: ObjectId, tree: ObjectId },
    /// Push `commit` to the central review ref; answer `Pushed`.
    PushReview { commit: ObjectId },
    /// The workflow is complete.
    Finish(ReviewOutcome),
}

/// Which answer the review-upload workflow waits for.
pub enum ReviewPhase {
    AwaitNew,
    AwaitOld { new: ObjectId },
    AwaitAncestry { new: ObjectId, old: ObjectId },
    AwaitRange { old: ObjectId },
    AwaitCentral,
    AwaitModuleTree,
    AwaitRoot { module_tree: ObjectId },
    AwaitGroup { module_tree: ObjectId, root: Vec<TreeEntry> },
    AwaitGroupWritten { root: Vec<TreeEntry> },
    AwaitRootWritten,
    AwaitCommitWritten,
    AwaitPushed,
    Done,
}

/// One rewritten commit: the module commit it comes from, the parent it was
/// written on, and the commit written.
pub ghost struct RewriteLink {
    pub base: ObjectId,
    pub parent: ObjectId,
    pub result: ObjectId,
}

/// `s` without the occurrences of `x`, order kept.
pub open spec fn without(s: Seq<ObjectId>, x: ObjectId) -> Seq<ObjectId>
    decreases s.len(),
{
    if s.len() == 0 {
        s
    } else if s.last() == x {
        without(s.drop_last(), x)
    } else {
        without(s.drop_last(), x).push(s.last())
    }
}

/// The commits of a walk other than `old`, in walk order.
pub fn drop_id(walk: &Vec<ObjectId>, old: ObjectId) -> (r: Vec<ObjectId>)
    ensures
        r@ == without(walk@, old),
{
    let mut r: Vec<ObjectId> = Vec::new();
    let mut i: usize = 0;
    while i < walk.len()
        invariant
            i <= walk@.len(),
            r@ == without(walk@.subrange(0, i as int), old),
        decreases walk@.len() - i,
    {
        assert(walk@.subrange(0, i + 1).drop_last() =~= walk@.subrange(0, i as int));
        if !walk[i].same(&old) {
            r.push(walk[i]);
        }
        i = i + 1;
    }
    assert(walk@.subrange(0, walk@.len() as int) =~= walk@);
    r
}

/// The review-upload workflow: project the module commits in `(old, new]`
/// one by one onto the central `master`, grafting each commit's tree at the
/// module's path, and push the last one for review.
pub struct ReviewUpload {
    pub module: ModulePath,
    /// The module commits to rewrite, oldest first.
    pub commits: Vec<ObjectId>,
    /// The commit being rewritten.
    pub index: usize,
    /// The central `master` the chain starts on.
    pub central: ObjectId,
    /// The running parent: the last commit written, or the central `master`.
    pub parent: ObjectId,
    pub phase: ReviewPhase,
    /// The commits written so far.
    pub links: Ghost<Seq<RewriteLink>>,
}

impl ReviewPhase {
    /// The range and the central `master` are not known yet.
    pub open spec fn before_chain(&self) -> bool {
        ||| self is AwaitNew
        ||| self is AwaitOld
        ||| self is AwaitAncestry
        ||| self is AwaitRange
        ||| self is AwaitCentral
    }

    /// A module commit is being rewritten.
    pub open spec fn rewriting(&self) -> bool {
        ||| self is AwaitModuleTree
        ||| self is AwaitRoot
        ||| self is AwaitGroup
        ||| self is AwaitGroupWritten
        ||| self is AwaitRootWritten
        ||| self is AwaitCommitWritten
    }
}

impl ReviewUpload {
    /// The written chain starts on the central `master`, rewrites the module
    /// commits in order, each on the commit written before it, and ends at
    /// the running parent.
    pub open spec fn chain_ok(&self) -> bool {
        let l = self.links@;
        &&& self.index <= self.commits@.len()
        &&& l.len() == self.index
        &&& forall|i: int| 0 <= i < l.len() ==> (#[trigger] l[i]).base == self.commits@[i]
        &&& l.len() > 0 ==> l[0].parent == self.central
        &&& forall|i: int| 0 < i < l.len() ==> (#[trigger] l[i]).parent == l[i - 1].result
        &&& self.parent == (if l.len() == 0 {
            self.central
        } else {
            l.last().result
        })
    }

    /// The chain invariant, with the position that each phase implies.
    pub open spec fn wf(&self) -> bool {
        &&& self.chain_ok()
        &&& self.phase.rewriting() ==> self.index < self.commits@.len()
        &&& self.phase is AwaitPushed ==> self.index == self.commits@.len()
        &&& self.phase.before_chain() ==> self.index == 0
    }

    /// One step: what holds of the state after `ev` and of the next action.
    pub open spec fn transition(
        self,
        ev: Event,
        s: ReviewUpload,
        r: Result<ReviewAction, SyncError>,
    ) -> bool {
        let kept = s.module == self.module && s.commits == self.commits && s.index == self.index
            && s.central == self.central && s.parent == self.parent && s.links == self.links;
        match (self.phase, ev) {
            (ReviewPhase::AwaitNew, Event::Resolved(n)) => kept && s.phase == (
            ReviewPhase::AwaitOld { new: n }) && r == Ok::<ReviewAction, SyncError>(
                ReviewAction::TrackModuleMaster,
            ),
            (ReviewPhase::AwaitOld { new }, Event::Resolved(o)) => kept && s.phase == (
            ReviewPhase::AwaitAncestry { new, old: o }) && r == Ok::<ReviewAction, SyncError>(
                ReviewAction::CheckAncestry { new, old: o },
            ),
            (ReviewPhase::AwaitAncestry { new, old }, Event::Ancestry(d)) => kept && if d {
                s.phase == (ReviewPhase::AwaitRange { old }) && r == Ok::<ReviewAction, SyncError>(
                    ReviewAction::ListRange { old, new },
                )
            } else {
                s.phase is Done && r == Ok::<ReviewAction, SyncError>(
                    ReviewAction::Finish(ReviewOutcome::NeedsRebase),
                )
            },
            (ReviewPhase::AwaitRange { old }, Event::Range(walk)) => s.module == self.module
                && s.index == self.index && s.central == self.central && s.parent == self.parent
                && s.links == self.links && s.commits@ == without(walk@, old) && s.phase
                is AwaitCentral && r == Ok::<ReviewAction, SyncError>(
                ReviewAction::TrackCentralMaster,
            ),
            (ReviewPhase::AwaitCentral, Event::Resolved(c)) => s.module == self.module
                && s.commits == self.commits && s.index == self.index && s.links == self.links
                && s.central == c && s.parent == c && if self.index < self.commits@.len() {
                s.phase is AwaitModuleTree && r == Ok::<ReviewAction, SyncError>(
                    ReviewAction::ReadCommitTree { commit: self.commits@[self.index as int] },
                )
            } else {
                s.phase is AwaitPushed && r == Ok::<ReviewAction, SyncError>(
                    ReviewAction::PushReview { commit: c },
                )
            },
            (ReviewPhase::AwaitModuleTree, Event::Resolved(t)) => kept && s.phase == (
            ReviewPhase::AwaitRoot { module_tree: t }) && r == Ok::<ReviewAction, SyncError>(
                ReviewAction::ReadCommitListing { commit: self.parent },
            ),
            (ReviewPhase::AwaitRoot { module_tree }, Event::Listing(root)) => kept && match subtree_of(
                entries_view(root@),
                self.module.group@,
            ) {
                Some(g) => s.phase == (ReviewPhase::AwaitGroup { module_tree, root })
                    && r == Ok::<ReviewAction, SyncError>(ReviewAction::ReadTreeListing { tree: g }),
                None => s.phase == (ReviewPhase::AwaitGroupWritten { root }) && (
                r matches Ok(ReviewAction::WriteTree { entries }) && entries_view(entries@)
                    == with_entry(Seq::empty(), tree_entry(self.module.name@, module_tree))),
            },
            (ReviewPhase::AwaitGroup { module_tree, root }, Event::Listing(g)) => kept && s.phase
                == (ReviewPhase::AwaitGroupWritten { root }) && (r matches Ok(
                ReviewAction::WriteTree { entries },
            ) && entries_view(entries@) == with_entry(
                entries_view(g@),
                tree_entry(self.module.name@, module_tree),
            )),
            (ReviewPhase::AwaitGroupWritten { root }, Event::Resolved(g)) => kept && s.phase
                is AwaitRootWritten && (r matches Ok(ReviewAction::WriteTree { entries })
                && entries_view(entries@) == with_entry(
                entries_view(root@),
                tree_entry(self.module.group@, g),
            )),
            (ReviewPhase::AwaitRootWritten, Event::Resolved(t)) => kept && s.phase
                is AwaitCommitWritten && r == Ok::<ReviewAction, SyncError>(
                ReviewAction::WriteCommit {
                    base: self.commits@[self.index as int],
                    parent: self.parent,
                    tree: t,
                },
            ),
            (ReviewPhase::AwaitCommitWritten, Event::Resolved(c)) => s.module == self.module
                && s.commits == self.commits && s.central == self.central && s.index == self.index
                + 1 && s.parent == c && s.links@ == self.links@.push(
                RewriteLink { base: self.commits@[self.index as int], parent: self.parent, result: c },
            ) && if s.index < self.commits@.len() {
                s.phase is AwaitModuleTree && r == Ok::<ReviewAction, SyncError>(
                    ReviewAction::ReadCommitTree { commit: self.commits@[s.index as int] },
                )
            } else {
                s.phase is AwaitPushed && r == Ok::<ReviewAction, SyncError>(
                    ReviewAction::PushReview { commit: c },
                )
            },
            (ReviewPhase::AwaitPushed, Event::Pushed) => kept && s.phase is Done && r == Ok::<
                ReviewAction,
                SyncError,
            >(ReviewAction::Finish(ReviewOutcome::Uploaded)),
            _ => kept && s.phase is Done && r == Err::<ReviewAction, SyncError>(
                SyncError::UnexpectedEvent,
            ),
        }
    }

    /// Starts a review upload of the module at `module`.
    pub fn start(module: ModulePath) -> (r: (ReviewUpload, ReviewAction))
        ensures
            r.0.wf(),
            r.0.module == module,
            r.0.phase is AwaitNew,
            r.0.links@ == Seq::<RewriteLink>::empty(),
            r.1 is TransferNew,
    {
        let zero = ObjectId { hi: 0, mid: 0, lo: 0 };
        (
            ReviewUpload {
                module,
                commits: Vec::new(),
                index: 0,
                central: zero,
                parent: zero,
                phase: ReviewPhase::AwaitNew,
                links: Ghost(Seq::empty()),
            },
            ReviewAction::TransferNew,
        )
    }

    /// Takes the store's answer to the last action and returns the next one.
    pub fn step(&mut self, ev: Event) -> (r: Result<ReviewAction, SyncError>)
        requires
            old(self).wf(),
        ensures
            final(self).wf(),
            old(self).transition(ev, *final(self), r),
    {
        let mut phase = ReviewPhase::Done;
        std::mem::swap(&mut self.phase, &mut phase);
        match (phase, ev) {
            (ReviewPhase::AwaitNew, Event::Resolved(n)) => {
                self.phase = ReviewPhase::AwaitOld { new: n };
                Ok(ReviewAction::TrackModuleMaster)
            },
            (ReviewPhase::AwaitOld { new }, Event::Resolved(o)) => {
                self.phase = ReviewPhase::AwaitAncestry { new, old: o };
                Ok(ReviewAction::CheckAncestry { new, old: o })
            },
            (ReviewPhase::AwaitAncestry { new, old }, Event::Ancestry(d)) => {
                if d {
                    self.phase = ReviewPhase::AwaitRange { old };
                    Ok(ReviewAction::ListRange { old, new })
                } else {
                    Ok(ReviewAction::Finish(ReviewOutcome::NeedsRebase))
                }
            },
            (ReviewPhase::AwaitRange { old }, Event::Range(walk)) => {
                self.commits = drop_id(&walk, old);
                self.phase = ReviewPhase::AwaitCentral;
                Ok(ReviewAction::TrackCentralMaster)
            },
            (ReviewPhase::AwaitCentral, Event::Resolved(c)) => {
                self.central = c;
                self.parent = c;
                if self.index < self.commits.len() {
                    self.phase = ReviewPhase::AwaitModuleTree;
                    Ok(ReviewAction::ReadCommitTree { commit: self.commits[self.index] })
                } else {
                    self.phase = ReviewPhase::AwaitPushed;
                    Ok(ReviewAction::PushReview { commit: c })
                }
            },
            (ReviewPhase::AwaitModuleTree, Event::Resolved(t)) => {
                self.phase = ReviewPhase::AwaitRoot { module_tree: t };
                Ok(ReviewAction::ReadCommitListing { commit: self.parent })
            },
            (ReviewPhase::AwaitRoot { module_tree }, Event::Listing(root)) => {
                match subtree_id(&root, &self.module.group) {
                    Some(g) => {
                        self.phase = ReviewPhase::AwaitGroup { module_tree, root };
                        Ok(ReviewAction::ReadTreeListing { tree: g })
                    },
                    None => {
                        let entries = graft_group(None, &self.module, module_tree);
                        self.phase = ReviewPhase::AwaitGroupWritten { root };
                        Ok(ReviewAction::WriteTree { entries })
                    },
                }
            },
            (ReviewPhase::AwaitGroup { module_tree, root }, Event::Listing(g)) => {
                let entries = graft_group(Some(&g), &self.module, module_tree);
                self.phase = ReviewPhase::AwaitGroupWritten { root };
                Ok(ReviewAction::WriteTree { entries })
            },
            (ReviewPhase::AwaitGroupWritten { root }, Event::Resolved(g)) => {
                let entries = graft_root(&root, &self.module, g);
                self.phase = ReviewPhase::AwaitRootWritten;
                Ok(ReviewAction::WriteTree { entries })
            },
            (ReviewPhase::AwaitRootWritten, Event::Resolved(t)) => {
                self.phase = ReviewPhase::AwaitCommitWritten;
                Ok(
                    ReviewAction::WriteCommit {
                        base: self.commits[self.index],
                        parent: self.parent,
                        tree: t,
                    },
                )
            },
            (ReviewPhase::AwaitCommitWritten, Event::Resolved(c)) => {
                let n = self.commits.len();
                assert(self.index < n);
                let ghost link = RewriteLink {
                    base: self.commits@[self.index as int],
                    parent: self.parent,
                    result: c,
                };
                self.links = Ghost(self.links@.push(link));
                self.index = self.index + 1;
                self.parent = c;
                if self.index < self.commits.len() {
                    self.phase = ReviewPhase::AwaitModuleTree;
                    Ok(ReviewAction::ReadCommitTree { commit: self.commits[self.index] })
                } else {
                    self.phase = ReviewPhase::AwaitPushed;
                    Ok(ReviewAction::PushReview { commit: c })
                }
            },
            (ReviewPhase::AwaitPushed, Event::Pushed) => Ok(
                ReviewAction::Finish(ReviewOutcome::Uploaded),
            ),
            _ => Err(SyncError::UnexpectedEvent),
        }
    }
}

/// A module revision that does not descend from the module's `master` ends
/// the upload with `NeedsRebase`, a result and not an error: no commit has
/// been written and nothing is pushed.
pub proof fn lemma_ancestry_gate(
    s: ReviewUpload,
    new: ObjectId,
    old: ObjectId,
    t: ReviewUpload,
    r: Result<ReviewAction, SyncError>,
)
    requires
        s.wf(),
        s.phase == (ReviewPhase::AwaitAncestry { new, old }),
        s.transition(Event::Ancestry(false), t, r),
    ensures
        r == Ok::<ReviewAction, SyncError>(ReviewAction::Finish(ReviewOutcome::NeedsRebase)),
        t.phase is Done,
        t.links@.len() == 0,
{
}

/// A finished upload refuses every further event and asks for nothing more:
/// no push can follow.
pub proof fn lemma_done_is_final(
    s: ReviewUpload,
    ev: Event,
    t: ReviewUpload,
    r: Result<ReviewAction, SyncError>,
)
    requires
        s.phase is Done,
        s.transition(ev, t, r),
    ensures
        r is Err,
        t.phase is Done,
        t.links == s.links,
{
}

/// When the chain is pushed for review it holds one rewritten commit per
/// module commit of the range, in the range's order; the first is written on
/// the central `master`, each later one on the commit written before it, and
/// the commit pushed is the last one written.
pub proof fn lemma_chain_order(
    s: ReviewUpload,
    ev: Event,
    t: ReviewUpload,
    commit: ObjectId,
)
    requires
        s.wf(),
        t.wf(),
        s.transition(ev, t, Ok(ReviewAction::PushReview { commit })),
    ensures
        t.phase is AwaitPushed,
        t.links@.len() == t.commits@.len(),
        forall|i: int| 0 <= i < t.links@.len() ==> (#[trigger] t.links@[i]).base == t.commits@[i],
        t.links@.len() > 0 ==> t.links@[0].parent == t.central,
        forall|i: int|
            0 < i < t.links@.len() ==> (#[trigger] t.links@[i]).parent == t.links@[i - 1].result,
        commit == (if t.links@.len() == 0 {
            t.central
        } else {
            t.links@.last().result
        }),
{
}

} // verus!
