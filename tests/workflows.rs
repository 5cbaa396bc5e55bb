use modsync::commit::{rewrite, CommitMeta, Person};
use modsync::error::SyncError;
use modsync::event::{EntryRef, Event};
use modsync::ids::ObjectId;
use modsync::paths::ModulePath;
use modsync::review::{drop_id, ReviewAction, ReviewOutcome, ReviewUpload};
use modsync::submit::{decide_submit, CentralSubmit, SubmitAction, SubmitDecision};
use modsync::tree::{TreeEntry, TREE_MODE};

fn oid(n: u32) -> ObjectId {
    ObjectId { hi: 0, mid: 0, lo: n }
}

fn person(name: &str) -> Person {
    Person { name: name.to_string(), email: format!("{}@example.org", name), seconds: 1000, offset_minutes: 60 }
}

fn tree_ref(n: u32) -> Option<EntryRef> {
    Some(EntryRef { id: oid(n), mode: TREE_MODE })
}

#[test]
fn rewrite_keeps_metadata() {
    let meta = CommitMeta { author: person("ann"), committer: person("bob"), message: Some("fix".to_string()) };
    let r = rewrite(&meta, vec![oid(1), oid(2)], oid(3));
    assert_eq!(r.author.name, "ann");
    assert_eq!(r.author.email, "ann@example.org");
    assert_eq!(r.committer.name, "bob");
    assert_eq!(r.committer.seconds, 1000);
    assert_eq!(r.committer.offset_minutes, 60);
    assert_eq!(r.message, "fix");
    assert_eq!(r.parents, vec![oid(1), oid(2)]);
    assert_eq!(r.tree, oid(3));
    assert_eq!(r.anchor, Some(oid(1)));
}

#[test]
fn rewrite_defaults_message_and_has_no_anchor_without_parents() {
    let meta = CommitMeta { author: person("ann"), committer: person("ann"), message: None };
    let r = rewrite(&meta, vec![], oid(3));
    assert_eq!(r.message, "no message");
    assert_eq!(r.anchor, None);
}

#[test]
fn submit_decision_compares_trees() {
    assert_eq!(decide_submit(oid(1), tree_ref(1)), Ok(SubmitDecision::Skip));
    assert_eq!(decide_submit(oid(1), tree_ref(2)), Ok(SubmitDecision::Update));
    assert_eq!(decide_submit(oid(1), None), Err(SyncError::SubtreeLookupFailure));
    let blob = Some(EntryRef { id: oid(1), mode: 0o100644 });
    assert_eq!(decide_submit(oid(1), blob), Err(SyncError::SubtreeLookupFailure));
}

// foo's central subtree changed (tree 12 vs 11), bar's did not (21).
#[test]
fn central_submit_updates_only_changed_modules() {
    let central = oid(100);
    let (mut s, a) = CentralSubmit::start(central, 2);
    assert_eq!(a, SubmitAction::TrackMaster { module: 0 });
    assert_eq!(s.step(Event::Resolved(oid(10))), Ok(SubmitAction::ReadTree { commit: oid(10) }));
    assert_eq!(s.step(Event::Resolved(oid(11))), Ok(SubmitAction::LookupSubtree { module: 0 }));
    assert_eq!(
        s.step(Event::Found(tree_ref(12))),
        Ok(SubmitAction::WriteCommit { base: central, parent: oid(10), tree: oid(12) })
    );
    assert_eq!(s.step(Event::Resolved(oid(13))), Ok(SubmitAction::Push { module: 0, commit: oid(13) }));
    assert_eq!(s.step(Event::Pushed), Ok(SubmitAction::TrackMaster { module: 1 }));
    assert_eq!(s.step(Event::Resolved(oid(20))), Ok(SubmitAction::ReadTree { commit: oid(20) }));
    assert_eq!(s.step(Event::Resolved(oid(21))), Ok(SubmitAction::LookupSubtree { module: 1 }));
    assert_eq!(s.step(Event::Found(tree_ref(21))), Ok(SubmitAction::Finish));
}

#[test]
fn resubmission_pushes_nothing() {
    let (mut s, _) = CentralSubmit::start(oid(100), 2);
    for (master, tree) in [(10, 11), (20, 21)] {
        s.step(Event::Resolved(oid(master))).unwrap();
        s.step(Event::Resolved(oid(tree))).unwrap();
        let a = s.step(Event::Found(tree_ref(tree))).unwrap();
        assert!(!matches!(a, SubmitAction::Push { .. } | SubmitAction::WriteCommit { .. }));
    }
}

#[test]
fn central_submit_without_modules_finishes() {
    let (_, a) = CentralSubmit::start(oid(1), 0);
    assert_eq!(a, SubmitAction::Finish);
}

#[test]
fn central_submit_missing_subtree_fails() {
    let (mut s, _) = CentralSubmit::start(oid(1), 1);
    s.step(Event::Resolved(oid(2))).unwrap();
    s.step(Event::Resolved(oid(3))).unwrap();
    assert_eq!(s.step(Event::Found(None)), Err(SyncError::SubtreeLookupFailure));
}

#[test]
fn central_submit_refuses_wrong_event() {
    let (mut s, _) = CentralSubmit::start(oid(1), 1);
    assert_eq!(s.step(Event::Pushed), Err(SyncError::UnexpectedEvent));
}

fn module() -> ModulePath {
    ModulePath { group: "modules".to_string(), name: "foo".to_string() }
}

fn begin(descends: bool) -> (ReviewUpload, Result<ReviewAction, SyncError>) {
    let (mut s, a) = ReviewUpload::start(module());
    assert!(matches!(a, ReviewAction::TransferNew));
    assert!(matches!(s.step(Event::Resolved(oid(5))), Ok(ReviewAction::TrackModuleMaster)));
    let a = s.step(Event::Resolved(oid(1))).unwrap();
    assert!(matches!(a, ReviewAction::CheckAncestry { new, old } if new == oid(5) && old == oid(1)));
    let r = s.step(Event::Ancestry(descends));
    (s, r)
}

#[test]
fn review_upload_needs_rebase_when_not_descendant() {
    let (mut s, r) = begin(false);
    assert!(matches!(r, Ok(ReviewAction::Finish(ReviewOutcome::NeedsRebase))));
    assert!(matches!(s.step(Event::Pushed), Err(SyncError::UnexpectedEvent)));
}

fn entry(name: &str, id: u32, mode: u32) -> TreeEntry {
    TreeEntry { name: name.to_string(), id: oid(id), mode }
}

fn written(a: ReviewAction) -> Vec<(String, ObjectId, u32)> {
    match a {
        ReviewAction::WriteTree { entries } => entries.iter().map(|e| (e.name.clone(), e.id, e.mode)).collect(),
        _ => panic!("expected a tree write"),
    }
}

#[test]
fn review_upload_rewrites_range_in_order() {
    let (mut s, r) = begin(true);
    assert!(matches!(r, Ok(ReviewAction::ListRange { old, new }) if old == oid(1) && new == oid(5)));
    // walk of old..new, oldest first: c1=3, c2=4, c3=5
    let a = s.step(Event::Range(vec![oid(3), oid(4), oid(5)])).unwrap();
    assert!(matches!(a, ReviewAction::TrackCentralMaster));
    let mut parent = oid(50);
    let mut a = s.step(Event::Resolved(parent)).unwrap();
    let mut rewritten = Vec::new();
    for (k, c) in [3u32, 4, 5].iter().enumerate() {
        let k = k as u32;
        assert!(matches!(a, ReviewAction::ReadCommitTree { commit } if commit == oid(*c)));
        let t = s.step(Event::Resolved(oid(60 + k))).unwrap();
        assert!(matches!(t, ReviewAction::ReadCommitListing { commit } if commit == parent));
        let root = vec![entry("README", 7, 0o100644), entry("modules", 70 + k, TREE_MODE)];
        let t = s.step(Event::Listing(root)).unwrap();
        assert!(matches!(t, ReviewAction::ReadTreeListing { tree } if tree == oid(70 + k)));
        let group = vec![entry("bar", 8, TREE_MODE), entry("foo", 9, TREE_MODE)];
        let g = written(s.step(Event::Listing(group)).unwrap());
        assert_eq!(
            g,
            vec![("bar".to_string(), oid(8), TREE_MODE), ("foo".to_string(), oid(60 + k), TREE_MODE)]
        );
        let rt = written(s.step(Event::Resolved(oid(80 + k))).unwrap());
        assert_eq!(
            rt,
            vec![("README".to_string(), oid(7), 0o100644), ("modules".to_string(), oid(80 + k), TREE_MODE)]
        );
        let w = s.step(Event::Resolved(oid(90 + k))).unwrap();
        assert!(matches!(w, ReviewAction::WriteCommit { base, parent: p, tree }
            if base == oid(*c) && p == parent && tree == oid(90 + k)));
        parent = oid(200 + k);
        rewritten.push(parent);
        a = s.step(Event::Resolved(parent)).unwrap();
    }
    assert_eq!(rewritten.len(), 3);
    assert!(matches!(a, ReviewAction::PushReview { commit } if commit == oid(202)));
    assert!(matches!(s.step(Event::Pushed), Ok(ReviewAction::Finish(ReviewOutcome::Uploaded))));
}

#[test]
fn review_upload_grafts_into_missing_group() {
    let (mut s, _) = begin(true);
    s.step(Event::Range(vec![oid(5)])).unwrap();
    s.step(Event::Resolved(oid(50))).unwrap();
    s.step(Event::Resolved(oid(60))).unwrap();
    let g = written(s.step(Event::Listing(vec![entry("README", 7, 0o100644)])).unwrap());
    assert_eq!(g, vec![("foo".to_string(), oid(60), TREE_MODE)]);
}

#[test]
fn review_upload_with_empty_range_pushes_central_master() {
    let (mut s, _) = begin(true);
    s.step(Event::Range(vec![oid(1)])).unwrap();
    let a = s.step(Event::Resolved(oid(50))).unwrap();
    assert!(matches!(a, ReviewAction::PushReview { commit } if commit == oid(50)));
}

#[test]
fn range_drops_old_commit() {
    assert_eq!(drop_id(&vec![oid(1), oid(2), oid(1), oid(3)], oid(1)), vec![oid(2), oid(3)]);
}
