use josh_proxy::central::{
    CentralGit, CommitInfo, ReviewAction, ReviewEvent, ReviewUploadResult, SubmitAction,
    SubmitEvent,
};
use josh_proxy::env::UpdateEnv;
use josh_proxy::error::josh_error;
use josh_proxy::oid::Oid;
use josh_proxy::repo_update::{RepoUpdateMachine, UnapplyView, UpdateAction, UpdateEvent};

fn oid(byte: u8) -> Oid {
    Oid::from_bytes(&[byte; 20]).unwrap()
}

fn env_with(refname: &str, old: &str) -> UpdateEnv {
    let mut env = UpdateEnv::new();
    for (k, v) in [
        ("refname", refname),
        ("filter_spec", ":/sub"),
        ("old", old),
        ("new", "2222222222222222222222222222222222222222"),
        ("username", "alice"),
        ("password", "pw"),
        ("remote_url", "https://host/r.git"),
        ("base_ns", "r.git"),
        ("GIT_DIR", "/srv/r.git"),
        ("GIT_NAMESPACE", "request_x"),
    ] {
        env.insert(k.to_string(), v.to_string());
    }
    env
}

#[test]
fn update_without_parameter_is_refused() {
    let mut env = UpdateEnv::new();
    env.insert("refname".to_string(), "refs/for/master".to_string());
    let err = RepoUpdateMachine::start(&env).err().unwrap();
    assert_eq!(err.message(), "");
}

#[test]
fn update_pushes_rewritten_commit() {
    let (m, a) = RepoUpdateMachine::start(&env_with("refs/for/master%josh-x,wip", "1111111111111111111111111111111111111111")).unwrap();
    match a {
        UpdateAction::InitRepo { git_dir } => assert_eq!(git_dir, "/srv/r.git"),
        _ => panic!("expected InitRepo"),
    }
    let (m, a) = m.step(UpdateEvent::RepoReady(Ok(())));
    match a {
        UpdateAction::Unapply { filter_spec, old, new } => {
            assert_eq!(filter_spec, ":/sub");
            assert!(old.same_as(&oid(0x11)));
            assert!(new.same_as(&oid(0x22)));
        }
        _ => panic!("expected Unapply"),
    }
    let (m, a) = m.step(UpdateEvent::Unapplied(Ok(UnapplyView::Done(oid(0x33)))));
    match a {
        UpdateAction::Push { oid: o, refname, url, username, password, namespace } => {
            assert!(o.same_as(&oid(0x33)));
            assert_eq!(refname, "refs/for/master%wip");
            assert_eq!(url, "https://host/r.git");
            assert_eq!(username, "alice");
            assert_eq!(password, "pw");
            assert_eq!(namespace, "request_x");
        }
        _ => panic!("expected Push"),
    }
    assert!(!m.is_done());
    let (m, a) = m.step(UpdateEvent::Pushed(Ok("report".to_string())));
    assert!(m.is_done());
    match a {
        UpdateAction::Finish(Ok(r)) => assert_eq!(r, "report"),
        _ => panic!("expected Finish"),
    }
}

#[test]
fn update_resolves_null_old_commit() {
    let (m, _) = RepoUpdateMachine::start(&env_with("refs/for/master", &"0".repeat(40))).unwrap();
    let (m, a) = m.step(UpdateEvent::RepoReady(Ok(())));
    match a {
        UpdateAction::ResolveOld { rev } => assert_eq!(rev, "refs/namespaces/request_x/refs/heads/master"),
        _ => panic!("expected ResolveOld"),
    }
    let (_, a) = m.step(UpdateEvent::OldResolved(None));
    match a {
        UpdateAction::Unapply { old, .. } => assert!(old.is_zero()),
        _ => panic!("expected Unapply"),
    }
}

#[test]
fn update_with_resolved_old_commit() {
    let (m, _) = RepoUpdateMachine::start(&env_with("refs/for/master", &"0".repeat(40))).unwrap();
    let (m, _) = m.step(UpdateEvent::RepoReady(Ok(())));
    let (_, a) = m.step(UpdateEvent::OldResolved(Some(oid(0x44))));
    match a {
        UpdateAction::Unapply { old, .. } => assert!(old.same_as(&oid(0x44))),
        _ => panic!("expected Unapply"),
    }
}

#[test]
fn update_merges_when_asked() {
    let (m, _) = RepoUpdateMachine::start(&env_with("refs/for/master%josh-merge", "1111111111111111111111111111111111111111")).unwrap();
    let (m, _) = m.step(UpdateEvent::RepoReady(Ok(())));
    let (m, a) = m.step(UpdateEvent::Unapplied(Ok(UnapplyView::Done(oid(0x33)))));
    match a {
        UpdateAction::FindMergeBase { rev, commit } => {
            assert_eq!(rev, "refs/josh/upstream/r.git/refs/heads/master");
            assert!(commit.same_as(&oid(0x33)));
        }
        _ => panic!("expected FindMergeBase"),
    }
    let (m, a) = m.step(UpdateEvent::MergeBase(Ok(Some(oid(0x44)))));
    match a {
        UpdateAction::MergeTrees { base, commit } => {
            assert!(base.same_as(&oid(0x44)));
            assert!(commit.same_as(&oid(0x33)));
        }
        _ => panic!("expected MergeTrees"),
    }
    let (m, a) = m.step(UpdateEvent::MergeTree(Ok(oid(0x66))));
    match a {
        UpdateAction::CommitMerge { tree, parents, signature_from, message } => {
            assert!(tree.same_as(&oid(0x66)));
            assert_eq!(parents.len(), 2);
            assert!(parents[0].same_as(&oid(0x44)));
            assert!(parents[1].same_as(&oid(0x33)));
            assert!(signature_from.same_as(&oid(0x33)));
            assert_eq!(message, "Merge from :/sub");
        }
        _ => panic!("expected CommitMerge"),
    }
    let (_, a) = m.step(UpdateEvent::MergeCommitted(Ok(oid(0x55))));
    match a {
        UpdateAction::Push { oid: o, refname, .. } => {
            assert!(o.same_as(&oid(0x55)));
            assert_eq!(refname, "refs/for/master");
        }
        _ => panic!("expected Push"),
    }
}

#[test]
fn update_merge_without_upstream_fails() {
    let (m, _) = RepoUpdateMachine::start(&env_with("refs/for/master%josh-merge", "1111111111111111111111111111111111111111")).unwrap();
    let (m, _) = m.step(UpdateEvent::RepoReady(Ok(())));
    let (m, _) = m.step(UpdateEvent::Unapplied(Ok(UnapplyView::Done(oid(0x33)))));
    let (m, a) = m.step(UpdateEvent::MergeBase(Ok(None)));
    assert!(m.is_done());
    match a {
        UpdateAction::Finish(Err(e)) => assert_eq!(e.message(), "josh_merge failed"),
        _ => panic!("expected Finish"),
    }
}

#[test]
fn update_merge_errors_end_the_update() {
    let (m, _) = RepoUpdateMachine::start(&env_with("refs/for/master%josh-merge", "1111111111111111111111111111111111111111")).unwrap();
    let (m, _) = m.step(UpdateEvent::RepoReady(Ok(())));
    let (m, _) = m.step(UpdateEvent::Unapplied(Ok(UnapplyView::Done(oid(0x33)))));
    let (m, _) = m.step(UpdateEvent::MergeBase(Ok(Some(oid(0x44)))));
    let (m, a) = m.step(UpdateEvent::MergeTree(Err(josh_error("conflict"))));
    assert!(m.is_done());
    match a {
        UpdateAction::Finish(Err(e)) => assert_eq!(e.message(), "conflict"),
        _ => panic!("expected Finish"),
    }
}

#[test]
fn update_refusals() {
    let start = || {
        let (m, _) = RepoUpdateMachine::start(&env_with("refs/for/master", "1111111111111111111111111111111111111111")).unwrap();
        m.step(UpdateEvent::RepoReady(Ok(()))).0
    };
    match start().step(UpdateEvent::Unapplied(Ok(UnapplyView::BranchDoesNotExist))).1 {
        UpdateAction::Finish(Err(e)) => assert_eq!(e.message(), "branch does not exist on remote"),
        _ => panic!("expected Finish"),
    }
    match start().step(UpdateEvent::Unapplied(Ok(UnapplyView::RejectMerge(3)))).1 {
        UpdateAction::Finish(Err(e)) => assert_eq!(e.message(), "rejecting merge with 3 parents"),
        _ => panic!("expected Finish"),
    }
    match start().step(UpdateEvent::Unapplied(Err(josh_error("boom")))).1 {
        UpdateAction::Finish(Err(e)) => assert_eq!(e.message(), "boom"),
        _ => panic!("expected Finish"),
    }
}

#[test]
fn update_with_bad_commit_text_fails() {
    let (m, _) = RepoUpdateMachine::start(&env_with("refs/for/master", "not-a-commit")).unwrap();
    let (m, a) = m.step(UpdateEvent::RepoReady(Ok(())));
    assert!(m.is_done());
    match a {
        UpdateAction::Finish(Err(e)) => assert!(e.message().starts_with("converted ")),
        _ => panic!("expected Finish"),
    }
    let (m, _) = RepoUpdateMachine::start(&env_with("refs/for/master", "1111111111111111111111111111111111111111")).unwrap();
    let (m, a) = m.step(UpdateEvent::RepoReady(Err(josh_error("no repo"))));
    assert!(m.is_done());
    match a {
        UpdateAction::Finish(Err(e)) => assert_eq!(e.message(), "no repo"),
        _ => panic!("expected Finish"),
    }
}

#[test]
fn review_of_tracked_commit_changes_nothing() {
    let (m, a) = CentralGit.review_upload("lib", "central", oid(1));
    match a {
        ReviewAction::LookupTracking { module } => assert_eq!(module, "lib"),
        _ => panic!("expected LookupTracking"),
    }
    match m.step(ReviewEvent::Tracking(Some(oid(1)))).1 {
        ReviewAction::Finish(ReviewUploadResult::NoChanges) => {}
        _ => panic!("expected NoChanges"),
    }
}

#[test]
fn review_rejects_non_fast_forward() {
    let (m, _) = CentralGit.review_upload("lib", "central", oid(1));
    let (m, a) = m.step(ReviewEvent::Tracking(Some(oid(2))));
    match a {
        ReviewAction::CheckDescendant { new, old } => {
            assert!(new.same_as(&oid(1)));
            assert!(old.same_as(&oid(2)));
        }
        _ => panic!("expected CheckDescendant"),
    }
    match m.step(ReviewEvent::Descendant(false)).1 {
        ReviewAction::Finish(ReviewUploadResult::RejectNoFF) => {}
        _ => panic!("expected RejectNoFF"),
    }
}

#[test]
fn review_replays_module_commits() {
    let (m, _) = CentralGit.review_upload("lib", "central", oid(1));
    let (m, a) = m.step(ReviewEvent::Tracking(None));
    match a {
        ReviewAction::PrepareWalk { hide, tip } => {
            assert!(hide.is_none());
            assert!(tip.same_as(&oid(1)));
        }
        _ => panic!("expected PrepareWalk"),
    }
    let (m, _) = m.step(ReviewEvent::WalkReady);
    let (m, a) = m.step(ReviewEvent::CentralTip(oid(9)));
    assert!(matches!(a, ReviewAction::NextCommit));
    let (m, a) = m.step(ReviewEvent::Next(Some(CommitInfo { oid: oid(5), parents: 1 })));
    match a {
        ReviewAction::Rewrite { commit, onto, module } => {
            assert!(commit.same_as(&oid(5)));
            assert!(onto.same_as(&oid(9)));
            assert_eq!(module, "lib");
        }
        _ => panic!("expected Rewrite"),
    }
    let (m, _) = m.step(ReviewEvent::Rewritten(oid(6)));
    let (m, a) = m.step(ReviewEvent::Next(None));
    assert!(m.is_done());
    match a {
        ReviewAction::Finish(ReviewUploadResult::Uploaded(o, initial)) => {
            assert!(o.same_as(&oid(6)));
            assert!(initial);
        }
        _ => panic!("expected Uploaded"),
    }
}

#[test]
fn review_rejects_merge_commits() {
    let (m, _) = CentralGit.review_upload("lib", "central", oid(1));
    let (m, _) = m.step(ReviewEvent::Tracking(Some(oid(2))));
    let (m, a) = m.step(ReviewEvent::Descendant(true));
    match a {
        ReviewAction::PrepareWalk { hide, .. } => assert!(hide.unwrap().same_as(&oid(2))),
        _ => panic!("expected PrepareWalk"),
    }
    let (m, _) = m.step(ReviewEvent::WalkReady);
    let (m, _) = m.step(ReviewEvent::CentralTip(oid(9)));
    match m.step(ReviewEvent::Next(Some(CommitInfo { oid: oid(5), parents: 2 }))).1 {
        ReviewAction::Finish(ReviewUploadResult::RejectMerge) => {}
        _ => panic!("expected RejectMerge"),
    }
}

#[test]
fn review_to_central_is_not_replayed() {
    let (m, _) = CentralGit.review_upload("central", "central", oid(1));
    let (m, _) = m.step(ReviewEvent::Tracking(None));
    let (m, _) = m.step(ReviewEvent::WalkReady);
    let (m, _) = m.step(ReviewEvent::CentralTip(oid(9)));
    let (m, a) = m.step(ReviewEvent::Next(Some(CommitInfo { oid: oid(5), parents: 1 })));
    assert!(matches!(a, ReviewAction::NextCommit));
    match m.step(ReviewEvent::Next(None)).1 {
        ReviewAction::Finish(ReviewUploadResult::Central) => {}
        _ => panic!("expected Central"),
    }
}

#[test]
fn submit_splits_and_pushes_modules() {
    let modules = vec!["central".to_string(), "a".to_string()];
    let (m, a) = CentralGit.central_submit(modules, "central", oid(7));
    match a {
        SubmitAction::LookupTracking { module } => assert_eq!(module, "a"),
        _ => panic!("expected LookupTracking"),
    }
    let (m, a) = m.step(SubmitEvent::TrackingFound(false));
    match a {
        SubmitAction::LookupRef { reference } => assert_eq!(reference, "refs/centralgit/a/##master##"),
        _ => panic!("expected LookupRef"),
    }
    let (m, a) = m.step(SubmitEvent::ModuleRefFound(None));
    match a {
        SubmitAction::SplitSubdir { module, rev } => {
            assert_eq!(module, "a");
            assert!(rev.same_as(&oid(7)));
        }
        _ => panic!("expected SplitSubdir"),
    }
    let (m, a) = m.step(SubmitEvent::Split(Some(oid(8))));
    match a {
        SubmitAction::SetRef { reference, commit, message } => {
            assert_eq!(reference, "refs/centralgit/a/##master##");
            assert!(commit.same_as(&oid(8)));
            assert_eq!(message, "subtree_split");
        }
        _ => panic!("expected SetRef"),
    }
    let (m, a) = m.step(SubmitEvent::RefSet);
    assert!(matches!(a, SubmitAction::ResolveModule { .. }));
    let (m, a) = m.step(SubmitEvent::ModuleResolved(Some(oid(8))));
    assert!(matches!(a, SubmitAction::CompareTrees { .. }));
    let (m, a) = m.step(SubmitEvent::Trees { old: Some(oid(3)), new: Some(oid(4)) });
    match a {
        SubmitAction::RewriteOnto { parent, tree } => {
            assert!(parent.same_as(&oid(8)));
            assert!(tree.same_as(&oid(4)));
        }
        _ => panic!("expected RewriteOnto"),
    }
    let (m, a) = m.step(SubmitEvent::Rewritten(oid(10)));
    match a {
        SubmitAction::SetRef { message, .. } => assert_eq!(message, "rewrite"),
        _ => panic!("expected SetRef"),
    }
    let (m, a) = m.step(SubmitEvent::RefSet);
    match a {
        SubmitAction::LookupRef { reference } => assert_eq!(reference, "refs/centralgit/central/##master##"),
        _ => panic!("expected LookupRef"),
    }
    let (m, a) = m.step(SubmitEvent::ModuleRefFound(None));
    assert!(matches!(a, SubmitAction::LookupRef { .. }));
    let (m, a) = m.step(SubmitEvent::ModuleRefFound(Some(oid(10))));
    match a {
        SubmitAction::Push { commit, module, branch } => {
            assert!(commit.same_as(&oid(10)));
            assert_eq!(module, "a");
            assert_eq!(branch, "refs/heads/master");
        }
        _ => panic!("expected Push"),
    }
    let (m, a) = m.step(SubmitEvent::Pushed);
    assert!(m.is_done());
    assert!(matches!(a, SubmitAction::Finish));
}

#[test]
fn submit_skips_unchanged_trees() {
    let (m, _) = CentralGit.central_submit(vec!["a".to_string()], "central", oid(7));
    let (m, _) = m.step(SubmitEvent::TrackingFound(true));
    let (m, _) = m.step(SubmitEvent::ModuleResolved(Some(oid(8))));
    let (m, a) = m.step(SubmitEvent::Trees { old: Some(oid(4)), new: Some(oid(4)) });
    assert!(matches!(a, SubmitAction::LookupRef { .. }));
    let (_, a) = m.step(SubmitEvent::ModuleRefFound(None));
    assert!(matches!(a, SubmitAction::Finish));
    let (m, _) = CentralGit.central_submit(vec!["a".to_string()], "central", oid(7));
    let (m, _) = m.step(SubmitEvent::TrackingFound(true));
    let (m, _) = m.step(SubmitEvent::ModuleResolved(Some(oid(8))));
    let (_, a) = m.step(SubmitEvent::Trees { old: Some(oid(4)), new: None });
    assert!(matches!(a, SubmitAction::LookupRef { .. }));
}

#[test]
fn pre_create_keeps_existing_branch() {
    let (m, a) = CentralGit.pre_create_project("a", oid(7));
    match a {
        SubmitAction::LookupRef { reference } => assert_eq!(reference, "refs/centralgit/a/##master##"),
        _ => panic!("expected LookupRef"),
    }
    let (m, a) = m.step(SubmitEvent::ModuleRefFound(Some(oid(1))));
    assert!(m.is_done());
    assert!(matches!(a, SubmitAction::Finish));
    let (m, _) = CentralGit.pre_create_project("a", oid(7));
    let (m, _) = m.step(SubmitEvent::ModuleRefFound(None));
    let (m, a) = m.step(SubmitEvent::Split(None));
    assert!(m.is_done());
    assert!(matches!(a, SubmitAction::Finish));
}

#[test]
fn password_only_reaches_the_push() {
    let mut env_b = env_with("refs/for/master%wip", "1111111111111111111111111111111111111111");
    env_b.insert("password".to_string(), "other".to_string());
    let (a, _) = RepoUpdateMachine::start(&env_with("refs/for/master%wip", "1111111111111111111111111111111111111111")).unwrap();
    let (b, _) = RepoUpdateMachine::start(&env_b).unwrap();
    let (a, _) = a.step(UpdateEvent::RepoReady(Ok(())));
    let (b, _) = b.step(UpdateEvent::RepoReady(Ok(())));
    let (_, pa) = a.step(UpdateEvent::Unapplied(Ok(UnapplyView::Done(oid(0x33)))));
    let (_, pb) = b.step(UpdateEvent::Unapplied(Ok(UnapplyView::Done(oid(0x33)))));
    match (pa, pb) {
        (
            UpdateAction::Push { refname: ra, url: ua, username: na, password: wa, namespace: sa, .. },
            UpdateAction::Push { refname: rb, url: ub, username: nb, password: wb, namespace: sb, .. },
        ) => {
            assert_eq!((ra, ua, na, sa), (rb, ub, nb, sb));
            assert_eq!(wa, "pw");
            assert_eq!(wb, "other");
        }
        _ => panic!("expected Push"),
    }
}

#[test]
fn bad_commit_text_error_is_the_same_each_time() {
    let a = Oid::parse("xyz").err().unwrap();
    let b = Oid::parse("xyz").err().unwrap();
    assert_eq!(a.message(), b.message());
    assert!(a.message().contains("unable to parse OID"));
    assert_ne!(Oid::parse("").err().unwrap().message(), a.message());
}

#[test]
fn project_created_submits_central_tracking() {
    assert!(CentralGit.project_created(vec!["a".to_string()], "central", None).is_none());
    let (_, a) = CentralGit.project_created(vec!["a".to_string()], "central", Some(oid(7))).unwrap();
    match a {
        SubmitAction::LookupTracking { module } => assert_eq!(module, "a"),
        _ => panic!("expected LookupTracking"),
    }
}
