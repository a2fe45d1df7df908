use josh_proxy::env::UpdateEnv;
use josh_proxy::namespace::{Password, TmpGitNamespace};
use josh_proxy::remote::{fetch_refs_command, fetch_result, insert_user, FetchError, PushPlan};
use std::path::Path;

#[test]
fn push_plan_with_user() {
    let plan = PushPlan::new("refs/for/master%wip", "https://host/repo.git", "alice", "request_1");
    assert_eq!(plan.source_ref, "refs/request_1");
    assert_eq!(plan.command, "git push https://alice@host/repo.git 'refs/request_1:refs/for/master%wip'");
}

#[test]
fn push_plan_without_user() {
    let plan = PushPlan::new("refs/heads/x", "file:///tmp/r", "", "ns");
    assert_eq!(plan.command, "git push file:///tmp/r 'refs/ns:refs/heads/x'");
}

#[test]
fn push_report_hides_temporary_ref() {
    let plan = PushPlan::new("refs/heads/x", "file:///tmp/r", "", "ns");
    assert_eq!(
        plan.report("To upstream\n refs/ns -> x\n refs/ns done"),
        "To upstream\n JOSH_PUSH -> x\n JOSH_PUSH done"
    );
}

#[test]
fn user_goes_after_scheme() {
    assert_eq!(insert_user("ssh://git@h/x", "bob"), "ssh://bob@git@h/x");
}

#[test]
fn fetch_command_with_and_without_user() {
    let cmd = fetch_refs_command("/a/b.git", "https://h/b.git", &["refs/heads/*", "refs/tags/*"], "carol");
    assert_eq!(
        cmd,
        "git fetch --no-tags https://carol@h/b.git '+refs/heads/*:refs/josh/upstream/a/refs/namespaces/b.git/refs/heads/*' '+refs/tags/*:refs/josh/upstream/a/refs/namespaces/b.git/refs/tags/*'"
    );
    let anon = fetch_refs_command("b", "https://h/b", &["refs/heads/*"], "");
    assert_eq!(anon, "git fetch --no-tags https://annonymous@h/b '+refs/heads/*:refs/josh/upstream/b/refs/heads/*'");
}

#[test]
fn fetch_without_prefixes() {
    assert_eq!(fetch_refs_command("b", "https://h/b", &[], ""), "git fetch --no-tags https://annonymous@h/b ");
}

#[test]
fn fetch_outcomes() {
    assert!(fetch_result("From h\n * branch main").is_ok());
    match fetch_result("fatal: Authentication failed for 'https://h/'") {
        Err(FetchError::AuthFailed) => {}
        _ => panic!("expected an authentication failure"),
    }
    match fetch_result("fatal: repository not found") {
        Err(e @ FetchError::Failed) => assert_eq!(e.message(), "error"),
        _ => panic!("expected a failure"),
    }
    match fetch_result("error: could not lock") {
        Err(FetchError::Failed) => {}
        _ => panic!("expected a failure"),
    }
    assert_eq!(FetchError::AuthFailed.message(), "auth");
}

#[test]
fn request_namespace_names() {
    let ns = TmpGitNamespace::new(Path::new("/srv/repo"));
    let name = ns.name().to_string();
    assert!(name.starts_with("request_"));
    assert_eq!(name.len(), 44);
    let id = &name[8..];
    assert_eq!(&id[8..9], "-");
    assert_eq!(&id[14..15], "4");
    assert!("89ab".contains(&id[19..20]));
    assert_eq!(ns.reference("refs/heads/x"), format!("refs/namespaces/{}/refs/heads/x", name));
    assert_eq!(ns.repo_path(), &Path::new("/srv/repo").to_path_buf());
    let other = TmpGitNamespace::new(Path::new("/srv/repo"));
    assert_ne!(other.name(), ns.name());
}

#[test]
fn namespace_with_given_id() {
    let ns = TmpGitNamespace::with_request_id(Path::new("/r"), "abc");
    assert_eq!(ns.name(), "request_abc");
    assert_eq!(ns.reference("HEAD"), "refs/namespaces/request_abc/HEAD");
}

#[test]
fn password_is_hidden() {
    let p = Password { value: "SECRET-REDACTED".to_string() };
    assert_eq!(p.debug_text(), "Password { value: \"<hidden>\" }");
    assert_eq!(p.clone().value, "SECRET-REDACTED");
}

#[test]
fn env_insert_and_get() {
    let mut env = UpdateEnv::new();
    assert!(env.get("a").is_none());
    env.insert("a".to_string(), "1".to_string());
    env.insert("b".to_string(), "2".to_string());
    env.insert("a".to_string(), "3".to_string());
    assert_eq!(env.get("a").unwrap(), "3");
    assert_eq!(env.get("b").unwrap(), "2");
    assert!(env.get("c").is_none());
}
