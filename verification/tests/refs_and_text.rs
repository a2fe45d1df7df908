use josh_proxy::central::module_ref;
use josh_proxy::oid::Oid;
use josh_proxy::refs::{
    baseref_and_options, forward_options, namespaced_ref, push_ref_with_options, to_ns,
    upstream_ref, wants_merge,
};
use josh_proxy::text::{decimal_text, join_strings, replace_str, split_char, split_once, trim_matches_char};

fn strings(v: &[&str]) -> Vec<String> {
    v.iter().map(|s| s.to_string()).collect()
}

#[test]
fn review_ref_with_options() {
    let (baseref, push_to, options) = baseref_and_options("refs/for/master%josh-merge,wip").unwrap();
    assert_eq!(baseref, "refs/heads/master");
    assert_eq!(push_to, "refs/for/master");
    assert_eq!(options, strings(&["josh-merge", "wip"]));
}

#[test]
fn drafts_ref_without_options() {
    let (baseref, push_to, options) = baseref_and_options("refs/drafts/dev").unwrap();
    assert_eq!(baseref, "refs/heads/dev");
    assert_eq!(push_to, "refs/drafts/dev");
    assert!(options.is_empty());
}

#[test]
fn plain_branch_is_kept() {
    let (baseref, push_to, options) = baseref_and_options("refs/heads/main").unwrap();
    assert_eq!(baseref, "refs/heads/main");
    assert_eq!(push_to, "refs/heads/main");
    assert!(options.is_empty());
}

#[test]
fn empty_option_list_after_percent() {
    let (_, push_to, options) = baseref_and_options("refs/for/x%").unwrap();
    assert_eq!(push_to, "refs/for/x");
    assert_eq!(options, strings(&[""]));
}

#[test]
fn prefix_match_is_textual() {
    let (baseref, _, _) = baseref_and_options("refs/format").unwrap();
    assert_eq!(baseref, "refs/headsmat");
}

#[test]
fn only_the_first_percent_splits() {
    let (_, push_to, options) = baseref_and_options("refs/for/a%b%c,d").unwrap();
    assert_eq!(push_to, "refs/for/a");
    assert_eq!(options, strings(&["b%c", "d"]));
}

#[test]
fn josh_options_are_not_forwarded() {
    let options = strings(&["josh-merge", "wip", "josh-x", "r=me"]);
    assert_eq!(forward_options(&options), strings(&["wip", "r=me"]));
    assert_eq!(push_ref_with_options("refs/for/master", &options), "refs/for/master%wip,r=me");
    assert!(wants_merge(&options));
}

#[test]
fn only_josh_options_leave_no_percent() {
    let options = strings(&["josh-merge"]);
    assert_eq!(push_ref_with_options("refs/for/master", &options), "refs/for/master");
    assert!(!wants_merge(&strings(&["josh-merged"])));
}

#[test]
fn reference_names() {
    assert_eq!(namespaced_ref("ns", "refs/heads/x"), "refs/namespaces/ns/refs/heads/x");
    assert_eq!(upstream_ref("a/refs/namespaces/b", "refs/heads/x"), "refs/josh/upstream/a/refs/namespaces/b/refs/heads/x");
    assert_eq!(module_ref("lib/core"), "refs/centralgit/lib/core/##master##");
}

#[test]
fn namespace_of_paths() {
    assert_eq!(to_ns("/a/b/"), "a/refs/namespaces/b");
    assert_eq!(to_ns("repo.git"), "repo.git");
    assert_eq!(to_ns("///"), "");
    assert_eq!(to_ns("//x//y"), "x/refs/namespaces//refs/namespaces/y");
}

#[test]
fn text_helpers() {
    assert_eq!(decimal_text(0), "0");
    assert_eq!(decimal_text(1234), "1234");
    assert_eq!(replace_str("aXbXX", "X", "yy"), "ayybyyyy");
    assert_eq!(replace_str("aaa", "aa", "b"), "ba");
    assert_eq!(split_char("a,,b", ','), strings(&["a", "", "b"]));
    assert_eq!(split_char("", ','), strings(&[""]));
    assert_eq!(split_once("https://h/x://y", "://"), ("https".to_string(), Some("h/x://y".to_string())));
    assert_eq!(split_once("nothing", "://"), ("nothing".to_string(), None));
    assert_eq!(trim_matches_char("//a/b//", '/'), "a/b");
    assert_eq!(join_strings(&strings(&["a", "b", "c"]), ", "), "a, b, c");
    assert_eq!(join_strings(&Vec::new(), ","), "");
}

#[test]
fn oid_text_is_parsed_like_git() {
    let oid = Oid::parse("0123456789abcdefABCDEF0123456789abcdef01").unwrap();
    assert_eq!(
        oid.as_bytes(),
        &[0x01, 0x23, 0x45, 0x67, 0x89, 0xab, 0xcd, 0xef, 0xab, 0xcd, 0xef, 0x01, 0x23, 0x45, 0x67, 0x89, 0xab, 0xcd, 0xef, 0x01]
    );
    let short = Oid::parse("abc").unwrap();
    let mut expected = [0u8; 20];
    expected[0] = 0xab;
    expected[1] = 0xc0;
    assert_eq!(short.as_bytes(), &expected);
    assert!(!short.is_zero());
}

#[test]
fn oid_text_errors() {
    let bad = Oid::parse("xyz").err().unwrap();
    assert!(bad.message().starts_with("converted "));
    assert!(Oid::parse("").is_err());
    assert!(Oid::parse(&"a".repeat(41)).is_err());
    assert!(Oid::parse(&"a".repeat(40)).is_ok());
}

#[test]
fn null_oid() {
    let zero = Oid::parse(&"0".repeat(40)).unwrap();
    assert!(zero.is_zero());
    assert!(zero.same_as(&Oid::zero()));
    assert!(Oid::from_bytes(&[0u8; 19]).is_none());
    assert!(Oid::from_bytes(&[7u8; 20]).unwrap().same_as(&Oid::from_bytes(&[7u8; 20]).unwrap()));
}
