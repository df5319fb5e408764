//! URL resolution, base normalization, the upgrade policy, and navigation
//! planning, exercised against the real `url` crate.

use navigator_core::fetch::NavigationMethod;
use navigator_core::navigator::{NavigationPlan, NavigationReject, NavigatorCore, OpenUrlMode};
use navigator_core::urls::{strip_query, upgrade_insecure};

fn make_core(base: &str, upgrade: bool, mode: OpenUrlMode) -> NavigatorCore {
    NavigatorCore::new(base, upgrade, mode).expect("base URL must parse")
}

#[test]
fn base_last_segment_replaced_with_empty() {
    let c = make_core("http://example.com/dir/file.swf", false, OpenUrlMode::Allow);
    assert_eq!(c.base_url, "http://example.com/dir/");
}

#[test]
fn base_already_a_directory_stays_one() {
    let c = make_core("http://example.com/dir/", false, OpenUrlMode::Allow);
    assert_eq!(c.base_url, "http://example.com/dir/");
}

#[test]
fn resolve_relative_against_directory() {
    let c = make_core("http://example.com/dir/file.swf", false, OpenUrlMode::Allow);
    let u = c.resolve_url("other.swf").expect("resolves");
    assert_eq!(u, "http://example.com/dir/other.swf");
}

#[test]
fn resolve_parent_and_absolute_references() {
    let c = make_core("http://example.com/a/b/file.swf", false, OpenUrlMode::Allow);
    assert_eq!(c.resolve_url("../up.swf").unwrap(), "http://example.com/a/up.swf");
    assert_eq!(c.resolve_url("/root.swf").unwrap(), "http://example.com/root.swf");
    assert_eq!(c.resolve_url("https://other.net/x").unwrap(), "https://other.net/x");
}

#[test]
fn resolve_fails_against_cannot_be_a_base() {
    let c = make_core("data:text/plain,hi", false, OpenUrlMode::Allow);
    assert_eq!(c.base_url, "data:text/plain,hi");
    assert_eq!(
        c.resolve_url("rel.swf"),
        Err(String::from("relative URL with a cannot-be-a-base base"))
    );
}

#[test]
fn new_rejects_text_that_is_no_url() {
    assert!(NavigatorCore::new("not a url at all", false, OpenUrlMode::Allow).is_none());
}

#[test]
fn upgrade_rewrites_http_to_https() {
    let c = make_core("http://example.com/dir/file.swf", true, OpenUrlMode::Allow);
    assert_eq!(c.resolve_url("page.html").unwrap(), "https://example.com/dir/page.html");
}

#[test]
fn upgrade_leaves_other_schemes_alone() {
    assert_eq!(upgrade_insecure(String::from("https://a.example/p?q=1")), "https://a.example/p?q=1");
    assert_eq!(upgrade_insecure(String::from("file:///tmp/x")), "file:///tmp/x");
}

#[test]
fn upgrade_keeps_host_path_query_fragment() {
    let once = upgrade_insecure(String::from("http://h.example:8080/p/q?x=1&y=2#frag"));
    assert_eq!(once, "https://h.example:8080/p/q?x=1&y=2#frag");
}

#[test]
fn upgrade_is_idempotent() {
    let once = upgrade_insecure(String::from("http://h.example/p?x=1"));
    let twice = upgrade_insecure(once.clone());
    assert_eq!(once, twice);
    assert_eq!(once, "https://h.example/p?x=1");
}

#[test]
fn strip_query_removes_query_keeps_fragment() {
    assert_eq!(strip_query("file:///tmp/m.swf?x=1"), "file:///tmp/m.swf");
    assert_eq!(strip_query("file:///tmp/m.swf"), "file:///tmp/m.swf");
    assert_eq!(strip_query("http://h/p?a=b#frag"), "http://h/p#frag");
    assert_eq!(strip_query("http://h/p#frag?not-a-query"), "http://h/p#frag?not-a-query");
}

#[test]
fn navigation_allow_opens_resolved_url() {
    let c = make_core("http://example.com/dir/file.swf", false, OpenUrlMode::Allow);
    match c.plan_navigation("page.html", None) {
        NavigationPlan::Open(u) => assert_eq!(u, "http://example.com/dir/page.html"),
        _ => panic!("expected an open plan"),
    }
}

#[test]
fn navigation_confirm_asks_first() {
    let c = make_core("http://example.com/dir/file.swf", false, OpenUrlMode::Confirm);
    match c.plan_navigation("page.html", None) {
        NavigationPlan::ConfirmThenOpen(u) => assert_eq!(u, "http://example.com/dir/page.html"),
        _ => panic!("expected a confirm-then-open plan"),
    }
}

#[test]
fn navigation_deny_rejects() {
    let c = make_core("http://example.com/dir/file.swf", false, OpenUrlMode::Deny);
    match c.plan_navigation("page.html", None) {
        NavigationPlan::Reject(NavigationReject::PolicyDenied) => {}
        _ => panic!("expected a policy rejection"),
    }
}

#[test]
fn navigation_rejects_script_urls() {
    let c = make_core("http://example.com/dir/file.swf", false, OpenUrlMode::Allow);
    match c.plan_navigation("javascript:alert(1)", None) {
        NavigationPlan::Reject(NavigationReject::JavascriptScheme) => {}
        _ => panic!("expected a script rejection"),
    }
}

#[test]
fn navigation_rejects_unresolvable_urls() {
    let c = make_core("data:text/plain,hi", false, OpenUrlMode::Allow);
    match c.plan_navigation("rel.swf", None) {
        NavigationPlan::Reject(NavigationReject::InvalidUrl) => {}
        _ => panic!("expected an invalid-URL rejection"),
    }
}

#[test]
fn navigation_appends_query_pairs_form_encoded() {
    let c = make_core("http://example.com/dir/file.swf", false, OpenUrlMode::Allow);
    let vars = vec![
        (String::from("k"), String::from("v")),
        (String::from("a"), String::from("b c")),
    ];
    match c.plan_navigation("page.html", Some((NavigationMethod::Get, vars))) {
        NavigationPlan::Open(u) => {
            assert_eq!(u, "http://example.com/dir/page.html?k=v&a=b+c");
        }
        _ => panic!("expected an open plan"),
    }
}

#[test]
fn navigation_appends_to_an_existing_query() {
    let c = make_core("http://example.com/dir/file.swf", false, OpenUrlMode::Allow);
    let vars = vec![(String::from("b"), String::from("2"))];
    match c.plan_navigation("page.html?a=1", Some((NavigationMethod::Post, vars))) {
        NavigationPlan::Open(u) => assert_eq!(u, "http://example.com/dir/page.html?a=1&b=2"),
        _ => panic!("expected an open plan"),
    }
}
