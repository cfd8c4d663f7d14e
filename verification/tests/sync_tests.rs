use cbuild::error::Error;
use cbuild::sync::{missing_library_error, plan_sync};

fn names(v: &[&str]) -> Vec<String> {
    v.iter().map(|s| s.to_string()).collect()
}

#[test]
fn sync_copies_only_what_is_absent_locally() {
    let libs = names(&["a.h", "b.h"]);
    let global = names(&["a.h", "b.h"]);
    let local = names(&["a.h"]);
    let plan = plan_sync(&libs, &global, &local);
    assert_eq!(plan.copies, vec!["b.h"]);
    assert_eq!(plan.missing, None);
}

#[test]
fn sync_is_idempotent() {
    let libs = names(&["a.h", "b.h", "c.h"]);
    let global = names(&["a.h", "b.h", "c.h"]);
    let local = names(&["b.h"]);
    let first = plan_sync(&libs, &global, &local);
    assert_eq!(first.missing, None);
    let mut after_first: Vec<String> = local.clone();
    after_first.extend(first.copies.iter().cloned());
    let second = plan_sync(&libs, &global, &after_first);
    assert_eq!(second.copies, Vec::<String>::new());
    assert_eq!(second.missing, None);
}

#[test]
fn sync_missing_dependency_stops_the_pass() {
    let libs = names(&["foo.h"]);
    let global = names(&[]);
    let local = names(&[]);
    let plan = plan_sync(&libs, &global, &local);
    assert_eq!(plan.missing.as_deref(), Some("foo.h"));
    assert!(plan.copies.is_empty());
}

#[test]
fn sync_keeps_copies_made_before_the_failing_entry() {
    let libs = names(&["a.h", "foo.h", "b.h"]);
    let global = names(&["a.h", "b.h"]);
    let local = names(&[]);
    let plan = plan_sync(&libs, &global, &local);
    assert_eq!(plan.copies, vec!["a.h"]);
    assert_eq!(plan.missing.as_deref(), Some("foo.h"));
}

#[test]
fn sync_copies_a_duplicate_once() {
    let libs = names(&["a.h", "a.h"]);
    let global = names(&["a.h"]);
    let local = names(&[]);
    let plan = plan_sync(&libs, &global, &local);
    assert_eq!(plan.copies, vec!["a.h"]);
    assert_eq!(plan.missing, None);
}

#[test]
fn sync_never_overwrites_a_local_copy() {
    let libs = names(&["a.h"]);
    let global = names(&["a.h"]);
    let local = names(&["a.h"]);
    let plan = plan_sync(&libs, &global, &local);
    assert!(plan.copies.is_empty());
    assert_eq!(plan.missing, None);
}

#[test]
fn missing_library_error_names_the_dependency() {
    let e = missing_library_error("foo.h");
    assert_eq!(
        e,
        Error::Library("Library foo.h not found in global library path".to_string())
    );
}
