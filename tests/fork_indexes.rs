use fork_indexes::{ForkIndexes, IndexUrl, MarkerTree, PackageName, ResolveError, ResolverMarkers};

fn name(s: &str) -> PackageName {
    PackageName::new(s).unwrap()
}

fn fork(expr: &str) -> ResolverMarkers {
    ResolverMarkers::Fork(MarkerTree::new(expr))
}

#[test]
fn insert_same_pair_twice_is_idempotent() {
    let mut indexes = ForkIndexes::default();
    let p = name("foo");
    let a = IndexUrl::new("https://a.example");
    assert!(indexes.insert(&p, &a, &ResolverMarkers::Universal).is_ok());
    assert!(indexes.insert(&p, &a, &ResolverMarkers::Universal).is_ok());
    assert_eq!(indexes.get(&p), Some(&a));
}

#[test]
fn first_write_wins() {
    let p = name("foo");
    let a = IndexUrl::new("https://a.example");
    let b = IndexUrl::new("https://b.example");
    let mut conflicting = ForkIndexes::default();
    assert!(conflicting.insert(&p, &a, &ResolverMarkers::Universal).is_ok());
    assert!(conflicting.insert(&p, &b, &ResolverMarkers::Universal).is_err());
    let mut same = ForkIndexes::default();
    assert!(same.insert(&p, &a, &ResolverMarkers::Universal).is_ok());
    assert!(same.insert(&p, &a, &ResolverMarkers::Universal).is_ok());
}

#[test]
fn conflict_leaves_first_index_recorded() {
    let mut indexes = ForkIndexes::default();
    let p = name("foo");
    let a = IndexUrl::new("https://a.example");
    let b = IndexUrl::new("https://b.example");
    indexes.insert(&p, &a, &ResolverMarkers::Universal).unwrap();
    assert!(indexes.insert(&p, &b, &ResolverMarkers::Universal).is_err());
    assert_eq!(indexes.get(&p), Some(&a));
}

fn conflict_indexes(first: &str, second: &str) -> Vec<String> {
    let mut indexes = ForkIndexes::default();
    let p = name("foo");
    indexes.insert(&p, &IndexUrl::new(first), &ResolverMarkers::Universal).unwrap();
    match indexes.insert(&p, &IndexUrl::new(second), &ResolverMarkers::Universal) {
        Err(ResolveError::ConflictingIndexesUniversal(package, indexes)) => {
            assert_eq!(package, name("foo"));
            indexes
        }
        other => panic!("expected a universal conflict, got {other:?}"),
    }
}

#[test]
fn conflict_lists_indexes_in_order() {
    let expected = vec!["https://a.example".to_string(), "https://b.example".to_string()];
    assert_eq!(conflict_indexes("https://b.example", "https://a.example"), expected);
    assert_eq!(conflict_indexes("https://a.example", "https://b.example"), expected);
}

#[test]
fn conflict_order_compares_whole_strings() {
    let expected = vec!["https://a.example".to_string(), "https://a.example/simple".to_string()];
    assert_eq!(conflict_indexes("https://a.example/simple", "https://a.example"), expected);
    assert_eq!(conflict_indexes("https://a.example", "https://a.example/simple"), expected);
}

#[test]
fn conflict_scope_follows_fork_markers() {
    let p = name("foo");
    let a = IndexUrl::new("https://a.example");
    let b = IndexUrl::new("https://b.example");

    let mut universal = ForkIndexes::default();
    universal.insert(&p, &a, &ResolverMarkers::Universal).unwrap();
    let err = universal.insert(&p, &b, &ResolverMarkers::Universal).unwrap_err();
    assert_eq!(
        err,
        ResolveError::ConflictingIndexesUniversal(
            name("foo"),
            vec!["https://a.example".to_string(), "https://b.example".to_string()]
        )
    );

    let markers = fork("python_version < '3.9'");
    let mut forked = ForkIndexes::default();
    forked.insert(&p, &a, &markers).unwrap();
    let err = forked.insert(&p, &b, &markers).unwrap_err();
    match err {
        ResolveError::ConflictingIndexesFork { package_name, indexes, fork_markers } => {
            assert_eq!(package_name, name("foo"));
            assert_eq!(indexes, vec!["https://a.example".to_string(), "https://b.example".to_string()]);
            assert_eq!(fork_markers.as_str(), "python_version < '3.9'");
        }
        other => panic!("expected a fork conflict, got {other:?}"),
    }
}

#[test]
fn separate_trackers_never_conflict() {
    let p = name("foo");
    let mut first = ForkIndexes::default();
    let mut second = ForkIndexes::default();
    assert!(first.insert(&p, &IndexUrl::new("https://a.example"), &ResolverMarkers::Universal).is_ok());
    assert!(second.insert(&p, &IndexUrl::new("https://b.example"), &ResolverMarkers::Universal).is_ok());
    assert_eq!(first.get(&p).unwrap().as_str(), "https://a.example");
    assert_eq!(second.get(&p).unwrap().as_str(), "https://b.example");
}

#[test]
fn lookup_after_record() {
    let mut indexes = ForkIndexes::default();
    let p = name("foo");
    assert_eq!(indexes.get(&p), None);
    indexes.insert(&p, &IndexUrl::new("https://a.example"), &ResolverMarkers::Universal).unwrap();
    assert_eq!(indexes.get(&p).map(|i| i.as_str()), Some("https://a.example"));
    assert_eq!(indexes.get(&name("bar")), None);
}

#[test]
fn lookup_uses_normalized_names() {
    let mut indexes = ForkIndexes::default();
    indexes.insert(&name("Typing_Extensions"), &IndexUrl::new("A"), &ResolverMarkers::Universal).unwrap();
    assert_eq!(indexes.get(&name("typing-extensions")).map(|i| i.as_str()), Some("A"));
    assert!(indexes.insert(&name("typing.extensions"), &IndexUrl::new("B"), &ResolverMarkers::Universal).is_err());
}

#[test]
fn universal_resolution_reports_conflict_across_markers() {
    // `foo==1.0` from `A` under `sys_platform == "linux"` and from `B` under
    // `sys_platform == "win32"`, resolved without forking.
    let foo = name("foo");
    let mut indexes = ForkIndexes::default();
    indexes.insert(&foo, &IndexUrl::new("A"), &ResolverMarkers::Universal).unwrap();
    let err = indexes.insert(&foo, &IndexUrl::new("B"), &ResolverMarkers::Universal).unwrap_err();
    assert_eq!(
        err,
        ResolveError::ConflictingIndexesUniversal(name("foo"), vec!["A".to_string(), "B".to_string()])
    );
}

#[test]
fn forked_resolution_accepts_each_marker_its_index() {
    let foo = name("foo");
    let linux = fork("sys_platform == \"linux\"");
    let windows = fork("sys_platform == \"win32\"");
    let mut linux_indexes = ForkIndexes::default();
    let mut windows_indexes = ForkIndexes::default();
    assert!(linux_indexes.insert(&foo, &IndexUrl::new("A"), &linux).is_ok());
    assert!(windows_indexes.insert(&foo, &IndexUrl::new("B"), &windows).is_ok());
}

#[test]
fn universal_conflict_message() {
    let err = ResolveError::ConflictingIndexesUniversal(name("foo"), vec!["A".to_string(), "B".to_string()]);
    assert_eq!(err.message(), "Requirements contain conflicting indexes for package `foo`:\n- A\n- B");
}

#[test]
fn fork_conflict_message() {
    let err = ResolveError::ConflictingIndexesFork {
        package_name: name("foo"),
        indexes: vec!["A".to_string(), "B".to_string()],
        fork_markers: MarkerTree::new("sys_platform == \"linux\""),
    };
    assert_eq!(
        err.message(),
        "Requirements contain conflicting indexes for package `foo` in split `sys_platform == \"linux\"`:\n- A\n- B"
    );
}

#[test]
fn fork_markers_accessor() {
    assert!(ResolverMarkers::Universal.fork_markers().is_none());
    let markers = fork("os_name == 'nt'");
    assert_eq!(markers.fork_markers().unwrap().as_str(), "os_name == 'nt'");
}
