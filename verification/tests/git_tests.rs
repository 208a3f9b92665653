use evolith::git::{
    advertisement, check_blob_header, commit_limit, diff_entry_of, is_same_commit, quarantine_entry_name,
    repo_dir_name, repo_id_from_dir_name, root_commit_changes, seed_agents, seed_policy,
    seed_readme, validate_blob_sha, validate_commit_request, BoundedTreeVisitor, DiffCollector,
    FileTreeEntry, GitService, GitStorageError, TreeChange, BLOB_MAX_BYTES, DIFF_MAX_ENTRIES,
    repo_ids_in,
};

#[test]
fn services_parse_and_name_themselves() {
    assert_eq!(GitService::parse_service("git-upload-pack"), Some(GitService::UploadPack));
    assert_eq!(GitService::parse_service("git-receive-pack"), Some(GitService::ReceivePack));
    assert_eq!(GitService::parse_service("git-archive"), None);
    assert_eq!(GitService::UploadPack.command_name(), "upload-pack");
    assert_eq!(GitService::ReceivePack.service_name(), "git-receive-pack");
    assert_eq!(
        GitService::UploadPack.content_type_advertisement(),
        "application/x-git-upload-pack-advertisement"
    );
    assert_eq!(
        GitService::ReceivePack.content_type_result(),
        "application/x-git-receive-pack-result"
    );
}

#[test]
fn advertisement_frames_the_service_line() {
    let out = advertisement(GitService::UploadPack, b"REFS");
    assert_eq!(out, b"001e# service=git-upload-pack\n0000REFS".to_vec());
    let out = advertisement(GitService::ReceivePack, b"");
    assert_eq!(out, b"001f# service=git-receive-pack\n0000".to_vec());
}

#[test]
fn commit_requests_need_a_full_sha_and_a_ref() {
    let sha = "0123456789abcdefABCDEF0123456789abcdef01";
    assert!(validate_commit_request(sha, "refs/heads/main").is_ok());
    match validate_commit_request("abc", "main") {
        Err(GitStorageError::InvalidInput(m)) => {
            assert_eq!(m, "commit sha must be exactly 40 hexadecimal characters")
        }
        other => panic!("unexpected {:?}", other),
    }
    match validate_commit_request("g123456789abcdef0123456789abcdef01234567", "main") {
        Err(GitStorageError::InvalidInput(_)) => {}
        other => panic!("unexpected {:?}", other),
    }
    match validate_commit_request(sha, "  \t") {
        Err(GitStorageError::InvalidInput(m)) => assert_eq!(m, "ref must not be empty"),
        other => panic!("unexpected {:?}", other),
    }
}

#[test]
fn blob_checks() {
    assert!(validate_blob_sha("abc").is_ok());
    assert!(matches!(validate_blob_sha(" "), Err(GitStorageError::InvalidInput(_))));
    assert!(check_blob_header("abc", true, BLOB_MAX_BYTES as u64).is_ok());
    match check_blob_header("abc", true, BLOB_MAX_BYTES as u64 + 1) {
        Err(GitStorageError::ResourceExceeded(m)) => {
            assert_eq!(m, "blob size 1048577 exceeds max 1048576 bytes")
        }
        other => panic!("unexpected {:?}", other),
    }
    match check_blob_header("abc", false, 1) {
        Err(GitStorageError::NotFound(m)) => assert_eq!(m, "object 'abc' is not a blob"),
        other => panic!("unexpected {:?}", other),
    }
}

#[test]
fn resolved_commit_must_be_the_requested_one() {
    let sha = "0123456789abcdef0123456789abcdef01234567";
    assert!(is_same_commit(sha, "0123456789ABCDEF0123456789abcdef01234567"));
    assert!(!is_same_commit(sha, "0123456"));
    assert!(!is_same_commit(sha, "1123456789abcdef0123456789abcdef01234567"));
}

#[test]
fn commit_limits_are_clamped() {
    assert_eq!(commit_limit(0), 1);
    assert_eq!(commit_limit(1), 1);
    assert_eq!(commit_limit(50), 50);
    assert_eq!(commit_limit(100), 100);
    assert_eq!(commit_limit(101), 100);
}

#[test]
fn repository_names() {
    let id = "550e8400-e29b-41d4-a716-446655440000";
    assert_eq!(repo_dir_name(id), format!("{}.git", id));
    assert_eq!(
        repo_id_from_dir_name(&repo_dir_name(id)),
        Some(0x550e8400_e29b_41d4_a716_446655440000u128)
    );
    assert_eq!(repo_id_from_dir_name(id), None);
    assert_eq!(repo_id_from_dir_name("not-a-uuid.git"), None);
    assert_eq!(quarantine_entry_name("r1", "n2"), "r1.git.n2");
}

#[test]
fn seed_files() {
    assert_eq!(seed_readme("demo", "main"), "# demo\n\nDefault branch: `main`\n");
    assert_eq!(seed_policy(), "default_action: require_review\n");
    assert_eq!(seed_agents(), "agents: []\n");
}

#[test]
fn tree_visitor_builds_paths_and_stops_at_the_limit() {
    let mut v = BoundedTreeVisitor::new(3);
    v.push_back_tracked_path_component(b"src");
    assert!(v.record(true, "t1".to_string()));
    v.pop_path_component();
    v.push_path_component(b"README.md");
    assert!(v.record(false, "b1".to_string()));
    v.pop_path_component();
    v.pop_front_tracked_path_and_set_current();
    v.push_path_component(b"lib.rs");
    assert!(v.record(false, "b2".to_string()));
    v.pop_path_component();
    v.push_path_component(b"main.rs");
    assert!(!v.record(false, "b3".to_string()));
    assert!(v.exceeded());
    let entries = v.into_entries();
    let names: Vec<&str> = entries.iter().map(|e| e.name.as_str()).collect();
    assert_eq!(names, vec!["src", "README.md", "src/lib.rs"]);
    assert_eq!(entries[0].kind, "tree");
    assert!(entries[0].is_tree);
    assert_eq!(entries[2].kind, "blob");
    assert_eq!(entries[2].oid, "b2");
}

#[test]
fn empty_components_and_empty_queues() {
    let mut v = BoundedTreeVisitor::new(10);
    v.push_path_component(b"");
    v.push_path_component(b"a");
    v.push_path_component(b"");
    assert!(v.record(false, "x".to_string()));
    v.pop_back_tracked_path_and_set_current();
    assert!(v.record(false, "y".to_string()));
    assert!(!v.exceeded());
    let entries = v.into_entries();
    assert_eq!(entries[0].name, "a");
    assert_eq!(entries[1].name, "");
}

#[test]
fn tree_changes_become_diff_entries() {
    let d = diff_entry_of(TreeChange::Addition { location: "a".into(), id: "1".into() });
    assert_eq!((d.path.as_str(), d.change_type.as_str(), d.old_oid.as_str(), d.new_oid.as_str()), ("a", "added", "", "1"));
    let d = diff_entry_of(TreeChange::Deletion { location: "b".into(), id: "2".into() });
    assert_eq!((d.change_type.as_str(), d.old_oid.as_str(), d.new_oid.as_str()), ("deleted", "2", ""));
    let d = diff_entry_of(TreeChange::Rewrite {
        location: "c".into(),
        source_id: "3".into(),
        id: "4".into(),
    });
    assert_eq!((d.change_type.as_str(), d.old_oid.as_str(), d.new_oid.as_str()), ("modified", "3", "4"));
}

#[test]
fn diff_collector_refuses_beyond_the_limit() {
    let mut c = DiffCollector::new();
    for i in 0..DIFF_MAX_ENTRIES {
        assert!(c.push(TreeChange::Modification {
            location: format!("f{}", i),
            previous_id: "o".into(),
            id: "n".into(),
        }));
    }
    assert!(!c.push(TreeChange::Addition { location: "x".into(), id: "1".into() }));
    assert!(matches!(c.finish(), Err(GitStorageError::ResourceExceeded(_))));

    let mut c = DiffCollector::new();
    assert!(c.push(TreeChange::Addition { location: "x".into(), id: "1".into() }));
    let v = c.finish().expect("within the limit");
    assert_eq!(v.len(), 1);
    assert_eq!(v[0].path, "x");
}

fn entry(name: &str, is_tree: bool) -> FileTreeEntry {
    FileTreeEntry {
        name: name.to_string(),
        kind: if is_tree { "tree" } else { "blob" }.to_string(),
        oid: format!("oid-{}", name),
        is_tree,
    }
}

#[test]
fn root_commit_adds_every_file() {
    let v = root_commit_changes(vec![entry("src", true), entry("README.md", false), entry("src/lib.rs", false)])
        .expect("small tree");
    assert_eq!(v.len(), 2);
    assert_eq!(v[0].path, "README.md");
    assert_eq!(v[0].change_type, "added");
    assert_eq!(v[0].old_oid, "");
    assert_eq!(v[1].new_oid, "oid-src/lib.rs");

    let many: Vec<FileTreeEntry> = (0..DIFF_MAX_ENTRIES + 1).map(|i| entry(&format!("f{}", i), false)).collect();
    assert!(matches!(root_commit_changes(many), Err(GitStorageError::ResourceExceeded(_))));
}

#[test]
fn repo_ids_come_from_uuid_git_directories() {
    let a = "550e8400-e29b-41d4-a716-446655440000";
    let b = "6ba7b810-9dad-11d1-80b4-00c04fd430c8";
    let entries = vec![
        (format!("{}.git", a), true),
        (format!("{}.git", b), false),
        (format!("{}.git.{}", a, "nonce"), true),
        (".seed-1".to_string(), true),
        (format!("{}.git", a.to_uppercase()), true),
    ];
    let ids = repo_ids_in(&entries);
    // The upper-case spelling names the same repository: it is listed once.
    assert_eq!(ids, vec![0x550e8400_e29b_41d4_a716_446655440000u128]);
    assert!(repo_ids_in(&[]).is_empty());
}
