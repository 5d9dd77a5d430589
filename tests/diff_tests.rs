use sync_engine::{
    ActionFilter, ComparisonMethod, ConflictType, DiffEngine, FileEntry, FileInfo, SyncAction, SyncPlan,
};

const SECOND: i128 = 1_000_000_000;

fn entry(relative_path: &str, size: u64, is_dir: bool, modified_offset_secs: i64) -> FileEntry {
    let modified = (1_000_000 + modified_offset_secs as i128) * SECOND;
    FileEntry {
        path: format!("/root/{}", relative_path),
        relative_path: relative_path.to_string(),
        size,
        modified,
        created: Some(modified),
        is_dir,
        is_symlink: false,
        hash: None,
        permissions: 0o644,
    }
}

fn entry_with_hash(relative_path: &str, size: u64, hash: &str, modified_offset_secs: i64) -> FileEntry {
    let mut e = entry(relative_path, size, false, modified_offset_secs);
    e.hash = Some(hash.to_string());
    e
}

fn plan(src: Vec<FileEntry>, dst: Vec<FileEntry>, method: ComparisonMethod) -> SyncPlan {
    DiffEngine::new().generate_plan(src, dst, method, true).unwrap()
}

fn info(size: u64) -> FileInfo {
    FileInfo { size, modified: 0, is_dir: false, is_symlink: false, permissions: 0o644, hash: None }
}

#[test]
fn test_action_filter() {
    let diff_engine = DiffEngine::new();
    let actions = vec![
        SyncAction::Copy { source: "file1".to_string(), destination: "file1".to_string(), file_size: 100 },
        SyncAction::Update { source: "file2".to_string(), destination: "file2".to_string(), file_size: 200 },
        SyncAction::Delete { path: "file3".to_string() },
        SyncAction::Skip { path: "file4".to_string(), reason: "identical".to_string() },
    ];
    let plan = SyncPlan { summary: diff_engine.generate_summary(&actions), actions };
    let filtered = diff_engine.filter_actions(&plan, ActionFilter::modifications_only());
    assert_eq!(filtered.actions.len(), 3);
    assert_eq!(filtered.summary.skips, 0);
}

#[test]
fn test_action_filter_modifications_only() {
    let diff_engine = DiffEngine::new();
    let actions = vec![
        SyncAction::Copy { source: "file1".to_string(), destination: "file1".to_string(), file_size: 100 },
        SyncAction::Update { source: "file2".to_string(), destination: "file2".to_string(), file_size: 200 },
        SyncAction::Delete { path: "file3".to_string() },
        SyncAction::Skip { path: "file4".to_string(), reason: "identical".to_string() },
        SyncAction::Conflict {
            source: "file5".to_string(),
            destination: "file5".to_string(),
            conflict_type: ConflictType::BothModified,
            source_info: info(100),
            destination_info: info(200),
        },
    ];
    let plan = SyncPlan { summary: diff_engine.generate_summary(&actions), actions };
    let filtered = diff_engine.filter_actions(&plan, ActionFilter::modifications_only());
    assert_eq!(filtered.actions.len(), 3);
    assert_eq!(filtered.summary.skips, 0);
    assert_eq!(filtered.summary.conflicts, 0);
}

#[test]
fn test_action_filter_conflicts_only() {
    let diff_engine = DiffEngine::new();
    let actions = vec![
        SyncAction::Copy { source: "file1".to_string(), destination: "file1".to_string(), file_size: 100 },
        SyncAction::Conflict {
            source: "file2".to_string(),
            destination: "file2".to_string(),
            conflict_type: ConflictType::BothModified,
            source_info: info(100),
            destination_info: info(200),
        },
    ];
    let plan = SyncPlan { summary: diff_engine.generate_summary(&actions), actions };
    let filtered = diff_engine.filter_actions(&plan, ActionFilter::conflicts_only());
    assert_eq!(filtered.actions.len(), 1);
    assert_eq!(filtered.summary.conflicts, 1);
    assert_eq!(filtered.summary.copies, 0);
}

#[test]
fn test_action_filter_all() {
    let diff_engine = DiffEngine::new();
    let actions = vec![
        SyncAction::Copy { source: "file1".to_string(), destination: "file1".to_string(), file_size: 100 },
        SyncAction::Skip { path: "file2".to_string(), reason: "identical".to_string() },
    ];
    let plan = SyncPlan { summary: diff_engine.generate_summary(&actions), actions };
    let filtered = diff_engine.filter_actions(&plan, ActionFilter::all());
    assert_eq!(filtered.actions.len(), 2);
}

#[test]
fn test_sort_actions_directories_first() {
    let diff_engine = DiffEngine::new();
    let actions = vec![
        SyncAction::Copy { source: "file1.txt".to_string(), destination: "file1.txt".to_string(), file_size: 100 },
        SyncAction::CreateDirectory { path: "dir1".to_string() },
        SyncAction::Update { source: "file2.txt".to_string(), destination: "file2.txt".to_string(), file_size: 200 },
        SyncAction::CreateDirectory { path: "dir2".to_string() },
    ];
    let mut plan = SyncPlan { summary: diff_engine.generate_summary(&actions), actions };
    diff_engine.sort_actions(&mut plan);
    assert!(matches!(plan.actions[0], SyncAction::CreateDirectory { .. }));
    assert!(matches!(plan.actions[1], SyncAction::CreateDirectory { .. }));
    match (&plan.actions[2], &plan.actions[3]) {
        (SyncAction::Update { file_size: size1, .. }, SyncAction::Copy { file_size: size2, .. }) => {
            assert!(size1 >= size2, "Larger files should come first");
        }
        _ => panic!("Expected Update and Copy actions in that order"),
    }
}

#[test]
fn test_copy_new_file() {
    let p = plan(vec![entry("new_file.txt", 100, false, 0)], vec![], ComparisonMethod::SizeAndTimestamp);
    assert_eq!(p.actions.len(), 1);
    match &p.actions[0] {
        SyncAction::Copy { source, file_size, .. } => {
            assert_eq!(source, "new_file.txt");
            assert_eq!(*file_size, 100);
        }
        _ => panic!("Expected Copy action"),
    }
    assert_eq!(p.summary.copies, 1);
    assert_eq!(p.summary.total_bytes_to_transfer, 100);
}

#[test]
fn diff_test_delete_removed_file() {
    let p = plan(vec![], vec![entry("old_file.txt", 100, false, 0)], ComparisonMethod::SizeAndTimestamp);
    assert_eq!(p.actions.len(), 1);
    match &p.actions[0] {
        SyncAction::Delete { path } => assert_eq!(path, "old_file.txt"),
        _ => panic!("Expected Delete action"),
    }
    assert_eq!(p.summary.deletes, 1);
}

#[test]
fn diff_test_skip_identical_files() {
    let p = plan(
        vec![entry("same_file.txt", 100, false, 0)],
        vec![entry("same_file.txt", 100, false, 0)],
        ComparisonMethod::Size,
    );
    assert_eq!(p.actions.len(), 1);
    match &p.actions[0] {
        SyncAction::Skip { path, .. } => assert_eq!(path, "same_file.txt"),
        _ => panic!("Expected Skip action"),
    }
    assert_eq!(p.summary.skips, 1);
}

#[test]
fn test_new_file_copy() {
    let p = plan(vec![entry("new_file.txt", 100, false, 0)], vec![], ComparisonMethod::SizeAndTimestamp);
    assert_eq!(p.actions.len(), 1);
    assert_eq!(
        p.actions[0],
        SyncAction::Copy { source: "new_file.txt".to_string(), destination: "new_file.txt".to_string(), file_size: 100 }
    );
    assert_eq!(p.summary.copies, 1);
    assert_eq!(p.summary.total_bytes_to_transfer, 100);
}

#[test]
fn test_update_newer_file() {
    let p = plan(vec![entry("file.txt", 100, false, 100)], vec![entry("file.txt", 100, false, 0)], ComparisonMethod::SizeAndTimestamp);
    assert_eq!(p.actions.len(), 1);
    assert_eq!(
        p.actions[0],
        SyncAction::Update { source: "file.txt".to_string(), destination: "file.txt".to_string(), file_size: 100 }
    );
    assert_eq!(p.summary.updates, 1);
    assert_eq!(p.summary.total_bytes_to_transfer, 100);
}

#[test]
fn test_conflict_both_modified() {
    let p = plan(vec![entry("file.txt", 100, false, 0)], vec![entry("file.txt", 200, false, 100)], ComparisonMethod::SizeAndTimestamp);
    assert_eq!(p.actions.len(), 1);
    match &p.actions[0] {
        SyncAction::Conflict { conflict_type, .. } => assert_eq!(*conflict_type, ConflictType::BothModified),
        a => panic!("Expected Conflict action, got {:?}", a),
    }
    assert_eq!(p.summary.conflicts, 1);
}

#[test]
fn test_file_directory_conflict() {
    for method in [ComparisonMethod::Size, ComparisonMethod::SizeAndTimestamp, ComparisonMethod::Sha256, ComparisonMethod::ByteByByte] {
        let p = plan(vec![entry("path", 100, false, 0)], vec![entry("path", 0, true, 0)], method);
        assert_eq!(p.actions.len(), 1);
        match &p.actions[0] {
            SyncAction::Conflict { conflict_type, .. } => assert_eq!(*conflict_type, ConflictType::FileDirectoryConflict),
            a => panic!("Expected Conflict action, got {:?}", a),
        }
    }
}

#[test]
fn test_create_directory() {
    let p = plan(vec![entry("new_dir", 0, true, 0)], vec![], ComparisonMethod::SizeAndTimestamp);
    assert_eq!(p.actions, vec![SyncAction::CreateDirectory { path: "new_dir".to_string() }]);
    assert_eq!(p.summary.directory_creates, 1);
}

#[test]
fn test_size_mismatch_conflict() {
    let p = plan(vec![entry("file.txt", 100, false, 0)], vec![entry("file.txt", 200, false, 0)], ComparisonMethod::SizeAndTimestamp);
    match &p.actions[0] {
        SyncAction::Conflict { conflict_type, .. } => assert_eq!(*conflict_type, ConflictType::SizeMismatch),
        a => panic!("Expected Conflict action, got {:?}", a),
    }
}

#[test]
fn test_multiple_files_mixed_actions() {
    let p = plan(
        vec![
            entry("new_file.txt", 100, false, 0),
            entry("updated_file.txt", 200, false, 100),
            entry("same_file.txt", 300, false, 0),
            entry("conflict_file.txt", 400, false, 0),
        ],
        vec![
            entry("updated_file.txt", 200, false, 0),
            entry("same_file.txt", 300, false, 0),
            entry("conflict_file.txt", 500, false, 100),
            entry("deleted_file.txt", 600, false, 0),
        ],
        ComparisonMethod::SizeAndTimestamp,
    );
    assert_eq!(p.actions.len(), 5);
    assert_eq!(p.summary.total_actions, 5);
    assert_eq!(p.summary.copies, 1);
    assert_eq!(p.summary.updates, 1);
    assert_eq!(p.summary.skips, 1);
    assert_eq!(p.summary.conflicts, 1);
    assert_eq!(p.summary.deletes, 1);
    assert_eq!(p.summary.total_bytes_to_transfer, 300);
}

#[test]
fn test_different_comparison_methods() {
    for method in [ComparisonMethod::Size, ComparisonMethod::Timestamp, ComparisonMethod::SizeAndTimestamp] {
        let p = plan(vec![entry("file.txt", 100, false, 100)], vec![entry("file.txt", 100, false, 0)], method);
        assert_eq!(p.actions.len(), 1);
        match method {
            ComparisonMethod::Size => assert!(matches!(p.actions[0], SyncAction::Skip { .. })),
            _ => assert!(matches!(p.actions[0], SyncAction::Update { .. })),
        }
    }
}

#[test]
fn hash_difference_follows_modification_times() {
    let newer = plan(
        vec![entry_with_hash("file.txt", 100, "hash1", 10)],
        vec![entry_with_hash("file.txt", 100, "hash2", 0)],
        ComparisonMethod::Sha256,
    );
    assert!(matches!(newer.actions[0], SyncAction::Update { .. }));
    let same_time = plan(
        vec![entry_with_hash("file.txt", 100, "hash1", 0)],
        vec![entry_with_hash("file.txt", 100, "hash2", 0)],
        ComparisonMethod::Sha256,
    );
    assert!(matches!(same_time.actions[0], SyncAction::Conflict { conflict_type: ConflictType::BothModified, .. }));
    let equal = plan(
        vec![entry_with_hash("file.txt", 100, "h", 5)],
        vec![entry_with_hash("file.txt", 100, "h", 0)],
        ComparisonMethod::Blake3,
    );
    assert!(matches!(equal.actions[0], SyncAction::Skip { .. }));
}

#[test]
fn content_method_without_digests_is_a_comparison_error() {
    let r = DiffEngine::new().generate_plan(
        vec![entry("f", 1, false, 0)],
        vec![entry("f", 1, false, 0)],
        ComparisonMethod::ByteByByte,
        true,
    );
    assert!(r.is_err());
    assert!(r.unwrap_err().to_string().starts_with("Comparison error: "));
}

#[test]
fn extra_destination_entries_are_kept_without_deletion() {
    let p = DiffEngine::new()
        .generate_plan(vec![], vec![entry("old.txt", 1, false, 0)], ComparisonMethod::SizeAndTimestamp, false)
        .unwrap();
    assert_eq!(p.actions.len(), 1);
    assert!(matches!(&p.actions[0], SyncAction::Skip { path, .. } if path == "old.txt"));
    assert_eq!(p.summary.deletes, 0);
    assert_eq!(p.summary.skips, 1);
}

#[test]
fn symlink_mismatch_is_a_type_conflict() {
    let mut s = entry("l", 1, false, 0);
    s.is_symlink = true;
    let p = plan(vec![s], vec![entry("l", 1, false, 0)], ComparisonMethod::Size);
    assert!(matches!(p.actions[0], SyncAction::Conflict { conflict_type: ConflictType::TypeMismatch, .. }));
}

#[test]
fn identical_trees_plan_only_skips() {
    let tree = vec![entry("d", 0, true, 0), entry("d/x.txt", 4, false, 0)];
    for method in [ComparisonMethod::Size, ComparisonMethod::Timestamp, ComparisonMethod::SizeAndTimestamp, ComparisonMethod::Comprehensive] {
        let p = plan(tree.clone(), tree.clone(), method);
        assert_eq!(p.actions.len(), 2);
        assert!(p.actions.iter().all(|a| matches!(a, SyncAction::Skip { .. })));
        assert_eq!(p.summary.total_bytes_to_transfer, 0);
    }
}

#[test]
fn sorting_puts_parent_directories_before_children() {
    let diff_engine = DiffEngine::new();
    let mut p = plan(
        vec![entry("a/b/c.txt", 10, false, 0), entry("a/b", 0, true, 0), entry("a", 0, true, 0), entry("z.bin", 99, false, 0)],
        vec![],
        ComparisonMethod::Size,
    );
    diff_engine.sort_actions(&mut p);
    assert_eq!(p.actions[0], SyncAction::CreateDirectory { path: "a".to_string() });
    assert_eq!(p.actions[1], SyncAction::CreateDirectory { path: "a/b".to_string() });
    assert!(matches!(&p.actions[2], SyncAction::Copy { source, .. } if source == "z.bin"));
    assert!(matches!(&p.actions[3], SyncAction::Copy { source, .. } if source == "a/b/c.txt"));
}

#[test]
fn summary_counts_and_bytes() {
    let diff_engine = DiffEngine::new();
    let actions = vec![
        SyncAction::Copy { source: "a".to_string(), destination: "a".to_string(), file_size: 7 },
        SyncAction::Update { source: "b".to_string(), destination: "b".to_string(), file_size: 5 },
        SyncAction::CreateDirectory { path: "c".to_string() },
        SyncAction::Delete { path: "d".to_string() },
    ];
    let s = diff_engine.generate_summary(&actions);
    assert_eq!(s.total_actions, 4);
    assert_eq!(s.copies + s.updates + s.deletes + s.directory_creates + s.conflicts + s.skips, 4);
    assert_eq!(s.total_bytes_to_transfer, 12);
    let big = vec![
        SyncAction::Copy { source: "a".to_string(), destination: "a".to_string(), file_size: u64::MAX },
        SyncAction::Copy { source: "b".to_string(), destination: "b".to_string(), file_size: 1 },
    ];
    assert_eq!(diff_engine.generate_summary(&big).total_bytes_to_transfer, u64::MAX);
}

#[test]
fn generate_diff_deletes_extras() {
    let p = sync_engine::generate_diff(vec![entry("a", 1, false, 0)], vec![entry("b", 1, false, 0)], ComparisonMethod::Size).unwrap();
    assert_eq!(p.actions.len(), 2);
    assert_eq!(p.actions[1], SyncAction::Delete { path: "b".to_string() });
}

#[test]
fn diff_tests_test_delete_removed_file() {
    let p = plan(vec![], vec![entry("old_file.txt", 100, false, 0)], ComparisonMethod::SizeAndTimestamp);
    assert_eq!(p.actions, vec![SyncAction::Delete { path: "old_file.txt".to_string() }]);
    assert_eq!(p.summary.deletes, 1);
}

#[test]
fn diff_tests_test_skip_identical_files() {
    let p = plan(
        vec![entry("same_file.txt", 100, false, 0)],
        vec![entry("same_file.txt", 100, false, 0)],
        ComparisonMethod::Size,
    );
    assert_eq!(p.actions.len(), 1);
    assert!(matches!(&p.actions[0], SyncAction::Skip { path, .. } if path == "same_file.txt"));
    assert_eq!(p.summary.skips, 1);
}

#[test]
fn test_hash_based_comparison() {
    let p = plan(
        vec![entry_with_hash("file.txt", 100, "hash1", 0)],
        vec![entry_with_hash("file.txt", 100, "hash2", 0)],
        ComparisonMethod::Sha256,
    );
    assert_eq!(p.actions.len(), 1);
    // Different contents with equal modification times: neither side is known to be newer.
    assert!(matches!(p.actions[0], SyncAction::Conflict { conflict_type: ConflictType::BothModified, .. }));
}
