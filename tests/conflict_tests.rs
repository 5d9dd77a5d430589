use std::path::Path;
use sync_engine::{ConflictPreset, ConflictResolution, ConflictResolver, ConflictStrategy, ConflictType, FileInfo, SyncAction};

const SECOND: i128 = 1_000_000_000;

fn info(size: u64, modified_offset_secs: i64, is_dir: bool, is_symlink: bool, permissions: u32) -> FileInfo {
    FileInfo {
        size,
        modified: (1_000_000 + modified_offset_secs as i128) * SECOND,
        is_dir,
        is_symlink,
        permissions,
        hash: None,
    }
}

fn file_info(size: u64, modified_offset_secs: i64) -> FileInfo {
    info(size, modified_offset_secs, false, false, 0o644)
}

fn resolve(resolver: &ConflictResolver, t: ConflictType, s: &FileInfo, d: &FileInfo) -> ConflictResolution {
    resolver.resolve_conflict("source", "dest", t, s, d).unwrap()
}

#[test]
fn conflict_test_prefer_newer_strategy() {
    let resolver = ConflictResolver::new(ConflictStrategy::PreferNewer);
    let r = resolve(&resolver, ConflictType::BothModified, &file_info(100, 100), &file_info(100, 0));
    assert!(matches!(r, ConflictResolution::UseSource));
}

#[test]
fn conflict_test_prefer_larger_strategy() {
    let resolver = ConflictResolver::new(ConflictStrategy::PreferLarger);
    let r = resolve(&resolver, ConflictType::SizeMismatch, &file_info(200, 0), &file_info(100, 0));
    assert!(matches!(r, ConflictResolution::UseSource));
}

#[test]
fn conflict_test_skip_strategy() {
    let resolver = ConflictResolver::new(ConflictStrategy::Skip);
    let r = resolve(&resolver, ConflictType::BothModified, &file_info(100, 0), &file_info(100, 0));
    assert!(matches!(r, ConflictResolution::Skip));
}

#[test]
fn conflict_test_manual_strategy() {
    let resolver = ConflictResolver::new(ConflictStrategy::Manual);
    match resolve(&resolver, ConflictType::BothModified, &file_info(100, 100), &file_info(200, 0)) {
        ConflictResolution::ManualRequired { suggested_action, .. } => assert!(suggested_action.contains("newer")),
        _ => panic!("Expected ManualRequired resolution"),
    }
}

#[test]
fn test_type_specific_strategy() {
    let mut resolver = ConflictResolver::new(ConflictStrategy::PreferSource);
    resolver.set_strategy_for_type(ConflictType::FileDirectoryConflict, ConflictStrategy::Fail);
    let s = file_info(100, 0);
    let d = file_info(100, 0);
    assert!(matches!(resolve(&resolver, ConflictType::BothModified, &s, &d), ConflictResolution::UseSource));
    assert!(matches!(
        resolve(&resolver, ConflictType::FileDirectoryConflict, &s, &d),
        ConflictResolution::Failed { .. }
    ));
}

#[test]
fn test_conflict_presets() {
    let safe = ConflictResolver::with_preset(ConflictPreset::SafeSync);
    assert_eq!(safe.default_strategy(), ConflictStrategy::Manual);
    let force = ConflictResolver::with_preset(ConflictPreset::ForceSource);
    assert_eq!(force.default_strategy(), ConflictStrategy::PreferSource);
}

#[test]
fn test_prefer_source_strategy() {
    let resolver = ConflictResolver::new(ConflictStrategy::PreferSource);
    let r = resolve(&resolver, ConflictType::BothModified, &file_info(100, 0), &file_info(200, 100));
    assert!(matches!(r, ConflictResolution::UseSource));
}

#[test]
fn test_prefer_destination_strategy() {
    let resolver = ConflictResolver::new(ConflictStrategy::PreferDestination);
    let r = resolve(&resolver, ConflictType::BothModified, &file_info(100, 100), &file_info(200, 0));
    assert!(matches!(r, ConflictResolution::UseDestination));
}

#[test]
fn conflict_tests_test_prefer_newer_strategy() {
    let resolver = ConflictResolver::new(ConflictStrategy::PreferNewer);
    let r = resolve(&resolver, ConflictType::BothModified, &file_info(100, 100), &file_info(100, 0));
    assert!(matches!(r, ConflictResolution::UseSource));
    let r = resolve(&resolver, ConflictType::BothModified, &file_info(100, 0), &file_info(100, 100));
    assert!(matches!(r, ConflictResolution::UseDestination));
}

#[test]
fn test_prefer_older_strategy() {
    let resolver = ConflictResolver::new(ConflictStrategy::PreferOlder);
    let r = resolve(&resolver, ConflictType::BothModified, &file_info(100, 0), &file_info(100, 100));
    assert!(matches!(r, ConflictResolution::UseSource));
}

#[test]
fn conflict_tests_test_prefer_larger_strategy() {
    let resolver = ConflictResolver::new(ConflictStrategy::PreferLarger);
    let r = resolve(&resolver, ConflictType::SizeMismatch, &file_info(200, 0), &file_info(100, 0));
    assert!(matches!(r, ConflictResolution::UseSource));
    let r = resolve(&resolver, ConflictType::SizeMismatch, &file_info(100, 0), &file_info(200, 0));
    assert!(matches!(r, ConflictResolution::UseDestination));
}

#[test]
fn test_prefer_smaller_strategy() {
    let resolver = ConflictResolver::new(ConflictStrategy::PreferSmaller);
    let r = resolve(&resolver, ConflictType::SizeMismatch, &file_info(100, 0), &file_info(200, 0));
    assert!(matches!(r, ConflictResolution::UseSource));
}

#[test]
fn conflict_tests_test_skip_strategy() {
    let resolver = ConflictResolver::new(ConflictStrategy::Skip);
    let r = resolve(&resolver, ConflictType::BothModified, &file_info(100, 0), &file_info(200, 0));
    assert!(matches!(r, ConflictResolution::Skip));
}

#[test]
fn conflict_tests_test_manual_strategy() {
    let resolver = ConflictResolver::new(ConflictStrategy::Manual);
    match resolve(&resolver, ConflictType::BothModified, &file_info(100, 100), &file_info(200, 0)) {
        ConflictResolution::ManualRequired { suggested_action, .. } => assert!(suggested_action.contains("newer")),
        _ => panic!("Expected ManualRequired resolution"),
    }
}

#[test]
fn test_fail_strategy() {
    let resolver = ConflictResolver::new(ConflictStrategy::Fail);
    match resolve(&resolver, ConflictType::BothModified, &file_info(100, 0), &file_info(200, 0)) {
        ConflictResolution::Failed { reason } => assert!(reason.contains("BothModified")),
        _ => panic!("Expected Failed resolution"),
    }
}

const BACKUP_DIR: &str = "/var/backups/sync";

#[test]
fn test_backup_and_use_source_strategy() {
    let mut resolver = ConflictResolver::new(ConflictStrategy::BackupAndUseSource);
    resolver.set_backup_directory(BACKUP_DIR.to_string());
    let r = resolver
        .resolve_conflict("source.txt", "dest.txt", ConflictType::BothModified, &file_info(100, 0), &file_info(200, 0))
        .unwrap();
    match r {
        ConflictResolution::BackupAndUseSource { backup_path } => {
            let p = Path::new(&backup_path);
            assert!(p.parent().unwrap() == Path::new(BACKUP_DIR));
            let name = p.file_name().unwrap().to_str().unwrap();
            assert!(name.contains("dest.txt"));
            assert!(name.contains("dest"));
            assert!(name.starts_with("dest.txt_dst."));
        }
        _ => panic!("Expected BackupAndUseSource resolution"),
    }
}

#[test]
fn test_backup_and_keep_destination_strategy() {
    let mut resolver = ConflictResolver::new(ConflictStrategy::BackupAndKeepDestination);
    resolver.set_backup_directory(BACKUP_DIR.to_string());
    let r = resolver
        .resolve_conflict("source.txt", "dest.txt", ConflictType::BothModified, &file_info(100, 0), &file_info(200, 0))
        .unwrap();
    match r {
        ConflictResolution::BackupAndKeepDestination { backup_path } => {
            let p = Path::new(&backup_path);
            assert!(p.parent().unwrap() == Path::new(BACKUP_DIR));
            let name = p.file_name().unwrap().to_str().unwrap();
            assert!(name.contains("source.txt"));
            assert!(name.contains("src"));
        }
        _ => panic!("Expected BackupAndKeepDestination resolution"),
    }
}

#[test]
fn test_backup_without_directory_configured() {
    let resolver = ConflictResolver::new(ConflictStrategy::BackupAndUseSource);
    let result =
        resolver.resolve_conflict("source.txt", "dest.txt", ConflictType::BothModified, &file_info(100, 0), &file_info(200, 0));
    assert!(result.is_err());
    assert!(result.unwrap_err().to_string().contains("No backup directory configured"));
}

#[test]
fn test_type_specific_strategy_override() {
    let mut resolver = ConflictResolver::new(ConflictStrategy::PreferSource);
    resolver.set_strategy_for_type(ConflictType::FileDirectoryConflict, ConflictStrategy::Fail);
    let s = file_info(100, 0);
    let d = file_info(100, 0);
    assert!(matches!(resolve(&resolver, ConflictType::BothModified, &s, &d), ConflictResolution::UseSource));
    assert!(matches!(
        resolve(&resolver, ConflictType::FileDirectoryConflict, &s, &d),
        ConflictResolution::Failed { .. }
    ));
}

#[test]
fn test_all_conflict_types_with_manual_strategy() {
    let resolver = ConflictResolver::new(ConflictStrategy::Manual);
    for t in [
        ConflictType::BothModified,
        ConflictType::FileDirectoryConflict,
        ConflictType::TypeMismatch,
        ConflictType::PermissionConflict,
        ConflictType::SizeMismatch,
    ] {
        match resolve(&resolver, t, &file_info(100, 0), &file_info(200, 100)) {
            ConflictResolution::ManualRequired { suggested_action, .. } => assert!(!suggested_action.is_empty()),
            _ => panic!("Expected ManualRequired resolution for {:?}", t),
        }
    }
}

#[test]
fn test_suggestions_for_both_modified() {
    let resolver = ConflictResolver::new(ConflictStrategy::Manual);
    match resolve(&resolver, ConflictType::BothModified, &file_info(100, 100), &file_info(100, 0)) {
        ConflictResolution::ManualRequired { suggested_action, .. } => {
            assert!(suggested_action.contains("newer"));
            assert!(suggested_action.contains("source"));
        }
        _ => panic!("Expected ManualRequired resolution"),
    }
    match resolve(&resolver, ConflictType::BothModified, &file_info(100, 0), &file_info(100, 100)) {
        ConflictResolution::ManualRequired { suggested_action, .. } => {
            assert!(suggested_action.contains("newer"));
            assert!(suggested_action.contains("destination"));
        }
        _ => panic!("Expected ManualRequired resolution"),
    }
}

#[test]
fn test_suggestions_for_size_mismatch() {
    let resolver = ConflictResolver::new(ConflictStrategy::Manual);
    match resolve(&resolver, ConflictType::SizeMismatch, &file_info(200, 0), &file_info(100, 0)) {
        ConflictResolution::ManualRequired { suggested_action, .. } => {
            assert!(suggested_action.contains("larger"));
            assert!(suggested_action.contains("Source"));
        }
        _ => panic!("Expected ManualRequired resolution"),
    }
}

#[test]
fn test_suggestions_for_file_directory_conflict() {
    let resolver = ConflictResolver::new(ConflictStrategy::Manual);
    let d = info(0, 0, true, false, 0o755);
    match resolve(&resolver, ConflictType::FileDirectoryConflict, &file_info(100, 0), &d) {
        ConflictResolution::ManualRequired { suggested_action, .. } => {
            assert!(suggested_action.contains("File/directory"));
            assert!(suggested_action.contains("renaming"));
        }
        _ => panic!("Expected ManualRequired resolution"),
    }
}

#[test]
fn test_safe_sync_preset() {
    let resolver = ConflictResolver::with_preset(ConflictPreset::SafeSync);
    assert_eq!(resolver.default_strategy(), ConflictStrategy::Manual);
    let d = info(0, 0, true, false, 0o755);
    assert!(matches!(
        resolve(&resolver, ConflictType::FileDirectoryConflict, &file_info(100, 0), &d),
        ConflictResolution::Failed { .. }
    ));
    assert_eq!(resolver.strategy_for_type(ConflictType::TypeMismatch), ConflictStrategy::Manual);
}

#[test]
fn test_force_source_preset() {
    let resolver = ConflictResolver::with_preset(ConflictPreset::ForceSource);
    assert_eq!(resolver.default_strategy(), ConflictStrategy::PreferSource);
    let r = resolve(&resolver, ConflictType::BothModified, &file_info(100, 0), &file_info(200, 100));
    assert!(matches!(r, ConflictResolution::UseSource));
}

#[test]
fn test_force_destination_preset() {
    let resolver = ConflictResolver::with_preset(ConflictPreset::ForceDestination);
    assert_eq!(resolver.default_strategy(), ConflictStrategy::PreferDestination);
}

#[test]
fn test_prefer_newer_preset() {
    let resolver = ConflictResolver::with_preset(ConflictPreset::PreferNewer);
    assert_eq!(resolver.default_strategy(), ConflictStrategy::PreferNewer);
}

#[test]
fn test_skip_conflicts_preset() {
    let resolver = ConflictResolver::with_preset(ConflictPreset::SkipConflicts);
    assert_eq!(resolver.default_strategy(), ConflictStrategy::Skip);
}

#[test]
fn test_use_source_to_action() {
    let resolver = ConflictResolver::new(ConflictStrategy::PreferSource);
    let s = file_info(100, 0);
    let action = resolver
        .resolution_to_action(ConflictResolution::UseSource, "source.txt".to_string(), "dest.txt".to_string(), &s)
        .unwrap();
    match action {
        Some(SyncAction::Update { source, destination, file_size }) => {
            assert_eq!(source, "source.txt");
            assert_eq!(destination, "dest.txt");
            assert_eq!(file_size, 100);
        }
        _ => panic!("Expected Update action"),
    }
}

#[test]
fn test_use_destination_to_action() {
    let resolver = ConflictResolver::new(ConflictStrategy::PreferDestination);
    let s = file_info(100, 0);
    let action = resolver
        .resolution_to_action(ConflictResolution::UseDestination, "source.txt".to_string(), "dest.txt".to_string(), &s)
        .unwrap();
    match action {
        Some(SyncAction::Skip { path, reason }) => {
            assert_eq!(path, "dest.txt");
            assert!(reason.contains("destination"));
        }
        _ => panic!("Expected Skip action"),
    }
}

#[test]
fn test_skip_to_action() {
    let resolver = ConflictResolver::new(ConflictStrategy::Skip);
    let s = file_info(100, 0);
    let action = resolver
        .resolution_to_action(ConflictResolution::Skip, "source.txt".to_string(), "dest.txt".to_string(), &s)
        .unwrap();
    match action {
        Some(SyncAction::Skip { path, reason }) => {
            assert_eq!(path, "dest.txt");
            assert!(reason.contains("conflict"));
        }
        _ => panic!("Expected Skip action"),
    }
}

#[test]
fn test_backup_and_use_source_to_action() {
    let resolver = ConflictResolver::new(ConflictStrategy::BackupAndUseSource);
    let s = file_info(100, 0);
    let action = resolver
        .resolution_to_action(
            ConflictResolution::BackupAndUseSource { backup_path: "backup.txt".to_string() },
            "source.txt".to_string(),
            "dest.txt".to_string(),
            &s,
        )
        .unwrap();
    match action {
        Some(SyncAction::Update { source, destination, file_size }) => {
            assert_eq!(source, "source.txt");
            assert_eq!(destination, "dest.txt");
            assert_eq!(file_size, 100);
        }
        _ => panic!("Expected Update action"),
    }
}

#[test]
fn test_manual_required_to_action() {
    let resolver = ConflictResolver::new(ConflictStrategy::Manual);
    let s = file_info(100, 0);
    let action = resolver
        .resolution_to_action(
            ConflictResolution::ManualRequired {
                source_info: s.clone(),
                destination_info: file_info(200, 0),
                suggested_action: "test suggestion".to_string(),
            },
            "source.txt".to_string(),
            "dest.txt".to_string(),
            &s,
        )
        .unwrap();
    assert!(action.is_none());
}

#[test]
fn test_failed_to_action() {
    let resolver = ConflictResolver::new(ConflictStrategy::Fail);
    let s = file_info(100, 0);
    let result = resolver.resolution_to_action(
        ConflictResolution::Failed { reason: "test failure".to_string() },
        "source.txt".to_string(),
        "dest.txt".to_string(),
        &s,
    );
    assert!(result.is_err());
    assert!(result.unwrap_err().to_string().contains("test failure"));
}

#[test]
fn test_same_timestamps_prefer_newer() {
    let resolver = ConflictResolver::new(ConflictStrategy::PreferNewer);
    let r = resolve(&resolver, ConflictType::BothModified, &file_info(100, 0), &file_info(200, 0));
    assert!(matches!(r, ConflictResolution::UseSource));
}

#[test]
fn test_same_sizes_prefer_larger() {
    let resolver = ConflictResolver::new(ConflictStrategy::PreferLarger);
    let r = resolve(&resolver, ConflictType::SizeMismatch, &file_info(100, 100), &file_info(100, 0));
    assert!(matches!(r, ConflictResolution::UseSource));
}

#[test]
fn conflict_tests_test_zero_size_files() {
    let resolver = ConflictResolver::new(ConflictStrategy::PreferLarger);
    let r = resolve(&resolver, ConflictType::SizeMismatch, &file_info(0, 0), &file_info(0, 100));
    assert!(matches!(r, ConflictResolution::UseDestination));
}

#[test]
fn test_invalid_file_name_for_backup() {
    let mut resolver = ConflictResolver::new(ConflictStrategy::BackupAndUseSource);
    resolver.set_backup_directory(BACKUP_DIR.to_string());
    let result = resolver.generate_backup_path("", "test", "20240101_000000");
    assert!(result.is_err());
}

#[test]
fn backup_path_has_exact_shape() {
    let mut resolver = ConflictResolver::new(ConflictStrategy::BackupAndUseSource);
    resolver.set_backup_directory("/b/".to_string());
    let p = resolver.generate_backup_path("dir/sub/report.txt/", "dst", "20240101_120000").unwrap();
    assert_eq!(p, "/b/report.txt_dst.20240101_120000");
    assert!(resolver.generate_backup_path("dir/..", "dst", "x").is_err());
}

#[test]
fn resolution_at_fixed_stamp_is_exact() {
    let mut resolver = ConflictResolver::new(ConflictStrategy::BackupAndKeepDestination);
    resolver.set_backup_directory("/b".to_string());
    let r = resolver
        .resolve_conflict_at("a/src.bin", "a/dst.bin", ConflictType::BothModified, &file_info(1, 0), &file_info(2, 0), "T")
        .unwrap();
    assert_eq!(r, ConflictResolution::BackupAndKeepDestination { backup_path: "/b/src.bin_src.T".to_string() });
}

#[test]
fn destination_newer_scenario_under_each_strategy() {
    let s = file_info(100, 0);
    let d = file_info(100, 10);
    let newer = ConflictResolver::new(ConflictStrategy::PreferNewer);
    let r = newer.resolve_conflict("f.txt", "f.txt", ConflictType::BothModified, &s, &d).unwrap();
    assert_eq!(r, ConflictResolution::UseDestination);
    let action = newer.resolution_to_action(r, "f.txt".to_string(), "f.txt".to_string(), &s).unwrap();
    assert!(matches!(action, Some(SyncAction::Skip { .. })));
    let source = ConflictResolver::new(ConflictStrategy::PreferSource);
    let r = source.resolve_conflict("f.txt", "f.txt", ConflictType::BothModified, &s, &d).unwrap();
    assert_eq!(r, ConflictResolution::UseSource);
    let action = source.resolution_to_action(r, "f.txt".to_string(), "f.txt".to_string(), &s).unwrap();
    assert_eq!(
        action,
        Some(SyncAction::Update { source: "f.txt".to_string(), destination: "f.txt".to_string(), file_size: 100 })
    );
}

#[test]
fn constant_strategies_ignore_paths() {
    for strategy in [ConflictStrategy::PreferSource, ConflictStrategy::PreferDestination, ConflictStrategy::Skip] {
        let resolver = ConflictResolver::new(strategy);
        let a = resolver.resolve_conflict("x", "y", ConflictType::TypeMismatch, &file_info(1, 5), &file_info(9, 0)).unwrap();
        let b = resolver.resolve_conflict("p/q", "r", ConflictType::TypeMismatch, &file_info(1, 5), &file_info(9, 0)).unwrap();
        assert_eq!(a, b);
    }
}
