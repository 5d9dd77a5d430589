use sync_engine::{FileFilter, FilterOptions};

#[test]
fn filter_test_basic_include_filter() {
    let options = FilterOptions {
        include_patterns: vec!["**/*.txt".to_string()],
        ..Default::default()
    };

    let filter = FileFilter::new(options).unwrap();

    assert!(filter.should_include("test.txt"));
    assert!(filter.should_include("dir/test.txt"));
    assert!(!filter.should_include("test.rs"));
}

#[test]
fn test_exclude_filter() {
    let options = FilterOptions {
        exclude_patterns: vec!["**/*.tmp".to_string()],
        ..Default::default()
    };

    let filter = FileFilter::new(options).unwrap();

    assert!(filter.should_include("test.txt"));
    assert!(!filter.should_include("test.tmp"));
    assert!(!filter.should_include("dir/test.tmp"));
}

#[test]
fn test_hidden_files() {
    let options = FilterOptions {
        include_hidden: false,
        ..Default::default()
    };

    let filter = FileFilter::new(options).unwrap();

    assert!(filter.should_include("test.txt"));
    assert!(!filter.should_include(".hidden.txt"));
    assert!(!filter.should_include("dir/.hidden.txt"));
    assert!(!filter.should_include(".hidden/test.txt"));
}

#[test]
fn test_size_filter() {
    let filter = FileFilter::with_size_limits(Some(100), Some(1000));

    assert!(!filter.should_include_size(50));   // Too small
    assert!(filter.should_include_size(500));   // Just right
    assert!(!filter.should_include_size(2000)); // Too large
}

#[test]
fn test_extension_filter() {
    let filter = FileFilter::by_extensions(&["txt", "md"], false).unwrap();

    assert!(filter.should_include("test.txt"));
    assert!(filter.should_include("README.md"));
    assert!(!filter.should_include("test.rs"));
}

#[test]
fn test_case_sensitivity() {
    let options = FilterOptions {
        include_patterns: vec!["**/*.TXT".to_string()],
        case_sensitive: false,
        ..Default::default()
    };

    let filter = FileFilter::new(options).unwrap();

    assert!(filter.should_include("test.txt"));
    assert!(filter.should_include("test.TXT"));

    let options = FilterOptions {
        include_patterns: vec!["**/*.TXT".to_string()],
        case_sensitive: true,
        ..Default::default()
    };

    let filter = FileFilter::new(options).unwrap();

    assert!(!filter.should_include("test.txt"));
    assert!(filter.should_include("test.TXT"));
}

#[test]
fn test_combined_filter() {
    let filter1 = FileFilter::by_extensions(&["txt"], false).unwrap();
    let filter2 = FileFilter::with_size_limits(Some(100), Some(1000));

    let combined = filter1.and(&filter2).unwrap();

    assert!(combined.should_include_file("test.txt", 500));
    assert!(!combined.should_include_file("test.txt", 50));
    assert!(!combined.should_include_file("test.rs", 500));
}

#[test]
fn test_default_filter_options() {
    let options = FilterOptions::default();
    
    assert!(options.include_patterns.is_empty());
    assert!(options.exclude_patterns.is_empty());
    assert!(!options.case_sensitive);
    assert!(options.include_hidden);
    assert!(options.max_file_size.is_none());
    assert!(options.min_file_size.is_none());
}

#[test]
fn filter_tests_test_basic_include_filter() {
    let options = FilterOptions {
        include_patterns: vec!["**/*.txt".to_string()],
        ..Default::default()
    };

    let filter = FileFilter::new(options).unwrap();

    assert!(filter.should_include("test.txt"));
    assert!(filter.should_include("dir/test.txt"));
    assert!(filter.should_include("nested/dir/test.txt"));
    assert!(!filter.should_include("test.rs"));
    assert!(!filter.should_include("test.md"));
}

#[test]
fn test_basic_exclude_filter() {
    let options = FilterOptions {
        exclude_patterns: vec!["**/*.tmp".to_string()],
        ..Default::default()
    };

    let filter = FileFilter::new(options).unwrap();

    assert!(filter.should_include("test.txt"));
    assert!(filter.should_include("test.rs"));
    assert!(!filter.should_include("test.tmp"));
    assert!(!filter.should_include("dir/test.tmp"));
    assert!(!filter.should_include("nested/dir/test.tmp"));
}

#[test]
fn test_combined_include_exclude_filter() {
    let options = FilterOptions {
        include_patterns: vec!["**/*.txt".to_string()],
        exclude_patterns: vec!["**/temp_*.txt".to_string()],
        ..Default::default()
    };

    let filter = FileFilter::new(options).unwrap();

    assert!(filter.should_include("test.txt"));
    assert!(filter.should_include("dir/test.txt"));
    assert!(!filter.should_include("temp_file.txt"));
    assert!(!filter.should_include("dir/temp_data.txt"));
    assert!(!filter.should_include("test.rs"));
}

#[test]
fn test_empty_patterns() {
    let options = FilterOptions::default(); // No patterns
    let filter = FileFilter::new(options).unwrap();


    assert!(filter.should_include("test.txt"));
    assert!(filter.should_include("test.rs"));
    assert!(filter.should_include("any_file.xyz"));
}

#[test]
fn test_invalid_glob_pattern() {
    let options = FilterOptions {
        include_patterns: vec!["[".to_string()], // Invalid glob pattern
        ..Default::default()
    };

    let result = FileFilter::new(options);
    assert!(result.is_err());
}

#[test]
fn test_include_hidden_files() {
    let options = FilterOptions {
        include_hidden: true,
        ..Default::default()
    };

    let filter = FileFilter::new(options).unwrap();

    assert!(filter.should_include("test.txt"));
    assert!(filter.should_include(".hidden.txt"));
    assert!(filter.should_include("dir/.hidden.txt"));
    assert!(filter.should_include(".hidden/test.txt"));
    assert!(filter.should_include("."));
    assert!(filter.should_include(".."));
}

#[test]
fn test_exclude_hidden_files() {
    let options = FilterOptions {
        include_hidden: false,
        ..Default::default()
    };

    let filter = FileFilter::new(options).unwrap();

    assert!(filter.should_include("test.txt"));
    assert!(filter.should_include("dir/test.txt"));
    assert!(!filter.should_include(".hidden.txt"));
    assert!(!filter.should_include("dir/.hidden.txt"));
    assert!(!filter.should_include(".hidden/test.txt"));
    
    // . and .. should still be allowed
    assert!(filter.should_include("."));
    assert!(filter.should_include(".."));
}

#[test]
fn test_nested_hidden_directories() {
    let options = FilterOptions {
        include_hidden: false,
        ..Default::default()
    };

    let filter = FileFilter::new(options).unwrap();

    assert!(!filter.should_include(".git/config"));
    assert!(!filter.should_include("project/.vscode/settings.json"));
    assert!(!filter.should_include("deeply/.nested/.hidden/file.txt"));
    assert!(filter.should_include("project/src/main.rs"));
}

#[test]
fn test_case_insensitive_matching() {
    let options = FilterOptions {
        include_patterns: vec!["**/*.TXT".to_string()],
        case_sensitive: false,
        ..Default::default()
    };

    let filter = FileFilter::new(options).unwrap();

    assert!(filter.should_include("test.txt"));
    assert!(filter.should_include("test.TXT"));
    assert!(filter.should_include("test.Txt"));
    assert!(!filter.should_include("test.rs"));
}

#[test]
fn test_case_sensitive_matching() {
    let options = FilterOptions {
        include_patterns: vec!["**/*.TXT".to_string()],
        case_sensitive: true,
        ..Default::default()
    };

    let filter = FileFilter::new(options).unwrap();

    assert!(!filter.should_include("test.txt"));
    assert!(filter.should_include("test.TXT"));
    assert!(!filter.should_include("test.Txt"));
    assert!(!filter.should_include("test.rs"));
}

#[test]
fn test_case_sensitivity_exclude_patterns() {
    let options = FilterOptions {
        exclude_patterns: vec!["**/TEMP_*".to_string()],
        case_sensitive: false,
        ..Default::default()
    };

    let filter = FileFilter::new(options).unwrap();

    assert!(filter.should_include("test.txt"));
    assert!(!filter.should_include("TEMP_file.txt"));
    assert!(!filter.should_include("temp_file.txt"));
    assert!(!filter.should_include("Temp_File.txt"));
}

#[test]
fn test_min_file_size_filter() {
    let filter = FileFilter::with_size_limits(Some(100), None);

    assert!(!filter.should_include_size(50));   // Too small
    assert!(filter.should_include_size(100));   // Exactly min
    assert!(filter.should_include_size(500));   // Above min
    assert!(filter.should_include_size(1000));  // Well above min
}

#[test]
fn test_max_file_size_filter() {
    let filter = FileFilter::with_size_limits(None, Some(1000));

    assert!(filter.should_include_size(50));    // Below max
    assert!(filter.should_include_size(500));   // Below max
    assert!(filter.should_include_size(1000));  // Exactly max
    assert!(!filter.should_include_size(1001)); // Above max
    assert!(!filter.should_include_size(2000)); // Well above max
}

#[test]
fn test_min_max_file_size_filter() {
    let filter = FileFilter::with_size_limits(Some(100), Some(1000));

    assert!(!filter.should_include_size(50));   // Too small
    assert!(filter.should_include_size(100));   // Exactly min
    assert!(filter.should_include_size(500));   // In range
    assert!(filter.should_include_size(1000));  // Exactly max
    assert!(!filter.should_include_size(1001)); // Too large
    assert!(!filter.should_include_size(2000)); // Too large
}

#[test]
fn test_no_size_limits() {
    let filter = FileFilter::with_size_limits(None, None);

    assert!(filter.should_include_size(0));
    assert!(filter.should_include_size(100));
    assert!(filter.should_include_size(u64::MAX));
}

#[test]
fn filter_tests_test_zero_size_files() {
    let filter = FileFilter::with_size_limits(Some(0), None);

    assert!(filter.should_include_size(0));
    assert!(filter.should_include_size(1));
    assert!(filter.should_include_size(100));
}

#[test]
fn test_combined_path_and_size_filter() {
    let options = FilterOptions {
        include_patterns: vec!["**/*.txt".to_string()],
        min_file_size: Some(100),
        max_file_size: Some(1000),
        ..Default::default()
    };

    let filter = FileFilter::new(options).unwrap();

    // Path matches, size in range
    assert!(filter.should_include_file("test.txt", 500));
    
    // Path matches, size too small
    assert!(!filter.should_include_file("test.txt", 50));
    
    // Path matches, size too large
    assert!(!filter.should_include_file("test.txt", 2000));
    
    // Path doesn't match, size in range
    assert!(!filter.should_include_file("test.rs", 500));
}

#[test]
fn test_wildcard_patterns() {
    let options = FilterOptions {
        include_patterns: vec!["test_*.txt".to_string()],
        ..Default::default()
    };

    let filter = FileFilter::new(options).unwrap();

    assert!(filter.should_include("test_1.txt"));
    assert!(filter.should_include("test_data.txt"));
    assert!(filter.should_include("test_.txt"));
    assert!(!filter.should_include("test.txt"));
    assert!(!filter.should_include("other_test.txt"));
}

#[test]
fn test_character_class_patterns() {
    let options = FilterOptions {
        include_patterns: vec!["test_[0-9].txt".to_string()],
        ..Default::default()
    };

    let filter = FileFilter::new(options).unwrap();

    assert!(filter.should_include("test_1.txt"));
    assert!(filter.should_include("test_9.txt"));
    assert!(!filter.should_include("test_a.txt"));
    assert!(!filter.should_include("test_10.txt"));
}

#[test]
fn test_question_mark_patterns() {
    let options = FilterOptions {
        include_patterns: vec!["test?.txt".to_string()],
        ..Default::default()
    };

    let filter = FileFilter::new(options).unwrap();

    assert!(filter.should_include("test1.txt"));
    assert!(filter.should_include("testa.txt"));
    assert!(!filter.should_include("test.txt"));
    assert!(!filter.should_include("test12.txt"));
}

#[test]
fn test_recursive_patterns() {
    let options = FilterOptions {
        include_patterns: vec!["src/**/*.rs".to_string()],
        ..Default::default()
    };

    let filter = FileFilter::new(options).unwrap();

    assert!(filter.should_include("src/main.rs"));
    assert!(filter.should_include("src/lib/mod.rs"));
    assert!(filter.should_include("src/deep/nested/file.rs"));
    assert!(!filter.should_include("main.rs"));
    assert!(!filter.should_include("test/main.rs"));
}

#[test]
fn test_multiple_patterns() {
    let options = FilterOptions {
        include_patterns: vec![
            "**/*.rs".to_string(),
            "**/*.toml".to_string(),
            "**/*.md".to_string(),
        ],
        ..Default::default()
    };

    let filter = FileFilter::new(options).unwrap();

    assert!(filter.should_include("src/main.rs"));
    assert!(filter.should_include("Cargo.toml"));
    assert!(filter.should_include("README.md"));
    assert!(!filter.should_include("test.txt"));
    assert!(!filter.should_include("config.json"));
}

#[test]
fn test_by_extensions_filter() {
    let filter = FileFilter::by_extensions(&["txt", "md"], false).unwrap();

    assert!(filter.should_include("test.txt"));
    assert!(filter.should_include("README.md"));
    assert!(filter.should_include("dir/file.txt"));
    assert!(!filter.should_include("test.rs"));
    assert!(!filter.should_include("config.json"));
}

#[test]
fn test_by_extensions_with_dots() {
    let filter = FileFilter::by_extensions(&[".txt", ".md"], false).unwrap();

    assert!(filter.should_include("test.txt"));
    assert!(filter.should_include("README.md"));
    assert!(!filter.should_include("test.rs"));
}

#[test]
fn test_exclude_common_ignore_patterns() {
    let filter = FileFilter::exclude_common_ignore_patterns().unwrap();


    assert!(filter.should_include("src/main.rs"));
    assert!(filter.should_include("README.md"));
    assert!(filter.should_include("Cargo.toml"));

    // Should exclude common patterns
    assert!(!filter.should_include(".git/config"));
    assert!(!filter.should_include("node_modules/package.json"));
    assert!(!filter.should_include("target/debug/main"));
    assert!(!filter.should_include(".DS_Store"));
    assert!(!filter.should_include("Thumbs.db"));
    assert!(!filter.should_include("temp.log"));
    assert!(!filter.should_include("cache.tmp"));
}

#[test]
fn test_text_files_only() {
    let filter = FileFilter::text_files_only().unwrap();

    assert!(filter.should_include("README.txt"));
    assert!(filter.should_include("doc.md"));
    assert!(filter.should_include("config.json"));
    assert!(filter.should_include("data.xml"));
    assert!(filter.should_include("settings.yaml"));
    assert!(filter.should_include("package.toml"));
    assert!(filter.should_include("app.ini"));

    assert!(!filter.should_include("image.png"));
    assert!(!filter.should_include("video.mp4"));
    assert!(!filter.should_include("binary.exe"));
}

#[test]
fn test_and_combination() {
    let filter1 = FileFilter::by_extensions(&["txt"], false).unwrap();
    let filter2 = FileFilter::with_size_limits(Some(100), Some(1000));

    let combined = filter1.and(&filter2).unwrap();


    assert!(combined.should_include_file("test.txt", 500));
    
    // Should exclude .txt files outside size range
    assert!(!combined.should_include_file("test.txt", 50));
    assert!(!combined.should_include_file("test.txt", 2000));
    
    // Should exclude non-.txt files even in size range
    assert!(!combined.should_include_file("test.rs", 500));
}

#[test]
fn test_and_combination_patterns() {
    let filter1 = FileFilter::new(FilterOptions {
        include_patterns: vec!["**/*.txt".to_string()],
        ..Default::default()
    }).unwrap();

    let filter2 = FileFilter::new(FilterOptions {
        exclude_patterns: vec!["**/temp_*".to_string()],
        ..Default::default()
    }).unwrap();

    let combined = filter1.and(&filter2).unwrap();

    assert!(combined.should_include("test.txt"));
    assert!(!combined.should_include("temp_file.txt"));
    assert!(!combined.should_include("test.rs"));
}

#[test]
fn test_and_combination_hidden_files() {
    let filter1 = FileFilter::new(FilterOptions {
        include_hidden: true,
        ..Default::default()
    }).unwrap();

    let filter2 = FileFilter::new(FilterOptions {
        include_hidden: false,
        ..Default::default()
    }).unwrap();

    let combined = filter1.and(&filter2).unwrap();

    // Combined should be more restrictive (exclude hidden)
    assert!(combined.should_include("test.txt"));
    assert!(!combined.should_include(".hidden.txt"));
}

#[test]
fn test_and_combination_size_limits() {
    let filter1 = FileFilter::with_size_limits(Some(100), Some(2000));
    let filter2 = FileFilter::with_size_limits(Some(200), Some(1000));

    let combined = filter1.and(&filter2).unwrap();

    // Should use the most restrictive limits
    assert!(!combined.should_include_size(150)); // Below 200 (higher min)
    assert!(combined.should_include_size(500));  // In range
    assert!(!combined.should_include_size(1500)); // Above 1000 (lower max)
}

#[test]
fn test_and_combination_case_sensitivity() {
    let filter1 = FileFilter::new(FilterOptions {
        include_patterns: vec!["**/*.TXT".to_string()],
        case_sensitive: false,
        ..Default::default()
    }).unwrap();

    let filter2 = FileFilter::new(FilterOptions {
        include_patterns: vec!["test_*".to_string()],
        case_sensitive: true,
        ..Default::default()
    }).unwrap();

    let combined = filter1.and(&filter2).unwrap();

    // Should be case sensitive (more restrictive)
    assert!(combined.should_include("test_file.TXT"));
    assert!(!combined.should_include("Test_file.TXT")); // Wrong case for second pattern
    assert!(!combined.should_include("test_file.txt")); // Wrong case for first pattern
}

#[test]
fn test_empty_path() {
    let filter = FileFilter::default();
    
    let empty_path = String::new();
    assert!(filter.should_include(&empty_path));
}

#[test]
fn test_root_path() {
    let filter = FileFilter::default();
    
    assert!(filter.should_include("/"));
    assert!(filter.should_include("C:\\"));
}

#[test]
fn test_very_long_path() {
    let filter = FileFilter::default();
    
    let long_component = "a".repeat(255);
    let long_path = long_component.clone();
    
    assert!(filter.should_include(&long_path));
}

#[test]
fn test_special_characters_in_path() {
    let filter = FileFilter::default();
    
    // Test various special characters
    assert!(filter.should_include("file with spaces.txt"));
    assert!(filter.should_include("file-with-dashes.txt"));
    assert!(filter.should_include("file_with_underscores.txt"));
    assert!(filter.should_include("file.with.dots.txt"));
}

#[test]
fn test_unicode_in_path() {
    let filter = FileFilter::default();
    
    assert!(filter.should_include("—Ñ–∞–π–ª.txt")); // Cyrillic
    assert!(filter.should_include("Êñá‰ª∂.txt")); // Chinese
    assert!(filter.should_include("„Éï„Ç°„Ç§„É´.txt")); // Japanese
    assert!(filter.should_include("üìÅfolder/üìÑfile.txt")); // Emoji
}

#[test]
fn test_max_size_zero() {
    let filter = FileFilter::with_size_limits(None, Some(0));
    
    assert!(filter.should_include_size(0));
    assert!(!filter.should_include_size(1));
}

#[test]
fn test_min_size_max_value() {
    let filter = FileFilter::with_size_limits(Some(u64::MAX), None);
    
    assert!(!filter.should_include_size(u64::MAX - 1));
    assert!(filter.should_include_size(u64::MAX));
}

#[test]
fn test_overlapping_patterns() {
    let options = FilterOptions {
        include_patterns: vec!["**/*.txt".to_string()],
        exclude_patterns: vec!["**/*.txt".to_string()], // Same pattern
        ..Default::default()
    };

    let filter = FileFilter::new(options).unwrap();
    
    // Exclude should take precedence
    assert!(!filter.should_include("test.txt"));
}

#[test]
fn test_pattern_order_independence() {
    let options1 = FilterOptions {
        include_patterns: vec!["**/*.txt".to_string(), "**/*.md".to_string()],
        ..Default::default()
    };

    let options2 = FilterOptions {
        include_patterns: vec!["**/*.md".to_string(), "**/*.txt".to_string()],
        ..Default::default()
    };

    let filter1 = FileFilter::new(options1).unwrap();
    let filter2 = FileFilter::new(options2).unwrap();

    let test_paths = vec![
        "test.txt",
        "doc.md",
        "file.rs",
    ];

    for path in test_paths {
        assert_eq!(filter1.should_include(&path), filter2.should_include(&path));
    }
}

#[test]
fn and_combination_admits_exactly_what_both_admit() {
    let f1 = FileFilter::new(FilterOptions {
        include_patterns: vec!["**/*.txt".to_string()],
        case_sensitive: true,
        ..Default::default()
    })
    .unwrap();
    let f2 = FileFilter::new(FilterOptions {
        exclude_patterns: vec!["**/draft*".to_string()],
        case_sensitive: true,
        include_hidden: false,
        min_file_size: Some(10),
        ..Default::default()
    })
    .unwrap();
    let both = f1.and(&f2).unwrap();
    for path in ["a.txt", "a.TXT", "draft.txt", ".h.txt", "dir/b.txt", "c.rs"] {
        for size in [0u64, 10, 1000] {
            assert_eq!(
                both.should_include_file(path, size),
                f1.should_include_file(path, size) && f2.should_include_file(path, size)
            );
        }
    }
    let o = both.options();
    assert_eq!(o.include_patterns, vec!["**/*.txt".to_string()]);
    assert_eq!(o.exclude_patterns, vec!["**/draft*".to_string()]);
    assert!(o.case_sensitive);
    assert!(!o.include_hidden);
    assert_eq!(o.min_file_size, Some(10));
}

#[test]
fn filter_by_extension_scenario() {
    let filter = FileFilter::new(FilterOptions { include_patterns: vec!["**/*.txt".to_string()], ..Default::default() }).unwrap();
    assert!(filter.should_include("a.txt"));
    assert!(!filter.should_include("a.log"));
}
