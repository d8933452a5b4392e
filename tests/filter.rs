use roxide::error::RoxError;
use roxide::select::{Below, Entry, EntryKind, PathFilter, Probe, SelectionCriteria, SkipReason, Skipped};

fn criteria(recursive: bool, pattern: Option<&str>, dir: bool) -> SelectionCriteria {
    SelectionCriteria {
        recursive,
        pattern: pattern.map(|s| s.to_string()),
        treat_empty_dir_as_removable: dir,
    }
}

fn file(path: &str, name: &str) -> Probe {
    Probe { path: path.to_string(), name: name.to_string(), kind: Some(EntryKind::File), below: vec![] }
}

fn dir(path: &str, name: &str, below: Vec<Below>) -> Probe {
    Probe { path: path.to_string(), name: name.to_string(), kind: Some(EntryKind::Dir), below }
}

fn below(path: &str, route: &[&str], kind: EntryKind) -> Below {
    Below { path: path.to_string(), route: route.iter().map(|s| s.to_string()).collect(), kind }
}

fn entry(path: &str, kind: EntryKind) -> Entry {
    Entry { path: path.to_string(), kind }
}

/// `subdir` holding keep.pdf, skip.txt and .hidden.pdf.
fn subdir() -> Probe {
    dir(
        "/tmp/t/subdir",
        "subdir",
        vec![
            below("/tmp/t/subdir/keep.pdf", &["keep.pdf"], EntryKind::File),
            below("/tmp/t/subdir/skip.txt", &["skip.txt"], EntryKind::File),
            below("/tmp/t/subdir/.hidden.pdf", &[".hidden.pdf"], EntryKind::File),
        ],
    )
}

#[test]
fn test_filter_single_file_no_pattern() {
    let cli = criteria(false, None, false);
    let result = PathFilter::filter(&vec![file("/tmp/t/file.txt", "file.txt")], &cli).unwrap();
    assert_eq!(result.entries, vec![entry("/tmp/t/file.txt", EntryKind::File)]);
}

#[test]
fn test_filter_non_recursive_dir_with_dir_flag() {
    let cli = criteria(false, None, true);
    let result = PathFilter::filter(&vec![dir("/tmp/t/subdir", "subdir", vec![])], &cli).unwrap();
    assert_eq!(result.entries, vec![entry("/tmp/t/subdir", EntryKind::Dir)]);
}

#[test]
fn test_filter_non_recursive_dir_without_dir_flag() {
    let cli = criteria(false, None, false);
    let result = PathFilter::filter(&vec![dir("/tmp/t/subdir", "subdir", vec![])], &cli);
    assert!(result.is_ok());
    let sel = result.unwrap();
    assert!(sel.entries.is_empty());
    assert_eq!(
        sel.skipped,
        vec![Skipped { path: "/tmp/t/subdir".to_string(), reason: SkipReason::IsADirectory }]
    );
}

#[test]
fn test_filter_recursive_with_pattern() {
    let cli = criteria(true, Some(".pdf"), false);
    let result = PathFilter::filter(&vec![subdir()], &cli).unwrap().entries;
    let file1 = entry("/tmp/t/subdir/keep.pdf", EntryKind::File);
    let file2 = entry("/tmp/t/subdir/skip.txt", EntryKind::File);
    assert!(result.contains(&file1));
    assert!(!result.contains(&file2));
    assert_eq!(result.len(), 1);
}

#[test]
fn recursive_pattern_prunes_hidden_directories() {
    let tree = dir(
        "/w",
        "w",
        vec![
            below("/w/a", &["a"], EntryKind::Dir),
            below("/w/a/x.log", &["a", "x.log"], EntryKind::File),
            below("/w/.git", &[".git"], EntryKind::Dir),
            below("/w/.git/y.log", &[".git", "y.log"], EntryKind::File),
        ],
    );
    let result = PathFilter::filter(&vec![tree], &criteria(true, Some(".log"), false)).unwrap();
    assert_eq!(result.entries, vec![entry("/w/a/x.log", EntryKind::File)]);
}

#[test]
fn non_recursive_pattern_reads_one_level() {
    let tree = dir(
        "/w",
        "w",
        vec![
            below("/w/top.log", &["top.log"], EntryKind::File),
            below("/w/a", &["a"], EntryKind::Dir),
            below("/w/a/deep.log", &["a", "deep.log"], EntryKind::File),
        ],
    );
    let result = PathFilter::filter(&vec![tree], &criteria(false, Some(".log"), false)).unwrap();
    assert_eq!(result.entries, vec![entry("/w/top.log", EntryKind::File)]);
}

#[test]
fn test_filter_pattern_no_match_error() {
    let cli = criteria(false, Some(".pdf"), false);
    let err = PathFilter::filter(&vec![file("/tmp/t/file.txt", "file.txt")], &cli).unwrap_err();
    let err_str = format!("{:?}", err);
    assert!(err_str.contains("PatternNoMatch"));
    assert_eq!(err, RoxError::PatternNoMatch(".pdf".to_string()));
}

#[test]
fn test_filter_non_existent_path() {
    let missing = Probe { path: "/non/existent/path".to_string(), name: "path".to_string(), kind: None, below: vec![] };
    let cli = criteria(false, None, false);
    let result = PathFilter::filter(&vec![missing], &cli).unwrap();
    assert!(result.entries.is_empty());
    assert_eq!(result.skipped[0].reason, SkipReason::NoSuchFile);
}

#[test]
fn test_matches_pattern() {
    let pattern = Some(".txt".to_string());
    assert!(PathFilter::matches_pattern(&pattern, "file.txt"));
    assert!(!PathFilter::matches_pattern(&pattern, "file.pdf"));
    assert!(!PathFilter::matches_pattern(&None, "file.txt"));
}

#[test]
fn test_is_hidden_filtering() {
    assert!(PathFilter::is_hidden(".hiddenfile"));
    assert!(!PathFilter::is_hidden("visible"));
    assert!(PathFilter::check_exists(&file("/a", "a")));
}

#[test]
fn root_is_refused_under_every_flag() {
    for recursive in [false, true] {
        for dir_flag in [false, true] {
            for pattern in [None, Some("x")] {
                let root = dir("/", "/", vec![below("/x", &["x"], EntryKind::File)]);
                let cli = criteria(recursive, pattern, dir_flag);
                match PathFilter::filter(&vec![root, file("/tmp/x", "x")], &cli) {
                    Ok(sel) => {
                        assert!(sel.entries.iter().all(|e| e.path != "/"));
                        assert_eq!(sel.skipped[0], Skipped { path: "/".to_string(), reason: SkipReason::IsRoot });
                    }
                    Err(e) => panic!("unexpected {:?}", e),
                }
            }
        }
    }
}

#[test]
fn pattern_matching_nothing_aborts_batch() {
    let cli = criteria(true, Some("zzz"), false);
    let result = PathFilter::filter(&vec![subdir(), file("/tmp/a.txt", "a.txt")], &cli);
    assert_eq!(result.unwrap_err(), RoxError::PatternNoMatch("zzz".to_string()));
}

#[test]
fn batch_keeps_going_past_missing_paths() {
    let missing = Probe { path: "/gone".to_string(), name: "gone".to_string(), kind: None, below: vec![] };
    let cli = criteria(false, None, false);
    let sel = PathFilter::filter(&vec![missing, file("/tmp/b.txt", "b.txt")], &cli).unwrap();
    assert_eq!(sel.entries, vec![entry("/tmp/b.txt", EntryKind::File)]);
    assert_eq!(sel.skipped.len(), 1);
}

#[test]
fn recursive_without_pattern_takes_directory_whole() {
    let sel = PathFilter::filter(&vec![subdir()], &criteria(true, None, false)).unwrap();
    assert_eq!(sel.entries, vec![entry("/tmp/t/subdir", EntryKind::Dir)]);
}

#[test]
fn non_recursive_pattern_scan_keeps_hidden_files() {
    // The one-level scan of a directory takes every matching file directly
    // inside it; only the recursive walk leaves hidden names out.
    let cli = criteria(false, Some(".pdf"), false);
    let result = PathFilter::filter(&vec![subdir()], &cli).unwrap().entries;
    assert_eq!(
        result,
        vec![
            entry("/tmp/t/subdir/keep.pdf", EntryKind::File),
            entry("/tmp/t/subdir/.hidden.pdf", EntryKind::File),
        ]
    );
}
