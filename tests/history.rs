use roxide::history::{History, LogId, RevertError, RevertStep, TrashLog, TrashMeta, MAX_LOG_LINES, SEPARATOR};

fn record(id: &str, from: &str, to: &str) -> History {
    History {
        log_id: LogId(id.to_string()),
        metadata: TrashMeta::new(from.to_string(), to.to_string()),
    }
}

fn dummy_log() -> Vec<String> {
    vec![
        "-------------",
        "-------------",
        "-------------",
        "-------------",
        "-------------",
        "20241112214434",
        "/home/abhi/projects/abhi/github/roxide/file004.org",
        "/home/abhi/.local/share/Trash/files/file004.2024-11-12_21:44:34.org",
        "20241112214434",
        "----------------------------",
    ]
    .into_iter()
    .map(|s| s.to_string())
    .collect()
}

#[test]
fn history_get_last_log() {
    let dummy_log = dummy_log();
    assert_eq!("20241112214434", &dummy_log.iter().nth_back(4).unwrap().to_string());
    assert_eq!(
        "/home/abhi/projects/abhi/github/roxide/file004.org",
        &dummy_log.iter().nth_back(3).unwrap().to_string()
    );
    assert_eq!(
        "/home/abhi/.local/share/Trash/files/file004.2024-11-12_21:44:34.org",
        &dummy_log.iter().nth_back(2).unwrap().to_string()
    );
    assert_eq!("20241112214434", &dummy_log.iter().nth_back(1).unwrap().to_string());
    assert_eq!("----------------------------", &dummy_log.iter().nth_back(0).unwrap().to_string());
    // The log ends with a separator, so its last four lines form a record.
    let (last, rest) = History::take_last(&dummy_log).unwrap();
    assert_eq!(last.metadata.trash_path, "20241112214434");
    assert_eq!(rest, dummy_log[..6].to_vec());
}

#[test]
fn revert_get_last_log() {
    let dummy_log = dummy_log();
    assert_eq!("20241112214434", &dummy_log.iter().nth_back(4).unwrap().to_string());
    assert_eq!(
        "/home/abhi/projects/abhi/github/roxide/file004.org",
        &dummy_log.iter().nth_back(3).unwrap().to_string()
    );
    assert_eq!(
        "/home/abhi/.local/share/Trash/files/file004.2024-11-12_21:44:34.org",
        &dummy_log.iter().nth_back(2).unwrap().to_string()
    );
    assert_eq!("20241112214434", &dummy_log.iter().nth_back(1).unwrap().to_string());
    assert_eq!("----------------------------", &dummy_log.iter().nth_back(0).unwrap().to_string());
    let (last, _) = History::take_last(&dummy_log).unwrap();
    assert_eq!(
        last.metadata.file_path,
        "/home/abhi/.local/share/Trash/files/file004.2024-11-12_21:44:34.org"
    );
}

#[test]
fn record_is_four_lines() {
    let h = record("20241112214434", "/home/u/file004.org", "/trash/file004.org");
    assert_eq!(
        h.lines(),
        vec![
            "20241112214434".to_string(),
            "/home/u/file004.org".to_string(),
            "/trash/file004.org".to_string(),
            "----------------------------".to_string(),
        ]
    );
    assert_eq!(SEPARATOR, "----------------------------");
}

#[test]
fn revert_of_empty_log_fails() {
    let log: Vec<String> = Vec::new();
    assert_eq!(History::take_last(&log), Err(RevertError::EmptyLog));
}

#[test]
fn revert_of_malformed_log_fails() {
    let short = vec!["a".to_string(), "b".to_string()];
    assert_eq!(History::take_last(&short), Err(RevertError::Malformed));
    let no_sep = vec!["1".to_string(), "a".to_string(), "b".to_string(), "c".to_string()];
    assert_eq!(History::take_last(&no_sep), Err(RevertError::Malformed));
}

#[test]
fn revert_after_one_write_restores_record() {
    let mut log: Vec<String> = Vec::new();
    let h = record("20250101000000", "/home/u/a.txt", "/trash/a.txt");
    History::write(&h, &mut log);
    assert_eq!(log.len(), 4);
    let (back, rest) = History::take_last(&log).unwrap();
    assert_eq!(back, h);
    assert!(rest.is_empty());
}

#[test]
fn two_reverts_come_back_in_reverse_order() {
    let mut log: Vec<String> = Vec::new();
    let first = record("20250101000000", "/src1/a.txt", "/trash/a.txt");
    let second = record("20250101000001", "/src2/a.txt", "/trash/a.20250101000001.txt");
    History::write(&first, &mut log);
    History::write(&second, &mut log);
    let (r1, rest) = History::take_last(&log).unwrap();
    assert_eq!(r1, second);
    let (r2, rest) = History::take_last(&rest).unwrap();
    assert_eq!(r2, first);
    assert_eq!(History::take_last(&rest), Err(RevertError::EmptyLog));
}

#[test]
fn revert_caps_the_log() {
    let mut log: Vec<String> = Vec::new();
    for i in 0..50 {
        let h = record(&format!("{:014}", i), &format!("/src/{}", i), &format!("/trash/{}", i));
        History::write(&h, &mut log);
    }
    let (last, rest) = History::take_last(&log).unwrap();
    assert_eq!(last.metadata.file_path, "/src/49");
    assert_eq!(rest.len(), MAX_LOG_LINES);
    assert_eq!(rest[0], format!("{:014}", 9));
    assert_eq!(rest[rest.len() - 3], "/src/48");
}

#[test]
fn revert_step_cases() {
    assert_eq!(History::revert_step(true, true), RevertStep::MoveBack);
    assert_eq!(History::revert_step(false, true), RevertStep::TrashCopyMissing);
    assert_eq!(History::revert_step(true, false), RevertStep::OriginalOccupied);
    // A record whose trashed copy is gone is dropped even when the original
    // path is occupied.
    assert_eq!(History::revert_step(false, false), RevertStep::TrashCopyMissing);
}

#[test]
fn log_id_as_number() {
    assert_eq!(LogId("20241112214434".to_string()).number(), Some(20241112214434));
    assert_eq!(LogId("0".to_string()).number(), Some(0));
    assert_eq!(LogId("18446744073709551615".to_string()).number(), Some(u64::MAX));
    assert_eq!(LogId("18446744073709551616".to_string()).number(), None);
    assert_eq!(LogId("".to_string()).number(), None);
    assert_eq!(LogId("12a4".to_string()).number(), None);
    assert_eq!(LogId(" 12".to_string()).number(), None);
}

#[test]
fn trash_log_accessors() {
    let mut t = TrashLog::new(LogId("1".to_string()), "/a".to_string(), "/b".to_string());
    assert_eq!(t.id(), &LogId("1".to_string()));
    t.set_id(LogId("2".to_string()));
    t.set_from("/c".to_string());
    t.set_to("/d".to_string());
    assert_eq!(t.id(), &LogId("2".to_string()));
    assert_eq!(t.from(), "/c");
    assert_eq!(t.to(), "/d");
}
