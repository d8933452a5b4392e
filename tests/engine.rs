use roxide::config::{Config, Settings};
use roxide::dedup::{content_digest, digests_match, same_content};
use roxide::engine::{
    after_move, empty_dir_precheck, empty_dir_result, plan_removal, AfterMove, DirRemoval, Fallback,
    ItemFacts, MoveResult, Plan,
};
use roxide::error::RoxError;
use roxide::naming::Trash;
use roxide::policy::{prompts_once, route_item, InteractiveMode, ONCE_THRESHOLD};
use roxide::remove::{Intractive, Remover};

fn facts(privileged: bool, item_device: u64, dedup: bool, identical: bool) -> ItemFacts {
    ItemFacts { privileged, item_device, trash_device: 1, dedup_enabled: dedup, identical_in_trash: identical }
}

#[test]
fn root_aborts_before_anything_else() {
    assert_eq!(plan_removal("/", &facts(true, 9, true, true)), Plan::Abort(RoxError::IsRoot("/".to_string())));
}

#[test]
fn privileged_and_cross_device_ask_for_permanent_delete() {
    assert_eq!(plan_removal("/a", &facts(true, 1, false, false)), Plan::ConfirmPermanentDelete(Fallback::Privileged));
    assert_eq!(plan_removal("/a", &facts(false, 2, false, false)), Plan::ConfirmPermanentDelete(Fallback::CrossesDevices));
}

#[test]
fn duplicate_and_plain_move() {
    assert_eq!(plan_removal("/a", &facts(false, 1, true, true)), Plan::DeleteDuplicate);
    assert_eq!(plan_removal("/a", &facts(false, 1, false, true)), Plan::MoveToTrash);
    assert_eq!(plan_removal("/a", &facts(false, 1, true, false)), Plan::MoveToTrash);
}

#[test]
fn after_move_cases() {
    assert_eq!(after_move("/a", MoveResult::Moved, false), AfterMove::Record);
    assert_eq!(after_move("/a", MoveResult::Moved, true), AfterMove::Done);
    assert_eq!(
        after_move("/a", MoveResult::PermissionDenied, false),
        AfterMove::Report(RoxError::PermissionDenied("/a".to_string()))
    );
    assert_eq!(after_move("/a", MoveResult::OtherError, false), AfterMove::ConfirmPermanentDelete(Fallback::MoveFailed));
}

#[test]
fn empty_dir_with_a_file_is_not_empty() {
    assert_eq!(empty_dir_precheck("d", true, true), Ok(()));
    assert_eq!(empty_dir_result("d", DirRemoval::NotEmpty), Err(RoxError::DirectoryNotEmpty("d".to_string())));
}

#[test]
fn empty_dir_other_reports() {
    assert_eq!(empty_dir_precheck("d", false, false), Err(RoxError::NoSuchFile("d".to_string())));
    assert_eq!(empty_dir_precheck("f", true, false), Err(RoxError::NotADirectory("f".to_string())));
    assert_eq!(empty_dir_result("d", DirRemoval::Removed), Ok(()));
    assert_eq!(empty_dir_result("d", DirRemoval::OtherError), Err(RoxError::IoError("d".to_string())));
}

#[test]
fn sha256_of_known_input() {
    let d = content_digest(b"abc");
    let hex: String = d.iter().map(|b| format!("{:02x}", b)).collect();
    assert_eq!(hex, "ba7816bf8f01cfea414140de5dae2223b00361a396177a9cb410ff61f20015ad");
}

#[test]
fn content_comparison() {
    assert!(same_content(b"hello", b"hello"));
    assert!(!same_content(b"hello", b"hellp"));
    assert!(digests_match(&vec![1, 2], &vec![1, 2]));
    assert!(!digests_match(&vec![1, 2], &vec![1]));
    let t = Trash { file: "a.txt".to_string() };
    assert!(t.compute_sha256(true, b"x", Some(&b"x"[..])));
    assert!(!t.compute_sha256(true, b"x", None));
    assert!(!t.compute_sha256(false, b"x", Some(&b"x"[..])));
    assert!(!t.compute_sha256(true, b"x", Some(&b"y"[..])));
}

#[test]
fn once_prompt_threshold() {
    assert_eq!(ONCE_THRESHOLD, 3);
    assert!(!prompts_once(Some(InteractiveMode::Once), 3, false));
    assert!(prompts_once(Some(InteractiveMode::Once), 4, false));
    assert!(prompts_once(Some(InteractiveMode::Once), 1, true));
    assert!(!prompts_once(Some(InteractiveMode::Always), 10, true));
    assert!(!prompts_once(None, 10, true));
}

#[test]
fn item_routes() {
    let r = route_item(Some(InteractiveMode::Always), true);
    assert!(r.ask_first && r.empty_dir_removal);
    let r = route_item(Some(InteractiveMode::Once), false);
    assert!(!r.ask_first && !r.empty_dir_removal);
    assert!(!route_item(None, false).ask_first);
    assert!(InteractiveMode::Never.is_never());
    assert!(InteractiveMode::Once.is_once());
    assert!(InteractiveMode::Always.is_always());
}

#[test]
fn config_hash_flag() {
    let on = Settings { check_sha256: Some(true), new_check_sha256: false };
    let absent = Settings { check_sha256: None, new_check_sha256: false };
    assert!(on.verify_hash());
    assert!(!absent.verify_hash());
    assert!(!Config::fallback().settings.verify_hash());
}

#[test]
fn remover_options() {
    let mut r = Remover::new();
    assert!(r.intractive.is_never());
    assert_eq!(Intractive::default(), Intractive::Never);
    r.set_paths(vec!["a".to_string()]);
    r.set_force(true);
    r.set_recursive(true);
    r.set_dir(true);
    r.set_verbose(true);
    r.set_intractive(Intractive::Always);
    r.set_one_file_system(true);
    r.set_no_preserve_root(true);
    r.set_preserve_root(true);
    assert_eq!(r.paths, vec!["a".to_string()]);
    assert!(r.force && r.recursive && r.dir && r.verbose);
    assert!(r.intractive.is_always() && !r.intractive.is_once());
    assert!(r.one_file_system && r.no_preserve_root && r.preserve_root);
}
