use roxide::guards::{crosses_devices, is_privileged_status, is_root_path};

#[test]
fn root_paths() {
    assert!(is_root_path("/"));
    assert!(is_root_path("//"));
    assert!(is_root_path("/."));
    assert!(is_root_path("/./"));
    assert!(!is_root_path("/.."));
    assert!(!is_root_path("/home"));
    assert!(!is_root_path("."));
    assert!(!is_root_path(""));
    assert!(!is_root_path("/.x"));
}

#[test]
fn privileged_status_lines() {
    let root = "Name:\tbash\nUmask:\t0022\nUid:\t0\t0\t0\t0\nGid:\t0\t0\t0\t0\n";
    let user = "Name:\tbash\nUid:\t1000\t1000\t1000\t1000\nGid:\t1000\n";
    assert!(is_privileged_status(root));
    assert!(!is_privileged_status(user));
    assert!(!is_privileged_status(""));
    assert!(!is_privileged_status("Name:\tx\n"));
    assert!(!is_privileged_status("Uid:\t00\t0\n"));
    assert!(is_privileged_status("Uid: 0"));
}

#[test]
fn device_guard() {
    assert!(crosses_devices(1, 2));
    assert!(!crosses_devices(7, 7));
}

#[test]
fn glob_wild_card() {
    println!("test");
}
