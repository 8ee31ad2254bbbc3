use std::path::PathBuf;

use rustfmt_lib::config::config_from_lookups;
use rustfmt_lib::{parse_rustfmt_config, Locator, Lookup, RustfmtError};

fn manifest_locator(content: &str) -> Locator {
    let runfiles = runfiles::Runfiles::builder().manifest(content).build().unwrap();
    Locator::new(runfiles, String::from("main"))
}

#[test]
fn qualify_prefixes_repository() {
    let locator = manifest_locator("");
    assert_eq!(locator.qualify("tools/rustfmt"), "main/tools/rustfmt");
}

#[test]
fn config_found_when_both_exist() {
    let locator = manifest_locator("main/rustfmt /\nmain/rustfmt.toml /\n");
    let c = parse_rustfmt_config(&locator, "rustfmt", "rustfmt.toml").unwrap();
    assert_eq!(c.rustfmt, PathBuf::from("/"));
    assert_eq!(c.config, PathBuf::from("/"));
}

#[test]
fn config_missing_binary_fails() {
    let runfiles = runfiles::Runfiles::builder()
        .directory("/nonexistent_runfiles_root")
        .build()
        .unwrap();
    let locator = Locator::new(runfiles, String::from("main"));
    match parse_rustfmt_config(&locator, "rustfmt", "rustfmt.toml") {
        Err(RustfmtError::RustfmtNotFound(p)) => {
            assert_eq!(p, PathBuf::from("/nonexistent_runfiles_root/main/rustfmt"))
        }
        other => panic!("unexpected result: {:?}", other),
    }
}

#[test]
fn config_missing_config_file_fails() {
    let locator =
        manifest_locator("main/rustfmt /\nmain/rustfmt.toml /nonexistent_dir/rustfmt.toml\n");
    match parse_rustfmt_config(&locator, "rustfmt", "rustfmt.toml") {
        Err(RustfmtError::ConfigNotFound(p)) => {
            assert_eq!(p, PathBuf::from("/nonexistent_dir/rustfmt.toml"))
        }
        other => panic!("unexpected result: {:?}", other),
    }
}

#[test]
fn config_unknown_binary_fails() {
    let locator = manifest_locator("main/rustfmt.toml /\n");
    match parse_rustfmt_config(&locator, "rustfmt", "rustfmt.toml") {
        Err(RustfmtError::Unresolved(q)) => assert_eq!(q, "main/rustfmt"),
        other => panic!("unexpected result: {:?}", other),
    }
}

#[test]
fn config_unknown_config_file_fails() {
    let locator = manifest_locator("main/rustfmt /\n");
    match parse_rustfmt_config(&locator, "rustfmt", "rustfmt.toml") {
        Err(RustfmtError::Unresolved(q)) => assert_eq!(q, "main/rustfmt.toml"),
        other => panic!("unexpected result: {:?}", other),
    }
}

#[test]
fn lookup_tells_present_absent_unknown() {
    let locator = manifest_locator("main/here /\nmain/gone /nonexistent_dir/gone\n");
    assert!(matches!(locator.lookup("here"), Lookup::Present(p) if p == PathBuf::from("/")));
    assert!(matches!(
        locator.lookup("gone"),
        Lookup::Absent(p) if p == PathBuf::from("/nonexistent_dir/gone")
    ));
    assert!(matches!(locator.lookup("nowhere"), Lookup::Unknown(q) if q == "main/nowhere"));
}

#[test]
fn lookups_checked_binary_first() {
    let r = config_from_lookups(
        Lookup::Absent(PathBuf::from("/x/rustfmt")),
        Lookup::Unknown(String::from("main/rustfmt.toml")),
    );
    assert!(matches!(r, Err(RustfmtError::RustfmtNotFound(p)) if p == PathBuf::from("/x/rustfmt")));
    let r = config_from_lookups(
        Lookup::Unknown(String::from("main/rustfmt")),
        Lookup::Absent(PathBuf::from("/x/rustfmt.toml")),
    );
    assert!(matches!(r, Err(RustfmtError::Unresolved(q)) if q == "main/rustfmt"));
}

#[test]
fn lookups_both_present() {
    let c = config_from_lookups(
        Lookup::Present(PathBuf::from("/x/rustfmt")),
        Lookup::Present(PathBuf::from("/x/rustfmt.toml")),
    )
    .unwrap();
    assert_eq!(c.rustfmt, PathBuf::from("/x/rustfmt"));
    assert_eq!(c.config, PathBuf::from("/x/rustfmt.toml"));
}

#[test]
fn lookups_config_absent() {
    let r = config_from_lookups(
        Lookup::Present(PathBuf::from("/x/rustfmt")),
        Lookup::Absent(PathBuf::from("/x/rustfmt.toml")),
    );
    assert!(matches!(r, Err(RustfmtError::ConfigNotFound(p)) if p == PathBuf::from("/x/rustfmt.toml")));
}

#[test]
fn lookup_found_tells_present_from_absent() {
    let p = PathBuf::from("/x/rustfmt");
    assert!(matches!(rustfmt_lib::locate::lookup_found(p.clone(), true), Lookup::Present(q) if q == p));
    assert!(matches!(rustfmt_lib::locate::lookup_found(p.clone(), false), Lookup::Absent(q) if q == p));
}
