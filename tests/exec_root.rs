use rustfmt_lib::exec_root::{check_exec_root, ExecRootError};

fn names(list: &[&str]) -> Vec<String> {
    list.iter().map(|s| s.to_string()).collect()
}

#[test]
fn exec_root_exact_entries_pass() {
    let entries = names(&["build_script_", "root_file.txt", "bazel-out", "external"]);
    assert!(check_exec_root(&entries, "build_script_").is_ok());
}

#[test]
fn exec_root_order_does_not_matter() {
    let entries = names(&["external", "bazel-out", "build_script_", "root_file.txt"]);
    assert!(check_exec_root(&entries, "build_script_").is_ok());
}

#[test]
fn exec_root_extra_entries_reported() {
    let entries = names(&[
        "build_script_",
        "Cargo.toml",
        "root_file.txt",
        "bazel-out",
        "external",
        "src",
    ]);
    match check_exec_root(&entries, "build_script_") {
        Err(ExecRootError::Unexpected(extra)) => assert_eq!(extra, vec!["Cargo.toml", "src"]),
        other => panic!("unexpected result: {:?}", other),
    }
}

#[test]
fn exec_root_missing_script() {
    let entries = names(&["root_file.txt", "bazel-out", "external"]);
    match check_exec_root(&entries, "build_script_") {
        Err(ExecRootError::Missing(name)) => assert_eq!(name, "build_script_"),
        other => panic!("unexpected result: {:?}", other),
    }
}

#[test]
fn exec_root_missing_sentinel_reported_first() {
    let entries = names(&["build_script_", "extra"]);
    match check_exec_root(&entries, "build_script_") {
        Err(ExecRootError::Missing(name)) => assert_eq!(name, "root_file.txt"),
        other => panic!("unexpected result: {:?}", other),
    }
}

#[test]
fn exec_root_missing_external() {
    let entries = names(&["build_script_", "root_file.txt", "bazel-out"]);
    match check_exec_root(&entries, "build_script_") {
        Err(ExecRootError::Missing(name)) => assert_eq!(name, "external"),
        other => panic!("unexpected result: {:?}", other),
    }
}

#[test]
fn exec_root_script_named_like_fixed_entry() {
    let entries = names(&["root_file.txt", "bazel-out", "external"]);
    match check_exec_root(&entries, "external") {
        Err(ExecRootError::Missing(name)) => assert_eq!(name, "external"),
        other => panic!("unexpected result: {:?}", other),
    }
}

#[test]
fn exec_root_empty_directory() {
    match check_exec_root(&Vec::new(), "build_script_") {
        Err(ExecRootError::Missing(name)) => assert_eq!(name, "build_script_"),
        other => panic!("unexpected result: {:?}", other),
    }
}
