use repo_import::classify::is_crate_lib;
use repo_import::classify::is_library_targets;
use repo_import::locator::choose_depth_window;
use repo_import::locator::exists_cargo_toml;
use repo_import::locator::filter_manifest_entries;
use repo_import::locator::WalkEntry;

#[test]
fn depth_window_with_root_manifest() {
    assert_eq!(choose_depth_window(true), (1, 2));
}

#[test]
fn depth_window_without_root_manifest() {
    assert_eq!(choose_depth_window(false), (2, 3));
}

#[test]
fn root_manifest_detected() {
    let names = vec![
        String::from("README.md"),
        String::from("Cargo.toml"),
        String::from("LICENSE"),
    ];
    assert!(exists_cargo_toml(&names));
}

#[test]
fn root_manifest_absent() {
    let names = vec![String::from("README.md"), String::from("cargo.toml")];
    assert!(!exists_cargo_toml(&names));
}

#[test]
fn empty_root_listing_has_no_manifest() {
    let names: Vec<String> = vec![];
    assert!(!exists_cargo_toml(&names));
}

#[test]
fn filter_keeps_only_manifest_entries() {
    let entries = vec![
        WalkEntry {
            path: String::from("repo/a/Cargo.toml"),
            file_name: String::from("Cargo.toml"),
        },
        WalkEntry {
            path: String::from("repo/a/src"),
            file_name: String::from("src"),
        },
        WalkEntry {
            path: String::from("repo/b/Cargo.toml"),
            file_name: String::from("Cargo.toml"),
        },
        WalkEntry {
            path: String::from("repo/b/Cargo.lock"),
            file_name: String::from("Cargo.lock"),
        },
    ];
    let paths = filter_manifest_entries(&entries);
    assert_eq!(
        paths,
        vec![
            String::from("repo/a/Cargo.toml"),
            String::from("repo/b/Cargo.toml"),
        ]
    );
}

#[test]
fn metadata_failure_is_reported() {
    let verdict = is_crate_lib("/nonexistent/repository/Cargo.toml");
    match verdict {
        Ok(_) => panic!("expected the metadata query to fail"),
        Err(e) => assert!(!e.message.is_empty()),
    }
}

#[test]
fn bin_target_is_application() {
    let targets = vec![vec![String::from("bin")]];
    assert!(!is_library_targets(&targets));
}

#[test]
fn mixed_lib_and_bin_is_application() {
    let targets = vec![vec![String::from("lib"), String::from("bin")]];
    assert!(!is_library_targets(&targets));
}

#[test]
fn separate_lib_and_bin_targets_is_application() {
    let targets = vec![vec![String::from("lib")], vec![String::from("bin")]];
    assert!(!is_library_targets(&targets));
}

#[test]
fn lib_only_is_library() {
    let targets = vec![vec![String::from("lib")]];
    assert!(is_library_targets(&targets));
}

#[test]
fn no_targets_is_library() {
    let targets: Vec<Vec<String>> = vec![];
    assert!(is_library_targets(&targets));
}

#[test]
fn non_bin_kinds_are_library() {
    let targets = vec![
        vec![String::from("cdylib"), String::from("rlib")],
        vec![String::from("test")],
        vec![String::from("example")],
    ];
    assert!(is_library_targets(&targets));
}
