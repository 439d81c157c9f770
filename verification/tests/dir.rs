use nrv_rs::dir::{
    ensure, list, remove_empty, DirEntry, DirError, DirOutcome, FoundEntry, ListOptions, Removal,
};

fn file(path: &str) -> FoundEntry {
    FoundEntry { path: path.into(), is_dir: false, is_file: true, is_symlink: false }
}

fn dir(path: &str) -> FoundEntry {
    FoundEntry { path: path.into(), is_dir: true, is_file: false, is_symlink: false }
}

fn link(path: &str) -> FoundEntry {
    FoundEntry { path: path.into(), is_dir: false, is_file: false, is_symlink: true }
}

fn paths(entries: &[DirEntry]) -> Vec<&str> {
    entries.iter().map(|entry| entry.path.as_str()).collect()
}

#[test]
fn ensure_and_list_directory() {
    let outcome = ensure("tmp/nested".into(), false, false).expect("ensure");
    assert!(outcome.created);

    let entries = list(ListOptions::default(), vec![file("tmp/nested/file.txt")]);
    assert_eq!(entries.len(), 1);
    assert_eq!(entries[0].path, "tmp/nested/file.txt");
    assert!(!entries[0].is_dir);

    remove_empty("tmp/nested".into(), Removal::NotEmpty).expect_err("not empty");
    remove_empty("tmp/nested".into(), Removal::Removed).expect("remove_empty");
}

#[test]
fn module_is_named_dir() {
    assert_eq!(nrv_rs::dir::module_name(), "dir");
}

#[test]
fn ensure_leaves_an_existing_directory_alone() {
    assert_eq!(ensure("d".into(), true, true), Ok(DirOutcome { created: false }));
    assert_eq!(ensure("d".into(), false, true), Ok(DirOutcome { created: true }));
}

#[test]
fn ensure_refuses_what_is_not_a_directory() {
    assert_eq!(ensure("f".into(), true, false), Err(DirError::NotDirectory { path: "f".into() }));
}

#[test]
fn listing_keeps_everything_by_default() {
    let found = vec![file("a"), dir("b"), link("c"), file("d")];
    let entries = list(ListOptions::default(), found);
    assert_eq!(paths(&entries), vec!["a", "b", "c", "d"]);
    assert_eq!(
        entries[2],
        DirEntry { path: "c".into(), is_dir: false, is_symlink: true }
    );
    let both = ListOptions { include_files: true, include_directories: true, follow_symlinks: false };
    assert_eq!(list(both, vec![file("a"), dir("b")]).len(), 2);
}

#[test]
fn listing_filters_by_kind_and_keeps_the_order() {
    let found = || vec![dir("z"), file("y"), link("x"), dir("w"), file("v")];
    let files = ListOptions { include_files: true, include_directories: false, follow_symlinks: false };
    assert_eq!(paths(&list(files, found())), vec!["y", "x", "v"]);
    let dirs = ListOptions { include_files: false, include_directories: true, follow_symlinks: true };
    let kept = list(dirs, found());
    assert_eq!(paths(&kept), vec!["z", "x", "w"]);
    assert!(kept[0].is_dir);
    assert!(list(files, vec![]).is_empty());
}

#[test]
fn removing_a_missing_directory_counts_as_removed() {
    assert_eq!(remove_empty("d".into(), Removal::NotFound), Ok(()));
    assert_eq!(remove_empty("d".into(), Removal::Removed), Ok(()));
}

#[test]
fn removal_failures_are_told_apart() {
    assert_eq!(
        remove_empty("d".into(), Removal::NotEmpty),
        Err(DirError::NotEmpty { path: "d".into() })
    );
    assert_eq!(
        remove_empty("d".into(), Removal::Failed("busy".into())),
        Err(DirError::Io { operation: "remove_dir", path: "d".into(), source: "busy".into() })
    );
}
