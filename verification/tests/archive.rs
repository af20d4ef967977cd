use package_installer::archive::{
    confine_entry, ends_in_separator, place_entry, resolve_entry, EntryAction, EntryHeader,
    EntryKind, EntryTarget,
};
use package_installer::failure::EntryRejection;

fn header(name: &str, enclosed: Option<&str>, directory_flag: bool) -> EntryHeader {
    EntryHeader {
        name: String::from(name),
        enclosed_name: enclosed.map(String::from),
        directory_flag,
    }
}

#[test]
fn separator_at_the_end_names_a_directory() {
    assert!(ends_in_separator("docs/"));
    assert!(ends_in_separator("/"));
    assert!(!ends_in_separator("docs"));
    assert!(!ends_in_separator("docs/readme.txt"));
    assert!(!ends_in_separator(""));
    assert!(!ends_in_separator("docs/\u{e9}"));
    assert!(ends_in_separator("\u{e9}t\u{e9}/"));
}

#[test]
fn well_formed_file_entry_is_accepted() {
    let got = resolve_entry(header("bin/app.exe", Some("bin/app.exe"), false));
    assert_eq!(
        got,
        Ok(EntryTarget {
            name: String::from("bin/app.exe"),
            relative_path: String::from("bin/app.exe"),
            kind: EntryKind::File,
        })
    );
}

#[test]
fn entry_with_trailing_separator_is_a_directory() {
    let got = resolve_entry(header("bin/", Some("bin"), false)).unwrap();
    assert_eq!(got.kind, EntryKind::Directory);
    assert_eq!(got.relative_path, "bin");
}

#[test]
fn entry_marked_as_directory_is_a_directory() {
    let got = resolve_entry(header("bin", Some("bin"), true)).unwrap();
    assert_eq!(got.kind, EntryKind::Directory);
}

#[test]
fn entry_without_enclosed_name_is_invalid() {
    let got = resolve_entry(header("../../etc/passwd", None, false));
    assert_eq!(
        got,
        Err(EntryRejection::InvalidArchiveEntry { name: String::from("../../etc/passwd") })
    );
    let absolute = resolve_entry(header("/etc/passwd", None, true));
    assert_eq!(
        absolute,
        Err(EntryRejection::InvalidArchiveEntry { name: String::from("/etc/passwd") })
    );
}

#[test]
fn entry_outside_the_target_is_a_traversal() {
    let target = resolve_entry(header("link/evil.txt", Some("link/evil.txt"), false)).unwrap();
    assert_eq!(
        place_entry(target, false),
        Err(EntryRejection::PathTraversal { name: String::from("link/evil.txt") })
    );
    let dir = resolve_entry(header("link/sub/", Some("link/sub"), false)).unwrap();
    assert_eq!(
        place_entry(dir, false),
        Err(EntryRejection::PathTraversal { name: String::from("link/sub/") })
    );
}

#[test]
fn confined_file_is_written() {
    let target = resolve_entry(header("bin/app.exe", Some("bin/app.exe"), false)).unwrap();
    assert_eq!(
        place_entry(target, true),
        Ok(EntryAction::WriteFile { relative_path: String::from("bin/app.exe") })
    );
}

#[test]
fn confined_directory_is_created() {
    let target = resolve_entry(header("bin/", Some("bin"), false)).unwrap();
    assert_eq!(
        place_entry(target, true),
        Ok(EntryAction::CreateDirectory { relative_path: String::from("bin") })
    );
}

#[test]
fn every_entry_of_a_well_formed_archive_gets_its_own_place() {
    let entries = [
        ("readme.txt", "readme.txt", false),
        ("bin/", "bin", true),
        ("bin/app.exe", "bin/app.exe", false),
        ("data/a/b/c.bin", "data/a/b/c.bin", false),
    ];
    let mut written: Vec<String> = Vec::new();
    let mut created: Vec<String> = Vec::new();
    for (name, enclosed, flag) in entries {
        let target = resolve_entry(header(name, Some(enclosed), flag)).unwrap();
        match place_entry(target, true).unwrap() {
            EntryAction::WriteFile { relative_path } => written.push(relative_path),
            EntryAction::CreateDirectory { relative_path } => created.push(relative_path),
        }
    }
    assert_eq!(written, vec!["readme.txt", "bin/app.exe", "data/a/b/c.bin"]);
    assert_eq!(created, vec!["bin"]);
}

#[test]
fn parent_under_the_target_is_confined() {
    let target = resolve_entry(header("bin/app.exe", Some("bin/app.exe"), false)).unwrap();
    assert_eq!(
        confine_entry(target, "/opt/demo/bin", "/opt/demo"),
        Ok(EntryAction::WriteFile { relative_path: String::from("bin/app.exe") })
    );
}

#[test]
fn target_itself_is_confined() {
    let target = resolve_entry(header("readme.txt", Some("readme.txt"), false)).unwrap();
    assert_eq!(
        confine_entry(target, "/opt/demo", "/opt/demo"),
        Ok(EntryAction::WriteFile { relative_path: String::from("readme.txt") })
    );
    let dir = resolve_entry(header("docs/", Some("docs"), false)).unwrap();
    assert_eq!(
        confine_entry(dir, "/opt/demo", "/opt/demo/"),
        Ok(EntryAction::CreateDirectory { relative_path: String::from("docs") })
    );
}

#[test]
fn parent_beside_the_target_is_a_traversal() {
    let target = resolve_entry(header("link/evil.txt", Some("link/evil.txt"), false)).unwrap();
    assert_eq!(
        confine_entry(target, "/etc", "/opt/demo"),
        Err(EntryRejection::PathTraversal { name: String::from("link/evil.txt") })
    );
}

#[test]
fn parent_above_the_target_is_a_traversal() {
    let target = resolve_entry(header("up/evil.txt", Some("up/evil.txt"), false)).unwrap();
    assert_eq!(
        confine_entry(target, "/opt", "/opt/demo"),
        Err(EntryRejection::PathTraversal { name: String::from("up/evil.txt") })
    );
}

#[test]
fn containment_goes_by_whole_components() {
    let target = resolve_entry(header("x/evil.txt", Some("x/evil.txt"), false)).unwrap();
    assert_eq!(
        confine_entry(target, "/opt/demolition/x", "/opt/demo"),
        Err(EntryRejection::PathTraversal { name: String::from("x/evil.txt") })
    );
}
