use bloginator::{
    assert_exists, assert_is_dir, assert_is_file, check_exists, check_is_dir, check_is_file,
    clear_entry_action, clearing_decision, confirms_clearing, is_build_marker, ClearDecision,
    EntryAction, EntryKind, FsError, PathStatus, BUILD_MARKER,
};

fn resolved<T>(canonical: &str, probe: Result<T, String>) -> PathStatus<T> {
    PathStatus::Resolved {
        canonical: canonical.to_string(),
        probe,
    }
}

#[test]
fn marker_is_recognised() {
    assert_eq!(BUILD_MARKER, ".build-folder");
    assert!(is_build_marker(".build-folder"));
    assert!(!is_build_marker(".build-folder2"));
    assert!(!is_build_marker("build-folder"));
    assert!(!is_build_marker("index.html"));
    assert!(!is_build_marker(""));
}

#[test]
fn confirmation_answers() {
    assert!(confirms_clearing("y"));
    assert!(confirms_clearing("Y\n"));
    assert!(confirms_clearing("  y \t\r\n"));
    assert!(confirms_clearing("\u{3000}y\u{a0}"));
    assert!(!confirms_clearing("yes"));
    assert!(!confirms_clearing("n"));
    assert!(!confirms_clearing(""));
    assert!(!confirms_clearing("\n"));
    assert!(!confirms_clearing("y y"));
    assert!(!confirms_clearing("yy"));
}

#[test]
fn confirmation_agrees_with_trim_and_lowercase() {
    for answer in ["y", "Y", " y\n", "N", "yes", "", "ÿ", "\u{2003}Y\u{2028}", "y.", "\u{200b}y"] {
        let expected = answer.trim().to_lowercase() == "y";
        assert_eq!(confirms_clearing(answer), expected, "answer {:?}", answer);
    }
}

#[test]
fn check_exists_outcomes() {
    assert!(check_exists("a", &resolved("/abs/a", Ok(true))).is_ok());
    assert!(check_exists("a", &resolved("/abs/a", Ok(false))).is_ok());
    match check_exists("a", &PathStatus::NotFound) {
        Err(FsError::Missing { path }) => assert_eq!(path, "a"),
        _ => panic!("expected Missing"),
    }
    match check_exists("a", &PathStatus::Unresolvable("denied".to_string())) {
        Err(FsError::Unresolvable { path, reason }) => {
            assert_eq!(path, "a");
            assert_eq!(reason, "denied");
        }
        _ => panic!("expected Unresolvable"),
    }
    match check_exists("a", &resolved("/abs/a", Err("io".to_string()))) {
        Err(FsError::ExistsCheck { path, reason }) => {
            assert_eq!(path, "/abs/a");
            assert_eq!(reason, "io");
        }
        _ => panic!("expected ExistsCheck"),
    }
}

#[test]
fn check_is_file_outcomes() {
    assert!(check_is_file("f", &resolved("/abs/f", Ok(EntryKind::File))).is_ok());
    match check_is_file("f", &resolved("/abs/f", Ok(EntryKind::Dir))) {
        Err(FsError::NotAFile { path }) => assert_eq!(path, "/abs/f"),
        _ => panic!("expected NotAFile"),
    }
    match check_is_file("f", &resolved("/abs/f", Ok(EntryKind::Other))) {
        Err(FsError::NotAFile { path }) => assert_eq!(path, "/abs/f"),
        _ => panic!("expected NotAFile"),
    }
    match check_is_file("f", &resolved("/abs/f", Err("gone".to_string()))) {
        Err(FsError::Metadata { path, reason }) => {
            assert_eq!(path, "/abs/f");
            assert_eq!(reason, "gone");
        }
        _ => panic!("expected Metadata"),
    }
    match check_is_file("f", &PathStatus::NotFound) {
        Err(e) => assert_eq!(e.message(), "expected f to exist, but it does not"),
        Ok(()) => panic!("expected an error"),
    }
}

#[test]
fn check_is_dir_outcomes() {
    assert!(check_is_dir("d", &resolved("/abs/d", Ok(EntryKind::Dir))).is_ok());
    match check_is_dir("d", &resolved("/abs/d", Ok(EntryKind::File))) {
        Err(e) => assert_eq!(e.message(), "expected /abs/d to be a directory, but it is not"),
        Ok(()) => panic!("expected an error"),
    }
    match check_is_dir("d", &PathStatus::Unresolvable("bad".to_string())) {
        Err(e) => assert_eq!(e.message(), "failed to evaluate path d: bad"),
        Ok(()) => panic!("expected an error"),
    }
    match check_is_dir("d", &resolved("/abs/d", Err("gone".to_string()))) {
        Err(e) => assert_eq!(e.message(), "failed to retrieve metadata for /abs/d: gone"),
        Ok(()) => panic!("expected an error"),
    }
}

fn s(x: &str) -> String {
    x.to_string()
}

#[test]
fn every_message() {
    let cases = vec![
        (FsError::ExistsCheck { path: s("p"), reason: s("r") }, "failed to check if p exists: r"),
        (FsError::Missing { path: s("p") }, "expected p to exist, but it does not"),
        (FsError::Unresolvable { path: s("p"), reason: s("r") }, "failed to evaluate path p: r"),
        (FsError::Metadata { path: s("p"), reason: s("r") }, "failed to retrieve metadata for p: r"),
        (FsError::DirEntry { path: s("p"), reason: s("r") }, "failed to access directory entry in p: r"),
        (FsError::ReadDir { path: s("p"), reason: s("r") }, "failed to read directory p: r"),
        (FsError::DeleteDir { path: s("p"), reason: s("r") }, "failed to delete directory p: r"),
        (FsError::DeleteFile { path: s("p"), reason: s("r") }, "failed to delete file p: r"),
        (FsError::ReadFile { path: s("p"), reason: s("r") }, "failed to read file p: r"),
        (FsError::WriteFile { path: s("p"), reason: s("r") }, "failed to write file p: r"),
        (FsError::CreateDir { path: s("p"), reason: s("r") }, "failed to create directory p: r"),
        (FsError::CreateFile { path: s("p"), reason: s("r") }, "failed to create file p: r"),
        (FsError::Copy { from: s("a"), to: s("b"), reason: s("r") }, "failed to move a to b: r"),
        (FsError::NotAFile { path: s("p") }, "expected p to be a file, but it is not"),
        (FsError::NotADir { path: s("p") }, "expected p to be a directory, but it is not"),
        (FsError::NoFileStem { path: s("p") }, "failed to obtain file prefix for p"),
        (FsError::NotUnicode { name: s("\"x\"") }, "failed to convert \"x\" to unicode"),
    ];
    for (e, expected) in cases {
        assert_eq!(e.message(), expected);
    }
}

#[test]
fn asserts_pass_on_passing_lookups() {
    let status = resolved("/abs/a", Ok(false));
    assert!(check_exists("a", &status).is_ok());
    assert_exists("a", &status);
    let file = resolved("/abs/f", Ok(EntryKind::File));
    assert!(check_is_file("f", &file).is_ok());
    assert_is_file("f", &file);
    let dir = resolved("/abs/d", Ok(EntryKind::Dir));
    assert!(check_is_dir("d", &dir).is_ok());
    assert_is_dir("d", &dir);
}

#[test]
fn clearing_decisions() {
    assert_eq!(clearing_decision(true, None), ClearDecision::Clear);
    assert_eq!(clearing_decision(true, Some("no")), ClearDecision::Clear);
    assert_eq!(clearing_decision(false, Some("y\n")), ClearDecision::MarkThenClear);
    assert_eq!(clearing_decision(false, Some(" Y ")), ClearDecision::MarkThenClear);
    assert_eq!(clearing_decision(false, Some("\n")), ClearDecision::Abort);
    assert_eq!(clearing_decision(false, Some("yes")), ClearDecision::Abort);
    assert_eq!(clearing_decision(false, None), ClearDecision::Abort);
}

#[test]
fn entry_actions() {
    assert_eq!(clear_entry_action(".build-folder", EntryKind::File), EntryAction::Keep);
    assert_eq!(clear_entry_action(".build-folder", EntryKind::Dir), EntryAction::Keep);
    assert_eq!(clear_entry_action("assets", EntryKind::Dir), EntryAction::RemoveDir);
    assert_eq!(clear_entry_action("index.html", EntryKind::File), EntryAction::RemoveFile);
    assert_eq!(clear_entry_action("socket", EntryKind::Other), EntryAction::RemoveFile);
}
