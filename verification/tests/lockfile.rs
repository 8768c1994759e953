use cargo_gpu::lockfile::{
    ancestors, first_flag, handle_conflicting_cargo_lock_v4, handle_v3v4_conflict,
    lockfile_format, replace_cargo_lock_manifest_version, LockfileAction, LockfileEvent,
    LockfileFormat, LockfileMismatchError, LockfileMismatchHandler, LockfileRewrite,
    LockfileStage,
};
use cargo_gpu::version::Version;

const V4: &str = "# This file is automatically @generated by Cargo.\n# It is not intended for manual editing.\nversion = 4\n\n[[package]]\nname = \"shader\"\nversion = \"0.1.0\"\n";
const V3: &str = "# This file is automatically @generated by Cargo.\n# It is not intended for manual editing.\nversion = 3\n\n[[package]]\nname = \"shader\"\nversion = \"0.1.0\"\n";

fn third_line(contents: &str) -> &str {
    contents.lines().nth(2).unwrap()
}

fn old_rust() -> LockfileEvent {
    LockfileEvent::RustVersion(Ok(Version::new(1, 82, 0)))
}

fn new_rust() -> LockfileEvent {
    LockfileEvent::RustVersion(Ok(Version::new(1, 83, 0)))
}

fn read(contents: &str) -> LockfileEvent {
    LockfileEvent::Read(Ok(Some(contents.to_owned())))
}

/// Runs the handler up to the point where the lockfile of the shader crate has
/// been asked for, for the compiler in use.
fn up_to_shader_lock(force: bool) -> LockfileMismatchHandler {
    let handler = LockfileMismatchHandler::new("/work/shader", "nightly-2024-04-24", force);
    assert_eq!(handler.stage, LockfileStage::Start);
    assert!(handler.cargo_lock_files_with_changed_manifest_versions.is_empty());
    let (handler, action) = handler.advance(LockfileEvent::Begin);
    assert_eq!(action, LockfileAction::QueryRustVersion(None));
    let (handler, action) = handler.advance(old_rust());
    assert_eq!(action, LockfileAction::ReadFile("/work/shader/Cargo.lock".to_owned()));
    handler
}

#[test]
fn format_is_read_off_the_third_line() {
    assert_eq!(lockfile_format(V4), Ok(LockfileFormat::New));
    assert_eq!(lockfile_format(V3), Ok(LockfileFormat::Old));
    assert_eq!(lockfile_format("a\nb\n  version = 3 # old\n"), Ok(LockfileFormat::Old));
    assert_eq!(lockfile_format("a\nb\nversion = 4"), Ok(LockfileFormat::New));
    assert_eq!(lockfile_format("a\r\nb\r\nversion = 4\r\n"), Ok(LockfileFormat::New));
    assert_eq!(lockfile_format("version = 4\nb\nc\n"), Err(Some("c".to_owned())));
    assert_eq!(lockfile_format("a\nb\nversion = 5\n"), Err(Some("version = 5".to_owned())));
    assert_eq!(lockfile_format("a\nb\n\nversion = 4\n"), Err(Some(String::new())));
}

#[test]
fn too_few_lines_whatever_the_flag() {
    for contents in ["", "version = 4", "version = 4\n", "a\nversion = 4", "a\nversion = 4\n"] {
        assert_eq!(lockfile_format(contents), Err(None));
        for force in [false, true] {
            assert_eq!(
                handle_conflicting_cargo_lock_v4("/w/Cargo.lock", contents, force),
                Err(LockfileMismatchError::TooFewLinesInLockfile {
                    file: "/w/Cargo.lock".to_owned()
                })
            );
            let handler = up_to_shader_lock(force);
            let (handler, action) = handler.advance(read(contents));
            assert_eq!(handler.stage, LockfileStage::Failed);
            assert_eq!(
                action,
                LockfileAction::Fail(LockfileMismatchError::TooFewLinesInLockfile {
                    file: "/work/shader/Cargo.lock".to_owned()
                })
            );
        }
    }
}

#[test]
fn verdicts() {
    assert_eq!(handle_conflicting_cargo_lock_v4("f", V3, false), Ok(None));
    assert_eq!(handle_conflicting_cargo_lock_v4("f", V3, true), Ok(None));
    assert_eq!(
        handle_conflicting_cargo_lock_v4("f", V4, false),
        Err(LockfileMismatchError::ConflictingVersions)
    );
    assert_eq!(handle_conflicting_cargo_lock_v4("f", V4, true), Ok(Some(V3.to_owned())));
    assert_eq!(
        handle_conflicting_cargo_lock_v4("f", "a\nb\nversion = 2\n", true),
        Err(LockfileMismatchError::UnrecognizedLockfileVersion {
            file: "f".to_owned(),
            version_line: "version = 2".to_owned()
        })
    );
    assert_eq!(handle_v3v4_conflict(V4, false), Err(LockfileMismatchError::ConflictingVersions));
    assert_eq!(handle_v3v4_conflict(V4, true), Ok(V3.to_owned()));
}

#[test]
fn replacement_is_of_the_whole_field() {
    assert_eq!(replace_cargo_lock_manifest_version(V4, "4", "3"), V3);
    assert_eq!(replace_cargo_lock_manifest_version(V3, "3", "4"), V4);
    assert_eq!(replace_cargo_lock_manifest_version(V3, "4", "3"), V3);
    // The version of a package is written with quotes and stays.
    let contents = "a\nb\nversion = 4\n\n[[package]]\nversion = \"4\"\n";
    assert_eq!(
        replace_cargo_lock_manifest_version(contents, "4", "3"),
        "a\nb\nversion = 3\n\n[[package]]\nversion = \"4\"\n"
    );
    // Without a line feed behind it the field is not found.
    assert_eq!(replace_cargo_lock_manifest_version("a\nb\nversion = 4", "4", "3"), "a\nb\nversion = 4");
    assert_eq!(
        replace_cargo_lock_manifest_version("a\r\nb\r\nversion = 4\r\n", "4", "3"),
        "a\r\nb\r\nversion = 4\r\n"
    );
    // Fields that share a line feed: only the first is found.
    assert_eq!(
        replace_cargo_lock_manifest_version("a\nversion = 4\nversion = 4\n", "4", "3"),
        "a\nversion = 3\nversion = 4\n"
    );
    assert_eq!(
        replace_cargo_lock_manifest_version("\nversion = 4\n\nversion = 4\n", "4", "3"),
        "\nversion = 3\n\nversion = 3\n"
    );
}

#[test]
fn conflict_without_leave_fails() {
    let handler = up_to_shader_lock(false);
    let (handler, action) = handler.advance(read(V4));
    assert_eq!(handler.stage, LockfileStage::Failed);
    assert_eq!(action, LockfileAction::Fail(LockfileMismatchError::ConflictingVersions));
    assert!(handler.cargo_lock_files_with_changed_manifest_versions.is_empty());
}

#[test]
fn conflict_with_leave_is_rewritten_and_put_back() {
    let handler = up_to_shader_lock(true);
    let (handler, action) = handler.advance(read(V4));
    let rewritten = match action {
        LockfileAction::WriteFile { file, contents } => {
            assert_eq!(file, "/work/shader/Cargo.lock");
            contents
        }
        other => panic!("unexpected action {other:?}"),
    };
    assert_eq!(third_line(&rewritten), "version = 3");
    assert_eq!(rewritten, V3);
    let (handler, action) = handler.advance(LockfileEvent::Written(Ok(())));
    assert_eq!(
        action,
        LockfileAction::QueryRustVersion(Some("nightly-2024-04-24".to_owned()))
    );
    assert_eq!(
        handler.cargo_lock_files_with_changed_manifest_versions,
        vec!["/work/shader/Cargo.lock"]
    );
    // The toolchain of the shader is as old: the lockfile, now of the old
    // format, stays, and no workspace is involved.
    let (handler, action) = handler.advance(old_rust());
    assert_eq!(action, LockfileAction::ReadFile("/work/shader/Cargo.lock".to_owned()));
    let (handler, action) = handler.advance(read(&rewritten));
    assert_eq!(action, LockfileAction::ReadFile("/work/shader/Cargo.toml".to_owned()));
    let (mut handler, action) = handler.advance(read("[package]\nname = \"shader\"\n"));
    assert_eq!(action, LockfileAction::Ready);
    assert_eq!(handler.stage, LockfileStage::Ready);

    // The build is over: the file is put back.
    let steps = handler.revert_cargo_lock_manifest_versions(&vec![Ok(rewritten)]);
    assert_eq!(steps.len(), 1);
    let rewrite = steps[0].clone().unwrap();
    assert_eq!(rewrite.file, "/work/shader/Cargo.lock");
    assert_eq!(third_line(&rewrite.contents), "version = 4");
    assert_eq!(rewrite.contents, V4);
    // The record stays as it is.
    assert_eq!(
        handler.cargo_lock_files_with_changed_manifest_versions,
        vec!["/work/shader/Cargo.lock"]
    );
    assert_eq!(handler.stage, LockfileStage::Ready);
}

#[test]
fn putting_back_nothing_asks_for_nothing() {
    let mut handler = LockfileMismatchHandler::new("/work/shader", "nightly", true);
    let before = handler.clone();
    assert!(handler.revert_cargo_lock_manifest_versions(&vec![]).is_empty());
    assert!(handler.revert_cargo_lock_manifest_versions(&vec![Ok(V3.to_owned())]).is_empty());
    assert_eq!(handler, before);
}

#[test]
fn new_compilers_need_no_check() {
    let handler = LockfileMismatchHandler::new("/work/shader", "nightly", false);
    let (handler, _) = handler.advance(LockfileEvent::Begin);
    let (handler, action) = handler.advance(new_rust());
    assert_eq!(action, LockfileAction::QueryRustVersion(Some("nightly".to_owned())));
    let (handler, action) = handler.advance(LockfileEvent::RustVersion(Ok(Version::new(2, 0, 0))));
    assert_eq!(action, LockfileAction::Ready);
    assert_eq!(handler.stage, LockfileStage::Ready);
    assert!(handler.cargo_lock_files_with_changed_manifest_versions.is_empty());
}

#[test]
fn a_nightly_of_the_threshold_is_older_than_its_release() {
    let nightly = Version {
        major: 1,
        minor: 83,
        patch: 0,
        pre: "nightly".to_owned(),
        build: String::new(),
    };
    assert!(!nightly.at_least(1, 83, 0));
    assert!(nightly.at_least(1, 82, 9));
    assert!(Version::new(1, 83, 0).at_least(1, 83, 0));
    assert!(Version::new(1, 83, 1).at_least(1, 83, 0));
    assert!(Version::new(1, 100, 0).at_least(1, 83, 0));
    assert!(Version::new(2, 0, 0).at_least(1, 83, 0));
    assert!(!Version::new(1, 82, 9).at_least(1, 83, 0));
    assert!(!Version::new(0, 99, 0).at_least(1, 83, 0));
    let handler = LockfileMismatchHandler::new("/work/shader", "nightly", false);
    let (handler, _) = handler.advance(LockfileEvent::Begin);
    let (_, action) = handler.advance(LockfileEvent::RustVersion(Ok(nightly)));
    assert_eq!(action, LockfileAction::ReadFile("/work/shader/Cargo.lock".to_owned()));
}

#[test]
fn missing_shader_lock_is_passed_over() {
    let handler = up_to_shader_lock(false);
    let (handler, action) = handler.advance(LockfileEvent::Read(Ok(None)));
    assert_eq!(action, LockfileAction::QueryRustVersion(Some("nightly-2024-04-24".to_owned())));
    let (handler, _) = handler.advance(old_rust());
    let (_, action) = handler.advance(LockfileEvent::Read(Ok(None)));
    assert_eq!(action, LockfileAction::ReadFile("/work/shader/Cargo.toml".to_owned()));
}

#[test]
fn workspace_lock_is_rewritten_and_recorded() {
    let handler = LockfileMismatchHandler::new("/work/ws/crates/shader", "nightly", true);
    let (handler, _) = handler.advance(LockfileEvent::Begin);
    let (handler, _) = handler.advance(new_rust());
    let (handler, action) = handler.advance(old_rust());
    assert_eq!(action, LockfileAction::ReadFile("/work/ws/crates/shader/Cargo.lock".to_owned()));
    // The lockfile of the shader crate is corrected for good: not recorded.
    let (handler, action) = handler.advance(read(V4));
    assert_eq!(
        action,
        LockfileAction::WriteFile {
            file: "/work/ws/crates/shader/Cargo.lock".to_owned(),
            contents: V3.to_owned()
        }
    );
    let (handler, action) = handler.advance(LockfileEvent::Written(Ok(())));
    assert!(handler.cargo_lock_files_with_changed_manifest_versions.is_empty());
    assert_eq!(action, LockfileAction::ReadFile("/work/ws/crates/shader/Cargo.toml".to_owned()));
    let (handler, action) =
        handler.advance(read("[package]\nname = \"shader\"\nedition.workspace = true\n"));
    assert_eq!(
        action,
        LockfileAction::ProbeLockfiles(vec![
            "/work/ws/crates".to_owned(),
            "/work/ws".to_owned(),
            "/work".to_owned(),
            "/".to_owned(),
        ])
    );
    let (handler, action) = handler.advance(LockfileEvent::Probed(vec![false, true, true, false]));
    assert_eq!(handler.workspace_root, "/work/ws");
    assert_eq!(action, LockfileAction::ReadFile("/work/ws/Cargo.lock".to_owned()));
    let (handler, action) = handler.advance(read(V4));
    assert_eq!(
        action,
        LockfileAction::WriteFile { file: "/work/ws/Cargo.lock".to_owned(), contents: V3.to_owned() }
    );
    let (mut handler, action) = handler.advance(LockfileEvent::Written(Ok(())));
    assert_eq!(action, LockfileAction::Ready);
    assert_eq!(
        handler.cargo_lock_files_with_changed_manifest_versions,
        vec!["/work/ws/Cargo.lock"]
    );
    let steps = handler.revert_cargo_lock_manifest_versions(&vec![Err("gone".to_owned())]);
    assert_eq!(
        steps,
        vec![Err(LockfileMismatchError::ReadFile {
            file: "/work/ws/Cargo.lock".to_owned(),
            source: "gone".to_owned()
        })]
    );
}

#[test]
fn workspace_is_searched_only_where_the_manifest_refers_to_one() {
    let handler = LockfileMismatchHandler::new("/work/ws/shader", "nightly", false);
    let (handler, _) = handler.advance(LockfileEvent::Begin);
    let (handler, _) = handler.advance(new_rust());
    let (handler, _) = handler.advance(old_rust());
    let (handler, _) = handler.advance(read(V3));
    let (handler, action) = handler.advance(read("[workspace]\nmembers = []\n"));
    assert_eq!(action, LockfileAction::Ready);
    assert_eq!(handler.stage, LockfileStage::Ready);

    let handler = LockfileMismatchHandler::new("/work/ws/shader", "nightly", false);
    let (handler, _) = handler.advance(LockfileEvent::Begin);
    let (handler, _) = handler.advance(new_rust());
    let (handler, _) = handler.advance(old_rust());
    let (handler, _) = handler.advance(read(V3));
    let (handler, _) = handler.advance(read("version.workspace = true\n"));
    let (handler, action) = handler.advance(LockfileEvent::Probed(vec![false, false, false]));
    assert_eq!(action, LockfileAction::Ready);
    assert!(handler.cargo_lock_files_with_changed_manifest_versions.is_empty());
}

#[test]
fn failures_of_the_caller_are_reported() {
    let handler = LockfileMismatchHandler::new("/s", "nightly", true);
    let (handler, _) = handler.advance(LockfileEvent::Begin);
    let (handler, action) = handler.advance(LockfileEvent::RustVersion(Err("no rustc".to_owned())));
    assert_eq!(
        action,
        LockfileAction::Fail(LockfileMismatchError::QueryRustcVersion("no rustc".to_owned()))
    );
    assert_eq!(handler.stage, LockfileStage::Failed);
    let (_, action) = handler.advance(LockfileEvent::Begin);
    assert_eq!(action, LockfileAction::Fail(LockfileMismatchError::OutOfTurn));

    let handler = LockfileMismatchHandler::new("/s", "nightly", true);
    let (handler, _) = handler.advance(LockfileEvent::Begin);
    let (handler, _) = handler.advance(old_rust());
    let (_, action) = handler.advance(LockfileEvent::Read(Err("denied".to_owned())));
    assert_eq!(
        action,
        LockfileAction::Fail(LockfileMismatchError::ReadFile {
            file: "/s/Cargo.lock".to_owned(),
            source: "denied".to_owned()
        })
    );

    let handler = LockfileMismatchHandler::new("/s", "nightly", true);
    let (handler, _) = handler.advance(LockfileEvent::Begin);
    let (handler, _) = handler.advance(old_rust());
    let (handler, _) = handler.advance(read(V4));
    let (handler, action) = handler.advance(LockfileEvent::Written(Err("read-only".to_owned())));
    assert_eq!(
        action,
        LockfileAction::Fail(LockfileMismatchError::RewriteLockfile {
            file: "/s/Cargo.lock".to_owned(),
            from_version: "4".to_owned(),
            to_version: "3".to_owned(),
            source: "read-only".to_owned()
        })
    );
    assert!(handler.cargo_lock_files_with_changed_manifest_versions.is_empty());

    let handler = LockfileMismatchHandler::new("/s", "nightly", true);
    let (handler, _) = handler.advance(LockfileEvent::Begin);
    let (handler, _) = handler.advance(new_rust());
    let (handler, _) = handler.advance(old_rust());
    let (handler, _) = handler.advance(LockfileEvent::Read(Ok(None)));
    let (_, action) = handler.advance(LockfileEvent::Read(Ok(None)));
    assert_eq!(
        action,
        LockfileAction::Fail(LockfileMismatchError::ReadFile {
            file: "/s/Cargo.toml".to_owned(),
            source: "file not found".to_owned()
        })
    );
}

#[test]
fn putting_back_goes_on_after_a_failure() {
    let mut handler = LockfileMismatchHandler::new("/s", "nightly", true);
    handler.cargo_lock_files_with_changed_manifest_versions =
        vec!["/a/Cargo.lock".to_owned(), "/b/Cargo.lock".to_owned(), "/c/Cargo.lock".to_owned()];
    let steps = handler
        .revert_cargo_lock_manifest_versions(&vec![Err("gone".to_owned()), Ok(V3.to_owned())]);
    assert_eq!(
        steps,
        vec![
            Err(LockfileMismatchError::ReadFile {
                file: "/a/Cargo.lock".to_owned(),
                source: "gone".to_owned()
            }),
            Ok(LockfileRewrite { file: "/b/Cargo.lock".to_owned(), contents: V4.to_owned() }),
            Err(LockfileMismatchError::ReadFile {
                file: "/c/Cargo.lock".to_owned(),
                source: "file not found".to_owned()
            }),
        ]
    );
    assert_eq!(
        handler.cargo_lock_files_with_changed_manifest_versions,
        vec!["/a/Cargo.lock", "/b/Cargo.lock", "/c/Cargo.lock"]
    );
}

#[test]
fn ancestors_stop_at_the_root_or_at_the_depth() {
    assert_eq!(ancestors("/a/b/c", 15), vec!["/a/b", "/a", "/"]);
    assert_eq!(ancestors("/a/b/c", 2), vec!["/a/b", "/a"]);
    assert_eq!(ancestors("/a/b/c", 0), Vec::<String>::new());
    assert_eq!(ancestors("/", 15), Vec::<String>::new());
    assert_eq!(ancestors("a/b", 15), vec!["a", ""]);
    let deep = "/1/2/3/4/5/6/7/8/9/10/11/12/13/14/15/16/17/18";
    assert_eq!(ancestors(deep, 15).len(), 15);
    assert_eq!(ancestors(deep, 15)[14], "/1/2/3");
}

#[test]
fn first_flag_within_the_limit() {
    assert_eq!(first_flag(&vec![false, true, true], 3), Some(1));
    assert_eq!(first_flag(&vec![false, true, true], 1), None);
    assert_eq!(first_flag(&vec![false, false], 5), None);
    assert_eq!(first_flag(&vec![], 5), None);
    assert_eq!(first_flag(&vec![true], 0), None);
}
