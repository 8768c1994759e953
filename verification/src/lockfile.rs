//! Lockfiles whose format the toolchains at hand cannot all read.
//!
//! A toolchain older than Rust 1.83.0 rejects a lockfile of format version 4.
//! Where such a toolchain meets such a lockfile, the lockfile is rewritten to
//! version 3 for the time of the build, if the caller allows it, and the
//! rewritten files are recorded so that they can be put back.

use vstd::prelude::*;
use crate::command::{copy_texts, texts_view};
use crate::path::{join, joined, parent_of, parent_path};
use crate::text::{
    chars_of, has_infix, is_one_line, lemma_replace_first, lemma_third_line, lines, newline,
    occurs_at, occurs_in, replace_all, replace_from, replaced, split_lines, string_of,
};
use crate::version::{is_at_least, Version, VersionModel};

verus! {

/// What went wrong while the lockfiles were checked, changed or put back.
#[derive(Clone, Debug, PartialEq, Eq)]
pub enum LockfileMismatchError {
    /// The version of a compiler could not be found out.
    QueryRustcVersion(String),
    /// A file could not be read.
    ReadFile {
        /// The file.
        file: String,
        /// Why it could not be read.
        source: String,
    },
    /// A lockfile could not be written with its new format version.
    RewriteLockfile {
        /// The lockfile.
        file: String,
        /// The format version it had.
        from_version: String,
        /// The format version it was to get.
        to_version: String,
        /// Why it could not be written.
        source: String,
    },
    /// A lockfile has fewer than three lines.
    TooFewLinesInLockfile {
        /// The lockfile.
        file: String,
    },
    /// The third line of a lockfile names neither format version.
    UnrecognizedLockfileVersion {
        /// The lockfile.
        file: String,
        /// Its third line.
        version_line: String,
    },
    /// A lockfile has a format version that a toolchain at hand cannot read, and
    /// the caller has not allowed that it be rewritten.
    ConflictingVersions,
    /// An event came that the step before had not asked for.
    OutOfTurn,
}

/// What a `LockfileMismatchError` stands for.
pub enum LockfileFailure {
    QueryRustcVersion(Seq<char>),
    ReadFile { file: Seq<char>, source: Seq<char> },
    RewriteLockfile {
        file: Seq<char>,
        from_version: Seq<char>,
        to_version: Seq<char>,
        source: Seq<char>,
    },
    TooFewLinesInLockfile { file: Seq<char> },
    UnrecognizedLockfileVersion { file: Seq<char>, version_line: Seq<char> },
    ConflictingVersions,
    OutOfTurn,
}

impl View for LockfileMismatchError {
    type V = LockfileFailure;

    open spec fn view(&self) -> LockfileFailure {
        match self {
            LockfileMismatchError::QueryRustcVersion(s) => LockfileFailure::QueryRustcVersion(s@),
            LockfileMismatchError::ReadFile { file, source } => LockfileFailure::ReadFile {
                file: file@,
                source: source@,
            },
            LockfileMismatchError::RewriteLockfile { file, from_version, to_version, source } => {
                LockfileFailure::RewriteLockfile {
                    file: file@,
                    from_version: from_version@,
                    to_version: to_version@,
                    source: source@,
                }
            },
            LockfileMismatchError::TooFewLinesInLockfile { file } => {
                LockfileFailure::TooFewLinesInLockfile { file: file@ }
            },
            LockfileMismatchError::UnrecognizedLockfileVersion { file, version_line } => {
                LockfileFailure::UnrecognizedLockfileVersion {
                    file: file@,
                    version_line: version_line@,
                }
            },
            LockfileMismatchError::ConflictingVersions => LockfileFailure::ConflictingVersions,
            LockfileMismatchError::OutOfTurn => LockfileFailure::OutOfTurn,
        }
    }
}

/// The format version that older toolchains write and read.
pub open spec fn old_version() -> Seq<char> {
    "3"@
}

/// The format version that toolchains write from Rust 1.83.0 on.
pub open spec fn new_version() -> Seq<char> {
    "4"@
}

/// The text that marks a lockfile of the old format in its third line.
pub open spec fn old_marker() -> Seq<char> {
    "version = 3"@
}

/// The text that marks a lockfile of the new format in its third line.
pub open spec fn new_marker() -> Seq<char> {
    "version = 4"@
}

/// The field that gives a lockfile the format `version`: a whole line.
pub open spec fn version_field(version: Seq<char>) -> Seq<char> {
    "\nversion = "@ + version + "\n"@
}

/// `contents` with the format version `from_version` replaced by `to_version`,
/// as text: wherever the one field stands, the other is put.
pub open spec fn with_version(
    contents: Seq<char>,
    from_version: Seq<char>,
    to_version: Seq<char>,
) -> Seq<char> {
    replaced(contents, version_field(from_version), version_field(to_version))
}

/// The format of a lockfile.
#[derive(Clone, Copy, Debug, PartialEq, Eq, Structural)]
pub enum LockfileFormat {
    /// Format version 3.
    Old,
    /// Format version 4.
    New,
}

/// Why the format of a lockfile could not be told.
pub enum FormatFailure {
    TooFewLines,
    Unrecognized(Seq<char>),
}

/// The format that a lockfile with these `contents` has. Only its third line is
/// read: it must hold the marker of one of the two formats.
pub open spec fn format_of(contents: Seq<char>) -> Result<LockfileFormat, FormatFailure> {
    let ls = lines(contents);
    if ls.len() < 3 {
        Err(FormatFailure::TooFewLines)
    } else if occurs_in(ls[2], new_marker()) {
        Ok(LockfileFormat::New)
    } else if occurs_in(ls[2], old_marker()) {
        Ok(LockfileFormat::Old)
    } else {
        Err(FormatFailure::Unrecognized(ls[2]))
    }
}

/// What is to be done about a lockfile that an old toolchain has to read.
pub enum Verdict {
    /// The lockfile can stay as it is.
    Keep,
    /// The lockfile is to be written anew, with these contents.
    Rewrite(Seq<char>),
    /// The build cannot go on.
    Fail(LockfileFailure),
}

/// What is to be done about the lockfile `file` with these `contents`, which an
/// old toolchain has to read. A lockfile of the old format stays. One of the new
/// format is rewritten where `force` allows it, and is a conflict where not.
pub open spec fn verdict(file: Seq<char>, contents: Seq<char>, force: bool) -> Verdict {
    match format_of(contents) {
        Err(FormatFailure::TooFewLines) => Verdict::Fail(
            LockfileFailure::TooFewLinesInLockfile { file },
        ),
        Err(FormatFailure::Unrecognized(version_line)) => Verdict::Fail(
            LockfileFailure::UnrecognizedLockfileVersion { file, version_line },
        ),
        Ok(LockfileFormat::Old) => Verdict::Keep,
        Ok(LockfileFormat::New) => if force {
            Verdict::Rewrite(with_version(contents, new_version(), old_version()))
        } else {
            Verdict::Fail(LockfileFailure::ConflictingVersions)
        },
    }
}

/// The lockfile of the crate or workspace in `folder`.
pub open spec fn lockfile_in(folder: Seq<char>) -> Seq<char> {
    joined(folder, "Cargo.lock"@)
}

/// The manifest of the crate in `folder`.
pub open spec fn manifest_of(folder: Seq<char>) -> Seq<char> {
    joined(folder, "Cargo.toml"@)
}

/// What in the manifest of a crate says that it takes settings from a
/// workspace.
pub open spec fn workspace_marker() -> Seq<char> {
    "workspace = true"@
}

/// How many directories above a crate are searched for its workspace.
pub open spec fn workspace_search_depth() -> nat {
    15
}

/// The directories above `path`, nearest first, at most `depth` of them.
pub open spec fn ancestors_of(path: Seq<char>, depth: nat) -> Seq<Seq<char>>
    decreases depth,
{
    if depth == 0 {
        Seq::empty()
    } else {
        match parent_of(path) {
            None => Seq::empty(),
            Some(parent) => seq![parent] + ancestors_of(parent, (depth - 1) as nat),
        }
    }
}

/// The index of the first `true` among `flags[from..limit]`.
pub open spec fn first_set(flags: Seq<bool>, limit: int, from: int) -> Option<int>
    decreases flags.len() - from + 1,
{
    if from < 0 || from >= flags.len() || from >= limit {
        None
    } else if flags[from] {
        Some(from)
    } else {
        first_set(flags, limit, from + 1)
    }
}

/// The field that gives a lockfile the format `version`.
fn version_field_chars(version: &str) -> (field: Vec<char>)
    ensures
        field@ == version_field(version@),
{
    let mut field = String::new();
    field.append("\nversion = ");
    field.append(version);
    field.append("\n");
    chars_of(field.as_str())
}

/// Replaces the format version of a lockfile: returns `contents` with every
/// field of the version `from_version` turned into one of `to_version`.
pub fn replace_cargo_lock_manifest_version(
    contents: &str,
    from_version: &str,
    to_version: &str,
) -> (out: String)
    ensures
        out@ == with_version(contents@, from_version@, to_version@),
{
    let text = chars_of(contents);
    let from_field = version_field_chars(from_version);
    let to_field = version_field_chars(to_version);
    let out = replace_all(&text, &from_field, &to_field);
    string_of(&out)
}

/// Tells the format of a lockfile from its contents.
pub fn lockfile_format(contents: &str) -> (r: Result<LockfileFormat, Option<String>>)
    ensures
        match format_of(contents@) {
            Ok(format) => r == Ok::<LockfileFormat, Option<String>>(format),
            Err(FormatFailure::TooFewLines) => r matches Err(None),
            Err(FormatFailure::Unrecognized(line)) => r matches Err(Some(l)) && l@ == line,
        },
{
    let text = chars_of(contents);
    let rows = split_lines(&text);
    if rows.len() < 3 {
        return Err(None);
    }
    let third_line = &rows[2];
    assert(lines(contents@)[2] == rows@[2]@);
    let new_marker = chars_of("version = 4");
    let old_marker = chars_of("version = 3");
    if has_infix(third_line, &new_marker) {
        Ok(LockfileFormat::New)
    } else if has_infix(third_line, &old_marker) {
        Ok(LockfileFormat::Old)
    } else {
        Err(Some(string_of(third_line)))
    }
}

/// Handles a lockfile of the new format that an old toolchain has to read:
/// with `is_force_overwrite_lockfiles_v4_to_v3` returns the contents for the
/// old format, without it the conflict.
pub fn handle_v3v4_conflict(contents: &str, is_force_overwrite_lockfiles_v4_to_v3: bool) -> (r:
    Result<String, LockfileMismatchError>)
    ensures
        match r {
            Ok(rewritten) => is_force_overwrite_lockfiles_v4_to_v3 && rewritten@ == with_version(
                contents@,
                new_version(),
                old_version(),
            ),
            Err(e) => !is_force_overwrite_lockfiles_v4_to_v3 && e@
                == LockfileFailure::ConflictingVersions,
        },
{
    if !is_force_overwrite_lockfiles_v4_to_v3 {
        return Err(LockfileMismatchError::ConflictingVersions);
    }
    Ok(replace_cargo_lock_manifest_version(contents, "4", "3"))
}

/// Decides what is to be done about the lockfile `file` with these `contents`,
/// which an old toolchain has to read: `Ok(None)` where it can stay,
/// `Ok(Some(..))` with the contents to write where it is to be rewritten.
pub fn handle_conflicting_cargo_lock_v4(
    file: &str,
    contents: &str,
    is_force_overwrite_lockfiles_v4_to_v3: bool,
) -> (r: Result<Option<String>, LockfileMismatchError>)
    ensures
        match verdict(file@, contents@, is_force_overwrite_lockfiles_v4_to_v3) {
            Verdict::Keep => r matches Ok(None),
            Verdict::Rewrite(rewritten) => r matches Ok(Some(c)) && c@ == rewritten,
            Verdict::Fail(f) => r matches Err(e) && e@ == f,
        },
{
    match lockfile_format(contents) {
        Err(None) => Err(LockfileMismatchError::TooFewLinesInLockfile { file: file.to_owned() }),
        Err(Some(version_line)) => Err(
            LockfileMismatchError::UnrecognizedLockfileVersion {
                file: file.to_owned(),
                version_line,
            },
        ),
        Ok(LockfileFormat::Old) => Ok(None),
        Ok(LockfileFormat::New) => {
            match handle_v3v4_conflict(contents, is_force_overwrite_lockfiles_v4_to_v3) {
                Ok(rewritten) => Ok(Some(rewritten)),
                Err(e) => Err(e),
            }
        },
    }
}

/// The directories above `path`, nearest first, at most `depth` of them.
pub fn ancestors(path: &str, depth: usize) -> (out: Vec<String>)
    ensures
        texts_view(out@) == ancestors_of(path@, depth as nat),
{
    let mut out: Vec<String> = Vec::new();
    let mut current = path.to_owned();
    let mut left: usize = depth;
    assert(texts_view(out@) + ancestors_of(current@, left as nat) =~= ancestors_of(
        path@,
        depth as nat,
    ));
    while left > 0
        invariant
            texts_view(out@) + ancestors_of(current@, left as nat) == ancestors_of(
                path@,
                depth as nat,
            ),
        decreases left,
    {
        match parent_path(current.as_str()) {
            None => {
                assert(texts_view(out@) + Seq::<Seq<char>>::empty() =~= texts_view(out@));
                return out;
            },
            Some(parent) => {
                let ghost before = texts_view(out@);
                out.push(parent.clone());
                assert(texts_view(out@) =~= before.push(parent@));
                assert(before.push(parent@) + ancestors_of(parent@, (left - 1) as nat) =~= before
                    + (seq![parent@] + ancestors_of(parent@, (left - 1) as nat)));
                current = parent;
            },
        }
        left -= 1;
    }
    assert(texts_view(out@) + Seq::<Seq<char>>::empty() =~= texts_view(out@));
    out
}

/// The index of the first `true` among the first `limit` of `flags`.
pub fn first_flag(flags: &Vec<bool>, limit: usize) -> (r: Option<usize>)
    ensures
        match r {
            Some(i) => first_set(flags@, limit as int, 0) == Some(i as int) && i < limit && i
                < flags.len(),
            None => first_set(flags@, limit as int, 0) is None,
        },
{
    let mut i: usize = 0;
    while i < flags.len() && i < limit
        invariant
            i <= flags.len(),
            first_set(flags@, limit as int, 0) == first_set(flags@, limit as int, i as int),
        decreases flags.len() - i,
    {
        if flags[i] {
            return Some(i);
        }
        i += 1;
    }
    None
}

/// How far the check of the lockfiles has come.
#[derive(Clone, Copy, Debug, PartialEq, Eq, Structural)]
pub enum LockfileStage {
    /// Nothing has been done yet.
    Start,
    /// The version of the compiler in use is being found out.
    QueryingWorkspaceRust,
    /// The lockfile of the shader crate is being read for the compiler in use.
    ReadingShaderLock,
    /// The lockfile of the shader crate is being rewritten for the time of the
    /// build.
    RewritingShaderLock,
    /// The version of the compiler of the shader toolchain is being found out.
    QueryingShaderRust,
    /// The lockfile of the shader crate is being read for the shader toolchain.
    RereadingShaderLock,
    /// The lockfile of the shader crate is being corrected for good.
    RepairingShaderLock,
    /// The manifest of the shader crate is being read.
    ReadingShaderManifest,
    /// The directories above the shader crate are being searched for a
    /// lockfile.
    ProbingWorkspace,
    /// The lockfile of the workspace is being read.
    ReadingWorkspaceLock,
    /// The lockfile of the workspace is being rewritten for the time of the
    /// build.
    RewritingWorkspaceLock,
    /// Every lockfile can be read by the toolchains at hand.
    Ready,
    /// The check has failed.
    Failed,
}

/// Watches over the lockfiles of a shader crate and its workspace for the time
/// of a build.
#[derive(Clone, Debug, PartialEq, Eq)]
pub struct LockfileMismatchHandler {
    /// The lockfiles whose format version was changed for the time of the build
    /// and has to be changed back.
    pub cargo_lock_files_with_changed_manifest_versions: Vec<String>,
    /// The directory of the shader crate.
    pub shader_crate_path: String,
    /// The channel of the toolchain that builds the shader crate.
    pub toolchain_channel: String,
    /// Whether lockfiles of the new format may be rewritten to the old one.
    pub is_force_overwrite_lockfiles_v4_to_v3: bool,
    /// How far the check has come.
    pub stage: LockfileStage,
    /// The directories above the shader crate that are searched for a lockfile.
    pub workspace_candidates: Vec<String>,
    /// The root of the workspace, once it has been found.
    pub workspace_root: String,
}

/// What a `LockfileMismatchHandler` stands for.
pub struct HandlerModel {
    pub changed: Seq<Seq<char>>,
    pub shader_crate_path: Seq<char>,
    pub toolchain_channel: Seq<char>,
    pub force: bool,
    pub stage: LockfileStage,
    pub workspace_candidates: Seq<Seq<char>>,
    pub workspace_root: Seq<char>,
}

impl View for LockfileMismatchHandler {
    type V = HandlerModel;

    open spec fn view(&self) -> HandlerModel {
        HandlerModel {
            changed: texts_view(self.cargo_lock_files_with_changed_manifest_versions@),
            shader_crate_path: self.shader_crate_path@,
            toolchain_channel: self.toolchain_channel@,
            force: self.is_force_overwrite_lockfiles_v4_to_v3,
            stage: self.stage,
            workspace_candidates: texts_view(self.workspace_candidates@),
            workspace_root: self.workspace_root@,
        }
    }
}

/// What happened since the last step of the check.
#[derive(Debug, PartialEq, Eq)]
pub enum LockfileEvent {
    /// The check is to begin.
    Begin,
    /// The version of the compiler that was asked for, or why it could not be
    /// found out.
    RustVersion(Result<Version, String>),
    /// The contents of the file that was asked for, `None` where there is no
    /// such file, or why it could not be read.
    Read(Result<Option<String>, String>),
    /// The file was written, or why it could not be.
    Written(Result<(), String>),
    /// For each directory that was asked about, whether it holds a lockfile.
    Probed(Vec<bool>),
}

/// What a `LockfileEvent` stands for.
pub enum LockfileEventModel {
    Begin,
    RustVersion(Result<VersionModel, Seq<char>>),
    Read(Result<Option<Seq<char>>, Seq<char>>),
    Written(Result<(), Seq<char>>),
    Probed(Seq<bool>),
}

impl View for LockfileEvent {
    type V = LockfileEventModel;

    open spec fn view(&self) -> LockfileEventModel {
        match self {
            LockfileEvent::Begin => LockfileEventModel::Begin,
            LockfileEvent::RustVersion(r) => LockfileEventModel::RustVersion(
                match r {
                    Ok(v) => Ok(v@),
                    Err(e) => Err(e@),
                },
            ),
            LockfileEvent::Read(r) => LockfileEventModel::Read(
                match r {
                    Ok(Some(c)) => Ok(Some(c@)),
                    Ok(None) => Ok(None),
                    Err(e) => Err(e@),
                },
            ),
            LockfileEvent::Written(r) => LockfileEventModel::Written(
                match r {
                    Ok(()) => Ok(()),
                    Err(e) => Err(e@),
                },
            ),
            LockfileEvent::Probed(flags) => LockfileEventModel::Probed(flags@),
        }
    }
}

/// What the caller is to do next for the check.
#[derive(Clone, Debug, PartialEq, Eq)]
pub enum LockfileAction {
    /// Find out the version of the compiler: of the toolchain with this
    /// channel, or of the one in use where no channel is given.
    QueryRustVersion(Option<String>),
    /// Read this file.
    ReadFile(String),
    /// Write these contents over this file.
    WriteFile {
        /// The file.
        file: String,
        /// Its new contents.
        contents: String,
    },
    /// Tell of each of these directories whether it holds a `Cargo.lock`.
    ProbeLockfiles(Vec<String>),
    /// Nothing more: the build can go on.
    Ready,
    /// Nothing more: the build cannot go on, for this reason.
    Fail(LockfileMismatchError),
}

/// What a `LockfileAction` stands for.
pub enum LockfileActionModel {
    QueryRustVersion(Option<Seq<char>>),
    ReadFile(Seq<char>),
    WriteFile { file: Seq<char>, contents: Seq<char> },
    ProbeLockfiles(Seq<Seq<char>>),
    Ready,
    Fail(LockfileFailure),
}

impl View for LockfileAction {
    type V = LockfileActionModel;

    open spec fn view(&self) -> LockfileActionModel {
        match self {
            LockfileAction::QueryRustVersion(channel) => LockfileActionModel::QueryRustVersion(
                match channel {
                    Some(c) => Some(c@),
                    None => None,
                },
            ),
            LockfileAction::ReadFile(file) => LockfileActionModel::ReadFile(file@),
            LockfileAction::WriteFile { file, contents } => LockfileActionModel::WriteFile {
                file: file@,
                contents: contents@,
            },
            LockfileAction::ProbeLockfiles(dirs) => LockfileActionModel::ProbeLockfiles(
                texts_view(dirs@),
            ),
            LockfileAction::Ready => LockfileActionModel::Ready,
            LockfileAction::Fail(e) => LockfileActionModel::Fail(e@),
        }
    }
}

/// What the reading of a file that has to exist gives as its reason where the
/// file does not exist.
pub open spec fn not_found() -> Seq<char> {
    "file not found"@
}

/// The first toolchain whose lockfiles have the new format is Rust 1.83.0.
pub open spec fn writes_new_format(v: VersionModel) -> bool {
    is_at_least(v, 1, 83, 0)
}

/// The handler at `stage`, with the rest of `h` unchanged.
pub open spec fn staged(h: HandlerModel, stage: LockfileStage) -> HandlerModel {
    HandlerModel { stage, ..h }
}

/// The end of the check with the failure `f`.
pub open spec fn failed(h: HandlerModel, f: LockfileFailure) -> (HandlerModel, LockfileActionModel) {
    (staged(h, LockfileStage::Failed), LockfileActionModel::Fail(f))
}

/// The end of the check with success.
pub open spec fn ready(h: HandlerModel) -> (HandlerModel, LockfileActionModel) {
    (staged(h, LockfileStage::Ready), LockfileActionModel::Ready)
}

/// The step that asks for the version of the compiler of the shader toolchain.
pub open spec fn to_shader_rust(h: HandlerModel) -> (HandlerModel, LockfileActionModel) {
    (
        staged(h, LockfileStage::QueryingShaderRust),
        LockfileActionModel::QueryRustVersion(Some(h.toolchain_channel)),
    )
}

/// The step that asks for the manifest of the shader crate.
pub open spec fn to_shader_manifest(h: HandlerModel) -> (HandlerModel, LockfileActionModel) {
    (
        staged(h, LockfileStage::ReadingShaderManifest),
        LockfileActionModel::ReadFile(manifest_of(h.shader_crate_path)),
    )
}

/// What follows the reading of the lockfile `file`: the failure where it could
/// not be read, `absent` where there is none, and else what the verdict on it
/// asks for: `kept` where it can stay, the writing of its new contents at the
/// stage `rewriting`, or the failure.
pub open spec fn after_read(
    h: HandlerModel,
    file: Seq<char>,
    read: Result<Option<Seq<char>>, Seq<char>>,
    absent: (HandlerModel, LockfileActionModel),
    kept: (HandlerModel, LockfileActionModel),
    rewriting: LockfileStage,
) -> (HandlerModel, LockfileActionModel) {
    match read {
        Err(source) => failed(h, LockfileFailure::ReadFile { file, source }),
        Ok(None) => absent,
        Ok(Some(contents)) => match verdict(file, contents, h.force) {
            Verdict::Keep => kept,
            Verdict::Rewrite(rewritten) => (
                staged(h, rewriting),
                LockfileActionModel::WriteFile { file, contents: rewritten },
            ),
            Verdict::Fail(f) => failed(h, f),
        },
    }
}

/// What follows the writing of the lockfile `file`: the failure where it could
/// not be written, else `then`.
pub open spec fn after_write(
    h: HandlerModel,
    file: Seq<char>,
    written: Result<(), Seq<char>>,
    then: (HandlerModel, LockfileActionModel),
) -> (HandlerModel, LockfileActionModel) {
    match written {
        Err(source) => failed(
            h,
            LockfileFailure::RewriteLockfile {
                file,
                from_version: new_version(),
                to_version: old_version(),
                source,
            },
        ),
        Ok(()) => then,
    }
}

/// The handler with `file` recorded as changed.
pub open spec fn recording(h: HandlerModel, file: Seq<char>) -> HandlerModel {
    HandlerModel { changed: h.changed.push(file), ..h }
}

/// One step of the check: the handler after `event`, and what the caller is to
/// do next.
///
/// First the compiler in use: where it is older than Rust 1.83.0, the lockfile
/// of the shader crate, if there is one, must have the old format or be
/// rewritten to it, and a rewritten one is recorded. Then the compiler of the
/// shader toolchain: where it is older than Rust 1.83.0, the lockfile of the
/// shader crate is checked again, and a change now is a correction that is not
/// recorded; then, where the manifest of the shader crate refers to a
/// workspace, the nearest directory above it that holds a lockfile is taken for
/// the root of the workspace, and its lockfile is checked, rewritten and
/// recorded in the same way.
pub open spec fn lockfile_step(h: HandlerModel, event: LockfileEventModel) -> (
    HandlerModel,
    LockfileActionModel,
) {
    let shader_lock = lockfile_in(h.shader_crate_path);
    let workspace_lock = lockfile_in(h.workspace_root);
    match (h.stage, event) {
        (LockfileStage::Start, LockfileEventModel::Begin) => (
            staged(h, LockfileStage::QueryingWorkspaceRust),
            LockfileActionModel::QueryRustVersion(None),
        ),
        (LockfileStage::QueryingWorkspaceRust, LockfileEventModel::RustVersion(r)) => match r {
            Err(source) => failed(h, LockfileFailure::QueryRustcVersion(source)),
            Ok(v) => if writes_new_format(v) {
                to_shader_rust(h)
            } else {
                (
                    staged(h, LockfileStage::ReadingShaderLock),
                    LockfileActionModel::ReadFile(shader_lock),
                )
            },
        },
        (LockfileStage::ReadingShaderLock, LockfileEventModel::Read(read)) => after_read(
            h,
            shader_lock,
            read,
            to_shader_rust(h),
            to_shader_rust(h),
            LockfileStage::RewritingShaderLock,
        ),
        (LockfileStage::RewritingShaderLock, LockfileEventModel::Written(written)) => after_write(
            h,
            shader_lock,
            written,
            to_shader_rust(recording(h, shader_lock)),
        ),
        (LockfileStage::QueryingShaderRust, LockfileEventModel::RustVersion(r)) => match r {
            Err(source) => failed(h, LockfileFailure::QueryRustcVersion(source)),
            Ok(v) => if writes_new_format(v) {
                ready(h)
            } else {
                (
                    staged(h, LockfileStage::RereadingShaderLock),
                    LockfileActionModel::ReadFile(shader_lock),
                )
            },
        },
        (LockfileStage::RereadingShaderLock, LockfileEventModel::Read(read)) => after_read(
            h,
            shader_lock,
            read,
            to_shader_manifest(h),
            to_shader_manifest(h),
            LockfileStage::RepairingShaderLock,
        ),
        (LockfileStage::RepairingShaderLock, LockfileEventModel::Written(written)) => after_write(
            h,
            shader_lock,
            written,
            to_shader_manifest(h),
        ),
        (LockfileStage::ReadingShaderManifest, LockfileEventModel::Read(read)) => match read {
            Err(source) => failed(
                h,
                LockfileFailure::ReadFile { file: manifest_of(h.shader_crate_path), source },
            ),
            Ok(None) => failed(
                h,
                LockfileFailure::ReadFile {
                    file: manifest_of(h.shader_crate_path),
                    source: not_found(),
                },
            ),
            Ok(Some(manifest)) => if occurs_in(manifest, workspace_marker()) {
                let candidates = ancestors_of(h.shader_crate_path, workspace_search_depth());
                (
                    HandlerModel {
                        stage: LockfileStage::ProbingWorkspace,
                        workspace_candidates: candidates,
                        ..h
                    },
                    LockfileActionModel::ProbeLockfiles(candidates),
                )
            } else {
                ready(h)
            },
        },
        (LockfileStage::ProbingWorkspace, LockfileEventModel::Probed(flags)) => match first_set(
            flags,
            h.workspace_candidates.len() as int,
            0,
        ) {
            None => ready(h),
            Some(i) => {
                let root = h.workspace_candidates[i];
                (
                    HandlerModel {
                        stage: LockfileStage::ReadingWorkspaceLock,
                        workspace_root: root,
                        ..h
                    },
                    LockfileActionModel::ReadFile(lockfile_in(root)),
                )
            },
        },
        (LockfileStage::ReadingWorkspaceLock, LockfileEventModel::Read(read)) => after_read(
            h,
            workspace_lock,
            read,
            failed(h, LockfileFailure::ReadFile { file: workspace_lock, source: not_found() }),
            ready(h),
            LockfileStage::RewritingWorkspaceLock,
        ),
        (
            LockfileStage::RewritingWorkspaceLock,
            LockfileEventModel::Written(written),
        ) => after_write(h, workspace_lock, written, ready(recording(h, workspace_lock))),
        _ => failed(h, LockfileFailure::OutOfTurn),
    }
}

/// A lockfile that is to be written anew when the build is over.
#[derive(Clone, Debug, PartialEq, Eq)]
pub struct LockfileRewrite {
    /// The lockfile.
    pub file: String,
    /// Its new contents.
    pub contents: String,
}

/// What is to be done to put back the lockfile `file`, given what reading it
/// gave: its contents with the new format version in place of the old one, or
/// the failure to read it.
pub open spec fn reverted(file: Seq<char>, read: Option<Result<Seq<char>, Seq<char>>>) -> Result<
    (Seq<char>, Seq<char>),
    LockfileFailure,
> {
    match read {
        Some(Ok(contents)) => Ok((file, with_version(contents, old_version(), new_version()))),
        Some(Err(source)) => Err(LockfileFailure::ReadFile { file, source }),
        None => Err(LockfileFailure::ReadFile { file, source: not_found() }),
    }
}

/// What reading the `i`-th recorded file gave, where `read` holds it.
pub open spec fn read_at(read: Seq<Result<String, String>>, i: int) -> Option<
    Result<Seq<char>, Seq<char>>,
> {
    if 0 <= i < read.len() {
        Some(
            match read[i] {
                Ok(contents) => Ok(contents@),
                Err(source) => Err(source@),
            },
        )
    } else {
        None
    }
}

/// What a step of the putting back stands for.
pub open spec fn revert_view(step: Result<LockfileRewrite, LockfileMismatchError>) -> Result<
    (Seq<char>, Seq<char>),
    LockfileFailure,
> {
    match step {
        Ok(rewrite) => Ok((rewrite.file@, rewrite.contents@)),
        Err(e) => Err(e@),
    }
}

impl LockfileMismatchHandler {
    /// The handler for the shader crate in `shader_crate_path`, which is built
    /// with the toolchain `toolchain_channel`, before the first step of its
    /// check. No lockfile has been changed yet.
    pub fn new(
        shader_crate_path: &str,
        toolchain_channel: &str,
        is_force_overwrite_lockfiles_v4_to_v3: bool,
    ) -> (h: Self)
        ensures
            h@ == (HandlerModel {
                changed: Seq::empty(),
                shader_crate_path: shader_crate_path@,
                toolchain_channel: toolchain_channel@,
                force: is_force_overwrite_lockfiles_v4_to_v3,
                stage: LockfileStage::Start,
                workspace_candidates: Seq::empty(),
                workspace_root: Seq::empty(),
            }),
    {
        let h = LockfileMismatchHandler {
            cargo_lock_files_with_changed_manifest_versions: Vec::new(),
            shader_crate_path: shader_crate_path.to_owned(),
            toolchain_channel: toolchain_channel.to_owned(),
            is_force_overwrite_lockfiles_v4_to_v3,
            stage: LockfileStage::Start,
            workspace_candidates: Vec::new(),
            workspace_root: String::new(),
        };
        assert(texts_view(h.cargo_lock_files_with_changed_manifest_versions@) =~= Seq::<
            Seq<char>,
        >::empty());
        assert(texts_view(h.workspace_candidates@) =~= Seq::<Seq<char>>::empty());
        h
    }

    fn at(self, stage: LockfileStage) -> (h: Self)
        ensures
            h@ == staged(self@, stage),
    {
        LockfileMismatchHandler {
            cargo_lock_files_with_changed_manifest_versions:
                self.cargo_lock_files_with_changed_manifest_versions,
            shader_crate_path: self.shader_crate_path,
            toolchain_channel: self.toolchain_channel,
            is_force_overwrite_lockfiles_v4_to_v3: self.is_force_overwrite_lockfiles_v4_to_v3,
            stage,
            workspace_candidates: self.workspace_candidates,
            workspace_root: self.workspace_root,
        }
    }

    fn fail(self, e: LockfileMismatchError) -> (r: (Self, LockfileAction))
        ensures
            (r.0@, r.1@) == failed(self@, e@),
    {
        (self.at(LockfileStage::Failed), LockfileAction::Fail(e))
    }

    fn ready(self) -> (r: (Self, LockfileAction))
        ensures
            (r.0@, r.1@) == ready(self@),
    {
        (self.at(LockfileStage::Ready), LockfileAction::Ready)
    }

    fn record(self, file: String) -> (h: Self)
        ensures
            h@ == recording(self@, file@),
    {
        let mut h = self;
        let ghost before = texts_view(h.cargo_lock_files_with_changed_manifest_versions@);
        h.cargo_lock_files_with_changed_manifest_versions.push(file);
        assert(texts_view(h.cargo_lock_files_with_changed_manifest_versions@) =~= before.push(
            file@,
        ));
        h
    }

    fn shader_lock(&self) -> (file: String)
        ensures
            file@ == lockfile_in(self@.shader_crate_path),
    {
        join(self.shader_crate_path.as_str(), "Cargo.lock")
    }

    fn workspace_lock(&self) -> (file: String)
        ensures
            file@ == lockfile_in(self@.workspace_root),
    {
        join(self.workspace_root.as_str(), "Cargo.lock")
    }

    fn shader_manifest(&self) -> (file: String)
        ensures
            file@ == manifest_of(self@.shader_crate_path),
    {
        join(self.shader_crate_path.as_str(), "Cargo.toml")
    }

    fn to_shader_rust(self) -> (r: (Self, LockfileAction))
        ensures
            (r.0@, r.1@) == to_shader_rust(self@),
    {
        let channel = self.toolchain_channel.clone();
        (self.at(LockfileStage::QueryingShaderRust), LockfileAction::QueryRustVersion(Some(channel)))
    }

    fn to_shader_manifest(self) -> (r: (Self, LockfileAction))
        ensures
            (r.0@, r.1@) == to_shader_manifest(self@),
    {
        let file = self.shader_manifest();
        (self.at(LockfileStage::ReadingShaderManifest), LockfileAction::ReadFile(file))
    }

    /// What follows the reading of the lockfile `file`: `absent` or `kept` is
    /// the stage to go on with where there is no lockfile or where it can
    /// stay, each with the action `next`; `rewriting` is the stage at which a
    /// lockfile is written anew.
    fn after_read(
        self,
        file: String,
        read: Result<Option<String>, String>,
        then: LockfileStage,
        next: LockfileAction,
        rewriting: LockfileStage,
    ) -> (r: (Self, LockfileAction))
        ensures
            (r.0@, r.1@) == after_read(
                self@,
                file@,
                (LockfileEvent::Read(read))@->Read_0,
                (staged(self@, then), next@),
                (staged(self@, then), next@),
                rewriting,
            ),
    {
        match read {
            Err(source) => self.fail(LockfileMismatchError::ReadFile { file, source }),
            Ok(None) => (self.at(then), next),
            Ok(Some(contents)) => {
                match handle_conflicting_cargo_lock_v4(
                    file.as_str(),
                    contents.as_str(),
                    self.is_force_overwrite_lockfiles_v4_to_v3,
                ) {
                    Ok(None) => (self.at(then), next),
                    Ok(Some(rewritten)) => (
                        self.at(rewriting),
                        LockfileAction::WriteFile { file, contents: rewritten },
                    ),
                    Err(e) => self.fail(e),
                }
            },
        }
    }

    /// The failure to write the lockfile `file` anew, for the reason `source`.
    fn write_failed(self, file: String, source: String) -> (r: (Self, LockfileAction))
        ensures
            (r.0@, r.1@) == failed(
                self@,
                LockfileFailure::RewriteLockfile {
                    file: file@,
                    from_version: new_version(),
                    to_version: old_version(),
                    source: source@,
                },
            ),
    {
        self.fail(
            LockfileMismatchError::RewriteLockfile {
                file,
                from_version: "4".to_owned(),
                to_version: "3".to_owned(),
                source,
            },
        )
    }

    /// Checks the lockfile of the shader crate against the compiler in use,
    /// whose version `workspace_rust_version` gives: asks for the lockfile where
    /// the compiler is too old for the new format, and goes on to the shader
    /// toolchain where it is not.
    fn ensure_workspace_rust_version_does_not_conflict_with_shader(
        self,
        workspace_rust_version: Result<Version, String>,
    ) -> (r: (Self, LockfileAction))
        requires
            self.stage == LockfileStage::QueryingWorkspaceRust,
        ensures
            (r.0@, r.1@) == lockfile_step(
                self@,
                (LockfileEvent::RustVersion(workspace_rust_version))@,
            ),
    {
        match workspace_rust_version {
            Err(source) => self.fail(LockfileMismatchError::QueryRustcVersion(source)),
            Ok(version) => if version.at_least(1, 83, 0) {
                self.to_shader_rust()
            } else {
                let file = self.shader_lock();
                (self.at(LockfileStage::ReadingShaderLock), LockfileAction::ReadFile(file))
            },
        }
    }

    /// Checks the lockfiles against the compiler of the shader toolchain, whose
    /// version `shader_rust_version` gives: asks for the lockfile of the shader
    /// crate where that compiler is too old for the new format, and is done
    /// where it is not.
    fn ensure_shader_rust_version_does_not_conflict_with_any_cargo_locks(
        self,
        shader_rust_version: Result<Version, String>,
    ) -> (r: (Self, LockfileAction))
        requires
            self.stage == LockfileStage::QueryingShaderRust,
        ensures
            (r.0@, r.1@) == lockfile_step(self@, (LockfileEvent::RustVersion(shader_rust_version))@),
    {
        match shader_rust_version {
            Err(source) => self.fail(LockfileMismatchError::QueryRustcVersion(source)),
            Ok(version) => if version.at_least(1, 83, 0) {
                self.ready()
            } else {
                let file = self.shader_lock();
                (self.at(LockfileStage::RereadingShaderLock), LockfileAction::ReadFile(file))
            },
        }
    }

    /// Finds the root of the workspace of the shader crate from its manifest:
    /// asks about the directories above the crate where the manifest refers to
    /// a workspace, and is done where it does not.
    fn get_workspace_root(self, manifest: Result<Option<String>, String>) -> (r: (
        Self,
        LockfileAction,
    ))
        requires
            self.stage == LockfileStage::ReadingShaderManifest,
        ensures
            (r.0@, r.1@) == lockfile_step(self@, (LockfileEvent::Read(manifest))@),
    {
        match manifest {
            Err(source) => {
                let file = self.shader_manifest();
                self.fail(LockfileMismatchError::ReadFile { file, source })
            },
            Ok(None) => {
                let file = self.shader_manifest();
                self.fail(
                    LockfileMismatchError::ReadFile { file, source: "file not found".to_owned() },
                )
            },
            Ok(Some(contents)) => {
                let text = chars_of(contents.as_str());
                let marker = chars_of("workspace = true");
                if has_infix(&text, &marker) {
                    let candidates = ancestors(self.shader_crate_path.as_str(), 15);
                    let asked = copy_texts(&candidates);
                    (
                        LockfileMismatchHandler {
                            cargo_lock_files_with_changed_manifest_versions:
                                self.cargo_lock_files_with_changed_manifest_versions,
                            shader_crate_path: self.shader_crate_path,
                            toolchain_channel: self.toolchain_channel,
                            is_force_overwrite_lockfiles_v4_to_v3:
                                self.is_force_overwrite_lockfiles_v4_to_v3,
                            stage: LockfileStage::ProbingWorkspace,
                            workspace_candidates: candidates,
                            workspace_root: self.workspace_root,
                        },
                        LockfileAction::ProbeLockfiles(asked),
                    )
                } else {
                    self.ready()
                }
            },
        }
    }

    /// Takes the nearest directory that holds a lockfile for the root of the
    /// workspace and asks for that lockfile; is done where no directory holds
    /// one.
    fn choose_workspace_root(self, flags: Vec<bool>) -> (r: (Self, LockfileAction))
        requires
            self.stage == LockfileStage::ProbingWorkspace,
        ensures
            (r.0@, r.1@) == lockfile_step(self@, (LockfileEvent::Probed(flags))@),
    {
        match first_flag(&flags, self.workspace_candidates.len()) {
            None => self.ready(),
            Some(i) => {
                let root = self.workspace_candidates[i].clone();
                assert(root@ == self@.workspace_candidates[i as int]);
                let file = join(root.as_str(), "Cargo.lock");
                (
                    LockfileMismatchHandler {
                        cargo_lock_files_with_changed_manifest_versions:
                            self.cargo_lock_files_with_changed_manifest_versions,
                        shader_crate_path: self.shader_crate_path,
                        toolchain_channel: self.toolchain_channel,
                        is_force_overwrite_lockfiles_v4_to_v3:
                            self.is_force_overwrite_lockfiles_v4_to_v3,
                        stage: LockfileStage::ReadingWorkspaceLock,
                        workspace_candidates: self.workspace_candidates,
                        workspace_root: root,
                    },
                    LockfileAction::ReadFile(file),
                )
            },
        }
    }

    /// Takes one step of the check: given what happened since the last step,
    /// returns the handler after it and what the caller is to do next.
    pub fn advance(self, event: LockfileEvent) -> (r: (Self, LockfileAction))
        ensures
            (r.0@, r.1@) == lockfile_step(self@, event@),
    {
        match (self.stage, event) {
            (LockfileStage::Start, LockfileEvent::Begin) => (
                self.at(LockfileStage::QueryingWorkspaceRust),
                LockfileAction::QueryRustVersion(None),
            ),
            (LockfileStage::QueryingWorkspaceRust, LockfileEvent::RustVersion(r)) => {
                self.ensure_workspace_rust_version_does_not_conflict_with_shader(r)
            },
            (LockfileStage::ReadingShaderLock, LockfileEvent::Read(read)) => {
                let file = self.shader_lock();
                let next = LockfileAction::QueryRustVersion(Some(self.toolchain_channel.clone()));
                self.after_read(
                    file,
                    read,
                    LockfileStage::QueryingShaderRust,
                    next,
                    LockfileStage::RewritingShaderLock,
                )
            },
            (LockfileStage::RewritingShaderLock, LockfileEvent::Written(written)) => {
                let file = self.shader_lock();
                match written {
                    Err(source) => self.write_failed(file, source),
                    Ok(()) => self.record(file).to_shader_rust(),
                }
            },
            (LockfileStage::QueryingShaderRust, LockfileEvent::RustVersion(r)) => {
                self.ensure_shader_rust_version_does_not_conflict_with_any_cargo_locks(r)
            },
            (LockfileStage::RereadingShaderLock, LockfileEvent::Read(read)) => {
                let file = self.shader_lock();
                let next = LockfileAction::ReadFile(self.shader_manifest());
                self.after_read(
                    file,
                    read,
                    LockfileStage::ReadingShaderManifest,
                    next,
                    LockfileStage::RepairingShaderLock,
                )
            },
            (LockfileStage::RepairingShaderLock, LockfileEvent::Written(written)) => {
                match written {
                    Err(source) => {
                        let file = self.shader_lock();
                        self.write_failed(file, source)
                    },
                    Ok(()) => self.to_shader_manifest(),
                }
            },
            (LockfileStage::ReadingShaderManifest, LockfileEvent::Read(read)) => {
                self.get_workspace_root(read)
            },
            (LockfileStage::ProbingWorkspace, LockfileEvent::Probed(flags)) => {
                self.choose_workspace_root(flags)
            },
            (LockfileStage::ReadingWorkspaceLock, LockfileEvent::Read(read)) => {
                let file = self.workspace_lock();
                match read {
                    Ok(None) => self.fail(
                        LockfileMismatchError::ReadFile {
                            file,
                            source: "file not found".to_owned(),
                        },
                    ),
                    read => self.after_read(
                        file,
                        read,
                        LockfileStage::Ready,
                        LockfileAction::Ready,
                        LockfileStage::RewritingWorkspaceLock,
                    ),
                }
            },
            (LockfileStage::RewritingWorkspaceLock, LockfileEvent::Written(written)) => {
                let file = self.workspace_lock();
                match written {
                    Err(source) => self.write_failed(file, source),
                    Ok(()) => self.record(file).ready(),
                }
            },
            (_, _) => self.fail(LockfileMismatchError::OutOfTurn),
        }
    }

    /// Puts the recorded lockfiles back to the format they had. `read` holds,
    /// for each recorded file in order, what reading it gave: its contents, or
    /// why it could not be read. Returns for each recorded file, in order, what
    /// is to be written over it, or why it cannot be put back; one failure
    /// hinders no other file. The record itself stays as it is.
    pub fn revert_cargo_lock_manifest_versions(&mut self, read: &Vec<Result<String, String>>) -> (r:
        Vec<Result<LockfileRewrite, LockfileMismatchError>>)
        ensures
            r.len() == old(self)@.changed.len(),
            forall|i: int|
                0 <= i < r.len() ==> revert_view(#[trigger] r@[i]) == reverted(
                    old(self)@.changed[i],
                    read_at(read@, i),
                ),
            final(self)@ == old(self)@,
    {
        let mut steps: Vec<Result<LockfileRewrite, LockfileMismatchError>> = Vec::new();
        let mut i: usize = 0;
        while i < self.cargo_lock_files_with_changed_manifest_versions.len()
            invariant
                i <= self.cargo_lock_files_with_changed_manifest_versions.len(),
                *self == *old(self),
                steps.len() == i,
                forall|k: int|
                    0 <= k < i ==> revert_view(#[trigger] steps@[k]) == reverted(
                        old(self)@.changed[k],
                        read_at(read@, k),
                    ),
            decreases self.cargo_lock_files_with_changed_manifest_versions.len() - i,
        {
            let file = self.cargo_lock_files_with_changed_manifest_versions[i].clone();
            assert(file@ == old(self)@.changed[i as int]);
            let step = if i < read.len() {
                match &read[i] {
                    Ok(contents) => Ok(
                        LockfileRewrite {
                            file,
                            contents: replace_cargo_lock_manifest_version(
                                contents.as_str(),
                                "3",
                                "4",
                            ),
                        },
                    ),
                    Err(source) => Err(
                        LockfileMismatchError::ReadFile { file, source: source.clone() },
                    ),
                }
            } else {
                Err(LockfileMismatchError::ReadFile { file, source: "file not found".to_owned() })
            };
            steps.push(step);
            i += 1;
        }
        steps
    }
}

/// The text that marks a lockfile of the format `version` in its third line.
pub open spec fn marker_of(version: Seq<char>) -> Seq<char> {
    "version = "@ + version
}

/// A format version as it is written: a text without line ending.
pub open spec fn is_version_text(version: Seq<char>) -> bool {
    forall|i: int| 0 <= i < version.len() ==> #[trigger] version[i] != '\n' && version[i] != '\r'
}

/// The field of a format version is its marker as a line of its own.
pub proof fn lemma_version_field(version: Seq<char>)
    requires
        is_version_text(version),
    ensures
        version_field(version) == newline() + marker_of(version) + newline(),
        is_one_line(marker_of(version)),
        marker_of(version).len() > 0,
        marker_of(version).last() != '\r',
{
    reveal_strlit("\nversion = ");
    reveal_strlit("version = ");
    reveal_strlit("\n");
    assert(version_field(version) =~= newline() + marker_of(version) + newline());
    let m = marker_of(version);
    assert forall|i: int| 0 <= i < m.len() implies #[trigger] m[i] != '\n' by {
        if i >= 10 {
            assert(m[i] == version[i - 10]);
        }
    }
    if version.len() > 0 {
        assert(m.last() == version.last());
    }
}

/// The two format versions are written as version texts, and their markers are
/// the texts that the third line of a lockfile is searched for.
pub proof fn lemma_known_versions()
    ensures
        marker_of(old_version()) == old_marker(),
        marker_of(new_version()) == new_marker(),
        is_version_text(old_version()),
        is_version_text(new_version()),
{
    reveal_strlit("version = ");
    reveal_strlit("version = 3");
    reveal_strlit("version = 4");
    reveal_strlit("3");
    reveal_strlit("4");
    assert(marker_of(old_version()) =~= old_marker());
    assert(marker_of(new_version()) =~= new_marker());
}

/// In a text whose third line is the marker `m`, and whose second line is not,
/// the field of `m` occurs first as that third line.
proof fn lemma_field_occurs_first(a: Seq<char>, b: Seq<char>, m: Seq<char>, rest: Seq<char>)
    requires
        is_one_line(a),
        is_one_line(b),
        is_one_line(m),
        b != m,
    ensures
        ({
            let field = newline() + m + newline();
            let s = a + newline() + b + field + rest;
            let p = (a.len() + 1 + b.len()) as int;
            &&& occurs_at(s, field, p)
            &&& forall|j: int| 0 <= j < p ==> !occurs_at(s, field, j)
            &&& s.subrange(0, p) == a + newline() + b
            &&& s == a + newline() + b + newline() + m + newline() + rest
        }),
{
    let field = newline() + m + newline();
    let s = a + newline() + b + field + rest;
    let p = (a.len() + 1 + b.len()) as int;
    let e0 = a.len() as int;
    assert(s.subrange(p, p + field.len()) =~= field);
    assert(s.subrange(0, p) =~= a + newline() + b);
    assert(s =~= a + newline() + b + newline() + m + newline() + rest);
    assert forall|j: int| 0 <= j < p implies !occurs_at(s, field, j) by {
        if occurs_at(s, field, j) {
            let w = s.subrange(j, j + field.len());
            assert(w[0] == s[j]);
            assert(field[0] == '\n');
            if j < e0 {
                assert(s[j] == a[j]);
            } else if j > e0 {
                assert(s[j] == b[j - e0 - 1]);
            } else {
                assert(w[m.len() as int + 1] == s[j + m.len() + 1]);
                assert(field[m.len() as int + 1] == '\n');
                if m.len() < b.len() {
                    assert(s[e0 + 1 + m.len()] == b[m.len() as int]);
                } else if m.len() > b.len() {
                    assert(w[b.len() as int + 1] == s[j + b.len() + 1]);
                    assert(s[e0 + 1 + b.len()] == '\n');
                    assert(field[b.len() as int + 1] == m[b.len() as int]);
                } else {
                    assert forall|k: int| 0 <= k < b.len() implies b[k] == m[k] by {
                        assert(w[k + 1] == s[j + k + 1]);
                        assert(s[e0 + 1 + k] == b[k]);
                        assert(field[k + 1] == m[k]);
                    }
                    assert(b =~= m);
                }
            }
        }
    }
}

/// In a lockfile whose third line is the marker of `from_version`, ended by a
/// line feed, and whose second line is not that marker, the change of the
/// format version to `to_version` leaves the first two lines as they are and
/// makes the third line the marker of `to_version`, ended by a line feed.
pub proof fn lemma_third_line_changes(
    first: Seq<char>,
    second: Seq<char>,
    rest: Seq<char>,
    from_version: Seq<char>,
    to_version: Seq<char>,
)
    requires
        is_one_line(first),
        is_one_line(second),
        is_version_text(from_version),
        is_version_text(to_version),
        second != marker_of(from_version),
    ensures
        ({
            let contents = first + newline() + second + version_field(from_version) + rest;
            let changed = with_version(contents, from_version, to_version);
            &&& lines(contents).len() >= 3
            &&& lines(contents)[2] == marker_of(from_version)
            &&& lines(changed).len() >= 3
            &&& lines(changed)[2] == marker_of(to_version)
            &&& exists|tail: Seq<char>|
                changed == first + newline() + second + version_field(to_version) + tail
        }),
{
    let contents = first + newline() + second + version_field(from_version) + rest;
    let changed = with_version(contents, from_version, to_version);
    let from_marker = marker_of(from_version);
    let to_marker = marker_of(to_version);
    lemma_version_field(from_version);
    lemma_version_field(to_version);
    lemma_field_occurs_first(first, second, from_marker, rest);
    lemma_third_line(first, second, from_marker, rest);
    let p = (first.len() + 1 + second.len()) as int;
    lemma_replace_first(contents, version_field(from_version), version_field(to_version), p);
    let tail = replace_from(
        contents,
        version_field(from_version),
        version_field(to_version),
        p + version_field(from_version).len(),
    );
    assert(changed == first + newline() + second + version_field(to_version) + tail);
    assert(changed =~= first + newline() + second + newline() + to_marker + newline() + tail);
    lemma_third_line(first, second, to_marker, tail);
}

/// A lockfile whose third line is `version = 4` is in conflict with an old
/// toolchain. Without leave to rewrite it, the conflict stands. With leave, it
/// is rewritten so that its third line is `version = 3`; and when the rewritten
/// file is put back, its third line is `version = 4` again.
///
/// This holds of a lockfile whose third line is ended by a line feed alone and
/// whose second line is not itself one of the two markers: the rewriting goes
/// by the text of the whole field, line feeds included, and a second line that
/// reads like a marker takes the line feed that the third line would need.
pub proof fn lemma_conflict_is_rewritten_and_put_back(
    file: Seq<char>,
    first: Seq<char>,
    second: Seq<char>,
    rest: Seq<char>,
)
    requires
        is_one_line(first),
        is_one_line(second),
        second != new_marker(),
        second != old_marker(),
    ensures
        ({
            let contents = first + newline() + second + version_field(new_version()) + rest;
            let rewritten = with_version(contents, new_version(), old_version());
            let put_back = with_version(rewritten, old_version(), new_version());
            &&& lines(contents)[2] == new_marker()
            &&& verdict(file, contents, false) == Verdict::Fail(
                LockfileFailure::ConflictingVersions,
            )
            &&& verdict(file, contents, true) == Verdict::Rewrite(rewritten)
            &&& lines(rewritten)[2] == old_marker()
            &&& reverted(file, Some(Ok(rewritten))) == Ok::<
                (Seq<char>, Seq<char>),
                LockfileFailure,
            >((file, put_back))
            &&& lines(put_back)[2] == new_marker()
        }),
{
    let contents = first + newline() + second + version_field(new_version()) + rest;
    let rewritten = with_version(contents, new_version(), old_version());
    lemma_known_versions();
    lemma_third_line_changes(first, second, rest, new_version(), old_version());
    let tail = choose|tail: Seq<char>|
        rewritten == first + newline() + second + version_field(old_version()) + tail;
    lemma_third_line_changes(first, second, tail, old_version(), new_version());
    assert(new_marker().subrange(0, new_marker().len() as int) =~= new_marker());
    assert(occurs_at(lines(contents)[2], new_marker(), 0));
}

/// A lockfile with fewer than three lines is rejected, whether or not it may be
/// rewritten.
pub proof fn lemma_too_few_lines(file: Seq<char>, contents: Seq<char>, force: bool)
    requires
        lines(contents).len() < 3,
    ensures
        verdict(file, contents, force) == Verdict::Fail(
            LockfileFailure::TooFewLinesInLockfile { file },
        ),
{
}

/// What the handler makes of such a conflict while it is set up, once the
/// compiler in use has turned out too old and the lockfile of the shader crate
/// has been read: without leave to rewrite, the setting up fails with the
/// conflict; with leave, the lockfile is written anew with `version = 3` in its
/// third line, and once that is done it is recorded for putting back.
pub proof fn lemma_conflict_while_setting_up(
    h: HandlerModel,
    first: Seq<char>,
    second: Seq<char>,
    rest: Seq<char>,
)
    requires
        h.stage == LockfileStage::ReadingShaderLock,
        is_one_line(first),
        is_one_line(second),
        second != new_marker(),
        second != old_marker(),
    ensures
        ({
            let contents = first + newline() + second + version_field(new_version()) + rest;
            let file = lockfile_in(h.shader_crate_path);
            let read = lockfile_step(h, LockfileEventModel::Read(Ok(Some(contents))));
            let written = lockfile_step(read.0, LockfileEventModel::Written(Ok(())));
            &&& !h.force ==> read == failed(h, LockfileFailure::ConflictingVersions)
            &&& h.force ==> {
                &&& read.1 matches LockfileActionModel::WriteFile { file: f, contents: c }
                &&& f == file
                &&& lines(c)[2] == old_marker()
                &&& written.0.changed == h.changed.push(file)
                &&& written.1 == LockfileActionModel::QueryRustVersion(Some(h.toolchain_channel))
            }
        }),
{
    lemma_conflict_is_rewritten_and_put_back(lockfile_in(h.shader_crate_path), first, second, rest);
}

/// A lockfile of the shader crate with fewer than three lines makes the
/// setting up fail, whether or not lockfiles may be rewritten.
pub proof fn lemma_too_few_lines_while_setting_up(h: HandlerModel, contents: Seq<char>)
    requires
        h.stage == LockfileStage::ReadingShaderLock || h.stage
            == LockfileStage::RereadingShaderLock,
        lines(contents).len() < 3,
    ensures
        lockfile_step(h, LockfileEventModel::Read(Ok(Some(contents)))) == failed(
            h,
            LockfileFailure::TooFewLinesInLockfile { file: lockfile_in(h.shader_crate_path) },
        ),
{
}

/// The record of changed lockfiles only grows, and only by a lockfile that has
/// just been written anew for the time of the build: that of the shader crate
/// for the compiler in use, or that of the workspace. A lockfile that is
/// corrected for the shader toolchain is not recorded.
pub proof fn lemma_record_grows_by_rewritten_files(h: HandlerModel, event: LockfileEventModel)
    ensures
        ({
            let next = lockfile_step(h, event).0;
            ||| next.changed == h.changed
            ||| {
                &&& event matches LockfileEventModel::Written(Ok(_))
                &&& h.stage == LockfileStage::RewritingShaderLock
                &&& next.changed == h.changed.push(lockfile_in(h.shader_crate_path))
            }
            ||| {
                &&& event matches LockfileEventModel::Written(Ok(_))
                &&& h.stage == LockfileStage::RewritingWorkspaceLock
                &&& next.changed == h.changed.push(lockfile_in(h.workspace_root))
            }
        }),
{
}

/// A lockfile is only ever written anew where rewriting is allowed.
pub proof fn lemma_rewriting_needs_leave(h: HandlerModel, event: LockfileEventModel)
    requires
        lockfile_step(h, event).1 is WriteFile,
    ensures
        h.force,
{
}

} // verus!
