//! The toolchain that `rust-gpu` needs and its required components: what the
//! toolchain manager reports, what is missing, and which commands supply it.

use vstd::prelude::*;
use crate::command::{
    execute_command, judged, outcome_view, texts_view, CommandExecError, CommandFailure,
    CommandLine, CommandLineModel, CommandOutput, CommandOutputModel,
};
use crate::text::{
    begins_with, chars_of, finishes_with, has_prefix, has_suffix, lines, matches_at, occurs_at,
    rows_view, split_lines,
};

verus! {

/// Lets the caller halt the installation of a toolchain or of its required
/// components: one hook is asked before each of the two.
#[derive(Clone, Copy, Debug)]
pub struct HaltToolchainInstallation<T, C> {
    /// Asked before a toolchain is installed.
    pub on_toolchain_install: T,
    /// Asked before the required components of a toolchain are installed.
    pub on_components_install: C,
}

/// The hook that lets every toolchain be installed.
#[derive(Clone, Copy, Debug, PartialEq, Eq, Structural)]
pub struct NoopOnToolchainInstall;

/// The hook that lets the required components of every toolchain be installed.
#[derive(Clone, Copy, Debug, PartialEq, Eq, Structural)]
pub struct NoopOnComponentsInstall;

impl NoopOnToolchainInstall {
    /// Consents to the installation of the toolchain of `channel`.
    pub fn call<E>(&self, channel: &str) -> (r: Result<(), E>)
        ensures
            r is Ok,
    {
        Ok(())
    }
}

impl NoopOnComponentsInstall {
    /// Consents to the installation of the required components of the toolchain
    /// of `channel`.
    pub fn call<E>(&self, channel: &str) -> (r: Result<(), E>)
        ensures
            r is Ok,
    {
        Ok(())
    }
}

impl HaltToolchainInstallation<NoopOnToolchainInstall, NoopOnComponentsInstall> {
    /// Hooks that halt nothing: each consents, whatever the channel, and does
    /// nothing else.
    pub fn noop() -> (halt: Self)
        ensures
            halt.on_toolchain_install == NoopOnToolchainInstall,
            halt.on_components_install == NoopOnComponentsInstall,
    {
        HaltToolchainInstallation {
            on_toolchain_install: NoopOnToolchainInstall,
            on_components_install: NoopOnComponentsInstall,
        }
    }
}

/// The characters that separate the words of a listing: the white space of
/// Unicode.
pub open spec fn is_whitespace(c: char) -> bool {
    ||| '\u{9}' <= c <= '\u{d}'
    ||| c == ' '
    ||| c == '\u{85}'
    ||| c == '\u{a0}'
    ||| c == '\u{1680}'
    ||| '\u{2000}' <= c <= '\u{200a}'
    ||| c == '\u{2028}'
    ||| c == '\u{2029}'
    ||| c == '\u{202f}'
    ||| c == '\u{205f}'
    ||| c == '\u{3000}'
}

/// Whether `c` separates words.
pub fn is_whitespace_char(c: char) -> (b: bool)
    ensures
        b == is_whitespace(c),
{
    ('\u{9}' <= c && c <= '\u{d}') || c == ' ' || c == '\u{85}' || c == '\u{a0}' || c
        == '\u{1680}' || ('\u{2000}' <= c && c <= '\u{200a}') || c == '\u{2028}' || c
        == '\u{2029}' || c == '\u{202f}' || c == '\u{205f}' || c == '\u{3000}'
}

/// A word of `list` starts at index `i`.
pub open spec fn word_starts_at(list: Seq<char>, i: int) -> bool {
    &&& 0 <= i < list.len()
    &&& !is_whitespace(list[i])
    &&& (i == 0 || is_whitespace(list[i - 1]))
}

/// `s` holds no white space.
pub open spec fn is_one_word(s: Seq<char>) -> bool {
    forall|j: int| 0 <= j < s.len() ==> !is_whitespace(#[trigger] s[j])
}

/// The toolchain listing `list` names `channel`: one of its words begins with
/// it.
pub open spec fn toolchain_listed(list: Seq<char>, channel: Seq<char>) -> bool {
    &&& is_one_word(channel)
    &&& exists|i: int| word_starts_at(list, i) && occurs_at(list, channel, i)
}

/// What ends the line of an installed component.
pub open spec fn installed_mark() -> Seq<char> {
    "(installed)"@
}

/// The component listing with the lines `ls` shows `component` as installed:
/// one line begins with its name and ends with the mark.
pub open spec fn component_installed(ls: Seq<Seq<char>>, component: Seq<char>) -> bool {
    exists|k: int|
        0 <= k < ls.len() && begins_with(#[trigger] ls[k], component) && finishes_with(
            ls[k],
            installed_mark(),
        )
}

/// The components that a toolchain needs to build `rust-gpu`.
pub open spec fn required_components() -> Seq<Seq<char>> {
    seq!["rust-src"@, "rustc-dev"@, "llvm-tools"@]
}

/// The component listing `list` shows every required component as installed.
pub open spec fn all_required_installed(list: Seq<char>) -> bool {
    forall|c: int|
        0 <= c < required_components().len() ==> component_installed(
            lines(list),
            #[trigger] required_components()[c],
        )
}

/// Those of `required` that the listing with the lines `ls` does not show as
/// installed, in their order.
pub open spec fn missing_among(ls: Seq<Seq<char>>, required: Seq<Seq<char>>) -> Seq<Seq<char>>
    decreases required.len(),
{
    if required.len() == 0 {
        Seq::empty()
    } else {
        let head = missing_among(ls, required.drop_last());
        if component_installed(ls, required.last()) {
            head
        } else {
            head.push(required.last())
        }
    }
}

/// The required components that the component listing `list` does not show as
/// installed.
pub open spec fn missing_components(list: Seq<char>) -> Seq<Seq<char>> {
    missing_among(lines(list), required_components())
}

/// The components which a toolchain must have to build `rust-gpu`.
pub fn required_toolchain_components() -> (r: Vec<String>)
    ensures
        texts_view(r@) == required_components(),
{
    let mut r: Vec<String> = Vec::new();
    r.push("rust-src".to_owned());
    r.push("rustc-dev".to_owned());
    r.push("llvm-tools".to_owned());
    assert(texts_view(r@) =~= required_components());
    r
}

/// Whether the toolchain listing of the toolchain manager names `channel`.
pub fn is_toolchain_installed(toolchain_list: &str, channel: &str) -> (installed: bool)
    ensures
        installed == toolchain_listed(toolchain_list@, channel@),
{
    let list = chars_of(toolchain_list);
    let wanted = chars_of(channel);
    let mut j: usize = 0;
    while j < wanted.len()
        invariant
            j <= wanted.len(),
            wanted@ == channel@,
            forall|k: int| 0 <= k < j ==> !is_whitespace(#[trigger] wanted@[k]),
        decreases wanted.len() - j,
    {
        if is_whitespace_char(wanted[j]) {
            assert(is_whitespace(channel@[j as int]));
            return false;
        }
        j += 1;
    }
    let mut i: usize = 0;
    while i < list.len()
        invariant
            i <= list.len(),
            list@ == toolchain_list@,
            wanted@ == channel@,
            is_one_word(wanted@),
            forall|k: int| 0 <= k < i ==> !(word_starts_at(list@, k) && occurs_at(list@, wanted@, k)),
        decreases list.len() - i,
    {
        let starts = !is_whitespace_char(list[i]) && (i == 0 || is_whitespace_char(list[i - 1]));
        if starts && matches_at(&list, &wanted, i) {
            assert(word_starts_at(list@, i as int) && occurs_at(list@, wanted@, i as int));
            return true;
        }
        i += 1;
    }
    false
}

/// Whether one of `rows` begins with `component` and ends with the mark of an
/// installed component.
fn is_component_installed(rows: &Vec<Vec<char>>, component: &Vec<char>, mark: &Vec<char>) -> (b:
    bool)
    requires
        mark@ == installed_mark(),
    ensures
        b == component_installed(rows_view(rows@), component@),
{
    let ghost ls = rows_view(rows@);
    let mut k: usize = 0;
    while k < rows.len()
        invariant
            k <= rows.len(),
            ls == rows_view(rows@),
            mark@ == installed_mark(),
            forall|j: int|
                0 <= j < k ==> !(begins_with(#[trigger] ls[j], component@) && finishes_with(
                    ls[j],
                    installed_mark(),
                )),
        decreases rows.len() - k,
    {
        assert(ls[k as int] == rows@[k as int]@);
        if has_prefix(&rows[k], component) && has_suffix(&rows[k], mark) {
            return true;
        }
        k += 1;
    }
    false
}

/// The required components which the component listing of the toolchain
/// manager does not show as installed.
pub fn missing_toolchain_components(component_list: &str) -> (missing: Vec<String>)
    ensures
        texts_view(missing@) == missing_components(component_list@),
{
    let list = chars_of(component_list);
    let rows = split_lines(&list);
    let mark = chars_of("(installed)");
    let required = required_toolchain_components();
    let ghost ls = lines(component_list@);
    let ghost req = required_components();
    let mut missing: Vec<String> = Vec::new();
    let mut c: usize = 0;
    assert(req.subrange(0, 0) =~= Seq::<Seq<char>>::empty());
    assert(texts_view(missing@) =~= missing_among(ls, req.subrange(0, 0)));
    while c < required.len()
        invariant
            c <= required.len(),
            texts_view(required@) == req,
            rows_view(rows@) == ls,
            mark@ == installed_mark(),
            texts_view(missing@) == missing_among(ls, req.subrange(0, c as int)),
        decreases required.len() - c,
    {
        let name = chars_of(required[c].as_str());
        assert(req[c as int] == required@[c as int]@);
        assert(req.subrange(0, c + 1).drop_last() =~= req.subrange(0, c as int));
        if !is_component_installed(&rows, &name, &mark) {
            let ghost before = texts_view(missing@);
            missing.push(required[c].clone());
            assert(texts_view(missing@) =~= before.push(req[c as int]));
        }
        c += 1;
    }
    assert(req.subrange(0, req.len() as int) =~= req);
    missing
}

/// Whether the component listing of the toolchain manager shows every required
/// component as installed.
pub fn all_required_toolchain_components_installed(component_list: &str) -> (installed: bool)
    ensures
        installed == all_required_installed(component_list@),
{
    let list = chars_of(component_list);
    let rows = split_lines(&list);
    let mark = chars_of("(installed)");
    let required = required_toolchain_components();
    let ghost req = required_components();
    let mut c: usize = 0;
    while c < required.len()
        invariant
            c <= required.len(),
            texts_view(required@) == req,
            req == required_components(),
            rows_view(rows@) == lines(component_list@),
            mark@ == installed_mark(),
            forall|d: int|
                0 <= d < c ==> component_installed(lines(component_list@), #[trigger] req[d]),
        decreases required.len() - c,
    {
        let name = chars_of(required[c].as_str());
        assert(req[c as int] == required@[c as int]@);
        if !is_component_installed(&rows, &name, &mark) {
            assert(!component_installed(lines(component_list@), required_components()[c as int]));
            return false;
        }
        c += 1;
    }
    true
}

/// A call of the toolchain manager with `args`, which writes to the caller's
/// output streams where `inherit_output` is set.
pub open spec fn rustup_command(args: Seq<Seq<char>>, inherit_output: bool) -> CommandLineModel {
    CommandLineModel { program: "rustup"@, args, current_dir: None, inherit_output }
}

/// The command that lists the installed toolchains.
pub open spec fn toolchain_list_command() -> CommandLineModel {
    rustup_command(seq!["toolchain"@, "list"@], false)
}

/// The command that installs the toolchain `channel`.
pub open spec fn toolchain_add_command(channel: Seq<char>) -> CommandLineModel {
    rustup_command(seq!["toolchain"@, "add"@, channel], true)
}

/// The command that lists the components of the toolchain `channel`.
pub open spec fn component_list_command(channel: Seq<char>) -> CommandLineModel {
    rustup_command(seq!["component"@, "list"@, "--toolchain"@, channel], false)
}

/// The command that adds `components` to the toolchain `channel`.
pub open spec fn component_add_command(
    channel: Seq<char>,
    components: Seq<Seq<char>>,
) -> CommandLineModel {
    rustup_command(seq!["component"@, "add"@, "--toolchain"@, channel] + components, true)
}

/// A call of the toolchain manager.
fn rustup(args: Vec<String>, inherit_output: bool) -> (c: CommandLine)
    ensures
        c@ == rustup_command(texts_view(args@), inherit_output),
{
    CommandLine { program: "rustup".to_owned(), args, current_dir: None, inherit_output }
}

/// The command that lists the installed toolchains.
pub fn list_toolchains() -> (c: CommandLine)
    ensures
        c@ == toolchain_list_command(),
{
    let mut args: Vec<String> = Vec::new();
    args.push("toolchain".to_owned());
    args.push("list".to_owned());
    assert(texts_view(args@) =~= seq!["toolchain"@, "list"@]);
    rustup(args, false)
}

/// The command that installs the toolchain `channel`.
pub fn install_toolchain(channel: &str) -> (c: CommandLine)
    ensures
        c@ == toolchain_add_command(channel@),
{
    let mut args: Vec<String> = Vec::new();
    args.push("toolchain".to_owned());
    args.push("add".to_owned());
    args.push(channel.to_owned());
    assert(texts_view(args@) =~= seq!["toolchain"@, "add"@, channel@]);
    rustup(args, true)
}

/// The command that lists the components of the toolchain `channel`.
pub fn list_components(channel: &str) -> (c: CommandLine)
    ensures
        c@ == component_list_command(channel@),
{
    let mut args: Vec<String> = Vec::new();
    args.push("component".to_owned());
    args.push("list".to_owned());
    args.push("--toolchain".to_owned());
    args.push(channel.to_owned());
    assert(texts_view(args@) =~= seq!["component"@, "list"@, "--toolchain"@, channel@]);
    rustup(args, false)
}

/// The command that adds `components` to the toolchain `channel`.
pub fn install_required_toolchain_components(channel: &str, components: &Vec<String>) -> (c:
    CommandLine)
    ensures
        c@ == component_add_command(channel@, texts_view(components@)),
{
    let mut args: Vec<String> = Vec::new();
    args.push("component".to_owned());
    args.push("add".to_owned());
    args.push("--toolchain".to_owned());
    args.push(channel.to_owned());
    let ghost head = seq!["component"@, "add"@, "--toolchain"@, channel@];
    assert(texts_view(args@) =~= head);
    let mut i: usize = 0;
    assert(texts_view(components@).subrange(0, 0) =~= Seq::<Seq<char>>::empty());
    assert(texts_view(args@) =~= head + texts_view(components@).subrange(0, 0));
    while i < components.len()
        invariant
            i <= components.len(),
            texts_view(args@) == head + texts_view(components@).subrange(0, i as int),
        decreases components.len() - i,
    {
        let ghost before = texts_view(args@);
        args.push(components[i].clone());
        assert(texts_view(args@) =~= before.push(components@[i as int]@));
        i += 1;
        assert(texts_view(args@) =~= head + texts_view(components@).subrange(0, i as int));
    }
    assert(texts_view(components@).subrange(0, components.len() as int) =~= texts_view(
        components@,
    ));
    rustup(args, true)
}

/// How far the installation of a toolchain has come.
#[derive(Clone, Copy, Debug, PartialEq, Eq, Structural)]
pub enum ToolchainStage {
    /// Nothing has been done yet.
    Start,
    /// The installed toolchains are being listed.
    ListingToolchains,
    /// The caller is being asked whether the toolchain may be installed.
    AskingToolchain,
    /// The toolchain is being installed.
    AddingToolchain,
    /// The components of the toolchain are being listed.
    ListingComponents,
    /// The caller is being asked whether the components may be installed.
    AskingComponents,
    /// The missing components are being installed.
    AddingComponents,
    /// The installation has ended, well or not.
    Finished,
}

/// The installation of one toolchain, as far as it has come.
#[derive(Clone, Debug, PartialEq, Eq)]
pub struct ToolchainInstallation {
    /// The channel of the toolchain.
    pub channel: String,
    /// How far the installation has come.
    pub stage: ToolchainStage,
    /// The required components found missing, once they have been listed.
    pub missing: Vec<String>,
}

/// What a `ToolchainInstallation` stands for.
pub struct ToolchainInstallationModel {
    pub channel: Seq<char>,
    pub stage: ToolchainStage,
    pub missing: Seq<Seq<char>>,
}

impl View for ToolchainInstallation {
    type V = ToolchainInstallationModel;

    open spec fn view(&self) -> ToolchainInstallationModel {
        ToolchainInstallationModel {
            channel: self.channel@,
            stage: self.stage,
            missing: texts_view(self.missing@),
        }
    }
}

/// What happened since the last step of an installation.
#[derive(Debug)]
pub enum ToolchainEvent<E> {
    /// The installation is to begin.
    Begin,
    /// The command of the last step was run, with this outcome.
    Ran(Result<CommandOutput, String>),
    /// The caller was asked, and consented or gave the reason for halting.
    Answered(Result<(), E>),
}

/// What a `ToolchainEvent` stands for.
pub enum ToolchainEventModel<E> {
    Begin,
    Ran(Result<CommandOutputModel, Seq<char>>),
    Answered(Result<(), E>),
}

impl<E> View for ToolchainEvent<E> {
    type V = ToolchainEventModel<E>;

    open spec fn view(&self) -> ToolchainEventModel<E> {
        match self {
            ToolchainEvent::Begin => ToolchainEventModel::Begin,
            ToolchainEvent::Ran(outcome) => ToolchainEventModel::Ran(outcome_view(*outcome)),
            ToolchainEvent::Answered(answer) => ToolchainEventModel::Answered(*answer),
        }
    }
}

/// Why a toolchain could not be made ready.
#[derive(Debug)]
pub enum EnsureToolchainError<E> {
    /// A call of the toolchain manager failed.
    Command(CommandExecError),
    /// The caller halted the installation, for this reason.
    Halted(E),
    /// An event came that the step before had not asked for.
    OutOfTurn,
}

/// What an `EnsureToolchainError` stands for.
pub enum EnsureToolchainFailure<E> {
    Command(CommandFailure),
    Halted(E),
    OutOfTurn,
}

impl<E> View for EnsureToolchainError<E> {
    type V = EnsureToolchainFailure<E>;

    open spec fn view(&self) -> EnsureToolchainFailure<E> {
        match self {
            EnsureToolchainError::Command(e) => EnsureToolchainFailure::Command(e@),
            EnsureToolchainError::Halted(e) => EnsureToolchainFailure::Halted(*e),
            EnsureToolchainError::OutOfTurn => EnsureToolchainFailure::OutOfTurn,
        }
    }
}

/// What the caller is to do next for an installation.
#[derive(Debug)]
pub enum ToolchainAction<E> {
    /// Run this command and report its outcome.
    Run(CommandLine),
    /// Ask whether the toolchain of this channel may be installed, and report
    /// the answer.
    AskToolchainInstall(String),
    /// Ask whether the required components of the toolchain of this channel may
    /// be installed, and report the answer.
    AskComponentsInstall(String),
    /// Nothing more: the installation has ended with this result.
    Finish(Result<(), EnsureToolchainError<E>>),
}

/// What a `ToolchainAction` stands for.
pub enum ToolchainActionModel<E> {
    Run(CommandLineModel),
    AskToolchainInstall(Seq<char>),
    AskComponentsInstall(Seq<char>),
    Finish(Result<(), EnsureToolchainFailure<E>>),
}

impl<E> View for ToolchainAction<E> {
    type V = ToolchainActionModel<E>;

    open spec fn view(&self) -> ToolchainActionModel<E> {
        match self {
            ToolchainAction::Run(command) => ToolchainActionModel::Run(command@),
            ToolchainAction::AskToolchainInstall(channel) => {
                ToolchainActionModel::AskToolchainInstall(channel@)
            },
            ToolchainAction::AskComponentsInstall(channel) => {
                ToolchainActionModel::AskComponentsInstall(channel@)
            },
            ToolchainAction::Finish(result) => ToolchainActionModel::Finish(
                match result {
                    Ok(()) => Ok(()),
                    Err(e) => Err(e@),
                },
            ),
        }
    }
}

/// The installation at `stage`, with the rest of `s` unchanged.
pub open spec fn at_stage(
    s: ToolchainInstallationModel,
    stage: ToolchainStage,
) -> ToolchainInstallationModel {
    ToolchainInstallationModel { stage, ..s }
}

/// The end of an installation with `result`.
pub open spec fn finished<E>(
    s: ToolchainInstallationModel,
    result: Result<(), EnsureToolchainFailure<E>>,
) -> (ToolchainInstallationModel, ToolchainActionModel<E>) {
    (at_stage(s, ToolchainStage::Finished), ToolchainActionModel::Finish(result))
}

/// The step that lists the components of the toolchain.
pub open spec fn to_listing_components<E>(s: ToolchainInstallationModel) -> (
    ToolchainInstallationModel,
    ToolchainActionModel<E>,
) {
    (
        at_stage(s, ToolchainStage::ListingComponents),
        ToolchainActionModel::Run(component_list_command(s.channel)),
    )
}

/// One step of an installation: the installation after `event`, and what the
/// caller is to do next.
///
/// The toolchains are listed first. A toolchain that is not listed is installed,
/// once the caller has consented. Then its components are listed, and those
/// required ones that are missing are added in one call, once the caller has
/// consented. A failed command, a refusal, or an event that was not asked for
/// ends the installation with an error.
pub open spec fn toolchain_step<E>(s: ToolchainInstallationModel, event: ToolchainEventModel<E>) -> (
    ToolchainInstallationModel,
    ToolchainActionModel<E>,
) {
    match (s.stage, event) {
        (ToolchainStage::Start, ToolchainEventModel::Begin) => (
            at_stage(s, ToolchainStage::ListingToolchains),
            ToolchainActionModel::Run(toolchain_list_command()),
        ),
        (ToolchainStage::ListingToolchains, ToolchainEventModel::Ran(outcome)) => match judged(
            toolchain_list_command(),
            outcome,
        ) {
            Err(f) => finished(s, Err(EnsureToolchainFailure::Command(f))),
            Ok(output) => if toolchain_listed(output.stdout, s.channel) {
                to_listing_components(s)
            } else {
                (
                    at_stage(s, ToolchainStage::AskingToolchain),
                    ToolchainActionModel::AskToolchainInstall(s.channel),
                )
            },
        },
        (ToolchainStage::AskingToolchain, ToolchainEventModel::Answered(answer)) => match answer {
            Err(e) => finished(s, Err(EnsureToolchainFailure::Halted(e))),
            Ok(()) => (
                at_stage(s, ToolchainStage::AddingToolchain),
                ToolchainActionModel::Run(toolchain_add_command(s.channel)),
            ),
        },
        (ToolchainStage::AddingToolchain, ToolchainEventModel::Ran(outcome)) => match judged(
            toolchain_add_command(s.channel),
            outcome,
        ) {
            Err(f) => finished(s, Err(EnsureToolchainFailure::Command(f))),
            Ok(output) => to_listing_components(s),
        },
        (ToolchainStage::ListingComponents, ToolchainEventModel::Ran(outcome)) => match judged(
            component_list_command(s.channel),
            outcome,
        ) {
            Err(f) => finished(s, Err(EnsureToolchainFailure::Command(f))),
            Ok(output) => {
                let missing = missing_components(output.stdout);
                if missing.len() == 0 {
                    finished(s, Ok(()))
                } else {
                    (
                        ToolchainInstallationModel {
                            stage: ToolchainStage::AskingComponents,
                            missing,
                            ..s
                        },
                        ToolchainActionModel::AskComponentsInstall(s.channel),
                    )
                }
            },
        },
        (ToolchainStage::AskingComponents, ToolchainEventModel::Answered(answer)) => match answer {
            Err(e) => finished(s, Err(EnsureToolchainFailure::Halted(e))),
            Ok(()) => (
                at_stage(s, ToolchainStage::AddingComponents),
                ToolchainActionModel::Run(component_add_command(s.channel, s.missing)),
            ),
        },
        (ToolchainStage::AddingComponents, ToolchainEventModel::Ran(outcome)) => match judged(
            component_add_command(s.channel, s.missing),
            outcome,
        ) {
            Err(f) => finished(s, Err(EnsureToolchainFailure::Command(f))),
            Ok(output) => finished(s, Ok(())),
        },
        _ => finished(s, Err(EnsureToolchainFailure::OutOfTurn)),
    }
}

impl ToolchainInstallation {
    /// The installation of the toolchain `channel`, before its first step.
    pub fn new(channel: &str) -> (s: Self)
        ensures
            s@ == (ToolchainInstallationModel {
                channel: channel@,
                stage: ToolchainStage::Start,
                missing: Seq::empty(),
            }),
    {
        let s = ToolchainInstallation {
            channel: channel.to_owned(),
            stage: ToolchainStage::Start,
            missing: Vec::new(),
        };
        assert(texts_view(s.missing@) =~= Seq::<Seq<char>>::empty());
        s
    }

    fn finish<E>(self, result: Result<(), EnsureToolchainError<E>>) -> (r: (
        Self,
        ToolchainAction<E>,
    ))
        ensures
            (r.0@, r.1@) == finished::<E>(
                self@,
                match result {
                    Ok(()) => Ok(()),
                    Err(e) => Err(e@),
                },
            ),
    {
        (
            ToolchainInstallation {
                channel: self.channel,
                stage: ToolchainStage::Finished,
                missing: self.missing,
            },
            ToolchainAction::Finish(result),
        )
    }

    fn list_components<E>(self) -> (r: (Self, ToolchainAction<E>))
        ensures
            (r.0@, r.1@) == to_listing_components::<E>(self@),
    {
        let command = list_components(self.channel.as_str());
        (
            ToolchainInstallation {
                channel: self.channel,
                stage: ToolchainStage::ListingComponents,
                missing: self.missing,
            },
            ToolchainAction::Run(command),
        )
    }
}

/// Makes sure that a toolchain and its required components are installed, one
/// step at a time: takes what happened since the last step, and returns the
/// installation after it with what the caller is to do next.
pub fn ensure_toolchain_installation<E>(
    installation: ToolchainInstallation,
    event: ToolchainEvent<E>,
) -> (r: (ToolchainInstallation, ToolchainAction<E>))
    ensures
        (r.0@, r.1@) == toolchain_step(installation@, event@),
{
    let s = installation;
    match (s.stage, event) {
        (ToolchainStage::Start, ToolchainEvent::Begin) => {
            let command = list_toolchains();
            (
                ToolchainInstallation {
                    channel: s.channel,
                    stage: ToolchainStage::ListingToolchains,
                    missing: s.missing,
                },
                ToolchainAction::Run(command),
            )
        },
        (ToolchainStage::ListingToolchains, ToolchainEvent::Ran(outcome)) => {
            match execute_command(list_toolchains(), outcome) {
                Err(e) => s.finish(Err(EnsureToolchainError::Command(e))),
                Ok(output) => if is_toolchain_installed(
                    output.stdout.as_str(),
                    s.channel.as_str(),
                ) {
                    s.list_components()
                } else {
                    let channel = s.channel.clone();
                    (
                        ToolchainInstallation {
                            channel: s.channel,
                            stage: ToolchainStage::AskingToolchain,
                            missing: s.missing,
                        },
                        ToolchainAction::AskToolchainInstall(channel),
                    )
                },
            }
        },
        (ToolchainStage::AskingToolchain, ToolchainEvent::Answered(answer)) => match answer {
            Err(e) => s.finish(Err(EnsureToolchainError::Halted(e))),
            Ok(()) => {
                let command = install_toolchain(s.channel.as_str());
                (
                    ToolchainInstallation {
                        channel: s.channel,
                        stage: ToolchainStage::AddingToolchain,
                        missing: s.missing,
                    },
                    ToolchainAction::Run(command),
                )
            },
        },
        (ToolchainStage::AddingToolchain, ToolchainEvent::Ran(outcome)) => {
            match execute_command(install_toolchain(s.channel.as_str()), outcome) {
                Err(e) => s.finish(Err(EnsureToolchainError::Command(e))),
                Ok(_) => s.list_components(),
            }
        },
        (ToolchainStage::ListingComponents, ToolchainEvent::Ran(outcome)) => {
            match execute_command(list_components(s.channel.as_str()), outcome) {
                Err(e) => s.finish(Err(EnsureToolchainError::Command(e))),
                Ok(output) => {
                    let missing = missing_toolchain_components(output.stdout.as_str());
                    if missing.len() == 0 {
                        s.finish(Ok(()))
                    } else {
                        let channel = s.channel.clone();
                        (
                            ToolchainInstallation {
                                channel: s.channel,
                                stage: ToolchainStage::AskingComponents,
                                missing,
                            },
                            ToolchainAction::AskComponentsInstall(channel),
                        )
                    }
                },
            }
        },
        (ToolchainStage::AskingComponents, ToolchainEvent::Answered(answer)) => match answer {
            Err(e) => s.finish(Err(EnsureToolchainError::Halted(e))),
            Ok(()) => {
                let command = install_required_toolchain_components(
                    s.channel.as_str(),
                    &s.missing,
                );
                (
                    ToolchainInstallation {
                        channel: s.channel,
                        stage: ToolchainStage::AddingComponents,
                        missing: s.missing,
                    },
                    ToolchainAction::Run(command),
                )
            },
        },
        (ToolchainStage::AddingComponents, ToolchainEvent::Ran(outcome)) => {
            match execute_command(
                install_required_toolchain_components(s.channel.as_str(), &s.missing),
                outcome,
            ) {
                Err(e) => s.finish(Err(EnsureToolchainError::Command(e))),
                Ok(_) => s.finish(Ok(())),
            }
        },
        (_, _) => s.finish(Err(EnsureToolchainError::OutOfTurn)),
    }
}

/// Where a required component has no line that both begins with its name and
/// ends with the mark, not every required component counts as installed: to
/// take the mark off the line of one component is enough.
pub proof fn lemma_unmarked_component_is_missing(list: Seq<char>, c: int)
    requires
        0 <= c < required_components().len(),
        forall|k: int|
            0 <= k < lines(list).len() && begins_with(
                #[trigger] lines(list)[k],
                required_components()[c],
            ) ==> !finishes_with(lines(list)[k], installed_mark()),
    ensures
        !all_required_installed(list),
        !component_installed(lines(list), required_components()[c]),
{
}

/// Where each required component has a line that begins with its name and ends
/// with the mark, every required component counts as installed.
pub proof fn lemma_marked_components_are_installed(list: Seq<char>, at: Seq<int>)
    requires
        at.len() == required_components().len(),
        forall|c: int|
            0 <= c < at.len() ==> 0 <= #[trigger] at[c] < lines(list).len() && begins_with(
                lines(list)[at[c]],
                required_components()[c],
            ) && finishes_with(lines(list)[at[c]], installed_mark()),
    ensures
        all_required_installed(list),
{
    assert forall|c: int| 0 <= c < required_components().len() implies component_installed(
        lines(list),
        #[trigger] required_components()[c],
    ) by {
        let k = at[c];
        assert(begins_with(lines(list)[k], required_components()[c]));
    }
}

/// A component is among the missing ones of `required` exactly if it is one of
/// `required` and is not installed.
pub proof fn lemma_missing_among(ls: Seq<Seq<char>>, required: Seq<Seq<char>>)
    ensures
        forall|name: Seq<char>|
            missing_among(ls, required).contains(name) <==> required.contains(name)
                && !component_installed(ls, name),
    decreases required.len(),
{
    if required.len() == 0 {
    } else {
        let head = required.drop_last();
        let last = required.last();
        lemma_missing_among(ls, head);
        assert forall|name: Seq<char>|
            missing_among(ls, required).contains(name) <==> required.contains(name)
                && !component_installed(ls, name) by {
            let missing = missing_among(ls, required);
            let before = missing_among(ls, head);
            if required.contains(name) {
                let i = choose|i: int| 0 <= i < required.len() && required[i] == name;
                if i < head.len() {
                    assert(head[i] == name);
                    assert(head.contains(name));
                }
            }
            if head.contains(name) {
                let i = choose|i: int| 0 <= i < head.len() && head[i] == name;
                assert(required[i] == name);
            }
            assert(required[required.len() - 1] == last);
            if component_installed(ls, last) {
                assert(missing == before);
            } else {
                assert(missing == before.push(last));
                assert(before.push(last)[before.len() as int] == last);
                if before.contains(name) {
                    let i = choose|i: int| 0 <= i < before.len() && before[i] == name;
                    assert(before.push(last)[i] == name);
                }
                if missing.contains(name) {
                    let i = choose|i: int| 0 <= i < missing.len() && missing[i] == name;
                    if i < before.len() {
                        assert(before[i] == name);
                    }
                }
            }
        }
    }
}

/// Nothing is missing exactly if every required component is installed.
pub proof fn lemma_nothing_missing(list: Seq<char>)
    ensures
        missing_components(list).len() == 0 <==> all_required_installed(list),
{
    let ls = lines(list);
    let required = required_components();
    let missing = missing_components(list);
    lemma_missing_among(ls, required);
    if missing.len() == 0 {
        assert forall|c: int| 0 <= c < required.len() implies component_installed(
            ls,
            #[trigger] required[c],
        ) by {
            assert(required.contains(required[c]));
            if missing_among(ls, required).contains(required[c]) {
                let i = choose|i: int|
                    0 <= i < missing.len() && missing_among(ls, required)[i] == required[c];
            }
        }
    } else {
        let name = missing[0];
        assert(missing_among(ls, required).contains(name));
        assert(required.contains(name) && !component_installed(ls, name));
        let c = choose|c: int| 0 <= c < required.len() && required[c] == name;
        assert(!component_installed(ls, required[c]));
    }
}

/// Nothing is installed without consent: a command that installs the toolchain
/// or adds components follows only on the caller's answer, and only on a yes.
pub proof fn lemma_install_follows_consent<E>(
    s: ToolchainInstallationModel,
    event: ToolchainEventModel<E>,
)
    ensures
        toolchain_step(s, event).0.stage == ToolchainStage::AddingToolchain ==> s.stage
            == ToolchainStage::AskingToolchain && event matches ToolchainEventModel::Answered(
            Ok(_),
        ),
        toolchain_step(s, event).0.stage == ToolchainStage::AddingComponents ==> s.stage
            == ToolchainStage::AskingComponents && event matches ToolchainEventModel::Answered(
            Ok(_),
        ),
        toolchain_step(s, event).1 matches ToolchainActionModel::Run(command) ==> {
            ||| command == toolchain_list_command()
            ||| command == component_list_command(s.channel)
            ||| command == toolchain_add_command(s.channel) && toolchain_step(s, event).0.stage
                == ToolchainStage::AddingToolchain
            ||| command == component_add_command(s.channel, s.missing) && toolchain_step(
                s,
                event,
            ).0.stage == ToolchainStage::AddingComponents
        },
{
}

/// A toolchain that is listed with all its required components is ready after
/// the two listings: nothing is asked and nothing is installed.
pub proof fn lemma_installed_toolchain_is_left_alone<E>(
    channel: Seq<char>,
    toolchains: CommandOutputModel,
    components: CommandOutputModel,
)
    requires
        toolchains.success,
        components.success,
        toolchain_listed(toolchains.stdout, channel),
        all_required_installed(components.stdout),
    ensures
        ({
            let start = ToolchainInstallationModel {
                channel,
                stage: ToolchainStage::Start,
                missing: Seq::empty(),
            };
            let first = toolchain_step(start, ToolchainEventModel::<E>::Begin);
            let second = toolchain_step(first.0, ToolchainEventModel::<E>::Ran(Ok(toolchains)));
            let third = toolchain_step(second.0, ToolchainEventModel::<E>::Ran(Ok(components)));
            &&& first.1 == ToolchainActionModel::<E>::Run(toolchain_list_command())
            &&& second.1 == ToolchainActionModel::<E>::Run(component_list_command(channel))
            &&& third.1 == ToolchainActionModel::<E>::Finish(Ok(()))
        }),
{
    lemma_nothing_missing(components.stdout);
}

/// No command is tried twice: a command that fails ends the installation with
/// its failure.
pub proof fn lemma_failed_command_is_final<E>(
    s: ToolchainInstallationModel,
    outcome: Result<CommandOutputModel, Seq<char>>,
)
    requires
        !(outcome matches Ok(output) && output.success),
    ensures
        toolchain_step(s, ToolchainEventModel::<E>::Ran(outcome)).0.stage
            == ToolchainStage::Finished,
        toolchain_step(s, ToolchainEventModel::<E>::Ran(outcome)).1 matches ToolchainActionModel::Finish(
            Err(_),
        ),
{
}

} // verus!
