//! Asking the user before a toolchain or its components are installed.
//!
//! The question is put on the terminal and answered with one key. Consent can
//! be given beforehand, and is then not asked for; without a terminal it cannot
//! be asked for at all.

use vstd::prelude::*;
use crate::command::CommandExecError;

verus! {

/// Why the user's consent was not had.
#[derive(Clone, Debug, PartialEq, Eq)]
pub enum UserConsentError {
    /// A command failed.
    CommandExec(CommandExecError),
    /// There is no terminal to ask on.
    NoTTY,
    /// The terminal could not be read or set up.
    IoRead(String),
    /// The terminal could not be written to.
    IoWrite(String),
    /// The user said no.
    UserDenied,
    /// An event came that the step before had not asked for.
    OutOfTurn,
}

/// What a `UserConsentError` stands for, as far as a dialogue decides it.
pub enum ConsentFailure {
    CommandExec,
    NoTTY,
    IoRead(Seq<char>),
    IoWrite(Seq<char>),
    UserDenied,
    OutOfTurn,
}

impl View for UserConsentError {
    type V = ConsentFailure;

    open spec fn view(&self) -> ConsentFailure {
        match self {
            UserConsentError::CommandExec(_) => ConsentFailure::CommandExec,
            UserConsentError::NoTTY => ConsentFailure::NoTTY,
            UserConsentError::IoRead(s) => ConsentFailure::IoRead(s@),
            UserConsentError::IoWrite(s) => ConsentFailure::IoWrite(s@),
            UserConsentError::UserDenied => ConsentFailure::UserDenied,
            UserConsentError::OutOfTurn => ConsentFailure::OutOfTurn,
        }
    }
}

/// A key of the terminal.
#[derive(Clone, Copy, Debug, PartialEq, Eq, Structural)]
pub enum Key {
    /// The key of a character.
    Char(char),
    /// The enter key.
    Enter,
    /// Any other key.
    Other,
}

/// What was done to a key.
#[derive(Clone, Copy, Debug, PartialEq, Eq, Structural)]
pub enum KeyKind {
    /// It was pressed.
    Press,
    /// It was held down.
    Repeat,
    /// It was let go.
    Release,
}

/// What the terminal reports.
#[derive(Clone, Copy, Debug, PartialEq, Eq, Structural)]
pub enum TerminalInput {
    /// Something was done to a key.
    Key {
        /// The key.
        key: Key,
        /// What was done to it.
        kind: KeyKind,
    },
    /// Anything else.
    Other,
}

/// How far a dialogue has come.
#[derive(Clone, Copy, Debug, PartialEq, Eq, Structural)]
pub enum ConsentStage {
    /// Nothing has been done yet.
    Start,
    /// The terminal is being set to hand over single keys.
    EnablingRawMode,
    /// The question is being written.
    Prompting,
    /// The answer is being read.
    Reading,
    /// The answer is being read once more.
    Rereading,
    /// The terminal is being set back.
    DisablingRawMode,
    /// The dialogue has ended.
    Finished,
}

/// A dialogue with the user about one installation, as far as it has come.
#[derive(Clone, Debug, PartialEq, Eq)]
pub struct UserConsent {
    /// What the user is asked to consent to.
    pub prompt: String,
    /// Whether consent was given beforehand.
    pub skip: bool,
    /// How far the dialogue has come.
    pub stage: ConsentStage,
    /// What the user answered, once it was read.
    pub answer: TerminalInput,
}

/// What a `UserConsent` stands for.
pub struct UserConsentModel {
    pub prompt: Seq<char>,
    pub skip: bool,
    pub stage: ConsentStage,
    pub answer: TerminalInput,
}

impl View for UserConsent {
    type V = UserConsentModel;

    open spec fn view(&self) -> UserConsentModel {
        UserConsentModel {
            prompt: self.prompt@,
            skip: self.skip,
            stage: self.stage,
            answer: self.answer,
        }
    }
}

/// What happened since the last step of a dialogue.
#[derive(Debug, PartialEq, Eq)]
pub enum ConsentEvent {
    /// The dialogue is to begin; `is_tty` says whether there is a terminal.
    Begin {
        /// Whether the output goes to a terminal.
        is_tty: bool,
    },
    /// What was to be done to the terminal was done, or why it could not be.
    Done(Result<(), String>),
    /// What the terminal reported, or why it could not be read.
    Input(Result<TerminalInput, String>),
}

/// What a `ConsentEvent` stands for.
pub enum ConsentEventModel {
    Begin { is_tty: bool },
    Done(Result<(), Seq<char>>),
    Input(Result<TerminalInput, Seq<char>>),
}

impl View for ConsentEvent {
    type V = ConsentEventModel;

    open spec fn view(&self) -> ConsentEventModel {
        match self {
            ConsentEvent::Begin { is_tty } => ConsentEventModel::Begin { is_tty: *is_tty },
            ConsentEvent::Done(r) => ConsentEventModel::Done(
                match r {
                    Ok(()) => Ok(()),
                    Err(e) => Err(e@),
                },
            ),
            ConsentEvent::Input(r) => ConsentEventModel::Input(
                match r {
                    Ok(input) => Ok(*input),
                    Err(e) => Err(e@),
                },
            ),
        }
    }
}

/// What the caller is to do next for a dialogue.
#[derive(Debug, PartialEq, Eq)]
pub enum ConsentAction {
    /// Set the terminal to hand over single keys; report `Done`.
    EnableRawMode,
    /// Set the terminal back; report `Done`.
    DisableRawMode,
    /// Write this to the user; report `Done`.
    Write(String),
    /// Read what the terminal reports next; report `Input`.
    ReadInput,
    /// Nothing more: the dialogue has ended with this result.
    Finish(Result<(), UserConsentError>),
}

/// What a `ConsentAction` stands for.
pub enum ConsentActionModel {
    EnableRawMode,
    DisableRawMode,
    Write(Seq<char>),
    ReadInput,
    Finish(Result<(), ConsentFailure>),
}

impl View for ConsentAction {
    type V = ConsentActionModel;

    open spec fn view(&self) -> ConsentActionModel {
        match self {
            ConsentAction::EnableRawMode => ConsentActionModel::EnableRawMode,
            ConsentAction::DisableRawMode => ConsentActionModel::DisableRawMode,
            ConsentAction::Write(s) => ConsentActionModel::Write(s@),
            ConsentAction::ReadInput => ConsentActionModel::ReadInput,
            ConsentAction::Finish(r) => ConsentActionModel::Finish(
                match r {
                    Ok(()) => Ok(()),
                    Err(e) => Err(e@),
                },
            ),
        }
    }
}

/// What asks the user about the toolchain of `channel`.
pub open spec fn toolchain_message(channel: Seq<char>) -> Seq<char> {
    "Rust "@ + channel + " with `rustup`"@
}

/// What asks the user about the required components of the toolchain of
/// `channel`.
pub open spec fn components_message(channel: Seq<char>) -> Seq<char> {
    "components [\"rust-src\", \"rustc-dev\", \"llvm-tools\"] for toolchain "@ + channel
        + " with `rustup`"@
}

/// The question about `message`.
pub open spec fn question(message: Seq<char>) -> Seq<char> {
    "Install "@ + message + " [y/n]: "@
}

/// What tells the user that `message` is being installed.
pub open spec fn notice(message: Seq<char>) -> Seq<char> {
    "Installing "@ + message + "\n"@
}

/// The input is the letting go of the enter key: what a terminal may still
/// report of the key that started the program.
pub open spec fn is_stray_enter(input: TerminalInput) -> bool {
    input == (TerminalInput::Key { key: Key::Enter, kind: KeyKind::Release })
}

/// The input says yes: it is the key `y`.
pub open spec fn says_yes(input: TerminalInput) -> bool {
    input matches TerminalInput::Key { key: Key::Char(c), kind } && c == 'y'
}

/// The dialogue at `stage`, with the rest of `s` unchanged.
pub open spec fn consent_at(s: UserConsentModel, stage: ConsentStage) -> UserConsentModel {
    UserConsentModel { stage, ..s }
}

/// The end of a dialogue with `result`.
pub open spec fn consent_finished(s: UserConsentModel, result: Result<(), ConsentFailure>) -> (
    UserConsentModel,
    ConsentActionModel,
) {
    (consent_at(s, ConsentStage::Finished), ConsentActionModel::Finish(result))
}

/// The step that sets the terminal back, once `answer` was read.
pub open spec fn to_disabling(s: UserConsentModel, answer: TerminalInput) -> (
    UserConsentModel,
    ConsentActionModel,
) {
    (
        UserConsentModel { stage: ConsentStage::DisablingRawMode, answer, ..s },
        ConsentActionModel::DisableRawMode,
    )
}

/// One step of a dialogue: the dialogue after `event`, and what the caller is
/// to do next.
///
/// Consent given beforehand ends the dialogue at once. Without a terminal it
/// fails at once. Else the question is written and one key is read: `y` is
/// consent, anything else a refusal. Where the first thing read is the letting
/// go of the enter key, it is passed over and the next one counts.
pub open spec fn consent_step(s: UserConsentModel, event: ConsentEventModel) -> (
    UserConsentModel,
    ConsentActionModel,
) {
    match (s.stage, event) {
        (ConsentStage::Start, ConsentEventModel::Begin { is_tty }) => if s.skip {
            consent_finished(s, Ok(()))
        } else if !is_tty {
            consent_finished(s, Err(ConsentFailure::NoTTY))
        } else {
            (consent_at(s, ConsentStage::EnablingRawMode), ConsentActionModel::EnableRawMode)
        },
        (ConsentStage::EnablingRawMode, ConsentEventModel::Done(r)) => match r {
            Err(e) => consent_finished(s, Err(ConsentFailure::IoRead(e))),
            Ok(()) => (
                consent_at(s, ConsentStage::Prompting),
                ConsentActionModel::Write(question(s.prompt)),
            ),
        },
        (ConsentStage::Prompting, ConsentEventModel::Done(r)) => match r {
            Err(e) => consent_finished(s, Err(ConsentFailure::IoWrite(e))),
            Ok(()) => (consent_at(s, ConsentStage::Reading), ConsentActionModel::ReadInput),
        },
        (ConsentStage::Reading, ConsentEventModel::Input(r)) => match r {
            Err(e) => consent_finished(s, Err(ConsentFailure::IoRead(e))),
            Ok(input) => if is_stray_enter(input) {
                (consent_at(s, ConsentStage::Rereading), ConsentActionModel::ReadInput)
            } else {
                to_disabling(s, input)
            },
        },
        (ConsentStage::Rereading, ConsentEventModel::Input(r)) => match r {
            Err(e) => consent_finished(s, Err(ConsentFailure::IoRead(e))),
            Ok(input) => to_disabling(s, input),
        },
        (ConsentStage::DisablingRawMode, ConsentEventModel::Done(r)) => match r {
            Err(e) => consent_finished(s, Err(ConsentFailure::IoRead(e))),
            Ok(()) => if says_yes(s.answer) {
                consent_finished(s, Ok(()))
            } else {
                consent_finished(s, Err(ConsentFailure::UserDenied))
            },
        },
        _ => consent_finished(s, Err(ConsentFailure::OutOfTurn)),
    }
}

/// What asks the user about the toolchain of `channel`.
pub fn toolchain_install_message(channel: &str) -> (message: String)
    ensures
        message@ == toolchain_message(channel@),
{
    let mut message = "Rust ".to_owned();
    message.append(channel);
    message.append(" with `rustup`");
    message
}

/// What asks the user about the required components of the toolchain of
/// `channel`.
pub fn components_install_message(channel: &str) -> (message: String)
    ensures
        message@ == components_message(channel@),
{
    let mut message = "components [\"rust-src\", \"rustc-dev\", \"llvm-tools\"] for toolchain ".to_owned();
    message.append(channel);
    message.append(" with `rustup`");
    message
}

/// What tells the user that `message` is being installed.
pub fn install_notice(message: &str) -> (text: String)
    ensures
        text@ == notice(message@),
{
    let mut text = "Installing ".to_owned();
    text.append(message);
    text.append("\n");
    text
}

impl UserConsent {
    /// A dialogue about `message`, before its first step. With `skip` the user
    /// has consented beforehand.
    pub fn new(message: &str, skip: bool) -> (s: Self)
        ensures
            s@ == (UserConsentModel {
                prompt: message@,
                skip,
                stage: ConsentStage::Start,
                answer: TerminalInput::Other,
            }),
    {
        UserConsent {
            prompt: message.to_owned(),
            skip,
            stage: ConsentStage::Start,
            answer: TerminalInput::Other,
        }
    }

    fn finish(self, result: Result<(), UserConsentError>) -> (r: (Self, ConsentAction))
        ensures
            (r.0@, r.1@) == consent_finished(
                self@,
                match result {
                    Ok(()) => Ok(()),
                    Err(e) => Err(e@),
                },
            ),
    {
        let mut s = self;
        s.stage = ConsentStage::Finished;
        (s, ConsentAction::Finish(result))
    }

    fn to_disabling(self, answer: TerminalInput) -> (r: (Self, ConsentAction))
        ensures
            (r.0@, r.1@) == to_disabling(self@, answer),
    {
        let mut s = self;
        s.stage = ConsentStage::DisablingRawMode;
        s.answer = answer;
        (s, ConsentAction::DisableRawMode)
    }

    /// Takes one step of the dialogue: given what happened since the last step,
    /// returns the dialogue after it and what the caller is to do next.
    pub fn get_user_consent(self, event: ConsentEvent) -> (r: (Self, ConsentAction))
        ensures
            (r.0@, r.1@) == consent_step(self@, event@),
    {
        match (self.stage, event) {
            (ConsentStage::Start, ConsentEvent::Begin { is_tty }) => if self.skip {
                self.finish(Ok(()))
            } else if !is_tty {
                self.finish(Err(UserConsentError::NoTTY))
            } else {
                let mut s = self;
                s.stage = ConsentStage::EnablingRawMode;
                (s, ConsentAction::EnableRawMode)
            },
            (ConsentStage::EnablingRawMode, ConsentEvent::Done(r)) => match r {
                Err(e) => self.finish(Err(UserConsentError::IoRead(e))),
                Ok(()) => {
                    let mut s = self;
                    s.stage = ConsentStage::Prompting;
                    let mut text = "Install ".to_owned();
                    text.append(s.prompt.as_str());
                    text.append(" [y/n]: ");
                    (s, ConsentAction::Write(text))
                },
            },
            (ConsentStage::Prompting, ConsentEvent::Done(r)) => match r {
                Err(e) => self.finish(Err(UserConsentError::IoWrite(e))),
                Ok(()) => {
                    let mut s = self;
                    s.stage = ConsentStage::Reading;
                    (s, ConsentAction::ReadInput)
                },
            },
            (ConsentStage::Reading, ConsentEvent::Input(r)) => match r {
                Err(e) => self.finish(Err(UserConsentError::IoRead(e))),
                Ok(input) => {
                    let stray = match input {
                        TerminalInput::Key { key: Key::Enter, kind: KeyKind::Release } => true,
                        _ => false,
                    };
                    if stray {
                        let mut s = self;
                        s.stage = ConsentStage::Rereading;
                        (s, ConsentAction::ReadInput)
                    } else {
                        self.to_disabling(input)
                    }
                },
            },
            (ConsentStage::Rereading, ConsentEvent::Input(r)) => match r {
                Err(e) => self.finish(Err(UserConsentError::IoRead(e))),
                Ok(input) => self.to_disabling(input),
            },
            (ConsentStage::DisablingRawMode, ConsentEvent::Done(r)) => match r {
                Err(e) => self.finish(Err(UserConsentError::IoRead(e))),
                Ok(()) => {
                    let yes = match self.answer {
                        TerminalInput::Key { key: Key::Char(c), .. } => c == 'y',
                        _ => false,
                    };
                    if yes {
                        self.finish(Ok(()))
                    } else {
                        self.finish(Err(UserConsentError::UserDenied))
                    }
                },
            },
            (_, _) => self.finish(Err(UserConsentError::OutOfTurn)),
        }
    }
}

} // verus!
