use cargo_gpu::command::{CommandExecError, CommandLine, CommandOutput};
use cargo_gpu::toolchain::{
    all_required_toolchain_components_installed, ensure_toolchain_installation,
    install_required_toolchain_components, install_toolchain, is_toolchain_installed,
    is_whitespace_char, list_components, list_toolchains, missing_toolchain_components,
    required_toolchain_components, EnsureToolchainError, HaltToolchainInstallation,
    NoopOnComponentsInstall, NoopOnToolchainInstall, ToolchainAction, ToolchainEvent,
    ToolchainInstallation, ToolchainStage,
};

fn step(
    installation: ToolchainInstallation,
    event: ToolchainEvent<String>,
) -> (ToolchainInstallation, ToolchainAction<String>) {
    ensure_toolchain_installation(installation, event)
}

fn ran(stdout: &str) -> ToolchainEvent<String> {
    ToolchainEvent::Ran(Ok(CommandOutput {
        success: true,
        stdout: stdout.to_owned(),
        stderr: String::new(),
    }))
}

fn command(action: ToolchainAction<String>) -> CommandLine {
    match action {
        ToolchainAction::Run(command) => command,
        other => panic!("unexpected action {other:?}"),
    }
}

const INSTALLED: &str = "cargo-x86_64-unknown-linux-gnu (installed)\nllvm-tools-x86_64-unknown-linux-gnu (installed)\nrust-src (installed)\nrust-std-x86_64-unknown-linux-gnu (installed)\nrustc-x86_64-unknown-linux-gnu (installed)\nrustc-dev-x86_64-unknown-linux-gnu (installed)\n";

#[test]
fn required_components_are_three() {
    assert_eq!(required_toolchain_components(), vec!["rust-src", "rustc-dev", "llvm-tools"]);
}

#[test]
fn all_components_marked_installed() {
    assert!(all_required_toolchain_components_installed(INSTALLED));
    assert!(all_required_toolchain_components_installed(
        "rust-src (installed)\nrustc-dev (installed)\nllvm-tools (installed)"
    ));
    assert!(all_required_toolchain_components_installed(
        "rust-src (installed)\r\nrustc-dev (installed)\r\nllvm-tools (installed)\r\n"
    ));
    assert!(missing_toolchain_components(INSTALLED).is_empty());
}

#[test]
fn a_component_without_the_mark_is_missing() {
    for missing in ["rust-src", "rustc-dev", "llvm-tools"] {
        let list: String = ["rust-src", "rustc-dev", "llvm-tools"]
            .iter()
            .map(|c| if *c == missing { format!("{c}\n") } else { format!("{c} (installed)\n") })
            .collect();
        assert!(!all_required_toolchain_components_installed(&list));
        assert_eq!(missing_toolchain_components(&list), vec![missing]);
    }
    assert!(!all_required_toolchain_components_installed(""));
    assert_eq!(missing_toolchain_components(""), vec!["rust-src", "rustc-dev", "llvm-tools"]);
    // The mark must end the line, and the name must begin it.
    assert!(!all_required_toolchain_components_installed(
        "rust-src (installed) \nrustc-dev (installed)\nllvm-tools (installed)\n"
    ));
    assert!(!all_required_toolchain_components_installed(
        " rust-src (installed)\nrustc-dev (installed)\nllvm-tools (installed)\n"
    ));
    assert_eq!(
        missing_toolchain_components("rustc-x86_64 (installed)\nrust-src (installed)\n"),
        vec!["rustc-dev", "llvm-tools"]
    );
}

#[test]
fn toolchain_is_found_by_the_start_of_a_word() {
    let list = "stable-x86_64-unknown-linux-gnu (default)\nnightly-2024-11-22-x86_64-unknown-linux-gnu\n";
    assert!(is_toolchain_installed(list, "nightly-2024-11-22"));
    assert!(is_toolchain_installed(list, "stable"));
    assert!(is_toolchain_installed(list, "nightly-2024-11-22-x86_64-unknown-linux-gnu"));
    assert!(is_toolchain_installed(list, "(default)"));
    assert!(!is_toolchain_installed(list, "nightly-2024-11-23"));
    // Within a word is not at its start.
    assert!(!is_toolchain_installed(list, "2024-11-22"));
    assert!(!is_toolchain_installed(list, "x86_64"));
    // A channel is one word.
    assert!(!is_toolchain_installed(list, "stable-x86_64-unknown-linux-gnu (default)"));
    assert!(!is_toolchain_installed("", "stable"));
    assert!(!is_toolchain_installed("   \n", "stable"));
    // Every word begins with the empty channel.
    assert!(is_toolchain_installed(list, ""));
    assert!(!is_toolchain_installed("", ""));
    assert!(!is_toolchain_installed(" \t\n", ""));
    assert!(is_toolchain_installed("a\u{2003}nightly", "nightly"));
}

#[test]
fn whitespace_is_that_of_unicode() {
    for code in 0u32..=0x3100 {
        if let Some(c) = char::from_u32(code) {
            assert_eq!(is_whitespace_char(c), c.is_whitespace(), "U+{code:04X}");
        }
    }
}

#[test]
fn rustup_commands() {
    assert_eq!(
        list_toolchains(),
        CommandLine {
            program: "rustup".to_owned(),
            args: vec!["toolchain".to_owned(), "list".to_owned()],
            current_dir: None,
            inherit_output: false,
        }
    );
    assert_eq!(install_toolchain("n").args, vec!["toolchain", "add", "n"]);
    assert!(install_toolchain("n").inherit_output);
    assert_eq!(list_components("n").args, vec!["component", "list", "--toolchain", "n"]);
    assert!(!list_components("n").inherit_output);
    let add = install_required_toolchain_components("n", &vec!["rustc-dev".to_owned()]);
    assert_eq!(add.args, vec!["component", "add", "--toolchain", "n", "rustc-dev"]);
    assert!(add.inherit_output);
}

#[test]
fn installed_toolchain_needs_two_listings_only() {
    let installation = ToolchainInstallation::new("nightly-2024-11-22");
    let (installation, action) = step(installation, ToolchainEvent::Begin);
    assert_eq!(command(action), list_toolchains());
    let (installation, action) = step(installation, ran("nightly-2024-11-22-x86_64\n"));
    assert_eq!(command(action), list_components("nightly-2024-11-22"));
    let (installation, action) = step(installation, ran(INSTALLED));
    assert_eq!(installation.stage, ToolchainStage::Finished);
    assert!(matches!(action, ToolchainAction::Finish(Ok(()))));
    // Nothing follows the end.
    let (_, action) = step(installation, ToolchainEvent::Begin);
    assert!(matches!(action, ToolchainAction::Finish(Err(EnsureToolchainError::OutOfTurn))));
}

#[test]
fn only_missing_components_are_added() {
    let installation = ToolchainInstallation::new("n");
    let (installation, _) = step(installation, ToolchainEvent::Begin);
    let (installation, _) = step(installation, ran("n-x86_64\n"));
    let (installation, action) =
        step(installation, ran("rust-src (installed)\nrustc-dev\nllvm-tools (installed)\n"));
    assert!(matches!(action, ToolchainAction::AskComponentsInstall(c) if c == "n"));
    assert_eq!(installation.missing, vec!["rustc-dev"]);
    let (installation, action) = step(installation, ToolchainEvent::Answered(Ok(())));
    assert_eq!(
        command(action).args,
        vec!["component", "add", "--toolchain", "n", "rustc-dev"]
    );
    let (_, action) = step(installation, ran(""));
    assert!(matches!(action, ToolchainAction::Finish(Ok(()))));
}

#[test]
fn refusal_and_failure_end_the_installation() {
    let installation = ToolchainInstallation::new("n");
    let (installation, _) = step(installation, ToolchainEvent::Begin);
    let (installation, action) = step(installation, ran("stable\n"));
    assert!(matches!(action, ToolchainAction::AskToolchainInstall(c) if c == "n"));
    let (installation, action) = step(installation, ToolchainEvent::Answered(Err("no".to_owned())));
    assert_eq!(installation.stage, ToolchainStage::Finished);
    assert!(
        matches!(action, ToolchainAction::Finish(Err(EnsureToolchainError::Halted(e))) if e == "no")
    );

    let installation = ToolchainInstallation::new("n");
    let (installation, _) = step(installation, ToolchainEvent::Begin);
    let (_, action) = step(installation, ToolchainEvent::Ran(Err("rustup not found".to_owned())));
    match action {
        ToolchainAction::Finish(Err(EnsureToolchainError::Command(CommandExecError::Io {
            command,
            source,
        }))) => {
            assert_eq!(command, list_toolchains());
            assert_eq!(source, "rustup not found");
        }
        other => panic!("unexpected action {other:?}"),
    }

    let installation = ToolchainInstallation::new("n");
    let (installation, _) = step(installation, ToolchainEvent::Begin);
    let (installation, _) = step(installation, ran(""));
    let (installation, _) = step(installation, ToolchainEvent::Answered(Ok(())));
    let output = CommandOutput { success: false, stdout: String::new(), stderr: "x".to_owned() };
    let (_, action) = step(installation, ToolchainEvent::Ran(Ok(output.clone())));
    match action {
        ToolchainAction::Finish(Err(EnsureToolchainError::Command(e))) => {
            assert_eq!(e.command(), &install_toolchain("n"));
            assert_eq!(
                e,
                CommandExecError::ExecFail { command: install_toolchain("n"), output }
            );
            assert_eq!(e.into_command(), install_toolchain("n"));
        }
        other => panic!("unexpected action {other:?}"),
    }

    let installation = ToolchainInstallation::new("n");
    let (installation, _) = step(installation, ToolchainEvent::Begin);
    let (installation, _) = step(installation, ran("n\n"));
    let (installation, _) = step(installation, ran(""));
    let (_, action) = step(installation, ToolchainEvent::Answered(Err("never".to_owned())));
    assert!(
        matches!(action, ToolchainAction::Finish(Err(EnsureToolchainError::Halted(e))) if e == "never")
    );
}

#[test]
fn noop_hooks_consent() {
    let halt = HaltToolchainInstallation::noop();
    assert_eq!(halt.on_toolchain_install, NoopOnToolchainInstall);
    assert_eq!(halt.on_components_install, NoopOnComponentsInstall);
    assert_eq!(halt.on_toolchain_install.call::<String>("nightly"), Ok(()));
    assert_eq!(halt.on_components_install.call::<String>("nightly"), Ok(()));
}
