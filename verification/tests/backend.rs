use cargo_gpu::backend::{
    copy_opt, dummy_cargo_toml, dylib_filename, SpirvBuilder, SpirvBuilderError,
    SpirvCodegenBackend, SpirvCodegenBackendInstallParams, SpirvCodegenBackendInstaller, StdioCfg,
};
use cargo_gpu::linkage::{shader_modules, Linkage, ModuleResult, NoShaderModules, ShaderModule};
use cargo_gpu::metadata::{Metadata, Package};
use cargo_gpu::spirv_source::SpirvSource;
use cargo_gpu::target_specs::{
    available_spirv_targets, bundled_target_specs, plan_target_specs, spirv_targets_among,
    update_target_specs_files, TargetSpecs, TargetSpecsUpdate, UpdateTargetSpecsFilesError,
};
use cargo_gpu::toolchain::HaltToolchainInstallation;
use cargo_gpu::user_consent::{
    components_install_message, install_notice, toolchain_install_message, ConsentAction,
    ConsentEvent, ConsentStage, Key, KeyKind, TerminalInput, UserConsent, UserConsentError,
};
use cargo_gpu::version::Version;

fn backend() -> SpirvCodegenBackend {
    SpirvCodegenBackend {
        rustc_codegen_spirv_location: "/c/librustc_codegen_spirv.so".to_owned(),
        toolchain_channel: "nightly-2024-11-22".to_owned(),
        target_spec_dir: "/c/target-specs".to_owned(),
    }
}

#[test]
fn backend_configures_a_build() {
    let builder = backend().to_spirv_builder("/work/shader", "spirv-unknown-vulkan1.2");
    assert_eq!(
        builder,
        SpirvBuilder {
            path_to_crate: Some("/work/shader".to_owned()),
            target: Some("spirv-unknown-vulkan1.2".to_owned()),
            rustc_codegen_spirv_location: Some("/c/librustc_codegen_spirv.so".to_owned()),
            toolchain_overwrite: Some("nightly-2024-11-22".to_owned()),
            path_to_target_spec: Some("/c/target-specs/spirv-unknown-vulkan1.2.json".to_owned()),
        }
    );
    let mut builder = SpirvBuilder {
        target: Some("spirv-unknown-spv1.3".to_owned()),
        path_to_target_spec: Some("old".to_owned()),
        ..SpirvBuilder::default()
    };
    assert_eq!(backend().configure_spirv_builder(&mut builder), Ok(()));
    assert_eq!(builder.path_to_crate, None);
    assert_eq!(
        builder.path_to_target_spec.as_deref(),
        Some("/c/target-specs/spirv-unknown-spv1.3.json")
    );
}

#[test]
fn backend_needs_a_target() {
    let mut builder = SpirvBuilder { path_to_target_spec: Some("old".to_owned()), ..SpirvBuilder::default() };
    assert_eq!(
        backend().configure_spirv_builder(&mut builder),
        Err(SpirvBuilderError::MissingTarget)
    );
    assert_eq!(
        builder.rustc_codegen_spirv_location.as_deref(),
        Some("/c/librustc_codegen_spirv.so")
    );
    assert_eq!(builder.toolchain_overwrite.as_deref(), Some("nightly-2024-11-22"));
    assert_eq!(builder.path_to_target_spec.as_deref(), Some("old"));
}

#[test]
fn installer_settings() {
    let installer = SpirvCodegenBackendInstaller::default();
    assert_eq!(
        installer,
        SpirvCodegenBackendInstaller {
            spirv_builder_source: None,
            spirv_builder_version: None,
            rebuild_codegen: false,
            clear_target: true,
        }
    );
    let installer = installer
        .spirv_builder_source(Some("https://example.com".to_owned()))
        .spirv_builder_version(Some("main".to_owned()))
        .rebuild_codegen(true)
        .clear_target(false);
    assert_eq!(
        installer,
        SpirvCodegenBackendInstaller {
            spirv_builder_source: Some("https://example.com".to_owned()),
            spirv_builder_version: Some("main".to_owned()),
            rebuild_codegen: true,
            clear_target: false,
        }
    );
    assert_eq!(installer.clone().spirv_builder_source(None).spirv_builder_source, None);
    assert_eq!(copy_opt(&installer.spirv_builder_version).as_deref(), Some("main"));
    assert_eq!(copy_opt(&None), None);
}

#[test]
fn install_params_replace_one_part_each() {
    let params = SpirvCodegenBackendInstallParams {
        shader_crate: "./".to_owned(),
        writer: 1u8,
        halt: HaltToolchainInstallation { on_toolchain_install: 2u16, on_components_install: 3u32 },
        stdio_cfg: StdioCfg { stdout: 4u64, stderr: 5i8 },
    };
    let params = params.shader_crate("/work/shader".to_owned());
    assert_eq!(params.shader_crate, "/work/shader");
    assert_eq!(params.writer, 1);
    let params = params.writer("w");
    assert_eq!(params.writer, "w");
    assert_eq!(params.halt.on_components_install, 3);
    let params = params
        .halt(HaltToolchainInstallation { on_toolchain_install: 'a', on_components_install: 'b' });
    assert_eq!((params.halt.on_toolchain_install, params.halt.on_components_install), ('a', 'b'));
    assert_eq!(params.stdio_cfg.stdout, 4);
    let params = params.stdio_cfg(StdioCfg { stdout: true, stderr: false });
    assert!(params.stdio_cfg.stdout);
    assert!(!params.stdio_cfg.stderr);
    assert_eq!(params.shader_crate, "/work/shader");
    assert_eq!(params.writer, "w");
}

#[test]
fn dylib_names() {
    assert_eq!(dylib_filename("rustc_codegen_spirv", "lib", ".so"), "librustc_codegen_spirv.so");
    assert_eq!(dylib_filename("rustc_codegen_spirv", "", ".dll"), "rustc_codegen_spirv.dll");
    assert_eq!(dylib_filename("x", "lib", ".dylib"), "libx.dylib");
}

#[test]
fn dummy_manifest_pins_the_backend() {
    let head = "[package]\nname = \"rustc_codegen_spirv_dummy\"\nversion = \"0.1.0\"\nedition = \"2021\"\n\n[dependencies.spirv-builder]\npackage = \"rustc_codegen_spirv\"\n";
    assert_eq!(
        dummy_cargo_toml(&SpirvSource::CratesIO(Version::new(0, 9, 0))),
        format!("{head}version = \"0.9.0\"\n")
    );
    assert_eq!(
        dummy_cargo_toml(&SpirvSource::Git {
            url: "https://github.com/Rust-GPU/rust-gpu".to_owned(),
            rev: "86fc48032c4cd4afb74f1d81ae859711d20386a1".to_owned()
        }),
        format!(
            "{head}git = \"https://github.com/Rust-GPU/rust-gpu\"\nrev = \"86fc48032c4cd4afb74f1d81ae859711d20386a1\"\n"
        )
    );
    assert_eq!(
        dummy_cargo_toml(&SpirvSource::Path {
            rust_gpu_repo_root: "/home/me/rust-gpu".to_owned(),
            version: Version::new(0, 9, 0)
        }),
        format!("{head}path = \"/home/me/rust-gpu/crates/spirv-builder\"\nversion = \"0.9.0\"\n")
    );
}

#[test]
fn linkage_names() {
    let linkage = Linkage::new("shaders::main_fs", "shaders/out/main_fs.spv");
    assert_eq!(
        linkage,
        Linkage {
            source_path: "shaders/out/main_fs.spv".to_owned(),
            entry_point: "shaders::main_fs".to_owned(),
            wgsl_entry_point: "shadersmain_fs".to_owned(),
        }
    );
    assert_eq!(linkage.fn_name(), "main_fs");
    assert_eq!(Linkage::new("main", "a.spv").fn_name(), "main");
    assert_eq!(Linkage::new("a::b::", "a.spv").fn_name(), "");
    assert_eq!(Linkage::new("a:::b", "a.spv").fn_name(), ":b");
    assert_eq!(Linkage::new("a:::b", "a.spv").wgsl_entry_point, "a:b");
    assert_eq!(Linkage::new("", "").fn_name(), "");
    assert_eq!(Linkage::new("é::ü", "x").fn_name(), "ü");
    // The components of the path are those that the platform sees.
    assert_eq!(Linkage::new("m", "./a//b/./c/").source_path, "./a/b/c");
    assert_eq!(Linkage::new("m", "").source_path, "");
    let parts = vec!["a".to_owned(), "b".to_owned(), "c.spv".to_owned()];
    assert_eq!(Linkage::from_components("m", &parts).source_path, "a/b/c.spv");
    assert_eq!(Linkage::from_components("m", &vec![]).source_path, "");
    let mut sorted = vec![Linkage::new("b", "x"), Linkage::new("a", "y"), Linkage::new("a", "x")];
    sorted.sort();
    assert_eq!(sorted[0], Linkage::new("a", "x"));
    let module = ShaderModule::new("main", "out/main.spv");
    assert_eq!(module, ShaderModule { entry: "main".to_owned(), path: "out/main.spv".to_owned() });
}

fn backend_graph(with_specs: bool) -> Metadata {
    let package = |name: &str, path: &str| Package {
        name: name.to_owned(),
        version: Version::new(0, 9, 0),
        source: None,
        manifest_path: path.to_owned(),
    };
    let mut packages = vec![package("rustc_codegen_spirv", "/reg/rustc_codegen_spirv/Cargo.toml")];
    if with_specs {
        packages.push(package(
            "rustc_codegen_spirv-target-specs",
            "/reg/rustc_codegen_spirv-target-specs/Cargo.toml",
        ));
    }
    Metadata { packages, workspace_root: "/c".to_owned() }
}

#[test]
fn target_specs_of_the_backend_are_copied() {
    let source = SpirvSource::CratesIO(Version::new(0, 9, 0));
    let graph = backend_graph(true);
    assert_eq!(
        bundled_target_specs(&graph),
        Some(Some("/reg/rustc_codegen_spirv-target-specs/target-specs".to_owned()))
    );
    assert_eq!(
        update_target_specs_files(&source, &graph, true, Some("/cache"), true),
        Ok(TargetSpecs {
            dir: "/cache/codegen/0_9_0/target-specs".to_owned(),
            update: TargetSpecsUpdate::CopySpecFiles {
                from: "/reg/rustc_codegen_spirv-target-specs/target-specs".to_owned(),
                to: "/cache/codegen/0_9_0/target-specs".to_owned(),
            },
        })
    );
    // On a cache hit nothing is copied.
    assert_eq!(
        update_target_specs_files(&source, &graph, false, Some("/cache"), true),
        Ok(TargetSpecs {
            dir: "/cache/codegen/0_9_0/target-specs".to_owned(),
            update: TargetSpecsUpdate::Nothing,
        })
    );
    assert_eq!(
        update_target_specs_files(&source, &graph, true, Some("/cache"), false),
        Err(UpdateTargetSpecsFilesError::InvalidLegacy)
    );
    assert!(matches!(
        update_target_specs_files(&source, &graph, true, None, true),
        Err(UpdateTargetSpecsFilesError::CacheDir(_))
    ));
    assert_eq!(
        plan_target_specs(&source, Some(None), true, Some("/cache"), true),
        Err(UpdateTargetSpecsFilesError::InvalidLegacy)
    );
}

#[test]
fn target_specs_of_a_local_checkout_are_used_in_place() {
    let source = SpirvSource::Path {
        rust_gpu_repo_root: "/home/me/rust-gpu".to_owned(),
        version: Version::new(0, 9, 0),
    };
    let used_in_place = Ok(TargetSpecs {
        dir: "/reg/rustc_codegen_spirv-target-specs/target-specs".to_owned(),
        update: TargetSpecsUpdate::Nothing,
    });
    let graph = backend_graph(true);
    assert_eq!(update_target_specs_files(&source, &graph, true, Some("/cache"), true), used_in_place);
    assert_eq!(update_target_specs_files(&source, &graph, true, None, true), used_in_place);
}

#[test]
fn legacy_target_specs_are_written() {
    let graph = backend_graph(false);
    assert_eq!(bundled_target_specs(&graph), None);
    let source = SpirvSource::Git { url: "u".to_owned(), rev: "r".to_owned() };
    assert_eq!(
        update_target_specs_files(&source, &graph, true, Some("/cache"), false),
        Ok(TargetSpecs {
            dir: "/cache/codegen/u+r/target-specs".to_owned(),
            update: TargetSpecsUpdate::WriteLegacy { to: "/cache/codegen/u+r/target-specs".to_owned() },
        })
    );
    assert_eq!(
        update_target_specs_files(&source, &graph, false, Some("/cache"), false),
        Ok(TargetSpecs {
            dir: "/cache/codegen/u+r/target-specs".to_owned(),
            update: TargetSpecsUpdate::Nothing,
        })
    );
    // A local checkout is not written into.
    let local = SpirvSource::Path {
        rust_gpu_repo_root: "/home/me/rust-gpu".to_owned(),
        version: Version::new(0, 9, 0),
    };
    assert_eq!(
        update_target_specs_files(&local, &graph, true, Some("/cache"), false),
        Ok(TargetSpecs {
            dir: "/cache/legacy-target-specs-for-local-checkout".to_owned(),
            update: TargetSpecsUpdate::WriteLegacy {
                to: "/cache/legacy-target-specs-for-local-checkout".to_owned()
            },
        })
    );
    assert!(matches!(
        update_target_specs_files(&local, &graph, true, None, false),
        Err(UpdateTargetSpecsFilesError::CacheDir(_))
    ));
}

fn key(c: char) -> ConsentEvent {
    ConsentEvent::Input(Ok(TerminalInput::Key { key: Key::Char(c), kind: KeyKind::Press }))
}

fn up_to_reading(message: &str) -> UserConsent {
    let consent = UserConsent::new(message, false);
    let (consent, action) = consent.get_user_consent(ConsentEvent::Begin { is_tty: true });
    assert_eq!(action, ConsentAction::EnableRawMode);
    let (consent, action) = consent.get_user_consent(ConsentEvent::Done(Ok(())));
    assert_eq!(action, ConsentAction::Write(format!("Install {message} [y/n]: ")));
    let (consent, action) = consent.get_user_consent(ConsentEvent::Done(Ok(())));
    assert_eq!(action, ConsentAction::ReadInput);
    consent
}

#[test]
fn consent_messages() {
    assert_eq!(toolchain_install_message("nightly"), "Rust nightly with `rustup`");
    assert_eq!(
        components_install_message("nightly"),
        "components [\"rust-src\", \"rustc-dev\", \"llvm-tools\"] for toolchain nightly with `rustup`"
    );
    assert_eq!(install_notice("Rust nightly with `rustup`"), "Installing Rust nightly with `rustup`\n");
}

#[test]
fn consent_given_beforehand_asks_nothing() {
    for is_tty in [false, true] {
        let consent = UserConsent::new("x", true);
        let (consent, action) = consent.get_user_consent(ConsentEvent::Begin { is_tty });
        assert_eq!(action, ConsentAction::Finish(Ok(())));
        assert_eq!(consent.stage, ConsentStage::Finished);
    }
}

#[test]
fn consent_needs_a_terminal() {
    let consent = UserConsent::new("x", false);
    let (_, action) = consent.get_user_consent(ConsentEvent::Begin { is_tty: false });
    assert_eq!(action, ConsentAction::Finish(Err(UserConsentError::NoTTY)));
}

#[test]
fn consent_is_the_key_y() {
    let consent = up_to_reading("Rust nightly with `rustup`");
    let (consent, action) = consent.get_user_consent(key('y'));
    assert_eq!(action, ConsentAction::DisableRawMode);
    let (_, action) = consent.get_user_consent(ConsentEvent::Done(Ok(())));
    assert_eq!(action, ConsentAction::Finish(Ok(())));

    for input in [
        key('n'),
        key('Y'),
        ConsentEvent::Input(Ok(TerminalInput::Key { key: Key::Enter, kind: KeyKind::Press })),
        ConsentEvent::Input(Ok(TerminalInput::Key { key: Key::Other, kind: KeyKind::Press })),
        ConsentEvent::Input(Ok(TerminalInput::Other)),
    ] {
        let consent = up_to_reading("x");
        let (consent, _) = consent.get_user_consent(input);
        let (_, action) = consent.get_user_consent(ConsentEvent::Done(Ok(())));
        assert_eq!(action, ConsentAction::Finish(Err(UserConsentError::UserDenied)));
    }
}

#[test]
fn consent_passes_over_a_stray_enter() {
    let stray =
        || ConsentEvent::Input(Ok(TerminalInput::Key { key: Key::Enter, kind: KeyKind::Release }));
    let consent = up_to_reading("x");
    let (consent, action) = consent.get_user_consent(stray());
    assert_eq!(action, ConsentAction::ReadInput);
    let (consent, _) = consent.get_user_consent(key('y'));
    let (_, action) = consent.get_user_consent(ConsentEvent::Done(Ok(())));
    assert_eq!(action, ConsentAction::Finish(Ok(())));
    // Only one is passed over.
    let consent = up_to_reading("x");
    let (consent, _) = consent.get_user_consent(stray());
    let (consent, action) = consent.get_user_consent(stray());
    assert_eq!(action, ConsentAction::DisableRawMode);
    let (_, action) = consent.get_user_consent(ConsentEvent::Done(Ok(())));
    assert_eq!(action, ConsentAction::Finish(Err(UserConsentError::UserDenied)));
}

#[test]
fn consent_reports_failures_of_the_terminal() {
    let consent = UserConsent::new("x", false);
    let (consent, _) = consent.get_user_consent(ConsentEvent::Begin { is_tty: true });
    let (_, action) = consent.get_user_consent(ConsentEvent::Done(Err("raw".to_owned())));
    assert_eq!(action, ConsentAction::Finish(Err(UserConsentError::IoRead("raw".to_owned()))));

    let consent = UserConsent::new("x", false);
    let (consent, _) = consent.get_user_consent(ConsentEvent::Begin { is_tty: true });
    let (consent, _) = consent.get_user_consent(ConsentEvent::Done(Ok(())));
    let (_, action) = consent.get_user_consent(ConsentEvent::Done(Err("pipe".to_owned())));
    assert_eq!(action, ConsentAction::Finish(Err(UserConsentError::IoWrite("pipe".to_owned()))));

    let consent = up_to_reading("x");
    let (_, action) = consent.get_user_consent(ConsentEvent::Input(Err("eof".to_owned())));
    assert_eq!(action, ConsentAction::Finish(Err(UserConsentError::IoRead("eof".to_owned()))));

    let consent = up_to_reading("x");
    let (consent, action) = consent.get_user_consent(ConsentEvent::Begin { is_tty: true });
    assert_eq!(action, ConsentAction::Finish(Err(UserConsentError::OutOfTurn)));
    assert_eq!(consent.stage, ConsentStage::Finished);
}

#[test]
fn targets_are_the_vulkan_specs_without_extension() {
    let names = vec![
        "spirv-unknown-opengl4.5.json".to_owned(),
        "spirv-unknown-vulkan1.2.json".to_owned(),
        "spirv-unknown-spv1.3.json".to_owned(),
        "vulkan".to_owned(),
        "a.json.vulkan.json".to_owned(),
    ];
    assert_eq!(spirv_targets_among(&names), vec!["spirv-unknown-vulkan1.2", "vulkan", "a.vulkan"]);
    assert_eq!(spirv_targets_among(&vec![]), Vec::<String>::new());
    let expected: Vec<String> = rustc_codegen_spirv_target_specs::TARGET_SPECS
        .iter()
        .filter(|(spec, _src)| spec.contains("vulkan"))
        .map(|(spec, _src)| spec.replace(".json", ""))
        .collect();
    assert_eq!(available_spirv_targets(), expected);
    assert!(available_spirv_targets().contains(&"spirv-unknown-vulkan1.2".to_owned()));
}

#[test]
fn modules_of_a_build() {
    let entry_points = vec!["main_fs".to_owned(), "main_vs".to_owned()];
    assert_eq!(
        shader_modules(&entry_points, &ModuleResult::SingleModule("out/shader.spv".to_owned())),
        Ok(vec![
            ShaderModule::new("main_fs", "out/shader.spv"),
            ShaderModule::new("main_vs", "out/shader.spv"),
        ])
    );
    assert_eq!(
        shader_modules(&vec![], &ModuleResult::SingleModule("out/shader.spv".to_owned())),
        Ok(vec![])
    );
    let each = vec![ShaderModule::new("b", "out/b.spv"), ShaderModule::new("a", "out/a.spv")];
    assert_eq!(
        shader_modules(&entry_points, &ModuleResult::MultiModule(each.clone())),
        Ok(each)
    );
    assert_eq!(
        shader_modules(&entry_points, &ModuleResult::MultiModule(vec![])),
        Err(NoShaderModules)
    );
}
