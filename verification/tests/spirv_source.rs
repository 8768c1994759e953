use cargo_gpu::metadata::{Metadata, Package};
use cargo_gpu::spirv_source::{
    build_script_path, parse_toolchain_channel, rust_gpu_toolchain_channel, to_dirname,
    ParseSourceVersionError, RustGpuToolchainChannelError, SpirvSource, SpirvSourceError,
};
use cargo_gpu::version::Version;

fn package(source: Option<&str>, manifest_path: &str) -> Package {
    Package {
        name: "spirv-std".to_owned(),
        version: Version::new(0, 9, 0),
        source: source.map(str::to_owned),
        manifest_path: manifest_path.to_owned(),
    }
}

fn parse_git(source: &str) -> SpirvSource {
    SpirvSource::parse_spirv_std_source_and_version(&package(Some(source), ""), false).unwrap()
}

fn shader_template_metadata() -> Metadata {
    Metadata {
        packages: vec![
            Package {
                name: "rust-gpu-shader-crate-template".to_owned(),
                version: Version::new(0, 1, 0),
                source: None,
                manifest_path: "/work/shader-crate-template/Cargo.toml".to_owned(),
            },
            package(
                Some("git+https://github.com/Rust-GPU/rust-gpu?rev=86fc48032c4cd4afb74f1d81ae859711d20386a1#86fc48032c4cd4afb74f1d81ae859711d20386a1"),
                "/cargo/git/checkouts/rust-gpu/86fc480/crates/spirv-std/Cargo.toml",
            ),
        ],
        workspace_root: "/work/shader-crate-template".to_owned(),
    }
}

#[test]
fn spirv_source_parsing_spirv_std_dep_for_shader_template() {
    let source =
        SpirvSource::get_rust_gpu_deps_from_shader(&shader_template_metadata(), false).unwrap();
    assert_eq!(
        source,
        SpirvSource::Git {
            url: "https://github.com/Rust-GPU/rust-gpu".to_owned(),
            rev: "86fc48032c4cd4afb74f1d81ae859711d20386a1".to_owned()
        }
    );
}

#[test]
fn spirv_source_path_sanity() {
    let path = std::path::PathBuf::from("./");
    assert!(path.is_relative());
    assert_eq!(cargo_gpu::path::join("./", "src"), "./src");
}

#[test]
fn spirv_source_cached_checkout_dir_sanity() {
    let source =
        SpirvSource::get_rust_gpu_deps_from_shader(&shader_template_metadata(), false).unwrap();
    let dir = source.install_dir("/home/me/.cache/rust-gpu");
    let name = std::path::Path::new(&dir)
        .file_name()
        .unwrap()
        .to_str()
        .map(std::string::ToString::to_string)
        .unwrap();
    assert_eq!("https___github_com_Rust-GPU_rust-gpu+86fc4803", &name);
}

#[test]
fn parse_git_with_rev() {
    let source = parse_git(
        "git+https://github.com/Rust-GPU/rust-gpu?rev=86fc48032c4cd4afb74f1d81ae859711d20386a1#86fc4803",
    );
    assert_eq!(
        source,
        SpirvSource::Git {
            url: "https://github.com/Rust-GPU/rust-gpu".to_owned(),
            rev: "86fc4803".to_owned(),
        }
    );
}

#[test]
fn parse_git_no_question_mark() {
    let source = parse_git(
        "git+https://github.com/Rust-GPU/rust-gpu.git#6e2c84d4fe64e32df4c060c5a7f3e35a32e45421",
    );
    assert_eq!(
        source,
        SpirvSource::Git {
            url: "https://github.com/Rust-GPU/rust-gpu.git".to_owned(),
            rev: "6e2c84d4fe64e32df4c060c5a7f3e35a32e45421".to_owned(),
        }
    );
}

#[test]
fn parse_git_with_query_and_fragment() {
    assert_eq!(
        parse_git("git+https://example.com/repo?rev=abc123#abc123"),
        SpirvSource::Git { url: "https://example.com/repo".to_owned(), rev: "abc123".to_owned() }
    );
    assert_eq!(
        parse_git("git+https://example.com/repo.git#deadbeef"),
        SpirvSource::Git {
            url: "https://example.com/repo.git".to_owned(),
            rev: "deadbeef".to_owned()
        }
    );
    // An empty revision is a revision.
    assert_eq!(
        parse_git("git+https://example.com/repo#"),
        SpirvSource::Git { url: "https://example.com/repo".to_owned(), rev: String::new() }
    );
}

#[test]
fn parse_git_without_fragment_fails() {
    let repr = "git+https://example.com/repo?rev=abc123";
    let r = SpirvSource::parse_spirv_std_source_and_version(&package(Some(repr), ""), true);
    assert_eq!(r, Err(ParseSourceVersionError::InvalidGitSource(repr.to_owned())));
    let r = SpirvSource::parse_spirv_std_source_and_version(&package(Some("git+"), ""), true);
    assert_eq!(r, Err(ParseSourceVersionError::InvalidGitSource("git+".to_owned())));
}

#[test]
fn parse_registry_source() {
    let registry = "registry+https://github.com/rust-lang/crates.io-index";
    let mut spirv_std = package(Some(registry), "");
    spirv_std.version = Version {
        major: 0,
        minor: 10,
        patch: 0,
        pre: "alpha.1".to_owned(),
        build: String::new(),
    };
    let source = SpirvSource::parse_spirv_std_source_and_version(&spirv_std, false).unwrap();
    assert_eq!(source, SpirvSource::CratesIO(spirv_std.version.clone()));
    assert_eq!(source.to_text(), "0.10.0-alpha.1");
}

#[test]
fn parse_unknown_source_fails() {
    for repr in ["sparse+https://index.crates.io/", "registry+https://example.com/index", "", "Git+x#y"]
    {
        let r = SpirvSource::parse_spirv_std_source_and_version(&package(Some(repr), ""), true);
        assert_eq!(r, Err(ParseSourceVersionError::UnknownSource(repr.to_owned())));
    }
}

#[test]
fn parse_local_source() {
    let spirv_std = package(None, "/home/me/rust-gpu/crates/spirv-std/Cargo.toml");
    assert_eq!(SpirvSource::local_repo_root(&spirv_std).as_deref(), Some("/home/me/rust-gpu"));
    let source = SpirvSource::parse_spirv_std_source_and_version(&spirv_std, true).unwrap();
    assert_eq!(
        source,
        SpirvSource::Path {
            rust_gpu_repo_root: "/home/me/rust-gpu".to_owned(),
            version: Version::new(0, 9, 0),
        }
    );
    assert!(source.is_path());
    assert_eq!(source.to_text(), "/home/me/rust-gpu+0.9.0");
    assert_eq!(source.install_dir("/cache"), "/home/me/rust-gpu");

    let r = SpirvSource::parse_spirv_std_source_and_version(&spirv_std, false);
    assert_eq!(
        r,
        Err(ParseSourceVersionError::InvalidManifestPath(spirv_std.manifest_path.clone()))
    );
    // Two levels are not enough.
    let shallow = package(None, "/spirv-std/Cargo.toml");
    assert_eq!(SpirvSource::local_repo_root(&shallow), None);
    let r = SpirvSource::parse_spirv_std_source_and_version(&shallow, true);
    assert_eq!(r, Err(ParseSourceVersionError::InvalidManifestPath("/spirv-std/Cargo.toml".to_owned())));
}

#[test]
fn from_package_takes_the_root_as_given() {
    let spirv_std = package(None, "anything");
    let r = SpirvSource::from_package(&spirv_std, Some("/elsewhere".to_owned()), true);
    assert_eq!(
        r,
        Ok(SpirvSource::Path {
            rust_gpu_repo_root: "/elsewhere".to_owned(),
            version: Version::new(0, 9, 0)
        })
    );
    let r = SpirvSource::from_package(&spirv_std, None, true);
    assert_eq!(r, Err(ParseSourceVersionError::InvalidManifestPath("anything".to_owned())));
}

#[test]
fn repo_root_to_probe_only_for_local_packages() {
    assert_eq!(SpirvSource::repo_root_to_probe(&shader_template_metadata()), None);
    let metadata = Metadata {
        packages: vec![package(None, "/home/me/rust-gpu/crates/spirv-std/Cargo.toml")],
        workspace_root: "/w".to_owned(),
    };
    assert_eq!(SpirvSource::repo_root_to_probe(&metadata).as_deref(), Some("/home/me/rust-gpu"));
    let metadata = Metadata { packages: vec![], workspace_root: "/w".to_owned() };
    assert_eq!(SpirvSource::repo_root_to_probe(&metadata), None);
}

#[test]
fn missing_spirv_std_fails() {
    let metadata = Metadata {
        packages: vec![Package { name: "spirv-std-types".to_owned(), ..package(None, "x") }],
        workspace_root: "/work/shader".to_owned(),
    };
    match SpirvSource::get_rust_gpu_deps_from_shader(&metadata, true) {
        Err(SpirvSourceError::MissingPackage(e)) => {
            assert_eq!(e.missing_name(), "spirv-std");
            assert_eq!(e.searched_root(), "/work/shader");
            assert_eq!(e.message(), "`spirv-std` not found in `Cargo.toml` at '/work/shader'");
        }
        other => panic!("unexpected result {other:?}"),
    }
}

#[test]
fn new_from_explicit_settings() {
    assert_eq!(
        SpirvSource::new(Some("https://example.com/fork"), Some("main")).unwrap(),
        Some(SpirvSource::Git { url: "https://example.com/fork".to_owned(), rev: "main".to_owned() })
    );
    assert_eq!(
        SpirvSource::new(None, Some("0.9.0")).unwrap(),
        Some(SpirvSource::CratesIO(Version::new(0, 9, 0)))
    );
    assert_eq!(
        SpirvSource::new(None, Some("1.2.3-rc.1+build.5")).unwrap(),
        Some(SpirvSource::CratesIO(Version {
            major: 1,
            minor: 2,
            patch: 3,
            pre: "rc.1".to_owned(),
            build: "build.5".to_owned()
        }))
    );
    assert_eq!(SpirvSource::new(None, None).unwrap(), None);
    assert_eq!(SpirvSource::new(Some("https://example.com/fork"), None).unwrap(), None);
    for bad in ["", "0.9", "v0.9.0", "01.0.0", "1.0.0-", "abc123"] {
        assert!(matches!(
            SpirvSource::new(None, Some(bad)),
            Err(SpirvSourceError::InvalidVersion(_))
        ));
    }
}

#[test]
fn display_text_shortens_the_revision() {
    let git = |rev: &str| SpirvSource::Git { url: "u".to_owned(), rev: rev.to_owned() };
    assert_eq!(git("86fc48032c4cd4afb74f1d81ae859711d20386a1").to_text(), "u+86fc4803");
    assert_eq!(git("12345678").to_text(), "u+12345678");
    assert_eq!(git("1234567").to_text(), "u+1234567");
    assert_eq!(git("").to_text(), "u+");
    assert_eq!(git("v0.9.0-much-longer").to_text(), "u+v0.9.0-m");
    assert_eq!(SpirvSource::CratesIO(Version::new(10, 200, 3000)).to_text(), "10.200.3000");
}

#[test]
fn to_dirname_replaces_and_drops() {
    assert_eq!(
        to_dirname("https://github.com/Rust-GPU/rust-gpu+86fc4803"),
        "https___github_com_Rust-GPU_rust-gpu+86fc4803"
    );
    assert_eq!(to_dirname("a\\b/c.d:e@f=g"), "a_b_c_d_e_f_g");
    assert_eq!(to_dirname("a {b}\n\"c\" 'd'"), "abcd");
    assert_eq!(to_dirname(""), "");
    assert_eq!(to_dirname("{ }"), "");
    assert_eq!(to_dirname("already_safe-Name+1"), "already_safe-Name+1");
}

#[test]
fn install_dir_is_deterministic() {
    let a = SpirvSource::Git {
        url: "https://github.com/Rust-GPU/rust-gpu".to_owned(),
        rev: "86fc48032c4cd4afb74f1d81ae859711d20386a1".to_owned(),
    };
    let b = a.clone();
    assert_eq!(a.install_dir("/c"), b.install_dir("/c"));
    assert_eq!(
        a.install_dir("/c"),
        "/c/codegen/https___github_com_Rust-GPU_rust-gpu+86fc4803"
    );
    let registry = SpirvSource::CratesIO(Version::new(0, 9, 0));
    assert_eq!(registry.install_dir("/c"), "/c/codegen/0_9_0");
    assert_eq!(registry.install_dir("/c/"), "/c/codegen/0_9_0");
    assert_eq!(registry.install_dir(""), "codegen/0_9_0");
}

#[test]
fn install_dir_tells_revisions_apart_by_their_short_form() {
    let git = |rev: &str| SpirvSource::Git { url: "https://x/y".to_owned(), rev: rev.to_owned() };
    // The same first eight characters: one directory.
    assert_eq!(
        git("86fc48032c4cd4afb74f1d81ae859711d20386a1").install_dir("/c"),
        git("86fc4803ffffffffffffffffffffffffffffffff").install_dir("/c")
    );
    assert_eq!(
        git("86fc48032c4cd4afb74f1d81ae859711d20386a1").install_dir("/c"),
        git("86fc48039d4cd4afb74f1d81ae859711d20386a1").install_dir("/c")
    );
    // A difference within the first eight characters: two directories.
    assert_ne!(
        git("86fc48032c4cd4afb74f1d81ae859711d20386a1").install_dir("/c"),
        git("86fc48132c4cd4afb74f1d81ae859711d20386a1").install_dir("/c")
    );
    assert_ne!(git("86fc4803").install_dir("/c"), git("86fc4804").install_dir("/c"));
    assert_ne!(
        SpirvSource::CratesIO(Version::new(0, 9, 0)).install_dir("/c"),
        SpirvSource::CratesIO(Version::new(0, 9, 1)).install_dir("/c")
    );
    assert_ne!(
        SpirvSource::CratesIO(Version::new(1, 10, 0)).install_dir("/c"),
        SpirvSource::CratesIO(Version::new(11, 0, 0)).install_dir("/c")
    );
}

#[test]
fn toolchain_channel_is_read_off_the_build_script() {
    let script = "use std::env;\n\nfn main() {\n    let toolchain = r#\"[toolchain]\nchannel = \"nightly-2024-11-22\"\ncomponents = [\"rust-src\", \"rustc-dev\", \"llvm-tools\"]\"#;\n}\n";
    assert_eq!(parse_toolchain_channel(script, "build.rs").unwrap(), "nightly-2024-11-22");
    // The first line that starts with the marker counts.
    assert_eq!(
        parse_toolchain_channel("channel = \"a\"\nchannel = \"b\"\n", "build.rs").unwrap(),
        "a"
    );
    // Windows line endings, and no line ending at all.
    assert_eq!(parse_toolchain_channel("x\r\nchannel = \"n\"\r\n", "b").unwrap(), "n");
    assert_eq!(parse_toolchain_channel("channel = \"n\"", "b").unwrap(), "n");
    // What follows the closing quote does not matter, and the channel may be empty.
    assert_eq!(parse_toolchain_channel("channel = \"n\" # \"x\"\n", "b").unwrap(), "n");
    assert_eq!(parse_toolchain_channel("channel = \"\"\n", "b").unwrap(), "");
}

#[test]
fn toolchain_channel_errors() {
    assert_eq!(
        parse_toolchain_channel("  channel = \"indented\"\n", "/p/build.rs"),
        Err(RustGpuToolchainChannelError::ChannelStartNotFound {
            channel_start: "channel = \"".to_owned(),
            build_script: "/p/build.rs".to_owned(),
        })
    );
    assert_eq!(
        parse_toolchain_channel("", "/p/build.rs"),
        Err(RustGpuToolchainChannelError::ChannelStartNotFound {
            channel_start: "channel = \"".to_owned(),
            build_script: "/p/build.rs".to_owned(),
        })
    );
    assert_eq!(
        parse_toolchain_channel("a\nchannel = \"nightly\nb\"\n", "/p/build.rs"),
        Err(RustGpuToolchainChannelError::ChannelEndNotFound {
            channel_end: "\"".to_owned(),
            channel_line: "channel = \"nightly".to_owned(),
            build_script: "/p/build.rs".to_owned(),
        })
    );
}

#[test]
fn toolchain_channel_of_a_package() {
    let backend = package(None, "/src/rust-gpu/crates/rustc_codegen_spirv/Cargo.toml");
    assert_eq!(
        build_script_path(&backend).as_deref(),
        Some("/src/rust-gpu/crates/rustc_codegen_spirv/build.rs")
    );
    assert_eq!(
        rust_gpu_toolchain_channel(&backend, Ok("channel = \"nightly-2025-05-09\"\n")).unwrap(),
        "nightly-2025-05-09"
    );
    assert_eq!(
        rust_gpu_toolchain_channel(&backend, Err("No such file or directory")),
        Err(RustGpuToolchainChannelError::InvalidBuildScript {
            source: "No such file or directory".to_owned(),
            build_script: "/src/rust-gpu/crates/rustc_codegen_spirv/build.rs".to_owned(),
        })
    );
    let at_root = package(None, "/");
    assert_eq!(build_script_path(&at_root), None);
    assert_eq!(
        rust_gpu_toolchain_channel(&at_root, Ok("channel = \"n\"\n")),
        Err(RustGpuToolchainChannelError::ManifestAtRoot)
    );
}
