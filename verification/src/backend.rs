//! The installation of the codegen backend of `rust-gpu` for one shader crate.
//!
//! The backend is built once for each source and version, in a directory of the
//! cache, and used again from there:
//! * the source and version of `rust-gpu` come from the shader crate or from
//!   explicit settings,
//! * a dummy crate that depends on the backend makes the package manager fetch
//!   it,
//! * the build script of the backend names the toolchain it needs,
//! * the backend is built with that toolchain, and the library that comes out is
//!   moved to its place in the cache.

use vstd::prelude::*;
use crate::path::{join, joined};
use crate::spirv_source::{SpirvSource, SpirvSourceModel};
use crate::toolchain::HaltToolchainInstallation;
use crate::version::version_text;

verus! {

/// What an optional text stands for.
pub open spec fn opt_view(text: Option<String>) -> Option<Seq<char>> {
    match text {
        Some(s) => Some(s@),
        None => None,
    }
}

/// A copy of an optional text.
pub fn copy_opt(text: &Option<String>) -> (out: Option<String>)
    ensures
        opt_view(out) == opt_view(*text),
{
    match text {
        Some(s) => Some(s.clone()),
        None => None,
    }
}

/// A backend that is ready for use, whether it was found in the cache or has
/// just been built.
#[derive(Clone, Debug, Default, PartialEq, Eq)]
pub struct SpirvCodegenBackend {
    /// The path of the library of the backend.
    pub rustc_codegen_spirv_location: String,
    /// The channel of the toolchain that the backend is used with.
    pub toolchain_channel: String,
    /// The directory of target specs.
    pub target_spec_dir: String,
}

/// What a `SpirvCodegenBackend` stands for.
pub struct BackendModel {
    pub rustc_codegen_spirv_location: Seq<char>,
    pub toolchain_channel: Seq<char>,
    pub target_spec_dir: Seq<char>,
}

impl View for SpirvCodegenBackend {
    type V = BackendModel;

    open spec fn view(&self) -> BackendModel {
        BackendModel {
            rustc_codegen_spirv_location: self.rustc_codegen_spirv_location@,
            toolchain_channel: self.toolchain_channel@,
            target_spec_dir: self.target_spec_dir@,
        }
    }
}

/// The settings of a shader build that an installed backend decides.
#[derive(Clone, Debug, Default, PartialEq, Eq)]
pub struct SpirvBuilder {
    /// The directory of the shader crate.
    pub path_to_crate: Option<String>,
    /// The target to build for, such as `spirv-unknown-vulkan1.2`.
    pub target: Option<String>,
    /// The path of the library of the backend.
    pub rustc_codegen_spirv_location: Option<String>,
    /// The toolchain to build with, in place of the one in use.
    pub toolchain_overwrite: Option<String>,
    /// The path of the target spec of the target.
    pub path_to_target_spec: Option<String>,
}

/// What a `SpirvBuilder` stands for.
pub struct BuilderModel {
    pub path_to_crate: Option<Seq<char>>,
    pub target: Option<Seq<char>>,
    pub rustc_codegen_spirv_location: Option<Seq<char>>,
    pub toolchain_overwrite: Option<Seq<char>>,
    pub path_to_target_spec: Option<Seq<char>>,
}

impl View for SpirvBuilder {
    type V = BuilderModel;

    open spec fn view(&self) -> BuilderModel {
        BuilderModel {
            path_to_crate: opt_view(self.path_to_crate),
            target: opt_view(self.target),
            rustc_codegen_spirv_location: opt_view(self.rustc_codegen_spirv_location),
            toolchain_overwrite: opt_view(self.toolchain_overwrite),
            path_to_target_spec: opt_view(self.path_to_target_spec),
        }
    }
}

/// Why a shader build could not be set up.
#[derive(Clone, Copy, Debug, PartialEq, Eq, Structural)]
pub enum SpirvBuilderError {
    /// No target is set.
    MissingTarget,
}

/// The target spec of `target` in the directory `target_spec_dir`.
pub open spec fn target_spec_of(target_spec_dir: Seq<char>, target: Seq<char>) -> Seq<char> {
    joined(target_spec_dir, target + ".json"@)
}

/// The settings `b` after `backend` has decided its part: the library and the
/// toolchain in any case, the target spec where a target is set.
pub open spec fn configured(backend: BackendModel, b: BuilderModel) -> BuilderModel {
    BuilderModel {
        rustc_codegen_spirv_location: Some(backend.rustc_codegen_spirv_location),
        toolchain_overwrite: Some(backend.toolchain_channel),
        path_to_target_spec: match b.target {
            Some(target) => Some(target_spec_of(backend.target_spec_dir, target)),
            None => b.path_to_target_spec,
        },
        ..b
    }
}

impl SpirvCodegenBackend {
    /// The settings of a build of the crate in `path_to_crate` for `target`
    /// that uses this backend.
    pub fn to_spirv_builder(&self, path_to_crate: &str, target: &str) -> (builder: SpirvBuilder)
        ensures
            builder@ == configured(
                self@,
                BuilderModel {
                    path_to_crate: Some(path_to_crate@),
                    target: Some(target@),
                    rustc_codegen_spirv_location: None,
                    toolchain_overwrite: None,
                    path_to_target_spec: None,
                },
            ),
    {
        let mut builder = SpirvBuilder {
            path_to_crate: Some(path_to_crate.to_owned()),
            target: Some(target.to_owned()),
            rustc_codegen_spirv_location: None,
            toolchain_overwrite: None,
            path_to_target_spec: None,
        };
        let _ = self.configure_spirv_builder(&mut builder);
        builder
    }

    /// Makes the build with the settings `builder` use this backend. The target
    /// of the build must be set before, and must stay as it is afterwards: the
    /// target spec is chosen by it. Without a target nothing but the target
    /// spec is set, and the call fails.
    pub fn configure_spirv_builder(&self, builder: &mut SpirvBuilder) -> (r: Result<
        (),
        SpirvBuilderError,
    >)
        ensures
            final(builder)@ == configured(self@, old(builder)@),
            r is Ok <==> old(builder).target is Some,
            r is Err ==> r == Err::<(), SpirvBuilderError>(SpirvBuilderError::MissingTarget),
    {
        builder.rustc_codegen_spirv_location = Some(self.rustc_codegen_spirv_location.clone());
        builder.toolchain_overwrite = Some(self.toolchain_channel.clone());
        let spec_file = match &builder.target {
            Some(target) => {
                let mut name = target.clone();
                name.append(".json");
                join(self.target_spec_dir.as_str(), name.as_str())
            },
            None => {
                return Err(SpirvBuilderError::MissingTarget);
            },
        };
        builder.path_to_target_spec = Some(spec_file);
        Ok(())
    }
}

/// Settings for an installation of the codegen backend.
#[derive(Clone, Debug, PartialEq, Eq)]
pub struct SpirvCodegenBackendInstaller {
    /// The repository to take `rust-gpu` from, such as
    /// "https://github.com/Rust-GPU/rust-gpu".
    pub spirv_builder_source: Option<String>,
    /// The version of `rust-gpu`: a registry version such as "0.9.0" where no
    /// repository is given, else a revision of the repository.
    pub spirv_builder_version: Option<String>,
    /// Build the backend even where the cache holds it.
    pub rebuild_codegen: bool,
    /// Remove the build's output directory after a successful build; saves
    /// about 200 MiB.
    pub clear_target: bool,
}

/// What a `SpirvCodegenBackendInstaller` stands for.
pub struct InstallerModel {
    pub spirv_builder_source: Option<Seq<char>>,
    pub spirv_builder_version: Option<Seq<char>>,
    pub rebuild_codegen: bool,
    pub clear_target: bool,
}

impl View for SpirvCodegenBackendInstaller {
    type V = InstallerModel;

    open spec fn view(&self) -> InstallerModel {
        InstallerModel {
            spirv_builder_source: opt_view(self.spirv_builder_source),
            spirv_builder_version: opt_view(self.spirv_builder_version),
            rebuild_codegen: self.rebuild_codegen,
            clear_target: self.clear_target,
        }
    }
}

impl Default for SpirvCodegenBackendInstaller {
    fn default() -> (r: Self)
        ensures
            r@ == (InstallerModel {
                spirv_builder_source: None,
                spirv_builder_version: None,
                rebuild_codegen: false,
                clear_target: true,
            }),
    {
        Self {
            spirv_builder_source: None,
            spirv_builder_version: None,
            rebuild_codegen: false,
            clear_target: true,
        }
    }
}

impl SpirvCodegenBackendInstaller {
    /// Sets the repository to take `rust-gpu` from.
    pub fn spirv_builder_source(self, spirv_builder_source: Option<String>) -> (r: Self)
        ensures
            r@ == (InstallerModel { spirv_builder_source: opt_view(spirv_builder_source), ..self@ }),
    {
        Self {
            spirv_builder_source,
            spirv_builder_version: self.spirv_builder_version,
            rebuild_codegen: self.rebuild_codegen,
            clear_target: self.clear_target,
        }
    }

    /// Sets the version of `rust-gpu`.
    pub fn spirv_builder_version(self, spirv_builder_version: Option<String>) -> (r: Self)
        ensures
            r@ == (InstallerModel {
                spirv_builder_version: opt_view(spirv_builder_version),
                ..self@
            }),
    {
        Self {
            spirv_builder_source: self.spirv_builder_source,
            spirv_builder_version,
            rebuild_codegen: self.rebuild_codegen,
            clear_target: self.clear_target,
        }
    }

    /// Sets whether the backend is built even where the cache holds it.
    pub fn rebuild_codegen(self, rebuild_codegen: bool) -> (r: Self)
        ensures
            r@ == (InstallerModel { rebuild_codegen, ..self@ }),
    {
        Self {
            spirv_builder_source: self.spirv_builder_source,
            spirv_builder_version: self.spirv_builder_version,
            rebuild_codegen,
            clear_target: self.clear_target,
        }
    }

    /// Sets whether the build's output directory is removed after a successful
    /// build.
    pub fn clear_target(self, clear_target: bool) -> (r: Self)
        ensures
            r@ == (InstallerModel { clear_target, ..self@ }),
    {
        Self {
            spirv_builder_source: self.spirv_builder_source,
            spirv_builder_version: self.spirv_builder_version,
            rebuild_codegen: self.rebuild_codegen,
            clear_target,
        }
    }
}

/// Where the output streams of the commands of an installation go.
#[derive(Clone, Copy, Debug)]
pub struct StdioCfg<O, E> {
    /// Makes the standard output of a command.
    pub stdout: O,
    /// Makes the standard error of a command.
    pub stderr: E,
}

/// What an installation takes from its caller.
#[derive(Clone, Debug)]
pub struct SpirvCodegenBackendInstallParams<W, T, C, O, E> {
    /// The directory of the shader crate to install the backend for.
    pub shader_crate: String,
    /// Receives what the installation tells the user.
    pub writer: W,
    /// The hooks that can halt the installation of a toolchain.
    pub halt: HaltToolchainInstallation<T, C>,
    /// Where the output streams of the commands go.
    pub stdio_cfg: StdioCfg<O, E>,
}

impl<W, T, C, O, E> SpirvCodegenBackendInstallParams<W, T, C, O, E> {
    /// Replaces the directory of the shader crate.
    pub fn shader_crate(self, shader_crate: String) -> (r: Self)
        ensures
            r.shader_crate == shader_crate,
            r.writer == self.writer,
            r.halt == self.halt,
            r.stdio_cfg == self.stdio_cfg,
    {
        Self { shader_crate, writer: self.writer, halt: self.halt, stdio_cfg: self.stdio_cfg }
    }

    /// Replaces the writer of what the user is told.
    pub fn writer<NW>(self, writer: NW) -> (r: SpirvCodegenBackendInstallParams<NW, T, C, O, E>)
        ensures
            r.shader_crate == self.shader_crate,
            r.writer == writer,
            r.halt == self.halt,
            r.stdio_cfg == self.stdio_cfg,
    {
        SpirvCodegenBackendInstallParams {
            shader_crate: self.shader_crate,
            writer,
            halt: self.halt,
            stdio_cfg: self.stdio_cfg,
        }
    }

    /// Replaces the hooks that can halt the installation of a toolchain.
    pub fn halt<NT, NC>(self, halt: HaltToolchainInstallation<NT, NC>) -> (r:
        SpirvCodegenBackendInstallParams<W, NT, NC, O, E>)
        ensures
            r.shader_crate == self.shader_crate,
            r.writer == self.writer,
            r.halt == halt,
            r.stdio_cfg == self.stdio_cfg,
    {
        SpirvCodegenBackendInstallParams {
            shader_crate: self.shader_crate,
            writer: self.writer,
            halt,
            stdio_cfg: self.stdio_cfg,
        }
    }

    /// Replaces where the output streams of the commands go.
    pub fn stdio_cfg<NO, NE>(self, stdio_cfg: StdioCfg<NO, NE>) -> (r:
        SpirvCodegenBackendInstallParams<W, T, C, NO, NE>)
        ensures
            r.shader_crate == self.shader_crate,
            r.writer == self.writer,
            r.halt == self.halt,
            r.stdio_cfg == stdio_cfg,
    {
        SpirvCodegenBackendInstallParams {
            shader_crate: self.shader_crate,
            writer: self.writer,
            halt: self.halt,
            stdio_cfg,
        }
    }
}

/// The name of the library of the backend, without what the platform puts
/// around it.
pub open spec fn backend_name() -> Seq<char> {
    "rustc_codegen_spirv"@
}

/// The file name of the dynamic library `name` on a platform that puts
/// `dll_prefix` before and `dll_suffix` behind such names.
pub open spec fn dylib_name(name: Seq<char>, dll_prefix: Seq<char>, dll_suffix: Seq<char>) -> Seq<
    char,
> {
    dll_prefix + name + dll_suffix
}

/// Returns the file name of the dynamic library `name` on a platform that puts
/// `dll_prefix` before and `dll_suffix` behind such names.
pub fn dylib_filename(name: &str, dll_prefix: &str, dll_suffix: &str) -> (out: String)
    ensures
        out@ == dylib_name(name@, dll_prefix@, dll_suffix@),
{
    let mut out = dll_prefix.to_owned();
    out.append(name);
    out.append(dll_suffix);
    out
}

/// The manifest of the dummy crate, up to where its one dependency is pinned.
pub open spec fn dummy_manifest_head() -> Seq<char> {
    "[package]\nname = \"rustc_codegen_spirv_dummy\"\nversion = \"0.1.0\"\nedition = \"2021\"\n\n[dependencies.spirv-builder]\npackage = \"rustc_codegen_spirv\"\n"@
}

/// What pins the dependency of the dummy crate to `source`: the version of a
/// registry release; the address and the full revision of a repository; the
/// path of the `spirv-builder` crate of a local checkout with its version.
pub open spec fn version_spec_of(source: SpirvSourceModel) -> Seq<char> {
    match source {
        SpirvSourceModel::CratesIO(version) => "version = \""@ + version_text(version) + "\""@,
        SpirvSourceModel::Git { url, rev } => "git = \""@ + url + "\"\nrev = \""@ + rev + "\""@,
        SpirvSourceModel::Path { rust_gpu_repo_root, version } => "path = \""@ + joined(
            joined(rust_gpu_repo_root, "crates"@),
            "spirv-builder"@,
        ) + "\"\nversion = \""@ + version_text(version) + "\""@,
    }
}

/// The manifest of the dummy crate for `source`.
pub open spec fn dummy_manifest_of(source: SpirvSourceModel) -> Seq<char> {
    dummy_manifest_head() + version_spec_of(source) + "\n"@
}

/// Returns the contents of the manifest of the dummy crate, whose one
/// dependency is the backend from `source`.
pub fn dummy_cargo_toml(source: &SpirvSource) -> (out: String)
    ensures
        out@ == dummy_manifest_of(source@),
{
    let mut out = String::new();
    out.append(
        "[package]\nname = \"rustc_codegen_spirv_dummy\"\nversion = \"0.1.0\"\nedition = \"2021\"\n\n[dependencies.spirv-builder]\npackage = \"rustc_codegen_spirv\"\n",
    );
    let ghost head = out@;
    assert(head =~= dummy_manifest_head());
    match source {
        SpirvSource::CratesIO(version) => {
            out.append("version = \"");
            out.append(version.to_text().as_str());
            out.append("\"");
            assert(out@ =~= head + version_spec_of(source@));
        },
        SpirvSource::Git { url, rev } => {
            out.append("git = \"");
            out.append(url.as_str());
            out.append("\"\nrev = \"");
            out.append(rev.as_str());
            out.append("\"");
            assert(out@ =~= head + version_spec_of(source@));
        },
        SpirvSource::Path { rust_gpu_repo_root, version } => {
            let crates = join(rust_gpu_repo_root.as_str(), "crates");
            let new_path = join(crates.as_str(), "spirv-builder");
            out.append("path = \"");
            out.append(new_path.as_str());
            out.append("\"\nversion = \"");
            out.append(version.to_text().as_str());
            out.append("\"");
            assert(out@ =~= head + version_spec_of(source@));
        },
    }
    out.append("\n");
    out
}

} // verus!
