//! The installation of the backend, one step at a time.
//!
//! The library decides; the caller acts. Each step takes what the caller found
//! or did since the last one, and returns what is to be done next, until the
//! installation ends with a backend or with an error. Nothing is tried twice,
//! and nothing that failed is passed over.

use vstd::prelude::*;
use crate::backend::{
    backend_name, copy_opt, dummy_cargo_toml, dummy_manifest_of, dylib_filename, dylib_name,
    opt_view,
    BackendModel, InstallerModel, SpirvCodegenBackend, SpirvCodegenBackendInstaller,
};
use crate::cache::{cache_dir, cache_name, CacheDirError};
use crate::command::{
    execute_command, judged, outcome_view, texts_view, CommandExecError, CommandFailure,
    CommandLine, CommandLineModel, CommandOutput, CommandOutputModel,
};
use crate::metadata::{
    package_named, Metadata, MetadataExt, MetadataModel, PackageByNameError, QueryFailure,
    QueryMetadataError,
};
use crate::path::{join, joined};
use crate::spirv_source::{
    build_script_of, build_script_path, channel_of_package, install_dir_of, repo_root_to_probe,
    rust_gpu_toolchain_channel, source_from_settings, source_from_shader, source_text,
    ChannelFailure, RustGpuToolchainChannelError, SourceFailure, SpirvSource, SpirvSourceError,
    SpirvSourceModel,
};
use crate::target_specs::{
    bundled_specs_of, bundled_target_specs, target_specs_for, update_target_specs_files,
    TargetSpecsUpdate, TargetSpecsUpdateModel, UpdateFailure, UpdateTargetSpecsFilesError,
    WriteLegacyFailure, WriteLegacyTargetSpecsError,
};
use crate::toolchain::{
    ensure_toolchain_installation, toolchain_step, EnsureToolchainError, EnsureToolchainFailure,
    ToolchainAction, ToolchainActionModel, ToolchainEvent, ToolchainEventModel,
    ToolchainInstallation, ToolchainInstallationModel, ToolchainStage,
};

verus! {

/// Why the backend could not be installed.
#[derive(Debug)]
pub enum SpirvCodegenBackendInstallError<E> {
    /// The user could not be told what is going on.
    IoWrite(String),
    /// There is no cache directory.
    NoCacheDir(CacheDirError),
    /// The cache directory could not be made.
    CreateCacheDir {
        /// The cache directory.
        cache_dir: String,
        /// Why it could not be made.
        source: String,
    },
    /// The source of `rust-gpu` could not be decided on.
    SpirvSource(SpirvSourceError),
    /// The `src` directory of the dummy crate could not be made.
    CreateDummySrcDir(String),
    /// `src/lib.rs` of the dummy crate could not be made.
    CreateDummyLibRs(String),
    /// The manifest of the dummy crate could not be written.
    WriteDummyCargoToml(String),
    /// The package graph of the dummy crate could not be had.
    QueryDummyMetadata(QueryMetadataError),
    /// The package graph of the dummy crate holds no backend.
    NoRustcCodegenSpirv(PackageByNameError),
    /// The toolchain channel of the backend could not be found out.
    RustGpuToolchainChannel(RustGpuToolchainChannelError),
    /// The target specs could not be made ready.
    UpdateTargetSpecsFiles(UpdateTargetSpecsFilesError),
    /// The toolchain or its components could not be made ready.
    EnsureToolchainInstallation(EnsureToolchainError<E>),
    /// The lockfile of the dummy crate could not be removed.
    RemoveDummyCargoLock(String),
    /// The library of the backend could not be moved to its place.
    MoveRustcCodegenSpirvDylib(String),
    /// The output directory of the build could not be removed.
    RemoveRustcCodegenSpirvTargetDir(String),
    /// The build of the backend failed.
    RustcCodegenSpirvBuild(CommandExecError),
    /// The build of the backend did not leave the library it was to make.
    RustcCodegenSpirvDylibNotFound,
    /// An event came that the step before had not asked for.
    OutOfTurn,
}

/// What a `SpirvCodegenBackendInstallError` stands for.
pub enum InstallFailure<E> {
    IoWrite(Seq<char>),
    NoCacheDir,
    CreateCacheDir { cache_dir: Seq<char>, source: Seq<char> },
    SpirvSource(SourceFailure),
    CreateDummySrcDir(Seq<char>),
    CreateDummyLibRs(Seq<char>),
    WriteDummyCargoToml(Seq<char>),
    QueryDummyMetadata(QueryFailure),
    NoRustcCodegenSpirv { name: Seq<char>, workspace_root: Seq<char> },
    RustGpuToolchainChannel(ChannelFailure),
    UpdateTargetSpecsFiles(UpdateFailure),
    EnsureToolchainInstallation(EnsureToolchainFailure<E>),
    RemoveDummyCargoLock(Seq<char>),
    MoveRustcCodegenSpirvDylib(Seq<char>),
    RemoveRustcCodegenSpirvTargetDir(Seq<char>),
    RustcCodegenSpirvBuild(CommandFailure),
    RustcCodegenSpirvDylibNotFound,
    OutOfTurn,
}

impl<E> View for SpirvCodegenBackendInstallError<E> {
    type V = InstallFailure<E>;

    open spec fn view(&self) -> InstallFailure<E> {
        match self {
            SpirvCodegenBackendInstallError::IoWrite(s) => InstallFailure::IoWrite(s@),
            SpirvCodegenBackendInstallError::NoCacheDir(_) => InstallFailure::NoCacheDir,
            SpirvCodegenBackendInstallError::CreateCacheDir { cache_dir, source } => {
                InstallFailure::CreateCacheDir { cache_dir: cache_dir@, source: source@ }
            },
            SpirvCodegenBackendInstallError::SpirvSource(e) => InstallFailure::SpirvSource(e@),
            SpirvCodegenBackendInstallError::CreateDummySrcDir(s) => {
                InstallFailure::CreateDummySrcDir(s@)
            },
            SpirvCodegenBackendInstallError::CreateDummyLibRs(s) => InstallFailure::CreateDummyLibRs(
                s@,
            ),
            SpirvCodegenBackendInstallError::WriteDummyCargoToml(s) => {
                InstallFailure::WriteDummyCargoToml(s@)
            },
            SpirvCodegenBackendInstallError::QueryDummyMetadata(e) => {
                InstallFailure::QueryDummyMetadata(e@)
            },
            SpirvCodegenBackendInstallError::NoRustcCodegenSpirv(e) => {
                InstallFailure::NoRustcCodegenSpirv {
                    name: e.name(),
                    workspace_root: e.workspace_root(),
                }
            },
            SpirvCodegenBackendInstallError::RustGpuToolchainChannel(e) => {
                InstallFailure::RustGpuToolchainChannel(e@)
            },
            SpirvCodegenBackendInstallError::UpdateTargetSpecsFiles(e) => {
                InstallFailure::UpdateTargetSpecsFiles(e@)
            },
            SpirvCodegenBackendInstallError::EnsureToolchainInstallation(e) => {
                InstallFailure::EnsureToolchainInstallation(e@)
            },
            SpirvCodegenBackendInstallError::RemoveDummyCargoLock(s) => {
                InstallFailure::RemoveDummyCargoLock(s@)
            },
            SpirvCodegenBackendInstallError::MoveRustcCodegenSpirvDylib(s) => {
                InstallFailure::MoveRustcCodegenSpirvDylib(s@)
            },
            SpirvCodegenBackendInstallError::RemoveRustcCodegenSpirvTargetDir(s) => {
                InstallFailure::RemoveRustcCodegenSpirvTargetDir(s@)
            },
            SpirvCodegenBackendInstallError::RustcCodegenSpirvBuild(e) => {
                InstallFailure::RustcCodegenSpirvBuild(e@)
            },
            SpirvCodegenBackendInstallError::RustcCodegenSpirvDylibNotFound => {
                InstallFailure::RustcCodegenSpirvDylibNotFound
            },
            SpirvCodegenBackendInstallError::OutOfTurn => InstallFailure::OutOfTurn,
        }
    }
}

/// What an installation has to know of the machine it runs on.
#[derive(Clone, Debug, PartialEq, Eq)]
pub struct InstallEnvironment {
    /// The directory that the operating system gives the user for cached
    /// files, if it gives one.
    pub user_cache_dir: Option<String>,
    /// What the platform puts before the name of a dynamic library.
    pub dll_prefix: String,
    /// What the platform puts behind the name of a dynamic library.
    pub dll_suffix: String,
}

/// What an `InstallEnvironment` stands for.
pub struct EnvironmentModel {
    pub user_cache_dir: Option<Seq<char>>,
    pub dll_prefix: Seq<char>,
    pub dll_suffix: Seq<char>,
}

impl View for InstallEnvironment {
    type V = EnvironmentModel;

    open spec fn view(&self) -> EnvironmentModel {
        EnvironmentModel {
            user_cache_dir: opt_view(self.user_cache_dir),
            dll_prefix: self.dll_prefix@,
            dll_suffix: self.dll_suffix@,
        }
    }
}

/// How far an installation has come.
#[derive(Clone, Copy, Debug, PartialEq, Eq, Structural)]
pub enum InstallStage {
    /// Nothing has been done yet.
    Start,
    /// The cache directory is being made.
    CreatingCacheDir,
    /// The package graph of the shader crate is being asked for.
    QueryingShaderCrate,
    /// The root of a local checkout is being looked for.
    ProbingRepoRoot,
    /// The cache is being searched for an earlier build.
    ProbingArtifacts,
    /// The `src` directory of the dummy crate is being made.
    CreatingDummySrcDir,
    /// `src/lib.rs` of the dummy crate is being made.
    CreatingDummyLibRs,
    /// The manifest of the dummy crate is being written.
    WritingDummyCargoToml,
    /// The package graph of the dummy crate, or of the local checkout, is being
    /// asked for.
    QueryingDummyMetadata,
    /// The build script of the backend is being read.
    ReadingBuildScript,
    /// The toolchain and its components are being made ready.
    EnsuringToolchain,
    /// The target specs that the backend brings are being looked for.
    ProbingTargetSpecs,
    /// The target specs that the backend brings are being copied.
    CopyingTargetSpecs,
    /// The legacy target specs are being written.
    WritingLegacyTargetSpecs,
    /// The lockfile of the dummy crate is being removed.
    RemovingDummyCargoLock,
    /// The user is being told of the build.
    Announcing,
    /// The backend is being built.
    Building,
    /// The library that the build was to make is being looked for.
    ProbingDylib,
    /// The library is being moved to its place in the cache.
    MovingDylib,
    /// The output directory of the build is being removed.
    ClearingTarget,
    /// The installation has ended, well or not.
    Finished,
}

/// An installation of the backend for one shader crate, as far as it has come.
/// What is not known yet is empty.
#[derive(Clone, Debug, PartialEq, Eq)]
pub struct Installation {
    /// The settings of the installation.
    pub installer: SpirvCodegenBackendInstaller,
    /// The directory of the shader crate.
    pub shader_crate: String,
    /// How far the installation has come.
    pub stage: InstallStage,
    /// The cache directory.
    pub cache_dir: String,
    /// The file name of the library of the backend.
    pub dylib_filename: String,
    /// The source of `rust-gpu`.
    pub source: SpirvSource,
    /// The package graph that was asked for last.
    pub metadata: Metadata,
    /// The directory in which the backend is built.
    pub install_dir: String,
    /// The place of the library of the backend, once it is installed.
    pub dest_dylib_path: String,
    /// Whether the cache holds the backend, so that nothing is built.
    pub skip_rebuild: bool,
    /// The installation of the toolchain.
    pub toolchain: ToolchainInstallation,
    /// The directory of target specs.
    pub target_spec_dir: String,
}

/// What an `Installation` stands for.
pub struct InstallationModel {
    pub installer: InstallerModel,
    pub shader_crate: Seq<char>,
    pub stage: InstallStage,
    pub cache_dir: Seq<char>,
    pub dylib_filename: Seq<char>,
    pub source: SpirvSourceModel,
    pub metadata: MetadataModel,
    pub install_dir: Seq<char>,
    pub dest_dylib_path: Seq<char>,
    pub skip_rebuild: bool,
    pub toolchain: ToolchainInstallationModel,
    pub target_spec_dir: Seq<char>,
}

impl View for Installation {
    type V = InstallationModel;

    open spec fn view(&self) -> InstallationModel {
        InstallationModel {
            installer: self.installer@,
            shader_crate: self.shader_crate@,
            stage: self.stage,
            cache_dir: self.cache_dir@,
            dylib_filename: self.dylib_filename@,
            source: self.source@,
            metadata: self.metadata@,
            install_dir: self.install_dir@,
            dest_dylib_path: self.dest_dylib_path@,
            skip_rebuild: self.skip_rebuild,
            toolchain: self.toolchain@,
            target_spec_dir: self.target_spec_dir@,
        }
    }
}

/// What happened since the last step of an installation.
#[derive(Debug)]
pub enum InstallEvent<E> {
    /// The installation is to begin, on a machine like this.
    Begin(InstallEnvironment),
    /// What was to be done to the file system was done, or why it could not be.
    Done(Result<(), String>),
    /// The legacy target specs were written, or why they could not be.
    LegacyWritten(Result<(), WriteLegacyTargetSpecsError>),
    /// Whether the file or directory that was asked about exists.
    Exists(bool),
    /// For each file that was asked about, whether it exists.
    Files(Vec<bool>),
    /// The package graph that was asked for, or why it could not be had.
    Metadata(Result<Metadata, QueryMetadataError>),
    /// The contents of the file that was asked for, or why it could not be
    /// read.
    Read(Result<String, String>),
    /// The command was run, with this outcome.
    Ran(Result<CommandOutput, String>),
    /// The caller was asked, and consented or gave the reason for halting.
    Answered(Result<(), E>),
}

/// What an `InstallEvent` stands for.
pub enum InstallEventModel<E> {
    Begin(EnvironmentModel),
    Done(Result<(), Seq<char>>),
    LegacyWritten(Result<(), WriteLegacyFailure>),
    Exists(bool),
    Files(Seq<bool>),
    Metadata(Result<MetadataModel, QueryFailure>),
    Read(Result<Seq<char>, Seq<char>>),
    Ran(Result<CommandOutputModel, Seq<char>>),
    Answered(Result<(), E>),
}

impl<E> View for InstallEvent<E> {
    type V = InstallEventModel<E>;

    open spec fn view(&self) -> InstallEventModel<E> {
        match self {
            InstallEvent::Begin(env) => InstallEventModel::Begin(env@),
            InstallEvent::Done(r) => InstallEventModel::Done(
                match r {
                    Ok(()) => Ok(()),
                    Err(e) => Err(e@),
                },
            ),
            InstallEvent::LegacyWritten(r) => InstallEventModel::LegacyWritten(
                match r {
                    Ok(()) => Ok(()),
                    Err(e) => Err(e@),
                },
            ),
            InstallEvent::Exists(b) => InstallEventModel::Exists(*b),
            InstallEvent::Files(flags) => InstallEventModel::Files(flags@),
            InstallEvent::Metadata(r) => InstallEventModel::Metadata(
                match r {
                    Ok(m) => Ok(m@),
                    Err(e) => Err(e@),
                },
            ),
            InstallEvent::Read(r) => InstallEventModel::Read(
                match r {
                    Ok(c) => Ok(c@),
                    Err(e) => Err(e@),
                },
            ),
            InstallEvent::Ran(outcome) => InstallEventModel::Ran(outcome_view(*outcome)),
            InstallEvent::Answered(answer) => InstallEventModel::Answered(*answer),
        }
    }
}

/// What the caller is to do next for an installation. But for `Finish`, the
/// caller reports what came of it with the event that the action names.
#[derive(Debug)]
pub enum InstallAction<E> {
    /// Make this directory and every missing one above it; report `Done`.
    CreateDirAll(String),
    /// Make this file, empty; report `Done`.
    CreateFile(String),
    /// Write these contents over this file; report `Done`.
    WriteFile {
        /// The file.
        file: String,
        /// Its new contents.
        contents: String,
    },
    /// Remove this file if it exists; report `Done`.
    RemoveFile(String),
    /// Remove this directory with all that it holds; report `Done`.
    RemoveDirAll(String),
    /// Move the file `from` to `to`; report `Done`.
    Rename {
        /// Where the file is.
        from: String,
        /// Where it is to be.
        to: String,
    },
    /// Copy every regular file of the directory `from` into the directory
    /// `to`, which is made if it is missing; report `Done`.
    CopySpecFiles {
        /// The directory that holds the files.
        from: String,
        /// The directory that receives them.
        to: String,
    },
    /// Write the legacy target specs into this directory, which is made if it
    /// is missing; report `LegacyWritten`.
    WriteLegacyTargetSpecs(String),
    /// Tell the user this; report `Done`.
    Announce(String),
    /// Tell whether this directory exists; report `Exists`.
    ProbeDir(String),
    /// Tell whether this file exists; report `Exists`.
    ProbeFile(String),
    /// Tell of each of these files whether it exists; report `Files`.
    ProbeFiles(Vec<String>),
    /// Ask the package manager for the package graph of the crate in this
    /// directory; report `Metadata`.
    QueryMetadata(String),
    /// Read this file; report `Read`.
    ReadFile(String),
    /// Run this command; report `Ran`.
    Run(CommandLine),
    /// Ask whether the toolchain of this channel may be installed; report
    /// `Answered`.
    AskToolchainInstall(String),
    /// Ask whether the required components of the toolchain of this channel
    /// may be installed; report `Answered`.
    AskComponentsInstall(String),
    /// Nothing more: the installation has ended with this result.
    Finish(Result<SpirvCodegenBackend, SpirvCodegenBackendInstallError<E>>),
}

/// What an `InstallAction` stands for.
pub enum InstallActionModel<E> {
    CreateDirAll(Seq<char>),
    CreateFile(Seq<char>),
    WriteFile { file: Seq<char>, contents: Seq<char> },
    RemoveFile(Seq<char>),
    RemoveDirAll(Seq<char>),
    Rename { from: Seq<char>, to: Seq<char> },
    CopySpecFiles { from: Seq<char>, to: Seq<char> },
    WriteLegacyTargetSpecs(Seq<char>),
    Announce(Seq<char>),
    ProbeDir(Seq<char>),
    ProbeFile(Seq<char>),
    ProbeFiles(Seq<Seq<char>>),
    QueryMetadata(Seq<char>),
    ReadFile(Seq<char>),
    Run(CommandLineModel),
    AskToolchainInstall(Seq<char>),
    AskComponentsInstall(Seq<char>),
    Finish(Result<BackendModel, InstallFailure<E>>),
}

impl<E> View for InstallAction<E> {
    type V = InstallActionModel<E>;

    open spec fn view(&self) -> InstallActionModel<E> {
        match self {
            InstallAction::CreateDirAll(s) => InstallActionModel::CreateDirAll(s@),
            InstallAction::CreateFile(s) => InstallActionModel::CreateFile(s@),
            InstallAction::WriteFile { file, contents } => InstallActionModel::WriteFile {
                file: file@,
                contents: contents@,
            },
            InstallAction::RemoveFile(s) => InstallActionModel::RemoveFile(s@),
            InstallAction::RemoveDirAll(s) => InstallActionModel::RemoveDirAll(s@),
            InstallAction::Rename { from, to } => InstallActionModel::Rename {
                from: from@,
                to: to@,
            },
            InstallAction::CopySpecFiles { from, to } => InstallActionModel::CopySpecFiles {
                from: from@,
                to: to@,
            },
            InstallAction::WriteLegacyTargetSpecs(s) => InstallActionModel::WriteLegacyTargetSpecs(
                s@,
            ),
            InstallAction::Announce(s) => InstallActionModel::Announce(s@),
            InstallAction::ProbeDir(s) => InstallActionModel::ProbeDir(s@),
            InstallAction::ProbeFile(s) => InstallActionModel::ProbeFile(s@),
            InstallAction::ProbeFiles(files) => InstallActionModel::ProbeFiles(texts_view(files@)),
            InstallAction::QueryMetadata(s) => InstallActionModel::QueryMetadata(s@),
            InstallAction::ReadFile(s) => InstallActionModel::ReadFile(s@),
            InstallAction::Run(command) => InstallActionModel::Run(command@),
            InstallAction::AskToolchainInstall(s) => InstallActionModel::AskToolchainInstall(s@),
            InstallAction::AskComponentsInstall(s) => InstallActionModel::AskComponentsInstall(s@),
            InstallAction::Finish(r) => InstallActionModel::Finish(
                match r {
                    Ok(backend) => Ok(backend@),
                    Err(e) => Err(e@),
                },
            ),
        }
    }
}

/// An installation before its first step: nothing is known yet but the
/// settings and the shader crate.
pub open spec fn fresh_installation(
    installer: InstallerModel,
    shader_crate: Seq<char>,
) -> InstallationModel {
    InstallationModel {
        installer,
        shader_crate,
        stage: InstallStage::Start,
        cache_dir: Seq::empty(),
        dylib_filename: Seq::empty(),
        source: SpirvSourceModel::Git { url: Seq::empty(), rev: Seq::empty() },
        metadata: MetadataModel { packages: Seq::empty(), workspace_root: Seq::empty() },
        install_dir: Seq::empty(),
        dest_dylib_path: Seq::empty(),
        skip_rebuild: false,
        toolchain: fresh_toolchain(Seq::empty()),
        target_spec_dir: Seq::empty(),
    }
}

/// A step of an installation: the installation after it, and what is to be done
/// next.
pub type Step<E> = (InstallationModel, InstallActionModel<E>);

/// The installation at `stage`, with the rest of `s` unchanged.
pub open spec fn install_at(s: InstallationModel, stage: InstallStage) -> InstallationModel {
    InstallationModel { stage, ..s }
}

/// The end of an installation with the failure `f`.
pub open spec fn install_failed<E>(s: InstallationModel, f: InstallFailure<E>) -> Step<E> {
    (install_at(s, InstallStage::Finished), InstallActionModel::Finish(Err(f)))
}

/// The backend that the installation `s` has made ready.
pub open spec fn backend_of(s: InstallationModel) -> BackendModel {
    BackendModel {
        rustc_codegen_spirv_location: s.dest_dylib_path,
        toolchain_channel: s.toolchain.channel,
        target_spec_dir: s.target_spec_dir,
    }
}

/// The end of an installation with its backend.
pub open spec fn install_done<E>(s: InstallationModel) -> Step<E> {
    (install_at(s, InstallStage::Finished), InstallActionModel::Finish(Ok(backend_of(s))))
}

/// The output directory of a build in `install_dir`.
pub open spec fn target_dir_of(install_dir: Seq<char>) -> Seq<char> {
    joined(install_dir, "target"@)
}

/// Where a build in `install_dir` leaves the library `dylib_filename`.
pub open spec fn built_dylib_of(install_dir: Seq<char>, dylib_filename: Seq<char>) -> Seq<char> {
    joined(joined(target_dir_of(install_dir), "release"@), dylib_filename)
}

/// The `src` directory of the dummy crate in `install_dir`.
pub open spec fn dummy_src_of(install_dir: Seq<char>) -> Seq<char> {
    joined(install_dir, "src"@)
}

/// `src/lib.rs` of the dummy crate in `install_dir`.
pub open spec fn dummy_lib_of(install_dir: Seq<char>) -> Seq<char> {
    joined(dummy_src_of(install_dir), "lib.rs"@)
}

/// The manifest of the dummy crate in `install_dir`.
pub open spec fn dummy_manifest_path(install_dir: Seq<char>) -> Seq<char> {
    joined(install_dir, "Cargo.toml"@)
}

/// The lockfile of the dummy crate in `install_dir`.
pub open spec fn dummy_lock_of(install_dir: Seq<char>) -> Seq<char> {
    joined(install_dir, "Cargo.lock"@)
}

/// The step that asks for the package graph of the crate that holds the
/// backend.
pub open spec fn to_dummy_metadata<E>(s: InstallationModel) -> Step<E> {
    (
        install_at(s, InstallStage::QueryingDummyMetadata),
        InstallActionModel::QueryMetadata(s.install_dir),
    )
}

/// What follows once the source is known. A local checkout is built where it
/// is, and always. Any other source is built in the cache, where an earlier
/// build may be found: that is looked for next.
pub open spec fn resolved<E>(s: InstallationModel, source: SpirvSourceModel) -> Step<E> {
    let install_dir = install_dir_of(source, s.cache_dir);
    if source is Path {
        to_dummy_metadata(
            InstallationModel {
                source,
                install_dir,
                dest_dylib_path: built_dylib_of(install_dir, s.dylib_filename),
                skip_rebuild: false,
                ..s
            },
        )
    } else {
        let dest = joined(install_dir, s.dylib_filename);
        (
            InstallationModel {
                stage: InstallStage::ProbingArtifacts,
                source,
                install_dir,
                dest_dylib_path: dest,
                ..s
            },
            InstallActionModel::ProbeFiles(
                seq![dest, dummy_manifest_path(install_dir), dummy_lib_of(install_dir)],
            ),
        )
    }
}

/// What follows once it is known whether the root of a local checkout exists:
/// the source that the shader crate names, or the failure to read it.
pub open spec fn after_repo_root<E>(s: InstallationModel, repo_root_is_dir: bool) -> Step<E> {
    match source_from_shader(s.metadata, repo_root_is_dir) {
        Ok(source) => resolved(s, source),
        Err(f) => install_failed(s, InstallFailure::SpirvSource(f)),
    }
}

/// What follows the making of the cache directory: the source is the one that
/// the settings name, and where they name none the shader crate is asked.
pub open spec fn after_cache_dir<E>(s: InstallationModel) -> Step<E> {
    match source_from_settings(s.installer.spirv_builder_source, s.installer.spirv_builder_version) {
        Err(f) => install_failed(s, InstallFailure::SpirvSource(f)),
        Ok(Some(source)) => resolved(s, source),
        Ok(None) => (
            install_at(s, InstallStage::QueryingShaderCrate),
            InstallActionModel::QueryMetadata(s.shader_crate),
        ),
    }
}

/// Whether the answers `flags` say that the cache holds an earlier build whole:
/// the library, and the manifest and the source file of the dummy crate.
pub open spec fn artifacts_found(flags: Seq<bool>) -> bool {
    flags.len() == 3 && flags[0] && flags[1] && flags[2]
}

/// The command that tells `cargo` to build the backend: with the toolchain of
/// the channel, for release, and for a local checkout only the library of the
/// backend.
pub open spec fn build_command(s: InstallationModel) -> CommandLineModel {
    CommandLineModel {
        program: "cargo"@,
        args: seq!["+"@ + s.toolchain.channel, "build"@, "--release"@] + (if s.source is Path {
            seq!["-p"@, "rustc_codegen_spirv"@, "--lib"@]
        } else {
            Seq::empty()
        }),
        current_dir: Some(s.install_dir),
        inherit_output: true,
    }
}

/// What the user is told before the build.
pub open spec fn announcement(source: SpirvSourceModel) -> Seq<char> {
    "Compiling `rustc_codegen_spirv` from "@ + source_text(source) + "\n"@
}

/// The step that tells the user of the build.
pub open spec fn to_announce<E>(s: InstallationModel) -> Step<E> {
    (install_at(s, InstallStage::Announcing), InstallActionModel::Announce(announcement(s.source)))
}

/// What follows once the target specs are ready: nothing more where the cache
/// holds the backend; else the build, before which the lockfile of the dummy
/// crate is removed, so that no lockfile of a newer format stops an older
/// toolchain.
pub open spec fn to_build_or_finish<E>(s: InstallationModel) -> Step<E> {
    if s.skip_rebuild {
        install_done(s)
    } else if s.source is Path {
        to_announce(s)
    } else {
        (
            install_at(s, InstallStage::RemovingDummyCargoLock),
            InstallActionModel::RemoveFile(dummy_lock_of(s.install_dir)),
        )
    }
}

/// What follows once it is known whether the backend brings target specs in a
/// directory of its own: the directory to use is decided, and its files are
/// brought up to date where the backend is built.
pub open spec fn decide_target_specs<E>(s: InstallationModel, bundled_is_dir: bool) -> Step<E> {
    match target_specs_for(s.source, s.metadata, !s.skip_rebuild, Some(s.cache_dir), bundled_is_dir) {
        Err(f) => install_failed(s, InstallFailure::UpdateTargetSpecsFiles(f)),
        Ok(specs) => {
            let with_dir = InstallationModel { target_spec_dir: specs.dir, ..s };
            match specs.update {
                TargetSpecsUpdateModel::Nothing => to_build_or_finish(with_dir),
                TargetSpecsUpdateModel::CopySpecFiles { from, to } => (
                    install_at(with_dir, InstallStage::CopyingTargetSpecs),
                    InstallActionModel::CopySpecFiles { from, to },
                ),
                TargetSpecsUpdateModel::WriteLegacy { to } => (
                    install_at(with_dir, InstallStage::WritingLegacyTargetSpecs),
                    InstallActionModel::WriteLegacyTargetSpecs(to),
                ),
            }
        },
    }
}

/// The step that turns to the target specs, once the toolchain is ready.
pub open spec fn to_target_specs<E>(s: InstallationModel) -> Step<E> {
    match bundled_specs_of(s.metadata) {
        Some(Some(dir)) => (
            install_at(s, InstallStage::ProbingTargetSpecs),
            InstallActionModel::ProbeDir(dir),
        ),
        _ => decide_target_specs(s, false),
    }
}

/// What follows a step of the installation of the toolchain: its end is the
/// end of the installation where it failed, and leads on to the target specs
/// where it did not; anything else is handed on to the caller.
pub open spec fn after_toolchain_step<E>(
    s: InstallationModel,
    step: (ToolchainInstallationModel, ToolchainActionModel<E>),
) -> Step<E> {
    let next = InstallationModel { stage: InstallStage::EnsuringToolchain, toolchain: step.0, ..s };
    match step.1 {
        ToolchainActionModel::Run(command) => (next, InstallActionModel::Run(command)),
        ToolchainActionModel::AskToolchainInstall(channel) => (
            next,
            InstallActionModel::AskToolchainInstall(channel),
        ),
        ToolchainActionModel::AskComponentsInstall(channel) => (
            next,
            InstallActionModel::AskComponentsInstall(channel),
        ),
        ToolchainActionModel::Finish(Err(f)) => install_failed(
            next,
            InstallFailure::EnsureToolchainInstallation(f),
        ),
        ToolchainActionModel::Finish(Ok(())) => to_target_specs(next),
    }
}

/// The installation of the toolchain `channel`, before its first step.
pub open spec fn fresh_toolchain(channel: Seq<char>) -> ToolchainInstallationModel {
    ToolchainInstallationModel { channel, stage: ToolchainStage::Start, missing: Seq::empty() }
}

/// What follows the reading of the build script of the backend: the channel
/// that it names is the toolchain to make ready.
pub open spec fn after_build_script<E>(
    s: InstallationModel,
    read: Result<Seq<char>, Seq<char>>,
) -> Step<E> {
    match package_named(s.metadata, backend_name()) {
        None => install_failed(
            s,
            InstallFailure::NoRustcCodegenSpirv {
                name: backend_name(),
                workspace_root: s.metadata.workspace_root,
            },
        ),
        Some(p) => match channel_of_package(p, read) {
            Err(f) => install_failed(s, InstallFailure::RustGpuToolchainChannel(f)),
            Ok(channel) => after_toolchain_step(
                s,
                toolchain_step(fresh_toolchain(channel), ToolchainEventModel::<E>::Begin),
            ),
        },
    }
}

/// What follows the arrival of the package graph that holds the backend: the
/// build script of the backend is read.
pub open spec fn after_dummy_metadata<E>(
    s: InstallationModel,
    r: Result<MetadataModel, QueryFailure>,
) -> Step<E> {
    match r {
        Err(f) => install_failed(s, InstallFailure::QueryDummyMetadata(f)),
        Ok(m) => {
            let with_graph = InstallationModel { metadata: m, ..s };
            match package_named(m, backend_name()) {
                None => install_failed(
                    with_graph,
                    InstallFailure::NoRustcCodegenSpirv {
                        name: backend_name(),
                        workspace_root: m.workspace_root,
                    },
                ),
                Some(p) => match build_script_of(p) {
                    None => install_failed(
                        with_graph,
                        InstallFailure::RustGpuToolchainChannel(ChannelFailure::ManifestAtRoot),
                    ),
                    Some(path) => (
                        install_at(with_graph, InstallStage::ReadingBuildScript),
                        InstallActionModel::ReadFile(path),
                    ),
                },
            }
        },
    }
}

/// What follows a deed on the file system: the failure `f` with the reason
/// where it could not be done, else `then`.
pub open spec fn after_done<E>(
    s: InstallationModel,
    done: Result<(), Seq<char>>,
    f: spec_fn(Seq<char>) -> InstallFailure<E>,
    then: Step<E>,
) -> Step<E> {
    match done {
        Err(source) => install_failed(s, f(source)),
        Ok(()) => then,
    }
}

/// One step of an installation: the installation after `event`, and what the
/// caller is to do next. An event that the step before did not ask for ends
/// the installation.
pub open spec fn install_step<E>(s: InstallationModel, event: InstallEventModel<E>) -> Step<E> {
    match (s.stage, event) {
        (InstallStage::Start, InstallEventModel::Begin(env)) => match env.user_cache_dir {
            None => install_failed(s, InstallFailure::NoCacheDir),
            Some(base) => {
                let dir = joined(base, cache_name());
                (
                    InstallationModel {
                        stage: InstallStage::CreatingCacheDir,
                        cache_dir: dir,
                        dylib_filename: dylib_name(backend_name(), env.dll_prefix, env.dll_suffix),
                        ..s
                    },
                    InstallActionModel::CreateDirAll(dir),
                )
            },
        },
        (InstallStage::CreatingCacheDir, InstallEventModel::Done(done)) => after_done(
            s,
            done,
            |source: Seq<char>|
                InstallFailure::CreateCacheDir { cache_dir: s.cache_dir, source },
            after_cache_dir(s),
        ),
        (InstallStage::QueryingShaderCrate, InstallEventModel::Metadata(r)) => match r {
            Err(f) => install_failed(
                s,
                InstallFailure::SpirvSource(SourceFailure::QueryMetadata(f)),
            ),
            Ok(m) => {
                let with_graph = InstallationModel { metadata: m, ..s };
                match repo_root_to_probe(m) {
                    Some(root) => (
                        install_at(with_graph, InstallStage::ProbingRepoRoot),
                        InstallActionModel::ProbeDir(root),
                    ),
                    None => after_repo_root(with_graph, false),
                }
            },
        },
        (InstallStage::ProbingRepoRoot, InstallEventModel::Exists(b)) => after_repo_root(s, b),
        (InstallStage::ProbingArtifacts, InstallEventModel::Files(flags)) => {
            let skip = artifacts_found(flags) && !s.installer.rebuild_codegen;
            let known = InstallationModel { skip_rebuild: skip, ..s };
            if skip {
                to_dummy_metadata(known)
            } else {
                (
                    install_at(known, InstallStage::CreatingDummySrcDir),
                    InstallActionModel::CreateDirAll(dummy_src_of(s.install_dir)),
                )
            }
        },
        (InstallStage::CreatingDummySrcDir, InstallEventModel::Done(done)) => after_done(
            s,
            done,
            |source: Seq<char>| InstallFailure::CreateDummySrcDir(source),
            (
                install_at(s, InstallStage::CreatingDummyLibRs),
                InstallActionModel::CreateFile(dummy_lib_of(s.install_dir)),
            ),
        ),
        (InstallStage::CreatingDummyLibRs, InstallEventModel::Done(done)) => after_done(
            s,
            done,
            |source: Seq<char>| InstallFailure::CreateDummyLibRs(source),
            (
                install_at(s, InstallStage::WritingDummyCargoToml),
                InstallActionModel::WriteFile {
                    file: dummy_manifest_path(s.install_dir),
                    contents: dummy_manifest_of(s.source),
                },
            ),
        ),
        (InstallStage::WritingDummyCargoToml, InstallEventModel::Done(done)) => after_done(
            s,
            done,
            |source: Seq<char>| InstallFailure::WriteDummyCargoToml(source),
            to_dummy_metadata(s),
        ),
        (InstallStage::QueryingDummyMetadata, InstallEventModel::Metadata(r)) => {
            after_dummy_metadata(s, r)
        },
        (InstallStage::ReadingBuildScript, InstallEventModel::Read(read)) => after_build_script(
            s,
            read,
        ),
        (InstallStage::EnsuringToolchain, InstallEventModel::Ran(outcome)) => after_toolchain_step(
            s,
            toolchain_step(s.toolchain, ToolchainEventModel::<E>::Ran(outcome)),
        ),
        (
            InstallStage::EnsuringToolchain,
            InstallEventModel::Answered(answer),
        ) => after_toolchain_step(
            s,
            toolchain_step(s.toolchain, ToolchainEventModel::Answered(answer)),
        ),
        (InstallStage::ProbingTargetSpecs, InstallEventModel::Exists(b)) => decide_target_specs(
            s,
            b,
        ),
        (InstallStage::CopyingTargetSpecs, InstallEventModel::Done(done)) => after_done(
            s,
            done,
            |source: Seq<char>|
                InstallFailure::UpdateTargetSpecsFiles(UpdateFailure::CopySpecFiles(source)),
            to_build_or_finish(s),
        ),
        (InstallStage::WritingLegacyTargetSpecs, InstallEventModel::LegacyWritten(r)) => match r {
            Err(f) => install_failed(
                s,
                InstallFailure::UpdateTargetSpecsFiles(UpdateFailure::WriteLegacy(f)),
            ),
            Ok(()) => to_build_or_finish(s),
        },
        (InstallStage::RemovingDummyCargoLock, InstallEventModel::Done(done)) => after_done(
            s,
            done,
            |source: Seq<char>| InstallFailure::RemoveDummyCargoLock(source),
            to_announce(s),
        ),
        (InstallStage::Announcing, InstallEventModel::Done(done)) => after_done(
            s,
            done,
            |source: Seq<char>| InstallFailure::IoWrite(source),
            (install_at(s, InstallStage::Building), InstallActionModel::Run(build_command(s))),
        ),
        (InstallStage::Building, InstallEventModel::Ran(outcome)) => match judged(
            build_command(s),
            outcome,
        ) {
            Err(f) => install_failed(s, InstallFailure::RustcCodegenSpirvBuild(f)),
            Ok(output) => (
                install_at(s, InstallStage::ProbingDylib),
                InstallActionModel::ProbeFile(built_dylib_of(s.install_dir, s.dylib_filename)),
            ),
        },
        (InstallStage::ProbingDylib, InstallEventModel::Exists(b)) => if !b {
            install_failed(s, InstallFailure::RustcCodegenSpirvDylibNotFound)
        } else if s.source is Path {
            install_done(s)
        } else {
            (
                install_at(s, InstallStage::MovingDylib),
                InstallActionModel::Rename {
                    from: built_dylib_of(s.install_dir, s.dylib_filename),
                    to: s.dest_dylib_path,
                },
            )
        },
        (InstallStage::MovingDylib, InstallEventModel::Done(done)) => after_done(
            s,
            done,
            |source: Seq<char>| InstallFailure::MoveRustcCodegenSpirvDylib(source),
            if s.installer.clear_target {
                (
                    install_at(s, InstallStage::ClearingTarget),
                    InstallActionModel::RemoveDirAll(target_dir_of(s.install_dir)),
                )
            } else {
                install_done(s)
            },
        ),
        (InstallStage::ClearingTarget, InstallEventModel::Done(done)) => after_done(
            s,
            done,
            |source: Seq<char>| InstallFailure::RemoveRustcCodegenSpirvTargetDir(source),
            install_done(s),
        ),
        _ => install_failed(s, InstallFailure::OutOfTurn),
    }
}

/// An installation that has just ended, with its result.
fn finish<E>(
    s: Installation,
    result: Result<SpirvCodegenBackend, SpirvCodegenBackendInstallError<E>>,
) -> (r: (Installation, InstallAction<E>))
    ensures
        r.0@ == install_at(s@, InstallStage::Finished),
        r.1@ == InstallActionModel::Finish(
            match result {
                Ok(backend) => Ok(backend@),
                Err(e) => Err(e@),
            },
        ),
{
    let mut s = s;
    s.stage = InstallStage::Finished;
    (s, InstallAction::Finish(result))
}

/// The cargo command that builds the backend.
fn cargo_build(s: &Installation) -> (c: CommandLine)
    ensures
        c@ == build_command(s@),
{
    let mut toolchain = "+".to_owned();
    toolchain.append(s.toolchain.channel.as_str());
    let mut args: Vec<String> = Vec::new();
    args.push(toolchain);
    args.push("build".to_owned());
    args.push("--release".to_owned());
    let ghost head = seq!["+"@ + s.toolchain.channel@, "build"@, "--release"@];
    assert(texts_view(args@) =~= head);
    if s.source.is_path() {
        args.push("-p".to_owned());
        args.push("rustc_codegen_spirv".to_owned());
        args.push("--lib".to_owned());
        assert(texts_view(args@) =~= head + seq!["-p"@, "rustc_codegen_spirv"@, "--lib"@]);
    } else {
        assert(texts_view(args@) =~= head + Seq::<Seq<char>>::empty());
    }
    CommandLine {
        program: "cargo".to_owned(),
        args,
        current_dir: Some(s.install_dir.clone()),
        inherit_output: true,
    }
}

/// Where the build leaves the library of the backend.
fn built_dylib(s: &Installation) -> (path: String)
    ensures
        path@ == built_dylib_of(s@.install_dir, s@.dylib_filename),
{
    let target = join(s.install_dir.as_str(), "target");
    let release = join(target.as_str(), "release");
    join(release.as_str(), s.dylib_filename.as_str())
}

impl Installation {
    /// An installation of the backend for the crate in `shader_crate`, with the
    /// settings `installer`, before its first step.
    pub fn new(installer: SpirvCodegenBackendInstaller, shader_crate: &str) -> (s: Self)
        ensures
            s@ == fresh_installation(installer@, shader_crate@),
    {
        let s = Installation {
            installer,
            shader_crate: shader_crate.to_owned(),
            stage: InstallStage::Start,
            cache_dir: String::new(),
            dylib_filename: String::new(),
            source: SpirvSource::Git { url: String::new(), rev: String::new() },
            metadata: Metadata { packages: Vec::new(), workspace_root: String::new() },
            install_dir: String::new(),
            dest_dylib_path: String::new(),
            skip_rebuild: false,
            toolchain: ToolchainInstallation::new(""),
            target_spec_dir: String::new(),
        };
        proof {
            reveal_strlit("");
            assert(""@ =~= Seq::<char>::empty());
            assert(s.metadata@.packages =~= Seq::empty());
        }
        s
    }

    fn fail<E>(self, e: SpirvCodegenBackendInstallError<E>) -> (r: (Self, InstallAction<E>))
        ensures
            (r.0@, r.1@) == install_failed::<E>(self@, e@),
    {
        finish(self, Err(e))
    }

    fn done<E>(self) -> (r: (Self, InstallAction<E>))
        ensures
            (r.0@, r.1@) == install_done::<E>(self@),
    {
        let backend = SpirvCodegenBackend {
            rustc_codegen_spirv_location: self.dest_dylib_path.clone(),
            toolchain_channel: self.toolchain.channel.clone(),
            target_spec_dir: self.target_spec_dir.clone(),
        };
        finish(self, Ok(backend))
    }

    fn to_dummy_metadata<E>(self) -> (r: (Self, InstallAction<E>))
        ensures
            (r.0@, r.1@) == to_dummy_metadata::<E>(self@),
    {
        let mut s = self;
        s.stage = InstallStage::QueryingDummyMetadata;
        let dir = s.install_dir.clone();
        (s, InstallAction::QueryMetadata(dir))
    }

    fn resolved<E>(self, source: SpirvSource) -> (r: (Self, InstallAction<E>))
        ensures
            (r.0@, r.1@) == resolved::<E>(self@, source@),
    {
        let mut s = self;
        let install_dir = source.install_dir(s.cache_dir.as_str());
        if source.is_path() {
            s.source = source;
            s.install_dir = install_dir;
            s.dest_dylib_path = built_dylib(&s);
            s.skip_rebuild = false;
            s.to_dummy_metadata()
        } else {
            let dest = join(install_dir.as_str(), s.dylib_filename.as_str());
            let manifest = join(install_dir.as_str(), "Cargo.toml");
            let src = join(install_dir.as_str(), "src");
            let lib = join(src.as_str(), "lib.rs");
            let mut files: Vec<String> = Vec::new();
            files.push(dest.clone());
            files.push(manifest);
            files.push(lib);
            assert(texts_view(files@) =~= seq![
                dest@,
                dummy_manifest_path(install_dir@),
                dummy_lib_of(install_dir@),
            ]);
            s.stage = InstallStage::ProbingArtifacts;
            s.source = source;
            s.install_dir = install_dir;
            s.dest_dylib_path = dest;
            (s, InstallAction::ProbeFiles(files))
        }
    }

    fn after_repo_root<E>(self, repo_root_is_dir: bool) -> (r: (Self, InstallAction<E>))
        ensures
            (r.0@, r.1@) == after_repo_root::<E>(self@, repo_root_is_dir),
    {
        match SpirvSource::get_rust_gpu_deps_from_shader(&self.metadata, repo_root_is_dir) {
            Ok(source) => self.resolved(source),
            Err(e) => self.fail(SpirvCodegenBackendInstallError::SpirvSource(e)),
        }
    }

    fn after_cache_dir<E>(self) -> (r: (Self, InstallAction<E>))
        ensures
            (r.0@, r.1@) == after_cache_dir::<E>(self@),
    {
        let settled = SpirvSource::new(
            match &self.installer.spirv_builder_source {
                Some(s) => Some(s.as_str()),
                None => None,
            },
            match &self.installer.spirv_builder_version {
                Some(v) => Some(v.as_str()),
                None => None,
            },
        );
        match settled {
            Err(e) => self.fail(SpirvCodegenBackendInstallError::SpirvSource(e)),
            Ok(Some(source)) => self.resolved(source),
            Ok(None) => {
                let mut s = self;
                s.stage = InstallStage::QueryingShaderCrate;
                let dir = s.shader_crate.clone();
                (s, InstallAction::QueryMetadata(dir))
            },
        }
    }

    fn to_announce<E>(self) -> (r: (Self, InstallAction<E>))
        ensures
            (r.0@, r.1@) == to_announce::<E>(self@),
    {
        let mut s = self;
        s.stage = InstallStage::Announcing;
        let mut text = "Compiling `rustc_codegen_spirv` from ".to_owned();
        text.append(s.source.to_text().as_str());
        text.append("\n");
        (s, InstallAction::Announce(text))
    }

    fn to_build_or_finish<E>(self) -> (r: (Self, InstallAction<E>))
        ensures
            (r.0@, r.1@) == to_build_or_finish::<E>(self@),
    {
        if self.skip_rebuild {
            self.done()
        } else if self.source.is_path() {
            self.to_announce()
        } else {
            let mut s = self;
            s.stage = InstallStage::RemovingDummyCargoLock;
            let lock = join(s.install_dir.as_str(), "Cargo.lock");
            (s, InstallAction::RemoveFile(lock))
        }
    }

    fn decide_target_specs<E>(self, bundled_is_dir: bool) -> (r: (Self, InstallAction<E>))
        ensures
            (r.0@, r.1@) == decide_target_specs::<E>(self@, bundled_is_dir),
    {
        let decided = update_target_specs_files(
            &self.source,
            &self.metadata,
            !self.skip_rebuild,
            Some(self.cache_dir.as_str()),
            bundled_is_dir,
        );
        match decided {
            Err(e) => self.fail(SpirvCodegenBackendInstallError::UpdateTargetSpecsFiles(e)),
            Ok(specs) => {
                let mut s = self;
                s.target_spec_dir = specs.dir;
                match specs.update {
                    TargetSpecsUpdate::Nothing => s.to_build_or_finish(),
                    TargetSpecsUpdate::CopySpecFiles { from, to } => {
                        s.stage = InstallStage::CopyingTargetSpecs;
                        (s, InstallAction::CopySpecFiles { from, to })
                    },
                    TargetSpecsUpdate::WriteLegacy { to } => {
                        s.stage = InstallStage::WritingLegacyTargetSpecs;
                        (s, InstallAction::WriteLegacyTargetSpecs(to))
                    },
                }
            },
        }
    }

    fn to_target_specs<E>(self) -> (r: (Self, InstallAction<E>))
        ensures
            (r.0@, r.1@) == to_target_specs::<E>(self@),
    {
        match bundled_target_specs(&self.metadata) {
            Some(Some(dir)) => {
                let mut s = self;
                s.stage = InstallStage::ProbingTargetSpecs;
                (s, InstallAction::ProbeDir(dir))
            },
            _ => self.decide_target_specs(false),
        }
    }

    /// Hands on what a step of the installation of the toolchain asks for, or
    /// goes on where that installation has ended.
    fn after_toolchain_step<E>(self, action: ToolchainAction<E>) -> (r: (Self, InstallAction<E>))
        ensures
            (r.0@, r.1@) == after_toolchain_step::<E>(self@, (self@.toolchain, action@)),
    {
        let mut s = self;
        s.stage = InstallStage::EnsuringToolchain;
        match action {
            ToolchainAction::Run(command) => (s, InstallAction::Run(command)),
            ToolchainAction::AskToolchainInstall(channel) => (
                s,
                InstallAction::AskToolchainInstall(channel),
            ),
            ToolchainAction::AskComponentsInstall(channel) => (
                s,
                InstallAction::AskComponentsInstall(channel),
            ),
            ToolchainAction::Finish(Err(e)) => s.fail(
                SpirvCodegenBackendInstallError::EnsureToolchainInstallation(e),
            ),
            ToolchainAction::Finish(Ok(())) => s.to_target_specs(),
        }
    }

    /// Takes one step of the installation of the toolchain.
    fn toolchain_step<E>(self, event: ToolchainEvent<E>) -> (r: (Self, InstallAction<E>))
        ensures
            (r.0@, r.1@) == after_toolchain_step::<E>(self@, toolchain_step(self@.toolchain, event@)),
    {
        let mut s = self;
        let (toolchain, action) = ensure_toolchain_installation(s.toolchain, event);
        s.toolchain = toolchain;
        s.after_toolchain_step(action)
    }

    fn after_build_script<E>(self, read: Result<String, String>) -> (r: (Self, InstallAction<E>))
        ensures
            (r.0@, r.1@) == after_build_script::<E>(
                self@,
                match read {
                    Ok(c) => Ok(c@),
                    Err(e) => Err(e@),
                },
            ),
    {
        let found = match self.metadata.package_by_name("rustc_codegen_spirv") {
            Err(e) => Err(SpirvCodegenBackendInstallError::NoRustcCodegenSpirv(e)),
            Ok(package) => {
                match rust_gpu_toolchain_channel(
                    package,
                    match &read {
                        Ok(contents) => Ok(contents.as_str()),
                        Err(source) => Err(source.as_str()),
                    },
                ) {
                    Err(e) => Err(SpirvCodegenBackendInstallError::RustGpuToolchainChannel(e)),
                    Ok(channel) => Ok(channel),
                }
            },
        };
        match found {
            Err(e) => self.fail(e),
            Ok(channel) => {
                let mut s = self;
                s.toolchain = ToolchainInstallation::new(channel.as_str());
                s.toolchain_step(ToolchainEvent::Begin)
            },
        }
    }

    fn after_dummy_metadata<E>(self, r: Result<Metadata, QueryMetadataError>) -> (r2: (
        Self,
        InstallAction<E>,
    ))
        ensures
            (r2.0@, r2.1@) == after_dummy_metadata::<E>(
                self@,
                match r {
                    Ok(m) => Ok(m@),
                    Err(e) => Err(e@),
                },
            ),
    {
        match r {
            Err(e) => self.fail(SpirvCodegenBackendInstallError::QueryDummyMetadata(e)),
            Ok(m) => {
                let mut s = self;
                s.metadata = m;
                let found = match s.metadata.package_by_name("rustc_codegen_spirv") {
                    Err(e) => Err(SpirvCodegenBackendInstallError::NoRustcCodegenSpirv(e)),
                    Ok(package) => match build_script_path(package) {
                        None => Err(
                            SpirvCodegenBackendInstallError::RustGpuToolchainChannel(
                                RustGpuToolchainChannelError::ManifestAtRoot,
                            ),
                        ),
                        Some(path) => Ok(path),
                    },
                };
                match found {
                    Err(e) => s.fail(e),
                    Ok(path) => {
                        s.stage = InstallStage::ReadingBuildScript;
                        (s, InstallAction::ReadFile(path))
                    },
                }
            },
        }
    }

    fn begin<E>(self, env: InstallEnvironment) -> (r: (Self, InstallAction<E>))
        requires
            self.stage == InstallStage::Start,
        ensures
            (r.0@, r.1@) == install_step::<E>(self@, InstallEventModel::Begin(env@)),
    {
        let base = match &env.user_cache_dir {
            Some(base) => Some(base.as_str()),
            None => None,
        };
        match cache_dir(base) {
            Err(e) => self.fail(SpirvCodegenBackendInstallError::NoCacheDir(e)),
            Ok(dir) => {
                let mut s = self;
                s.stage = InstallStage::CreatingCacheDir;
                s.dylib_filename = dylib_filename(
                    "rustc_codegen_spirv",
                    env.dll_prefix.as_str(),
                    env.dll_suffix.as_str(),
                );
                s.cache_dir = dir.clone();
                (s, InstallAction::CreateDirAll(dir))
            },
        }
    }

    fn after_shader_metadata<E>(self, r: Result<Metadata, QueryMetadataError>) -> (r2: (
        Self,
        InstallAction<E>,
    ))
        requires
            self.stage == InstallStage::QueryingShaderCrate,
        ensures
            (r2.0@, r2.1@) == install_step::<E>(
                self@,
                InstallEventModel::Metadata(
                    match r {
                        Ok(m) => Ok(m@),
                        Err(e) => Err(e@),
                    },
                ),
            ),
    {
        match r {
            Err(e) => self.fail(
                SpirvCodegenBackendInstallError::SpirvSource(SpirvSourceError::QueryMetadata(e)),
            ),
            Ok(m) => {
                let mut s = self;
                s.metadata = m;
                match SpirvSource::repo_root_to_probe(&s.metadata) {
                    Some(root) => {
                        s.stage = InstallStage::ProbingRepoRoot;
                        (s, InstallAction::ProbeDir(root))
                    },
                    None => s.after_repo_root(false),
                }
            },
        }
    }

    fn after_artifacts<E>(self, flags: Vec<bool>) -> (r: (Self, InstallAction<E>))
        requires
            self.stage == InstallStage::ProbingArtifacts,
        ensures
            (r.0@, r.1@) == install_step::<E>(self@, InstallEventModel::Files(flags@)),
    {
        let found = flags.len() == 3 && flags[0] && flags[1] && flags[2];
        let mut s = self;
        s.skip_rebuild = found && !s.installer.rebuild_codegen;
        if s.skip_rebuild {
            s.to_dummy_metadata()
        } else {
            s.stage = InstallStage::CreatingDummySrcDir;
            let src = join(s.install_dir.as_str(), "src");
            (s, InstallAction::CreateDirAll(src))
        }
    }

    fn after_build<E>(self, outcome: Result<CommandOutput, String>) -> (r: (
        Self,
        InstallAction<E>,
    ))
        requires
            self.stage == InstallStage::Building,
        ensures
            (r.0@, r.1@) == install_step::<E>(self@, InstallEventModel::Ran(outcome_view(outcome))),
    {
        match execute_command(cargo_build(&self), outcome) {
            Err(e) => self.fail(SpirvCodegenBackendInstallError::RustcCodegenSpirvBuild(e)),
            Ok(_) => {
                let mut s = self;
                s.stage = InstallStage::ProbingDylib;
                let path = built_dylib(&s);
                (s, InstallAction::ProbeFile(path))
            },
        }
    }

    fn after_dylib_probe<E>(self, exists: bool) -> (r: (Self, InstallAction<E>))
        requires
            self.stage == InstallStage::ProbingDylib,
        ensures
            (r.0@, r.1@) == install_step::<E>(self@, InstallEventModel::Exists(exists)),
    {
        if !exists {
            self.fail(SpirvCodegenBackendInstallError::RustcCodegenSpirvDylibNotFound)
        } else if self.source.is_path() {
            self.done()
        } else {
            let mut s = self;
            s.stage = InstallStage::MovingDylib;
            let from = built_dylib(&s);
            let to = s.dest_dylib_path.clone();
            (s, InstallAction::Rename { from, to })
        }
    }

    fn after_file_deed<E>(self, done: Result<(), String>) -> (r: (Self, InstallAction<E>))
        requires
            self.stage == InstallStage::CreatingCacheDir || self.stage
                == InstallStage::CreatingDummySrcDir || self.stage
                == InstallStage::CreatingDummyLibRs || self.stage
                == InstallStage::WritingDummyCargoToml || self.stage
                == InstallStage::CopyingTargetSpecs || self.stage
                == InstallStage::RemovingDummyCargoLock || self.stage == InstallStage::Announcing
                || self.stage == InstallStage::MovingDylib || self.stage
                == InstallStage::ClearingTarget,
        ensures
            (r.0@, r.1@) == install_step::<E>(
                self@,
                InstallEventModel::Done(
                    match done {
                        Ok(()) => Ok(()),
                        Err(e) => Err(e@),
                    },
                ),
            ),
    {
        let stage = self.stage;
        match done {
            Err(source) => {
                let e = match stage {
                    InstallStage::CreatingCacheDir => {
                        SpirvCodegenBackendInstallError::CreateCacheDir {
                            cache_dir: self.cache_dir.clone(),
                            source,
                        }
                    },
                    InstallStage::CreatingDummySrcDir => {
                        SpirvCodegenBackendInstallError::CreateDummySrcDir(source)
                    },
                    InstallStage::CreatingDummyLibRs => {
                        SpirvCodegenBackendInstallError::CreateDummyLibRs(source)
                    },
                    InstallStage::WritingDummyCargoToml => {
                        SpirvCodegenBackendInstallError::WriteDummyCargoToml(source)
                    },
                    InstallStage::CopyingTargetSpecs => {
                        SpirvCodegenBackendInstallError::UpdateTargetSpecsFiles(
                            UpdateTargetSpecsFilesError::CopySpecFiles(source),
                        )
                    },
                    InstallStage::RemovingDummyCargoLock => {
                        SpirvCodegenBackendInstallError::RemoveDummyCargoLock(source)
                    },
                    InstallStage::Announcing => SpirvCodegenBackendInstallError::IoWrite(source),
                    InstallStage::MovingDylib => {
                        SpirvCodegenBackendInstallError::MoveRustcCodegenSpirvDylib(source)
                    },
                    _ => SpirvCodegenBackendInstallError::RemoveRustcCodegenSpirvTargetDir(source),
                };
                self.fail(e)
            },
            Ok(()) => match stage {
                InstallStage::CreatingCacheDir => self.after_cache_dir(),
                InstallStage::CreatingDummySrcDir => {
                    let mut s = self;
                    s.stage = InstallStage::CreatingDummyLibRs;
                    let src = join(s.install_dir.as_str(), "src");
                    let lib = join(src.as_str(), "lib.rs");
                    (s, InstallAction::CreateFile(lib))
                },
                InstallStage::CreatingDummyLibRs => {
                    let mut s = self;
                    s.stage = InstallStage::WritingDummyCargoToml;
                    let file = join(s.install_dir.as_str(), "Cargo.toml");
                    let contents = dummy_cargo_toml(&s.source);
                    (s, InstallAction::WriteFile { file, contents })
                },
                InstallStage::WritingDummyCargoToml => self.to_dummy_metadata(),
                InstallStage::CopyingTargetSpecs => self.to_build_or_finish(),
                InstallStage::RemovingDummyCargoLock => self.to_announce(),
                InstallStage::Announcing => {
                    let command = cargo_build(&self);
                    let mut s = self;
                    s.stage = InstallStage::Building;
                    (s, InstallAction::Run(command))
                },
                InstallStage::MovingDylib => if self.installer.clear_target {
                    let mut s = self;
                    s.stage = InstallStage::ClearingTarget;
                    let target = join(s.install_dir.as_str(), "target");
                    (s, InstallAction::RemoveDirAll(target))
                } else {
                    self.done()
                },
                _ => self.done(),
            },
        }
    }

    /// Takes one step of the installation: given what happened since the last
    /// step, returns the installation after it and what the caller is to do
    /// next.
    pub fn advance<E>(self, event: InstallEvent<E>) -> (r: (Self, InstallAction<E>))
        ensures
            (r.0@, r.1@) == install_step(self@, event@),
    {
        match (self.stage, event) {
            (InstallStage::Start, InstallEvent::Begin(env)) => self.begin(env),
            (InstallStage::CreatingCacheDir, InstallEvent::Done(done)) => self.after_file_deed(
                done,
            ),
            (InstallStage::QueryingShaderCrate, InstallEvent::Metadata(r)) => {
                self.after_shader_metadata(r)
            },
            (InstallStage::ProbingRepoRoot, InstallEvent::Exists(b)) => self.after_repo_root(b),
            (InstallStage::ProbingArtifacts, InstallEvent::Files(flags)) => self.after_artifacts(
                flags,
            ),
            (InstallStage::CreatingDummySrcDir, InstallEvent::Done(done)) => self.after_file_deed(
                done,
            ),
            (InstallStage::CreatingDummyLibRs, InstallEvent::Done(done)) => self.after_file_deed(
                done,
            ),
            (InstallStage::WritingDummyCargoToml, InstallEvent::Done(done)) => {
                self.after_file_deed(done)
            },
            (InstallStage::QueryingDummyMetadata, InstallEvent::Metadata(r)) => {
                self.after_dummy_metadata(r)
            },
            (InstallStage::ReadingBuildScript, InstallEvent::Read(read)) => {
                self.after_build_script(read)
            },
            (InstallStage::EnsuringToolchain, InstallEvent::Ran(outcome)) => {
                self.toolchain_step(ToolchainEvent::Ran(outcome))
            },
            (InstallStage::EnsuringToolchain, InstallEvent::Answered(answer)) => {
                self.toolchain_step(ToolchainEvent::Answered(answer))
            },
            (InstallStage::ProbingTargetSpecs, InstallEvent::Exists(b)) => {
                self.decide_target_specs(b)
            },
            (InstallStage::CopyingTargetSpecs, InstallEvent::Done(done)) => self.after_file_deed(
                done,
            ),
            (InstallStage::WritingLegacyTargetSpecs, InstallEvent::LegacyWritten(r)) => match r {
                Err(e) => self.fail(
                    SpirvCodegenBackendInstallError::UpdateTargetSpecsFiles(
                        UpdateTargetSpecsFilesError::WriteLegacy(e),
                    ),
                ),
                Ok(()) => self.to_build_or_finish(),
            },
            (InstallStage::RemovingDummyCargoLock, InstallEvent::Done(done)) => {
                self.after_file_deed(done)
            },
            (InstallStage::Announcing, InstallEvent::Done(done)) => self.after_file_deed(done),
            (InstallStage::Building, InstallEvent::Ran(outcome)) => self.after_build(outcome),
            (InstallStage::ProbingDylib, InstallEvent::Exists(b)) => self.after_dylib_probe(b),
            (InstallStage::MovingDylib, InstallEvent::Done(done)) => self.after_file_deed(done),
            (InstallStage::ClearingTarget, InstallEvent::Done(done)) => self.after_file_deed(done),
            (_, _) => self.fail(SpirvCodegenBackendInstallError::OutOfTurn),
        }
    }
}

impl SpirvCodegenBackendInstaller {
    /// Begins the installation of the backend for the crate in `shader_crate`
    /// with these settings: returns the installation before its first step. Its
    /// steps are taken with `Installation::advance`, the first of them on
    /// `InstallEvent::Begin`.
    pub fn install(&self, shader_crate: &str) -> (s: Installation)
        ensures
            s@ == fresh_installation(self@, shader_crate@),
    {
        let installer = SpirvCodegenBackendInstaller {
            spirv_builder_source: copy_opt(&self.spirv_builder_source),
            spirv_builder_version: copy_opt(&self.spirv_builder_version),
            rebuild_codegen: self.rebuild_codegen,
            clear_target: self.clear_target,
        };
        Installation::new(installer, shader_crate)
    }
}

/// A local checkout is never taken from the cache: once the source is known to
/// be one, the cache is not searched and the backend is to be built.
pub proof fn lemma_local_checkout_is_always_built<E>(s: InstallationModel, source: SpirvSourceModel)
    requires
        source is Path,
    ensures
        !resolved::<E>(s, source).0.skip_rebuild,
        resolved::<E>(s, source).0.install_dir == source->rust_gpu_repo_root,
        resolved::<E>(s, source).1 == InstallActionModel::<E>::QueryMetadata(
            source->rust_gpu_repo_root,
        ),
{
}

/// An earlier build counts only where it is whole and no rebuild is asked for:
/// where the library, the manifest or the source file of the dummy crate is
/// missing, the dummy crate is written anew and the backend is built.
pub proof fn lemma_cache_hit_needs_every_artifact<E>(s: InstallationModel, flags: Seq<bool>)
    requires
        s.stage == InstallStage::ProbingArtifacts,
    ensures
        install_step::<E>(s, InstallEventModel::Files(flags)).0.skip_rebuild == (artifacts_found(
            flags,
        ) && !s.installer.rebuild_codegen),
        !(artifacts_found(flags) && !s.installer.rebuild_codegen) ==> install_step::<E>(
            s,
            InstallEventModel::Files(flags),
        ).1 == InstallActionModel::<E>::CreateDirAll(dummy_src_of(s.install_dir)),
{
}

/// An installation ends well only with the library in its place: either the
/// cache held it, or the build has left it and, for a source other than a local
/// checkout, it has been moved into the cache and the output directory has been
/// removed where that was asked for.
pub proof fn lemma_success_needs_the_library<E>(s: InstallationModel, event: InstallEventModel<E>)
    requires
        install_step(s, event).1 matches InstallActionModel::Finish(Ok(_)),
    ensures
        ({
            ||| s.skip_rebuild
            ||| s.stage == InstallStage::ProbingDylib && s.source is Path && event
                == InstallEventModel::<E>::Exists(true)
            ||| s.stage == InstallStage::MovingDylib && !s.installer.clear_target && event
                matches InstallEventModel::Done(Ok(_))
            ||| s.stage == InstallStage::ClearingTarget && event matches InstallEventModel::Done(
                Ok(_),
            )
        }),
{
}

/// The build is run with the toolchain of the channel: the first argument of
/// the command is `+` and the channel.
pub proof fn lemma_build_uses_the_channel(s: InstallationModel)
    ensures
        build_command(s).program == "cargo"@,
        build_command(s).args.len() >= 3,
        build_command(s).args[0] == "+"@ + s.toolchain.channel,
        build_command(s).current_dir == Some(s.install_dir),
{
}

/// No command is tried twice: a command that fails ends the installation with
/// an error.
pub proof fn lemma_failed_command_ends_installation<E>(
    s: InstallationModel,
    outcome: Result<CommandOutputModel, Seq<char>>,
)
    requires
        !(outcome matches Ok(output) && output.success),
    ensures
        install_step(s, InstallEventModel::<E>::Ran(outcome)).0.stage == InstallStage::Finished,
        install_step(s, InstallEventModel::<E>::Ran(outcome)).1 matches InstallActionModel::Finish(
            Err(_),
        ),
{
}

/// An installation that has ended stays ended, and ends in nothing but an
/// error from then on.
pub proof fn lemma_finished_is_final<E>(s: InstallationModel, event: InstallEventModel<E>)
    requires
        s.stage == InstallStage::Finished,
    ensures
        install_step(s, event) == install_failed(s, InstallFailure::<E>::OutOfTurn),
{
}

} // verus!
