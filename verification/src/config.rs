//! The settings of an installation, and how settings from several places
//! become one: those of the workspace, those of the shader crate, and those of
//! the command line, each overriding the one before wherever it says something
//! other than the default.

use vstd::prelude::*;
use crate::backend::{copy_opt, opt_view, InstallerModel, SpirvCodegenBackendInstaller};
use crate::metadata::{
    package_at, Metadata, MetadataExt, PackageByManifestPathError, manifest_in,
};
use crate::text::{chars_of, replace_all, replaced, same_text, single, string_of};

verus! {

/// What besides the installer belongs to the settings of an installation.
#[derive(Clone, Debug, PartialEq, Eq)]
pub struct CargoGpuInstallMetadata {
    /// The settings of the installer of the backend.
    pub spirv_installer: SpirvCodegenBackendInstaller,
    /// Whether lockfiles of format version 4 may be rewritten to version 3 for
    /// the time of a build, where an old toolchain has to read them.
    pub force_overwrite_lockfiles_v4_to_v3: bool,
}

/// Arguments for just an install.
#[derive(Clone, Debug, PartialEq, Eq)]
pub struct InstallArgs {
    /// The directory of the shader crate.
    pub shader_crate: String,
    /// The settings of the installation.
    pub install_meta: CargoGpuInstallMetadata,
    /// Whether the user has consented beforehand to the installation of a
    /// toolchain.
    pub auto_install_rust_toolchain: bool,
}

/// The settings of the `install` command.
#[derive(Clone, Debug, PartialEq, Eq)]
pub struct Install {
    /// The arguments of the command.
    pub install: InstallArgs,
}

/// What an `Install` stands for.
pub struct InstallModel {
    pub shader_crate: Seq<char>,
    pub installer: InstallerModel,
    pub force_overwrite_lockfiles_v4_to_v3: bool,
    pub auto_install_rust_toolchain: bool,
}

impl View for Install {
    type V = InstallModel;

    open spec fn view(&self) -> InstallModel {
        InstallModel {
            shader_crate: self.install.shader_crate@,
            installer: self.install.install_meta.spirv_installer@,
            force_overwrite_lockfiles_v4_to_v3:
                self.install.install_meta.force_overwrite_lockfiles_v4_to_v3,
            auto_install_rust_toolchain: self.install.auto_install_rust_toolchain,
        }
    }
}

/// The settings that hold where nothing else is said: the shader crate in the
/// current directory, `rust-gpu` as the shader crate names it, nothing rebuilt
/// that the cache holds, the output of a build removed, no lockfile rewritten,
/// and no consent beforehand.
pub open spec fn default_install() -> InstallModel {
    InstallModel {
        shader_crate: "./"@,
        installer: InstallerModel {
            spirv_builder_source: None,
            spirv_builder_version: None,
            rebuild_codegen: false,
            clear_target: true,
        },
        force_overwrite_lockfiles_v4_to_v3: false,
        auto_install_rust_toolchain: false,
    }
}

/// One setting of `value` overridden by that of `patch`: the setting of `patch`
/// where it is not the default, else that of `value`.
pub open spec fn overridden<T>(value: T, patch: T, default: T) -> T {
    if patch != default {
        patch
    } else {
        value
    }
}

/// `value` overridden by `patch`, setting by setting.
pub open spec fn merged(value: InstallModel, patch: InstallModel) -> InstallModel {
    let default = default_install();
    InstallModel {
        shader_crate: overridden(value.shader_crate, patch.shader_crate, default.shader_crate),
        installer: InstallerModel {
            spirv_builder_source: overridden(
                value.installer.spirv_builder_source,
                patch.installer.spirv_builder_source,
                default.installer.spirv_builder_source,
            ),
            spirv_builder_version: overridden(
                value.installer.spirv_builder_version,
                patch.installer.spirv_builder_version,
                default.installer.spirv_builder_version,
            ),
            rebuild_codegen: overridden(
                value.installer.rebuild_codegen,
                patch.installer.rebuild_codegen,
                default.installer.rebuild_codegen,
            ),
            clear_target: overridden(
                value.installer.clear_target,
                patch.installer.clear_target,
                default.installer.clear_target,
            ),
        },
        force_overwrite_lockfiles_v4_to_v3: overridden(
            value.force_overwrite_lockfiles_v4_to_v3,
            patch.force_overwrite_lockfiles_v4_to_v3,
            default.force_overwrite_lockfiles_v4_to_v3,
        ),
        auto_install_rust_toolchain: overridden(
            value.auto_install_rust_toolchain,
            patch.auto_install_rust_toolchain,
            default.auto_install_rust_toolchain,
        ),
    }
}

impl Default for CargoGpuInstallMetadata {
    fn default() -> (r: Self)
        ensures
            r.spirv_installer@ == default_install().installer,
            !r.force_overwrite_lockfiles_v4_to_v3,
    {
        Self {
            spirv_installer: SpirvCodegenBackendInstaller::default(),
            force_overwrite_lockfiles_v4_to_v3: false,
        }
    }
}

impl Default for InstallArgs {
    fn default() -> (r: Self)
        ensures
            (Install { install: r })@ == default_install(),
    {
        Self {
            shader_crate: "./".to_owned(),
            install_meta: CargoGpuInstallMetadata::default(),
            auto_install_rust_toolchain: false,
        }
    }
}

impl Default for Install {
    fn default() -> (r: Self)
        ensures
            r@ == default_install(),
    {
        Self { install: InstallArgs::default() }
    }
}

/// Why the settings of a shader crate could not be put together.
#[derive(Clone, Debug, PartialEq, Eq)]
pub enum FromCargoMetadataError {
    /// The path of the shader crate is no directory.
    PathIsNotDir(String),
    /// The package graph holds no package at the path of the shader crate.
    PackageByManifestPath(PackageByManifestPathError),
    /// The settings in a manifest could not be read.
    ParseJson(String),
}

/// The key of a setting as the settings are named here: with `_` for each `-`
/// of the way it is written in a manifest or on the command line.
pub open spec fn snake_case_of(key: Seq<char>) -> Seq<char> {
    replaced(key, seq!['-'], seq!['_'])
}

/// Converts the key of a setting from kebab case to snake case, e.g. from `a-b`
/// to `a_b`.
pub fn to_snake_case(key: &str) -> (out: String)
    ensures
        out@ == snake_case_of(key@),
{
    let text = chars_of(key);
    let out = replace_all(&text, &single('-'), &single('_'));
    string_of(&out)
}

/// An optional text of `value` overridden by that of `patch`, where none is
/// the default.
fn override_opt(value: &Option<String>, patch: &Option<String>) -> (out: Option<String>)
    ensures
        opt_view(out) == overridden(opt_view(*value), opt_view(*patch), None),
{
    match patch {
        Some(_) => copy_opt(patch),
        None => copy_opt(value),
    }
}

/// Merges two sets of settings: takes each setting from `patch` where it is not
/// the default one, and from `value` where it is.
pub fn merge(value: &Install, patch: &Install) -> (out: Install)
    ensures
        out@ == merged(value@, patch@),
{
    let v = &value.install;
    let p = &patch.install;
    let shader_crate = if !same_text(p.shader_crate.as_str(), "./") {
        p.shader_crate.clone()
    } else {
        v.shader_crate.clone()
    };
    let vi = &v.install_meta.spirv_installer;
    let pi = &p.install_meta.spirv_installer;
    let spirv_installer = SpirvCodegenBackendInstaller {
        spirv_builder_source: override_opt(&vi.spirv_builder_source, &pi.spirv_builder_source),
        spirv_builder_version: override_opt(&vi.spirv_builder_version, &pi.spirv_builder_version),
        rebuild_codegen: if pi.rebuild_codegen {
            true
        } else {
            vi.rebuild_codegen
        },
        clear_target: if !pi.clear_target {
            false
        } else {
            vi.clear_target
        },
    };
    Install {
        install: InstallArgs {
            shader_crate,
            install_meta: CargoGpuInstallMetadata {
                spirv_installer,
                force_overwrite_lockfiles_v4_to_v3: if p.install_meta.force_overwrite_lockfiles_v4_to_v3 {
                    true
                } else {
                    v.install_meta.force_overwrite_lockfiles_v4_to_v3
                },
            },
            auto_install_rust_toolchain: if p.auto_install_rust_toolchain {
                true
            } else {
                v.auto_install_rust_toolchain
            },
        },
    }
}

/// Puts together the settings of a shader crate from those of its workspace
/// and its own, the crate's own overriding the workspace's. `metadata` is the
/// package graph of the crate, which must hold a package at the path of the
/// crate, and `shader_crate_is_dir` says whether that path is a directory.
pub fn from_cargo_metadata(
    metadata: &Metadata,
    shader_crate: &str,
    shader_crate_is_dir: bool,
    workspace_metadata: &Install,
    crate_metadata: &Install,
) -> (r: Result<Install, FromCargoMetadataError>)
    ensures
        match r {
            Ok(out) => {
                &&& shader_crate_is_dir
                &&& package_at(metadata@, shader_crate@) is Some
                &&& out@ == merged(workspace_metadata@, crate_metadata@)
            },
            Err(FromCargoMetadataError::PathIsNotDir(path)) => !shader_crate_is_dir && path@
                == shader_crate@,
            Err(FromCargoMetadataError::PackageByManifestPath(e)) => {
                &&& shader_crate_is_dir
                &&& package_at(metadata@, shader_crate@) is None
                &&& e matches PackageByManifestPathError::NoPackageFound { path, workspace_root }
                &&& path@ == manifest_in(shader_crate@)
                &&& workspace_root@ == metadata@.workspace_root
            },
            Err(FromCargoMetadataError::ParseJson(_)) => false,
        },
{
    if !shader_crate_is_dir {
        return Err(FromCargoMetadataError::PathIsNotDir(shader_crate.to_owned()));
    }
    match metadata.package_by_manifest_path(shader_crate) {
        Err(e) => Err(FromCargoMetadataError::PackageByManifestPath(e)),
        Ok(_) => Ok(merge(workspace_metadata, crate_metadata)),
    }
}

/// Overrides the settings from the manifests of the shader crate with those of
/// `config`.
pub fn from_cargo_metadata_with_config(from_cargo: &Install, config: &Install) -> (out: Install)
    ensures
        out@ == merged(from_cargo@, config@),
{
    merge(from_cargo, config)
}

/// Overrides the settings from the manifests of the shader crate with the
/// settings `metadata`: what `metadata` says other than the default stands, and
/// what it leaves at the default is taken from the manifests.
pub fn with_shader_crate(metadata: &Install, from_shader_crate: &Install) -> (out: Install)
    ensures
        out@ == merged(from_shader_crate@, metadata@),
{
    merge(from_shader_crate, metadata)
}

/// Settings that say nothing but the default override nothing, and settings
/// that are overridden by themselves stay as they are.
pub proof fn lemma_merged_with_default(value: InstallModel)
    ensures
        merged(value, default_install()) == value,
        merged(default_install(), value) == value,
        merged(value, value) == value,
{
}

/// Of three sets of settings, it is all one whether the last two are merged
/// first or the first two.
pub proof fn lemma_merged_is_associative(a: InstallModel, b: InstallModel, c: InstallModel)
    ensures
        merged(merged(a, b), c) == merged(a, merged(b, c)),
{
}

} // verus!
