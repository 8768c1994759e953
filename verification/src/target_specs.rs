//! The target specs: the files that tell the compiler how to build for a GPU
//! target. Newer backends bring their own, in a package of their dependency
//! graph; for older ones a fixed legacy set is written out.

use vstd::prelude::*;
use crate::cache::CacheDirError;
use crate::metadata::{package_named, Metadata, MetadataExt, MetadataModel};
use crate::path::{join, joined, parent_of, parent_path};
use crate::command::texts_view;
use crate::spirv_source::{install_dir_of, SpirvSource, SpirvSourceModel};
use crate::text::{chars_of, has_infix, occurs_in, replace_all, replaced, string_of};

verus! {

/// Why the legacy target specs could not be written.
#[derive(Clone, Debug, PartialEq, Eq)]
pub enum WriteLegacyTargetSpecsError {
    /// The directory for the target specs could not be made.
    CreateDir {
        /// The directory.
        path: String,
        /// Why it could not be made.
        source: String,
    },
    /// A target spec could not be written.
    WriteFile {
        /// The file.
        path: String,
        /// Why it could not be written.
        source: String,
    },
}

/// Why the target specs could not be made ready.
#[derive(Clone, Debug, PartialEq, Eq)]
pub enum UpdateTargetSpecsFilesError {
    /// There is no cache directory.
    CacheDir(CacheDirError),
    /// The package of target specs holds no `target-specs` directory.
    InvalidLegacy,
    /// The target specs could not be copied.
    CopySpecFiles(String),
    /// The legacy target specs could not be written.
    WriteLegacy(WriteLegacyTargetSpecsError),
}

/// What a `WriteLegacyTargetSpecsError` stands for.
pub enum WriteLegacyFailure {
    CreateDir { path: Seq<char>, source: Seq<char> },
    WriteFile { path: Seq<char>, source: Seq<char> },
}

impl View for WriteLegacyTargetSpecsError {
    type V = WriteLegacyFailure;

    open spec fn view(&self) -> WriteLegacyFailure {
        match self {
            WriteLegacyTargetSpecsError::CreateDir { path, source } => {
                WriteLegacyFailure::CreateDir { path: path@, source: source@ }
            },
            WriteLegacyTargetSpecsError::WriteFile { path, source } => {
                WriteLegacyFailure::WriteFile { path: path@, source: source@ }
            },
        }
    }
}

/// What an `UpdateTargetSpecsFilesError` stands for.
pub enum UpdateFailure {
    CacheDir,
    InvalidLegacy,
    CopySpecFiles(Seq<char>),
    WriteLegacy(WriteLegacyFailure),
}

impl View for UpdateTargetSpecsFilesError {
    type V = UpdateFailure;

    open spec fn view(&self) -> UpdateFailure {
        match self {
            UpdateTargetSpecsFilesError::CacheDir(_) => UpdateFailure::CacheDir,
            UpdateTargetSpecsFilesError::InvalidLegacy => UpdateFailure::InvalidLegacy,
            UpdateTargetSpecsFilesError::CopySpecFiles(s) => UpdateFailure::CopySpecFiles(s@),
            UpdateTargetSpecsFilesError::WriteLegacy(e) => UpdateFailure::WriteLegacy(e@),
        }
    }
}

/// What is to be done to the files of the target specs.
#[derive(Clone, Debug, PartialEq, Eq)]
pub enum TargetSpecsUpdate {
    /// Nothing.
    Nothing,
    /// Copy every regular file of the directory `from` into the directory `to`.
    CopySpecFiles {
        /// The directory that holds the files.
        from: String,
        /// The directory that receives them.
        to: String,
    },
    /// Write the legacy target specs into the directory `to`.
    WriteLegacy {
        /// The directory that receives them.
        to: String,
    },
}

/// What a `TargetSpecsUpdate` stands for.
pub enum TargetSpecsUpdateModel {
    Nothing,
    CopySpecFiles { from: Seq<char>, to: Seq<char> },
    WriteLegacy { to: Seq<char> },
}

impl View for TargetSpecsUpdate {
    type V = TargetSpecsUpdateModel;

    open spec fn view(&self) -> TargetSpecsUpdateModel {
        match self {
            TargetSpecsUpdate::Nothing => TargetSpecsUpdateModel::Nothing,
            TargetSpecsUpdate::CopySpecFiles { from, to } => TargetSpecsUpdateModel::CopySpecFiles {
                from: from@,
                to: to@,
            },
            TargetSpecsUpdate::WriteLegacy { to } => TargetSpecsUpdateModel::WriteLegacy { to: to@ },
        }
    }
}

/// The directory of target specs to build with, and what is to be done to its
/// files first.
#[derive(Clone, Debug, PartialEq, Eq)]
pub struct TargetSpecs {
    /// The directory of target specs.
    pub dir: String,
    /// What is to be done to the files first.
    pub update: TargetSpecsUpdate,
}

/// What a `TargetSpecs` stands for.
pub struct TargetSpecsModel {
    pub dir: Seq<char>,
    pub update: TargetSpecsUpdateModel,
}

impl View for TargetSpecs {
    type V = TargetSpecsModel;

    open spec fn view(&self) -> TargetSpecsModel {
        TargetSpecsModel { dir: self.dir@, update: self.update@ }
    }
}

/// The name of the package that brings the target specs of a backend.
pub open spec fn target_specs_package() -> Seq<char> {
    "rustc_codegen_spirv-target-specs"@
}

/// The name of a directory of target specs.
pub open spec fn target_specs_name() -> Seq<char> {
    "target-specs"@
}

/// The name of the one directory, in the cache, that holds the legacy target
/// specs for every local checkout.
pub open spec fn legacy_for_local_name() -> Seq<char> {
    "legacy-target-specs-for-local-checkout"@
}

/// The directory in which the package of target specs of a backend keeps them,
/// where the backend with the graph `m` has such a package: `target-specs`
/// beside its manifest. The inner `None` says that the manifest has no
/// directory above it.
pub open spec fn bundled_specs_of(m: MetadataModel) -> Option<Option<Seq<char>>> {
    match package_named(m, target_specs_package()) {
        None => None,
        Some(p) => Some(
            match parent_of(p.manifest_path) {
                Some(root) => Some(joined(root, target_specs_name())),
                None => None,
            },
        ),
    }
}

/// The directory of target specs for `source`, and what is to be done to its
/// files.
///
/// Where the backend brings its own target specs, they are used in place for a
/// local checkout, and copied into `target-specs` of the install directory for
/// any other source. Where it brings none, the legacy target specs are written:
/// into `target-specs` of the install directory, or for a local checkout into
/// one shared directory of the cache, since a checkout is not written into.
/// Files are only touched where `update_files` is set. `bundled` is the
/// directory of the target specs that the backend brings, as `bundled_specs_of`
/// gives it, and `bundled_is_dir` says whether that directory exists.
pub open spec fn target_specs_given(
    source: SpirvSourceModel,
    bundled: Option<Option<Seq<char>>>,
    update_files: bool,
    cache_dir: Option<Seq<char>>,
    bundled_is_dir: bool,
) -> Result<TargetSpecsModel, UpdateFailure> {
    if !(source is Path) && cache_dir is None {
        Err(UpdateFailure::CacheDir)
    } else {
        let own = joined(
            install_dir_of(
                source,
                match cache_dir {
                    Some(dir) => dir,
                    None => Seq::empty(),
                },
            ),
            target_specs_name(),
        );
        match bundled {
            Some(Some(bundled)) if bundled_is_dir => if source is Path {
                Ok(TargetSpecsModel { dir: bundled, update: TargetSpecsUpdateModel::Nothing })
            } else if update_files {
                Ok(
                    TargetSpecsModel {
                        dir: own,
                        update: TargetSpecsUpdateModel::CopySpecFiles { from: bundled, to: own },
                    },
                )
            } else {
                Ok(TargetSpecsModel { dir: own, update: TargetSpecsUpdateModel::Nothing })
            },
            Some(_) => Err(UpdateFailure::InvalidLegacy),
            None => if source is Path && cache_dir is None {
                Err(UpdateFailure::CacheDir)
            } else {
                let dir = if source is Path {
                    joined(cache_dir->0, legacy_for_local_name())
                } else {
                    own
                };
                Ok(
                    TargetSpecsModel {
                        dir,
                        update: if update_files {
                            TargetSpecsUpdateModel::WriteLegacy { to: dir }
                        } else {
                            TargetSpecsUpdateModel::Nothing
                        },
                    },
                )
            },
        }
    }
}

/// The directory of target specs for `source`, and what is to be done to its
/// files, for the backend with the package graph `m`.
pub open spec fn target_specs_for(
    source: SpirvSourceModel,
    m: MetadataModel,
    update_files: bool,
    cache_dir: Option<Seq<char>>,
    bundled_is_dir: bool,
) -> Result<TargetSpecsModel, UpdateFailure> {
    target_specs_given(source, bundled_specs_of(m), update_files, cache_dir, bundled_is_dir)
}

/// The directory in which the backend with the graph `metadata` brings its own
/// target specs, if it brings any: the outer `None` says that it brings none,
/// the inner one that the directory cannot be named.
pub fn bundled_target_specs(metadata: &Metadata) -> (r: Option<Option<String>>)
    ensures
        match bundled_specs_of(metadata@) {
            None => r is None,
            Some(None) => r matches Some(None),
            Some(Some(dir)) => r matches Some(Some(d)) && d@ == dir,
        },
{
    match metadata.package_by_name("rustc_codegen_spirv-target-specs") {
        Err(_) => None,
        Ok(package) => Some(
            match parent_path(package.manifest_path.as_str()) {
                Some(root) => Some(join(root.as_str(), "target-specs")),
                None => None,
            },
        ),
    }
}

/// Decides on the directory of target specs for `source` and on what is to be
/// done to its files. `metadata` is the package graph of the backend,
/// `cache_dir` the cache directory, if there is one, and `bundled_is_dir` says
/// whether the directory that `bundled_target_specs` names exists.
pub fn update_target_specs_files(
    source: &SpirvSource,
    metadata: &Metadata,
    update_files: bool,
    cache_dir: Option<&str>,
    bundled_is_dir: bool,
) -> (r: Result<TargetSpecs, UpdateTargetSpecsFilesError>)
    ensures
        match target_specs_for(
            source@,
            metadata@,
            update_files,
            match cache_dir {
                Some(dir) => Some(dir@),
                None => None,
            },
            bundled_is_dir,
        ) {
            Ok(specs) => r matches Ok(s) && s@ == specs,
            Err(f) => r matches Err(e) && e@ == f,
        },
{
    plan_target_specs(
        source,
        bundled_target_specs(metadata),
        update_files,
        cache_dir,
        bundled_is_dir,
    )
}

/// What `bundled` stands for.
pub open spec fn bundled_view(bundled: Option<Option<String>>) -> Option<Option<Seq<char>>> {
    match bundled {
        None => None,
        Some(None) => Some(None),
        Some(Some(dir)) => Some(Some(dir@)),
    }
}

/// Decides on the directory of target specs for `source` and on what is to be
/// done to its files, given the directory of the target specs that the backend
/// brings: `None` where it brings none, `Some(None)` where that directory
/// cannot be named. `bundled_is_dir` says whether the directory exists.
pub fn plan_target_specs(
    source: &SpirvSource,
    bundled: Option<Option<String>>,
    update_files: bool,
    cache_dir: Option<&str>,
    bundled_is_dir: bool,
) -> (r: Result<TargetSpecs, UpdateTargetSpecsFilesError>)
    ensures
        match target_specs_given(
            source@,
            bundled_view(bundled),
            update_files,
            match cache_dir {
                Some(dir) => Some(dir@),
                None => None,
            },
            bundled_is_dir,
        ) {
            Ok(specs) => r matches Ok(s) && s@ == specs,
            Err(f) => r matches Err(e) && e@ == f,
        },
{
    if !source.is_path() && cache_dir.is_none() {
        return Err(UpdateTargetSpecsFilesError::CacheDir(CacheDirError(())));
    }
    let install_dir = source.install_dir(
        match cache_dir {
            Some(dir) => dir,
            None => "",
        },
    );
    proof {
        reveal_strlit("");
        assert(""@ =~= Seq::<char>::empty());
    }
    let own = join(install_dir.as_str(), "target-specs");
    match bundled {
        Some(Some(bundled)) => {
            if !bundled_is_dir {
                Err(UpdateTargetSpecsFilesError::InvalidLegacy)
            } else if source.is_path() {
                Ok(TargetSpecs { dir: bundled, update: TargetSpecsUpdate::Nothing })
            } else if update_files {
                let to = own.clone();
                Ok(
                    TargetSpecs {
                        dir: own,
                        update: TargetSpecsUpdate::CopySpecFiles { from: bundled, to },
                    },
                )
            } else {
                Ok(TargetSpecs { dir: own, update: TargetSpecsUpdate::Nothing })
            }
        },
        Some(None) => Err(UpdateTargetSpecsFilesError::InvalidLegacy),
        None => {
            let dir = if source.is_path() {
                match cache_dir {
                    Some(cache) => join(cache, "legacy-target-specs-for-local-checkout"),
                    None => {
                        return Err(UpdateTargetSpecsFilesError::CacheDir(CacheDirError(())));
                    },
                }
            } else {
                own
            };
            let update = if update_files {
                TargetSpecsUpdate::WriteLegacy { to: dir.clone() }
            } else {
                TargetSpecsUpdate::Nothing
            };
            Ok(TargetSpecs { dir, update })
        },
    }
}

/// What marks the target spec of a Vulkan target in its file name.
pub open spec fn vulkan_marker() -> Seq<char> {
    "vulkan"@
}

/// What ends the file name of a target spec.
pub open spec fn spec_extension() -> Seq<char> {
    ".json"@
}

/// The target whose spec is the file `name`: the name without its extension.
pub open spec fn target_of(name: Seq<char>) -> Seq<char> {
    replaced(name, spec_extension(), Seq::empty())
}

/// The targets that can be built for, given the file names of the target specs
/// at hand: those of the Vulkan targets, in the order of their specs.
pub open spec fn targets_among(names: Seq<Seq<char>>) -> Seq<Seq<char>>
    decreases names.len(),
{
    if names.len() == 0 {
        Seq::empty()
    } else {
        let head = targets_among(names.drop_last());
        if occurs_in(names.last(), vulkan_marker()) {
            head.push(target_of(names.last()))
        } else {
            head
        }
    }
}

/// `rustc_codegen_spirv_target_specs::TARGET_SPECS`: the file names of the
/// legacy target specs, in the order of that list.
#[verifier::external_body]
fn legacy_target_spec_names() -> (names: Vec<String>) {
    rustc_codegen_spirv_target_specs::TARGET_SPECS.iter().map(|spec| spec.0.to_owned()).collect()
}

/// The targets that can be built for, given the file names of the target specs
/// at hand.
pub fn spirv_targets_among(names: &Vec<String>) -> (targets: Vec<String>)
    ensures
        texts_view(targets@) == targets_among(texts_view(names@)),
{
    let marker = chars_of("vulkan");
    let extension = chars_of(".json");
    let nothing: Vec<char> = Vec::new();
    let ghost all = texts_view(names@);
    let mut targets: Vec<String> = Vec::new();
    let mut i: usize = 0;
    assert(all.subrange(0, 0) =~= Seq::<Seq<char>>::empty());
    assert(texts_view(targets@) =~= targets_among(all.subrange(0, 0)));
    while i < names.len()
        invariant
            i <= names.len(),
            all == texts_view(names@),
            marker@ == vulkan_marker(),
            extension@ == spec_extension(),
            nothing@ == Seq::<char>::empty(),
            texts_view(targets@) == targets_among(all.subrange(0, i as int)),
        decreases names.len() - i,
    {
        let name = chars_of(names[i].as_str());
        assert(all[i as int] == names@[i as int]@);
        assert(all.subrange(0, i + 1).drop_last() =~= all.subrange(0, i as int));
        assert(all.subrange(0, i + 1).last() == all[i as int]);
        if has_infix(&name, &marker) {
            let target = string_of(&replace_all(&name, &extension, &nothing));
            let ghost before = texts_view(targets@);
            targets.push(target);
            assert(texts_view(targets@) =~= before.push(target_of(all[i as int])));
        }
        i += 1;
    }
    assert(all.subrange(0, names.len() as int) =~= all);
    targets
}

/// All the targets that the legacy target specs allow to build for.
pub fn available_spirv_targets() -> (targets: Vec<String>)
    ensures
        exists|names: Seq<Seq<char>>| texts_view(targets@) == targets_among(names),
{
    let names = legacy_target_spec_names();
    spirv_targets_among(&names)
}

} // verus!
