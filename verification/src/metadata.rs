//! The package graph of a crate, as far as this library reads it.

use vstd::prelude::*;
use crate::path::{join, joined};
use crate::text::same_text;
use crate::version::{Version, VersionModel};

verus! {

/// One package of a resolved dependency graph.
#[derive(Clone, Debug, PartialEq, Eq)]
pub struct Package {
    /// The name of the package.
    pub name: String,
    /// The version of the package.
    pub version: Version,
    /// Where the package comes from, as the package manager writes it; `None`
    /// for a package on the local file system.
    pub source: Option<String>,
    /// The path of the package's manifest.
    pub manifest_path: String,
}

/// What a `Package` stands for.
pub struct PackageModel {
    pub name: Seq<char>,
    pub version: VersionModel,
    pub source: Option<Seq<char>>,
    pub manifest_path: Seq<char>,
}

impl View for Package {
    type V = PackageModel;

    open spec fn view(&self) -> PackageModel {
        PackageModel {
            name: self.name@,
            version: self.version@,
            source: match self.source {
                Some(s) => Some(s@),
                None => None,
            },
            manifest_path: self.manifest_path@,
        }
    }
}

/// The resolved dependency graph of a crate.
#[derive(Clone, Debug, PartialEq, Eq)]
pub struct Metadata {
    /// Every package of the graph, in the order the package manager lists them.
    pub packages: Vec<Package>,
    /// The root directory of the workspace.
    pub workspace_root: String,
}

/// What a `Metadata` stands for.
pub struct MetadataModel {
    pub packages: Seq<PackageModel>,
    pub workspace_root: Seq<char>,
}

impl View for Metadata {
    type V = MetadataModel;

    open spec fn view(&self) -> MetadataModel {
        MetadataModel {
            packages: self.packages@.map_values(|p: Package| p@),
            workspace_root: self.workspace_root@,
        }
    }
}

/// Why the package graph of a crate could not be had.
#[derive(Clone, Debug, PartialEq, Eq)]
pub enum QueryMetadataError {
    /// The path of the crate could not be made absolute.
    InvalidCratePath(String),
    /// The metadata query of the package manager failed.
    CargoMetadata(String),
}

/// What a `QueryMetadataError` stands for.
pub enum QueryFailure {
    InvalidCratePath(Seq<char>),
    CargoMetadata(Seq<char>),
}

impl View for QueryMetadataError {
    type V = QueryFailure;

    open spec fn view(&self) -> QueryFailure {
        match self {
            QueryMetadataError::InvalidCratePath(s) => QueryFailure::InvalidCratePath(s@),
            QueryMetadataError::CargoMetadata(s) => QueryFailure::CargoMetadata(s@),
        }
    }
}

/// No package of the graph has the name that was asked for.
#[derive(Clone, Debug, PartialEq, Eq)]
pub struct PackageByNameError {
    name: String,
    workspace_root: String,
}

impl PackageByNameError {
    /// The error for the package `name`, missing under `workspace_root`.
    pub fn new(name: &str, workspace_root: &str) -> (e: Self)
        ensures
            e.name() == name@,
            e.workspace_root() == workspace_root@,
    {
        Self { name: name.to_owned(), workspace_root: workspace_root.to_owned() }
    }

    /// The name that was not found.
    pub closed spec fn name(&self) -> Seq<char> {
        self.name@
    }

    /// The workspace that was searched.
    pub closed spec fn workspace_root(&self) -> Seq<char> {
        self.workspace_root@
    }

    /// The name that was not found.
    pub fn missing_name(&self) -> (s: &str)
        ensures
            s@ == self.name(),
    {
        self.name.as_str()
    }

    /// The workspace that was searched.
    pub fn searched_root(&self) -> (s: &str)
        ensures
            s@ == self.workspace_root(),
    {
        self.workspace_root.as_str()
    }

    /// The message of this error.
    pub fn message(&self) -> (s: String)
        ensures
            s@ == "`"@ + self.name() + "` not found in `Cargo.toml` at '"@ + self.workspace_root()
                + "'"@,
    {
        let mut s = String::new();
        s.append("`");
        s.append(self.name.as_str());
        s.append("` not found in `Cargo.toml` at '");
        s.append(self.workspace_root.as_str());
        s.append("'");
        assert(s@ =~= "`"@ + self.name() + "` not found in `Cargo.toml` at '"@
            + self.workspace_root() + "'"@);
        s
    }
}

/// Why no package was found by its manifest path.
#[derive(Clone, Debug, PartialEq, Eq)]
pub enum PackageByManifestPathError {
    /// The path of a manifest could not be resolved.
    InvalidManifestPath(String),
    /// No package of the graph has its manifest at `path`.
    NoPackageFound {
        /// The manifest path that was looked for.
        path: String,
        /// The root of the workspace that was searched.
        workspace_root: String,
    },
}

impl PackageByManifestPathError {
    /// The error for the manifest `path`, missing under `workspace_root`.
    pub fn new(path: &str, workspace_root: &str) -> (e: Self)
        ensures
            e matches PackageByManifestPathError::NoPackageFound { path: p, workspace_root: w }
                && p@ == path@ && w@ == workspace_root@,
    {
        Self::NoPackageFound { path: path.to_owned(), workspace_root: workspace_root.to_owned() }
    }
}

/// The index of the first package at or after `from` whose name is `name`.
pub open spec fn position_by_name(packages: Seq<PackageModel>, name: Seq<char>, from: int) -> Option<
    int,
>
    decreases packages.len() - from + 1,
{
    if from < 0 || from >= packages.len() {
        None
    } else if packages[from].name == name {
        Some(from)
    } else {
        position_by_name(packages, name, from + 1)
    }
}

/// The first package of the graph whose name is `name`.
pub open spec fn package_named(m: MetadataModel, name: Seq<char>) -> Option<PackageModel> {
    match position_by_name(m.packages, name, 0) {
        Some(i) => Some(m.packages[i]),
        None => None,
    }
}

/// The index of the first package at or after `from` whose manifest is `path`.
pub open spec fn position_by_manifest(packages: Seq<PackageModel>, path: Seq<char>, from: int) -> Option<
    int,
>
    decreases packages.len() - from + 1,
{
    if from < 0 || from >= packages.len() {
        None
    } else if packages[from].manifest_path == path {
        Some(from)
    } else {
        position_by_manifest(packages, path, from + 1)
    }
}

/// The manifest of the package in the directory `package_path`.
pub open spec fn manifest_in(package_path: Seq<char>) -> Seq<char> {
    joined(package_path, "Cargo.toml"@)
}

/// The first package of the graph whose manifest lies in `package_path`.
pub open spec fn package_at(m: MetadataModel, package_path: Seq<char>) -> Option<PackageModel> {
    match position_by_manifest(m.packages, manifest_in(package_path), 0) {
        Some(i) => Some(m.packages[i]),
        None => None,
    }
}

impl Package {
    /// A copy of this package.
    pub fn duplicate(&self) -> (p: Package)
        ensures
            p@ == self@,
    {
        Package {
            name: self.name.clone(),
            version: self.version.duplicate(),
            source: match &self.source {
                Some(s) => Some(s.clone()),
                None => None,
            },
            manifest_path: self.manifest_path.clone(),
        }
    }
}

/// Gets the package named `crate_name` from the package graph of a crate.
pub fn get_package_from_crate(crate_metadata: &Metadata, crate_name: &str) -> (r: Result<
    Package,
    PackageByNameError,
>)
    ensures
        match r {
            Ok(p) => package_named(crate_metadata@, crate_name@) == Some(p@),
            Err(e) => {
                &&& package_named(crate_metadata@, crate_name@) is None
                &&& e.name() == crate_name@
                &&& e.workspace_root() == crate_metadata@.workspace_root
            },
        },
{
    match crate_metadata.package_by_name(crate_name) {
        Ok(package) => Ok(package.duplicate()),
        Err(e) => Err(e),
    }
}

/// Lookups in a package graph.
pub trait MetadataExt {
    /// The graph that is searched.
    spec fn graph(&self) -> MetadataModel;

    /// The first package named `name`, or the error that names what was missing
    /// and where.
    fn package_by_name(&self, name: &str) -> (r: Result<&Package, PackageByNameError>)
        ensures
            match r {
                Ok(p) => package_named(self.graph(), name@) == Some(p@),
                Err(e) => {
                    &&& package_named(self.graph(), name@) is None
                    &&& e.name() == name@
                    &&& e.workspace_root() == self.graph().workspace_root
                },
            },
    ;

    /// The first package whose manifest is `Cargo.toml` in `package_path`. Paths
    /// are compared as they are written: the caller resolves them first.
    fn package_by_manifest_path(&self, package_path: &str) -> (r: Result<
        &Package,
        PackageByManifestPathError,
    >)
        ensures
            match r {
                Ok(p) => package_at(self.graph(), package_path@) == Some(p@),
                Err(e) => {
                    &&& package_at(self.graph(), package_path@) is None
                    &&& e matches PackageByManifestPathError::NoPackageFound {
                        path,
                        workspace_root,
                    }
                    &&& path@ == manifest_in(package_path@)
                    &&& workspace_root@ == self.graph().workspace_root
                },
            },
    ;
}

impl MetadataExt for Metadata {
    open spec fn graph(&self) -> MetadataModel {
        self@
    }

    fn package_by_name(&self, name: &str) -> (r: Result<&Package, PackageByNameError>) {
        let mut i: usize = 0;
        while i < self.packages.len()
            invariant
                i <= self.packages.len(),
                position_by_name(self@.packages, name@, 0) == position_by_name(
                    self@.packages,
                    name@,
                    i as int,
                ),
            decreases self.packages.len() - i,
        {
            if same_text(self.packages[i].name.as_str(), name) {
                return Ok(&self.packages[i]);
            }
            i += 1;
        }
        Err(PackageByNameError::new(name, self.workspace_root.as_str()))
    }

    fn package_by_manifest_path(&self, package_path: &str) -> (r: Result<
        &Package,
        PackageByManifestPathError,
    >) {
        let path = join(package_path, "Cargo.toml");
        let mut i: usize = 0;
        while i < self.packages.len()
            invariant
                i <= self.packages.len(),
                path@ == manifest_in(package_path@),
                position_by_manifest(self@.packages, path@, 0) == position_by_manifest(
                    self@.packages,
                    path@,
                    i as int,
                ),
            decreases self.packages.len() - i,
        {
            if same_text(self.packages[i].manifest_path.as_str(), path.as_str()) {
                return Ok(&self.packages[i]);
            }
            i += 1;
        }
        Err(PackageByManifestPathError::new(path.as_str(), self.workspace_root.as_str()))
    }
}

} // verus!
