//! Where the `rust-gpu` that a shader crate needs comes from, and what follows
//! from that: its display text, its place in the cache, and the toolchain
//! channel that its build script asks for.

use vstd::prelude::*;
use crate::metadata::{
    package_named, Metadata, MetadataExt, MetadataModel, Package, PackageByNameError,
    PackageModel, QueryFailure, QueryMetadataError,
};
use crate::path::{ancestor, ancestor_of, join, joined, parent_of, parent_path};
use crate::text::{
    begins_with, chars_of, find_char, find_from, find_in, has_prefix, lemma_find_from, lines,
    rows_view, slice_of, split_lines, string_of, string_of_range,
};
use crate::version::{parse_semver, parsed_version, version_text, Version, VersionModel};

verus! {

/// The source and version of `rust-gpu`.
#[derive(Clone, Debug, PartialEq, Eq)]
pub enum SpirvSource {
    /// The registry release with this version.
    CratesIO(Version),
    /// A repository, pinned to a revision.
    Git {
        /// The address of the repository.
        url: String,
        /// The revision: a commit, a tag or anything else that names one.
        rev: String,
    },
    /// A checkout on the local file system.
    Path {
        /// The root directory of the checkout.
        rust_gpu_repo_root: String,
        /// The version that the checkout declares.
        version: Version,
    },
}

/// What a `SpirvSource` stands for.
pub enum SpirvSourceModel {
    CratesIO(VersionModel),
    Git { url: Seq<char>, rev: Seq<char> },
    Path { rust_gpu_repo_root: Seq<char>, version: VersionModel },
}

impl View for SpirvSource {
    type V = SpirvSourceModel;

    open spec fn view(&self) -> SpirvSourceModel {
        match self {
            SpirvSource::CratesIO(version) => SpirvSourceModel::CratesIO(version@),
            SpirvSource::Git { url, rev } => SpirvSourceModel::Git { url: url@, rev: rev@ },
            SpirvSource::Path { rust_gpu_repo_root, version } => SpirvSourceModel::Path {
                rust_gpu_repo_root: rust_gpu_repo_root@,
                version: version@,
            },
        }
    }
}

/// Why the source of a package could not be read off its metadata.
#[derive(Clone, Debug, PartialEq, Eq)]
pub enum ParseSourceVersionError {
    /// The source names both a repository and the registry.
    AmbiguousSource(String),
    /// The source names a repository but no revision.
    InvalidGitSource(String),
    /// The source is neither a repository nor the registry.
    UnknownSource(String),
    /// The manifest does not lie three levels below an existing directory.
    InvalidManifestPath(String),
}

/// What a `ParseSourceVersionError` stands for.
pub enum ParseFailure {
    AmbiguousSource(Seq<char>),
    InvalidGitSource(Seq<char>),
    UnknownSource(Seq<char>),
    InvalidManifestPath(Seq<char>),
}

impl View for ParseSourceVersionError {
    type V = ParseFailure;

    open spec fn view(&self) -> ParseFailure {
        match self {
            ParseSourceVersionError::AmbiguousSource(s) => ParseFailure::AmbiguousSource(s@),
            ParseSourceVersionError::InvalidGitSource(s) => ParseFailure::InvalidGitSource(s@),
            ParseSourceVersionError::UnknownSource(s) => ParseFailure::UnknownSource(s@),
            ParseSourceVersionError::InvalidManifestPath(s) => ParseFailure::InvalidManifestPath(
                s@,
            ),
        }
    }
}

/// Why no `SpirvSource` could be made.
#[derive(Debug)]
pub enum SpirvSourceError {
    /// The package graph of the shader crate could not be had.
    QueryMetadata(QueryMetadataError),
    /// The shader crate does not depend on `spirv-std`.
    MissingPackage(PackageByNameError),
    /// The source of `spirv-std` could not be read off its metadata.
    ParseSourceVersion(ParseSourceVersionError),
    /// The explicit version is no semantic version.
    InvalidVersion(semver::Error),
}

/// What a `SpirvSourceError` stands for.
pub enum SourceFailure {
    QueryMetadata(QueryFailure),
    MissingPackage { name: Seq<char>, workspace_root: Seq<char> },
    ParseSourceVersion(ParseFailure),
    InvalidVersion,
}

impl View for SpirvSourceError {
    type V = SourceFailure;

    open spec fn view(&self) -> SourceFailure {
        match self {
            SpirvSourceError::QueryMetadata(e) => SourceFailure::QueryMetadata(e@),
            SpirvSourceError::MissingPackage(e) => SourceFailure::MissingPackage {
                name: e.name(),
                workspace_root: e.workspace_root(),
            },
            SpirvSourceError::ParseSourceVersion(e) => SourceFailure::ParseSourceVersion(e@),
            SpirvSourceError::InvalidVersion(_) => SourceFailure::InvalidVersion,
        }
    }
}

/// Why the toolchain channel could not be read off a build script.
#[derive(Clone, Debug, PartialEq, Eq)]
pub enum RustGpuToolchainChannelError {
    /// The manifest of the package has no directory above it.
    ManifestAtRoot,
    /// The build script could not be read.
    InvalidBuildScript {
        /// Why reading failed.
        source: String,
        /// The path of the build script.
        build_script: String,
    },
    /// No line of the build script starts with `channel_start`.
    ChannelStartNotFound {
        /// What the channel line starts with.
        channel_start: String,
        /// The path of the build script.
        build_script: String,
    },
    /// The channel line holds no `channel_end` after its start.
    ChannelEndNotFound {
        /// What ends the channel.
        channel_end: String,
        /// The line that holds the channel.
        channel_line: String,
        /// The path of the build script.
        build_script: String,
    },
    /// The channel does not lie within its line.
    InvalidChannelSlice {
        /// Where the channel starts in the line.
        start: usize,
        /// Where the channel ends in the line.
        end: usize,
        /// The line that holds the channel.
        channel_line: String,
        /// The path of the build script.
        build_script: String,
    },
}

/// What a `RustGpuToolchainChannelError` stands for.
pub enum ChannelFailure {
    ManifestAtRoot,
    InvalidBuildScript { source: Seq<char>, build_script: Seq<char> },
    ChannelStartNotFound { channel_start: Seq<char>, build_script: Seq<char> },
    ChannelEndNotFound { channel_end: Seq<char>, channel_line: Seq<char>, build_script: Seq<char> },
    InvalidChannelSlice { start: int, end: int, channel_line: Seq<char>, build_script: Seq<char> },
}

impl View for RustGpuToolchainChannelError {
    type V = ChannelFailure;

    open spec fn view(&self) -> ChannelFailure {
        match self {
            RustGpuToolchainChannelError::ManifestAtRoot => ChannelFailure::ManifestAtRoot,
            RustGpuToolchainChannelError::InvalidBuildScript { source, build_script } => {
                ChannelFailure::InvalidBuildScript { source: source@, build_script: build_script@ }
            },
            RustGpuToolchainChannelError::ChannelStartNotFound { channel_start, build_script } => {
                ChannelFailure::ChannelStartNotFound {
                    channel_start: channel_start@,
                    build_script: build_script@,
                }
            },
            RustGpuToolchainChannelError::ChannelEndNotFound {
                channel_end,
                channel_line,
                build_script,
            } => ChannelFailure::ChannelEndNotFound {
                channel_end: channel_end@,
                channel_line: channel_line@,
                build_script: build_script@,
            },
            RustGpuToolchainChannelError::InvalidChannelSlice {
                start,
                end,
                channel_line,
                build_script,
            } => ChannelFailure::InvalidChannelSlice {
                start: *start as int,
                end: *end as int,
                channel_line: channel_line@,
                build_script: build_script@,
            },
        }
    }
}

/// How many characters of a revision go into the display text.
pub open spec fn short_rev_len() -> nat {
    8
}

/// The revision as the display text shows it: its first eight characters, or
/// all of it where it has fewer.
pub open spec fn short_rev(rev: Seq<char>) -> Seq<char> {
    if rev.len() >= short_rev_len() {
        rev.subrange(0, short_rev_len() as int)
    } else {
        rev
    }
}

/// The display text of a source: the version of a registry release; the
/// address, `+` and the short revision of a repository; the root, `+` and the
/// version of a local checkout.
pub open spec fn source_text(s: SpirvSourceModel) -> Seq<char> {
    match s {
        SpirvSourceModel::CratesIO(version) => version_text(version),
        SpirvSourceModel::Git { url, rev } => url + seq!['+'] + short_rev(rev),
        SpirvSourceModel::Path { rust_gpu_repo_root, version } => rust_gpu_repo_root + seq!['+']
            + version_text(version),
    }
}

/// The characters that a directory name shows as `_`.
pub open spec fn is_replaced_char(c: char) -> bool {
    c == '\\' || c == '/' || c == '.' || c == ':' || c == '@' || c == '='
}

/// The characters that a directory name leaves out.
pub open spec fn is_dropped_char(c: char) -> bool {
    c == '{' || c == '}' || c == ' ' || c == '\n' || c == '"' || c == '\''
}

/// `text` as a directory name: without the characters that are left out, and
/// with `_` in place of each character that a path or a manifest gives a
/// meaning to.
pub open spec fn dirname_of(text: Seq<char>) -> Seq<char>
    decreases text.len(),
{
    if text.len() == 0 {
        Seq::empty()
    } else {
        let head = dirname_of(text.drop_last());
        let c = text.last();
        if is_dropped_char(c) {
            head
        } else if is_replaced_char(c) {
            head.push('_')
        } else {
            head.push(c)
        }
    }
}

/// The directory in which a source is built: the checkout itself for a local
/// one, else `codegen/<name>` under the cache directory, `<name>` being the
/// display text as a directory name.
pub open spec fn install_dir_of(s: SpirvSourceModel, cache_dir: Seq<char>) -> Seq<char> {
    match s {
        SpirvSourceModel::Path { rust_gpu_repo_root, version } => rust_gpu_repo_root,
        _ => joined(joined(cache_dir, "codegen"@), dirname_of(source_text(s))),
    }
}

/// What marks a source as a repository.
pub open spec fn git_marker() -> Seq<char> {
    "git+"@
}

/// The one source text that stands for the public registry.
pub open spec fn registry_index() -> Seq<char> {
    "registry+https://github.com/rust-lang/crates.io-index"@
}

/// The repository that `link` names: its address runs up to the first `?`, or
/// up to the first `#` where there is no `?`; its revision is all that follows
/// the first `#`. `None` where `link` holds no `#`.
pub open spec fn git_source_of(link: Seq<char>) -> Option<SpirvSourceModel> {
    match find_from(link, seq!['#'], 0) {
        None => None,
        Some(sharp) => {
            let url_end = match find_from(link, seq!['?'], 0) {
                Some(question) => question,
                None => sharp,
            };
            Some(
                SpirvSourceModel::Git {
                    url: link.subrange(0, url_end),
                    rev: link.subrange(sharp + 1, link.len() as int),
                },
            )
        },
    }
}

/// How many levels the root of a checkout lies above the manifest of its
/// `spirv-std` crate.
pub open spec fn repo_root_levels() -> nat {
    3
}

/// The source that the metadata of `spirv-std` names.
///
/// A package with a source is a repository where the source begins with `git+`,
/// and the registry release of the package's version where the source is that
/// of the public registry. A package without a source is part of a local
/// checkout: `repo_root` is the root of that checkout, if the manifest lies deep
/// enough to have one, and `repo_root_is_dir` says whether it exists as a
/// directory. Both are read only for a package without a source.
pub open spec fn source_given_root(
    p: PackageModel,
    repo_root: Option<Seq<char>>,
    repo_root_is_dir: bool,
) -> Result<SpirvSourceModel, ParseFailure> {
    match p.source {
        Some(repr) => {
            let is_git = begins_with(repr, git_marker());
            let is_registry = repr == registry_index();
            if is_git && is_registry {
                Err(ParseFailure::AmbiguousSource(repr))
            } else if is_git {
                match git_source_of(repr.subrange(git_marker().len() as int, repr.len() as int)) {
                    Some(source) => Ok(source),
                    None => Err(ParseFailure::InvalidGitSource(repr)),
                }
            } else if is_registry {
                Ok(SpirvSourceModel::CratesIO(p.version))
            } else {
                Err(ParseFailure::UnknownSource(repr))
            }
        },
        None => match repo_root {
            Some(root) => if repo_root_is_dir {
                Ok(SpirvSourceModel::Path { rust_gpu_repo_root: root, version: p.version })
            } else {
                Err(ParseFailure::InvalidManifestPath(p.manifest_path))
            },
            None => Err(ParseFailure::InvalidManifestPath(p.manifest_path)),
        },
    }
}

/// The source that the metadata of `spirv-std` names, the root of a local
/// checkout being the directory three levels above the manifest of the
/// package. `repo_root_is_dir` says whether that directory exists.
pub open spec fn source_of_package(p: PackageModel, repo_root_is_dir: bool) -> Result<
    SpirvSourceModel,
    ParseFailure,
> {
    source_given_root(p, ancestor_of(p.manifest_path, repo_root_levels()), repo_root_is_dir)
}

/// The name of the package whose source decides the source of `rust-gpu`.
pub open spec fn spirv_std_name() -> Seq<char> {
    "spirv-std"@
}

/// The source of `rust-gpu` that the package graph `m` of a shader crate names:
/// that of its `spirv-std` dependency.
pub open spec fn source_from_shader(m: MetadataModel, repo_root_is_dir: bool) -> Result<
    SpirvSourceModel,
    SourceFailure,
> {
    match package_named(m, spirv_std_name()) {
        None => Err(
            SourceFailure::MissingPackage {
                name: spirv_std_name(),
                workspace_root: m.workspace_root,
            },
        ),
        Some(p) => match source_of_package(p, repo_root_is_dir) {
            Ok(s) => Ok(s),
            Err(f) => Err(SourceFailure::ParseSourceVersion(f)),
        },
    }
}

/// The directory whose existence decides whether the `spirv-std` dependency in
/// the graph `m` is part of a local checkout, where it has no source.
pub open spec fn repo_root_to_probe(m: MetadataModel) -> Option<Seq<char>> {
    match package_named(m, spirv_std_name()) {
        Some(p) => if p.source is None {
            ancestor_of(p.manifest_path, repo_root_levels())
        } else {
            None
        },
        None => None,
    }
}

/// The source that explicit settings name: a repository where both an address
/// and a version are given, the registry where only a version is given, and
/// `Ok(None)` where no version is given.
pub open spec fn source_from_settings(
    source: Option<Seq<char>>,
    version: Option<Seq<char>>,
) -> Result<Option<SpirvSourceModel>, SourceFailure> {
    match (source, version) {
        (Some(url), Some(rev)) => Ok(Some(SpirvSourceModel::Git { url, rev })),
        (None, Some(version)) => match parsed_version(version) {
            Some(v) => Ok(Some(SpirvSourceModel::CratesIO(v))),
            None => Err(SourceFailure::InvalidVersion),
        },
        (_, None) => Ok(None),
    }
}

/// `cargo_metadata::Source::is_crates_io`: whether the source text is the one
/// that stands for the public registry.
#[verifier::external_body]
fn is_crates_io(repr: &str) -> (b: bool)
    ensures
        b == (repr@ == registry_index()),
{
    cargo_metadata::Source { repr: repr.to_owned() }.is_crates_io()
}

/// Returns `text` as a directory name.
pub fn to_dirname(text: &str) -> (out: String)
    ensures
        out@ == dirname_of(text@),
{
    let chars = chars_of(text);
    let mut out: Vec<char> = Vec::new();
    let mut i: usize = 0;
    while i < chars.len()
        invariant
            i <= chars.len(),
            out@ == dirname_of(chars@.subrange(0, i as int)),
        decreases chars.len() - i,
    {
        let c = chars[i];
        assert(chars@.subrange(0, i + 1).drop_last() =~= chars@.subrange(0, i as int));
        if c == '{' || c == '}' || c == ' ' || c == '\n' || c == '"' || c == '\'' {
        } else if c == '\\' || c == '/' || c == '.' || c == ':' || c == '@' || c == '=' {
            out.push('_');
        } else {
            out.push(c);
        }
        i += 1;
    }
    assert(chars@.subrange(0, chars.len() as int) =~= chars@);
    string_of(&out)
}

impl SpirvSource {
    /// The source that the explicit settings name, if they name one: a
    /// repository where both an address and a version are given, the registry
    /// where only a version is given. `Ok(None)` where no version is given: the
    /// shader crate then decides, see `get_rust_gpu_deps_from_shader`.
    pub fn new(maybe_rust_gpu_source: Option<&str>, maybe_rust_gpu_version: Option<&str>) -> (r:
        Result<Option<Self>, SpirvSourceError>)
        ensures
            match source_from_settings(
                match maybe_rust_gpu_source {
                    Some(s) => Some(s@),
                    None => None,
                },
                match maybe_rust_gpu_version {
                    Some(v) => Some(v@),
                    None => None,
                },
            ) {
                Ok(Some(source)) => r matches Ok(Some(s)) && s@ == source && (s@ is CratesIO
                    ==> s.wf()),
                Ok(None) => r matches Ok(None),
                Err(f) => r matches Err(e) && e@ == f,
            },
    {
        match (maybe_rust_gpu_source, maybe_rust_gpu_version) {
            (Some(rust_gpu_source), Some(rust_gpu_version)) => Ok(
                Some(
                    SpirvSource::Git {
                        url: rust_gpu_source.to_owned(),
                        rev: rust_gpu_version.to_owned(),
                    },
                ),
            ),
            (None, Some(rust_gpu_version)) => match parse_semver(rust_gpu_version) {
                Ok(version) => Ok(Some(SpirvSource::CratesIO(version))),
                Err(e) => Err(SpirvSourceError::InvalidVersion(e)),
            },
            _ => Ok(None),
        }
    }

    /// Every version in this source is well formed.
    pub open spec fn wf(&self) -> bool {
        match self {
            SpirvSource::CratesIO(version) => version.wf(),
            SpirvSource::Git { url, rev } => true,
            SpirvSource::Path { rust_gpu_repo_root, version } => version.wf(),
        }
    }

    /// The directory that decides, by existing or not, whether the shader crate
    /// with this package graph uses a local checkout of `rust-gpu`; `None`
    /// where no directory decides it.
    pub fn repo_root_to_probe(crate_metadata: &Metadata) -> (r: Option<String>)
        ensures
            match self::repo_root_to_probe(crate_metadata@) {
                Some(root) => r matches Some(p) && p@ == root,
                None => r is None,
            },
    {
        match crate_metadata.package_by_name("spirv-std") {
            Ok(package) => if package.source.is_none() {
                Self::local_repo_root(package)
            } else {
                None
            },
            Err(_) => None,
        }
    }

    /// The directory that has to exist for the `spirv-std` package to count as
    /// part of a local checkout: the one three levels above its manifest.
    pub fn local_repo_root(spirv_std_package: &Package) -> (r: Option<String>)
        ensures
            match r {
                Some(root) => ancestor_of(spirv_std_package@.manifest_path, repo_root_levels())
                    == Some(root@),
                None => ancestor_of(spirv_std_package@.manifest_path, repo_root_levels()) is None,
            },
    {
        ancestor(spirv_std_package.manifest_path.as_str(), 3)
    }

    /// Reads the source and version of `rust-gpu` off the package graph of the
    /// shader crate: they are those of its `spirv-std` dependency.
    /// `repo_root_is_dir` says whether `local_repo_root` of that package exists
    /// as a directory.
    pub fn get_rust_gpu_deps_from_shader(crate_metadata: &Metadata, repo_root_is_dir: bool) -> (r:
        Result<Self, SpirvSourceError>)
        ensures
            match source_from_shader(crate_metadata@, repo_root_is_dir) {
                Ok(s) => r matches Ok(source) && source@ == s,
                Err(f) => r matches Err(e) && e@ == f,
            },
    {
        let spirv_std_package = match crate_metadata.package_by_name("spirv-std") {
            Ok(package) => package,
            Err(e) => {
                return Err(SpirvSourceError::MissingPackage(e));
            },
        };
        match Self::parse_spirv_std_source_and_version(spirv_std_package, repo_root_is_dir) {
            Ok(source) => Ok(source),
            Err(e) => Err(SpirvSourceError::ParseSourceVersion(e)),
        }
    }

    /// The display text of this source.
    pub fn to_text(&self) -> (out: String)
        ensures
            out@ == source_text(self@),
    {
        match self {
            SpirvSource::CratesIO(version) => version.to_text(),
            SpirvSource::Git { url, rev } => {
                let rev_chars = chars_of(rev.as_str());
                let short = if rev_chars.len() >= 8 {
                    string_of_range(&rev_chars, 0, 8)
                } else {
                    rev.clone()
                };
                let mut out = url.clone();
                proof {
                    reveal_strlit("+");
                    assert("+"@ =~= seq!['+']);
                }
                out.append("+");
                out.append(short.as_str());
                out
            },
            SpirvSource::Path { rust_gpu_repo_root, version } => {
                let mut out = rust_gpu_repo_root.clone();
                proof {
                    reveal_strlit("+");
                    assert("+"@ =~= seq!['+']);
                }
                out.append("+");
                out.append(version.to_text().as_str());
                out
            },
        }
    }

    /// The directory in which this source is built.
    pub fn install_dir(&self, cache_dir: &str) -> (dir: String)
        ensures
            dir@ == install_dir_of(self@, cache_dir@),
    {
        match self {
            SpirvSource::Path { rust_gpu_repo_root, .. } => rust_gpu_repo_root.clone(),
            _ => {
                let name = to_dirname(self.to_text().as_str());
                let codegen = join(cache_dir, "codegen");
                join(codegen.as_str(), name.as_str())
            },
        }
    }

    /// Whether this source is a local checkout.
    pub fn is_path(&self) -> (b: bool)
        ensures
            b == (self@ is Path),
    {
        match self {
            SpirvSource::Path { .. } => true,
            _ => false,
        }
    }

    /// Reads the source of `rust-gpu` off the metadata of the `spirv-std`
    /// package. `repo_root_is_dir` says whether `local_repo_root` of the package
    /// exists as a directory.
    pub fn parse_spirv_std_source_and_version(
        spirv_std_package: &Package,
        repo_root_is_dir: bool,
    ) -> (r: Result<Self, ParseSourceVersionError>)
        ensures
            match source_of_package(spirv_std_package@, repo_root_is_dir) {
                Ok(s) => r matches Ok(source) && source@ == s,
                Err(f) => r matches Err(e) && e@ == f,
            },
    {
        let repo_root = Self::local_repo_root(spirv_std_package);
        Self::from_package(spirv_std_package, repo_root, repo_root_is_dir)
    }

    /// Reads the source of `rust-gpu` off the metadata of the `spirv-std`
    /// package, given the root of the local checkout that the package may be
    /// part of, and whether that root exists as a directory.
    pub fn from_package(
        spirv_std_package: &Package,
        repo_root: Option<String>,
        repo_root_is_dir: bool,
    ) -> (r: Result<Self, ParseSourceVersionError>)
        ensures
            match source_given_root(
                spirv_std_package@,
                match repo_root {
                    Some(root) => Some(root@),
                    None => None,
                },
                repo_root_is_dir,
            ) {
                Ok(s) => r matches Ok(source) && source@ == s,
                Err(f) => r matches Err(e) && e@ == f,
            },
    {
        match &spirv_std_package.source {
            Some(source) => {
                let repr = chars_of(source.as_str());
                let marker = chars_of("git+");
                let is_git = has_prefix(&repr, &marker);
                let is_registry = is_crates_io(source.as_str());
                if is_git && is_registry {
                    Err(ParseSourceVersionError::AmbiguousSource(source.clone()))
                } else if is_git {
                    let link = slice_of(&repr, marker.len(), repr.len());
                    match find_char(&link, '#', 0) {
                        None => Err(ParseSourceVersionError::InvalidGitSource(source.clone())),
                        Some(sharp) => {
                            let url_end = match find_char(&link, '?', 0) {
                                Some(question) => question,
                                None => sharp,
                            };
                            proof {
                                lemma_find_from(link@, seq!['#'], 0);
                                lemma_find_from(link@, seq!['?'], 0);
                            }
                            let url = string_of_range(&link, 0, url_end);
                            let rev = string_of_range(&link, sharp + 1, link.len());
                            Ok(SpirvSource::Git { url, rev })
                        },
                    }
                } else if is_registry {
                    Ok(SpirvSource::CratesIO(spirv_std_package.version.duplicate()))
                } else {
                    Err(ParseSourceVersionError::UnknownSource(source.clone()))
                }
            },
            None => {
                let invalid = ParseSourceVersionError::InvalidManifestPath(
                    spirv_std_package.manifest_path.clone(),
                );
                match repo_root {
                    Some(rust_gpu_repo_root) => if repo_root_is_dir {
                        Ok(
                            SpirvSource::Path {
                                rust_gpu_repo_root,
                                version: spirv_std_package.version.duplicate(),
                            },
                        )
                    } else {
                        Err(invalid)
                    },
                    None => Err(invalid),
                }
            },
        }
    }
}

/// What the channel line of a build script starts with.
pub open spec fn channel_start() -> Seq<char> {
    "channel = \""@
}

/// What ends the channel in its line.
pub open spec fn channel_end() -> Seq<char> {
    "\""@
}

/// The name of the build script, beside the manifest of its package.
pub open spec fn build_script_name() -> Seq<char> {
    "build.rs"@
}

/// The index of the first line at or after `from` that begins with `prefix`.
pub open spec fn first_line_with(ls: Seq<Seq<char>>, prefix: Seq<char>, from: int) -> Option<int>
    decreases ls.len() - from + 1,
{
    if from < 0 || from >= ls.len() {
        None
    } else if begins_with(ls[from], prefix) {
        Some(from)
    } else {
        first_line_with(ls, prefix, from + 1)
    }
}

/// The path of the build script of a package: `build.rs` in the directory of
/// its manifest. `None` where the manifest has no directory above it.
pub open spec fn build_script_of(p: PackageModel) -> Option<Seq<char>> {
    match parent_of(p.manifest_path) {
        Some(dir) => Some(joined(dir, build_script_name())),
        None => None,
    }
}

/// The channel that the build script `contents` asks for: in the first line
/// that begins with `channel = "`, what stands between that start and the next
/// `"`. `build_script` is the path that the errors name.
pub open spec fn channel_in(contents: Seq<char>, build_script: Seq<char>) -> Result<
    Seq<char>,
    ChannelFailure,
> {
    let ls = lines(contents);
    match first_line_with(ls, channel_start(), 0) {
        None => Err(
            ChannelFailure::ChannelStartNotFound { channel_start: channel_start(), build_script },
        ),
        Some(k) => {
            let line = ls[k];
            let start = channel_start().len() as int;
            match find_from(line, channel_end(), start) {
                None => Err(
                    ChannelFailure::ChannelEndNotFound {
                        channel_end: channel_end(),
                        channel_line: line,
                        build_script,
                    },
                ),
                Some(end) => Ok(line.subrange(start, end)),
            }
        },
    }
}

/// The channel that the package `p` asks for, given what reading its build
/// script gave: the contents, or the reason why it could not be read.
pub open spec fn channel_of_package(p: PackageModel, read: Result<Seq<char>, Seq<char>>) -> Result<
    Seq<char>,
    ChannelFailure,
> {
    match build_script_of(p) {
        None => Err(ChannelFailure::ManifestAtRoot),
        Some(build_script) => match read {
            Err(source) => Err(ChannelFailure::InvalidBuildScript { source, build_script }),
            Ok(contents) => channel_in(contents, build_script),
        },
    }
}

/// The path of the build script of `package`, which names the toolchain
/// channel that the package is built with.
pub fn build_script_path(package: &Package) -> (r: Option<String>)
    ensures
        match r {
            Some(path) => build_script_of(package@) == Some(path@),
            None => build_script_of(package@) is None,
        },
{
    match parent_path(package.manifest_path.as_str()) {
        Some(dir) => Some(join(dir.as_str(), "build.rs")),
        None => None,
    }
}

/// `first_line_with` returns an index within the lines.
pub proof fn lemma_first_line_with(ls: Seq<Seq<char>>, prefix: Seq<char>, from: int)
    requires
        0 <= from,
    ensures
        first_line_with(ls, prefix, from) matches Some(k) ==> from <= k < ls.len() && begins_with(
            ls[k],
            prefix,
        ),
    decreases ls.len() - from + 1,
{
    if from < ls.len() && !begins_with(ls[from], prefix) {
        lemma_first_line_with(ls, prefix, from + 1);
    }
}

/// The index of the first of `rows` that begins with `prefix`.
pub fn find_line_with(rows: &Vec<Vec<char>>, prefix: &Vec<char>) -> (r: Option<usize>)
    ensures
        match r {
            Some(k) => first_line_with(rows_view(rows@), prefix@, 0) == Some(k as int) && k
                < rows.len(),
            None => first_line_with(rows_view(rows@), prefix@, 0) is None,
        },
{
    let ghost ls = rows_view(rows@);
    let mut k: usize = 0;
    while k < rows.len()
        invariant
            k <= rows.len(),
            rows_view(rows@) == ls,
            first_line_with(ls, prefix@, 0) == first_line_with(ls, prefix@, k as int),
        decreases rows.len() - k,
    {
        assert(ls[k as int] == rows@[k as int]@);
        if has_prefix(&rows[k], prefix) {
            return Some(k);
        }
        k += 1;
    }
    None
}

/// Finds the toolchain channel in the contents of a build script.
/// `build_script` is the path of the script, which the errors name.
pub fn parse_toolchain_channel(contents: &str, build_script: &str) -> (r: Result<
    String,
    RustGpuToolchainChannelError,
>)
    ensures
        match channel_in(contents@, build_script@) {
            Ok(channel) => r matches Ok(c) && c@ == channel,
            Err(f) => r matches Err(e) && e@ == f,
        },
{
    let text = chars_of(contents);
    let all_lines = split_lines(&text);
    let channel_start = chars_of("channel = \"");
    let channel_end = chars_of("\"");
    let k = match find_line_with(&all_lines, &channel_start) {
        Some(k) => k,
        None => {
            return Err(
                RustGpuToolchainChannelError::ChannelStartNotFound {
                    channel_start: string_of(&channel_start),
                    build_script: build_script.to_owned(),
                },
            );
        },
    };
    proof {
        lemma_first_line_with(lines(contents@), self::channel_start(), 0);
    }
    assert(lines(contents@)[k as int] == all_lines@[k as int]@);
    let channel_line = &all_lines[k];
    let start = channel_start.len();
    let end = match find_in(channel_line, &channel_end, start) {
        Some(end) => end,
        None => {
            return Err(
                RustGpuToolchainChannelError::ChannelEndNotFound {
                    channel_end: string_of(&channel_end),
                    channel_line: string_of(channel_line),
                    build_script: build_script.to_owned(),
                },
            );
        },
    };
    proof {
        lemma_find_from(channel_line@, self::channel_end(), start as int);
    }
    if start > end || end > channel_line.len() {
        return Err(
            RustGpuToolchainChannelError::InvalidChannelSlice {
                start,
                end,
                channel_line: string_of(channel_line),
                build_script: build_script.to_owned(),
            },
        );
    }
    Ok(string_of_range(channel_line, start, end))
}

/// Finds the toolchain channel that the package `rustc_codegen_spirv` is built
/// with. `build_script` is what reading the file at `build_script_path` of the
/// package gave: its contents, or the reason why it could not be read.
pub fn rust_gpu_toolchain_channel(
    rustc_codegen_spirv: &Package,
    build_script: Result<&str, &str>,
) -> (r: Result<String, RustGpuToolchainChannelError>)
    ensures
        match channel_of_package(
            rustc_codegen_spirv@,
            match build_script {
                Ok(contents) => Ok(contents@),
                Err(source) => Err(source@),
            },
        ) {
            Ok(channel) => r matches Ok(c) && c@ == channel,
            Err(f) => r matches Err(e) && e@ == f,
        },
{
    let path = match build_script_path(rustc_codegen_spirv) {
        Some(path) => path,
        None => {
            return Err(RustGpuToolchainChannelError::ManifestAtRoot);
        },
    };
    match build_script {
        Ok(contents) => parse_toolchain_channel(contents, path.as_str()),
        Err(source) => Err(
            RustGpuToolchainChannelError::InvalidBuildScript {
                source: source.to_owned(),
                build_script: path,
            },
        ),
    }
}

/// The characters that a directory name shows as they are, or in a way that
/// shows no other character of this kind: every character but those that are
/// left out, `_`, and those that turn into `_`, the dot excepted.
pub open spec fn is_faithful_char(c: char) -> bool {
    &&& !is_dropped_char(c)
    &&& c != '_'
    &&& (is_replaced_char(c) ==> c == '.')
}

/// Every character of `text` is shown faithfully in a directory name.
pub open spec fn is_faithful_text(text: Seq<char>) -> bool {
    forall|i: int| 0 <= i < text.len() ==> is_faithful_char(#[trigger] text[i])
}

/// The directory name of a text made of two parts is made of the directory
/// names of the parts.
pub proof fn lemma_dirname_concat(a: Seq<char>, b: Seq<char>)
    ensures
        dirname_of(a + b) == dirname_of(a) + dirname_of(b),
    decreases b.len(),
{
    if b.len() == 0 {
        assert(a + b =~= a);
        assert(dirname_of(a) + dirname_of(b) =~= dirname_of(a));
    } else {
        assert((a + b).drop_last() =~= a + b.drop_last());
        assert((a + b).last() == b.last());
        lemma_dirname_concat(a, b.drop_last());
        let head = dirname_of(a) + dirname_of(b.drop_last());
        assert(head.push('_') =~= dirname_of(a) + dirname_of(b.drop_last()).push('_'));
        assert(head.push(b.last()) =~= dirname_of(a) + dirname_of(b.drop_last()).push(b.last()));
    }
}

/// A directory name holds none of the characters that are left out or
/// replaced: in particular no separator of paths.
pub proof fn lemma_dirname_is_safe(text: Seq<char>)
    ensures
        forall|i: int|
            0 <= i < dirname_of(text).len() ==> !is_dropped_char(#[trigger] dirname_of(text)[i])
                && !is_replaced_char(dirname_of(text)[i]),
    decreases text.len(),
{
    if text.len() > 0 {
        lemma_dirname_is_safe(text.drop_last());
        let head = dirname_of(text.drop_last());
        let name = dirname_of(text);
        assert forall|i: int| 0 <= i < name.len() implies !is_dropped_char(#[trigger] name[i])
            && !is_replaced_char(name[i]) by {
            if i < head.len() {
                assert(name[i] == head[i]);
            }
        }
    }
}

/// A faithful text has a directory name of its own length, and two faithful
/// texts with one directory name are one text.
pub proof fn lemma_dirname_of_faithful(a: Seq<char>, b: Seq<char>)
    requires
        is_faithful_text(a),
        is_faithful_text(b),
    ensures
        dirname_of(a).len() == a.len(),
        dirname_of(a) == dirname_of(b) ==> a == b,
    decreases a.len(),
{
    lemma_dirname_len(a);
    lemma_dirname_len(b);
    if dirname_of(a) == dirname_of(b) {
        if a.len() == 0 {
            assert(a =~= b);
        } else {
            let a0 = a.drop_last();
            let b0 = b.drop_last();
            lemma_dirname_len(a0);
            lemma_dirname_len(b0);
            assert(is_faithful_char(a.last()));
            assert(is_faithful_char(b.last()));
            assert(is_faithful_text(a0));
            assert(is_faithful_text(b0));
            assert(dirname_of(a).drop_last() =~= dirname_of(a0));
            assert(dirname_of(b).drop_last() =~= dirname_of(b0));
            assert(dirname_of(a).last() == dirname_of(b).last());
            lemma_dirname_of_faithful(a0, b0);
            assert(a =~= a0.push(a.last()));
            assert(b =~= b0.push(b.last()));
        }
    }
}

/// A faithful text has a directory name of its own length.
pub proof fn lemma_dirname_len(a: Seq<char>)
    requires
        is_faithful_text(a),
    ensures
        dirname_of(a).len() == a.len(),
    decreases a.len(),
{
    if a.len() > 0 {
        assert(is_faithful_char(a.last()));
        assert(is_faithful_text(a.drop_last()));
        lemma_dirname_len(a.drop_last());
    }
}

/// Two components that do not start at the root, adjoined to one base, give
/// one path only where they are one component.
pub proof fn lemma_joined_is_injective(base: Seq<char>, a: Seq<char>, b: Seq<char>)
    requires
        !begins_with(a, crate::path::separator()),
        !begins_with(b, crate::path::separator()),
        joined(base, a) == joined(base, b),
    ensures
        a == b,
{
    let sep = crate::path::separator();
    if base.len() == 0 || crate::text::finishes_with(base, sep) {
        assert((base + a).subrange(base.len() as int, (base + a).len() as int) =~= a);
        assert((base + b).subrange(base.len() as int, (base + b).len() as int) =~= b);
    } else {
        let head = base + sep;
        assert((head + a).subrange(head.len() as int, (head + a).len() as int) =~= a);
        assert((head + b).subrange(head.len() as int, (head + b).len() as int) =~= b);
    }
}

/// A directory name does not start at the root.
pub proof fn lemma_dirname_is_relative(text: Seq<char>)
    ensures
        !begins_with(dirname_of(text), crate::path::separator()),
{
    lemma_dirname_is_safe(text);
    let name = dirname_of(text);
    if begins_with(name, crate::path::separator()) {
        assert(name.subrange(0, 1)[0] == name[0]);
        assert(crate::path::separator()[0] == '/');
        assert(is_replaced_char(name[0]));
    }
}

/// The install directory of a source other than a local checkout is decided by
/// its display text alone: two such sources with one display text are built in
/// one directory.
pub proof fn lemma_install_dir_follows_display_text(
    a: SpirvSourceModel,
    b: SpirvSourceModel,
    cache_dir: Seq<char>,
)
    requires
        !(a is Path),
        !(b is Path),
        source_text(a) == source_text(b),
    ensures
        install_dir_of(a, cache_dir) == install_dir_of(b, cache_dir),
{
}

/// Two such sources are built in one directory only where their display texts
/// have one directory name.
pub proof fn lemma_install_dir_decides_dirname(
    a: SpirvSourceModel,
    b: SpirvSourceModel,
    cache_dir: Seq<char>,
)
    requires
        !(a is Path),
        !(b is Path),
        install_dir_of(a, cache_dir) == install_dir_of(b, cache_dir),
    ensures
        dirname_of(source_text(a)) == dirname_of(source_text(b)),
{
    lemma_dirname_is_relative(source_text(a));
    lemma_dirname_is_relative(source_text(b));
    lemma_joined_is_injective(
        joined(cache_dir, "codegen"@),
        dirname_of(source_text(a)),
        dirname_of(source_text(b)),
    );
}

/// Two revisions of one repository that agree in their first eight characters
/// are built in one directory: the directory knows no more of a revision than
/// the display text shows.
pub proof fn lemma_git_install_dir_keeps_short_rev(
    url: Seq<char>,
    rev1: Seq<char>,
    rev2: Seq<char>,
    cache_dir: Seq<char>,
)
    requires
        short_rev(rev1) == short_rev(rev2),
    ensures
        install_dir_of(SpirvSourceModel::Git { url, rev: rev1 }, cache_dir) == install_dir_of(
            SpirvSourceModel::Git { url, rev: rev2 },
            cache_dir,
        ),
{
}

/// Two revisions of one repository whose short forms differ are built in
/// different directories, provided the short forms are faithful texts: a
/// directory name shows `_` for several characters, so that revisions which
/// differ only in those cannot be told apart.
pub proof fn lemma_git_install_dirs_differ(
    url: Seq<char>,
    rev1: Seq<char>,
    rev2: Seq<char>,
    cache_dir: Seq<char>,
)
    requires
        is_faithful_text(short_rev(rev1)),
        is_faithful_text(short_rev(rev2)),
        short_rev(rev1) != short_rev(rev2),
    ensures
        install_dir_of(SpirvSourceModel::Git { url, rev: rev1 }, cache_dir) != install_dir_of(
            SpirvSourceModel::Git { url, rev: rev2 },
            cache_dir,
        ),
{
    let a = SpirvSourceModel::Git { url, rev: rev1 };
    let b = SpirvSourceModel::Git { url, rev: rev2 };
    if install_dir_of(a, cache_dir) == install_dir_of(b, cache_dir) {
        lemma_install_dir_decides_dirname(a, b, cache_dir);
        let head = url + seq!['+'];
        lemma_dirname_concat(head, short_rev(rev1));
        lemma_dirname_concat(head, short_rev(rev2));
        let n = dirname_of(head);
        let d1 = dirname_of(short_rev(rev1));
        let d2 = dirname_of(short_rev(rev2));
        assert(n + d1 == n + d2);
        assert((n + d1).subrange(n.len() as int, (n + d1).len() as int) =~= d1);
        assert((n + d2).subrange(n.len() as int, (n + d2).len() as int) =~= d2);
        lemma_dirname_of_faithful(short_rev(rev1), short_rev(rev2));
    }
}

/// The decimal form of a number is a faithful text.
pub proof fn lemma_decimal_is_faithful(n: nat)
    ensures
        is_faithful_text(crate::version::decimal(n)),
    decreases n,
{
    if n >= 10 {
        lemma_decimal_is_faithful(n / 10);
    }
}

/// The text of a well-formed version is a faithful text.
pub proof fn lemma_version_text_is_faithful(v: VersionModel)
    requires
        crate::version::is_identifier_text(v.pre),
        crate::version::is_identifier_text(v.build),
    ensures
        is_faithful_text(version_text(v)),
{
    lemma_decimal_is_faithful(v.major);
    lemma_decimal_is_faithful(v.minor);
    lemma_decimal_is_faithful(v.patch);
    let text = version_text(v);
    assert forall|i: int| 0 <= i < text.len() implies is_faithful_char(#[trigger] text[i]) by {
        let a = crate::version::decimal(v.major);
        let b = crate::version::decimal(v.minor);
        let c = crate::version::decimal(v.patch);
        let numbers = a + seq!['.'] + b + seq!['.'] + c;
        let pre = if v.pre.len() > 0 {
            seq!['-'] + v.pre
        } else {
            Seq::empty()
        };
        let build = if v.build.len() > 0 {
            seq!['+'] + v.build
        } else {
            Seq::empty()
        };
        assert(text == numbers + pre + build);
        assert(is_faithful_text(numbers)) by {
            assert forall|j: int| 0 <= j < numbers.len() implies is_faithful_char(
                #[trigger] numbers[j],
            ) by {
                if j < a.len() {
                    assert(numbers[j] == a[j]);
                } else if j == a.len() {
                    assert(numbers[j] == '.');
                } else if j < a.len() + 1 + b.len() {
                    assert(numbers[j] == b[j - a.len() - 1]);
                } else if j == a.len() + 1 + b.len() {
                    assert(numbers[j] == '.');
                } else {
                    assert(numbers[j] == c[j - a.len() - b.len() - 2]);
                }
            }
        }
        assert(is_faithful_text(pre)) by {
            assert forall|j: int| 0 <= j < pre.len() implies is_faithful_char(#[trigger] pre[j]) by {
                if j > 0 {
                    assert(pre[j] == v.pre[j - 1]);
                    assert(crate::version::is_identifier_char(v.pre[j - 1]));
                }
            }
        }
        assert(is_faithful_text(build)) by {
            assert forall|j: int| 0 <= j < build.len() implies is_faithful_char(
                #[trigger] build[j],
            ) by {
                if j > 0 {
                    assert(build[j] == v.build[j - 1]);
                    assert(crate::version::is_identifier_char(v.build[j - 1]));
                }
            }
        }
        if i < numbers.len() {
            assert(text[i] == numbers[i]);
        } else if i < numbers.len() + pre.len() {
            assert(text[i] == pre[i - numbers.len()]);
        } else {
            assert(text[i] == build[i - numbers.len() - pre.len()]);
        }
    }
}

/// Two registry releases with different versions are built in different
/// directories.
pub proof fn lemma_registry_install_dirs_differ(
    v1: VersionModel,
    v2: VersionModel,
    cache_dir: Seq<char>,
)
    requires
        crate::version::is_identifier_text(v1.pre),
        crate::version::is_identifier_text(v1.build),
        crate::version::is_identifier_text(v2.pre),
        crate::version::is_identifier_text(v2.build),
        v1 != v2,
    ensures
        version_text(v1) != version_text(v2),
        install_dir_of(SpirvSourceModel::CratesIO(v1), cache_dir) != install_dir_of(
            SpirvSourceModel::CratesIO(v2),
            cache_dir,
        ),
{
    let a = SpirvSourceModel::CratesIO(v1);
    let b = SpirvSourceModel::CratesIO(v2);
    if version_text(v1) == version_text(v2) {
        crate::version::lemma_version_text_is_injective(v1, v2);
    }
    if install_dir_of(a, cache_dir) == install_dir_of(b, cache_dir) {
        lemma_install_dir_decides_dirname(a, b, cache_dir);
        lemma_version_text_is_faithful(v1);
        lemma_version_text_is_faithful(v2);
        lemma_dirname_of_faithful(version_text(v1), version_text(v2));
    }
}

/// A source that begins with `git+` and holds no `#` names no revision: it is
/// rejected as an invalid repository source, whatever else it holds.
pub proof fn lemma_git_source_needs_revision(
    p: PackageModel,
    repo_root: Option<Seq<char>>,
    repo_root_is_dir: bool,
)
    requires
        p.source matches Some(repr) && begins_with(repr, git_marker()) && !repr.contains('#'),
    ensures
        source_given_root(p, repo_root, repo_root_is_dir) == Err::<
            SpirvSourceModel,
            ParseFailure,
        >(ParseFailure::InvalidGitSource(p.source->0)),
{
    let repr = p.source->0;
    reveal_strlit("git+");
    reveal_strlit("registry+https://github.com/rust-lang/crates.io-index");
    assert(repr.subrange(0, 4)[0] == repr[0]);
    assert(repr[0] == 'g');
    assert(registry_index()[0] == 'r');
    let link = repr.subrange(git_marker().len() as int, repr.len() as int);
    lemma_find_from(link, seq!['#'], 0);
    if find_from(link, seq!['#'], 0) is Some {
        let i = find_from(link, seq!['#'], 0)->0;
        assert(link.subrange(i, i + 1)[0] == link[i]);
        assert(link[i] == '#');
        assert(repr[i + 4] == '#');
    }
}

} // verus!
