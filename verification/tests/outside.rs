use cargo_gpu::lockfile::ancestors;
use cargo_gpu::metadata::Package;
use cargo_gpu::path::{ancestor, join};
use cargo_gpu::spirv_source::SpirvSource;
use cargo_gpu::version::Version;

fn ours(version: &semver::Version) -> Version {
    Version {
        major: version.major,
        minor: version.minor,
        patch: version.patch,
        pre: version.pre.as_str().to_owned(),
        build: version.build.as_str().to_owned(),
    }
}

const VERSIONS: [&str; 12] = [
    "0.0.0",
    "0.9.0",
    "1.82.0",
    "1.83.0-nightly",
    "1.83.0-beta.3",
    "1.83.0",
    "1.83.0+build",
    "1.83.1-alpha",
    "1.84.0",
    "2.0.0-rc.1+exp.sha.5114f85",
    "10.20.30",
    "18446744073709551615.18446744073709551615.18446744073709551615",
];

#[test]
fn versions_read_like_those_of_semver() {
    for text in VERSIONS {
        let version = semver::Version::parse(text).unwrap();
        assert_eq!(ours(&version).to_text(), version.to_string());
        assert_eq!(ours(&version).to_text(), text);
        assert_eq!(
            SpirvSource::new(None, Some(text)).unwrap(),
            Some(SpirvSource::CratesIO(ours(&version)))
        );
    }
}

#[test]
fn versions_compare_like_those_of_semver() {
    for text in VERSIONS {
        let version = semver::Version::parse(text).unwrap();
        for (major, minor, patch) in [(1u64, 83u64, 0u64), (0, 0, 0), (1, 83, 1), (2, 0, 0), (10, 20, 30)]
        {
            assert_eq!(
                ours(&version).at_least(major, minor, patch),
                version >= semver::Version::new(major, minor, patch),
                "{text} against {major}.{minor}.{patch}"
            );
        }
    }
}

#[test]
fn invalid_versions_are_those_that_semver_rejects() {
    for text in ["", "1", "1.2", "1.2.3.4", "01.2.3", "1.2.3-", "1.2.3+", "1.2.3-a_b", "a.b.c", " 1.2.3"]
    {
        assert!(semver::Version::parse(text).is_err());
        assert!(SpirvSource::new(None, Some(text)).is_err(), "{text:?}");
    }
}

#[test]
fn parents_are_those_of_camino() {
    for path in ["/a/b/c", "/a", "/", "", "a", "a/b", "a/b/", "./a", "../a", "/a//b", "/a/./b", "a/.."]
    {
        let parent = camino::Utf8Path::new(path).parent().map(|p| p.as_str().to_owned());
        assert_eq!(ancestor(path, 1), parent, "{path:?}");
        let all: Vec<String> =
            camino::Utf8Path::new(path).ancestors().skip(1).map(|p| p.as_str().to_owned()).collect();
        assert_eq!(ancestors(path, 15), all, "{path:?}");
    }
}

#[test]
fn joins_are_those_of_camino() {
    for (base, component) in [
        ("/a", "b"),
        ("/a/", "b"),
        ("", "b"),
        ("/", "b"),
        ("a", "b/c"),
        ("/a", "/b"),
        ("/a", ""),
        ("", ""),
        ("a//", "b"),
        ("/cache/rust-gpu", "codegen"),
    ] {
        assert_eq!(
            join(base, component),
            camino::Utf8Path::new(base).join(component).as_str(),
            "{base:?} {component:?}"
        );
    }
}

#[test]
fn the_registry_is_the_one_that_cargo_metadata_knows() {
    let registry = "registry+https://github.com/rust-lang/crates.io-index";
    for repr in [registry, "registry+https://github.com/rust-lang/crates.io-index/", "registry+", ""] {
        let source = cargo_metadata::Source { repr: repr.to_owned() };
        let package = Package {
            name: "spirv-std".to_owned(),
            version: Version::new(0, 9, 0),
            source: Some(repr.to_owned()),
            manifest_path: String::new(),
        };
        let parsed = SpirvSource::parse_spirv_std_source_and_version(&package, false);
        assert_eq!(
            parsed == Ok(SpirvSource::CratesIO(Version::new(0, 9, 0))),
            source.is_crates_io(),
            "{repr:?}"
        );
    }
}

#[test]
fn different_versions_are_written_and_kept_apart() {
    for a in VERSIONS {
        for b in VERSIONS {
            let va = ours(&semver::Version::parse(a).unwrap());
            let vb = ours(&semver::Version::parse(b).unwrap());
            assert_eq!(va == vb, va.to_text() == vb.to_text(), "{a} {b}");
            assert_eq!(
                va == vb,
                SpirvSource::CratesIO(va.clone()).install_dir("/c")
                    == SpirvSource::CratesIO(vb.clone()).install_dir("/c"),
                "{a} {b}"
            );
        }
    }
}
