use cargo_gpu::cache::cache_dir;
use cargo_gpu::command::{
    copy_texts, execute_command, CommandExecError, CommandLine, CommandOutput,
};
use cargo_gpu::metadata::{
    Metadata, MetadataExt, Package, PackageByManifestPathError, PackageByNameError,
};
use cargo_gpu::path::{ancestor, join};
use cargo_gpu::text::{
    chars_of, extend_from_range, find_char, find_in, has_infix, has_prefix, has_suffix, matches_at,
    replace_all, same_chars, same_text, single, slice_of, split_lines, string_of,
    string_of_range,
};
use cargo_gpu::version::{push_decimal, Version};

fn chars(s: &str) -> Vec<char> {
    s.chars().collect()
}

fn lines_of(s: &str) -> Vec<String> {
    split_lines(&chars(s)).iter().map(|l| l.iter().collect()).collect()
}

#[test]
fn chars_and_strings_convert_both_ways() {
    assert_eq!(chars_of("héllo\n"), vec!['h', 'é', 'l', 'l', 'o', '\n']);
    assert_eq!(chars_of(""), Vec::<char>::new());
    assert_eq!(string_of(&chars("héllo")), "héllo");
    assert_eq!(string_of(&vec![]), "");
    assert_eq!(string_of_range(&chars("héllo"), 1, 3), "él");
    assert_eq!(string_of_range(&chars("héllo"), 2, 2), "");
    assert_eq!(slice_of(&chars("hello"), 1, 4), chars("ell"));
    assert_eq!(single('x'), vec!['x']);
    let mut out = chars("ab");
    extend_from_range(&mut out, &chars("cdef"), 1, 3);
    assert_eq!(out, chars("abde"));
    let mut out = chars("v");
    cargo_gpu::text::push_str(&mut out, "1.0");
    assert_eq!(out, chars("v1.0"));
}

#[test]
fn searching() {
    let s = chars("abcabc");
    assert!(matches_at(&s, &chars("bc"), 1));
    assert!(!matches_at(&s, &chars("bc"), 2));
    assert!(!matches_at(&s, &chars("bc"), 5));
    assert!(!matches_at(&s, &chars("bc"), 50));
    assert!(matches_at(&s, &chars(""), 6));
    assert!(!matches_at(&s, &chars(""), 7));
    assert_eq!(find_in(&s, &chars("bc"), 0), Some(1));
    assert_eq!(find_in(&s, &chars("bc"), 2), Some(4));
    assert_eq!(find_in(&s, &chars("bc"), 5), None);
    assert_eq!(find_in(&s, &chars("abcabcd"), 0), None);
    assert_eq!(find_in(&s, &chars(""), 6), Some(6));
    assert_eq!(find_in(&s, &chars(""), 7), None);
    assert_eq!(find_char(&s, 'c', 0), Some(2));
    assert_eq!(find_char(&s, 'c', 3), Some(5));
    assert_eq!(find_char(&s, 'x', 0), None);
    assert!(has_prefix(&s, &chars("abc")));
    assert!(!has_prefix(&s, &chars("bc")));
    assert!(has_suffix(&s, &chars("abc")));
    assert!(has_suffix(&s, &chars("")));
    assert!(!has_suffix(&s, &chars("ab")));
    assert!(!has_suffix(&s, &chars("xabcabc")));
    assert!(has_infix(&s, &chars("ca")));
    assert!(!has_infix(&s, &chars("cc")));
    assert!(same_chars(&s, &chars("abcabc")));
    assert!(!same_chars(&s, &chars("abcab")));
    assert!(!same_chars(&s, &chars("abcabd")));
    assert!(same_text("", ""));
    assert!(!same_text("a", "A"));
}

#[test]
fn lines_are_those_of_the_standard_library() {
    for text in [
        "",
        "\n",
        "a",
        "a\n",
        "a\nb",
        "a\n\nb\n",
        "\n\n",
        "a\r\nb\r\n",
        "a\rb\r",
        "a\r",
        "\r\n",
        "\r\r\n",
        "a\r\n\r\nb",
        "one\ntwo\nthree\nfour",
    ] {
        let expected: Vec<String> = text.lines().map(str::to_owned).collect();
        assert_eq!(lines_of(text), expected, "{text:?}");
    }
}

#[test]
fn replacing_is_that_of_the_standard_library() {
    for (text, pat, to) in [
        ("a::b::c", "::", ""),
        ("aaaa", "aa", "b"),
        ("aaa", "aa", "b"),
        ("abc", "x", "y"),
        ("", "x", "y"),
        ("xxx", "x", "xx"),
        ("a\nversion = 4\nb", "\nversion = 4\n", "\nversion = 3\n"),
    ] {
        assert_eq!(
            string_of(&replace_all(&chars(text), &chars(pat), &chars(to))),
            text.replace(pat, to),
            "{text:?} {pat:?} {to:?}"
        );
    }
    // An empty pattern is found nowhere.
    assert_eq!(string_of(&replace_all(&chars("abc"), &chars(""), &chars("-"))), "abc");
}

#[test]
fn versions_are_written_as_semver_writes_them() {
    assert_eq!(Version::new(0, 0, 0).to_text(), "0.0.0");
    assert_eq!(Version::new(1, 83, 0).to_text(), "1.83.0");
    assert_eq!(
        Version::new(u64::MAX, 10, 109).to_text(),
        "18446744073709551615.10.109"
    );
    let full = Version {
        major: 1,
        minor: 2,
        patch: 3,
        pre: "alpha.1".to_owned(),
        build: "b-7".to_owned(),
    };
    assert_eq!(full.to_text(), "1.2.3-alpha.1+b-7");
    let build_only =
        Version { major: 1, minor: 2, patch: 3, pre: String::new(), build: "x".to_owned() };
    assert_eq!(build_only.to_text(), "1.2.3+x");
    assert_eq!(full.duplicate(), full);
    let mut out: Vec<char> = vec!['n'];
    push_decimal(&mut out, 9070);
    assert_eq!(out, chars("n9070"));
}

#[test]
fn joining_paths() {
    assert_eq!(join("/a", "b"), "/a/b");
    assert_eq!(join("/a/", "b"), "/a/b");
    assert_eq!(join("a", "b/c"), "a/b/c");
    assert_eq!(join("", "b"), "b");
    assert_eq!(join("/", "b"), "/b");
    assert_eq!(join("/a", "/b"), "/b");
    assert_eq!(join("/a", ""), "/a/");
    for (base, component) in [("/a", "b"), ("/a/", "b"), ("", "b"), ("/a", "/b"), ("/a", ""), ("a//", "b")]
    {
        assert_eq!(
            join(base, component),
            std::path::Path::new(base).join(component).to_str().unwrap()
        );
    }
}

#[test]
fn ancestors_of_paths() {
    assert_eq!(ancestor("/a/b/c/Cargo.toml", 0).as_deref(), Some("/a/b/c/Cargo.toml"));
    assert_eq!(ancestor("/a/b/c/Cargo.toml", 1).as_deref(), Some("/a/b/c"));
    assert_eq!(ancestor("/a/b/c/Cargo.toml", 3).as_deref(), Some("/a"));
    assert_eq!(ancestor("/a/b/c/Cargo.toml", 4).as_deref(), Some("/"));
    assert_eq!(ancestor("/a/b/c/Cargo.toml", 5), None);
    assert_eq!(ancestor("Cargo.toml", 1).as_deref(), Some(""));
    assert_eq!(ancestor("Cargo.toml", 2), None);
    assert_eq!(ancestor("/a/b/", 1).as_deref(), Some("/a"));
}

fn graph() -> Metadata {
    let package = |name: &str, path: &str| Package {
        name: name.to_owned(),
        version: Version::new(1, 0, 0),
        source: None,
        manifest_path: path.to_owned(),
    };
    Metadata {
        packages: vec![
            package("a", "/ws/a/Cargo.toml"),
            package("b", "/ws/b/Cargo.toml"),
            package("a", "/ws/a2/Cargo.toml"),
        ],
        workspace_root: "/ws".to_owned(),
    }
}

#[test]
fn packages_are_found_by_name() {
    let graph = graph();
    assert_eq!(graph.package_by_name("b").unwrap().manifest_path, "/ws/b/Cargo.toml");
    // The first of two.
    assert_eq!(graph.package_by_name("a").unwrap().manifest_path, "/ws/a/Cargo.toml");
    assert_eq!(graph.package_by_name("c"), Err(PackageByNameError::new("c", "/ws")));
    assert_eq!(graph.package_by_name(""), Err(PackageByNameError::new("", "/ws")));
    assert_eq!(
        graph.package_by_name("A").unwrap_err().message(),
        "`A` not found in `Cargo.toml` at '/ws'"
    );
}

#[test]
fn packages_are_found_by_manifest_path() {
    let graph = graph();
    assert_eq!(graph.package_by_manifest_path("/ws/b").unwrap().name, "b");
    assert_eq!(graph.package_by_manifest_path("/ws/b/").unwrap().name, "b");
    assert_eq!(graph.package_by_manifest_path("/ws/a2").unwrap().name, "a");
    assert_eq!(
        graph.package_by_manifest_path("/ws/c"),
        Err(PackageByManifestPathError::NoPackageFound {
            path: "/ws/c/Cargo.toml".to_owned(),
            workspace_root: "/ws".to_owned()
        })
    );
    assert_eq!(
        PackageByManifestPathError::new("p", "w"),
        PackageByManifestPathError::NoPackageFound {
            path: "p".to_owned(),
            workspace_root: "w".to_owned()
        }
    );
}

#[test]
fn commands_are_judged_by_their_outcome() {
    let command = CommandLine {
        program: "rustup".to_owned(),
        args: vec!["toolchain".to_owned(), "list".to_owned()],
        current_dir: None,
        inherit_output: false,
    };
    let good = CommandOutput { success: true, stdout: "out".to_owned(), stderr: String::new() };
    let bad = CommandOutput { success: false, stdout: "out".to_owned(), stderr: "err".to_owned() };
    assert_eq!(execute_command(command.clone(), Ok(good.clone())), Ok(good));
    let failure = execute_command(command.clone(), Ok(bad.clone())).unwrap_err();
    assert_eq!(failure, CommandExecError::ExecFail { command: command.clone(), output: bad });
    assert_eq!(failure.command(), &command);
    let failure = execute_command(command.clone(), Err("not found".to_owned())).unwrap_err();
    assert_eq!(
        failure,
        CommandExecError::Io { command: command.clone(), source: "not found".to_owned() }
    );
    assert_eq!(failure.into_command(), command);
    assert_eq!(copy_texts(&command.args), command.args);
}

#[test]
fn cache_dir_is_in_the_cache_of_the_user() {
    assert_eq!(cache_dir(Some("/home/me/.cache")).unwrap(), "/home/me/.cache/rust-gpu");
    assert!(cache_dir(None).is_err());
}
