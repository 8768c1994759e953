//! Semantic versions as plain values.

use vstd::prelude::*;
use crate::text::{lemma_split_is_unique, push_str, string_of};

verus! {

/// The parse error of the `semver` crate, carried through unread.
#[verifier::external_type_specification]
#[verifier::external_body]
pub struct ExSemverError(semver::Error);

/// A semantic version: three numbers, then the pre-release and the build
/// metadata, each empty where the version has none.
#[derive(Clone, Debug, PartialEq, Eq)]
pub struct Version {
    pub major: u64,
    pub minor: u64,
    pub patch: u64,
    pub pre: String,
    pub build: String,
}

/// What a `Version` stands for.
pub struct VersionModel {
    pub major: nat,
    pub minor: nat,
    pub patch: nat,
    pub pre: Seq<char>,
    pub build: Seq<char>,
}

impl View for Version {
    type V = VersionModel;

    open spec fn view(&self) -> VersionModel {
        VersionModel {
            major: self.major as nat,
            minor: self.minor as nat,
            patch: self.patch as nat,
            pre: self.pre@,
            build: self.build@,
        }
    }
}

/// The characters that a pre-release or build metadata may hold: ASCII letters,
/// digits, the hyphen and the dot.
pub open spec fn is_identifier_char(c: char) -> bool {
    ||| '0' <= c <= '9'
    ||| 'A' <= c <= 'Z'
    ||| 'a' <= c <= 'z'
    ||| c == '-'
    ||| c == '.'
}

/// Every character of `s` may stand in a pre-release or in build metadata.
pub open spec fn is_identifier_text(s: Seq<char>) -> bool {
    forall|i: int| 0 <= i < s.len() ==> is_identifier_char(#[trigger] s[i])
}

/// The decimal digit `d`.
pub open spec fn digit_char(d: nat) -> char {
    if d == 0 {
        '0'
    } else if d == 1 {
        '1'
    } else if d == 2 {
        '2'
    } else if d == 3 {
        '3'
    } else if d == 4 {
        '4'
    } else if d == 5 {
        '5'
    } else if d == 6 {
        '6'
    } else if d == 7 {
        '7'
    } else if d == 8 {
        '8'
    } else {
        '9'
    }
}

/// `n` in decimal, without leading zeros.
pub open spec fn decimal(n: nat) -> Seq<char>
    decreases n,
{
    if n < 10 {
        seq![digit_char(n)]
    } else {
        decimal(n / 10).push(digit_char(n % 10))
    }
}

/// The pre-release as the text of a version shows it: after `-`, where there
/// is one.
pub open spec fn pre_text(pre: Seq<char>) -> Seq<char> {
    if pre.len() > 0 {
        seq!['-'] + pre
    } else {
        Seq::empty()
    }
}

/// The build metadata as the text of a version shows it: after `+`, where
/// there is any.
pub open spec fn build_text(build: Seq<char>) -> Seq<char> {
    if build.len() > 0 {
        seq!['+'] + build
    } else {
        Seq::empty()
    }
}

/// The text of a version: `major.minor.patch`, then `-` and the pre-release
/// where there is one, then `+` and the build metadata where there is any.
pub open spec fn version_text(v: VersionModel) -> Seq<char> {
    decimal(v.major) + seq!['.'] + decimal(v.minor) + seq!['.'] + decimal(v.patch) + pre_text(
        v.pre,
    ) + build_text(v.build)
}

/// `v` is at least the release `major.minor.patch` in the order of semantic
/// versions: the three numbers compare as a triple, and with equal numbers a
/// pre-release comes before the release.
pub open spec fn is_at_least(v: VersionModel, major: nat, minor: nat, patch: nat) -> bool {
    ||| v.major > major
    ||| v.major == major && v.minor > minor
    ||| v.major == major && v.minor == minor && v.patch > patch
    ||| v.major == major && v.minor == minor && v.patch == patch && v.pre.len() == 0
}

/// What `semver::Version::parse` makes of `text`: the version, or `None` where
/// it rejects the text.
pub uninterp spec fn parsed_version(text: Seq<char>) -> Option<VersionModel>;

/// `semver::Version::parse`: parses `text` as a semantic version. The parts of
/// what it accepts are handed over one for one; its pre-release and build
/// metadata hold only letters, digits, hyphens and dots.
#[verifier::external_body]
pub(crate) fn parse_semver(text: &str) -> (r: Result<Version, semver::Error>)
    ensures
        match r {
            Ok(v) => parsed_version(text@) == Some(v@) && v.wf(),
            Err(_) => parsed_version(text@) is None,
        },
{
    match semver::Version::parse(text) {
        Ok(v) => Ok(
            Version {
                major: v.major,
                minor: v.minor,
                patch: v.patch,
                pre: v.pre.as_str().to_owned(),
                build: v.build.as_str().to_owned(),
            },
        ),
        Err(e) => Err(e),
    }
}

fn digit_of(d: u64) -> (c: char)
    requires
        d < 10,
    ensures
        c == digit_char(d as nat),
{
    if d == 0 {
        '0'
    } else if d == 1 {
        '1'
    } else if d == 2 {
        '2'
    } else if d == 3 {
        '3'
    } else if d == 4 {
        '4'
    } else if d == 5 {
        '5'
    } else if d == 6 {
        '6'
    } else if d == 7 {
        '7'
    } else if d == 8 {
        '8'
    } else {
        '9'
    }
}

/// Appends `n` in decimal to `out`.
pub fn push_decimal(out: &mut Vec<char>, n: u64)
    ensures
        final(out)@ == old(out)@ + decimal(n as nat),
    decreases n,
{
    if n < 10 {
        out.push(digit_of(n));
        assert(out@ =~= old(out)@ + decimal(n as nat));
    } else {
        push_decimal(out, n / 10);
        out.push(digit_of(n % 10));
        assert(out@ =~= old(out)@ + decimal(n as nat));
    }
}

impl Version {
    /// The pre-release and the build metadata hold only characters that a
    /// semantic version allows there.
    pub open spec fn wf(&self) -> bool {
        &&& is_identifier_text(self.pre@)
        &&& is_identifier_text(self.build@)
    }

    /// The release `major.minor.patch`.
    pub fn new(major: u64, minor: u64, patch: u64) -> (v: Version)
        ensures
            v@ == (VersionModel {
                major: major as nat,
                minor: minor as nat,
                patch: patch as nat,
                pre: Seq::empty(),
                build: Seq::empty(),
            }),
            v.wf(),
    {
        Version { major, minor, patch, pre: String::new(), build: String::new() }
    }

    /// The text of this version, as it stands in a manifest.
    pub fn to_text(&self) -> (out: String)
        ensures
            out@ == version_text(self@),
    {
        let mut out: Vec<char> = Vec::new();
        push_decimal(&mut out, self.major);
        out.push('.');
        push_decimal(&mut out, self.minor);
        out.push('.');
        push_decimal(&mut out, self.patch);
        let ghost numbers = out@;
        assert(numbers =~= decimal(self.major as nat) + seq!['.'] + decimal(self.minor as nat)
            + seq!['.'] + decimal(self.patch as nat));
        if !self.pre.as_str().is_empty() {
            out.push('-');
            push_str(&mut out, self.pre.as_str());
            assert(out@ =~= numbers + (seq!['-'] + self.pre@));
        } else {
            assert(out@ =~= numbers + Seq::<char>::empty());
        }
        let ghost with_pre = out@;
        if !self.build.as_str().is_empty() {
            out.push('+');
            push_str(&mut out, self.build.as_str());
            assert(out@ =~= with_pre + (seq!['+'] + self.build@));
        } else {
            assert(out@ =~= with_pre + Seq::<char>::empty());
        }
        string_of(&out)
    }

    /// Whether this version is at least the release `major.minor.patch`.
    pub fn at_least(&self, major: u64, minor: u64, patch: u64) -> (b: bool)
        ensures
            b == is_at_least(self@, major as nat, minor as nat, patch as nat),
    {
        if self.major != major {
            self.major > major
        } else if self.minor != minor {
            self.minor > minor
        } else if self.patch != patch {
            self.patch > patch
        } else {
            self.pre.as_str().is_empty()
        }
    }

    /// A copy of this version.
    pub fn duplicate(&self) -> (v: Version)
        ensures
            v@ == self@,
            v.wf() == self.wf(),
    {
        Version {
            major: self.major,
            minor: self.minor,
            patch: self.patch,
            pre: self.pre.clone(),
            build: self.build.clone(),
        }
    }
}

/// The decimal digits.
pub open spec fn is_digit(c: char) -> bool {
    '0' <= c <= '9'
}

/// The number that the decimal digit `c` stands for.
pub open spec fn digit_value(c: char) -> nat {
    if c == '0' {
        0
    } else if c == '1' {
        1
    } else if c == '2' {
        2
    } else if c == '3' {
        3
    } else if c == '4' {
        4
    } else if c == '5' {
        5
    } else if c == '6' {
        6
    } else if c == '7' {
        7
    } else if c == '8' {
        8
    } else {
        9
    }
}

/// The number that the decimal digits `s` stand for.
pub open spec fn decimal_value(s: Seq<char>) -> nat
    decreases s.len(),
{
    if s.len() == 0 {
        0
    } else {
        decimal_value(s.drop_last()) * 10 + digit_value(s.last())
    }
}

/// The decimal form of a number is made of digits, at least one, and stands
/// for that number; so two numbers with one decimal form are one number.
pub proof fn lemma_decimal(n: nat)
    ensures
        decimal(n).len() > 0,
        forall|i: int| 0 <= i < decimal(n).len() ==> is_digit(#[trigger] decimal(n)[i]),
        decimal_value(decimal(n)) == n,
    decreases n,
{
    if n < 10 {
        let s = decimal(n);
        assert(s.drop_last() =~= Seq::<char>::empty());
        assert(decimal_value(s.drop_last()) == 0);
        assert(s.last() == digit_char(n));
    } else {
        lemma_decimal(n / 10);
        let head = decimal(n / 10);
        let s = decimal(n);
        assert(s.drop_last() =~= head);
        assert(s.last() == digit_char(n % 10));
        assert forall|i: int| 0 <= i < s.len() implies is_digit(#[trigger] s[i]) by {
            if i < head.len() {
                assert(s[i] == head[i]);
            }
        }
    }
}

/// What follows the numbers in the text of a version.
pub open spec fn version_tail(pre: Seq<char>, build: Seq<char>) -> Seq<char> {
    pre_text(pre) + build_text(build)
}

/// The text of a version, part after part.
proof fn lemma_version_text_parts(v: VersionModel)
    ensures
        version_text(v) == decimal(v.major) + (seq!['.'] + (decimal(v.minor) + (seq!['.'] + (
        decimal(v.patch) + version_tail(v.pre, v.build))))),
{
    assert(version_text(v) =~= decimal(v.major) + (seq!['.'] + (decimal(v.minor) + (seq!['.'] + (
    decimal(v.patch) + version_tail(v.pre, v.build))))));
}

/// Two build metadata that the text of a version shows alike are alike.
proof fn lemma_build_text_is_injective(b1: Seq<char>, b2: Seq<char>)
    requires
        build_text(b1) == build_text(b2),
    ensures
        b1 == b2,
{
    if b1.len() > 0 {
        assert(build_text(b1).len() == b1.len() + 1);
        assert(b2.len() > 0);
        assert(b1 =~= build_text(b1).subrange(1, build_text(b1).len() as int));
        assert(b2 =~= build_text(b2).subrange(1, build_text(b2).len() as int));
    } else {
        assert(build_text(b1).len() == 0);
        if b2.len() > 0 {
            assert(build_text(b2).len() == b2.len() + 1);
        }
        assert(b1 =~= b2);
    }
}

/// Two pairs of pre-release and build metadata that the text of a version
/// shows alike are alike, provided the pre-releases are written with the
/// characters that a pre-release may hold.
proof fn lemma_version_tail_is_injective(
    pre1: Seq<char>,
    build1: Seq<char>,
    pre2: Seq<char>,
    build2: Seq<char>,
)
    requires
        is_identifier_text(pre1),
        is_identifier_text(pre2),
        version_tail(pre1, build1) == version_tail(pre2, build2),
    ensures
        pre1 == pre2,
        build1 == build2,
{
    let t1 = version_tail(pre1, build1);
    let t2 = version_tail(pre2, build2);
    let b1 = build_text(build1);
    let b2 = build_text(build2);
    assert(b1.len() > 0 ==> b1[0] == '+');
    assert(b2.len() > 0 ==> b2[0] == '+');
    if pre1.len() == 0 && pre2.len() == 0 {
        assert(t1 =~= b1);
        assert(t2 =~= b2);
        assert(pre1 =~= pre2);
    } else if pre1.len() == 0 {
        assert(t1 =~= b1);
        assert(t2[0] == '-');
        assert(t1.len() == t2.len());
        assert(false);
    } else if pre2.len() == 0 {
        assert(t2 =~= b2);
        assert(t1[0] == '-');
        assert(t1.len() == t2.len());
        assert(false);
    } else {
        assert(t1 =~= seq!['-'] + (pre1 + b1));
        assert(t2 =~= seq!['-'] + (pre2 + b2));
        assert(pre1 + b1 =~= t1.subrange(1, t1.len() as int));
        assert(pre2 + b2 =~= t2.subrange(1, t2.len() as int));
        lemma_split_is_unique(pre1, b1, pre2, b2, |c: char| is_identifier_char(c));
    }
    lemma_build_text_is_injective(build1, build2);
}

/// Different versions are written differently: two versions with one text are
/// one version, provided their pre-releases are written with the characters
/// that a pre-release may hold.
pub proof fn lemma_version_text_is_injective(v1: VersionModel, v2: VersionModel)
    requires
        is_identifier_text(v1.pre),
        is_identifier_text(v2.pre),
        version_text(v1) == version_text(v2),
    ensures
        v1 == v2,
{
    lemma_version_text_parts(v1);
    lemma_version_text_parts(v2);
    lemma_decimal(v1.major);
    lemma_decimal(v1.minor);
    lemma_decimal(v1.patch);
    lemma_decimal(v2.major);
    lemma_decimal(v2.minor);
    lemma_decimal(v2.patch);
    let digit = |c: char| is_digit(c);
    let dot = seq!['.'];
    let tail1 = version_tail(v1.pre, v1.build);
    let tail2 = version_tail(v2.pre, v2.build);
    let patch1 = decimal(v1.patch) + tail1;
    let patch2 = decimal(v2.patch) + tail2;
    let minor1 = decimal(v1.minor) + (dot + patch1);
    let minor2 = decimal(v2.minor) + (dot + patch2);
    assert((dot + minor1)[0] == '.');
    assert((dot + minor2)[0] == '.');
    lemma_split_is_unique(decimal(v1.major), dot + minor1, decimal(v2.major), dot + minor2, digit);
    assert(minor1 =~= (dot + minor1).subrange(1, (dot + minor1).len() as int));
    assert(minor2 =~= (dot + minor2).subrange(1, (dot + minor2).len() as int));
    assert((dot + patch1)[0] == '.');
    assert((dot + patch2)[0] == '.');
    lemma_split_is_unique(decimal(v1.minor), dot + patch1, decimal(v2.minor), dot + patch2, digit);
    assert(patch1 =~= (dot + patch1).subrange(1, (dot + patch1).len() as int));
    assert(patch2 =~= (dot + patch2).subrange(1, (dot + patch2).len() as int));
    assert(tail1.len() > 0 ==> tail1[0] == '-' || tail1[0] == '+');
    assert(tail2.len() > 0 ==> tail2[0] == '-' || tail2[0] == '+');
    lemma_split_is_unique(decimal(v1.patch), tail1, decimal(v2.patch), tail2, digit);
    lemma_version_tail_is_injective(v1.pre, v1.build, v2.pre, v2.build);
    assert(v1.major == decimal_value(decimal(v1.major)));
    assert(v1.minor == decimal_value(decimal(v1.minor)));
    assert(v1.patch == decimal_value(decimal(v1.patch)));
}

} // verus!
