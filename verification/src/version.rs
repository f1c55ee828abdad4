//! Semantic versions and the rule that turns a bump into the next version.
//!
//! Strict parsing is done by the `semver` crate; version strings that it
//! refuses are read leniently, segment by segment.

use vstd::prelude::*;
use crate::error::GitError;
use crate::number::{decimal_text, parse_decimal, parse_u32, push_decimal};
use crate::pattern::opt_text;
use crate::split::{split_on, split_text, texts};
use crate::text::{append_str, from_chars, to_chars};

verus! {

/// The error that `semver` reports for a string that is no semantic version.
#[verifier::external_type_specification]
#[verifier::external_body]
pub struct ExSemverError(semver::Error);

/// The parts of the semantic version that `text` writes: major, minor,
/// patch, pre-release and build metadata (each empty when absent); `None`
/// when `text` is not a semantic version.
pub uninterp spec fn semver_parts(text: Seq<char>) -> Option<
    (u64, u64, u64, Seq<char>, Seq<char>),
>;

/// `semver::Version::parse`, with the fields of the parsed version handed
/// out as plain values. The result is the named one; nothing else is claimed
/// of it.
#[verifier::external_body]
pub(crate) fn parse_semver(text: &str) -> (r: Result<
    (u64, u64, u64, String, String),
    semver::Error,
>)
    ensures
        match r {
            Ok(p) => semver_parts(text@) == Some((p.0, p.1, p.2, p.3@, p.4@)),
            Err(_) => semver_parts(text@) is None,
        },
{
    semver::Version::parse(text).map(
        |v| (v.major, v.minor, v.patch, v.pre.as_str().to_string(), v.build.as_str().to_string()),
    )
}

/// How far the next version moves from the current one.
#[derive(Debug, Clone)]
pub enum VersionBump {
    Patch,
    Minor,
    Major,
    Custom(String),
}

/// A semantic version.
#[derive(Debug, Clone)]
pub struct SemanticVersion {
    pub major: u32,
    pub minor: u32,
    pub patch: u32,
    pub prerelease: Option<String>,
    pub build: Option<String>,
}

/// `major.minor.patch` in decimal.
pub open spec fn core_text(major: nat, minor: nat, patch: nat) -> Seq<char> {
    decimal_text(major) + "."@ + decimal_text(minor) + "."@ + decimal_text(patch)
}

/// `-` and the pre-release when there is one, then `+` and the build
/// metadata when there is some.
pub open spec fn suffix_text(pre: Option<Seq<char>>, build: Option<Seq<char>>) -> Seq<char> {
    (match pre {
        Some(p) => "-"@ + p,
        None => Seq::empty(),
    }) + (match build {
        Some(b) => "+"@ + b,
        None => Seq::empty(),
    })
}

/// `Some(s)` unless `s` is empty.
pub open spec fn non_empty(s: Seq<char>) -> Option<Seq<char>> {
    if s.len() == 0 {
        None
    } else {
        Some(s)
    }
}

/// The three numbers after a bump: major resets minor and patch, minor
/// resets patch. A custom bump leaves them alone.
pub open spec fn bumped(major: nat, minor: nat, patch: nat, bump: VersionBump) -> (nat, nat, nat) {
    match bump {
        VersionBump::Major => (major + 1, 0, 0),
        VersionBump::Minor => (major, minor + 1, 0),
        VersionBump::Patch => (major, minor, patch + 1),
        VersionBump::Custom(_) => (major, minor, patch),
    }
}

/// Segment `index` of a dotted version read leniently: `missing` when there
/// is no such segment, `unreadable` when it is not a 32-bit number.
pub open spec fn segment(parts: Seq<Seq<char>>, index: int, missing: nat, unreadable: nat) -> nat {
    if index < parts.len() {
        match parse_decimal(parts[index], u32::MAX as nat) {
            Some(v) => v,
            None => unreadable,
        }
    } else {
        missing
    }
}

/// Major, minor and patch of a malformed version string: its first three
/// dot-separated segments. A missing segment counts as 0; an unreadable
/// major counts as 1, an unreadable minor or patch as 0.
pub open spec fn lenient_parts(text: Seq<char>) -> (nat, nat, nat) {
    let parts = split_text(text, '.');
    (segment(parts, 0, 1, 1), segment(parts, 1, 0, 0), segment(parts, 2, 0, 0))
}

/// The version that follows `current` under `bump`. A custom bump names the
/// result itself. A semantic version keeps its pre-release and build
/// metadata; any other string is read leniently.
pub open spec fn next_version(current: Seq<char>, bump: VersionBump) -> Seq<char> {
    match bump {
        VersionBump::Custom(v) => v@,
        _ => match semver_parts(current) {
            Some(p) => {
                let (a, b, c) = bumped(p.0 as nat, p.1 as nat, p.2 as nat, bump);
                core_text(a, b, c) + suffix_text(non_empty(p.3), non_empty(p.4))
            },
            None => {
                let l = lenient_parts(current);
                let (a, b, c) = bumped(l.0, l.1, l.2, bump);
                core_text(a, b, c)
            },
        },
    }
}

/// The version after `version` with the patch number raised by one; `None`
/// unless `version` is three 32-bit numbers separated by dots.
pub open spec fn next_patch(version: Seq<char>) -> Option<Seq<char>> {
    let parts = split_text(version, '.');
    if parts.len() == 3 {
        match (
            parse_decimal(parts[0], u32::MAX as nat),
            parse_decimal(parts[1], u32::MAX as nat),
            parse_decimal(parts[2], u32::MAX as nat),
        ) {
            (Some(a), Some(b), Some(c)) => Some(core_text(a, b, c + 1)),
            _ => None,
        }
    } else {
        None
    }
}

/// Appends `major.minor.patch` to `out`.
pub fn push_core(out: &mut Vec<char>, major: u128, minor: u128, patch: u128)
    ensures
        final(out)@ == old(out)@ + core_text(major as nat, minor as nat, patch as nat),
{
    push_decimal(out, major);
    append_str(out, ".");
    push_decimal(out, minor);
    append_str(out, ".");
    push_decimal(out, patch);
    assert(out@ =~= old(out)@ + core_text(major as nat, minor as nat, patch as nat));
}

/// Reads segment `index` of a dotted version leniently.
pub fn read_segment(parts: &Vec<Vec<char>>, index: usize, missing: u32, unreadable: u32) -> (r: u32)
    ensures
        r == segment(texts(parts@), index as int, missing as nat, unreadable as nat),
{
    if index < parts.len() {
        assert(texts(parts@)[index as int] == parts@[index as int]@);
        match parse_u32(&parts[index]) {
            Some(v) => v,
            None => unreadable,
        }
    } else {
        missing
    }
}

/// Reads the three numbers of a dotted version leniently.
pub fn read_lenient(text: &str) -> (r: (u32, u32, u32))
    ensures
        (r.0 as nat, r.1 as nat, r.2 as nat) == lenient_parts(text@),
{
    let chars = to_chars(text);
    let parts = split_on(&chars, '.');
    (read_segment(&parts, 0, 1, 1), read_segment(&parts, 1, 0, 0), read_segment(&parts, 2, 0, 0))
}

/// The three numbers after a bump.
pub fn apply_bump(major: u64, minor: u64, patch: u64, bump: &VersionBump) -> (r: (u128, u128, u128))
    ensures
        (r.0 as nat, r.1 as nat, r.2 as nat) == bumped(
            major as nat,
            minor as nat,
            patch as nat,
            *bump,
        ),
{
    match bump {
        VersionBump::Major => (major as u128 + 1, 0, 0),
        VersionBump::Minor => (major as u128, minor as u128 + 1, 0),
        VersionBump::Patch => (major as u128, minor as u128, patch as u128 + 1),
        VersionBump::Custom(_) => (major as u128, minor as u128, patch as u128),
    }
}

/// Appends the pre-release and build suffix of a parsed semantic version.
pub fn push_suffix(out: &mut Vec<char>, pre: &str, build: &str)
    ensures
        final(out)@ == old(out)@ + suffix_text(non_empty(pre@), non_empty(build@)),
{
    if pre.unicode_len() > 0 {
        append_str(out, "-");
        append_str(out, pre);
    }
    if build.unicode_len() > 0 {
        append_str(out, "+");
        append_str(out, build);
    }
    assert(out@ =~= old(out)@ + suffix_text(non_empty(pre@), non_empty(build@)));
}

/// The version that follows `current` under `bump`. Never fails: a string
/// that is no semantic version is read leniently.
pub fn resolve_version(current: &str, bump: &VersionBump) -> (r: String)
    ensures
        r@ == next_version(current@, *bump),
        bump matches VersionBump::Custom(v) ==> r@ == v@,
{
    match bump {
        VersionBump::Custom(v) => v.clone(),
        _ => {
            let mut out: Vec<char> = Vec::new();
            match parse_semver(current) {
                Ok(p) => {
                    let (a, b, c) = apply_bump(p.0, p.1, p.2, bump);
                    push_core(&mut out, a, b, c);
                    push_suffix(&mut out, p.3.as_str(), p.4.as_str());
                },
                Err(_) => {
                    let (major, minor, patch) = read_lenient(current);
                    let (a, b, c) = apply_bump(major as u64, minor as u64, patch as u64, bump);
                    push_core(&mut out, a, b, c);
                },
            }
            from_chars(&out)
        },
    }
}

/// The version after `version` with the patch number raised by one.
pub fn increment_patch(version: &str) -> (r: Option<String>)
    ensures
        opt_text(r) == next_patch(version@),
{
    let chars = to_chars(version);
    let parts = split_on(&chars, '.');
    if parts.len() != 3 {
        return None;
    }
    assert(texts(parts@)[0] == parts@[0]@);
    assert(texts(parts@)[1] == parts@[1]@);
    assert(texts(parts@)[2] == parts@[2]@);
    match (parse_u32(&parts[0]), parse_u32(&parts[1]), parse_u32(&parts[2])) {
        (Some(a), Some(b), Some(c)) => {
            let mut out: Vec<char> = Vec::new();
            push_core(&mut out, a as u128, b as u128, c as u128 + 1);
            Some(from_chars(&out))
        },
        _ => None,
    }
}

impl SemanticVersion {
    /// The version `major.minor.patch`, without pre-release or build.
    pub fn new(major: u32, minor: u32, patch: u32) -> (r: Self)
        ensures
            r.major == major,
            r.minor == minor,
            r.patch == patch,
            r.prerelease is None,
            r.build is None,
    {
        SemanticVersion { major, minor, patch, prerelease: None, build: None }
    }

    /// Reads a semantic version. The numbers are kept in 32 bits.
    pub fn from_string(version: &str) -> (r: Result<Self, GitError>)
        ensures
            match semver_parts(version@) {
                Some(p) => r matches Ok(v) && v.major == p.0 as u32 && v.minor == p.1 as u32
                    && v.patch == p.2 as u32 && opt_text(v.prerelease) == non_empty(p.3)
                    && opt_text(v.build) == non_empty(p.4),
                None => r matches Err(GitError::InvalidVersionFormat { version: text }) && text@
                    == version@,
            },
    {
        match parse_semver(version) {
            Ok(p) => {
                let (major, minor, patch, pre, build) = p;
                Ok(
                    SemanticVersion {
                        major: #[verifier::truncate]
                        (major as u32),
                        minor: #[verifier::truncate]
                        (minor as u32),
                        patch: #[verifier::truncate]
                        (patch as u32),
                        prerelease: if pre.as_str().unicode_len() == 0 {
                            None
                        } else {
                            Some(pre)
                        },
                        build: if build.as_str().unicode_len() == 0 {
                            None
                        } else {
                            Some(build)
                        },
                    },
                )
            },
            Err(_) => Err(GitError::InvalidVersionFormat { version: version.to_owned() }),
        }
    }

    /// The version as text: `major.minor.patch`, then `-` and the
    /// pre-release, then `+` and the build metadata.
    pub fn to_string(&self) -> (r: String)
        ensures
            r@ == core_text(self.major as nat, self.minor as nat, self.patch as nat) + suffix_text(
                opt_text(self.prerelease),
                opt_text(self.build),
            ),
    {
        let mut out: Vec<char> = Vec::new();
        push_core(&mut out, self.major as u128, self.minor as u128, self.patch as u128);
        match &self.prerelease {
            Some(p) => {
                append_str(&mut out, "-");
                append_str(&mut out, p.as_str());
            },
            None => {},
        }
        match &self.build {
            Some(b) => {
                append_str(&mut out, "+");
                append_str(&mut out, b.as_str());
            },
            None => {},
        }
        assert(out@ =~= core_text(self.major as nat, self.minor as nat, self.patch as nat)
            + suffix_text(opt_text(self.prerelease), opt_text(self.build)));
        from_chars(&out)
    }
}

} // verus!
