use plugin_repository::error::GitError;
use plugin_repository::releaser::VersionType;
use plugin_repository::tags::GitTags;
use plugin_repository::version::{increment_patch, resolve_version, SemanticVersion, VersionBump};

#[test]
fn test_version_increment_major() {
    let v = VersionType::Major.increment("1.2.3").unwrap();
    assert_eq!(v, "2.0.0");
}

#[test]
fn test_version_increment_minor() {
    let v = VersionType::Minor.increment("1.2.3").unwrap();
    assert_eq!(v, "1.3.0");
}

#[test]
fn test_version_increment_patch() {
    let v = VersionType::Patch.increment("1.2.3").unwrap();
    assert_eq!(v, "1.2.4");
}

#[test]
fn test_version_increment_prerelease() {
    let v = VersionType::PreRelease.increment("1.2.3").unwrap();
    assert!(v.starts_with("1.2.3-"));
}

#[test]
fn prerelease_is_alpha_one_and_keeps_build() {
    assert_eq!(VersionType::PreRelease.increment("1.2.3").unwrap(), "1.2.3-alpha.1");
    assert_eq!(VersionType::PreRelease.increment("1.2.3-rc.2+b5").unwrap(), "1.2.3-alpha.1+b5");
}

#[test]
fn increment_reads_what_is_no_version_leniently() {
    assert_eq!(VersionType::Patch.increment("1.2").unwrap(), "1.2.1");
    assert_eq!(VersionType::Minor.increment("1.2").unwrap(), "1.3.0");
    assert_eq!(VersionType::Major.increment("1.2").unwrap(), "2.0.0");
    assert_eq!(VersionType::Patch.increment("4").unwrap(), "4.0.1");
    assert_eq!(VersionType::Patch.increment("1.x.7").unwrap(), "1.0.8");
    assert_eq!(VersionType::Patch.increment("v1.2.3").unwrap(), "1.2.4");
    assert_eq!(VersionType::Minor.increment("").unwrap(), "1.1.0");
    assert_eq!(VersionType::PreRelease.increment("1.2").unwrap(), "1.2.0-alpha.1");
    assert_eq!(VersionType::Major.increment("not a version").unwrap(), "2.0.0");
}

#[test]
fn increment_keeps_suffixes() {
    assert_eq!(VersionType::Major.increment("1.2.3-beta+b7").unwrap(), "2.0.0-beta+b7");
    assert_eq!(VersionType::Minor.increment("0.9.9+x").unwrap(), "0.10.0+x");
}

#[test]
fn resolver_applies_each_bump() {
    assert_eq!(resolve_version("1.2.3", &VersionBump::Major), "2.0.0");
    assert_eq!(resolve_version("1.2.3", &VersionBump::Minor), "1.3.0");
    assert_eq!(resolve_version("1.2.3", &VersionBump::Patch), "1.2.4");
    assert_eq!(resolve_version("1.2.3", &VersionBump::Custom("9.9.9".to_string())), "9.9.9");
}

#[test]
fn custom_version_ignores_the_current_one() {
    let custom = VersionBump::Custom("9.9.9".to_string());
    assert_eq!(resolve_version("", &custom), "9.9.9");
    assert_eq!(resolve_version("not a version", &custom), "9.9.9");
    assert_eq!(resolve_version("1.0.0", &VersionBump::Custom("".to_string())), "");
}

#[test]
fn resolver_reads_malformed_versions_leniently() {
    assert_eq!(resolve_version("1.2", &VersionBump::Patch), "1.2.1");
    assert_eq!(resolve_version("1.2", &VersionBump::Minor), "1.3.0");
    assert_eq!(resolve_version("1.2", &VersionBump::Major), "2.0.0");
    assert_eq!(resolve_version("7", &VersionBump::Minor), "7.1.0");
    assert_eq!(resolve_version("7", &VersionBump::Patch), "7.0.1");
    assert_eq!(resolve_version("abc", &VersionBump::Major), "2.0.0");
    assert_eq!(resolve_version("abc", &VersionBump::Patch), "1.0.1");
    assert_eq!(resolve_version("", &VersionBump::Patch), "1.0.1");
    assert_eq!(resolve_version("v1.2.3", &VersionBump::Patch), "1.2.4");
    assert_eq!(resolve_version("1.x.3", &VersionBump::Minor), "1.1.0");
    assert_eq!(resolve_version("1.2.3.4", &VersionBump::Minor), "1.3.0");
    assert_eq!(resolve_version("01.2.3", &VersionBump::Patch), "1.2.4");
}

#[test]
fn resolver_keeps_suffixes_of_semantic_versions() {
    assert_eq!(resolve_version("1.2.3-beta.1", &VersionBump::Major), "2.0.0-beta.1");
    assert_eq!(resolve_version("1.2.3-beta+b7", &VersionBump::Patch), "1.2.4-beta+b7");
}

#[test]
fn resolver_does_not_overflow() {
    assert_eq!(
        resolve_version("18446744073709551615.0.0", &VersionBump::Major),
        "18446744073709551616.0.0"
    );
    assert_eq!(resolve_version("4294967295", &VersionBump::Major), "4294967296.0.0");
    assert_eq!(resolve_version("4294967296", &VersionBump::Major), "2.0.0");
}

#[test]
fn semantic_version_is_written_with_its_suffixes() {
    assert_eq!(SemanticVersion::new(1, 2, 3).to_string(), "1.2.3");
    let full = SemanticVersion {
        major: 10,
        minor: 0,
        patch: 7,
        prerelease: Some("rc.1".to_string()),
        build: Some("b5".to_string()),
    };
    assert_eq!(full.to_string(), "10.0.7-rc.1+b5");
    let build_only = SemanticVersion {
        major: 0,
        minor: 0,
        patch: 0,
        prerelease: None,
        build: Some("x".to_string()),
    };
    assert_eq!(build_only.to_string(), "0.0.0+x");
}

#[test]
fn semantic_version_is_read_strictly() {
    let v = SemanticVersion::from_string("1.2.3-rc.1+build.5").unwrap();
    assert_eq!((v.major, v.minor, v.patch), (1, 2, 3));
    assert_eq!(v.prerelease, Some("rc.1".to_string()));
    assert_eq!(v.build, Some("build.5".to_string()));
    let plain = SemanticVersion::from_string("4.5.6").unwrap();
    assert_eq!(plain.prerelease, None);
    assert_eq!(plain.build, None);
    assert!(matches!(
        SemanticVersion::from_string("nope"),
        Err(GitError::InvalidVersionFormat { version }) if version == "nope"
    ));
}

#[test]
fn patch_increment_wants_three_numbers() {
    assert_eq!(increment_patch("1.2.3"), Some("1.2.4".to_string()));
    assert_eq!(increment_patch("0.0.4294967295"), Some("0.0.4294967296".to_string()));
    assert_eq!(increment_patch("+1.2.3"), Some("1.2.4".to_string()));
    assert_eq!(increment_patch("1.2"), None);
    assert_eq!(increment_patch("1.2.3.4"), None);
    assert_eq!(increment_patch("1.2.x"), None);
    assert_eq!(increment_patch("1..3"), None);
    assert_eq!(increment_patch("1.2.-3"), None);
    assert_eq!(GitTags::new("/tmp").increment_version("2.0.9"), Some("2.0.10".to_string()));
}
