use gwf::choice::{offered_version, tag_choice, tag_message, TagChoice, DEFAULT_TAG_CHOICE};
use gwf::version::{keyword_bump_of, latest_version, release_version, Bump, Version};
use gwf::workflow::tag_name;

fn names(v: &[&str]) -> Vec<String> {
    v.iter().map(|s| s.to_string()).collect()
}

#[test]
fn bump_components() {
    let v = Version::parse("1.2.3").unwrap();
    assert_eq!(v.bump(Bump::Major).to_text(), "2.0.0");
    assert_eq!(v.bump(Bump::Minor).to_text(), "1.3.0");
    assert_eq!(v.bump(Bump::Patch).to_text(), "1.2.4");
    assert!(v.bump(Bump::Major).is_newer_than(&v));
    assert!(!v.is_newer_than(&v.bump(Bump::Patch)));
}

#[test]
fn latest_tag_and_patch_offer() {
    let latest = latest_version(&names(&["v1.0.0", "v1.1.0"]));
    assert_eq!(latest.to_text(), "1.1.0");
    assert_eq!(tag_choice(DEFAULT_TAG_CHOICE), TagChoice::Bump(Bump::Patch));
    let offered = offered_version(&latest, Bump::Patch).unwrap();
    assert_eq!(offered.to_text(), "1.1.1");
    assert_eq!(tag_name(&offered), "v1.1.1");
    assert_eq!(tag_message(&offered), "Release 1.1.1");
}

#[test]
fn latest_of_no_tags_is_initial() {
    assert_eq!(latest_version(&Vec::new()).to_text(), "0.1.0");
    assert_eq!(latest_version(&names(&["nightly", "junk"])).to_text(), "0.1.0");
}

#[test]
fn latest_below_initial_version() {
    assert_eq!(latest_version(&names(&["v0.0.1"])).to_text(), "0.0.1");
    assert_eq!(latest_version(&names(&["nightly", "v0.0.9", "v0.0.3"])).to_text(), "0.0.9");
}

#[test]
fn latest_reads_references_and_skips_junk() {
    let tags = names(&["refs/tags/v2.0.0", "junk", "v1.9.9", "refs/tags/vv2.0.1"]);
    assert_eq!(latest_version(&tags).to_text(), "2.0.1");
}

#[test]
fn prerelease_orders_below_release() {
    assert_eq!(latest_version(&names(&["v1.0.0", "v1.0.0-rc.1"])).to_text(), "1.0.0");
    assert_eq!(latest_version(&names(&["v1.0.0-rc.1", "v1.0.0"])).to_text(), "1.0.0");
    assert_eq!(latest_version(&names(&["v1.0.0-alpha", "v1.0.0-beta"])).to_text(), "1.0.0-beta");
    assert_eq!(latest_version(&names(&["v1.0.0-rc.2", "v1.0.0-rc.10"])).to_text(), "1.0.0-rc.10");
    assert_eq!(latest_version(&names(&["v1.0.0+b", "v1.0.0+a"])).to_text(), "1.0.0+b");
    assert_eq!(latest_version(&names(&["v1.0.0+a", "v1.0.0+b"])).to_text(), "1.0.0+b");
}

#[test]
fn parse_and_render_full_version() {
    let v = Version::parse("1.2.3-rc.1+build.5").unwrap();
    assert_eq!((v.major, v.minor, v.patch), (1, 2, 3));
    assert_eq!(v.pre, "rc.1");
    assert_eq!(v.build, "build.5");
    assert_eq!(v.to_text(), "1.2.3-rc.1+build.5");
    assert!(Version::parse("1.2").is_none());
    assert!(Version::parse("v1.2.3").is_none());
    assert_eq!(Version::new(10, 0, 42).to_text(), "10.0.42");
}

#[test]
fn release_versions() {
    assert_eq!(release_version("major", "v1.2.3\n").as_deref(), Some("2.0.0"));
    assert_eq!(release_version("minor", "  vv1.4.9 ").as_deref(), Some("1.5.0"));
    assert_eq!(release_version("patch", "v1.4.9").as_deref(), Some("1.4.10"));
    assert_eq!(release_version("patch", "fatal: no names found").as_deref(), Some("0.1.0"));
    assert_eq!(release_version("2.5.0", "v1.0.0").as_deref(), Some("2.5.0"));
    assert_eq!(release_version("major", "18446744073709551615.0.0"), None);
}

#[test]
fn bump_keywords() {
    assert_eq!(keyword_bump_of("major"), Some(Bump::Major));
    assert_eq!(keyword_bump_of("minor"), Some(Bump::Minor));
    assert_eq!(keyword_bump_of("patch"), Some(Bump::Patch));
    assert_eq!(keyword_bump_of("Patch"), None);
    let top = Version::new(u64::MAX, 0, 0);
    assert!(!top.can_bump(Bump::Major));
    assert!(top.can_bump(Bump::Minor));
    assert!(offered_version(&top, Bump::Major).is_none());
}
