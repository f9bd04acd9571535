use uvenv::commands::self_version::{_compare_versions, is_latest, is_uvenv_outdated, red_or_green, uvenv_version};
use uvenv::pep440::{version_0, Version, VersionSpecifier};

#[test]
fn test_is_latest() {
    assert!(_compare_versions("1.2.3", "1.2.3"));
    assert!(_compare_versions("1.3.3", "1.2.3"));
    assert!(!_compare_versions("1.2.3", "1.3.3"));
}

#[test]
fn compare_is_by_number_not_by_text() {
    assert!(_compare_versions("1.10", "1.9"));
    assert!(!_compare_versions("1.9", "1.10"));
    assert!(_compare_versions("1.0.0", "1.0.0rc1"));
    assert!(!_compare_versions("1.0.0rc1", "1.0.0"));
}

#[test]
fn compare_counts_no_version_as_zero() {
    assert!(!_compare_versions("?", "1.2.3"));
    assert!(_compare_versions("1.2.3", "?"));
    assert!(_compare_versions("?", "0.0.0"));
}

#[test]
fn is_latest_needs_a_known_latest() {
    let latest = Version::parse("2.0").unwrap();
    assert!(!is_latest("1.0", None));
    assert!(!is_latest("1.0", Some(&latest)));
    assert!(is_latest("2.0", Some(&latest)));
    assert!(is_latest("2.0.0", Some(&latest)));
    assert!(is_latest("2.1", Some(&latest)));
}

#[test]
fn own_version_is_a_version() {
    assert!(Version::parse(uvenv_version()).is_some());
    let far = Version::parse("9999.0").unwrap();
    assert!(is_uvenv_outdated(Some(&far)));
    assert!(is_uvenv_outdated(None));
    let old = Version::parse("0.1").unwrap();
    assert!(!is_uvenv_outdated(Some(&old)));
}

#[test]
fn version_parse_accepts_and_refuses() {
    assert!(Version::parse("1.19").is_some());
    assert!(Version::parse("1!2012.2").is_some());
    assert!(Version::parse("1.0+abc.5").is_some());
    assert!(Version::parse("").is_none());
    assert!(Version::parse("not a version").is_none());
    assert_eq!(Version::parse("1.0a1").unwrap().to_string(), "1.0a1");
    assert_eq!(Version::parse("1.0a1").unwrap().as_str(), "1.0a1");
}

#[test]
fn version_zero_is_zero() {
    assert_eq!(version_0().as_str(), "0.0.0");
    assert_eq!(Version::zero().as_str(), "0.0.0");
    assert_eq!(Version::parse_or_zero("nonsense").as_str(), "0.0.0");
    assert_eq!(Version::parse_or_zero("4.5").as_str(), "4.5");
}

#[test]
fn version_order_and_prerelease() {
    let a = Version::parse("1.0.dev456").unwrap();
    let b = Version::parse("1.0a1").unwrap();
    let c = Version::parse("1.0").unwrap();
    let d = Version::parse("1.0.post456").unwrap();
    assert!(a.le(&b) && b.le(&c) && c.le(&d));
    assert!(!d.le(&c));
    assert!(d.gt(&c));
    assert!(!c.gt(&c));
    assert!(c.le(&c));
    assert!(a.any_prerelease());
    assert!(b.any_prerelease());
    assert!(!c.any_prerelease());
    assert!(!d.any_prerelease());
    assert_eq!(c.clone(), c);
}

#[test]
fn specifier_parse_and_contains() {
    let spec = VersionSpecifier::parse("== 1.*").unwrap();
    assert!(spec.contains(&Version::parse("1.19").unwrap()));
    assert!(!spec.contains(&Version::parse("2.0").unwrap()));
    let at_least = VersionSpecifier::parse(">=2.1").unwrap();
    assert!(at_least.contains(&Version::parse("2.1").unwrap()));
    assert!(!at_least.contains(&Version::parse("2.0.9").unwrap()));
    assert_eq!(at_least.as_str(), ">=2.1");
    assert_eq!(at_least.clone(), at_least);
    assert!(VersionSpecifier::parse("1.0").is_none());
    assert!(VersionSpecifier::parse(">=1,<2").is_none());
    assert!(VersionSpecifier::parse("").is_none());
}

#[test]
fn red_or_green_colours() {
    assert_eq!(red_or_green("1.0", true), "\x1b[32m1.0\x1b[39m");
    assert_eq!(red_or_green("1.0", false), "\x1b[31m1.0\x1b[39m");
}
