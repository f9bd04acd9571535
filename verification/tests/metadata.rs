use uvenv::metadata::{LoadMetadataConfig, Metadata, PythonInfo};
use uvenv::names::NameSet;
use uvenv::pep440::Version;

fn strings(items: &[&str]) -> Vec<String> {
    items.iter().map(|s| s.to_string()).collect()
}

fn python() -> PythonInfo {
    PythonInfo {
        implementation: "CPython".to_string(),
        version: "3.12.4".to_string(),
        stdlib: "/usr/lib/python3.12".to_string(),
    }
}

fn sample() -> Metadata {
    let mut m = Metadata::new("httpie");
    m.install_spec = "httpie[socks]==3.2.2".to_string();
    m.requested_version = "==3.2.2".to_string();
    m.installed_version = "3.2.2".to_string();
    m.extras.insert("socks".to_string());
    m.injected.extend(&strings(&["requests-toolbelt", "attrs"]));
    m.scripts.insert("https".to_string(), false);
    m.scripts.insert("http".to_string(), true);
    m.fill_python(&python());
    m
}

#[test]
fn new_record_holds_the_name_and_defaults() {
    let m = Metadata::new("cowsay");
    assert_eq!(m.name, "cowsay");
    assert_eq!(m.install_spec, "");
    assert!(m.scripts.is_empty());
    assert!(m.extras.is_empty());
    assert!(m.injected.is_empty());
    assert_eq!(m.requested_version, "");
    assert_eq!(m.installed_version, "");
    assert_eq!(m.python, "");
    assert_eq!(m.python_raw, "");
    assert!(!m.editable);
    assert_eq!(m.available_version, "");
    assert!(!m.outdated);
}

#[test]
fn fill_python_only_fills_what_is_empty() {
    let mut m = Metadata::new("cowsay");
    m.fill_python(&python());
    assert_eq!(m.python, "CPython 3.12.4");
    assert_eq!(m.python_raw, "/usr/lib/python3.12");
    let other = PythonInfo {
        implementation: "PyPy".to_string(),
        version: "7.3".to_string(),
        stdlib: "/opt/pypy".to_string(),
    };
    m.fill_python(&other);
    assert_eq!(m.python, "CPython 3.12.4");
    assert_eq!(m.python_raw, "/usr/lib/python3.12");
}

#[test]
fn fill_defaults_the_install_spec() {
    let mut m = Metadata::new("cowsay");
    m.install_spec = String::new();
    assert_eq!(m.fill(None), None);
    assert_eq!(m.install_spec, "cowsay");
    assert_eq!(m.python, "");
    assert_eq!(m.fill(Some(&python())), Some(()));
    assert_eq!(m.python, "CPython 3.12.4");
    m.install_spec = "cowsay==6.1".to_string();
    let _ = m.fill(None);
    assert_eq!(m.install_spec, "cowsay==6.1");
}

#[test]
fn find_builds_a_record_from_what_is_known() {
    let m = Metadata::find("cowsay", Some("6.1".to_string()), Some(&python()));
    assert_eq!(m.name, "cowsay");
    assert_eq!(m.install_spec, "cowsay");
    assert_eq!(m.installed_version, "6.1");
    assert_eq!(m.python, "CPython 3.12.4");
    let bare = Metadata::find("cowsay", None, None);
    assert_eq!(bare.installed_version, "");
    assert_eq!(bare.python, "");
    assert_eq!(bare.install_spec, "cowsay");
    let mut expected = Metadata::new("cowsay");
    expected.install_spec = "cowsay".to_string();
    assert_eq!(bare, expected);
}

#[test]
fn parsed_versions_fall_back_to_zero() {
    let mut m = Metadata::new("cowsay");
    assert_eq!(m.installed_version_parsed().as_str(), "0.0.0");
    assert_eq!(m.requested_version_parsed().as_str(), "0.0.0");
    m.installed_version = "6.1".to_string();
    m.requested_version = "==6.1".to_string();
    assert_eq!(m.installed_version_parsed().as_str(), "6.1");
    assert_eq!(m.requested_version_parsed().as_str(), "0.0.0");
}

#[test]
fn update_constraint_follows_the_record() {
    let mut m = Metadata::new("black");
    assert!(m.update_constraint(false).is_none());
    m.requested_version = "==24.1.0".to_string();
    assert_eq!(m.update_constraint(false).unwrap().as_str(), "==24.1.0");
    assert!(m.update_constraint(true).is_none());
    m.requested_version = ">=1,<2".to_string();
    assert!(m.update_constraint(false).is_none());
}

#[test]
fn check_for_update_sets_available_and_outdated() {
    let mut m = Metadata::new("black");
    m.installed_version = "24.1.0".to_string();
    let newer = Version::parse("24.2.0").unwrap();
    m.check_for_update(Some(&newer));
    assert_eq!(m.available_version, "24.2.0");
    assert!(m.outdated);
    let same = Version::parse("24.1.0").unwrap();
    m.check_for_update(Some(&same));
    assert_eq!(m.available_version, "24.1.0");
    assert!(!m.outdated);
    let before = m.clone();
    m.check_for_update(None);
    assert_eq!(m, before);
}

#[test]
fn check_for_update_compares_by_number() {
    let mut m = Metadata::new("tool");
    m.installed_version = "1.9".to_string();
    m.check_for_update(Some(&Version::parse("1.10").unwrap()));
    assert!(m.outdated);
    m.installed_version = "1.10".to_string();
    m.check_for_update(Some(&Version::parse("1.9").unwrap()));
    assert!(!m.outdated);
    m.installed_version = String::new();
    m.check_for_update(Some(&Version::parse("0.0.1").unwrap()));
    assert!(m.outdated);
}

#[test]
fn check_scripts_sets_each_flag() {
    let mut m = sample();
    let valid = NameSet::from_vec(&strings(&["https", "other"]));
    m.check_scripts(&valid);
    assert_eq!(m.scripts.get("http"), Some(false));
    assert_eq!(m.scripts.get("https"), Some(true));
    assert_eq!(m.scripts.len(), 2);
    assert_eq!(m.invalid_scripts(), strings(&["http"]));
    m.check_scripts(&NameSet::new());
    assert_eq!(m.invalid_scripts(), strings(&["http", "https"]));
}

#[test]
fn invalid_scripts_lists_false_flags() {
    let m = sample();
    assert_eq!(m.invalid_scripts(), strings(&["https"]));
    assert!(Metadata::new("x").invalid_scripts().is_empty());
}

#[test]
fn vec_views_are_sorted() {
    let m = sample();
    assert_eq!(m.vec_injected(), strings(&["attrs", "requests-toolbelt"]));
    assert_eq!(m.vec_extras(), strings(&["socks"]));
}

#[test]
fn format_installed_version_colours() {
    let mut m = sample();
    assert_eq!(m.format_installed_version(), "\x1b[36m3.2.2\x1b[39m");
    m.outdated = true;
    assert_eq!(m.format_installed_version(), "\x1b[31m3.2.2\x1b[39m");
}

#[test]
fn format_short_is_one_line() {
    let m = sample();
    assert_eq!(m.format_short(), "- httpie \x1b[36m3.2.2\x1b[39m");
}

#[test]
fn format_sets() {
    let m = sample();
    assert_eq!(m.format_extras(), "'\x1b[32msocks\x1b[39m'");
    assert_eq!(
        m.format_injected(),
        "'\x1b[32mattrs\x1b[39m', '\x1b[32mrequests-toolbelt\x1b[39m'"
    );
    assert_eq!(Metadata::new("x").format_extras(), "");
}

#[test]
fn format_human_full() {
    let mut m = sample();
    m.editable = true;
    m.outdated = true;
    m.available_version = "3.2.4".to_string();
    let expected = [
        "- httpie['\x1b[32msocks\x1b[39m'] \x1b[36m==3.2.2\x1b[39m \x1b[33m--editable\x1b[39m\n",
        "    Installed Version: \x1b[31m3.2.2\x1b[39m on \x1b[94mCPython 3.12.4\x1b[39m.\n",
        "    Available Version: \x1b[32m3.2.4\x1b[39m.\n",
        "    Injected Packages: '\x1b[32mattrs\x1b[39m', '\x1b[32mrequests-toolbelt\x1b[39m'\n",
        "    Scripts: \x1b[32mhttp\x1b[39m | \x1b[31mhttps\x1b[39m\n",
    ]
    .join("");
    assert_eq!(m.format_human(), expected);
}

#[test]
fn format_human_minimal() {
    let m = Metadata::new("cowsay");
    let expected = [
        "- cowsay\n",
        "    Installed Version: \x1b[36m\x1b[39m on \x1b[94m\x1b[39m.\n",
        "    Scripts: \n",
    ]
    .join("");
    assert_eq!(m.format_human(), expected);
}

#[test]
fn format_human_hides_available_unless_outdated() {
    let mut m = Metadata::new("cowsay");
    m.available_version = "6.1".to_string();
    assert!(!m.format_human().contains("Available Version"));
    m.outdated = true;
    assert!(m.format_human().contains("Available Version"));
    m.available_version = String::new();
    assert!(!m.format_human().contains("Available Version"));
}

#[test]
fn load_config_presets() {
    let all = LoadMetadataConfig::all();
    assert!(all.recheck_scripts && all.updates_check && all.updates_prereleases && all.updates_ignore_constraints);
    let none = LoadMetadataConfig::none();
    assert!(!none.recheck_scripts && !none.updates_check && !none.updates_prereleases && !none.updates_ignore_constraints);
    let default = LoadMetadataConfig::default();
    assert!(default.recheck_scripts && default.updates_check);
    assert!(!default.updates_prereleases && !default.updates_ignore_constraints);
}

#[test]
fn check_symlinks_follows_what_was_found() {
    let mut m = sample();
    let observed = vec![
        uvenv::symlinks::LinkObservation {
            name: "http".to_string(),
            is_symlink: true,
            target: Some("/elsewhere/bin/http".to_string()),
        },
        uvenv::symlinks::LinkObservation {
            name: "https".to_string(),
            is_symlink: true,
            target: Some("/w/venvs/httpie/bin/https".to_string()),
        },
        uvenv::symlinks::LinkObservation {
            name: "unrelated".to_string(),
            is_symlink: true,
            target: Some("/w/venvs/httpie/bin/unrelated".to_string()),
        },
    ];
    m.check_symlinks("/w/venvs/httpie", &observed);
    assert_eq!(m.scripts.get("http"), Some(false));
    assert_eq!(m.scripts.get("https"), Some(true));
    assert_eq!(m.scripts.get("unrelated"), None);
    let not_a_link = vec![uvenv::symlinks::LinkObservation {
        name: "https".to_string(),
        is_symlink: false,
        target: Some("/w/venvs/httpie/bin/https".to_string()),
    }];
    m.check_symlinks("/w/venvs/httpie", &not_a_link);
    assert_eq!(m.invalid_scripts(), strings(&["http", "https"]));
    assert_eq!(
        uvenv::symlinks::valid_links(&observed, "/w/venvs/httpie").to_vec(),
        strings(&["https", "unrelated"])
    );
}
