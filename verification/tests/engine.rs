use uvenv::commands::all::{handle_promises, summarize, Bulk};
use uvenv::commands::create::{create, created};
use uvenv::commands::inject::{inject_package, injected, injecting, record_injected};
use uvenv::commands::install::{
    _install_package, ensure_venv, install_package, install_symlinks, installed, installing,
    store_metadata, InstallStep, VenvSource,
};
use uvenv::commands::reinstall::{reinstall, ReinstallPlan};
use uvenv::commands::run::{_find_executable, find_executable, run_package, temp_prefix, RunStep};
use uvenv::commands::uninject::{eject_package, ejected, record_ejected};
use uvenv::commands::uninstall::{exit_code, removed, uninstall_package, UninstallPlan};
use uvenv::commands::upgrade::{_upgrade_package, build_msg, update_metadata, upgrade_extras};
use uvenv::error::Error;
use uvenv::metadata::{Metadata, PythonInfo};
use uvenv::requirement::{parse_requirement, Parsed, Requirement};
use uvenv::venv::Environment;

fn strings(items: &[&str]) -> Vec<String> {
    items.iter().map(|s| s.to_string()).collect()
}

fn requirement(spec: &str) -> Requirement {
    match parse_requirement(spec) {
        Parsed::Standard(r, text) => {
            assert_eq!(text, spec);
            r
        }
        other => panic!("{spec} is a requirement, not {other:?}"),
    }
}

fn environment() -> Environment {
    Environment {
        root: "/w/venvs/cowsay".to_string(),
        scripts: "/w/venvs/cowsay/bin".to_string(),
        purelib: "/w/venvs/cowsay/lib/python3.12/site-packages".to_string(),
        python: PythonInfo {
            implementation: "CPython".to_string(),
            version: "3.12.4".to_string(),
            stdlib: "/usr/lib/python3.12".to_string(),
        },
    }
}

#[test]
fn install_args_in_order() {
    assert_eq!(
        _install_package("cowsay==6.1", &strings(&[]), false, false, false),
        strings(&["pip", "install", "cowsay==6.1"])
    );
    assert_eq!(
        _install_package("./proj", &strings(&["a", "b"]), true, false, true),
        strings(&["pip", "install", "a", "b", "--no-cache", "--editable", "./proj"])
    );
    assert_eq!(
        _install_package("x", &strings(&[]), false, true, false),
        strings(&["pip", "install", "--no-cache", "x"])
    );
    assert_eq!(installing("cowsay"), "installing cowsay");
}

#[test]
fn ensure_venv_wants_an_existing_one() {
    assert_eq!(ensure_venv(None, false), Ok(VenvSource::Create));
    assert_eq!(ensure_venv(None, true), Ok(VenvSource::Create));
    assert_eq!(ensure_venv(Some("/v"), true), Ok(VenvSource::Existing("/v".to_string())));
    assert_eq!(ensure_venv(Some("/v"), false), Err(Error::MissingVenv));
}

#[test]
fn install_from_simple_spec_records_it() {
    let req = requirement("cowsay==6.1");
    let mut meta = store_metadata(
        &req,
        &strings(&[]),
        false,
        "cowsay==6.1",
        &environment(),
        Some("6.1".to_string()),
    );
    assert_eq!(meta.name, "cowsay");
    assert_eq!(meta.installed_version, "6.1");
    assert_eq!(meta.install_spec, "cowsay==6.1");
    assert_eq!(meta.requested_version, "==6.1");
    assert_eq!(meta.python, "CPython 3.12.4");
    assert_eq!(meta.python_raw, "/usr/lib/python3.12");
    assert!(meta.scripts.is_empty());
    assert!(!meta.editable);
    install_symlinks(&mut meta, &vec![("cowsay".to_string(), true)]);
    assert_eq!(meta.scripts.get("cowsay"), Some(true));
    assert_eq!(meta.scripts.len(), 1);
    assert_eq!(installed("cowsay", "6.1"), "📦 cowsay (\x1b[36m6.1\x1b[39m) installed!");
}

#[test]
fn store_metadata_keeps_extras_and_injected() {
    let req = requirement("httpie[socks,cli]>=3");
    let meta = store_metadata(
        &req,
        &strings(&["b", "a", "b"]),
        true,
        "httpie[socks,cli]>=3",
        &environment(),
        None,
    );
    assert_eq!(meta.vec_extras(), strings(&["cli", "socks"]));
    assert_eq!(meta.vec_injected(), strings(&["a", "b"]));
    assert_eq!(meta.installed_version, "");
    assert_eq!(meta.requested_version, ">=3");
    assert!(meta.editable);
}

#[test]
fn install_symlinks_replaces_the_script_set() {
    let mut meta = Metadata::new("tool");
    meta.scripts.insert("old".to_string(), true);
    install_symlinks(
        &mut meta,
        &vec![
            ("b".to_string(), false),
            ("a".to_string(), true),
            ("b".to_string(), true),
        ],
    );
    assert_eq!(meta.scripts.names(), strings(&["a", "b"]));
    assert_eq!(meta.scripts.get("b"), Some(true));
    assert_eq!(meta.scripts.get("old"), None);
}

#[test]
fn upgrade_pinned_keeps_constraint_unless_forced() {
    let mut meta = Metadata::new("black");
    meta.requested_version = "==24.1.0".to_string();
    meta.installed_version = "24.1.0".to_string();
    let req = requirement("black");
    let plan = _upgrade_package(&req, &meta, false, false, false);
    assert_eq!(plan.args, strings(&["pip", "install", "--upgrade", "black==24.1.0"]));
    assert_eq!(plan.requested_version, "==24.1.0");
    let forced = _upgrade_package(&req, &meta, true, false, false);
    assert_eq!(forced.args, strings(&["pip", "install", "--upgrade", "--no-cache", "black"]));
    assert_eq!(forced.requested_version, "");
    let wanted = _upgrade_package(&requirement("black>=25"), &meta, false, true, false);
    assert_eq!(wanted.args, strings(&["pip", "install", "--upgrade", "--no-cache", "black>=25"]));
    assert_eq!(wanted.requested_version, ">=25");
}

#[test]
fn upgrade_takes_extras_and_injected_along() {
    let mut meta = Metadata::new("httpie");
    meta.extras.insert("socks".to_string());
    meta.injected.extend(&strings(&["requests-toolbelt", "attrs"]));
    let req = requirement("httpie[cli]");
    assert_eq!(upgrade_extras(&meta, &req).to_vec(), strings(&["cli", "socks"]));
    let plan = _upgrade_package(&req, &meta, false, false, false);
    assert_eq!(
        plan.args,
        strings(&["pip", "install", "--upgrade", "httpie[cli,socks]", "attrs", "requests-toolbelt"])
    );
    assert_eq!(plan.extras, strings(&["cli", "socks"]));
    let alone = _upgrade_package(&req, &meta, false, false, true);
    assert_eq!(alone.args, strings(&["pip", "install", "--upgrade", "httpie[cli,socks]"]));
}

#[test]
fn update_metadata_records_versions() {
    let mut meta = Metadata::new("black");
    meta.installed_version = "24.1.0".to_string();
    let new = update_metadata(&mut meta, ">=24".to_string(), "24.2.0".to_string());
    assert_eq!(new, "24.2.0");
    assert_eq!(meta.installed_version, "24.2.0");
    assert_eq!(meta.requested_version, ">=24");
    assert_eq!(meta.name, "black");
}

#[test]
fn build_msg_says_what_happened() {
    let mut meta = Metadata::new("black");
    assert_eq!(
        build_msg("24.1.0", "24.2.0", &meta),
        "🚀 Successfully updated '\x1b[32mblack\x1b[39m' from version \x1b[36m24.1.0\x1b[39m to version \x1b[36m24.2.0\x1b[39m!"
    );
    assert_eq!(
        build_msg("24.1.0", "24.1.0", &meta),
        "🌟 '\x1b[32mblack\x1b[39m' is already up to date at version \x1b[36m24.1.0\x1b[39m!"
    );
    meta.requested_version = "==24.1.0".to_string();
    assert_eq!(
        build_msg("24.1.0", "24.1.0", &meta),
        "🌟 '\x1b[32mblack\x1b[39m' is already up to date at version \x1b[36m24.1.0\x1b[39m!\n💡 This package was installed with a version constraint (\x1b[36m==24.1.0\x1b[39m). If you want to ignore this constraint, use `\x1b[32muvenv upgrade --force black\x1b[39m`."
    );
}

#[test]
fn reinstall_replays_the_recorded_spec() {
    let mut meta = Metadata::new("cowsay");
    meta.install_spec = "cowsay==6.0".to_string();
    meta.editable = true;
    meta.injected.extend(&strings(&["b", "a"]));
    let plan = reinstall("cowsay", &requirement("cowsay"), &meta, true, false, true, false);
    assert_eq!(
        plan,
        Ok(ReinstallPlan::Install {
            install_spec: "cowsay==6.0".to_string(),
            inject: strings(&["a", "b"]),
            editable: true,
        })
    );
    let bare = reinstall("cowsay", &requirement("cowsay"), &meta, true, false, false, false);
    assert_eq!(
        bare,
        Ok(ReinstallPlan::Install {
            install_spec: "cowsay==6.0".to_string(),
            inject: strings(&[]),
            editable: true,
        })
    );
}

#[test]
fn reinstall_adopts_a_spec_that_changes_something() {
    let mut meta = Metadata::new("cowsay");
    meta.install_spec = "cowsay==6.0".to_string();
    meta.editable = true;
    for spec in ["cowsay==6.1", "cowsay[x]"] {
        let plan = reinstall(spec, &requirement(spec), &meta, true, false, true, false);
        assert_eq!(
            plan,
            Ok(ReinstallPlan::Install {
                install_spec: spec.to_string(),
                inject: strings(&[]),
                editable: false,
            })
        );
    }
    let plan = reinstall("cowsay", &requirement("cowsay"), &Metadata::new("cowsay"), true, false, true, true);
    assert_eq!(
        plan,
        Ok(ReinstallPlan::Install {
            install_spec: "cowsay".to_string(),
            inject: strings(&[]),
            editable: true,
        })
    );
}

#[test]
fn reinstall_of_a_bare_environment_creates_it_again() {
    let meta = create("scratch", &environment().python);
    assert_eq!(meta.install_spec, "");
    let plan = reinstall("scratch", &requirement("scratch"), &meta, true, true, true, false);
    assert_eq!(
        plan,
        Ok(ReinstallPlan::Create { name: "scratch".to_string(), seed: true, force: true })
    );
}

#[test]
fn reinstall_needs_an_environment_or_force() {
    let meta = Metadata::new("cowsay");
    let refused = reinstall("cowsay==6.1", &requirement("cowsay==6.1"), &meta, false, false, true, false);
    let error = refused.unwrap_err();
    assert_eq!(
        error,
        Error::NotInstalled { name: "cowsay".to_string(), spec: "cowsay==6.1".to_string() }
    );
    assert_eq!(
        error.message(),
        "'cowsay' was not previously installed. Please run 'uvenv install cowsay==6.1' or pass `--force` instead."
    );
    assert!(reinstall("cowsay==6.1", &requirement("cowsay==6.1"), &meta, false, true, true, false).is_ok());
}

#[test]
fn reinstall_twice_gives_the_same_plan() {
    let mut before = Metadata::new("cowsay");
    before.install_spec = "cowsay==6.0".to_string();
    before.injected.extend(&strings(&["a"]));
    let first = reinstall("cowsay", &requirement("cowsay"), &before, true, false, true, false).unwrap();
    let mut after = Metadata::new("cowsay");
    if let ReinstallPlan::Install { install_spec, inject, editable } = &first {
        after.install_spec = install_spec.clone();
        after.injected.extend(inject);
        after.editable = *editable;
    }
    let second = reinstall("cowsay", &requirement("cowsay"), &after, true, false, true, false).unwrap();
    assert_eq!(first, second);
}

#[test]
fn uninstall_removes_the_recorded_launchers() {
    let mut meta = Metadata::new("httpie");
    meta.scripts.insert("https".to_string(), false);
    meta.scripts.insert("http".to_string(), true);
    assert_eq!(
        uninstall_package("httpie", true, false, &meta),
        UninstallPlan::Remove { launchers: strings(&["http", "https"]) }
    );
    assert_eq!(
        uninstall_package("uv", true, false, &Metadata::new("uv")),
        UninstallPlan::Remove { launchers: strings(&[]) }
    );
    let mut other = Metadata::new("pkg");
    other.scripts.insert("tool".to_string(), true);
    assert_eq!(
        uninstall_package("pkg", true, true, &other),
        UninstallPlan::Remove { launchers: strings(&["tool"]) }
    );
}

#[test]
fn uninstall_missing_with_force_removes_the_orphan() {
    let meta = Metadata::new("foo");
    let plan = uninstall_package("foo", false, true, &meta);
    assert_eq!(
        plan,
        UninstallPlan::Missing {
            orphan: Some("foo".to_string()),
            error: Error::OrphanRemoved { name: "foo".to_string() },
        }
    );
    if let UninstallPlan::Missing { error, .. } = plan {
        assert_eq!(exit_code(&error), 2);
        assert_eq!(
            error.message(),
            "\x1b[33mWarning\x1b[39m: No virtualenv for '\x1b[32mfoo\x1b[39m'."
        );
    }
}

#[test]
fn uninstall_missing_without_force_stops() {
    let plan = uninstall_package("foo", false, false, &Metadata::new("foo"));
    assert_eq!(
        plan,
        UninstallPlan::Missing {
            orphan: None,
            error: Error::NothingToUninstall { name: "foo".to_string() },
        }
    );
    if let UninstallPlan::Missing { error, .. } = plan {
        assert_eq!(exit_code(&error), 1);
    }
}

#[test]
fn removed_message() {
    assert_eq!(removed("cowsay", "6.1"), "🗑️  cowsay (\x1b[36m6.1\x1b[39m) removed!");
    assert_eq!(removed("cowsay", ""), "🗑️  cowsay removed!");
}

#[test]
fn inject_then_uninject() {
    let mut meta = Metadata::new("httpie");
    let specs = strings(&["requests-toolbelt"]);
    assert_eq!(inject_package(&specs, false), strings(&["pip", "install", "requests-toolbelt"]));
    assert_eq!(
        inject_package(&specs, true),
        strings(&["pip", "install", "--no-cache", "requests-toolbelt"])
    );
    record_injected(&mut meta, &specs);
    assert_eq!(meta.vec_injected(), specs);
    assert_eq!(eject_package(&specs), strings(&["pip", "uninstall", "requests-toolbelt"]));
    record_ejected(&mut meta, &specs);
    assert!(meta.injected.is_empty());
    assert_eq!(meta, Metadata::new("httpie"));
}

#[test]
fn inject_is_additive() {
    let mut meta = Metadata::new("httpie");
    meta.injected.extend(&strings(&["x", "b"]));
    record_injected(&mut meta, &strings(&["b", "a"]));
    assert_eq!(meta.vec_injected(), strings(&["a", "b", "x"]));
    record_ejected(&mut meta, &strings(&["b", "nope"]));
    assert_eq!(meta.vec_injected(), strings(&["a", "x"]));
}

#[test]
fn inject_messages() {
    let specs = strings(&["a", "b"]);
    assert_eq!(injecting(&specs, "httpie"), "injecting a, b into httpie");
    assert_eq!(injected(&specs, "httpie"), "💉 Injected [a, b] into \x1b[32mhttpie\x1b[39m.");
    assert_eq!(
        ejected(&specs, "httpie"),
        "⏏️  Ejected [\x1b[32ma\x1b[39m, \x1b[32mb\x1b[39m] from \x1b[32mhttpie\x1b[39m."
    );
}

#[test]
fn create_records_a_bare_environment() {
    let meta = create("scratch", &environment().python);
    assert_eq!(meta.name, "scratch");
    assert_eq!(meta.install_spec, "");
    assert_eq!(meta.python, "CPython 3.12.4");
    assert_eq!(meta.python_raw, "/usr/lib/python3.12");
    assert_eq!(created("scratch"), "🏗️ Succesfully created '\x1b[32mscratch\x1b[39m'!");
}

#[test]
fn run_picks_a_launcher() {
    assert_eq!(_find_executable("cowsay", "cowsay", &strings(&[])), Ok("cowsay".to_string()));
    assert_eq!(_find_executable("pkg", "pkg", &strings(&["tool"])), Ok("tool".to_string()));
    assert_eq!(
        _find_executable("httpie", "http", &strings(&["http", "https"])),
        Ok("http".to_string())
    );
    let error = _find_executable("httpie", "httpie", &strings(&["http", "https"])).unwrap_err();
    assert_eq!(
        error,
        Error::AmbiguousExecutable {
            name: "httpie".to_string(),
            spec: "httpie".to_string(),
            candidates: strings(&["http", "https"]),
        }
    );
    assert_eq!(
        error.message(),
        "'\x1b[32mhttpie\x1b[39m' executable not found for install spec '\x1b[32mhttpie\x1b[39m'.\nMultiple related scripts were found:\n\t- \x1b[32mhttp\x1b[39m | `\x1b[34muvenv run httpie --binary http ...\x1b[39m` \n\t- \x1b[32mhttps\x1b[39m | `\x1b[34muvenv run httpie --binary https ...\x1b[39m` \n"
    );
}

#[test]
fn run_finds_the_file() {
    assert_eq!(find_executable(None, "cowsay", "/tmp/uvenv-cowsay"), "/tmp/uvenv-cowsay/bin/cowsay");
    let binary = "other".to_string();
    assert_eq!(find_executable(Some(&binary), "cowsay", "/tmp/uvenv-cowsay"), "/tmp/uvenv-cowsay/bin/other");
    assert_eq!(temp_prefix(), "/tmp/uvenv-");
}

#[test]
fn bulk_keeps_successes_and_reports_failures() {
    let results: Vec<Result<u32, String>> =
        vec![Ok(1), Err("a failed".to_string()), Ok(2), Err("b failed".to_string())];
    let (good, bad) = handle_promises(results);
    assert_eq!(good, vec![1, 2]);
    assert_eq!(bad, strings(&["a failed", "b failed"]));
    let none: Vec<Result<u32, String>> = Vec::new();
    assert_eq!(handle_promises(none), (Vec::new(), Vec::new()));
}

#[test]
fn bulk_fails_if_any_item_failed() {
    let ok = summarize(Bulk::Upgrade, vec![Ok("one".to_string()), Ok("two".to_string())]);
    assert_eq!(ok, Ok(strings(&["one", "two"])));
    assert_eq!(summarize(Bulk::Uninstall, Vec::new()), Ok(Vec::new()));
    for (kind, headline, root) in [
        (Bulk::Uninstall, "⚠️ Not all packages were properly uninstalled!", "-> Failed uninstall-all."),
        (Bulk::Upgrade, "⚠️ Not all packages were properly upgraded!", "-> Failed upgrade-all."),
        (Bulk::Reinstall, "⚠️ Not all packages were properly reinstalled!", "-> Failed reinstall-all."),
    ] {
        let error = summarize(kind, vec![Ok("one".to_string()), Err("two broke".to_string())]).unwrap_err();
        assert_eq!(error.headline, headline);
        assert_eq!(error.root, root);
        assert_eq!(error.failures, strings(&["two broke"]));
    }
}

#[test]
fn install_steps_in_order() {
    let mut step = InstallStep::Parse;
    let mut seen = vec![step];
    while step != InstallStep::Done {
        step = install_package(step, true);
        seen.push(step);
    }
    assert_eq!(
        seen,
        vec![
            InstallStep::Parse,
            InstallStep::EnsureVenv,
            InstallStep::Activate,
            InstallStep::RunInstaller,
            InstallStep::StoreRecord,
            InstallStep::LinkLaunchers,
            InstallStep::SaveRecord,
            InstallStep::Done,
        ]
    );
    assert_eq!(install_package(InstallStep::Done, false), InstallStep::Done);
}

#[test]
fn install_rolls_back_when_the_installer_fails() {
    assert_eq!(install_package(InstallStep::RunInstaller, false), InstallStep::RemoveVenv);
    assert_eq!(install_package(InstallStep::RemoveVenv, true), InstallStep::Failed);
    assert_eq!(install_package(InstallStep::RemoveVenv, false), InstallStep::Failed);
    for step in [
        InstallStep::Parse,
        InstallStep::EnsureVenv,
        InstallStep::Activate,
        InstallStep::StoreRecord,
        InstallStep::LinkLaunchers,
        InstallStep::SaveRecord,
        InstallStep::Failed,
    ] {
        assert_eq!(install_package(step, false), InstallStep::Failed);
    }
    assert_eq!(install_package(InstallStep::Failed, true), InstallStep::Failed);
}

#[test]
fn run_removes_its_environment_unless_kept() {
    let mut step = RunStep::Parse;
    let mut seen = vec![step];
    while step != RunStep::Done {
        step = run_package(step, true, false);
        seen.push(step);
    }
    assert_eq!(
        seen,
        vec![
            RunStep::Parse,
            RunStep::CreateVenv,
            RunStep::Activate,
            RunStep::RunInstaller,
            RunStep::Launch,
            RunStep::RemoveVenv { launched: true },
            RunStep::Done,
        ]
    );
    assert_eq!(run_package(RunStep::Launch, true, true), RunStep::Done);
    assert_eq!(run_package(RunStep::Launch, false, true), RunStep::Failed);
    assert_eq!(run_package(RunStep::Launch, false, false), RunStep::RemoveVenv { launched: false });
    assert_eq!(run_package(RunStep::RemoveVenv { launched: false }, true, false), RunStep::Failed);
    assert_eq!(run_package(RunStep::RemoveVenv { launched: true }, false, false), RunStep::Failed);
    assert_eq!(run_package(RunStep::RunInstaller, false, false), RunStep::Failed);
    assert_eq!(run_package(RunStep::Parse, false, false), RunStep::Failed);
    assert_eq!(run_package(RunStep::CreateVenv, false, true), RunStep::Failed);
    assert_eq!(run_package(RunStep::Activate, false, true), RunStep::Failed);
    assert_eq!(run_package(RunStep::Failed, true, true), RunStep::Failed);
    assert_eq!(run_package(RunStep::Done, false, false), RunStep::Done);
}

#[test]
fn installed_package_is_listed() {
    let req = requirement("cowsay==6.1");
    let meta = store_metadata(
        &req,
        &strings(&[]),
        false,
        "cowsay==6.1",
        &environment(),
        Some("6.1".to_string()),
    );
    let other = Metadata::new("black");
    let shown = uvenv::commands::list::list_packages(vec![other, meta.clone()], None);
    assert!(shown.iter().any(|m| m.name == "cowsay" && m.installed_version == "6.1"));
    assert_eq!(shown.len(), 2);
    assert_eq!(
        uvenv::commands::list::read_from_folder_filtered(&strings(&["black", "cowsay"]), &strings(&[])),
        strings(&["black", "cowsay"])
    );
}

#[test]
fn force_overwrites_an_older_install() {
    let none = strings(&[]);
    let first = uvenv::venv::create_venv_raw("/w/venvs/cowsay", true, None, false, true);
    assert!(first.is_err());
    let forced = uvenv::venv::create_venv_raw("/w/venvs/cowsay", true, None, true, true);
    assert_eq!(forced, Ok(strings(&["venv", "/w/venvs/cowsay", "--seed"])));
    assert_eq!(
        _install_package("cowsay==6.1", &none, false, true, false),
        strings(&["pip", "install", "--no-cache", "cowsay==6.1"])
    );
    let plan = uvenv::symlinks::create_symlink("cowsay", "/w/venvs/cowsay", "/b", true, &none, true, true);
    assert!(matches!(plan, Ok(uvenv::symlinks::LinkPlan::Create { replace: true, .. })));
    let req = requirement("cowsay==6.1");
    let mut meta = store_metadata(&req, &none, false, "cowsay==6.1", &environment(), Some("6.1".to_string()));
    install_symlinks(&mut meta, &vec![("cowsay".to_string(), true)]);
    assert_eq!(meta.installed_version, "6.1");
    assert_eq!(meta.scripts.get("cowsay"), Some(true));
}

#[test]
fn remaining_error_messages() {
    assert_eq!(
        Error::NothingToUninstall { name: "foo".to_string() }.message(),
        "No virtualenv for '\x1b[32mfoo\x1b[39m', stopping.\nUse '\x1b[32m--force\x1b[39m' to remove an executable with that name anyway."
    );
    assert_eq!(
        Error::MissingVenv.message(),
        "Package could not be installed because supplied venv was misssing."
    );
    assert_eq!(Error::Tool { text: "uv pip | no".to_string() }.message(), "uv pip | no");
    assert_eq!(
        Error::InvalidEntryPoints { reason: "line 1".to_string() }.message(),
        "entry_points.txt is invalid: line 1"
    );
}
