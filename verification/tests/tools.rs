use uvenv::state::{can_start, state_of, Operation, State};
use uvenv::installer::{process_subprocess, ExitStatus};
use uvenv::commands::self_link::{self_link, self_link_exit_code, SelfLink};
use uvenv::freeze::{uv_freeze_environ, InstalledDist};
use uvenv::animate::{AnimationOrder, AnimationSettings, AnimationStyle};
use uvenv::cli::{CheckOptions, ListOptions};
use uvenv::commands::check::{find_issues, Issues, ScriptIssue};
use uvenv::commands::ensurepath::{add_to_bashrc, ensure_path, ensure_path_generate, now, split_path, EnsurePath};
use uvenv::commands::list::{list_packages, read_from_folder_filtered};
use uvenv::commands::self_update::{
    extract_version, find_global_python, get_package_versions_pip, handle_self_update_result,
    self_update, self_update_via_pip, update_report, version_of_match,
};
use uvenv::commands::setup::{setup_exit_code, setup_for_bash, SetupMetadata};
use uvenv::error::Error;
use uvenv::helpers::{flatten_option_ref, StringExt};
use uvenv::installer::{
    command_failure, get_uv_binary, run, run_get_output, run_if_shell, run_print_output, uv,
    uv_get_installed_version,
};
use uvenv::metadata::{Metadata, PythonInfo};
use uvenv::pip::{
    fake_install, fake_install_args, pip_error_prefix, FakeInstallResult, PipData,
    PipDownloadInfo, PipInstallItem, PipMetadata,
};
use uvenv::requirement::{
    classify, parse_requirement, parse_resolved, with_spec, ExtractInfo, Parsed, Requirement,
};
use uvenv::symlinks::{
    check_symlink, console_scripts, create_symlink, entry_points_path, find_symlinks, is_listed,
    points_to, remove_symlink, scripts_of_section, LinkPaths, LinkPlan,
};
use uvenv::venv::{
    create_venv, create_venv_raw, find_venv, setup_environ_from_requirement, venv_script,
    Environment, Helpers,
};

fn strings(items: &[&str]) -> Vec<String> {
    items.iter().map(|s| s.to_string()).collect()
}

#[test]
fn tool_failures_carry_their_prefix() {
    assert_eq!(run(true, "ignored", Some("uv venv")), Ok(true));
    assert_eq!(
        run(false, "boom", Some("uv venv")),
        Err(Error::Tool { text: "uv venv | boom".to_string() })
    );
    assert_eq!(run(false, "boom", None), Err(Error::Tool { text: "boom".to_string() }));
    assert_eq!(command_failure("x", Some("pip install")).message(), "pip install | x");
}

#[test]
fn captured_output_follows_the_exit_code() {
    assert_eq!(run_get_output(Some(0), "out".to_string(), "err".to_string()), Ok("out".to_string()));
    assert_eq!(
        run_get_output(Some(3), "out".to_string(), "err".to_string()),
        Err(Error::Tool { text: "err".to_string() })
    );
    assert_eq!(
        run_get_output(None, "out".to_string(), "err".to_string()),
        Err(Error::Tool { text: "err".to_string() })
    );
    assert_eq!(run_print_output(Some(7)), 7);
    assert_eq!(run_print_output(None), -1);
}

#[test]
fn installer_binary_and_prefix() {
    assert_eq!(get_uv_binary(Some("/x/bin/uv".to_string())), "/x/bin/uv");
    assert_eq!(get_uv_binary(None), "uv");
    assert_eq!(uv(&strings(&["venv", "/p"])), Ok("uv venv".to_string()));
    assert_eq!(uv(&strings(&[])), Err(Error::NoSubcommand));
    assert_eq!(Error::NoSubcommand.message(), "No subcommand passed");
    assert_eq!(pip_error_prefix(&strings(&["install", "x"])), "pip install");
    assert_eq!(pip_error_prefix(&strings(&[])), "pip ");
}

#[test]
fn shell_is_told_by_its_suffix() {
    assert!(run_if_shell("/bin/bash", "bash"));
    assert!(run_if_shell("bash", "bash"));
    assert!(!run_if_shell("/bin/zsh", "bash"));
    assert!(!run_if_shell("", "bash"));
}

#[test]
fn installed_version_is_the_first_found() {
    assert_eq!(uv_get_installed_version("cowsay", &strings(&["6.1", "6.0"])), Ok("6.1".to_string()));
    let error = uv_get_installed_version("cowsay", &strings(&[])).unwrap_err();
    assert_eq!(error, Error::NoVersionFound { name: "cowsay".to_string() });
    assert_eq!(error.message(), "No version found for '\x1b[33mcowsay\x1b[39m'.");
}

#[test]
fn venv_creation() {
    assert_eq!(
        create_venv_raw("/w/venvs/cowsay", false, None, false, false),
        Ok(strings(&["venv", "/w/venvs/cowsay"]))
    );
    let python = "3.12".to_string();
    assert_eq!(
        create_venv_raw("/w/venvs/cowsay", true, Some(&python), true, true),
        Ok(strings(&["venv", "/w/venvs/cowsay", "--python", "3.12", "--seed"]))
    );
    let error = create_venv_raw("/w/venvs/cowsay", true, None, false, true).unwrap_err();
    assert_eq!(error, Error::AlreadyInstalled { path: "/w/venvs/cowsay".to_string() });
    assert_eq!(
        error.message(),
        "'\x1b[32m/w/venvs/cowsay\x1b[39m' is already installed.\nUse '\x1b[32muvenv upgrade\x1b[39m' to update existing tools or pass '\x1b[32m--force\x1b[39m' to this command to ignore this message."
    );
}

#[test]
fn venv_locations() {
    assert_eq!(create_venv("/home/u", "cowsay", None), "/home/u/.local/uvenv/venvs/cowsay");
    let prefix = "/tmp/uvenv-".to_string();
    assert_eq!(create_venv("/home/u", "cowsay", Some(&prefix)), "/tmp/uvenv-cowsay");
    assert_eq!(
        find_venv("/home/u", &parse_requirement("Cow_Say==6.1")),
        Some("/home/u/.local/uvenv/venvs/cow-say".to_string())
    );
    assert_eq!(find_venv("/home/u", &Parsed::Local), None);
    assert_eq!(find_venv("/home/u", &Parsed::Placeholder), None);
}

#[test]
fn operations_need_an_environment() {
    assert_eq!(setup_environ_from_requirement("cowsay", true), Ok(()));
    let error = setup_environ_from_requirement("cowsay", false).unwrap_err();
    assert_eq!(error, Error::NoVirtualenv { spec: "cowsay".to_string() });
    assert_eq!(error.message(), "No virtualenv for '\x1b[32mcowsay\x1b[39m'.");
}

#[test]
fn environment_paths() {
    let env = Environment {
        root: "/w/venvs/x".to_string(),
        scripts: "/w/venvs/x/bin".to_string(),
        purelib: "/w/venvs/x/lib".to_string(),
        python: PythonInfo {
            implementation: "CPython".to_string(),
            version: "3.12".to_string(),
            stdlib: "/usr/lib/python3.12".to_string(),
        },
    };
    assert_eq!(venv_script(&env, "pip"), "/w/venvs/x/bin/pip");
    assert_eq!(env.to_path_buf(), "/w/venvs/x");
    assert_eq!(env.stdlib_as_string(), "/usr/lib/python3.12");
    assert_eq!(env.python.to_path_buf(), "/usr/lib/python3.12");
    assert_eq!(env.python.stdlib_as_string(), "/usr/lib/python3.12");
}

#[test]
fn requirement_parsing() {
    match parse_requirement("HTTPie[socks]>=3.0") {
        Parsed::Standard(req, spec) => {
            assert_eq!(req.name, "httpie");
            assert_eq!(req.extras, strings(&["socks"]));
            assert_eq!(req.version, ">=3.0");
            assert_eq!(spec, "HTTPie[socks]>=3.0");
            assert_eq!(ExtractInfo::version(&req), ">=3.0");
            assert_eq!(ExtractInfo::extras(&req).to_vec(), strings(&["socks"]));
        }
        other => panic!("a requirement, not {other:?}"),
    }
    assert_eq!(parse_requirement("./path/to/project"), Parsed::Local);
    assert_eq!(parse_requirement("proj @ file://${HOME}/proj"), Parsed::Placeholder);
    assert_eq!(parse_requirement("${"), Parsed::Placeholder);
    assert!(matches!(parse_requirement("proj @ https://example.org/$x{1}"), Parsed::Standard(..)));
    assert_eq!(parse_requirement(""), Parsed::Local);
    match parse_requirement("cowsay @ https://example.org/cowsay-6.1.tar.gz") {
        Parsed::Standard(req, _) => {
            assert_eq!(req.name, "cowsay");
            assert_eq!(req.version, "");
        }
        other => panic!("a requirement, not {other:?}"),
    }
}

#[test]
fn classify_keeps_the_spec() {
    let req = Requirement { name: "x".to_string(), extras: Vec::new(), version: String::new() };
    assert_eq!(classify(Some(req.clone()), "X"), Parsed::Standard(req, "X".to_string()));
    assert_eq!(classify(None, "./x"), Parsed::Local);
}

#[test]
fn resolved_spec_is_parsed_again() {
    let spec = "proj @ https://example.org/proj.tar.gz".to_string();
    let (req, text) = parse_resolved(spec.clone()).unwrap();
    assert_eq!(req.name, "proj");
    assert_eq!(text, spec);
    assert!(parse_resolved("not a spec at all !".to_string()).is_none());
    assert!(parse_resolved("proj @ file://${HOME}/proj".to_string()).is_none());
    assert!(uvenv::requirement::holds_placeholder("a${b"));
    assert!(uvenv::requirement::holds_placeholder("${"));
    assert!(!uvenv::requirement::holds_placeholder("a$ {b"));
    assert!(!uvenv::requirement::holds_placeholder("{$"));
    assert!(!uvenv::requirement::holds_placeholder("$"));
    assert!(!uvenv::requirement::holds_placeholder(""));
}

fn report(extras: Option<Vec<String>>) -> PipData {
    PipData {
        version: "1".to_string(),
        pip_version: "24.0".to_string(),
        install: vec![
            PipInstallItem {
                download_info: PipDownloadInfo { url: "file:///src/proj".to_string() },
                is_direct: true,
                is_yanked: false,
                requested: true,
                requested_extras: extras,
                metadata: PipMetadata { name: "proj".to_string(), ..PipMetadata::default() },
            },
            PipInstallItem::default(),
        ],
    }
}

#[test]
fn dry_install_names_the_package() {
    let plain = fake_install(&report(None)).unwrap();
    assert_eq!(
        plain,
        FakeInstallResult { name: "proj".to_string(), file_url: "file:///src/proj".to_string() }
    );
    assert_eq!(plain.to_spec(), "proj @ file:///src/proj");
    let with_extras = fake_install(&report(Some(strings(&["a", "b"])))).unwrap();
    assert_eq!(with_extras.name, "proj[a,b]");
    assert_eq!(with_extras.to_spec(), "proj[a,b] @ file:///src/proj");
    let no_extras = fake_install(&report(Some(Vec::new()))).unwrap();
    assert_eq!(no_extras.name, "proj[]");
}

#[test]
fn dry_install_without_items_fails() {
    let error = fake_install(&PipData::default()).unwrap_err();
    assert_eq!(error, Error::NoLocalPackage);
    assert_eq!(error.message(), "Failed to find package name for local install.");
}

#[test]
fn dry_install_arguments() {
    assert_eq!(
        fake_install_args("/tmp/report.json", "./proj"),
        strings(&[
            "install",
            "--no-deps",
            "--dry-run",
            "--ignore-installed",
            "--report",
            "/tmp/report.json",
            "./proj"
        ])
    );
}

#[test]
fn console_scripts_are_read_from_the_section() {
    let ini = "[console_scripts]\nhttps = httpie.__main__:main\nhttp = httpie.__main__:main\nHTTPie = x:y\n\n[gui_scripts]\nother = a:b\n";
    assert_eq!(console_scripts(Some(ini)), Ok(strings(&["HTTPie", "http", "https"])));
    assert_eq!(console_scripts(None), Ok(Vec::new()));
    assert_eq!(console_scripts(Some("[gui_scripts]\nother = a:b\n")), Ok(Vec::new()));
    assert_eq!(console_scripts(Some("")), Ok(Vec::new()));
}

#[test]
fn broken_entry_points_are_an_error() {
    let error = console_scripts(Some("[console_scripts\nx = y\n")).unwrap_err();
    match &error {
        Error::InvalidEntryPoints { reason } => assert!(!reason.is_empty()),
        other => panic!("unexpected {other:?}"),
    }
    assert!(error.message().starts_with("entry_points.txt is invalid: "));
    assert_eq!(
        scripts_of_section(Err("bad".to_string())),
        Err(Error::InvalidEntryPoints { reason: "bad".to_string() })
    );
    assert_eq!(scripts_of_section(Ok(None)), Ok(Vec::new()));
    assert_eq!(scripts_of_section(Ok(Some(strings(&["b", "a", "b"])))), Ok(strings(&["a", "b"])));
}

#[test]
fn entry_points_file_location() {
    assert_eq!(
        entry_points_path("/v/lib/python3.12/site-packages", "python-semantic-release", "9.0"),
        "/v/lib/python3.12/site-packages/python_semantic_release-9.0.dist-info/entry_points.txt"
    );
}

#[test]
fn launchers_fall_back_to_the_name() {
    assert_eq!(find_symlinks("uv", Vec::new()), strings(&["uv"]));
    assert_eq!(find_symlinks("httpie", strings(&["http", "https"])), strings(&["http", "https"]));
    assert!(is_listed(&strings(&["a", "b"]), "b"));
    assert!(!is_listed(&strings(&["a", "b"]), "c"));
}

#[test]
fn create_symlink_plans() {
    let none = strings(&[]);
    let made = create_symlink("cowsay", "/w/venvs/cowsay", "/home/u/.local/bin", false, &none, false, true);
    assert_eq!(
        made,
        Ok(LinkPlan::Create {
            paths: LinkPaths {
                source: "/w/venvs/cowsay/bin/cowsay".to_string(),
                target: "/home/u/.local/bin/cowsay".to_string(),
            },
            replace: false,
        })
    );
    let forced = create_symlink("cowsay", "/w/venvs/cowsay", "/home/u/.local/bin", true, &none, true, true);
    assert!(matches!(forced, Ok(LinkPlan::Create { replace: true, .. })));
    let exists = create_symlink("cowsay", "/w/venvs/cowsay", "/b", false, &none, true, true).unwrap_err();
    assert_eq!(exists, Error::ScriptExists { name: "cowsay".to_string(), bin_dir: "/b".to_string() });
    assert_eq!(exists.message(), "Script cowsay already exists in \"/b\". Use --force to ignore this warning.");
    let missing = create_symlink("cowsay", "/w/venvs/cowsay", "/b", true, &none, true, false).unwrap_err();
    assert_eq!(missing, Error::ScriptMissing { path: "/w/venvs/cowsay/bin/cowsay".to_string() });
    assert_eq!(
        missing.message(),
        "Could not symlink \"/w/venvs/cowsay/bin/cowsay\" because the script didn't exist."
    );
    let both = create_symlink("cowsay", "/w/venvs/cowsay", "/b", false, &none, true, false).unwrap_err();
    assert!(matches!(both, Error::ScriptExists { .. }));
}

#[test]
fn create_symlink_honours_the_allow_list() {
    let only = strings(&["http"]);
    assert_eq!(create_symlink("https", "/v", "/b", false, &only, true, false), Ok(LinkPlan::Skip));
    assert!(matches!(
        create_symlink("http", "/v", "/b", false, &only, false, true),
        Ok(LinkPlan::Create { .. })
    ));
}

#[test]
fn links_are_checked_by_whole_path_parts() {
    assert!(points_to(Some("/w/venvs/cowsay/bin/cowsay"), "/w/venvs/cowsay"));
    assert!(!points_to(Some("/w/venvs/cowsay2/bin/cowsay"), "/w/venvs/cowsay"));
    assert!(!points_to(Some("/elsewhere/cowsay"), "/w/venvs/cowsay"));
    assert!(!points_to(None, "/w/venvs/cowsay"));
    assert!(check_symlink(true, Some("/w/venvs/cowsay/bin/cowsay"), "/w/venvs/cowsay"));
    assert!(!check_symlink(false, Some("/w/venvs/cowsay/bin/cowsay"), "/w/venvs/cowsay"));
    assert!(!check_symlink(true, Some("/usr/bin/cowsay"), "/w/venvs/cowsay"));
    assert!(!check_symlink(true, None, "/w/venvs/cowsay"));
    assert!(remove_symlink(true));
    assert!(!remove_symlink(false));
}

#[test]
fn list_filters() {
    let found = strings(&["black", "cowsay", "httpie"]);
    assert_eq!(read_from_folder_filtered(&found, &strings(&[])), found);
    assert_eq!(
        read_from_folder_filtered(&found, &strings(&["httpie", "black", "nope"])),
        strings(&["black", "httpie"])
    );
    let mut a = Metadata::new("a");
    a.python_raw = "/usr/lib/python3.12".to_string();
    let mut b = Metadata::new("b");
    b.python_raw = "/usr/lib/python3.11".to_string();
    assert_eq!(list_packages(vec![a.clone(), b.clone()], None), vec![a.clone(), b.clone()]);
    assert_eq!(list_packages(vec![a.clone(), b.clone()], Some("/usr/lib/python3.11")), vec![b]);
    assert!(list_packages(vec![a], Some("/nowhere")).is_empty());
}

#[test]
fn list_and_check_configs() {
    let list = ListOptions { skip_updates: true, ..ListOptions::default() };
    let config = list.to_metadataconfig();
    assert!(config.recheck_scripts && !config.updates_check);
    let list = ListOptions { show_prereleases: true, ignore_constraints: true, ..ListOptions::default() };
    let config = list.to_metadataconfig();
    assert!(config.updates_check && config.updates_prereleases && config.updates_ignore_constraints);
    let check = CheckOptions { skip_scripts: true, ..CheckOptions::default() };
    let config = check.to_metadataconfig();
    assert!(!config.recheck_scripts && config.updates_check);
}

#[test]
fn issues_are_counted() {
    let mut issues = Issues::new();
    assert_eq!(issues.count(), 0);
    issues.outdated = strings(&["a", "b"]);
    issues.scripts = vec![
        ScriptIssue { name: "a".to_string(), scripts: strings(&["x", "y"]) },
        ScriptIssue { name: "c".to_string(), scripts: strings(&["z"]) },
    ];
    assert_eq!(issues.count_outdated(), 2);
    assert_eq!(issues.count_scripts(), 3);
    assert_eq!(issues.count(), 5);
}

#[test]
fn issues_are_found() {
    let mut fine = Metadata::new("fine");
    fine.scripts.insert("fine".to_string(), true);
    let mut old = Metadata::new("old");
    old.outdated = true;
    let mut broken = Metadata::new("broken");
    broken.outdated = true;
    broken.scripts.insert("b2".to_string(), false);
    broken.scripts.insert("b1".to_string(), false);
    broken.scripts.insert("ok".to_string(), true);
    let items = vec![fine, old, broken];
    let all = find_issues(&items, false, false);
    assert_eq!(all.outdated, strings(&["old", "broken"]));
    assert_eq!(
        all.scripts,
        vec![ScriptIssue { name: "broken".to_string(), scripts: strings(&["b1", "b2"]) }]
    );
    assert_eq!(all.count(), 4);
    let no_scripts = find_issues(&items, true, false);
    assert!(no_scripts.scripts.is_empty());
    assert_eq!(no_scripts.count(), 2);
    let no_updates = find_issues(&items, false, true);
    assert!(no_updates.outdated.is_empty());
    assert_eq!(no_updates.count(), 2);
}

#[test]
fn setup_installs_each_feature_once() {
    let fresh = SetupMetadata::new();
    assert_eq!(fresh, SetupMetadata::default());
    let (plan, after) = setup_for_bash(fresh, true, true, false, false);
    assert!(plan.ensurepath && plan.completions && !plan.activate);
    assert!(after.feature_ensurepath && after.feature_completions && !after.feature_activate);
    let (again, same) = setup_for_bash(after, true, true, true, false);
    assert!(!again.ensurepath && !again.completions && again.activate);
    assert!(same.feature_ensurepath && same.feature_completions && same.feature_activate);
    let (forced, _) = setup_for_bash(same, true, false, true, true);
    assert!(forced.ensurepath && !forced.completions && forced.activate);
    assert_eq!(setup_exit_code(false), 0);
    assert_eq!(setup_exit_code(true), 1);
}

#[test]
fn search_path_entries() {
    assert_eq!(split_path("/a:/b::/c"), strings(&["/a", "/b", "", "/c"]));
    assert_eq!(split_path(""), strings(&[""]));
    assert_eq!(split_path("/a:"), strings(&["/a", ""]));
    for path in ["", ":", "/a", "/a:/b:", "::x"] {
        let expected: Vec<String> = path.split(':').map(|s| s.to_string()).collect();
        assert_eq!(split_path(path), expected);
    }
}

#[test]
fn ensure_path_decides() {
    let line = "export PATH=\"$PATH:/home/u/.local/bin\"";
    assert_eq!(ensure_path_generate("/home/u/.local/bin"), line);
    assert_eq!(
        ensure_path("/home/u/.local/bin", "/usr/bin:/home/u/.local/bin", false),
        EnsurePath::AlreadyThere
    );
    assert_eq!(
        ensure_path("/home/u/.local/bin", "/usr/bin:/home/u/.local/bin", true),
        EnsurePath::Add { line: line.to_string() }
    );
    assert_eq!(
        ensure_path("/home/u/.local/bin", "/usr/bin:/home/u/.local/bin2", false),
        EnsurePath::Add { line: line.to_string() }
    );
}

#[test]
fn bashrc_block_and_stamp() {
    assert_eq!(now("2024-05-01 10:11:12.123456 +02:00"), "2024-05-01 10:11:12");
    assert_eq!(now("2024-05-01 10:11:12"), "");
    assert_eq!(now(".5"), "");
    assert_eq!(
        add_to_bashrc("echo hi", Some("2024-05-01 10:11:12")),
        "\n# Added by `uvenv` at 2024-05-01 10:11:12\necho hi\n"
    );
    assert_eq!(add_to_bashrc("echo hi", None), "\necho hi\n");
}

#[test]
fn freeze_output_is_searched() {
    let freeze = "attrs==23.1\nuvenv==3.4.0\nuv @ file:///src/uv\nuvx==1\n";
    assert_eq!(extract_version(freeze, "uvenv"), Some("3.4.0".to_string()));
    assert_eq!(extract_version(freeze, "uv"), Some(" file:///src/uv".to_string()));
    assert_eq!(extract_version(freeze, "patchelf"), None);
    assert_eq!(extract_version(freeze, "attr"), None);
    assert_eq!(extract_version(freeze, "("), None);
    assert_eq!(
        get_package_versions_pip(freeze, &strings(&["uvenv", "patchelf"]), "?"),
        strings(&["3.4.0", "?"])
    );
    assert_eq!(version_of_match(None), None);
    assert_eq!(version_of_match(Some(None)), None);
    assert_eq!(version_of_match(Some(Some(strings(&["a==1", "a==", "1"])))), Some("1".to_string()));
    assert_eq!(version_of_match(Some(Some(strings(&["a"])))), None);
}

#[test]
fn self_update_plans() {
    let plan = self_update_via_pip(true, true);
    assert_eq!(
        plan.args,
        strings(&["-m", "pip", "install", "--no-cache-dir", "--upgrade", "uvenv", "uv", "patchelf"])
    );
    assert_eq!(plan.to_track, strings(&["uvenv", "uv", "patchelf"]));
    assert_eq!(plan.subject, "uvenv and uv and patchelf");
    let alone = self_update(false, false);
    assert_eq!(alone.args, strings(&["-m", "pip", "install", "--no-cache-dir", "--upgrade", "uvenv"]));
    assert_eq!(alone.to_track, strings(&["uvenv"]));
    assert_eq!(alone.subject, "uvenv");
    assert_eq!(self_update(false, true).subject, "uvenv and patchelf");
}

#[test]
fn self_update_reports() {
    assert_eq!(
        update_report("uv", "0.4", "0.5"),
        "🚀 '\x1b[34muv\x1b[39m' updated from \x1b[31m0.4\x1b[39m to \x1b[32m0.5\x1b[39m"
    );
    assert_eq!(
        update_report("uv", "0.5", "0.5"),
        "🌟 '\x1b[34muv\x1b[39m' not updated (version: \x1b[32m0.5\x1b[39m)"
    );
    let lines = handle_self_update_result(
        &strings(&["uvenv", "uv"]),
        &strings(&["1", "2"]),
        &strings(&["1", "3", "extra"]),
    );
    assert_eq!(lines.len(), 2);
    assert_eq!(lines[1], update_report("uv", "2", "3"));
}

#[test]
fn global_python_fallback() {
    assert_eq!(find_global_python(Some("/opt/py".to_string()), true), Some("/opt/py".to_string()));
    assert_eq!(find_global_python(None, true), Some("/usr/bin/python3".to_string()));
    assert_eq!(find_global_python(None, false), None);
}

#[test]
fn spinner_frames() {
    let modern = AnimationSettings::default();
    assert_eq!(modern.style, AnimationStyle::Modern);
    assert_eq!(modern.order, AnimationOrder::Before);
    assert_eq!(modern.get_spinner_chars(), vec!['⣷', '⣯', '⣟', '⡿', '⢿', '⣻', '⣽', '⣾']);
    let classic = AnimationSettings { style: AnimationStyle::Classic, order: AnimationOrder::After };
    assert_eq!(classic.get_spinner_chars(), vec!['|', '/', '-', '\\']);
    assert_eq!(modern.animation("installing x", 0), "\r⣷ installing x ");
    assert_eq!(modern.animation("installing x", 9), "\r⣯ installing x ");
    assert_eq!(classic.animation("installing x", 2), "\rinstalling x - ");
}

#[test]
fn small_helpers() {
    assert_eq!(String::new().or("dflt"), "dflt");
    assert_eq!("set".to_string().or("dflt"), "set");
    let inner = Some(3);
    assert_eq!(flatten_option_ref(Some(&inner)), Some(&3));
    let empty: Option<i32> = None;
    assert_eq!(flatten_option_ref(Some(&empty)), None);
    assert_eq!(flatten_option_ref::<i32>(None), None);
}

#[test]
fn package_states() {
    assert_eq!(state_of(false, None, false), State::Absent);
    assert_eq!(state_of(false, None, true), State::OrphanSymlink);
    assert_eq!(state_of(true, None, false), State::Creating);
    let mut meta = Metadata::new("httpie");
    assert_eq!(state_of(true, Some(&meta), true), State::Installed);
    meta.scripts.insert("http".to_string(), true);
    assert_eq!(state_of(true, Some(&meta), true), State::Installed);
    meta.scripts.insert("https".to_string(), false);
    assert_eq!(state_of(true, Some(&meta), true), State::Stale);
    assert_eq!(state_of(false, Some(&meta), false), State::Absent);

    assert!(can_start(Operation::Install, State::Absent, false));
    assert!(can_start(Operation::Install, State::OrphanSymlink, false));
    assert!(!can_start(Operation::Install, State::Installed, false));
    assert!(can_start(Operation::Install, State::Installed, true));
    assert!(!can_start(Operation::Create, State::Stale, false));
    assert!(!can_start(Operation::Uninstall, State::Absent, false));
    assert!(can_start(Operation::Uninstall, State::Absent, true));
    assert!(can_start(Operation::Uninstall, State::Stale, false));
    assert!(can_start(Operation::Reinstall, State::Installed, false));
    assert!(!can_start(Operation::Reinstall, State::Absent, false));
    for op in [Operation::Upgrade, Operation::Inject, Operation::Uninject] {
        assert!(can_start(op, State::Installed, false));
        assert!(can_start(op, State::Stale, false));
        assert!(!can_start(op, State::Absent, true));
        assert!(!can_start(op, State::OrphanSymlink, true));
    }
}

#[test]
fn exit_status_to_code() {
    assert_eq!(process_subprocess(ExitStatus::Exited(0)), 0);
    assert_eq!(process_subprocess(ExitStatus::Exited(3)), 3);
    assert_eq!(process_subprocess(ExitStatus::Exited(u32::MAX)), -1);
    assert_eq!(process_subprocess(ExitStatus::Exited(0x8000_0000)), i32::MIN);
    for code in [0u32, 1, 255, 0x7fff_ffff, 0x8000_0000, 0x8000_0001, u32::MAX] {
        assert_eq!(process_subprocess(ExitStatus::Exited(code)), code as i32);
    }
    assert_eq!(process_subprocess(ExitStatus::Signaled(9)), 9);
    assert_eq!(process_subprocess(ExitStatus::Other(-7)), -7);
    assert_eq!(process_subprocess(ExitStatus::Undetermined), 0);
}

#[test]
fn self_link_plans() {
    assert_eq!(self_link(true, true, false), SelfLink::Nothing);
    assert_eq!(self_link(false, true, false), SelfLink::Warn);
    assert_eq!(self_link(false, true, true), SelfLink::Link);
    assert_eq!(self_link(false, false, false), SelfLink::Link);
    assert_eq!(self_link_exit_code(SelfLink::Warn, false), 2);
    assert_eq!(self_link_exit_code(SelfLink::Warn, true), 0);
    assert_eq!(self_link_exit_code(SelfLink::Link, false), 0);
    assert_eq!(self_link_exit_code(SelfLink::Nothing, false), 0);
}

#[test]
fn frozen_packages_are_listed() {
    let dists = vec![
        InstalledDist::Registry { name: "attrs".to_string(), version: "23.1".to_string() },
        InstalledDist::Url { name: "proj".to_string(), url: "file:///src/proj".to_string(), editable: true },
        InstalledDist::Url { name: "uv".to_string(), url: "https://x/uv.whl".to_string(), editable: false },
        InstalledDist::EggInfoFile { name: "old".to_string(), version: "1".to_string() },
        InstalledDist::EggInfoDirectory { name: "older".to_string(), version: "0.1".to_string() },
        InstalledDist::LegacyEditable { target: "/src/legacy".to_string() },
    ];
    assert_eq!(
        uv_freeze_environ(&dists),
        "attrs==23.1\n-e file:///src/proj\nuv @ https://x/uv.whl\nold==1\nolder==0.1\n-e /src/legacy\n"
    );
    assert_eq!(uv_freeze_environ(&Vec::new()), "");
}

#[test]
fn unreadable_records_are_named() {
    let loaded = Metadata::new("cowsay");
    assert_eq!(Metadata::for_owned_dir("/w/venvs/cowsay", Some(loaded.clone())), Ok(loaded.clone()));
    let error = Metadata::for_owned_dir("/w/venvs/cowsay", None).unwrap_err();
    assert_eq!(error, Error::MetadataUnreadable { name: "cowsay".to_string() });
    assert_eq!(error.message(), "Metadata for '\x1b[31mcowsay\x1b[39m' could not be loaded.");
    assert_eq!(Metadata::for_requirement("cowsay", Some(loaded.clone()), None, None), loaded);
    let found = Metadata::for_requirement("cowsay", None, Some("6.1".to_string()), None);
    assert_eq!(found.installed_version, "6.1");
    assert_eq!(found.name, "cowsay");
    assert_eq!(found.install_spec, "cowsay");
    let slashed = Metadata::for_owned_dir("/w/venvs/cowsay/", None).unwrap_err();
    assert_eq!(slashed, Error::MetadataUnreadable { name: "cowsay".to_string() });
}

#[test]
fn issues_report_for_a_reader() {
    let none = Issues::new();
    assert_eq!(
        none.print_human(),
        (
            "\x1b[1m\x1b[32m✅ No issues found. Everything is up-to-date and all scripts are properly installed!\x1b[39m\x1b[0m\n".to_string(),
            0
        )
    );
    let mut issues = Issues::new();
    issues.outdated = strings(&["black"]);
    issues.scripts = vec![ScriptIssue { name: "httpie".to_string(), scripts: strings(&["http", "https"]) }];
    let expected = [
        "\x1b[4m\x1b[1m🚨 Issues Overview:\x1b[0m\x1b[0m\n",
        "\x1b[33m\x1b[1m\n🔶 Outdated:\x1b[0m\x1b[39m\n",
        "  - \x1b[31mblack\x1b[39m\n",
        "\x1b[34m💡 Tip: you can use `uvenv upgrade <package>` to update a specific environment.\x1b[39m\n",
        "\x1b[33m\x1b[1m\n🔶 Missing Scripts:\x1b[0m\x1b[39m\n",
        "  - \x1b[1m\x1b[31mhttpie:\x1b[39m\x1b[0m\n",
        "    - \x1b[31mhttp\x1b[39m\n",
        "    - \x1b[31mhttps\x1b[39m\n",
        "\x1b[34m💡 Tip: you can use `uvenv reinstall <package>` to reinstall an environment, which might fix the missing scripts.\x1b[39m\n",
    ]
    .join("");
    assert_eq!(issues.print_human(), (expected, 3));
    issues.scripts.clear();
    let (text, code) = issues.print_human();
    assert_eq!(code, 1);
    assert!(!text.contains("Missing Scripts"));
}

#[test]
fn only_links_are_removed() {
    let found = vec![
        ("http".to_string(), true),
        ("notes.txt".to_string(), false),
        ("https".to_string(), true),
    ];
    assert_eq!(uvenv::symlinks::remove_symlinks(&found), strings(&["http", "https"]));
    assert!(uvenv::symlinks::remove_symlinks(&Vec::new()).is_empty());
}

#[test]
fn self_update_through_the_installer() {
    let plan = uvenv::commands::self_update::self_update_via_uv("/usr/bin/python3", true, false);
    assert_eq!(
        plan.args,
        strings(&[
            "pip",
            "install",
            "--no-cache-dir",
            "--python",
            "/usr/bin/python3",
            "--upgrade",
            "uvenv",
            "uv"
        ])
    );
    assert_eq!(plan.to_track, strings(&["uvenv", "uv"]));
    assert_eq!(plan.subject, "uvenv and uv");
}

#[test]
fn a_parsed_spec_is_paired_with_its_text() {
    let req = Requirement { name: "proj".to_string(), extras: Vec::new(), version: String::new() };
    assert_eq!(
        with_spec(Some(req.clone()), "proj @ file:///src/proj".to_string()),
        Some((req, "proj @ file:///src/proj".to_string()))
    );
    assert_eq!(with_spec(None, "./proj".to_string()), None);
}
