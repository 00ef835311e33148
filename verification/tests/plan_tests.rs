use multipkgdp::{
    any_found, backend_probes, bootstrap_finish, finish_verdict, try_bootstrap_backend_tools,
    bootstrap_step, is_single_package_install, make_backend, parse_os_release, recipe, resolve, run,
    single_package_name, tool_label, with_sudo, Action, AptBackend, Backend, BackendError,
    BackendKind, BootstrapError, BootstrapStep, EnvInfo, Invocation, Package, PacmanBackend,
    XbpsBackend,
};

fn strings(v: &[&str]) -> Vec<String> {
    v.iter().map(|s| s.to_string()).collect()
}

fn inv(program: &str, args: &[&str]) -> Invocation {
    Invocation { program: program.to_string(), args: strings(args) }
}

fn missing(tools: &[&str]) -> BackendError {
    BackendError::ToolsNotFound(strings(tools))
}

fn env() -> EnvInfo {
    EnvInfo { os_release: parse_os_release("ID=arch\n"), kernel: String::new() }
}

#[test]
fn apt_install_through_sudo_or_directly() {
    let a = Action::Install { packages: strings(&["firefox", "vim"]) };
    let r = recipe(BackendKind::Apt, &a);
    assert_eq!(
        resolve(&r, &vec![true], false),
        Ok(vec![inv("sudo", &["apt-get", "install", "-y", "firefox", "vim"])])
    );
    assert_eq!(
        resolve(&r, &vec![true], true),
        Ok(vec![inv("apt-get", &["install", "-y", "firefox", "vim"])])
    );
    assert_eq!(resolve(&r, &vec![false], true), Err(missing(&["apt-get"])));
    assert_eq!(resolve(&r, &vec![], true), Err(missing(&["apt-get"])));
}

#[test]
fn apt_update_runs_two_commands() {
    let r = recipe(BackendKind::Apt, &Action::Update);
    assert_eq!(
        resolve(&r, &vec![true], false),
        Ok(vec![inv("sudo", &["apt-get", "update"]), inv("sudo", &["apt-get", "upgrade", "-y"])])
    );
}

#[test]
fn apt_search_and_list_fall_back() {
    let s = recipe(BackendKind::Apt, &Action::Search { query: "fire fox".to_string() });
    assert_eq!(resolve(&s, &vec![true, true], false), Ok(vec![inv("apt-cache", &["search", "fire fox"])]));
    assert_eq!(resolve(&s, &vec![false, true], false), Ok(vec![inv("apt", &["search", "fire fox"])]));
    assert_eq!(resolve(&s, &vec![false, false], false), Err(missing(&["apt-cache", "apt"])));
    let l = recipe(BackendKind::Apt, &Action::List);
    assert_eq!(resolve(&l, &vec![true, false], false), Ok(vec![inv("dpkg", &["-l"])]));
    assert_eq!(resolve(&l, &vec![false, true], true), Ok(vec![inv("apt", &["list", "--installed"])]));
    assert_eq!(resolve(&l, &vec![false], true), Err(missing(&["dpkg", "apt"])));
}

#[test]
fn pacman_recipes() {
    let yes = vec![true];
    assert_eq!(
        resolve(&recipe(BackendKind::Pacman, &Action::Install { packages: strings(&["a"]) }), &yes, false),
        Ok(vec![inv("sudo", &["pacman", "-S", "--noconfirm", "a"])])
    );
    assert_eq!(
        resolve(&recipe(BackendKind::Pacman, &Action::Remove { packages: strings(&["a"]) }), &yes, true),
        Ok(vec![inv("pacman", &["-Rns", "--noconfirm", "a"])])
    );
    assert_eq!(
        resolve(&recipe(BackendKind::Pacman, &Action::Update), &yes, true),
        Ok(vec![inv("pacman", &["-Syu", "--noconfirm"])])
    );
    assert_eq!(
        resolve(&recipe(BackendKind::Pacman, &Action::Search { query: "q".to_string() }), &yes, false),
        Ok(vec![inv("pacman", &["-Ss", "q"])])
    );
    assert_eq!(
        resolve(&recipe(BackendKind::Pacman, &Action::List), &yes, false),
        Ok(vec![inv("pacman", &["-Q"])])
    );
    assert_eq!(
        resolve(&recipe(BackendKind::Pacman, &Action::List), &vec![false], false),
        Err(missing(&["pacman"]))
    );
}

#[test]
fn xbps_recipes() {
    let yes = vec![true];
    assert_eq!(
        resolve(&recipe(BackendKind::Xbps, &Action::Install { packages: strings(&["a", "b"]) }), &yes, false),
        Ok(vec![inv("sudo", &["xbps-install", "-y", "a", "b"])])
    );
    let remove = recipe(BackendKind::Xbps, &Action::Remove { packages: strings(&["a"]) });
    assert_eq!(resolve(&remove, &yes, true), Ok(vec![inv("xbps-remove", &["-Ry", "a"])]));
    assert_eq!(resolve(&remove, &vec![false], true), Err(missing(&["xbps-install"])));
    assert_eq!(
        resolve(&recipe(BackendKind::Xbps, &Action::Update), &yes, false),
        Ok(vec![inv("sudo", &["xbps-install", "-Syu"])])
    );
    assert_eq!(
        resolve(&recipe(BackendKind::Xbps, &Action::Search { query: "q".to_string() }), &yes, false),
        Ok(vec![inv("xbps-query", &["-Rs", "q"])])
    );
    assert_eq!(
        resolve(&recipe(BackendKind::Xbps, &Action::List), &vec![false], false),
        Err(missing(&["xbps-query"]))
    );
}

#[test]
fn root_matters_only_for_privileged_recipes() {
    let s = recipe(BackendKind::Apt, &Action::Search { query: "x".to_string() });
    assert_eq!(resolve(&s, &vec![true, false], true), resolve(&s, &vec![true, false], false));
    let i = recipe(BackendKind::Xbps, &Action::Install { packages: strings(&["p"]) });
    let as_root = resolve(&i, &vec![true], true).unwrap();
    let as_user = resolve(&i, &vec![true], false).unwrap();
    for (u, r) in as_user.iter().zip(as_root.iter()) {
        assert_eq!(u.program, "sudo");
        assert_eq!(u.args[0], r.program);
        assert_eq!(u.args[1..].to_vec(), r.args);
    }
}

#[test]
fn sudo_prefix() {
    let c = inv("pacman", &["-Q"]);
    assert_eq!(with_sudo(&c, true), inv("sudo", &["pacman", "-Q"]));
    assert_eq!(with_sudo(&c, false), c);
}

#[test]
fn backends_report_their_kind() {
    for k in [BackendKind::Apt, BackendKind::Pacman, BackendKind::Xbps] {
        assert_eq!(make_backend(k).kind(), k);
    }
    assert_eq!(AptBackend::new().kind(), BackendKind::Apt);
    assert_eq!(PacmanBackend::new().kind(), BackendKind::Pacman);
    assert_eq!(XbpsBackend::new().kind(), BackendKind::Xbps);
}

#[test]
fn backend_results_are_commands_or_missing_tools() {
    let e = env();
    match PacmanBackend::new().list(&e) {
        Ok(cmds) => assert_eq!(cmds, vec![inv("pacman", &["-Q"])]),
        Err(err) => assert_eq!(err, missing(&["pacman"])),
    }
    let search = run(&make_backend(BackendKind::Apt), &e, Action::Search { query: "q".to_string() });
    assert_eq!(search.notice, None);
    match search.commands {
        Ok(cmds) => assert!(
            cmds == vec![inv("apt-cache", &["search", "q"])] || cmds == vec![inv("apt", &["search", "q"])]
        ),
        Err(err) => assert_eq!(err, missing(&["apt-cache", "apt"])),
    }
    let install = run(&make_backend(BackendKind::Xbps), &e, Action::Install { packages: strings(&["p"]) });
    assert_eq!(install.notice, Some("ОС: arch (ядро ), репозиторий: xbps".to_string()));
    match install.commands {
        Ok(cmds) => assert!(
            cmds == vec![inv("xbps-install", &["-y", "p"])]
                || cmds == vec![inv("sudo", &["xbps-install", "-y", "p"])]
        ),
        Err(err) => assert_eq!(err, missing(&["xbps-install"])),
    }
}

#[test]
fn ensure_available_names_the_tool() {
    match AptBackend::new().ensure_available() {
        Ok(()) => {}
        Err(err) => assert_eq!(err, missing(&["apt-get"])),
    }
    match XbpsBackend::new().ensure_available() {
        Ok(()) => {}
        Err(err) => assert_eq!(err, missing(&["xbps-install"])),
    }
}

#[test]
fn single_package_helpers() {
    let one = Action::Install { packages: strings(&["firefox"]) };
    let two = Action::Install { packages: strings(&["a", "b"]) };
    assert!(is_single_package_install(&one));
    assert_eq!(single_package_name(&one), Some("firefox"));
    assert!(!is_single_package_install(&two));
    assert_eq!(single_package_name(&two), Some("a"));
    assert!(!is_single_package_install(&Action::List));
    assert_eq!(single_package_name(&Action::Remove { packages: strings(&["a"]) }), None);
    assert_eq!(single_package_name(&Action::Install { packages: vec![] }), None);
}

#[test]
fn packages_by_name() {
    assert_eq!(Package::new("vim").name, "vim");
    assert_eq!(Package::new("vim".to_string()), Package::new("vim"));
    assert_eq!(Package::from("vim"), Package::new("vim"));
    assert_eq!(Package::from("").name, "");
}

#[test]
fn availability_probes_and_answers() {
    assert_eq!(backend_probes(BackendKind::Apt), strings(&["apt-get", "apt"]));
    assert_eq!(backend_probes(BackendKind::Pacman), strings(&["pacman"]));
    assert_eq!(backend_probes(BackendKind::Xbps), strings(&["xbps-install"]));
    assert!(any_found(&vec![false, true]));
    assert!(!any_found(&vec![false, false]));
    assert!(!any_found(&vec![]));
    assert_eq!(finish_verdict(BackendKind::Apt, &vec![false, true]), Ok(()));
    assert_eq!(
        finish_verdict(BackendKind::Xbps, &vec![false]),
        Err(BootstrapError::StillMissing(BackendKind::Xbps))
    );
    match bootstrap_finish(BackendKind::Xbps) {
        Ok(()) => {}
        Err(e) => assert_eq!(e, BootstrapError::StillMissing(BackendKind::Xbps)),
    }
}

#[test]
fn bootstrap_ready_only_when_found() {
    for sel in [BackendKind::Apt, BackendKind::Pacman, BackendKind::Xbps] {
        for host in [BackendKind::Apt, BackendKind::Pacman, BackendKind::Xbps] {
            for sa in [false, true] {
                for pa in [false, true] {
                    if let Ok(BootstrapStep::Ready) = bootstrap_step(sel, host, sa, pa, false) {
                        assert!(sa || (sel == BackendKind::Pacman && pa));
                    }
                }
            }
        }
    }
}

#[test]
fn bootstrap_on_this_machine_is_one_of_the_plans() {
    let e = env();
    match try_bootstrap_backend_tools(BackendKind::Apt, &e) {
        Ok(BootstrapStep::Ready) => {}
        Ok(BootstrapStep::Install { packages, command }) => {
            assert_eq!(packages, strings(&["apt", "dpkg"]));
            assert!(command.program == "pacman" || command.program == "sudo");
        }
        Err(err) => assert_eq!(err, BootstrapError::Unsupported(BackendKind::Apt)),
    }
}

#[test]
fn install_notice_names_system_and_repository() {
    let e = EnvInfo {
        os_release: parse_os_release("ID=arch\nPRETTY_NAME=\"Arch Linux\"\n"),
        kernel: "6.9.1".to_string(),
    };
    let install = Action::Install { packages: strings(&["vim"]) };
    assert_eq!(
        e.install_notice(BackendKind::Pacman, &install),
        Some("ОС: Arch Linux (ядро 6.9.1), репозиторий: pacman".to_string())
    );
    assert_eq!(e.install_notice(BackendKind::Pacman, &Action::List), None);
    let bare = EnvInfo { os_release: parse_os_release("ID=void\n"), kernel: String::new() };
    assert_eq!(
        bare.install_notice(BackendKind::Xbps, &install),
        Some("ОС: void (ядро ), репозиторий: xbps".to_string())
    );
    let none = EnvInfo { os_release: parse_os_release(""), kernel: "k".to_string() };
    assert_eq!(
        none.install_notice(BackendKind::Apt, &install),
        Some("ОС: Linux (ядро k), репозиторий: apt".to_string())
    );
}

#[test]
fn bootstrap_decisions() {
    assert!(matches!(
        bootstrap_step(BackendKind::Apt, BackendKind::Apt, true, false, false),
        Ok(BootstrapStep::Ready)
    ));
    assert_eq!(
        bootstrap_step(BackendKind::Apt, BackendKind::Apt, false, true, false).unwrap_err(),
        BootstrapError::Unsupported(BackendKind::Apt)
    );
    assert_eq!(
        bootstrap_step(BackendKind::Xbps, BackendKind::Pacman, false, false, false).unwrap_err(),
        BootstrapError::Unsupported(BackendKind::Xbps)
    );
    assert!(matches!(
        bootstrap_step(BackendKind::Pacman, BackendKind::Pacman, false, true, false),
        Ok(BootstrapStep::Ready)
    ));
    match bootstrap_step(BackendKind::Apt, BackendKind::Pacman, false, true, false) {
        Ok(BootstrapStep::Install { packages, command }) => {
            assert_eq!(packages, strings(&["apt", "dpkg"]));
            assert_eq!(command, inv("sudo", &["pacman", "-S", "--needed", "--noconfirm", "apt", "dpkg"]));
        }
        other => panic!("unexpected: {:?}", other),
    }
    match bootstrap_step(BackendKind::Xbps, BackendKind::Pacman, false, true, true) {
        Ok(BootstrapStep::Install { packages, command }) => {
            assert_eq!(packages, strings(&["xbps"]));
            assert_eq!(command, inv("pacman", &["-S", "--needed", "--noconfirm", "xbps"]));
        }
        other => panic!("unexpected: {:?}", other),
    }
}

#[test]
fn tool_labels() {
    assert_eq!(tool_label(BackendKind::Apt), "apt-get/apt");
    assert_eq!(tool_label(BackendKind::Xbps), "xbps-install");
    assert_eq!(tool_label(BackendKind::Pacman), "pacman");
    assert_eq!(BackendKind::Apt.as_str(), "apt");
    assert_eq!(BackendKind::Pacman.as_str(), "pacman");
    assert_eq!(BackendKind::Xbps.as_str(), "xbps");
}

#[test]
fn copies_keep_their_contents() {
    let e = EnvInfo { os_release: parse_os_release("ID=void\nNAME=Void\n"), kernel: "6".to_string() };
    let c = e.clone();
    assert_eq!(c.id(), Some("void"));
    assert_eq!(c.os_release.get("NAME").cloned(), Some("Void".to_string()));
    assert_eq!(c.kernel, "6");
    let a = Action::Install { packages: strings(&["x"]) };
    match a.clone() {
        Action::Install { packages } => assert_eq!(packages, strings(&["x"])),
        other => panic!("unexpected: {:?}", other),
    }
}
