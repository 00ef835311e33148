use multipkgdp::{
    action_from_op, config_candidates, menu_line, menu_order, needs_backend_prompt,
    parse_backend_kind, parse_choice, parse_command_line, pick_backend, preview_lines, shown_hits,
    Action, BackendKind, CliError, CliRequest,
};

fn strings(v: &[&str]) -> Vec<String> {
    v.iter().map(|s| s.to_string()).collect()
}

fn run_request(args: &[&str]) -> (Option<BackendKind>, String, Vec<String>) {
    match parse_command_line(&strings(args)) {
        Ok(CliRequest::Run { backend, op, op_args }) => (backend, op, op_args),
        other => panic!("unexpected: {:?}", other),
    }
}

#[test]
fn backend_names_are_read_in_any_case() {
    assert_eq!(parse_backend_kind("apt"), Ok(BackendKind::Apt));
    assert_eq!(parse_backend_kind("PACMAN"), Ok(BackendKind::Pacman));
    assert_eq!(parse_backend_kind("Xbps"), Ok(BackendKind::Xbps));
}

#[test]
fn unknown_backend_is_refused() {
    assert_eq!(parse_backend_kind("dnf"), Err(CliError::UnknownBackend("dnf".to_string())));
    assert_eq!(parse_backend_kind(""), Err(CliError::UnknownBackend(String::new())));
    assert_eq!(parse_backend_kind("aptx"), Err(CliError::UnknownBackend("aptx".to_string())));
}

#[test]
fn backend_name_round_trips() {
    for k in [BackendKind::Apt, BackendKind::Pacman, BackendKind::Xbps] {
        assert_eq!(parse_backend_kind(k.as_str()), Ok(k));
        assert_eq!(parse_backend_kind(&k.as_str().to_uppercase()), Ok(k));
    }
}

#[test]
fn install_needs_packages() {
    match action_from_op("-S", &strings(&["firefox", "neovim"])) {
        Ok(Action::Install { packages }) => assert_eq!(packages, strings(&["firefox", "neovim"])),
        other => panic!("unexpected: {:?}", other),
    }
    assert_eq!(action_from_op("-S", &vec![]).unwrap_err(), CliError::NoPackages("-S".to_string()));
}

#[test]
fn any_r_operation_removes() {
    match action_from_op("-Rns", &strings(&["firefox"])) {
        Ok(Action::Remove { packages }) => assert_eq!(packages, strings(&["firefox"])),
        other => panic!("unexpected: {:?}", other),
    }
    match action_from_op("-R", &strings(&["a", "b"])) {
        Ok(Action::Remove { packages }) => assert_eq!(packages, strings(&["a", "b"])),
        other => panic!("unexpected: {:?}", other),
    }
    assert_eq!(
        action_from_op("-Rns", &vec![]).unwrap_err(),
        CliError::NoPackages("-Rns".to_string())
    );
}

#[test]
fn search_takes_the_first_argument() {
    match action_from_op("-Ss", &strings(&["fire", "fox"])) {
        Ok(Action::Search { query }) => assert_eq!(query, "fire"),
        other => panic!("unexpected: {:?}", other),
    }
    assert_eq!(action_from_op("-Ss", &vec![]).unwrap_err(), CliError::MissingQuery);
}

#[test]
fn update_list_and_unknown_operations() {
    assert!(matches!(action_from_op("-Syu", &vec![]), Ok(Action::Update)));
    assert!(matches!(action_from_op("-Q", &strings(&["ignored"])), Ok(Action::List)));
    assert_eq!(
        action_from_op("-X", &vec![]).unwrap_err(),
        CliError::UnknownOperation("-X".to_string())
    );
    assert_eq!(
        action_from_op("-Sy", &vec![]).unwrap_err(),
        CliError::UnknownOperation("-Sy".to_string())
    );
}

#[test]
fn command_line_with_operation_and_packages() {
    let (b, op, args) = run_request(&["-S", "firefox", "neovim"]);
    assert_eq!(b, None);
    assert_eq!(op, "-S");
    assert_eq!(args, strings(&["firefox", "neovim"]));
}

#[test]
fn command_line_backend_option_both_forms() {
    let (b, op, args) = run_request(&["--backend", "apt", "-Ss", "firefox"]);
    assert_eq!(b, Some(BackendKind::Apt));
    assert_eq!(op, "-Ss");
    assert_eq!(args, strings(&["firefox"]));
    let (b, op, _) = run_request(&["--backend=PACMAN", "-Q"]);
    assert_eq!(b, Some(BackendKind::Pacman));
    assert_eq!(op, "-Q");
}

#[test]
fn command_line_later_backend_wins() {
    let (b, _, _) = run_request(&["--backend", "apt", "-Syu", "--backend=xbps"]);
    assert_eq!(b, Some(BackendKind::Xbps));
}

#[test]
fn command_line_only_first_dash_argument_is_the_operation() {
    let (_, op, args) = run_request(&["-S", "-Rns", "x"]);
    assert_eq!(op, "-S");
    assert_eq!(args, strings(&["-Rns", "x"]));
    let (_, op, args) = run_request(&["firefox", "-S"]);
    assert_eq!(op, "-S");
    assert_eq!(args, strings(&["firefox"]));
}

#[test]
fn command_line_help() {
    assert!(matches!(parse_command_line(&strings(&["--help"])), Ok(CliRequest::Help)));
    assert!(matches!(parse_command_line(&strings(&["-S", "x", "-h"])), Ok(CliRequest::Help)));
    assert_eq!(
        parse_command_line(&strings(&["--backend", "foo", "--help"])).unwrap_err(),
        CliError::UnknownBackend("foo".to_string())
    );
}

#[test]
fn command_line_errors() {
    assert_eq!(
        parse_command_line(&strings(&["-S", "--backend"])).unwrap_err(),
        CliError::MissingBackendValue
    );
    assert_eq!(
        parse_command_line(&strings(&["--backend=", "-Q"])).unwrap_err(),
        CliError::UnknownBackend(String::new())
    );
    assert_eq!(parse_command_line(&vec![]).unwrap_err(), CliError::MissingOperation);
    assert_eq!(
        parse_command_line(&strings(&["firefox"])).unwrap_err(),
        CliError::MissingOperation
    );
}

#[test]
fn prompt_only_for_a_single_package_without_backend() {
    let one = Action::Install { packages: strings(&["firefox"]) };
    let two = Action::Install { packages: strings(&["firefox", "vim"]) };
    assert!(needs_backend_prompt(None, &one));
    assert!(!needs_backend_prompt(Some(BackendKind::Apt), &one));
    assert!(!needs_backend_prompt(None, &two));
    assert!(!needs_backend_prompt(None, &Action::Update));
}

#[test]
fn backend_precedence() {
    assert_eq!(
        pick_backend(Some(BackendKind::Xbps), Some(BackendKind::Apt), BackendKind::Pacman),
        BackendKind::Xbps
    );
    assert_eq!(pick_backend(None, Some(BackendKind::Apt), BackendKind::Pacman), BackendKind::Apt);
    assert_eq!(pick_backend(None, None, BackendKind::Pacman), BackendKind::Pacman);
}

#[test]
fn choice_answers() {
    assert_eq!(parse_choice("", BackendKind::Apt), Some(BackendKind::Apt));
    assert_eq!(parse_choice("  \n", BackendKind::Xbps), Some(BackendKind::Xbps));
    assert_eq!(parse_choice("1\n", BackendKind::Apt), Some(BackendKind::Pacman));
    assert_eq!(parse_choice(" 2 ", BackendKind::Pacman), Some(BackendKind::Apt));
    assert_eq!(parse_choice("3", BackendKind::Apt), Some(BackendKind::Xbps));
    assert_eq!(parse_choice("4", BackendKind::Apt), None);
    assert_eq!(parse_choice("12", BackendKind::Apt), None);
}

#[test]
fn menu_lines() {
    assert_eq!(
        menu_line(BackendKind::Pacman, true, Some(12), true),
        "  1) Arch (pacman) [найдено: 12] [по умолчанию]"
    );
    assert_eq!(
        menu_line(BackendKind::Apt, false, None, false),
        "  2) Debian/Ubuntu (apt) [не установлен]"
    );
    assert_eq!(menu_line(BackendKind::Xbps, true, Some(0), false), "  3) Void (xbps) [найдено: 0]");
    assert_eq!(
        menu_line(BackendKind::Xbps, false, Some(1234567), true),
        "  3) Void (xbps) [не установлен] [найдено: 1234567] [по умолчанию]"
    );
}

#[test]
fn apt_preview_drops_progress_lines() {
    let out = "Sorting... Done\nFull Text Search... Done\nfirefox/stable 1.0 amd64  \n  web browser\n\n";
    assert_eq!(
        preview_lines(BackendKind::Apt, out),
        strings(&["firefox/stable 1.0 amd64", "  web browser"])
    );
}

#[test]
fn other_previews_keep_every_non_blank_line() {
    let out = "Sorting x\r\n   \nextra/firefox 1.0\n    browser";
    assert_eq!(
        preview_lines(BackendKind::Pacman, out),
        strings(&["Sorting x", "extra/firefox 1.0", "    browser"])
    );
    assert_eq!(preview_lines(BackendKind::Xbps, ""), Vec::<String>::new());
}

#[test]
fn config_file_candidates() {
    assert_eq!(
        config_candidates(Some("/home/u/.cfg"), Some("/home/u")),
        strings(&["multipkgdp.yml", "/home/u/.cfg/multipkgdp.yml", "/etc/multipkgdp.yml"])
    );
    assert_eq!(
        config_candidates(None, Some("/home/u")),
        strings(&["multipkgdp.yml", "/home/u/.config/multipkgdp.yml", "/etc/multipkgdp.yml"])
    );
    assert_eq!(
        config_candidates(None, None),
        strings(&["multipkgdp.yml", "/etc/multipkgdp.yml"])
    );
    assert_eq!(
        config_candidates(Some("/x/"), None),
        strings(&["multipkgdp.yml", "/x/multipkgdp.yml", "/etc/multipkgdp.yml"])
    );
    assert_eq!(
        config_candidates(Some(""), Some("/home/u")),
        strings(&["multipkgdp.yml", "multipkgdp.yml", "/etc/multipkgdp.yml"])
    );
}

#[test]
fn config_paths_match_path_join() {
    for base in ["/a", "/a/", "", "rel/dir"] {
        let mut want = vec!["multipkgdp.yml".to_string()];
        want.push(
            std::path::PathBuf::from(base)
                .join("multipkgdp.yml")
                .to_string_lossy()
                .to_string(),
        );
        want.push("/etc/multipkgdp.yml".to_string());
        assert_eq!(config_candidates(Some(base), None), want);
    }
}

#[test]
fn prompt_order_and_hits() {
    assert_eq!(menu_order(), vec![BackendKind::Pacman, BackendKind::Apt, BackendKind::Xbps]);
    assert_eq!(shown_hits(true, Some(3)), Some(3));
    assert_eq!(shown_hits(true, None), None);
    assert_eq!(shown_hits(false, Some(3)), None);
}

#[test]
fn command_words_name_the_operations() {
    match action_from_op("install", &strings(&["firefox"])) {
        Ok(Action::Install { packages }) => assert_eq!(packages, strings(&["firefox"])),
        other => panic!("unexpected: {:?}", other),
    }
    match action_from_op("remove", &strings(&["firefox"])) {
        Ok(Action::Remove { packages }) => assert_eq!(packages, strings(&["firefox"])),
        other => panic!("unexpected: {:?}", other),
    }
    match action_from_op("search", &strings(&["firefox"])) {
        Ok(Action::Search { query }) => assert_eq!(query, "firefox"),
        other => panic!("unexpected: {:?}", other),
    }
    assert!(matches!(action_from_op("update", &vec![]), Ok(Action::Update)));
    assert!(matches!(action_from_op("list", &vec![]), Ok(Action::List)));
    assert_eq!(
        action_from_op("install", &vec![]).unwrap_err(),
        CliError::NoPackages("install".to_string())
    );
    assert_eq!(action_from_op("search", &vec![]).unwrap_err(), CliError::MissingQuery);
}

#[test]
fn command_line_with_command_words() {
    let (b, op, args) = run_request(&["install", "firefox", "neovim"]);
    assert_eq!((b, op.as_str()), (None, "install"));
    assert_eq!(args, strings(&["firefox", "neovim"]));
    let (b, op, args) = run_request(&["--backend", "pacman", "install", "firefox"]);
    assert_eq!((b, op.as_str()), (Some(BackendKind::Pacman), "install"));
    assert_eq!(args, strings(&["firefox"]));
    let (_, op, args) = run_request(&["-S", "list"]);
    assert_eq!(op, "-S");
    assert_eq!(args, strings(&["list"]));
    let (_, op, args) = run_request(&["update"]);
    assert_eq!((op.as_str(), args.len()), ("update", 0));
    assert_eq!(
        parse_command_line(&strings(&["firefox", "install"])).unwrap_err(),
        CliError::MissingOperation
    );
}
