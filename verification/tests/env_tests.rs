use multipkgdp::{
    kernel_from_output, os_release_to_map, parse_os_release, unquote, BackendKind, EnvInfo, KvMap,
    OsReleaseFields,
};

fn env_of(text: &str) -> EnvInfo {
    EnvInfo { os_release: parse_os_release(text), kernel: "6.1.0".to_string() }
}

fn value(m: &KvMap, k: &str) -> Option<String> {
    m.get(k).cloned()
}

#[test]
fn kv_map_reads_back_what_was_written() {
    let mut m = KvMap::new();
    assert_eq!(value(&m, "ID"), None);
    m.insert("ID".to_string(), "arch".to_string());
    m.insert("NAME".to_string(), "Arch Linux".to_string());
    assert_eq!(value(&m, "ID"), Some("arch".to_string()));
    m.insert("ID".to_string(), "void".to_string());
    assert_eq!(value(&m, "ID"), Some("void".to_string()));
    assert_eq!(value(&m, "NAME"), Some("Arch Linux".to_string()));
    assert_eq!(value(&m, "id"), None);
}

#[test]
fn os_release_lines() {
    let text = "# comment\nNAME=\"Ubuntu\"\n\n  ID = ubuntu  \nID_LIKE=debian\nPRETTY_NAME='Ubuntu 22.04 LTS'\nBROKEN LINE\nURL=http://x/?a=b\n";
    let m = parse_os_release(text);
    assert_eq!(value(&m, "NAME"), Some("Ubuntu".to_string()));
    assert_eq!(value(&m, "ID"), Some("ubuntu".to_string()));
    assert_eq!(value(&m, "ID_LIKE"), Some("debian".to_string()));
    assert_eq!(value(&m, "PRETTY_NAME"), Some("Ubuntu 22.04 LTS".to_string()));
    assert_eq!(value(&m, "URL"), Some("http://x/?a=b".to_string()));
    assert_eq!(value(&m, "BROKEN LINE"), None);
    assert_eq!(value(&m, "# comment"), None);
}

#[test]
fn os_release_later_line_wins() {
    let m = parse_os_release("ID=debian\r\nID=ubuntu\r\n");
    assert_eq!(value(&m, "ID"), Some("ubuntu".to_string()));
}

#[test]
fn os_release_ignored_lines() {
    let m = parse_os_release("ID=arch\n   # ID=void\n=x\nnoequals");
    assert_eq!(value(&m, "ID"), Some("arch".to_string()));
    assert_eq!(value(&m, ""), Some("x".to_string()));
    assert_eq!(value(&m, "noequals"), None);
}

#[test]
fn unquote_cases() {
    assert_eq!(unquote("\"x y\""), "x y");
    assert_eq!(unquote("'x'"), "x");
    assert_eq!(unquote("\"x'"), "\"x'");
    assert_eq!(unquote("\""), "\"");
    assert_eq!(unquote("\"\""), "");
    assert_eq!(unquote("\"\"\"\""), "\"\"");
    assert_eq!(unquote("plain"), "plain");
    assert_eq!(unquote("\"é\""), "é");
}

#[test]
fn env_fields() {
    let env = env_of("ID=arch\nPRETTY_NAME=\"Arch Linux\"\n");
    assert_eq!(env.id(), Some("arch"));
    assert_eq!(env.id_like(), None);
    assert_eq!(env.pretty_name(), Some("Arch Linux"));
}

#[test]
fn recommended_backends() {
    assert_eq!(env_of("ID=void\n").recommended_backend(), BackendKind::Xbps);
    assert_eq!(env_of("ID=VOID\n").recommended_backend(), BackendKind::Xbps);
    assert_eq!(env_of("ID=foo\nID_LIKE=\"void\"\n").recommended_backend(), BackendKind::Xbps);
    assert_eq!(env_of("ID=arch\n").recommended_backend(), BackendKind::Pacman);
    assert_eq!(env_of("ID=manjaro\n").recommended_backend(), BackendKind::Pacman);
    assert_eq!(
        env_of("ID=endeavouros\nID_LIKE=arch\n").recommended_backend(),
        BackendKind::Pacman
    );
    assert_eq!(env_of("ID=x\nID_LIKE=\"Manjaro Arch\"\n").recommended_backend(), BackendKind::Pacman);
    assert_eq!(env_of("ID=ubuntu\nID_LIKE=debian\n").recommended_backend(), BackendKind::Apt);
    assert_eq!(env_of("").recommended_backend(), BackendKind::Apt);
    assert_eq!(env_of("ID=archie\n").recommended_backend(), BackendKind::Apt);
    assert_eq!(env_of("ID=x\nID_LIKE=archlinux\n").recommended_backend(), BackendKind::Pacman);
    assert_eq!(env_of("ID=void\nID_LIKE=arch\n").recommended_backend(), BackendKind::Xbps);
}

#[test]
fn kernel_release_is_trimmed() {
    assert_eq!(kernel_from_output("6.1.0-13-amd64\n"), "6.1.0-13-amd64");
    assert_eq!(kernel_from_output("  \t\n"), "");
}

fn fields(id_like: Option<Vec<&str>>) -> OsReleaseFields {
    OsReleaseFields {
        id: "ubuntu".to_string(),
        name: "Ubuntu".to_string(),
        pretty_name: "Ubuntu 22.04".to_string(),
        id_like: id_like.map(|v| v.into_iter().map(|s| s.to_string()).collect()),
        version_id: Some("22.04".to_string()),
        version: None,
        variant_id: Some("server".to_string()),
    }
}

#[test]
fn structured_fields_to_map() {
    let m = os_release_to_map(&fields(Some(vec!["ubuntu", "debian"])));
    assert_eq!(value(&m, "ID"), Some("ubuntu".to_string()));
    assert_eq!(value(&m, "NAME"), Some("Ubuntu".to_string()));
    assert_eq!(value(&m, "PRETTY_NAME"), Some("Ubuntu 22.04".to_string()));
    assert_eq!(value(&m, "ID_LIKE"), Some("ubuntu debian".to_string()));
    assert_eq!(value(&m, "VERSION_ID"), Some("22.04".to_string()));
    assert_eq!(value(&m, "VERSION"), None);
    assert_eq!(value(&m, "VARIANT_ID"), Some("server".to_string()));
}

#[test]
fn blank_id_like_is_left_out() {
    assert_eq!(value(&os_release_to_map(&fields(Some(vec![]))), "ID_LIKE"), None);
    assert_eq!(value(&os_release_to_map(&fields(Some(vec![" ", ""]))), "ID_LIKE"), None);
    assert_eq!(value(&os_release_to_map(&fields(None)), "ID_LIKE"), None);
}
