use multipkgdp::{BackendKind, BootstrapError, Chooser, ChooserAction, ChooserError, ChooserEvent};

fn strings(v: &[&str]) -> Vec<String> {
    v.iter().map(|s| s.to_string()).collect()
}

/// Runs the prompt with the given answers, and returns the actions it asked for.
fn drive(default: BackendKind, events: Vec<ChooserEvent>) -> Vec<ChooserAction> {
    let (mut c, a) = Chooser::start(default);
    let mut actions = vec![a];
    for e in events {
        let (next, a) = c.step(e);
        c = next;
        actions.push(a);
    }
    actions
}

fn finish(a: &ChooserAction) -> Result<BackendKind, ChooserError> {
    match a {
        ChooserAction::Finish(r) => *r,
        other => panic!("unexpected: {:?}", other),
    }
}

#[test]
fn survey_searches_only_present_backends() {
    let acts = drive(
        BackendKind::Apt,
        vec![
            ChooserEvent::Available(true),
            ChooserEvent::Searched(Some(4)),
            ChooserEvent::Available(false),
            ChooserEvent::Available(true),
            ChooserEvent::Searched(None),
        ],
    );
    assert!(matches!(acts[0], ChooserAction::CheckTools(BackendKind::Pacman)));
    assert!(matches!(acts[1], ChooserAction::Search(BackendKind::Pacman)));
    assert!(matches!(acts[2], ChooserAction::CheckTools(BackendKind::Apt)));
    assert!(matches!(acts[3], ChooserAction::CheckTools(BackendKind::Xbps)));
    assert!(matches!(acts[4], ChooserAction::Search(BackendKind::Xbps)));
    match &acts[5] {
        ChooserAction::Prompt(lines) => assert_eq!(
            lines,
            &strings(&[
                "  1) Arch (pacman) [найдено: 4]",
                "  2) Debian/Ubuntu (apt) [не установлен] [по умолчанию]",
                "  3) Void (xbps)",
            ])
        ),
        other => panic!("unexpected: {:?}", other),
    }
}

fn through_prompt(default: BackendKind, mut rest: Vec<ChooserEvent>) -> Vec<ChooserAction> {
    let mut events = vec![
        ChooserEvent::Available(false),
        ChooserEvent::Available(false),
        ChooserEvent::Available(false),
    ];
    events.append(&mut rest);
    drive(default, events)
}

#[test]
fn present_choice_is_taken() {
    let acts = through_prompt(
        BackendKind::Apt,
        vec![ChooserEvent::Answer("3\n".to_string()), ChooserEvent::Available(true)],
    );
    assert!(matches!(acts[4], ChooserAction::CheckTools(BackendKind::Xbps)));
    assert_eq!(finish(&acts[5]), Ok(BackendKind::Xbps));
    let acts = through_prompt(
        BackendKind::Pacman,
        vec![ChooserEvent::Answer("\n".to_string()), ChooserEvent::Available(true)],
    );
    assert_eq!(finish(&acts[5]), Ok(BackendKind::Pacman));
}

#[test]
fn invalid_answer_ends_the_prompt() {
    let acts = through_prompt(BackendKind::Apt, vec![ChooserEvent::Answer("7".to_string())]);
    assert_eq!(finish(&acts[4]), Err(ChooserError::InvalidChoice));
}

#[test]
fn missing_tools_off_arch_are_refused() {
    let acts = through_prompt(
        BackendKind::Apt,
        vec![ChooserEvent::Answer("3".to_string()), ChooserEvent::Available(false)],
    );
    assert_eq!(
        finish(&acts[5]),
        Err(ChooserError::Bootstrap(BootstrapError::Unsupported(BackendKind::Xbps)))
    );
}

#[test]
fn missing_tools_on_arch_are_installed_and_rechecked() {
    let acts = through_prompt(
        BackendKind::Pacman,
        vec![
            ChooserEvent::Answer("2".to_string()),
            ChooserEvent::Available(false),
            ChooserEvent::Available(true),
            ChooserEvent::Root(false),
            ChooserEvent::Installed,
            ChooserEvent::Available(true),
        ],
    );
    assert!(matches!(acts[5], ChooserAction::CheckTools(BackendKind::Pacman)));
    assert!(matches!(acts[6], ChooserAction::CheckRoot));
    match &acts[7] {
        ChooserAction::Install { packages, command } => {
            assert_eq!(packages, &strings(&["apt", "dpkg"]));
            assert_eq!(command.program, "sudo");
            assert_eq!(command.args, strings(&["pacman", "-S", "--needed", "--noconfirm", "apt", "dpkg"]));
        }
        other => panic!("unexpected: {:?}", other),
    }
    assert!(matches!(acts[8], ChooserAction::CheckTools(BackendKind::Apt)));
    assert_eq!(finish(&acts[9]), Ok(BackendKind::Apt));
}

#[test]
fn still_missing_after_installation() {
    let acts = through_prompt(
        BackendKind::Pacman,
        vec![
            ChooserEvent::Answer("3".to_string()),
            ChooserEvent::Available(false),
            ChooserEvent::Available(true),
            ChooserEvent::Root(true),
            ChooserEvent::Installed,
            ChooserEvent::Available(false),
        ],
    );
    match &acts[7] {
        ChooserAction::Install { command, .. } => assert_eq!(command.program, "pacman"),
        other => panic!("unexpected: {:?}", other),
    }
    assert_eq!(
        finish(&acts[9]),
        Err(ChooserError::Bootstrap(BootstrapError::StillMissing(BackendKind::Xbps)))
    );
}

#[test]
fn pacman_without_pacman_is_refused_and_with_it_taken() {
    let acts = through_prompt(
        BackendKind::Pacman,
        vec![
            ChooserEvent::Answer("1".to_string()),
            ChooserEvent::Available(false),
            ChooserEvent::Available(false),
        ],
    );
    assert_eq!(
        finish(&acts[6]),
        Err(ChooserError::Bootstrap(BootstrapError::Unsupported(BackendKind::Pacman)))
    );
    let acts = through_prompt(
        BackendKind::Pacman,
        vec![
            ChooserEvent::Answer("1".to_string()),
            ChooserEvent::Available(false),
            ChooserEvent::Available(true),
        ],
    );
    assert_eq!(finish(&acts[6]), Ok(BackendKind::Pacman));
}

#[test]
fn unexpected_event_ends_the_prompt() {
    let acts = drive(BackendKind::Apt, vec![ChooserEvent::Installed]);
    assert_eq!(finish(&acts[1]), Err(ChooserError::UnexpectedEvent));
}
