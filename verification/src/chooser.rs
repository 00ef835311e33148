//! The backend prompt as a sequence of decisions: which backends are checked
//! and searched, the prompt's lines, the reading of the answer, and the
//! installation of missing programs. The program asks the system and the user
//! and hands each answer back as an event.
use vstd::prelude::*;

use crate::cli::{choice_of, menu_line, menu_line_of, menu_order_of, parse_choice};
use crate::host::{bootstrap_packages, bootstrap_plan, bootstrap_step, step_view, BootstrapError, BootstrapStep};
use crate::kind::BackendKind;
use crate::plan::{CommandLine, Invocation};
use crate::text::{trim, views};

verus! {

/// Why the prompt chose no backend.
#[derive(Clone, Copy, Debug, PartialEq, Eq, Structural)]
pub enum ChooserError {
    /// The answer was not one of the choices.
    InvalidChoice,
    /// The chosen backend's programs are missing and could not be installed.
    Bootstrap(BootstrapError),
    /// An event that the current step does not wait for.
    UnexpectedEvent,
}

/// Where the prompt stands.
#[derive(Debug)]
pub enum ChooserPhase {
    /// Waiting for whether the programs of the `index`-th backend of the prompt are present.
    Surveying { index: usize, installed: Vec<bool>, hits: Vec<Option<usize>> },
    /// Waiting for the number of search results of the `index`-th backend.
    Searching { index: usize, installed: Vec<bool>, hits: Vec<Option<usize>> },
    /// Waiting for the user's answer.
    Asking,
    /// Waiting for whether the chosen backend's programs are present.
    Confirming(BackendKind),
    /// Waiting for whether `pacman`'s programs are present.
    CheckingPacman(BackendKind),
    /// Waiting for whether the process runs as root.
    CheckingRoot(BackendKind),
    /// Waiting for the installation of the chosen backend's programs.
    Installing(BackendKind),
    /// Waiting for whether the chosen backend's programs are present now.
    Rechecking(BackendKind),
    /// The prompt is over.
    Done,
}

/// A [`ChooserPhase`] with its lists taken by their views.
pub enum Phase {
    Surveying { index: usize, installed: Seq<bool>, hits: Seq<Option<usize>> },
    Searching { index: usize, installed: Seq<bool>, hits: Seq<Option<usize>> },
    Asking,
    Confirming(BackendKind),
    CheckingPacman(BackendKind),
    CheckingRoot(BackendKind),
    Installing(BackendKind),
    Rechecking(BackendKind),
    Done,
}

impl View for ChooserPhase {
    type V = Phase;

    open spec fn view(&self) -> Phase {
        match self {
            ChooserPhase::Surveying { index, installed, hits } => Phase::Surveying {
                index: *index,
                installed: installed@,
                hits: hits@,
            },
            ChooserPhase::Searching { index, installed, hits } => Phase::Searching {
                index: *index,
                installed: installed@,
                hits: hits@,
            },
            ChooserPhase::Asking => Phase::Asking,
            ChooserPhase::Confirming(k) => Phase::Confirming(*k),
            ChooserPhase::CheckingPacman(k) => Phase::CheckingPacman(*k),
            ChooserPhase::CheckingRoot(k) => Phase::CheckingRoot(*k),
            ChooserPhase::Installing(k) => Phase::Installing(*k),
            ChooserPhase::Rechecking(k) => Phase::Rechecking(*k),
            ChooserPhase::Done => Phase::Done,
        }
    }
}

/// What the program reports back.
#[derive(Debug)]
pub enum ChooserEvent {
    /// Whether the programs asked for are present.
    Available(bool),
    /// The number of search results, where the search ran.
    Searched(Option<usize>),
    /// The user's answer.
    Answer(String),
    /// Whether the process runs as root.
    Root(bool),
    /// The installation command ran.
    Installed,
}

/// A [`ChooserEvent`] with its text taken by its view.
pub enum Event {
    Available(bool),
    Searched(Option<usize>),
    Answer(Seq<char>),
    Root(bool),
    Installed,
}

impl View for ChooserEvent {
    type V = Event;

    open spec fn view(&self) -> Event {
        match self {
            ChooserEvent::Available(b) => Event::Available(*b),
            ChooserEvent::Searched(h) => Event::Searched(*h),
            ChooserEvent::Answer(t) => Event::Answer(t@),
            ChooserEvent::Root(b) => Event::Root(*b),
            ChooserEvent::Installed => Event::Installed,
        }
    }
}

/// What the program is to do next.
#[derive(Debug)]
pub enum ChooserAction {
    /// Check whether the programs of this backend are present.
    CheckTools(BackendKind),
    /// Search this backend for the package and count the result lines.
    Search(BackendKind),
    /// Show these lines and read the user's answer.
    Prompt(Vec<String>),
    /// Check whether the process runs as root.
    CheckRoot,
    /// Install these packages with this command.
    Install { packages: Vec<String>, command: Invocation },
    /// The prompt is over, with this result.
    Finish(Result<BackendKind, ChooserError>),
}

/// A [`ChooserAction`] with its texts taken by their views.
pub enum Act {
    CheckTools(BackendKind),
    Search(BackendKind),
    Prompt(Seq<Seq<char>>),
    CheckRoot,
    Install(Seq<Seq<char>>, CommandLine),
    Finish(Result<BackendKind, ChooserError>),
}

impl View for ChooserAction {
    type V = Act;

    open spec fn view(&self) -> Act {
        match self {
            ChooserAction::CheckTools(k) => Act::CheckTools(*k),
            ChooserAction::Search(k) => Act::Search(*k),
            ChooserAction::Prompt(l) => Act::Prompt(views(l@)),
            ChooserAction::CheckRoot => Act::CheckRoot,
            ChooserAction::Install { packages, command } => Act::Install(views(packages@), command@),
            ChooserAction::Finish(r) => Act::Finish(*r),
        }
    }
}

/// The lines of the prompt: one per backend, in the prompt's order.
pub open spec fn prompt_lines(
    default: BackendKind,
    installed: Seq<bool>,
    hits: Seq<Option<usize>>,
) -> Seq<Seq<char>> {
    Seq::new(
        3,
        |j: int|
            menu_line_of(
                menu_order_of()[j],
                installed[j],
                hits[j],
                menu_order_of()[j] == default,
            ),
    )
}

/// After the `index`-th backend has been looked at: the next backend is
/// checked, or, after the last, the prompt is shown.
pub open spec fn after_survey(
    default: BackendKind,
    index: usize,
    installed: Seq<bool>,
    hits: Seq<Option<usize>>,
) -> (Phase, Act) {
    if index + 1 < 3 {
        (
            Phase::Surveying { index: (index + 1) as usize, installed, hits },
            Act::CheckTools(menu_order_of()[index + 1]),
        )
    } else {
        (Phase::Asking, Act::Prompt(prompt_lines(default, installed, hits)))
    }
}

/// The prompt's next step. Each backend of the prompt is checked in turn and
/// searched only where its programs are present; then the lines are shown;
/// an answer that is none of the choices ends the prompt; the chosen
/// backend's programs are checked; where they are missing, they are
/// installed through `pacman` only on a system for which `pacman` is the
/// suggested backend (`default`) and where `pacman`'s programs are present,
/// through `sudo` unless the process runs as root; after the installation
/// they are checked again. An event that the step does not wait for ends the
/// prompt (and so does a root check for a backend with nothing to install,
/// which the earlier steps never ask for).
pub open spec fn chooser_next(default: BackendKind, p: Phase, e: Event) -> (Phase, Act) {
    let unexpected = (Phase::Done, Act::Finish(Err(ChooserError::UnexpectedEvent)));
    match p {
        Phase::Surveying { index, installed, hits } => match e {
            Event::Available(b) => if index >= 3 || installed.len() != index || hits.len() != index {
                unexpected
            } else if b {
                (
                    Phase::Searching { index, installed: installed.push(true), hits },
                    Act::Search(menu_order_of()[index as int]),
                )
            } else {
                after_survey(default, index, installed.push(false), hits.push(None))
            },
            _ => unexpected,
        },
        Phase::Searching { index, installed, hits } => match e {
            Event::Searched(h) => if index >= 3 || installed.len() != index + 1 || hits.len()
                != index {
                unexpected
            } else {
                after_survey(default, index, installed, hits.push(h))
            },
            _ => unexpected,
        },
        Phase::Asking => match e {
            Event::Answer(t) => match choice_of(t, default) {
                Some(k) => (Phase::Confirming(k), Act::CheckTools(k)),
                None => (Phase::Done, Act::Finish(Err(ChooserError::InvalidChoice))),
            },
            _ => unexpected,
        },
        Phase::Confirming(k) => match e {
            Event::Available(b) => if b {
                (Phase::Done, Act::Finish(Ok(k)))
            } else if default != BackendKind::Pacman {
                (
                    Phase::Done,
                    Act::Finish(Err(ChooserError::Bootstrap(BootstrapError::Unsupported(k)))),
                )
            } else {
                (Phase::CheckingPacman(k), Act::CheckTools(BackendKind::Pacman))
            },
            _ => unexpected,
        },
        Phase::CheckingPacman(k) => match e {
            Event::Available(b) => if !b {
                (
                    Phase::Done,
                    Act::Finish(Err(ChooserError::Bootstrap(BootstrapError::Unsupported(k)))),
                )
            } else if bootstrap_packages(k).len() == 0 {
                (Phase::Done, Act::Finish(Ok(k)))
            } else {
                (Phase::CheckingRoot(k), Act::CheckRoot)
            },
            _ => unexpected,
        },
        Phase::CheckingRoot(k) => match e {
            Event::Root(r) => match bootstrap_plan(k, BackendKind::Pacman, false, true, r) {
                Ok(Some((pkgs, c))) => (Phase::Installing(k), Act::Install(pkgs, c)),
                Ok(None) => unexpected,
                Err(err) => (Phase::Done, Act::Finish(Err(ChooserError::Bootstrap(err)))),
            },
            _ => unexpected,
        },
        Phase::Installing(k) => match e {
            Event::Installed => (Phase::Rechecking(k), Act::CheckTools(k)),
            _ => unexpected,
        },
        Phase::Rechecking(k) => match e {
            Event::Available(b) => if b {
                (Phase::Done, Act::Finish(Ok(k)))
            } else {
                (
                    Phase::Done,
                    Act::Finish(Err(ChooserError::Bootstrap(BootstrapError::StillMissing(k)))),
                )
            },
            _ => unexpected,
        },
        Phase::Done => unexpected,
    }
}

/// The prompt ends with a backend only on the answer that its programs are
/// present: to the check of the chosen backend, to the check after its
/// installation, or, for `pacman` itself, to the check of `pacman`'s programs.
pub proof fn chosen_only_when_found(default: BackendKind, p: Phase, e: Event, k: BackendKind)
    ensures
        chooser_next(default, p, e).1 == Act::Finish(Ok(k)) ==> e == Event::Available(true) && (p
            == Phase::Confirming(k) || p == Phase::Rechecking(k) || (p == Phase::CheckingPacman(k)
            && k == BackendKind::Pacman)),
{
    assert(bootstrap_packages(BackendKind::Apt).len() == 2);
    assert(bootstrap_packages(BackendKind::Xbps).len() == 1);
}

/// The `i`-th backend of the prompt: `pacman`, `apt`, `xbps`.
fn order_at(i: usize) -> (r: BackendKind)
    requires
        i < 3,
    ensures
        r == menu_order_of()[i as int],
{
    if i == 0 {
        BackendKind::Pacman
    } else if i == 1 {
        BackendKind::Apt
    } else {
        BackendKind::Xbps
    }
}

/// The backend prompt, with the suggested backend as its default.
#[derive(Debug)]
pub struct Chooser {
    pub default: BackendKind,
    pub phase: ChooserPhase,
}

/// The exec form of [`after_survey`].
fn next_after_survey(
    default: BackendKind,
    index: usize,
    installed: Vec<bool>,
    hits: Vec<Option<usize>>,
) -> (r: (ChooserPhase, ChooserAction))
    requires
        index < 3,
        installed.len() == index + 1,
        hits.len() == index + 1,
    ensures
        (r.0@, r.1@) == after_survey(default, index, installed@, hits@),
{
    if index + 1 < 3 {
        let next = order_at(index + 1);
        (ChooserPhase::Surveying { index: index + 1, installed, hits }, ChooserAction::CheckTools(next))
    } else {
        let mut lines: Vec<String> = Vec::new();
        let mut j: usize = 0;
        while j < 3
            invariant
                j <= 3,
                installed.len() == 3,
                hits.len() == 3,
                views(lines@) == prompt_lines(default, installed@, hits@).take(j as int),
            decreases 3 - j,
        {
            let k = order_at(j);
            let line = menu_line(k, installed[j], hits[j], k == default);
            let ghost before = views(lines@);
            let ghost lv = line@;
            lines.push(line);
            assert(views(lines@) =~= before.push(lv));
            assert(prompt_lines(default, installed@, hits@).take(j + 1) =~= prompt_lines(
                default,
                installed@,
                hits@,
            ).take(j as int).push(lv));
            j = j + 1;
        }
        assert(prompt_lines(default, installed@, hits@).take(3) =~= prompt_lines(
            default,
            installed@,
            hits@,
        ));
        (ChooserPhase::Asking, ChooserAction::Prompt(lines))
    }
}

impl Chooser {
    /// The prompt's first step: check the programs of `pacman`, the first
    /// backend of the prompt.
    pub fn start(default: BackendKind) -> (r: (Chooser, ChooserAction))
        ensures
            r.0.default == default,
            r.0.phase@ == (Phase::Surveying { index: 0, installed: Seq::empty(), hits: Seq::empty() }),
            r.1@ == Act::CheckTools(BackendKind::Pacman),
    {
        let installed: Vec<bool> = Vec::new();
        let hits: Vec<Option<usize>> = Vec::new();
        assert(installed@ =~= Seq::<bool>::empty());
        assert(hits@ =~= Seq::<Option<usize>>::empty());
        (
            Chooser { default, phase: ChooserPhase::Surveying { index: 0, installed, hits } },
            ChooserAction::CheckTools(BackendKind::Pacman),
        )
    }

    /// The next step, given the answer to the last action; see [`chooser_next`].
    pub fn step(self, event: ChooserEvent) -> (r: (Chooser, ChooserAction))
        ensures
            r.0.default == self.default,
            (r.0.phase@, r.1@) == chooser_next(self.default, self.phase@, event@),
    {
        let default = self.default;
        let unexpected = ChooserAction::Finish(Err(ChooserError::UnexpectedEvent));
        let (phase, action) = match self.phase {
            ChooserPhase::Surveying { index, installed, hits } => match event {
                ChooserEvent::Available(b) => {
                    if index >= 3 || installed.len() != index || hits.len() != index {
                        (ChooserPhase::Done, unexpected)
                    } else if b {
                        let mut installed = installed;
                        installed.push(true);
                        let kind = order_at(index);
                        (ChooserPhase::Searching { index, installed, hits }, ChooserAction::Search(kind))
                    } else {
                        let mut installed = installed;
                        let mut hits = hits;
                        installed.push(false);
                        hits.push(None);
                        next_after_survey(default, index, installed, hits)
                    }
                },
                _ => (ChooserPhase::Done, unexpected),
            },
            ChooserPhase::Searching { index, installed, hits } => match event {
                ChooserEvent::Searched(h) => {
                    if index >= 3 || installed.len() != index + 1 || hits.len() != index {
                        (ChooserPhase::Done, unexpected)
                    } else {
                        let mut hits = hits;
                        hits.push(h);
                        next_after_survey(default, index, installed, hits)
                    }
                },
                _ => (ChooserPhase::Done, unexpected),
            },
            ChooserPhase::Asking => match event {
                ChooserEvent::Answer(t) => match parse_choice(t.as_str(), default) {
                    Some(k) => (ChooserPhase::Confirming(k), ChooserAction::CheckTools(k)),
                    None => (ChooserPhase::Done, ChooserAction::Finish(Err(ChooserError::InvalidChoice))),
                },
                _ => (ChooserPhase::Done, unexpected),
            },
            ChooserPhase::Confirming(k) => match event {
                ChooserEvent::Available(b) => {
                    if b {
                        (ChooserPhase::Done, ChooserAction::Finish(Ok(k)))
                    } else if default != BackendKind::Pacman {
                        (
                            ChooserPhase::Done,
                            ChooserAction::Finish(
                                Err(ChooserError::Bootstrap(BootstrapError::Unsupported(k))),
                            ),
                        )
                    } else {
                        (ChooserPhase::CheckingPacman(k), ChooserAction::CheckTools(BackendKind::Pacman))
                    }
                },
                _ => (ChooserPhase::Done, unexpected),
            },
            ChooserPhase::CheckingPacman(k) => match event {
                ChooserEvent::Available(b) => {
                    if !b {
                        (
                            ChooserPhase::Done,
                            ChooserAction::Finish(
                                Err(ChooserError::Bootstrap(BootstrapError::Unsupported(k))),
                            ),
                        )
                    } else if k == BackendKind::Pacman {
                        (ChooserPhase::Done, ChooserAction::Finish(Ok(k)))
                    } else {
                        assert(bootstrap_packages(BackendKind::Apt).len() == 2);
                        assert(bootstrap_packages(BackendKind::Xbps).len() == 1);
                        (ChooserPhase::CheckingRoot(k), ChooserAction::CheckRoot)
                    }
                },
                _ => (ChooserPhase::Done, unexpected),
            },
            ChooserPhase::CheckingRoot(k) => match event {
                ChooserEvent::Root(r) => match bootstrap_step(k, BackendKind::Pacman, false, true, r) {
                    Ok(BootstrapStep::Install { packages, command }) => (
                        ChooserPhase::Installing(k),
                        ChooserAction::Install { packages, command },
                    ),
                    Ok(BootstrapStep::Ready) => (ChooserPhase::Done, unexpected),
                    Err(err) => (
                        ChooserPhase::Done,
                        ChooserAction::Finish(Err(ChooserError::Bootstrap(err))),
                    ),
                },
                _ => (ChooserPhase::Done, unexpected),
            },
            ChooserPhase::Installing(k) => match event {
                ChooserEvent::Installed => (ChooserPhase::Rechecking(k), ChooserAction::CheckTools(k)),
                _ => (ChooserPhase::Done, unexpected),
            },
            ChooserPhase::Rechecking(k) => match event {
                ChooserEvent::Available(b) => {
                    if b {
                        (ChooserPhase::Done, ChooserAction::Finish(Ok(k)))
                    } else {
                        (
                            ChooserPhase::Done,
                            ChooserAction::Finish(
                                Err(ChooserError::Bootstrap(BootstrapError::StillMissing(k))),
                            ),
                        )
                    }
                },
                _ => (ChooserPhase::Done, unexpected),
            },
            ChooserPhase::Done => (ChooserPhase::Done, unexpected),
        };
        (Chooser { default, phase }, action)
    }
}

/// An answer that is blank after trimming confirms the prompt's own default,
/// the backend whose line is marked as the default; the digits `1`, `2`, `3`
/// confirm `pacman`, `apt`, `xbps` whatever the default.
pub proof fn answer_confirms_choice(default: BackendKind, t: Seq<char>)
    ensures
        trim(t).len() == 0 ==> chooser_next(default, Phase::Asking, Event::Answer(t)) == (
            Phase::Confirming(default),
            Act::CheckTools(default),
        ),
        trim(t) == "1"@ ==> chooser_next(default, Phase::Asking, Event::Answer(t)) == (
            Phase::Confirming(BackendKind::Pacman),
            Act::CheckTools(BackendKind::Pacman),
        ),
        trim(t) == "2"@ ==> chooser_next(default, Phase::Asking, Event::Answer(t)) == (
            Phase::Confirming(BackendKind::Apt),
            Act::CheckTools(BackendKind::Apt),
        ),
        trim(t) == "3"@ ==> chooser_next(default, Phase::Asking, Event::Answer(t)) == (
            Phase::Confirming(BackendKind::Xbps),
            Act::CheckTools(BackendKind::Xbps),
        ),
{
    reveal_strlit("1");
    reveal_strlit("2");
    reveal_strlit("3");
    assert("1"@ != "2"@) by {
        assert("1"@[0] != "2"@[0]);
    }
    assert("1"@ != "3"@) by {
        assert("1"@[0] != "3"@[0]);
    }
    assert("2"@ != "3"@) by {
        assert("2"@[0] != "3"@[0]);
    }
}

/// The line of the prompt that is marked as the default is the line of the
/// prompt's default backend, and only that line.
pub proof fn prompt_marks_default(
    default: BackendKind,
    installed: Seq<bool>,
    hits: Seq<Option<usize>>,
    j: int,
)
    requires
        0 <= j < 3,
    ensures
        prompt_lines(default, installed, hits)[j] == menu_line_of(
            menu_order_of()[j],
            installed[j],
            hits[j],
            menu_order_of()[j] == default,
        ),
        exists|i: int| 0 <= i < 3 && menu_order_of()[i] == default,
{
    match default {
        BackendKind::Pacman => assert(menu_order_of()[0] == default),
        BackendKind::Apt => assert(menu_order_of()[1] == default),
        BackendKind::Xbps => assert(menu_order_of()[2] == default),
    }
}

/// The survey searches a backend exactly when its programs are present, and
/// takes the backends in the prompt's order; a backend whose programs are
/// present when chosen (or after their installation) is taken.
pub proof fn survey_and_confirm(
    default: BackendKind,
    index: usize,
    installed: Seq<bool>,
    hits: Seq<Option<usize>>,
    b: bool,
    k: BackendKind,
)
    requires
        index < 3,
        installed.len() == index,
        hits.len() == index,
    ensures
        (chooser_next(
            default,
            Phase::Surveying { index, installed, hits },
            Event::Available(b),
        ).1 is Search) == b,
        b ==> chooser_next(
            default,
            Phase::Surveying { index, installed, hits },
            Event::Available(b),
        ).1 == Act::Search(menu_order_of()[index as int]),
        chooser_next(default, Phase::Confirming(k), Event::Available(true)) == (
            Phase::Done,
            Act::Finish(Ok(k)),
        ),
        chooser_next(default, Phase::Rechecking(k), Event::Available(true)) == (
            Phase::Done,
            Act::Finish(Ok(k)),
        ),
        default != BackendKind::Pacman ==> chooser_next(
            default,
            Phase::Confirming(k),
            Event::Available(false),
        ).1 == Act::Finish(Err(ChooserError::Bootstrap(BootstrapError::Unsupported(k)))),
{
}

} // verus!
