//! Questions put to the running system: which programs `PATH` holds and
//! whether the process runs as root; and carrying out a recipe with the answers.
use vstd::prelude::*;

use crate::action::{Action, Op};
use crate::kind::BackendKind;
use crate::env::{lookup, suggested_backend, EnvInfo};
use crate::plan::{
    as_run, cmd, outcome, plan_for, recipe, resolve, result_view, with_sudo, BackendError, CommandLine,
    Invocation, Recipe,
};
use crate::text::views;

verus! {

/// Whether an executable named `cmd` is found, as `which::which` looks for it
/// (in the directories of `PATH`, or at `cmd` itself where it holds a path).
///
/// Nothing is stated of the answer: it depends on the environment and the disk.
#[verifier::external_body]
pub fn command_exists(cmd: &str) -> bool {
    which::which(cmd).is_ok()
}

/// Whether the effective user of the process is root, as
/// `nix::unistd::Uid::effective().is_root()` tells.
///
/// Nothing is stated of the answer: it depends on the process.
#[verifier::external_body]
fn running_as_root() -> bool {
    nix::unistd::Uid::effective().is_root()
}

/// Some answer in `found` is yes.
pub open spec fn any_true(found: Seq<bool>) -> bool {
    exists|i: int| 0 <= i < found.len() && found[i]
}

/// The programs whose presence shows that a backend can be used, in the order
/// in which they are looked for; any one of them suffices.
pub open spec fn availability_probes(kind: BackendKind) -> Seq<Seq<char>> {
    match kind {
        BackendKind::Apt => seq!["apt-get"@, "apt"@],
        BackendKind::Pacman => seq!["pacman"@],
        BackendKind::Xbps => seq!["xbps-install"@],
    }
}

/// The programs whose presence shows that a backend can be used; see
/// [`availability_probes`].
pub fn backend_probes(kind: BackendKind) -> (r: Vec<String>)
    ensures
        views(r@) == availability_probes(kind),
{
    let mut v: Vec<String> = Vec::new();
    match kind {
        BackendKind::Apt => {
            v.push("apt-get".to_owned());
            v.push("apt".to_owned());
        },
        BackendKind::Pacman => {
            v.push("pacman".to_owned());
        },
        BackendKind::Xbps => {
            v.push("xbps-install".to_owned());
        },
    }
    assert(views(v@) =~= availability_probes(kind));
    v
}

/// Whether some answer in `found` is yes.
pub fn any_found(found: &Vec<bool>) -> (r: bool)
    ensures
        r == any_true(found@),
{
    let mut i: usize = 0;
    while i < found.len()
        invariant
            i <= found.len(),
            forall|j: int| 0 <= j < i ==> !found@[j],
        decreases found.len() - i,
    {
        if found[i] {
            return true;
        }
        i = i + 1;
    }
    false
}

/// Looks for each of `names` in order and stops at the first one found: one
/// answer per name, and no yes after the first yes.
fn probe_names(names: &Vec<String>) -> (found: Vec<bool>)
    ensures
        found.len() == names.len(),
        forall|i: int, j: int| 0 <= i < j < found.len() && found@[i] ==> !found@[j],
{
    let mut found: Vec<bool> = Vec::new();
    let mut hit = false;
    let mut i: usize = 0;
    while i < names.len()
        invariant
            i <= names.len(),
            found.len() == i,
            hit == any_true(found@),
            forall|a: int, b: int| 0 <= a < b < found.len() && found@[a] ==> !found@[b],
        decreases names.len() - i,
    {
        let ghost before = found@;
        if hit {
            found.push(false);
        } else {
            let yes = command_exists(names[i].as_str());
            found.push(yes);
            hit = yes;
        }
        assert(found@ == before.push(found@[i as int]));
        assert(forall|j: int| 0 <= j < i ==> found@[j] == before[j]);
        i = i + 1;
    }
    found
}

/// Whether the programs of a backend are present: the programs of
/// [`availability_probes`] are looked for in order, up to the first one found,
/// and the answers combine with "or". Which answers came back depends on the disk.
pub fn backend_available(kind: BackendKind) -> (r: bool)
    ensures
        exists|found: Seq<bool>| #[trigger] any_true(found) == r && found.len() == availability_probes(kind).len(),
{
    let names = backend_probes(kind);
    let found = probe_names(&names);
    let r = any_found(&found);
    assert(any_true(found@) == r);
    r
}

/// Asks, in order, for the probe of each alternative, and stops at the first
/// one found: one answer per alternative, and no yes after the first yes.
fn probe_alternatives(r: &Recipe) -> (found: Vec<bool>)
    ensures
        found.len() == r.alternatives.len(),
        forall|i: int, j: int| 0 <= i < j < found.len() && found@[i] ==> !found@[j],
{
    let mut names: Vec<String> = Vec::new();
    let mut i: usize = 0;
    while i < r.alternatives.len()
        invariant
            i <= r.alternatives.len(),
            names.len() == i,
        decreases r.alternatives.len() - i,
    {
        names.push(r.alternatives[i].probe.clone());
        i = i + 1;
    }
    probe_names(&names)
}

/// `r` is what the plan of `kind` for `op` comes to for some answers of the probes
/// and of the root check.
pub open spec fn possible_result(
    kind: BackendKind,
    op: Op,
    r: Result<Vec<Invocation>, BackendError>,
) -> bool {
    exists|found: Seq<bool>, is_root: bool| #[trigger]
        outcome(plan_for(kind, op), found, is_root) == result_view(r)
}

/// Carries out `action` with backend `kind`: asks for the programs of its
/// recipe, and, where the recipe needs superuser rights, whether the process
/// runs as root; then returns the commands to run, or the programs that were
/// looked for in vain.
pub fn carry_out(kind: BackendKind, action: &Action) -> (r: Result<Vec<Invocation>, BackendError>)
    ensures
        possible_result(kind, action@, r),
{
    let rec = recipe(kind, action);
    let found = probe_alternatives(&rec);
    let any = any_found(&found);
    let is_root = if rec.privileged && any {
        running_as_root()
    } else {
        false
    };
    let r = resolve(&rec, &found, is_root);
    assert(outcome(plan_for(kind, action@), found@, is_root) == result_view(r));
    r
}


/// What bootstrapping a backend's programs comes to.
#[derive(Debug)]
pub enum BootstrapStep {
    /// Nothing is to be installed.
    Ready,
    /// `packages` are to be installed with `command`, and the backend checked again.
    Install { packages: Vec<String>, command: Invocation },
}

/// Why a backend's programs cannot be made available.
#[derive(Clone, Copy, Debug, PartialEq, Eq, Structural)]
pub enum BootstrapError {
    /// Programs of another distribution can only be installed through `pacman` on Arch.
    Unsupported(BackendKind),
    /// The programs are still missing after the installation.
    StillMissing(BackendKind),
}

/// The packages that provide a backend's programs on Arch.
pub open spec fn bootstrap_packages(kind: BackendKind) -> Seq<Seq<char>> {
    match kind {
        BackendKind::Apt => seq!["apt"@, "dpkg"@],
        BackendKind::Xbps => seq!["xbps"@],
        BackendKind::Pacman => Seq::empty(),
    }
}

/// What bootstrapping `selected` comes to: nothing where its programs are
/// present; refused unless the host is Arch with `pacman` present; nothing
/// where no package provides them; else installing the packages with
/// `pacman -S --needed --noconfirm`, through `sudo` unless the process is root.
pub open spec fn bootstrap_plan(
    selected: BackendKind,
    host: BackendKind,
    selected_available: bool,
    pacman_available: bool,
    is_root: bool,
) -> Result<Option<(Seq<Seq<char>>, CommandLine)>, BootstrapError> {
    let pkgs = bootstrap_packages(selected);
    if selected_available {
        Ok(None)
    } else if host != BackendKind::Pacman || !pacman_available {
        Err(BootstrapError::Unsupported(selected))
    } else if pkgs.len() == 0 {
        Ok(None)
    } else {
        Ok(
            Some(
                (
                    pkgs,
                    as_run(
                        cmd("pacman"@, seq!["-S"@, "--needed"@, "--noconfirm"@] + pkgs),
                        !is_root,
                    ),
                ),
            ),
        )
    }
}

/// The view of a bootstrapping step.
pub open spec fn step_view(r: Result<BootstrapStep, BootstrapError>) -> Result<
    Option<(Seq<Seq<char>>, CommandLine)>,
    BootstrapError,
> {
    match r {
        Ok(BootstrapStep::Ready) => Ok(None),
        Ok(BootstrapStep::Install { packages, command }) => Ok(Some((views(packages@), command@))),
        Err(e) => Err(e),
    }
}

/// What bootstrapping `selected` comes to, given the answers of the checks;
/// see [`bootstrap_plan`].
pub fn bootstrap_step(
    selected: BackendKind,
    host: BackendKind,
    selected_available: bool,
    pacman_available: bool,
    is_root: bool,
) -> (r: Result<BootstrapStep, BootstrapError>)
    ensures
        step_view(r) == bootstrap_plan(selected, host, selected_available, pacman_available, is_root),
{
    if selected_available {
        return Ok(BootstrapStep::Ready);
    }
    if host != BackendKind::Pacman || !pacman_available {
        return Err(BootstrapError::Unsupported(selected));
    }
    let mut packages: Vec<String> = Vec::new();
    match selected {
        BackendKind::Apt => {
            packages.push("apt".to_owned());
            packages.push("dpkg".to_owned());
        },
        BackendKind::Xbps => {
            packages.push("xbps".to_owned());
        },
        BackendKind::Pacman => {},
    }
    assert(views(packages@) =~= bootstrap_packages(selected));
    if packages.len() == 0 {
        return Ok(BootstrapStep::Ready);
    }
    let mut args: Vec<String> = Vec::new();
    args.push("-S".to_owned());
    args.push("--needed".to_owned());
    args.push("--noconfirm".to_owned());
    let ghost head = args@;
    let mut i: usize = 0;
    while i < packages.len()
        invariant
            i <= packages.len(),
            args@ == head + packages@.take(i as int),
        decreases packages.len() - i,
    {
        args.push(packages[i].clone());
        i = i + 1;
        assert(args@ =~= head + packages@.take(i as int));
    }
    assert(packages@.take(packages.len() as int) =~= packages@);
    assert(views(args@) =~= seq!["-S"@, "--needed"@, "--noconfirm"@] + views(packages@));
    let direct = Invocation { program: "pacman".to_owned(), args };
    let command = with_sudo(&direct, !is_root);
    Ok(BootstrapStep::Install { packages, command })
}

/// What bootstrapping `selected` comes to, given the answers of the probes of
/// `selected` and of `pacman`: `pacman` counts as present only on a host for
/// which the distribution suggests `pacman`; see [`bootstrap_plan`].
pub open spec fn bootstrap_outcome(
    selected: BackendKind,
    host: BackendKind,
    selected_found: Seq<bool>,
    pacman_found: Seq<bool>,
    is_root: bool,
) -> Result<Option<(Seq<Seq<char>>, CommandLine)>, BootstrapError> {
    bootstrap_plan(
        selected,
        host,
        any_true(selected_found),
        host == BackendKind::Pacman && any_true(pacman_found),
        is_root,
    )
}

/// Checks whether `selected` can be used and, where it cannot, whether its
/// programs can be installed through `pacman`; returns what is to be done.
/// The programs of `selected` are looked for first (see [`availability_probes`]);
/// only where none is found and the distribution suggests `pacman` are the
/// programs of `pacman` looked for; the answers then decide as [`bootstrap_plan`] says.
pub fn try_bootstrap_backend_tools(selected: BackendKind, env: &EnvInfo) -> (r: Result<BootstrapStep, BootstrapError>)
    ensures
        exists|selected_found: Seq<bool>, pacman_found: Seq<bool>, is_root: bool|
            selected_found.len() == availability_probes(selected).len()
            && pacman_found.len() == availability_probes(BackendKind::Pacman).len()
            && #[trigger] bootstrap_outcome(
                selected,
                suggested_backend(lookup(env.os_release@, "ID"@), lookup(env.os_release@, "ID_LIKE"@)),
                selected_found,
                pacman_found,
                is_root,
            ) == step_view(r),
{
    let ghost host_spec = suggested_backend(
        lookup(env.os_release@, "ID"@),
        lookup(env.os_release@, "ID_LIKE"@),
    );
    let selected_found = probe_names(&backend_probes(selected));
    let selected_available = any_found(&selected_found);
    let mut pacman_found: Vec<bool> = Vec::new();
    pacman_found.push(false);
    assert(!any_true(pacman_found@));
    if selected_available {
        let r = bootstrap_step(selected, selected, true, false, false);
        assert(bootstrap_outcome(selected, host_spec, selected_found@, pacman_found@, false)
            == step_view(r));
        return r;
    }
    let host = env.recommended_backend();
    if host == BackendKind::Pacman {
        pacman_found = probe_names(&backend_probes(BackendKind::Pacman));
    }
    let pacman_available = host == BackendKind::Pacman && any_found(&pacman_found);
    let is_root = if pacman_available && selected != BackendKind::Pacman {
        running_as_root()
    } else {
        false
    };
    let r = bootstrap_step(selected, host, false, pacman_available, is_root);
    assert(bootstrap_outcome(selected, host_spec, selected_found@, pacman_found@, is_root)
        == step_view(r));
    r
}

/// Nothing is left to install only where the programs of `selected` were found
/// at the last check: those of `selected` themselves, or, for `pacman`, those
/// of `pacman` asked for a second time.
pub proof fn ready_means_found(
    selected: BackendKind,
    host: BackendKind,
    selected_available: bool,
    pacman_available: bool,
    is_root: bool,
)
    ensures
        bootstrap_plan(selected, host, selected_available, pacman_available, is_root) == Ok::<
            Option<(Seq<Seq<char>>, CommandLine)>,
            BootstrapError,
        >(None) ==> selected_available || (selected == BackendKind::Pacman && pacman_available),
{
    assert(bootstrap_packages(BackendKind::Apt).len() == 2);
    assert(bootstrap_packages(BackendKind::Xbps).len() == 1);
}

/// The verdict after an installation, given the answers of the probes of
/// `selected`: `Ok` exactly where some program was found.
pub fn finish_verdict(selected: BackendKind, found: &Vec<bool>) -> (r: Result<(), BootstrapError>)
    ensures
        r is Ok <==> any_true(found@),
        r matches Err(e) ==> e == BootstrapError::StillMissing(selected),
{
    if any_found(found) {
        Ok(())
    } else {
        Err(BootstrapError::StillMissing(selected))
    }
}

/// After the installation: looks for the programs of `selected` again (see
/// [`availability_probes`]); `Ok` where one is found, else the error that they
/// are still missing.
pub fn bootstrap_finish(selected: BackendKind) -> (r: Result<(), BootstrapError>)
    ensures
        exists|found: Seq<bool>| #[trigger] any_true(found) == (r is Ok)
            && found.len() == availability_probes(selected).len(),
        r matches Err(e) ==> e == BootstrapError::StillMissing(selected),
{
    let found = probe_names(&backend_probes(selected));
    let r = finish_verdict(selected, &found);
    assert(any_true(found@) == (r is Ok));
    r
}

/// How the programs of a backend are named when they are missing.
pub open spec fn tool_label_of(kind: BackendKind) -> Seq<char> {
    match kind {
        BackendKind::Apt => "apt-get/apt"@,
        BackendKind::Xbps => "xbps-install"@,
        BackendKind::Pacman => "pacman"@,
    }
}

/// How the programs of a backend are named when they are missing.
pub fn tool_label(kind: BackendKind) -> (r: &'static str)
    ensures
        r@ == tool_label_of(kind),
{
    match kind {
        BackendKind::Apt => "apt-get/apt",
        BackendKind::Xbps => "xbps-install",
        BackendKind::Pacman => "pacman",
    }
}

} // verus!
