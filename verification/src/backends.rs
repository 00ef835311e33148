//! The backends: one per package manager, each turning actions into commands.
use vstd::prelude::*;

use crate::action::{Action, Op};
use crate::env::{install_notice_of, EnvInfo};
use crate::host::{carry_out, command_exists, possible_result};
use crate::kind::BackendKind;
use crate::plan::{clone_strings, BackendError, Invocation};
use crate::text::views;

verus! {

/// A package manager that can carry out the actions of the tool. Each method
/// checks which programs are present and returns the commands to run, in
/// order, or the programs it looked for in vain.
pub trait Backend {
    /// The kind of this backend.
    spec fn spec_kind(&self) -> BackendKind;

    fn kind(&self) -> (r: BackendKind)
        ensures
            r == self.spec_kind(),
    ;

    fn install(&self, env: &EnvInfo, packages: &[String]) -> (r: Result<Vec<Invocation>, BackendError>)
        ensures
            possible_result(self.spec_kind(), Op::Install(views(packages@)), r),
    ;

    fn remove(&self, env: &EnvInfo, packages: &[String]) -> (r: Result<Vec<Invocation>, BackendError>)
        ensures
            possible_result(self.spec_kind(), Op::Remove(views(packages@)), r),
    ;

    fn update(&self, env: &EnvInfo) -> (r: Result<Vec<Invocation>, BackendError>)
        ensures
            possible_result(self.spec_kind(), Op::Update, r),
    ;

    fn search(&self, env: &EnvInfo, query: &str) -> (r: Result<Vec<Invocation>, BackendError>)
        ensures
            possible_result(self.spec_kind(), Op::Search(query@), r),
    ;

    fn list(&self, env: &EnvInfo) -> (r: Result<Vec<Invocation>, BackendError>)
        ensures
            possible_result(self.spec_kind(), Op::List, r),
    ;
}

/// `Ok`, or the error that names `tool` as not found.
pub open spec fn present_or_missing(tool: Seq<char>, r: Result<(), BackendError>) -> bool {
    match r {
        Ok(()) => true,
        Err(BackendError::ToolsNotFound(t)) => views(t@) == seq![tool],
    }
}

/// `Ok` where `tool` is found, else the error naming it.
fn require_tool(tool: &str) -> (r: Result<(), BackendError>)
    ensures
        present_or_missing(tool@, r),
{
    if command_exists(tool) {
        Ok(())
    } else {
        let mut t: Vec<String> = Vec::new();
        t.push(tool.to_owned());
        assert(views(t@) =~= seq![tool@]);
        Err(BackendError::ToolsNotFound(t))
    }
}

/// Installs with `packages` cloned.
fn install_with(kind: BackendKind, packages: &[String]) -> (r: Result<Vec<Invocation>, BackendError>)
    ensures
        possible_result(kind, Op::Install(views(packages@)), r),
{
    carry_out(kind, &Action::Install { packages: clone_strings(packages) })
}

/// Removes with `packages` cloned.
fn remove_with(kind: BackendKind, packages: &[String]) -> (r: Result<Vec<Invocation>, BackendError>)
    ensures
        possible_result(kind, Op::Remove(views(packages@)), r),
{
    carry_out(kind, &Action::Remove { packages: clone_strings(packages) })
}

/// Searches for `query`.
fn search_with(kind: BackendKind, query: &str) -> (r: Result<Vec<Invocation>, BackendError>)
    ensures
        possible_result(kind, Op::Search(query@), r),
{
    carry_out(kind, &Action::Search { query: query.to_owned() })
}

/// The `apt` backend (Debian, Ubuntu): `apt-get`, `apt-cache`, `dpkg`.
#[derive(Debug, Default)]
pub struct AptBackend;

impl AptBackend {
    pub fn new() -> (r: AptBackend)
        ensures
            r.spec_kind() == BackendKind::Apt,
    {
        AptBackend
    }

    /// `Ok` where `apt-get` is found in `PATH`, else the error naming it.
    pub fn ensure_available(&self) -> (r: Result<(), BackendError>)
        ensures
            present_or_missing("apt-get"@, r),
    {
        require_tool("apt-get")
    }
}

impl Backend for AptBackend {
    open spec fn spec_kind(&self) -> BackendKind {
        BackendKind::Apt
    }

    fn kind(&self) -> (r: BackendKind) {
        BackendKind::Apt
    }

    fn install(&self, _env: &EnvInfo, packages: &[String]) -> (r: Result<Vec<Invocation>, BackendError>) {
        install_with(BackendKind::Apt, packages)
    }

    fn remove(&self, _env: &EnvInfo, packages: &[String]) -> (r: Result<Vec<Invocation>, BackendError>) {
        remove_with(BackendKind::Apt, packages)
    }

    fn update(&self, _env: &EnvInfo) -> (r: Result<Vec<Invocation>, BackendError>) {
        carry_out(BackendKind::Apt, &Action::Update)
    }

    fn search(&self, _env: &EnvInfo, query: &str) -> (r: Result<Vec<Invocation>, BackendError>) {
        search_with(BackendKind::Apt, query)
    }

    fn list(&self, _env: &EnvInfo) -> (r: Result<Vec<Invocation>, BackendError>) {
        carry_out(BackendKind::Apt, &Action::List)
    }
}

/// The `pacman` backend (Arch Linux).
#[derive(Debug, Default)]
pub struct PacmanBackend;

impl PacmanBackend {
    pub fn new() -> (r: PacmanBackend)
        ensures
            r.spec_kind() == BackendKind::Pacman,
    {
        PacmanBackend
    }

    /// `Ok` where `pacman` is found in `PATH`, else the error naming it.
    pub fn ensure_available(&self) -> (r: Result<(), BackendError>)
        ensures
            present_or_missing("pacman"@, r),
    {
        require_tool("pacman")
    }
}

impl Backend for PacmanBackend {
    open spec fn spec_kind(&self) -> BackendKind {
        BackendKind::Pacman
    }

    fn kind(&self) -> (r: BackendKind) {
        BackendKind::Pacman
    }

    fn install(&self, _env: &EnvInfo, packages: &[String]) -> (r: Result<Vec<Invocation>, BackendError>) {
        install_with(BackendKind::Pacman, packages)
    }

    fn remove(&self, _env: &EnvInfo, packages: &[String]) -> (r: Result<Vec<Invocation>, BackendError>) {
        remove_with(BackendKind::Pacman, packages)
    }

    fn update(&self, _env: &EnvInfo) -> (r: Result<Vec<Invocation>, BackendError>) {
        carry_out(BackendKind::Pacman, &Action::Update)
    }

    fn search(&self, _env: &EnvInfo, query: &str) -> (r: Result<Vec<Invocation>, BackendError>) {
        search_with(BackendKind::Pacman, query)
    }

    fn list(&self, _env: &EnvInfo) -> (r: Result<Vec<Invocation>, BackendError>) {
        carry_out(BackendKind::Pacman, &Action::List)
    }
}

/// The `xbps` backend (Void Linux): `xbps-install`, `xbps-remove`, `xbps-query`.
#[derive(Debug, Default)]
pub struct XbpsBackend;

impl XbpsBackend {
    pub fn new() -> (r: XbpsBackend)
        ensures
            r.spec_kind() == BackendKind::Xbps,
    {
        XbpsBackend
    }

    /// `Ok` where `xbps-install` is found in `PATH`, else the error naming it.
    pub fn ensure_available(&self) -> (r: Result<(), BackendError>)
        ensures
            present_or_missing("xbps-install"@, r),
    {
        require_tool("xbps-install")
    }
}

impl Backend for XbpsBackend {
    open spec fn spec_kind(&self) -> BackendKind {
        BackendKind::Xbps
    }

    fn kind(&self) -> (r: BackendKind) {
        BackendKind::Xbps
    }

    fn install(&self, _env: &EnvInfo, packages: &[String]) -> (r: Result<Vec<Invocation>, BackendError>) {
        install_with(BackendKind::Xbps, packages)
    }

    fn remove(&self, _env: &EnvInfo, packages: &[String]) -> (r: Result<Vec<Invocation>, BackendError>) {
        remove_with(BackendKind::Xbps, packages)
    }

    fn update(&self, _env: &EnvInfo) -> (r: Result<Vec<Invocation>, BackendError>) {
        carry_out(BackendKind::Xbps, &Action::Update)
    }

    fn search(&self, _env: &EnvInfo, query: &str) -> (r: Result<Vec<Invocation>, BackendError>) {
        search_with(BackendKind::Xbps, query)
    }

    fn list(&self, _env: &EnvInfo) -> (r: Result<Vec<Invocation>, BackendError>) {
        carry_out(BackendKind::Xbps, &Action::List)
    }
}

/// One backend of any kind.
#[derive(Debug)]
pub enum AnyBackend {
    Apt(AptBackend),
    Pacman(PacmanBackend),
    Xbps(XbpsBackend),
}

impl Backend for AnyBackend {
    open spec fn spec_kind(&self) -> BackendKind {
        match self {
            AnyBackend::Apt(_) => BackendKind::Apt,
            AnyBackend::Pacman(_) => BackendKind::Pacman,
            AnyBackend::Xbps(_) => BackendKind::Xbps,
        }
    }

    fn kind(&self) -> (r: BackendKind) {
        match self {
            AnyBackend::Apt(b) => b.kind(),
            AnyBackend::Pacman(b) => b.kind(),
            AnyBackend::Xbps(b) => b.kind(),
        }
    }

    fn install(&self, env: &EnvInfo, packages: &[String]) -> (r: Result<Vec<Invocation>, BackendError>) {
        match self {
            AnyBackend::Apt(b) => b.install(env, packages),
            AnyBackend::Pacman(b) => b.install(env, packages),
            AnyBackend::Xbps(b) => b.install(env, packages),
        }
    }

    fn remove(&self, env: &EnvInfo, packages: &[String]) -> (r: Result<Vec<Invocation>, BackendError>) {
        match self {
            AnyBackend::Apt(b) => b.remove(env, packages),
            AnyBackend::Pacman(b) => b.remove(env, packages),
            AnyBackend::Xbps(b) => b.remove(env, packages),
        }
    }

    fn update(&self, env: &EnvInfo) -> (r: Result<Vec<Invocation>, BackendError>) {
        match self {
            AnyBackend::Apt(b) => b.update(env),
            AnyBackend::Pacman(b) => b.update(env),
            AnyBackend::Xbps(b) => b.update(env),
        }
    }

    fn search(&self, env: &EnvInfo, query: &str) -> (r: Result<Vec<Invocation>, BackendError>) {
        match self {
            AnyBackend::Apt(b) => b.search(env, query),
            AnyBackend::Pacman(b) => b.search(env, query),
            AnyBackend::Xbps(b) => b.search(env, query),
        }
    }

    fn list(&self, env: &EnvInfo) -> (r: Result<Vec<Invocation>, BackendError>) {
        match self {
            AnyBackend::Apt(b) => b.list(env),
            AnyBackend::Pacman(b) => b.list(env),
            AnyBackend::Xbps(b) => b.list(env),
        }
    }
}

/// The backend of the given kind.
pub fn make_backend(kind: BackendKind) -> (r: AnyBackend)
    ensures
        r.spec_kind() == kind,
{
    match kind {
        BackendKind::Apt => AnyBackend::Apt(AptBackend::new()),
        BackendKind::Pacman => AnyBackend::Pacman(PacmanBackend::new()),
        BackendKind::Xbps => AnyBackend::Xbps(XbpsBackend::new()),
    }
}

/// What carrying out an action comes to: the line to show first (for an
/// installation, the system and the repository used), and the commands to
/// run, in order, or the programs that were looked for in vain.
#[derive(Debug)]
pub struct RunPlan {
    pub notice: Option<String>,
    pub commands: Result<Vec<Invocation>, BackendError>,
}

/// Carries out `action` with `backend`: for an installation, the line that
/// shows the system and the repository (see [`install_notice_of`]); and the
/// commands to run, in order, or the programs that were looked for in vain.
pub fn run<B: Backend>(backend: &B, env: &EnvInfo, action: Action) -> (r: RunPlan)
    ensures
        r.notice.is_some() == (action is Install),
        r.notice matches Some(t) ==> t@ == install_notice_of(
            env.os_release@,
            env.kernel@,
            backend.spec_kind(),
        ),
        possible_result(backend.spec_kind(), action@, r.commands),
{
    let notice = env.install_notice(backend.kind(), &action);
    let commands = match action {
        Action::Install { packages } => backend.install(env, packages.as_slice()),
        Action::Remove { packages } => backend.remove(env, packages.as_slice()),
        Action::Update => backend.update(env),
        Action::Search { query } => backend.search(env, query.as_str()),
        Action::List => backend.list(env),
    };
    RunPlan { notice, commands }
}

} // verus!
