//! Command lines that carry out an action, and the choice among the ways a
//! backend offers to do it.
use vstd::prelude::*;

use crate::action::{Action, Op};
use crate::kind::BackendKind;
use crate::text::views;

verus! {

/// A program and its arguments, as texts.
pub struct CommandLine {
    pub program: Seq<char>,
    pub args: Seq<Seq<char>>,
}

/// One way to carry out an action: the program whose presence is checked
/// first, and the commands to run when it is present.
pub struct Way {
    pub probe: Seq<char>,
    pub commands: Seq<CommandLine>,
}

/// The ways to carry out an action, in order of preference, and whether the
/// commands need superuser rights.
pub struct Plan {
    pub ways: Seq<Way>,
    pub privileged: bool,
}

/// A program to run, with its arguments.
#[derive(Debug, PartialEq, Eq)]
pub struct Invocation {
    pub program: String,
    pub args: Vec<String>,
}

impl View for Invocation {
    type V = CommandLine;

    open spec fn view(&self) -> CommandLine {
        CommandLine { program: self.program@, args: views(self.args@) }
    }
}

/// One way to carry out an action (see [`Way`]).
#[derive(Debug)]
pub struct Alternative {
    pub probe: String,
    pub commands: Vec<Invocation>,
}

/// The views of a list of invocations.
pub open spec fn command_views(l: Seq<Invocation>) -> Seq<CommandLine> {
    l.map_values(|i: Invocation| i@)
}

impl View for Alternative {
    type V = Way;

    open spec fn view(&self) -> Way {
        Way { probe: self.probe@, commands: command_views(self.commands@) }
    }
}

/// The ways to carry out an action (see [`Plan`]).
#[derive(Debug)]
pub struct Recipe {
    pub alternatives: Vec<Alternative>,
    pub privileged: bool,
}

impl View for Recipe {
    type V = Plan;

    open spec fn view(&self) -> Plan {
        Plan { ways: self.alternatives@.map_values(|a: Alternative| a@), privileged: self.privileged }
    }
}

/// Why an action cannot be carried out.
#[derive(Debug, PartialEq, Eq)]
pub enum BackendError {
    /// None of these programs was found in `PATH`.
    ToolsNotFound(Vec<String>),
}

/// A command line of `program` and `args`.
pub open spec fn cmd(program: Seq<char>, args: Seq<Seq<char>>) -> CommandLine {
    CommandLine { program, args }
}

/// A plan with a single way: check `probe`, then run `commands`.
pub open spec fn single_way(probe: Seq<char>, commands: Seq<CommandLine>, privileged: bool) -> Plan {
    Plan { ways: seq![Way { probe, commands }], privileged }
}

/// The plan of each backend for each action.
pub open spec fn plan_for(kind: BackendKind, a: Op) -> Plan {
    match kind {
        BackendKind::Apt => match a {
            Op::Install(packages) => single_way(
                "apt-get"@,
                seq![cmd("apt-get"@, seq!["install"@, "-y"@] + packages)],
                true,
            ),
            Op::Remove(packages) => single_way(
                "apt-get"@,
                seq![cmd("apt-get"@, seq!["remove"@, "-y"@] + packages)],
                true,
            ),
            Op::Update => single_way(
                "apt-get"@,
                seq![cmd("apt-get"@, seq!["update"@]), cmd("apt-get"@, seq!["upgrade"@, "-y"@])],
                true,
            ),
            Op::Search(query) => Plan {
                ways: seq![
                    Way { probe: "apt-cache"@, commands: seq![cmd("apt-cache"@, seq!["search"@, query])] },
                    Way { probe: "apt"@, commands: seq![cmd("apt"@, seq!["search"@, query])] },
                ],
                privileged: false,
            },
            Op::List => Plan {
                ways: seq![
                    Way { probe: "dpkg"@, commands: seq![cmd("dpkg"@, seq!["-l"@])] },
                    Way { probe: "apt"@, commands: seq![cmd("apt"@, seq!["list"@, "--installed"@])] },
                ],
                privileged: false,
            },
        },
        BackendKind::Pacman => match a {
            Op::Install(packages) => single_way(
                "pacman"@,
                seq![cmd("pacman"@, seq!["-S"@, "--noconfirm"@] + packages)],
                true,
            ),
            Op::Remove(packages) => single_way(
                "pacman"@,
                seq![cmd("pacman"@, seq!["-Rns"@, "--noconfirm"@] + packages)],
                true,
            ),
            Op::Update => single_way(
                "pacman"@,
                seq![cmd("pacman"@, seq!["-Syu"@, "--noconfirm"@])],
                true,
            ),
            Op::Search(query) => single_way(
                "pacman"@,
                seq![cmd("pacman"@, seq!["-Ss"@, query])],
                false,
            ),
            Op::List => single_way("pacman"@, seq![cmd("pacman"@, seq!["-Q"@])], false),
        },
        BackendKind::Xbps => match a {
            Op::Install(packages) => single_way(
                "xbps-install"@,
                seq![cmd("xbps-install"@, seq!["-y"@] + packages)],
                true,
            ),
            Op::Remove(packages) => single_way(
                "xbps-install"@,
                seq![cmd("xbps-remove"@, seq!["-Ry"@] + packages)],
                true,
            ),
            Op::Update => single_way(
                "xbps-install"@,
                seq![cmd("xbps-install"@, seq!["-Syu"@])],
                true,
            ),
            Op::Search(query) => single_way(
                "xbps-query"@,
                seq![cmd("xbps-query"@, seq!["-Rs"@, query])],
                false,
            ),
            Op::List => single_way(
                "xbps-query"@,
                seq![cmd("xbps-query"@, seq!["-l"@])],
                false,
            ),
        },
    }
}

/// `c` as it is run: through `sudo` when `sudo` holds, directly otherwise.
pub open spec fn as_run(c: CommandLine, sudo: bool) -> CommandLine {
    if sudo {
        cmd("sudo"@, seq![c.program] + c.args)
    } else {
        c
    }
}

/// The first way, from index `i` on, whose probe was found.
pub open spec fn first_found(found: Seq<bool>, n: int, i: int) -> Option<int>
    decreases n - i,
{
    if i >= n || i >= found.len() {
        None
    } else if found[i] {
        Some(i)
    } else {
        first_found(found, n, i + 1)
    }
}

/// What a plan comes to, given which probes were found (`found[i]` for way `i`;
/// a missing entry counts as not found) and whether the process runs as root:
/// the commands of the first way found, through `sudo` where the plan is
/// privileged and the process is not root; or, where no way was found, the
/// list of the probed programs.
pub open spec fn outcome(p: Plan, found: Seq<bool>, is_root: bool) -> Result<
    Seq<CommandLine>,
    Seq<Seq<char>>,
> {
    match first_found(found, p.ways.len() as int, 0) {
        Some(i) => Ok(p.ways[i].commands.map_values(|c: CommandLine| as_run(c, p.privileged && !is_root))),
        None => Err(p.ways.map_values(|w: Way| w.probe)),
    }
}

/// The view of what carrying out an action returned.
pub open spec fn result_view(r: Result<Vec<Invocation>, BackendError>) -> Result<
    Seq<CommandLine>,
    Seq<Seq<char>>,
> {
    match r {
        Ok(v) => Ok(command_views(v@)),
        Err(BackendError::ToolsNotFound(t)) => Err(views(t@)),
    }
}

/// A copy of a list of strings.
pub fn clone_strings(v: &[String]) -> (r: Vec<String>)
    ensures
        r@ == v@,
{
    let mut out: Vec<String> = Vec::new();
    let mut i: usize = 0;
    while i < v.len()
        invariant
            i <= v.len(),
            out@ == v@.take(i as int),
        decreases v.len() - i,
    {
        out.push(v[i].clone());
        i = i + 1;
        assert(out@ =~= v@.take(i as int));
    }
    assert(v@.take(v.len() as int) =~= v@);
    out
}

/// Appends copies of `extra` to `v`.
fn extend_cloned(v: &mut Vec<String>, extra: &Vec<String>)
    ensures
        final(v)@ == old(v)@ + extra@,
{
    let ghost start = v@;
    let mut i: usize = 0;
    while i < extra.len()
        invariant
            i <= extra.len(),
            v@ == start + extra@.take(i as int),
        decreases extra.len() - i,
    {
        v.push(extra[i].clone());
        i = i + 1;
        assert(v@ =~= start + extra@.take(i as int));
    }
    assert(extra@.take(extra.len() as int) =~= extra@);
}

/// A list of one string.
fn text_list1(a: &str) -> (r: Vec<String>)
    ensures
        views(r@) == seq![a@],
{
    let mut v: Vec<String> = Vec::new();
    v.push(a.to_owned());
    assert(views(v@) =~= seq![a@]);
    v
}

/// A list of two strings.
fn text_list2(a: &str, b: &str) -> (r: Vec<String>)
    ensures
        views(r@) == seq![a@, b@],
{
    let mut v: Vec<String> = Vec::new();
    v.push(a.to_owned());
    v.push(b.to_owned());
    assert(views(v@) =~= seq![a@, b@]);
    v
}

/// Two strings followed by copies of `extra`.
fn text_list2_then(a: &str, b: &str, extra: &Vec<String>) -> (r: Vec<String>)
    ensures
        views(r@) == seq![a@, b@] + views(extra@),
{
    let mut v = text_list2(a, b);
    let ghost head = v@;
    extend_cloned(&mut v, extra);
    assert(views(v@) =~= views(head) + views(extra@));
    v
}

/// One string followed by copies of `extra`.
fn text_list1_then(a: &str, extra: &Vec<String>) -> (r: Vec<String>)
    ensures
        views(r@) == seq![a@] + views(extra@),
{
    let mut v = text_list1(a);
    let ghost head = v@;
    extend_cloned(&mut v, extra);
    assert(views(v@) =~= views(head) + views(extra@));
    v
}

/// An invocation of `program` with `args`.
fn invocation(program: &str, args: Vec<String>) -> (r: Invocation)
    ensures
        r@ == cmd(program@, views(args@)),
{
    Invocation { program: program.to_owned(), args }
}

/// A recipe with a single way of one command.
fn single_recipe(probe: &str, c: Invocation, privileged: bool) -> (r: Recipe)
    ensures
        r@ == single_way(probe@, seq![c@], privileged),
{
    let ghost cv = c@;
    let mut commands: Vec<Invocation> = Vec::new();
    commands.push(c);
    assert(command_views(commands@) =~= seq![cv]);
    let mut alternatives: Vec<Alternative> = Vec::new();
    alternatives.push(Alternative { probe: probe.to_owned(), commands });
    let r = Recipe { alternatives, privileged };
    assert(r@.ways =~= seq![Way { probe: probe@, commands: seq![cv] }]);
    r
}

/// A recipe with two ways of one command each.
fn double_recipe(p1: &str, c1: Invocation, p2: &str, c2: Invocation, privileged: bool) -> (r: Recipe)
    ensures
        r@ == (Plan {
            ways: seq![
                Way { probe: p1@, commands: seq![c1@] },
                Way { probe: p2@, commands: seq![c2@] },
            ],
            privileged,
        }),
{
    let ghost cv1 = c1@;
    let ghost cv2 = c2@;
    let mut commands1: Vec<Invocation> = Vec::new();
    commands1.push(c1);
    assert(command_views(commands1@) =~= seq![cv1]);
    let mut commands2: Vec<Invocation> = Vec::new();
    commands2.push(c2);
    assert(command_views(commands2@) =~= seq![cv2]);
    let mut alternatives: Vec<Alternative> = Vec::new();
    alternatives.push(Alternative { probe: p1.to_owned(), commands: commands1 });
    alternatives.push(Alternative { probe: p2.to_owned(), commands: commands2 });
    let r = Recipe { alternatives, privileged };
    assert(r@.ways =~= seq![
        Way { probe: p1@, commands: seq![cv1] },
        Way { probe: p2@, commands: seq![cv2] },
    ]);
    r
}

/// The ways in which backend `kind` carries out `action`.
pub fn recipe(kind: BackendKind, action: &Action) -> (r: Recipe)
    ensures
        r@ == plan_for(kind, action@),
{
    match kind {
        BackendKind::Apt => match action {
            Action::Install { packages } => single_recipe(
                "apt-get",
                invocation("apt-get", text_list2_then("install", "-y", packages)),
                true,
            ),
            Action::Remove { packages } => single_recipe(
                "apt-get",
                invocation("apt-get", text_list2_then("remove", "-y", packages)),
                true,
            ),
            Action::Update => {
                let c1 = invocation("apt-get", text_list1("update"));
                let c2 = invocation("apt-get", text_list2("upgrade", "-y"));
                let ghost v1 = c1@;
                let ghost v2 = c2@;
                let mut commands: Vec<Invocation> = Vec::new();
                commands.push(c1);
                commands.push(c2);
                assert(command_views(commands@) =~= seq![v1, v2]);
                let mut alternatives: Vec<Alternative> = Vec::new();
                alternatives.push(Alternative { probe: "apt-get".to_owned(), commands });
                let r = Recipe { alternatives, privileged: true };
                assert(r@.ways =~= seq![Way { probe: "apt-get"@, commands: seq![v1, v2] }]);
                r
            },
            Action::Search { query } => double_recipe(
                "apt-cache",
                invocation("apt-cache", text_list2("search", query.as_str())),
                "apt",
                invocation("apt", text_list2("search", query.as_str())),
                false,
            ),
            Action::List => double_recipe(
                "dpkg",
                invocation("dpkg", text_list1("-l")),
                "apt",
                invocation("apt", text_list2("list", "--installed")),
                false,
            ),
        },
        BackendKind::Pacman => match action {
            Action::Install { packages } => single_recipe(
                "pacman",
                invocation("pacman", text_list2_then("-S", "--noconfirm", packages)),
                true,
            ),
            Action::Remove { packages } => single_recipe(
                "pacman",
                invocation("pacman", text_list2_then("-Rns", "--noconfirm", packages)),
                true,
            ),
            Action::Update => single_recipe(
                "pacman",
                invocation("pacman", text_list2("-Syu", "--noconfirm")),
                true,
            ),
            Action::Search { query } => single_recipe(
                "pacman",
                invocation("pacman", text_list2("-Ss", query.as_str())),
                false,
            ),
            Action::List => single_recipe("pacman", invocation("pacman", text_list1("-Q")), false),
        },
        BackendKind::Xbps => match action {
            Action::Install { packages } => single_recipe(
                "xbps-install",
                invocation("xbps-install", text_list1_then("-y", packages)),
                true,
            ),
            Action::Remove { packages } => single_recipe(
                "xbps-install",
                invocation("xbps-remove", text_list1_then("-Ry", packages)),
                true,
            ),
            Action::Update => single_recipe(
                "xbps-install",
                invocation("xbps-install", text_list1("-Syu")),
                true,
            ),
            Action::Search { query } => single_recipe(
                "xbps-query",
                invocation("xbps-query", text_list2("-Rs", query.as_str())),
                false,
            ),
            Action::List => single_recipe(
                "xbps-query",
                invocation("xbps-query", text_list1("-l")),
                false,
            ),
        },
    }
}

/// `inv` as it is run: through `sudo` when `sudo` holds (`sudo PROGRAM ARGS...`),
/// directly otherwise.
pub fn with_sudo(inv: &Invocation, sudo: bool) -> (r: Invocation)
    ensures
        r@ == as_run(inv@, sudo),
{
    if sudo {
        let mut args: Vec<String> = Vec::new();
        args.push(inv.program.clone());
        let ghost head = args@;
        extend_cloned(&mut args, &inv.args);
        assert(views(args@) =~= seq![inv.program@] + views(inv.args@));
        Invocation { program: "sudo".to_owned(), args }
    } else {
        Invocation { program: inv.program.clone(), args: clone_strings(&inv.args) }
    }
}

/// Carries out a recipe given which probes were found (`found[i]` for
/// alternative `i`) and whether the process runs as root; see [`outcome`].
pub fn resolve(recipe: &Recipe, found: &Vec<bool>, is_root: bool) -> (r: Result<
    Vec<Invocation>,
    BackendError,
>)
    ensures
        result_view(r) == outcome(recipe@, found@, is_root),
{
    let n = recipe.alternatives.len();
    let ghost p = recipe@;
    let mut i: usize = 0;
    while i < n && i < found.len() && !found[i]
        invariant
            n == recipe.alternatives.len() == p.ways.len(),
            i <= n,
            first_found(found@, n as int, 0) == first_found(found@, n as int, i as int),
        decreases n - i,
    {
        i = i + 1;
    }
    if i < n && i < found.len() {
        let sudo = recipe.privileged && !is_root;
        let cmds = &recipe.alternatives[i].commands;
        let ghost want = p.ways[i as int].commands.map_values(
            |c: CommandLine| as_run(c, p.privileged && !is_root),
        );
        assert(p.ways[i as int] == recipe.alternatives@[i as int]@);
        let mut out: Vec<Invocation> = Vec::new();
        let mut j: usize = 0;
        while j < cmds.len()
            invariant
                i < p.ways.len(),
                j <= cmds.len(),
                p.ways[i as int].commands == command_views(cmds@),
                sudo == (p.privileged && !is_root),
                want == p.ways[i as int].commands.map_values(
                    |c: CommandLine| as_run(c, p.privileged && !is_root),
                ),
                command_views(out@) == want.take(j as int),
            decreases cmds.len() - j,
        {
            assert(want[j as int] == as_run(cmds@[j as int]@, sudo));
            let ghost before = out@;
            let w = with_sudo(&cmds[j], sudo);
            let ghost wv = w@;
            out.push(w);
            assert(out@ == before.push(w));
            assert(command_views(out@) =~= command_views(before).push(wv));
            assert(want.take(j + 1) =~= want.take(j as int).push(want[j as int]));
            j = j + 1;
        }
        assert(want.take(cmds.len() as int) =~= want);
        Ok(out)
    } else {
        let ghost want = p.ways.map_values(|w: Way| w.probe);
        let mut probes: Vec<String> = Vec::new();
        let mut j: usize = 0;
        while j < n
            invariant
                n == recipe.alternatives.len() == p.ways.len(),
                p == recipe@,
                j <= n,
                want == p.ways.map_values(|w: Way| w.probe),
                views(probes@) == want.take(j as int),
            decreases n - j,
        {
            assert(want[j as int] == recipe.alternatives@[j as int].probe@);
            let ghost before = probes@;
            let t = recipe.alternatives[j].probe.clone();
            probes.push(t);
            assert(views(probes@) =~= views(before).push(want[j as int]));
            assert(want.take(j + 1) =~= want.take(j as int).push(want[j as int]));
            j = j + 1;
        }
        assert(want.take(n as int) =~= want);
        Err(BackendError::ToolsNotFound(probes))
    }
}

/// Whether the process runs as root matters only for privileged plans.
pub proof fn root_matters_only_when_privileged(p: Plan, found: Seq<bool>)
    requires
        !p.privileged,
    ensures
        outcome(p, found, true) == outcome(p, found, false),
{
    match first_found(found, p.ways.len() as int, 0) {
        Some(i) => {
            assert(p.ways[i].commands.map_values(|c: CommandLine| as_run(c, p.privileged && !true))
                =~= p.ways[i].commands.map_values(|c: CommandLine| as_run(c, p.privileged && !false)));
        },
        None => {},
    }
}

/// For a privileged plan, a process that is not root runs the same commands
/// as root does, each through `sudo`; and the same programs are missing.
pub proof fn sudo_prefixes_root_commands(p: Plan, found: Seq<bool>)
    requires
        p.privileged,
    ensures
        match (outcome(p, found, false), outcome(p, found, true)) {
            (Ok(user), Ok(root)) => user.len() == root.len() && forall|j: int|
                0 <= j < user.len() ==> #[trigger] user[j] == cmd(
                    "sudo"@,
                    seq![root[j].program] + root[j].args,
                ),
            (Err(a), Err(b)) => a == b,
            _ => false,
        },
{
}

/// The commands that each backend runs, as root, when the program it checks
/// first is found: the table of the package managers' own command lines.
pub open spec fn first_way_commands(kind: BackendKind, op: Op) -> Seq<CommandLine> {
    match (kind, op) {
        (BackendKind::Apt, Op::Install(p)) => seq![cmd("apt-get"@, seq!["install"@, "-y"@] + p)],
        (BackendKind::Apt, Op::Remove(p)) => seq![cmd("apt-get"@, seq!["remove"@, "-y"@] + p)],
        (BackendKind::Apt, Op::Update) => seq![
            cmd("apt-get"@, seq!["update"@]),
            cmd("apt-get"@, seq!["upgrade"@, "-y"@]),
        ],
        (BackendKind::Apt, Op::Search(q)) => seq![cmd("apt-cache"@, seq!["search"@, q])],
        (BackendKind::Apt, Op::List) => seq![cmd("dpkg"@, seq!["-l"@])],
        (BackendKind::Pacman, Op::Install(p)) => seq![cmd("pacman"@, seq!["-S"@, "--noconfirm"@] + p)],
        (BackendKind::Pacman, Op::Remove(p)) => seq![cmd("pacman"@, seq!["-Rns"@, "--noconfirm"@] + p)],
        (BackendKind::Pacman, Op::Update) => seq![cmd("pacman"@, seq!["-Syu"@, "--noconfirm"@])],
        (BackendKind::Pacman, Op::Search(q)) => seq![cmd("pacman"@, seq!["-Ss"@, q])],
        (BackendKind::Pacman, Op::List) => seq![cmd("pacman"@, seq!["-Q"@])],
        (BackendKind::Xbps, Op::Install(p)) => seq![cmd("xbps-install"@, seq!["-y"@] + p)],
        (BackendKind::Xbps, Op::Remove(p)) => seq![cmd("xbps-remove"@, seq!["-Ry"@] + p)],
        (BackendKind::Xbps, Op::Update) => seq![cmd("xbps-install"@, seq!["-Syu"@])],
        (BackendKind::Xbps, Op::Search(q)) => seq![cmd("xbps-query"@, seq!["-Rs"@, q])],
        (BackendKind::Xbps, Op::List) => seq![cmd("xbps-query"@, seq!["-l"@])],
    }
}

/// Whether an action changes the system (install, remove, update).
pub open spec fn changes_system(op: Op) -> bool {
    op is Install || op is Remove || op is Update
}

/// Where the program that a backend checks first is found, a root process
/// runs that backend's own commands for the action directly, and any other
/// process runs them through `sudo` exactly where the action changes the system.
pub proof fn commands_when_first_way_found(kind: BackendKind, op: Op, found: Seq<bool>)
    requires
        found.len() > 0,
        found[0],
    ensures
        outcome(plan_for(kind, op), found, true) == Ok::<Seq<CommandLine>, Seq<Seq<char>>>(
            first_way_commands(kind, op),
        ),
        outcome(plan_for(kind, op), found, false) == Ok::<Seq<CommandLine>, Seq<Seq<char>>>(
            first_way_commands(kind, op).map_values(
                |c: CommandLine| as_run(c, changes_system(op)),
            ),
        ),
{
    let p = plan_for(kind, op);
    assert(p.privileged == changes_system(op));
    assert(p.ways.len() >= 1);
    assert(first_found(found, p.ways.len() as int, 0) == Some(0int));
    assert(p.ways[0].commands == first_way_commands(kind, op));
    assert(p.ways[0].commands.map_values(|c: CommandLine| as_run(c, p.privileged && !true))
        =~= first_way_commands(kind, op));
    assert(p.ways[0].commands.map_values(|c: CommandLine| as_run(c, p.privileged && !false))
        =~= first_way_commands(kind, op).map_values(
        |c: CommandLine| as_run(c, changes_system(op)),
    ));
}

/// Where `apt-cache` (for a search) or `dpkg` (for a list) is missing and
/// `apt` is found, `apt` does the work; where neither is found, both are named.
pub proof fn apt_falls_back_to_apt(op: Op, found: Seq<bool>, is_root: bool)
    requires
        op is Search || op is List,
    ensures
        found.len() >= 2 && !found[0] && found[1] ==> outcome(plan_for(BackendKind::Apt, op), found, is_root)
            == Ok::<Seq<CommandLine>, Seq<Seq<char>>>(
            match op {
                Op::Search(q) => seq![cmd("apt"@, seq!["search"@, q])],
                _ => seq![cmd("apt"@, seq!["list"@, "--installed"@])],
            },
        ),
        found.len() >= 2 && !found[0] && !found[1] ==> outcome(plan_for(BackendKind::Apt, op), found, is_root)
            == Err::<Seq<CommandLine>, Seq<Seq<char>>>(
            match op {
                Op::Search(q) => seq!["apt-cache"@, "apt"@],
                _ => seq!["dpkg"@, "apt"@],
            },
        ),
{
    let p = plan_for(BackendKind::Apt, op);
    if found.len() >= 2 && !found[0] {
        assert(first_found(found, 2, 0) == first_found(found, 2, 1));
        if found[1] {
            assert(p.ways[1].commands.map_values(|c: CommandLine| as_run(c, p.privileged && !is_root))
                =~= p.ways[1].commands);
        } else {
            assert(first_found(found, 2, 1) == first_found(found, 2, 2));
            assert(p.ways.map_values(|w: Way| w.probe) =~= match op {
                Op::Search(q) => seq!["apt-cache"@, "apt"@],
                _ => seq!["dpkg"@, "apt"@],
            });
        }
    }
}

/// The programs that each backend checks for an action, in order.
pub open spec fn checked_programs(kind: BackendKind, op: Op) -> Seq<Seq<char>> {
    match (kind, op) {
        (BackendKind::Apt, Op::Search(_)) => seq!["apt-cache"@, "apt"@],
        (BackendKind::Apt, Op::List) => seq!["dpkg"@, "apt"@],
        (BackendKind::Apt, _) => seq!["apt-get"@],
        (BackendKind::Pacman, _) => seq!["pacman"@],
        (BackendKind::Xbps, Op::Search(_)) => seq!["xbps-query"@],
        (BackendKind::Xbps, Op::List) => seq!["xbps-query"@],
        (BackendKind::Xbps, _) => seq!["xbps-install"@],
    }
}

/// Where none of the programs that a backend checks is found, the action is
/// refused with exactly those programs named, in order, whether or not the
/// process runs as root.
pub proof fn missing_programs_are_named(kind: BackendKind, op: Op, found: Seq<bool>, is_root: bool)
    requires
        forall|i: int| 0 <= i < found.len() ==> !found[i],
    ensures
        outcome(plan_for(kind, op), found, is_root) == Err::<Seq<CommandLine>, Seq<Seq<char>>>(
            checked_programs(kind, op),
        ),
{
    let p = plan_for(kind, op);
    assert(first_found(found, p.ways.len() as int, 0) is None) by {
        if p.ways.len() == 2 {
            assert(first_found(found, 2, 0) == first_found(found, 2, 1));
            assert(first_found(found, 2, 1) == first_found(found, 2, 2));
        } else {
            assert(first_found(found, 1, 0) == first_found(found, 1, 1));
        }
    }
    assert(p.ways.map_values(|w: Way| w.probe) =~= checked_programs(kind, op));
}

} // verus!
