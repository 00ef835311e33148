//! The command line of the tool: pacman-style operations (`-S`, `-R...`,
//! `-Ss`, `-Syu`, `-Q`) and the `--backend` option.
use vstd::prelude::*;

use crate::action::{is_single_package_install, single_install, Action, Op};
use crate::env::{lemma_span, span_until};
use crate::kind::BackendKind;
use crate::plan::clone_strings;
use crate::text::{
    chars_equal, chars_of, lemma_lower_idempotent, lower, lower_chars, starts_with, starts_with_chars, string_of, trim, trim_bounds,
    trim_end, trim_end_bound, views,
};

verus! {

/// Why a command line is refused.
#[derive(Debug, PartialEq, Eq)]
pub enum CliError {
    /// `--backend` was the last argument.
    MissingBackendValue,
    /// The backend named is none of `apt`, `pacman`, `xbps`.
    UnknownBackend(String),
    /// No argument starts with `-`.
    MissingOperation,
    /// The operation (`-S` or `-R...`) was given without packages.
    NoPackages(String),
    /// `-Ss` was given without a query.
    MissingQuery,
    /// The operation is none of the supported ones.
    UnknownOperation(String),
}

/// A [`CliError`] with its texts taken by their views.
pub enum CliFault {
    MissingBackendValue,
    UnknownBackend(Seq<char>),
    MissingOperation,
    NoPackages(Seq<char>),
    MissingQuery,
    UnknownOperation(Seq<char>),
}

impl View for CliError {
    type V = CliFault;

    open spec fn view(&self) -> CliFault {
        match self {
            CliError::MissingBackendValue => CliFault::MissingBackendValue,
            CliError::UnknownBackend(s) => CliFault::UnknownBackend(s@),
            CliError::MissingOperation => CliFault::MissingOperation,
            CliError::NoPackages(s) => CliFault::NoPackages(s@),
            CliError::MissingQuery => CliFault::MissingQuery,
            CliError::UnknownOperation(s) => CliFault::UnknownOperation(s@),
        }
    }
}

/// The backend that a name denotes, without regard to ASCII case.
pub open spec fn backend_named(s: Seq<char>) -> Option<BackendKind> {
    let l = lower(s);
    if l == "apt"@ {
        Some(BackendKind::Apt)
    } else if l == "pacman"@ {
        Some(BackendKind::Pacman)
    } else if l == "xbps"@ {
        Some(BackendKind::Xbps)
    } else {
        None
    }
}

/// The backend named by `s` (`apt`, `pacman` or `xbps`, in any ASCII case).
pub fn parse_backend_kind(s: &str) -> (r: Result<BackendKind, CliError>)
    ensures
        match r {
            Ok(k) => backend_named(s@) == Some(k),
            Err(e) => backend_named(s@).is_none() && e@ == CliFault::UnknownBackend(s@),
        },
{
    let l = lower_chars(s);
    if chars_equal(&l, &chars_of("apt")) {
        Ok(BackendKind::Apt)
    } else if chars_equal(&l, &chars_of("pacman")) {
        Ok(BackendKind::Pacman)
    } else if chars_equal(&l, &chars_of("xbps")) {
        Ok(BackendKind::Xbps)
    } else {
        Err(CliError::UnknownBackend(s.to_owned()))
    }
}

/// The command words that name the operations: `install`, `remove`,
/// `update`, `search`, `list`.
pub open spec fn is_command_word(a: Seq<char>) -> bool {
    a == "install"@ || a == "remove"@ || a == "update"@ || a == "search"@ || a == "list"@
}

/// Whether `a` is one of the command words.
pub fn command_word(a: &Vec<char>) -> (r: bool)
    ensures
        r == is_command_word(a@),
{
    chars_equal(a, &chars_of("install")) || chars_equal(a, &chars_of("remove")) || chars_equal(
        a,
        &chars_of("update"),
    ) || chars_equal(a, &chars_of("search")) || chars_equal(a, &chars_of("list"))
}

/// The action that an operation and its arguments ask for. The command words
/// stand for the operations: `install` for `-S`, `remove` for `-R`, `search`
/// for `-Ss`, `update` for `-Syu`, `list` for `-Q`.
pub open spec fn action_of(op: Seq<char>, args: Seq<Seq<char>>) -> Result<Op, CliFault> {
    if op == "-S"@ || op == "install"@ {
        if args.len() == 0 {
            Err(CliFault::NoPackages(op))
        } else {
            Ok(Op::Install(args))
        }
    } else if starts_with(op, "-R"@) || op == "remove"@ {
        if args.len() == 0 {
            Err(CliFault::NoPackages(op))
        } else {
            Ok(Op::Remove(args))
        }
    } else if op == "-Ss"@ || op == "search"@ {
        if args.len() == 0 {
            Err(CliFault::MissingQuery)
        } else {
            Ok(Op::Search(args[0]))
        }
    } else if op == "-Syu"@ || op == "update"@ {
        Ok(Op::Update)
    } else if op == "-Q"@ || op == "list"@ {
        Ok(Op::List)
    } else {
        Err(CliFault::UnknownOperation(op))
    }
}

/// The view of an action or of the reason why there is none.
pub open spec fn action_result_view(r: Result<Action, CliError>) -> Result<Op, CliFault> {
    match r {
        Ok(a) => Ok(a@),
        Err(e) => Err(e@),
    }
}

/// The action for an operation: `-S` (or `install`) installs the packages,
/// any `-R...` such as `-Rns` (or `remove`) removes them, `-Ss` (or `search`)
/// searches for the first argument, `-Syu` (or `update`) updates and `-Q`
/// (or `list`) lists.
pub fn action_from_op(op: &str, op_args: &Vec<String>) -> (r: Result<Action, CliError>)
    ensures
        action_result_view(r) == action_of(op@, views(op_args@)),
{
    let o = chars_of(op);
    if chars_equal(&o, &chars_of("-S")) || chars_equal(&o, &chars_of("install")) {
        if op_args.len() == 0 {
            Err(CliError::NoPackages(op.to_owned()))
        } else {
            Ok(Action::Install { packages: clone_strings(op_args.as_slice()) })
        }
    } else if starts_with_chars(&o, &chars_of("-R")) || chars_equal(&o, &chars_of("remove")) {
        if op_args.len() == 0 {
            Err(CliError::NoPackages(op.to_owned()))
        } else {
            Ok(Action::Remove { packages: clone_strings(op_args.as_slice()) })
        }
    } else if chars_equal(&o, &chars_of("-Ss")) || chars_equal(&o, &chars_of("search")) {
        if op_args.len() == 0 {
            Err(CliError::MissingQuery)
        } else {
            Ok(Action::Search { query: op_args[0].clone() })
        }
    } else if chars_equal(&o, &chars_of("-Syu")) || chars_equal(&o, &chars_of("update")) {
        Ok(Action::Update)
    } else if chars_equal(&o, &chars_of("-Q")) || chars_equal(&o, &chars_of("list")) {
        Ok(Action::List)
    } else {
        Err(CliError::UnknownOperation(op.to_owned()))
    }
}

/// What has been read of a command line so far.
pub struct ScanState {
    pub backend: Option<BackendKind>,
    pub op: Option<Seq<char>>,
    pub args: Seq<Seq<char>>,
}

/// What a command line asks for.
pub enum Request {
    /// Print the usage.
    Help,
    /// Carry out an operation, with the backend chosen by `--backend`, if any.
    Run { backend: Option<BackendKind>, op: Seq<char>, args: Seq<Seq<char>> },
}

/// Reads the arguments `rest` in order, from state `st`: `--help` or `-h` asks
/// for the usage at once; `--backend NAME` and `--backend=NAME` choose the
/// backend (a later one wins); the first other argument that starts with `-`
/// is the operation, and so is a command word (see [`is_command_word`]) that
/// comes before any argument of the operation; every other argument is an
/// argument of the operation.
pub open spec fn scan(st: ScanState, rest: Seq<Seq<char>>) -> Result<Request, CliFault>
    decreases rest.len(),
{
    if rest.len() == 0 {
        match st.op {
            Some(op) => Ok(Request::Run { backend: st.backend, op, args: st.args }),
            None => Err(CliFault::MissingOperation),
        }
    } else {
        let a = rest[0];
        if a == "--help"@ || a == "-h"@ {
            Ok(Request::Help)
        } else if a == "--backend"@ {
            if rest.len() < 2 {
                Err(CliFault::MissingBackendValue)
            } else {
                match backend_named(rest[1]) {
                    Some(k) => scan(
                        ScanState { backend: Some(k), op: st.op, args: st.args },
                        rest.subrange(2, rest.len() as int),
                    ),
                    None => Err(CliFault::UnknownBackend(rest[1])),
                }
            }
        } else if starts_with(a, "--backend="@) {
            let v = a.subrange("--backend="@.len() as int, a.len() as int);
            match backend_named(v) {
                Some(k) => scan(
                    ScanState { backend: Some(k), op: st.op, args: st.args },
                    rest.drop_first(),
                ),
                None => Err(CliFault::UnknownBackend(v)),
            }
        } else if st.op.is_none() && (starts_with(a, "-"@) || (st.args.len() == 0
            && is_command_word(a))) {
            scan(ScanState { backend: st.backend, op: Some(a), args: st.args }, rest.drop_first())
        } else {
            scan(
                ScanState { backend: st.backend, op: st.op, args: st.args.push(a) },
                rest.drop_first(),
            )
        }
    }
}

/// What the command line `args` (without the program's name) asks for.
pub open spec fn request_of(args: Seq<Seq<char>>) -> Result<Request, CliFault> {
    scan(ScanState { backend: None, op: None, args: Seq::empty() }, args)
}

/// What a command line asks for.
#[derive(Debug)]
pub enum CliRequest {
    /// Print the usage.
    Help,
    /// Carry out `op` with `op_args`, with the backend chosen by `--backend`, if any.
    Run { backend: Option<BackendKind>, op: String, op_args: Vec<String> },
}

/// The view of a parsed command line.
pub open spec fn request_view(r: Result<CliRequest, CliError>) -> Result<Request, CliFault> {
    match r {
        Ok(CliRequest::Help) => Ok(Request::Help),
        Ok(CliRequest::Run { backend, op, op_args }) => Ok(
            Request::Run { backend, op: op@, args: views(op_args@) },
        ),
        Err(e) => Err(e@),
    }
}

/// The operating state as the views of its parts.
pub open spec fn state_of(backend: Option<BackendKind>, op: Option<String>, args: Seq<String>) -> ScanState {
    ScanState {
        backend,
        op: match op {
            Some(o) => Some(o@),
            None => None,
        },
        args: views(args),
    }
}

/// Reads a command line (without the program's name); see [`scan`].
pub fn parse_command_line(args: &Vec<String>) -> (r: Result<CliRequest, CliError>)
    ensures
        request_view(r) == request_of(views(args@)),
{
    let ghost all = views(args@);
    let n = args.len();
    let mut backend: Option<BackendKind> = None;
    let mut op: Option<String> = None;
    let mut op_args: Vec<String> = Vec::new();
    let mut i: usize = 0;
    let help = chars_of("--help");
    let short_help = chars_of("-h");
    let backend_flag = chars_of("--backend");
    let backend_eq = chars_of("--backend=");
    let dash = chars_of("-");
    assert(all.subrange(0, n as int) =~= all);
    assert(views(op_args@) =~= Seq::<Seq<char>>::empty());
    while i < n
        invariant
            n == args.len(),
            all == views(args@),
            i <= n,
            help@ == "--help"@,
            short_help@ == "-h"@,
            backend_flag@ == "--backend"@,
            backend_eq@ == "--backend="@,
            dash@ == "-"@,
            request_of(all) == scan(state_of(backend, op, op_args@), all.subrange(i as int, n as int)),
        decreases n - i,
    {
        let ghost rest = all.subrange(i as int, n as int);
        let a = chars_of(args[i].as_str());
        assert(rest[0] == a@);
        if chars_equal(&a, &help) || chars_equal(&a, &short_help) {
            return Ok(CliRequest::Help);
        } else if chars_equal(&a, &backend_flag) {
            if i + 1 >= n {
                return Err(CliError::MissingBackendValue);
            }
            assert(rest[1] == args@[i + 1]@);
            match parse_backend_kind(args[i + 1].as_str()) {
                Ok(k) => {
                    backend = Some(k);
                },
                Err(e) => {
                    return Err(e);
                },
            }
            assert(rest.subrange(2, rest.len() as int) =~= all.subrange(i + 2, n as int));
            i = i + 2;
        } else if starts_with_chars(&a, &backend_eq) {
            let v = string_of(&a, backend_eq.len(), a.len());
            match parse_backend_kind(v.as_str()) {
                Ok(k) => {
                    backend = Some(k);
                },
                Err(e) => {
                    return Err(e);
                },
            }
            assert(rest.drop_first() =~= all.subrange(i + 1, n as int));
            i = i + 1;
        } else if op.is_none() && (starts_with_chars(&a, &dash) || (op_args.len() == 0
            && command_word(&a))) {
            op = Some(args[i].clone());
            assert(rest.drop_first() =~= all.subrange(i + 1, n as int));
            i = i + 1;
        } else {
            let ghost before = op_args@;
            op_args.push(args[i].clone());
            assert(views(op_args@) =~= views(before).push(a@));
            assert(rest.drop_first() =~= all.subrange(i + 1, n as int));
            i = i + 1;
        }
    }
    match op {
        Some(o) => Ok(CliRequest::Run { backend, op: o, op_args }),
        None => Err(CliError::MissingOperation),
    }
}

/// Whether the user should be asked which backend installs the package: no
/// `--backend` was given and the action installs exactly one package.
pub fn needs_backend_prompt(backend: Option<BackendKind>, action: &Action) -> (r: bool)
    ensures
        r == (backend.is_none() && single_install(*action).is_some()),
{
    backend.is_none() && is_single_package_install(action)
}

/// The backend to use: the one given by `--backend`, else the one of the
/// configuration file, else the one that the distribution suggests.
pub fn pick_backend(
    backend: Option<BackendKind>,
    configured: Option<BackendKind>,
    recommended: BackendKind,
) -> (r: BackendKind)
    ensures
        r == match backend {
            Some(k) => k,
            None => match configured {
                Some(k) => k,
                None => recommended,
            },
        },
{
    match backend {
        Some(k) => k,
        None => match configured {
            Some(k) => k,
            None => recommended,
        },
    }
}

/// The backend that an answer to the backend prompt chooses, after trimming:
/// an empty answer takes the default, `1` pacman, `2` apt and `3` xbps.
pub open spec fn choice_of(answer: Seq<char>, default: BackendKind) -> Option<BackendKind> {
    let t = trim(answer);
    if t.len() == 0 {
        Some(default)
    } else if t == "1"@ {
        Some(BackendKind::Pacman)
    } else if t == "2"@ {
        Some(BackendKind::Apt)
    } else if t == "3"@ {
        Some(BackendKind::Xbps)
    } else {
        None
    }
}

/// Reads an answer to the backend prompt; see [`choice_of`]. `None` stands
/// for an answer that is not one of the choices.
pub fn parse_choice(answer: &str, default: BackendKind) -> (r: Option<BackendKind>)
    ensures
        r == choice_of(answer@, default),
{
    let v = chars_of(answer);
    let (a, b) = trim_bounds(&v, 0, v.len());
    assert(v@.subrange(0, v@.len() as int) =~= v@);
    let t = string_of(&v, a, b);
    let tc = chars_of(t.as_str());
    if a == b {
        Some(default)
    } else if chars_equal(&tc, &chars_of("1")) {
        Some(BackendKind::Pacman)
    } else if chars_equal(&tc, &chars_of("2")) {
        Some(BackendKind::Apt)
    } else if chars_equal(&tc, &chars_of("3")) {
        Some(BackendKind::Xbps)
    } else {
        None
    }
}

/// The label of a backend in the prompt.
pub open spec fn menu_label(kind: BackendKind) -> Seq<char> {
    match kind {
        BackendKind::Pacman => "  1) Arch (pacman)"@,
        BackendKind::Apt => "  2) Debian/Ubuntu (apt)"@,
        BackendKind::Xbps => "  3) Void (xbps)"@,
    }
}

/// The decimal digits of `n`.
pub open spec fn decimal(n: nat) -> Seq<char>
    decreases n,
{
    if n < 10 {
        seq![(48 + n) as char]
    } else {
        decimal(n / 10) + seq![(48 + n % 10) as char]
    }
}

/// Appends the decimal digits of `n` to `out`.
pub fn push_decimal(out: &mut String, n: usize)
    ensures
        final(out)@ == old(out)@ + decimal(n as nat),
    decreases n,
{
    if n >= 10 {
        push_decimal(out, n / 10);
    }
    let d: u8 = (n % 10) as u8;
    let c: char = (d + 48) as char;
    crate::text::push_char(out, c);
    assert(out@ =~= old(out)@ + decimal(n as nat));
}

/// The line of the prompt for `kind`: its label, then `[не установлен]`
/// where its programs are missing, the number of search results where the
/// search ran, and `[по умолчанию]` for the default.
pub open spec fn menu_line_of(kind: BackendKind, installed: bool, hits: Option<usize>, is_default: bool) -> Seq<char> {
    menu_label(kind) + (if installed {
        Seq::empty()
    } else {
        " [не установлен]"@
    }) + match hits {
        Some(n) => " [найдено: "@ + decimal(n as nat) + "]"@,
        None => Seq::empty(),
    } + (if is_default {
        " [по умолчанию]"@
    } else {
        Seq::empty()
    })
}

/// One line of the backend prompt; see [`menu_line_of`].
pub fn menu_line(kind: BackendKind, installed: bool, hits: Option<usize>, is_default: bool) -> (r: String)
    ensures
        r@ == menu_line_of(kind, installed, hits, is_default),
{
    let mut out = String::new();
    match kind {
        BackendKind::Pacman => out.append("  1) Arch (pacman)"),
        BackendKind::Apt => out.append("  2) Debian/Ubuntu (apt)"),
        BackendKind::Xbps => out.append("  3) Void (xbps)"),
    }
    let ghost l = out@;
    if !installed {
        out.append(" [не установлен]");
    }
    let ghost m = out@;
    match hits {
        Some(n) => {
            out.append(" [найдено: ");
            push_decimal(&mut out, n);
            out.append("]");
        },
        None => {},
    }
    let ghost h = out@;
    if is_default {
        out.append(" [по умолчанию]");
    }
    assert(out@ =~= menu_line_of(kind, installed, hits, is_default));
    out
}

/// Whether a trimmed line of search output is shown: it is not empty, and for
/// `apt` it is not one of the progress lines `Sorting...` and `Full Text Search...`.
pub open spec fn line_shown(kind: BackendKind, l: Seq<char>) -> bool {
    l.len() > 0 && (kind == BackendKind::Apt ==> !starts_with(l, "Sorting"@) && !starts_with(
        l,
        "Full Text Search"@,
    ))
}

/// The lines of search output `s` that are shown, without trailing whitespace.
pub open spec fn preview_of(kind: BackendKind, s: Seq<char>) -> Seq<Seq<char>>
    decreases s.len(),
{
    let n = span_until(s, '\n');
    let l = trim_end(s.subrange(0, n as int));
    let head = if line_shown(kind, l) {
        seq![l]
    } else {
        Seq::empty()
    };
    if n < s.len() {
        head + preview_of(kind, s.subrange(n as int + 1, s.len() as int))
    } else {
        head
    }
}

/// The result lines of a search with backend `kind`; see [`preview_of`].
pub fn preview_lines(kind: BackendKind, out: &str) -> (r: Vec<String>)
    ensures
        views(r@) == preview_of(kind, out@),
{
    let s = chars_of(out);
    let n = s.len();
    let sorting = chars_of("Sorting");
    let full_text = chars_of("Full Text Search");
    let mut lines: Vec<String> = Vec::new();
    let mut start: usize = 0;
    assert(s@.subrange(0, n as int) =~= out@);
    assert(views(lines@) =~= Seq::<Seq<char>>::empty());
    loop
        invariant_except_break
            preview_of(kind, out@) == views(lines@) + preview_of(kind, s@.subrange(start as int, n as int)),
        invariant
            n == s.len(),
            start <= n,
            sorting@ == "Sorting"@,
            full_text@ == "Full Text Search"@,
        ensures
            preview_of(kind, out@) == views(lines@),
        decreases n - start,
    {
        let ghost rest = s@.subrange(start as int, n as int);
        let mut k = start;
        while k < n && s[k] != '\n'
            invariant
                start <= k <= n == s.len(),
                forall|i: int| start <= i < k ==> s@[i] != '\n',
            decreases n - k,
        {
            k = k + 1;
        }
        proof {
            assert forall|i: int| 0 <= i < k - start implies rest[i] != '\n' by {
                assert(rest[i] == s@[start + i]);
            }
            if k < n {
                assert(rest[k - start] == s@[k as int]);
            }
            lemma_span(rest, '\n', k - start);
            assert(rest.subrange(0, k - start) =~= s@.subrange(start as int, k as int));
        }
        let e = trim_end_bound(&s, start, k);
        let line = string_of(&s, start, e);
        let lc = chars_of(line.as_str());
        let shown = e > start && (kind != BackendKind::Apt || (!starts_with_chars(&lc, &sorting)
            && !starts_with_chars(&lc, &full_text)));
        let ghost lv = line@;
        let ghost before = views(lines@);
        assert(shown == line_shown(kind, lv));
        if shown {
            lines.push(line);
            assert(views(lines@) =~= before + seq![lv]);
        }
        if k == n {
            assert(rest =~= s@.subrange(start as int, k as int));
            assert(views(lines@) =~= before + preview_of(kind, rest));
            break;
        }
        assert(rest.subrange(k - start + 1, rest.len() as int) =~= s@.subrange(k + 1, n as int));
        assert(views(lines@) + preview_of(kind, s@.subrange(k + 1, n as int)) =~= before
            + preview_of(kind, rest));
        start = k + 1;
    }
    lines
}

/// `rel` appended to the directory `base`, as `PathBuf::join` does for a
/// relative `rel`: with a `/` between them unless `base` is empty or already
/// ends with one.
pub open spec fn path_join(base: Seq<char>, rel: Seq<char>) -> Seq<char> {
    if base.len() == 0 {
        rel
    } else if base.last() == '/' {
        base + rel
    } else {
        base + "/"@ + rel
    }
}

/// The configuration files to look at, in order: `multipkgdp.yml` in the
/// working directory; `$XDG_CONFIG_HOME/multipkgdp.yml`, or, where that
/// variable is not set, `$HOME/.config/multipkgdp.yml`; and `/etc/multipkgdp.yml`.
pub open spec fn config_paths(xdg: Option<Seq<char>>, home: Option<Seq<char>>) -> Seq<Seq<char>> {
    seq!["multipkgdp.yml"@] + match xdg {
        Some(x) => seq![path_join(x, "multipkgdp.yml"@)],
        None => match home {
            Some(h) => seq![path_join(h, ".config/multipkgdp.yml"@)],
            None => Seq::empty(),
        },
    } + seq!["/etc/multipkgdp.yml"@]
}

/// `rel` appended to the directory `base`; see [`path_join`].
pub fn join_path(base: &str, rel: &str) -> (r: String)
    ensures
        r@ == path_join(base@, rel@),
{
    let b = chars_of(base);
    let mut out = base.to_owned();
    if b.len() == 0 {
        return rel.to_owned();
    }
    if b[b.len() - 1] != '/' {
        out.append("/");
    }
    out.append(rel);
    out
}

/// The configuration files to look at, given the values of `XDG_CONFIG_HOME`
/// and `HOME` where they are set; see [`config_paths`].
pub fn config_candidates(xdg: Option<&str>, home: Option<&str>) -> (r: Vec<String>)
    ensures
        views(r@) == config_paths(
            match xdg {
                Some(x) => Some(x@),
                None => None,
            },
            match home {
                Some(h) => Some(h@),
                None => None,
            },
        ),
{
    let mut v: Vec<String> = Vec::new();
    v.push("multipkgdp.yml".to_owned());
    let ghost first = views(v@);
    match xdg {
        Some(x) => v.push(join_path(x, "multipkgdp.yml")),
        None => match home {
            Some(h) => v.push(join_path(h, ".config/multipkgdp.yml")),
            None => {},
        },
    }
    let ghost mid = views(v@);
    v.push("/etc/multipkgdp.yml".to_owned());
    assert(views(v@) =~= config_paths(
        match xdg {
            Some(x) => Some(x@),
            None => None,
        },
        match home {
            Some(h) => Some(h@),
            None => None,
        },
    ));
    v
}

/// The name of every backend, as `BackendKind::as_str` gives it, is read back
/// as that backend by `parse_backend_kind`.
pub proof fn backend_name_round_trip(k: BackendKind)
    ensures
        backend_named(k.name()) == Some(k),
{
    reveal_strlit("apt");
    reveal_strlit("pacman");
    reveal_strlit("xbps");
    assert(lower("apt"@) =~= "apt"@);
    assert(lower("pacman"@) =~= "pacman"@);
    assert(lower("xbps"@) =~= "xbps"@);
}

/// Backend names are read without regard to ASCII case.
pub proof fn backend_name_ignores_case(s: Seq<char>)
    ensures
        backend_named(lower(s)) == backend_named(s),
{
    lemma_lower_idempotent(s);
}

/// The order in which the backend prompt lists the backends.
pub open spec fn menu_order_of() -> Seq<BackendKind> {
    seq![BackendKind::Pacman, BackendKind::Apt, BackendKind::Xbps]
}

/// The backends of the prompt, in order: `pacman`, `apt`, `xbps`.
pub fn menu_order() -> (r: Vec<BackendKind>)
    ensures
        r@ == menu_order_of(),
{
    let mut v: Vec<BackendKind> = Vec::new();
    v.push(BackendKind::Pacman);
    v.push(BackendKind::Apt);
    v.push(BackendKind::Xbps);
    assert(v@ =~= menu_order_of());
    v
}

/// The number of search results shown for a backend in the prompt: the
/// number of result lines where its programs are present and the search ran,
/// nothing otherwise.
pub fn shown_hits(available: bool, result_lines: Option<usize>) -> (r: Option<usize>)
    ensures
        r == (if available {
            result_lines
        } else {
            None
        }),
{
    if available {
        result_lines
    } else {
        None
    }
}

/// `--backend NAME` takes effect wherever it stands, also after the operation
/// and its arguments, and never becomes an argument: reading it sets the
/// backend and goes on with the rest; a name that is no backend is refused.
pub proof fn backend_option_anywhere(st: ScanState, n: Seq<char>, rest: Seq<Seq<char>>)
    ensures
        backend_named(n) matches Some(k) ==> scan(st, seq!["--backend"@, n] + rest) == scan(
            ScanState { backend: Some(k), op: st.op, args: st.args },
            rest,
        ),
        backend_named(n) is None ==> scan(st, seq!["--backend"@, n] + rest) == Err::<
            Request,
            CliFault,
        >(CliFault::UnknownBackend(n)),
{
    reveal_strlit("--backend");
    reveal_strlit("--help");
    reveal_strlit("-h");
    let s = seq!["--backend"@, n] + rest;
    assert(s[0] == "--backend"@);
    assert(s[1] == n);
    assert(s.subrange(2, s.len() as int) =~= rest);
    assert("--backend"@ != "--help"@);
    assert("--backend"@ != "-h"@);
}

/// `--backend=NAME` takes effect wherever it stands, and never becomes an argument.
pub proof fn backend_assignment_anywhere(st: ScanState, n: Seq<char>, rest: Seq<Seq<char>>)
    ensures
        backend_named(n) matches Some(k) ==> scan(st, seq!["--backend="@ + n] + rest) == scan(
            ScanState { backend: Some(k), op: st.op, args: st.args },
            rest,
        ),
        backend_named(n) is None ==> scan(st, seq!["--backend="@ + n] + rest) == Err::<
            Request,
            CliFault,
        >(CliFault::UnknownBackend(n)),
{
    reveal_strlit("--backend=");
    reveal_strlit("--backend");
    reveal_strlit("--help");
    reveal_strlit("-h");
    let a = "--backend="@ + n;
    let s = seq![a] + rest;
    assert(s[0] == a);
    assert(s.drop_first() =~= rest);
    assert(a.subrange(0, "--backend="@.len() as int) =~= "--backend="@);
    assert(a.subrange("--backend="@.len() as int, a.len() as int) =~= n);
    assert(a.len() >= 10);
    assert(a[9] == '=');
    assert(a != "--backend"@);
    assert(a != "--help"@) by {
        if a == "--help"@ {
            assert(a.len() == 6);
        }
    }
    assert(a != "-h"@) by {
        if a == "-h"@ {
            assert(a.len() == 2);
        }
    }
}

/// Every operation that begins with `-R` removes its arguments, whatever
/// follows the `R` (such as `-Rns`, `-Rs`, `-Rsc`); without arguments it is
/// refused as having no packages.
pub proof fn any_r_operation_removes(op: Seq<char>, args: Seq<Seq<char>>)
    requires
        starts_with(op, "-R"@),
    ensures
        args.len() > 0 ==> action_of(op, args) == Ok::<Op, CliFault>(Op::Remove(args)),
        args.len() == 0 ==> action_of(op, args) == Err::<Op, CliFault>(CliFault::NoPackages(op)),
{
    reveal_strlit("-R");
    reveal_strlit("-S");
    reveal_strlit("install");
    assert(op.subrange(0, 2) == "-R"@);
    assert(op.subrange(0, 2)[1] == op[1]);
    assert(op[1] == 'R');
    assert(op != "-S"@) by {
        if op == "-S"@ {
            assert(op[1] == 'S');
        }
    }
    assert(op != "install"@) by {
        if op == "install"@ {
            assert(op[0] == 'i');
        }
    }
}

/// The command line `--backend NAME` moved from the end to the front asks
/// for the same: where the option stands does not matter.
pub proof fn backend_option_position_does_not_matter(front: Seq<Seq<char>>, n: Seq<char>)
    requires
        backend_named(n).is_some(),
        forall|i: int|
            0 <= i < front.len() ==> front[i] != "--help"@ && front[i] != "-h"@ && front[i]
                != "--backend"@ && !starts_with(front[i], "--backend="@),
    ensures
        request_of(front + seq!["--backend"@, n]) == request_of(seq!["--backend"@, n] + front),
{
    let k = backend_named(n)->0;
    backend_option_anywhere(ScanState { backend: None, op: None, args: Seq::empty() }, n, front);
    lemma_scan_then_backend(
        ScanState { backend: None, op: None, args: Seq::empty() },
        front,
        n,
        k,
    );
}

/// Reading arguments that are no options and then `--backend NAME` comes to
/// reading them with that backend set from the start.
proof fn lemma_scan_then_backend(st: ScanState, front: Seq<Seq<char>>, n: Seq<char>, k: BackendKind)
    requires
        backend_named(n) == Some(k),
        forall|i: int|
            0 <= i < front.len() ==> front[i] != "--help"@ && front[i] != "-h"@ && front[i]
                != "--backend"@ && !starts_with(front[i], "--backend="@),
    ensures
        scan(st, front + seq!["--backend"@, n]) == scan(
            ScanState { backend: Some(k), op: st.op, args: st.args },
            front,
        ),
    decreases front.len(),
{
    let s = front + seq!["--backend"@, n];
    if front.len() == 0 {
        assert(s =~= seq!["--backend"@, n] + Seq::<Seq<char>>::empty());
        backend_option_anywhere(st, n, Seq::empty());
        assert(scan(ScanState { backend: Some(k), op: st.op, args: st.args }, Seq::empty()) == scan(
            ScanState { backend: Some(k), op: st.op, args: st.args },
            front,
        ));
    } else {
        let a = front[0];
        let tail = front.drop_first();
        assert(s[0] == a);
        assert(s.drop_first() =~= tail + seq!["--backend"@, n]);
        assert forall|i: int| 0 <= i < tail.len() implies tail[i] != "--help"@ && tail[i] != "-h"@
            && tail[i] != "--backend"@ && !starts_with(tail[i], "--backend="@) by {
            assert(tail[i] == front[i + 1]);
        }
        let st2 = if st.op.is_none() && (starts_with(a, "-"@) || (st.args.len() == 0
            && is_command_word(a))) {
            ScanState { backend: st.backend, op: Some(a), args: st.args }
        } else {
            ScanState { backend: st.backend, op: st.op, args: st.args.push(a) }
        };
        lemma_scan_then_backend(st2, tail, n, k);
        let sk = ScanState { backend: Some(k), op: st.op, args: st.args };
        assert(front.drop_first() == tail);
    }
}

} // verus!
