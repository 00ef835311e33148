//! What the tool knows of the running system: the `os-release` fields and the
//! kernel release, and the backend that the distribution suggests.
use vstd::prelude::*;

use crate::action::Action;
use crate::kind::BackendKind;
use crate::kv::KvMap;
use crate::text::{
    chars_equal, chars_of, contains_chars, contains_text, join_strings, joined, lower, lower_chars,
    string_of, trim, trim_bounds, views,
};

verus! {

/// Number of leading characters of `s` that differ from `c`.
pub open spec fn span_until(s: Seq<char>, c: char) -> nat
    decreases s.len(),
{
    if s.len() == 0 || s[0] == c {
        0
    } else {
        1 + span_until(s.drop_first(), c)
    }
}

/// `s` without one pair of surrounding double or single quotes.
pub open spec fn unquoted(s: Seq<char>) -> Seq<char> {
    if s.len() >= 2 && ((s[0] == '"' && s.last() == '"') || (s[0] == '\'' && s.last() == '\'')) {
        s.subrange(1, s.len() - 1)
    } else {
        s
    }
}

/// The key and value that one `os-release` line sets: blank lines, comments
/// (`#` after leading whitespace) and lines without `=` set nothing; otherwise the
/// key is the trimmed text before the first `=` and the value the trimmed,
/// unquoted text after it.
pub open spec fn parse_line(line: Seq<char>) -> Option<(Seq<char>, Seq<char>)> {
    let t = trim(line);
    let e = span_until(t, '=');
    if t.len() == 0 || t[0] == '#' || e == t.len() {
        None
    } else {
        Some((trim(t.subrange(0, e as int)), unquoted(trim(t.subrange(e as int + 1, t.len() as int)))))
    }
}

/// `m` after one line has been read.
pub open spec fn apply_line(m: Map<Seq<char>, Seq<char>>, line: Seq<char>) -> Map<
    Seq<char>,
    Seq<char>,
> {
    match parse_line(line) {
        Some((k, v)) => m.insert(k, v),
        None => m,
    }
}

/// `m` after every line of `s` (separated by `'\n'`) has been read, in order.
pub open spec fn read_lines(m: Map<Seq<char>, Seq<char>>, s: Seq<char>) -> Map<
    Seq<char>,
    Seq<char>,
>
    decreases s.len(),
{
    let n = span_until(s, '\n');
    if n < s.len() {
        read_lines(apply_line(m, s.subrange(0, n as int)), s.subrange(n as int + 1, s.len() as int))
    } else {
        apply_line(m, s)
    }
}

/// The fields of an `os-release` text.
pub open spec fn os_release_of(s: Seq<char>) -> Map<Seq<char>, Seq<char>> {
    read_lines(Map::empty(), s)
}

/// `Some` of the value of `k`, or `None`.
pub open spec fn lookup(m: Map<Seq<char>, Seq<char>>, k: Seq<char>) -> Option<Seq<char>> {
    if m.contains_key(k) {
        Some(m[k])
    } else {
        None
    }
}

/// The value, or the empty text.
pub open spec fn or_empty(o: Option<Seq<char>>) -> Seq<char> {
    match o {
        Some(s) => s,
        None => Seq::empty(),
    }
}

/// The backend that an `ID` and an `ID_LIKE` suggest, compared without regard
/// to ASCII case: Void (`xbps`) first, then Arch and Manjaro (`pacman`), and
/// `apt` for everything else.
pub open spec fn suggested_backend(id: Option<Seq<char>>, id_like: Option<Seq<char>>) -> BackendKind {
    let i = lower(or_empty(id));
    let l = lower(or_empty(id_like));
    if i == "void"@ || contains_text(l, "void"@) {
        BackendKind::Xbps
    } else if i == "arch"@ || contains_text(l, "arch"@) || i == "manjaro"@ || contains_text(
        l,
        "manjaro"@,
    ) {
        BackendKind::Pacman
    } else {
        BackendKind::Apt
    }
}

/// A prefix of `s` in which `c` does not occur, ended by `c` or by the end of `s`,
/// is what `span_until` counts.
pub proof fn lemma_span(s: Seq<char>, c: char, k: int)
    requires
        0 <= k <= s.len(),
        forall|i: int| 0 <= i < k ==> s[i] != c,
        k == s.len() || s[k] == c,
    ensures
        span_until(s, c) == k,
    decreases k,
{
    if k > 0 {
        let t = s.drop_first();
        assert forall|i: int| 0 <= i < k - 1 implies t[i] != c by {
            assert(t[i] == s[i + 1]);
        }
        if k < s.len() {
            assert(t[k - 1] == s[k]);
        }
        lemma_span(t, c, k - 1);
    }
}

/// Information about the running system.
#[derive(Debug, Clone)]
pub struct EnvInfo {
    /// The fields of `/etc/os-release`.
    pub os_release: KvMap,
    /// The kernel release, as `uname -r` reports it.
    pub kernel: String,
}

/// `s[lo..hi]` without one pair of surrounding quotes.
fn unquote_range(s: &Vec<char>, lo: usize, hi: usize) -> (r: String)
    requires
        lo <= hi <= s.len(),
    ensures
        r@ == unquoted(s@.subrange(lo as int, hi as int)),
{
    let ghost t = s@.subrange(lo as int, hi as int);
    if hi - lo >= 2 && ((s[lo] == '"' && s[hi - 1] == '"') || (s[lo] == '\'' && s[hi - 1] == '\'')) {
        assert(t[0] == s@[lo as int] && t.last() == s@[hi - 1]);
        let r = string_of(s, lo + 1, hi - 1);
        assert(t.subrange(1, t.len() - 1) =~= s@.subrange(lo + 1, hi - 1));
        r
    } else {
        proof {
            if t.len() >= 2 {
                assert(t[0] == s@[lo as int] && t.last() == s@[hi - 1]);
            }
        }
        string_of(s, lo, hi)
    }
}

/// Removes one pair of matching surrounding quotes (`"..."` or `'...'`), if there is one.
pub fn unquote(s: &str) -> (r: String)
    ensures
        r@ == unquoted(s@),
{
    let v = chars_of(s);
    assert(v@.subrange(0, v@.len() as int) =~= v@);
    unquote_range(&v, 0, v.len())
}

/// Reads the line `s[lo..hi]` into `m`.
fn read_line_into(s: &Vec<char>, lo: usize, hi: usize, m: &mut KvMap)
    requires
        lo <= hi <= s.len(),
    ensures
        final(m)@ == apply_line(old(m)@, s@.subrange(lo as int, hi as int)),
{
    let ghost line = s@.subrange(lo as int, hi as int);
    let (a, b) = trim_bounds(s, lo, hi);
    let ghost t = s@.subrange(a as int, b as int);
    assert(trim(line) == t);
    if a == b || s[a] == '#' {
        return;
    }
    let mut e = a;
    while e < b && s[e] != '='
        invariant
            a <= e <= b <= s.len(),
            forall|i: int| a <= i < e ==> s@[i] != '=',
        decreases b - e,
    {
        e = e + 1;
    }
    proof {
        assert forall|i: int| 0 <= i < e - a implies t[i] != '=' by {
            assert(t[i] == s@[a + i]);
        }
        if e < b {
            assert(t[e - a] == s@[e as int]);
        }
        lemma_span(t, '=', e - a);
    }
    if e == b {
        return;
    }
    let (ka, kb) = trim_bounds(s, a, e);
    let (va, vb) = trim_bounds(s, e + 1, b);
    let key = string_of(s, ka, kb);
    let value = unquote_range(s, va, vb);
    assert(t.subrange(0, e - a) =~= s@.subrange(a as int, e as int));
    assert(t.subrange(e - a + 1, t.len() as int) =~= s@.subrange(e + 1, b as int));
    m.insert(key, value);
}

/// Parses the text of an `os-release` file: `KEY=value` lines, blank lines and
/// `#` comments; values may be quoted, and a later line wins over an earlier one.
pub fn parse_os_release(input: &str) -> (r: KvMap)
    ensures
        r@ == os_release_of(input@),
{
    let s = chars_of(input);
    let n = s.len();
    let mut m = KvMap::new();
    let mut start: usize = 0;
    assert(s@.subrange(0, n as int) =~= input@);
    loop
        invariant
            n == s.len(),
            s@ == input@,
            start <= n,
            os_release_of(input@) == read_lines(m@, s@.subrange(start as int, n as int)),
        ensures
            os_release_of(input@) == m@,
        decreases n - start,
    {
        let ghost rest = s@.subrange(start as int, n as int);
        let mut k = start;
        while k < n && s[k] != '\n'
            invariant
                start <= k <= n == s.len(),
                forall|i: int| start <= i < k ==> s@[i] != '\n',
            decreases n - k,
        {
            k = k + 1;
        }
        proof {
            assert forall|i: int| 0 <= i < k - start implies rest[i] != '\n' by {
                assert(rest[i] == s@[start + i]);
            }
            if k < n {
                assert(rest[k - start] == s@[k as int]);
            }
            lemma_span(rest, '\n', k - start);
            assert(rest.subrange(0, k - start) =~= s@.subrange(start as int, k as int));
        }
        read_line_into(&s, start, k, &mut m);
        if k == n {
            assert(rest =~= s@.subrange(start as int, k as int));
            break;
        }
        assert(rest.subrange(k - start + 1, rest.len() as int) =~= s@.subrange(k + 1, n as int));
        start = k + 1;
    }
    m
}

impl EnvInfo {
    /// The `ID` field.
    pub fn id(&self) -> (r: Option<&str>)
        ensures
            r.is_some() == self.os_release@.contains_key("ID"@),
            r matches Some(v) ==> v@ == self.os_release@["ID"@],
    {
        match self.os_release.get("ID") {
            Some(v) => Some(v.as_str()),
            None => None,
        }
    }

    /// The `ID_LIKE` field.
    pub fn id_like(&self) -> (r: Option<&str>)
        ensures
            r.is_some() == self.os_release@.contains_key("ID_LIKE"@),
            r matches Some(v) ==> v@ == self.os_release@["ID_LIKE"@],
    {
        match self.os_release.get("ID_LIKE") {
            Some(v) => Some(v.as_str()),
            None => None,
        }
    }

    /// The `PRETTY_NAME` field.
    pub fn pretty_name(&self) -> (r: Option<&str>)
        ensures
            r.is_some() == self.os_release@.contains_key("PRETTY_NAME"@),
            r matches Some(v) ==> v@ == self.os_release@["PRETTY_NAME"@],
    {
        match self.os_release.get("PRETTY_NAME") {
            Some(v) => Some(v.as_str()),
            None => None,
        }
    }

    /// The backend that the distribution suggests, from `ID` and `ID_LIKE`.
    pub fn recommended_backend(&self) -> (r: BackendKind)
        ensures
            r == suggested_backend(
                lookup(self.os_release@, "ID"@),
                lookup(self.os_release@, "ID_LIKE"@),
            ),
    {
        let id = match self.id() {
            Some(v) => lower_chars(v),
            None => Vec::new(),
        };
        let id_like = match self.id_like() {
            Some(v) => lower_chars(v),
            None => Vec::new(),
        };
        assert(id@ == lower(or_empty(lookup(self.os_release@, "ID"@))));
        assert(id_like@ == lower(or_empty(lookup(self.os_release@, "ID_LIKE"@))));
        let void = chars_of("void");
        if chars_equal(&id, &void) || contains_chars(&id_like, &void) {
            return BackendKind::Xbps;
        }
        let arch = chars_of("arch");
        let manjaro = chars_of("manjaro");
        if chars_equal(&id, &arch) || contains_chars(&id_like, &arch) || chars_equal(&id, &manjaro)
            || contains_chars(&id_like, &manjaro) {
            return BackendKind::Pacman;
        }
        BackendKind::Apt
    }
}

/// The kernel release from the output of `uname -r`: the text without
/// surrounding whitespace.
pub fn kernel_from_output(out: &str) -> (r: String)
    ensures
        r@ == trim(out@),
{
    let v = chars_of(out);
    let (a, b) = trim_bounds(&v, 0, v.len());
    assert(v@.subrange(0, v@.len() as int) =~= v@);
    string_of(&v, a, b)
}

/// The fields of an `os-release` file as a structured reader gives them.
#[derive(Debug)]
pub struct OsReleaseFields {
    pub id: String,
    pub name: String,
    pub pretty_name: String,
    /// The words of `ID_LIKE`, where the file has that field.
    pub id_like: Option<Vec<String>>,
    pub version_id: Option<String>,
    pub version: Option<String>,
    pub variant_id: Option<String>,
}

/// `m` with `k` set to the value in `o`, where there is one.
pub open spec fn insert_some(m: Map<Seq<char>, Seq<char>>, k: Seq<char>, o: Option<String>) -> Map<
    Seq<char>,
    Seq<char>,
> {
    match o {
        Some(v) => m.insert(k, v@),
        None => m,
    }
}

/// The map that `os_release_to_map` builds: `ID`, `NAME` and `PRETTY_NAME`;
/// `ID_LIKE` as its words joined by single spaces, unless that text is blank;
/// and `VERSION_ID`, `VERSION` and `VARIANT_ID` where present.
pub open spec fn fields_map(o: OsReleaseFields) -> Map<Seq<char>, Seq<char>> {
    let m0 = Map::empty().insert("ID"@, o.id@).insert("NAME"@, o.name@).insert(
        "PRETTY_NAME"@,
        o.pretty_name@,
    );
    let m1 = match o.id_like {
        Some(l) => {
            let v = joined(views(l@), " "@);
            if trim(v).len() > 0 {
                m0.insert("ID_LIKE"@, v)
            } else {
                m0
            }
        },
        None => m0,
    };
    insert_some(insert_some(insert_some(m1, "VERSION_ID"@, o.version_id), "VERSION"@, o.version), "VARIANT_ID"@, o.variant_id)
}

/// Inserts `k` with the value of `o`, where there is one.
fn insert_opt(m: &mut KvMap, k: &str, o: &Option<String>)
    ensures
        final(m)@ == insert_some(old(m)@, k@, *o),
{
    match o {
        Some(v) => m.insert(k.to_owned(), v.clone()),
        None => {},
    }
}

/// The key-value map of the fields that a structured `os-release` reader gave.
pub fn os_release_to_map(o: &OsReleaseFields) -> (r: KvMap)
    ensures
        r@ == fields_map(*o),
{
    let mut m = KvMap::new();
    m.insert("ID".to_owned(), o.id.clone());
    m.insert("NAME".to_owned(), o.name.clone());
    m.insert("PRETTY_NAME".to_owned(), o.pretty_name.clone());
    match &o.id_like {
        Some(l) => {
            let v = join_strings(l, " ");
            let vc = chars_of(v.as_str());
            let (a, b) = trim_bounds(&vc, 0, vc.len());
            assert(vc@.subrange(0, vc@.len() as int) =~= vc@);
            if a < b {
                m.insert("ID_LIKE".to_owned(), v);
            }
        },
        None => {},
    }
    insert_opt(&mut m, "VERSION_ID", &o.version_id);
    insert_opt(&mut m, "VERSION", &o.version);
    insert_opt(&mut m, "VARIANT_ID", &o.variant_id);
    m
}

/// What `span_until` counts: characters other than `c`, up to the first `c` or the end.
pub proof fn lemma_span_facts(s: Seq<char>, c: char)
    ensures
        span_until(s, c) <= s.len(),
        forall|i: int| 0 <= i < span_until(s, c) ==> s[i] != c,
        span_until(s, c) < s.len() ==> s[span_until(s, c) as int] == c,
    decreases s.len(),
{
    if s.len() > 0 && s[0] != c {
        let t = s.drop_first();
        lemma_span_facts(t, c);
        assert forall|i: int| 0 <= i < span_until(s, c) implies s[i] != c by {
            if i > 0 {
                assert(s[i] == t[i - 1]);
            }
        }
    }
}

/// Reading `a`, a line break and `b` reads `a`, then `b`.
pub proof fn lemma_read_lines_concat(m: Map<Seq<char>, Seq<char>>, a: Seq<char>, b: Seq<char>)
    ensures
        read_lines(m, a + seq!['\n'] + b) == read_lines(read_lines(m, a), b),
    decreases a.len(),
{
    let s = a + seq!['\n'] + b;
    let k = span_until(a, '\n');
    lemma_span_facts(a, '\n');
    assert forall|i: int| 0 <= i < k implies s[i] != '\n' by {
        assert(s[i] == a[i]);
    }
    if k < a.len() {
        assert(s[k as int] == a[k as int]);
        lemma_span(s, '\n', k as int);
        let rest = a.subrange(k as int + 1, a.len() as int);
        assert(s.subrange(0, k as int) =~= a.subrange(0, k as int));
        assert(s.subrange(k as int + 1, s.len() as int) =~= rest + seq!['\n'] + b);
        lemma_read_lines_concat(apply_line(m, a.subrange(0, k as int)), rest, b);
    } else {
        assert(s[a.len() as int] == '\n');
        lemma_span(s, '\n', a.len() as int);
        assert(s.subrange(0, a.len() as int) =~= a);
        assert(s.subrange(a.len() as int + 1, s.len() as int) =~= b);
    }
}

/// A line that sets a key, read after any text, gives the key that value:
/// later lines win over earlier ones.
pub proof fn later_line_wins(text: Seq<char>, line: Seq<char>, k: Seq<char>, v: Seq<char>)
    requires
        forall|i: int| 0 <= i < line.len() ==> line[i] != '\n',
        parse_line(line) == Some((k, v)),
    ensures
        os_release_of(text + seq!['\n'] + line).contains_key(k),
        os_release_of(text + seq!['\n'] + line)[k] == v,
{
    lemma_read_lines_concat(Map::empty(), text, line);
    lemma_span(line, '\n', line.len() as int);
}

/// A blank line, a comment or a line without `=` changes nothing.
pub proof fn ignored_line_changes_nothing(text: Seq<char>, line: Seq<char>)
    requires
        forall|i: int| 0 <= i < line.len() ==> line[i] != '\n',
        parse_line(line).is_none(),
    ensures
        os_release_of(text + seq!['\n'] + line) == os_release_of(text),
{
    lemma_read_lines_concat(Map::empty(), text, line);
    lemma_span(line, '\n', line.len() as int);
}

/// `unquote` removes exactly one pair of matching quotes.
pub proof fn unquote_removes_one_pair(x: Seq<char>, q: char)
    requires
        q == '"' || q == '\'',
    ensures
        unquoted(seq![q] + x + seq![q]) == x,
{
    let s = seq![q] + x + seq![q];
    assert(s[0] == q && s.last() == q);
    assert(s.subrange(1, s.len() - 1) =~= x);
}

/// How the system is named: `PRETTY_NAME`, else `ID`, else `Linux`.
pub open spec fn os_label(m: Map<Seq<char>, Seq<char>>) -> Seq<char> {
    match lookup(m, "PRETTY_NAME"@) {
        Some(p) => p,
        None => match lookup(m, "ID"@) {
            Some(i) => i,
            None => "Linux"@,
        },
    }
}

/// The line shown before an installation: the system, its kernel and the
/// backend (repository) that installs.
pub open spec fn install_notice_of(m: Map<Seq<char>, Seq<char>>, kernel: Seq<char>, kind: BackendKind) -> Seq<char> {
    "ОС: "@ + os_label(m) + " (ядро "@ + kernel + "), репозиторий: "@ + kind.name()
}

impl EnvInfo {
    /// The line to show before `action` is carried out with backend `kind`:
    /// for an installation, the system and the repository used (see
    /// [`install_notice_of`]); nothing for other actions.
    pub fn install_notice(&self, kind: BackendKind, action: &Action) -> (r: Option<String>)
        ensures
            r.is_some() == (action is Install),
            r matches Some(t) ==> t@ == install_notice_of(self.os_release@, self.kernel@, kind),
    {
        match action {
            Action::Install { .. } => {
                let mut out = "ОС: ".to_owned();
                match self.pretty_name() {
                    Some(p) => out.append(p),
                    None => match self.id() {
                        Some(i) => out.append(i),
                        None => out.append("Linux"),
                    },
                }
                out.append(" (ядро ");
                out.append(self.kernel.as_str());
                out.append("), репозиторий: ");
                out.append(kind.as_str());
                assert(out@ =~= install_notice_of(self.os_release@, self.kernel@, kind));
                Some(out)
            },
            _ => None,
        }
    }
}

} // verus!
