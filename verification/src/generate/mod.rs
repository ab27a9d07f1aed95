//! Turns a validated plan into the files of a NixOS flake.
pub mod cachyos;

use vstd::prelude::*;
use vstd::string::*;
use tera::{Kwargs, State, Tera};
use crate::plan::{
    BalsaInstallPlan, BootLoader, DiskoConfig, Filesystem, FirmwareMode, Gpu, KernelChoice,
    LoginManager, PartitionScheme, SwapMode, msg_if, plan_errors, spec_effective_loader, spec_is_tiling,
    spec_login_manager, spec_needs_xserver,
};
use crate::text::{is_whitespace, char_is_whitespace, push_char, views};
use crate::{GeneratedConfig, GenerationResult, file_names, names_ascending};
use self::cachyos::{CachyosSpec, cachyos_warnings, spec_matches};

verus! {

// ---------------------------------------------------------------------------
// Escaping for Nix double-quoted strings

/// How `nix_escape` writes the character at `i` of `s`.
pub open spec fn escape_char(s: Seq<char>, i: int) -> Seq<char> {
    let c = s[i];
    if c == '\\' {
        seq!['\\', '\\']
    } else if c == '"' {
        seq!['\\', '"']
    } else if c == '\n' {
        seq!['\\', 'n']
    } else if c == '$' && i + 1 < s.len() && s[i + 1] == '{' {
        seq!['\\', '$']
    } else {
        seq![c]
    }
}

/// The escaped form of `s` from position `i` on.
pub open spec fn escaped_from(s: Seq<char>, i: int) -> Seq<char>
    decreases s.len() - i,
{
    if i < 0 || i >= s.len() {
        Seq::empty()
    } else {
        escape_char(s, i) + escaped_from(s, i + 1)
    }
}

/// `s` escaped for a Nix double-quoted string: `\`, `"` and newlines are escaped, and so is
/// the `$` of every `${`, so the text cannot start an interpolation.
pub open spec fn nix_escaped(s: Seq<char>) -> Seq<char> {
    escaped_from(s, 0)
}

/// Collects the characters of `s`.
fn chars_of(s: &str) -> (v: Vec<char>)
    ensures
        v@ == s@,
{
    broadcast use vstd::string::group_string_axioms;
    let mut v: Vec<char> = Vec::new();
    for c in iter: s.chars()
        invariant
            iter.seq() == s@,
            v@ == s@.take(iter.index() as int),
    {
        v.push(c);
        assert(v@ =~= s@.take(iter.index() as int + 1));
    }
    assert(v@ =~= s@);
    v
}

/// Escapes for a Nix double-quoted string, `${` included, so text stays text
pub fn nix_escape(s: &str) -> (r: String)
    ensures
        r@ == nix_escaped(s@),
{
    let cs = chars_of(s);
    let mut out = String::new();
    let mut i: usize = 0;
    while i < cs.len()
        invariant
            cs@ == s@,
            0 <= i <= cs.len(),
            out@ + escaped_from(s@, i as int) == nix_escaped(s@),
        decreases cs.len() - i,
    {
        let c = cs[i];
        let ghost before = out@;
        if c == '\\' {
            push_char(&mut out, '\\');
            push_char(&mut out, '\\');
        } else if c == '"' {
            push_char(&mut out, '\\');
            push_char(&mut out, '"');
        } else if c == '\n' {
            push_char(&mut out, '\\');
            push_char(&mut out, 'n');
        } else if c == '$' && i + 1 < cs.len() && cs[i + 1] == '{' {
            push_char(&mut out, '\\');
            push_char(&mut out, '$');
        } else {
            push_char(&mut out, c);
        }
        assert(out@ =~= before + escape_char(s@, i as int));
        assert(escaped_from(s@, i as int) == escape_char(s@, i as int) + escaped_from(s@, i + 1));
        assert(out@ + escaped_from(s@, i + 1) =~= before + escaped_from(s@, i as int));
        i = i + 1;
    }
    out
}

/// Reads back text written by `nix_escape`: a `\` takes the next character literally, with
/// `\n` standing for a newline.
pub open spec fn nix_unescaped(t: Seq<char>) -> Seq<char>
    decreases t.len(),
{
    if t.len() == 0 {
        Seq::empty()
    } else if t[0] == '\\' && t.len() >= 2 {
        seq![if t[1] == 'n' { '\n' } else { t[1] }] + nix_unescaped(t.subrange(2, t.len() as int))
    } else {
        seq![t[0]] + nix_unescaped(t.subrange(1, t.len() as int))
    }
}

proof fn lemma_unescape_escaped_from(s: Seq<char>, i: int)
    requires
        0 <= i <= s.len(),
    ensures
        nix_unescaped(escaped_from(s, i)) == s.subrange(i, s.len() as int),
    decreases s.len() - i,
{
    if i == s.len() {
        assert(escaped_from(s, i) =~= Seq::<char>::empty());
        assert(s.subrange(i, s.len() as int) =~= Seq::<char>::empty());
    } else {
        lemma_unescape_escaped_from(s, i + 1);
        let e = escape_char(s, i);
        let rest = escaped_from(s, i + 1);
        let t = e + rest;
        assert(escaped_from(s, i) == t);
        if e.len() == 2 {
            assert(t.subrange(2, t.len() as int) =~= rest);
        } else {
            assert(t.subrange(1, t.len() as int) =~= rest);
        }
        assert(s.subrange(i, s.len() as int) =~= seq![s[i]] + s.subrange(i + 1, s.len() as int));
    }
}

/// Escaping loses nothing: reading back what `nix_escape` wrote gives the input text again, so
/// two different texts never escape to the same string.
pub proof fn law_nix_escape_round_trip(s: Seq<char>)
    ensures
        nix_unescaped(nix_escaped(s)) == s,
{
    lemma_unescape_escaped_from(s, 0);
    assert(s.subrange(0, s.len() as int) =~= s);
}

/// How many backslashes stand right before position `i` of `t`.
pub open spec fn backslashes_before(t: Seq<char>, i: int) -> nat
    decreases i,
{
    if i <= 0 || i > t.len() {
        0
    } else if t[i - 1] == '\\' {
        backslashes_before(t, i - 1) + 1
    } else {
        0
    }
}

/// The escaped form of the first `n` characters of `s`.
pub open spec fn escaped_prefix(s: Seq<char>, n: int) -> Seq<char>
    decreases n,
{
    if n <= 0 {
        Seq::empty()
    } else {
        escaped_prefix(s, n - 1) + escape_char(s, n - 1)
    }
}

proof fn lemma_escaped_split(s: Seq<char>, n: int)
    requires
        0 <= n <= s.len(),
    ensures
        nix_escaped(s) == escaped_prefix(s, n) + escaped_from(s, n),
    decreases n,
{
    if n == 0 {
        assert(escaped_prefix(s, 0) + escaped_from(s, 0) =~= escaped_from(s, 0));
    } else {
        lemma_escaped_split(s, n - 1);
        assert(escaped_from(s, n - 1) == escape_char(s, n - 1) + escaped_from(s, n));
        assert(escaped_prefix(s, n - 1) + (escape_char(s, n - 1) + escaped_from(s, n)) =~= escaped_prefix(s, n)
            + escaped_from(s, n));
    }
}

/// Backslash runs inside `p` do not change when text is appended.
proof fn lemma_backslashes_prefix(p: Seq<char>, q: Seq<char>, j: int)
    requires
        0 <= j <= p.len(),
    ensures
        backslashes_before(p + q, j) == backslashes_before(p, j),
    decreases j,
{
    if j > 0 {
        lemma_backslashes_prefix(p, q, j - 1);
        assert((p + q)[j - 1] == p[j - 1]);
    }
}

/// What holds of the escaped form of every prefix of `s`.
pub open spec fn escape_shape(s: Seq<char>, n: int, p: Seq<char>) -> bool {
    &&& backslashes_before(p, p.len() as int) % 2 == 0
    &&& forall|j: int| 0 <= j < p.len() ==> #[trigger] p[j] != '\n'
    &&& forall|j: int| 0 <= j < p.len() && #[trigger] p[j] == '"' ==> backslashes_before(p, j) % 2 == 1
    &&& forall|j: int|
        0 <= j < p.len() - 1 && #[trigger] p[j] == '$' && p[j + 1] == '{' ==> backslashes_before(p, j) % 2 == 1
    &&& (p.len() > 0 && p.last() == '$' && backslashes_before(p, p.len() - 1) % 2 == 0 && n < s.len()) ==> s[n]
        != '{'
}

proof fn lemma_escape_shape(s: Seq<char>, n: int)
    requires
        0 <= n <= s.len(),
    ensures
        escape_shape(s, n, escaped_prefix(s, n)),
    decreases n,
{
    if n > 0 {
        lemma_escape_shape(s, n - 1);
        let p = escaped_prefix(s, n - 1);
        let e = escape_char(s, n - 1);
        let q = p + e;
        assert(escaped_prefix(s, n) == q);
        let k = p.len() as int;
        lemma_backslashes_prefix(p, e, k);
        assert forall|j: int| 0 <= j <= k implies backslashes_before(q, j) == backslashes_before(p, j) by {
            lemma_backslashes_prefix(p, e, j);
        }
        assert forall|j: int| 0 <= j < k implies q[j] == p[j] by {}
        if e.len() == 2 {
            assert(q[k] == '\\');
            assert(backslashes_before(q, k + 1) == backslashes_before(q, k) + 1);
            if q[k + 1] == '\\' {
                assert(backslashes_before(q, k + 2) == backslashes_before(q, k + 1) + 1);
            } else {
                assert(backslashes_before(q, k + 2) == 0);
            }
            assert(q.len() == k + 2);
        } else {
            assert(q[k] == s[n - 1]);
            assert(backslashes_before(q, k + 1) == 0);
            assert(q.len() == k + 1);
            if k > 0 && p[k - 1] == '$' && q[k] == '{' {
                assert(p.last() == '$');
            }
        }
    }
}

/// Escaped text holds no raw newline, and every `"` and every `${` in it comes after an odd
/// run of backslashes, so none of them ends the string or starts an interpolation.
pub proof fn law_nix_escape_shape(s: Seq<char>)
    ensures
        forall|j: int| 0 <= j < nix_escaped(s).len() ==> #[trigger] nix_escaped(s)[j] != '\n',
        forall|j: int|
            0 <= j < nix_escaped(s).len() && #[trigger] nix_escaped(s)[j] == '"' ==> backslashes_before(
                nix_escaped(s),
                j,
            ) % 2 == 1,
        forall|j: int|
            0 <= j < nix_escaped(s).len() - 1 && #[trigger] nix_escaped(s)[j] == '$' && nix_escaped(s)[j + 1]
                == '{' ==> backslashes_before(nix_escaped(s), j) % 2 == 1,
{
    lemma_escaped_split(s, s.len() as int);
    assert(escaped_from(s, s.len() as int) =~= Seq::<char>::empty());
    assert(nix_escaped(s) =~= escaped_prefix(s, s.len() as int));
    lemma_escape_shape(s, s.len() as int);
}

// ---------------------------------------------------------------------------
// Tidying rendered output

/// `l` without trailing whitespace (`str::trim_end`).
pub open spec fn trim_end(l: Seq<char>) -> Seq<char>
    decreases l.len(),
{
    if l.len() > 0 && is_whitespace(l.last()) {
        trim_end(l.drop_last())
    } else {
        l
    }
}

/// Reading `s` left to right: the lines finished so far and the line still open.
pub open spec fn scan_lines(s: Seq<char>) -> (Seq<Seq<char>>, Seq<char>)
    decreases s.len(),
{
    if s.len() == 0 {
        (Seq::empty(), Seq::empty())
    } else {
        let (done, open) = scan_lines(s.drop_last());
        if s.last() == '\n' {
            (done.push(open), Seq::empty())
        } else {
            (done, open.push(s.last()))
        }
    }
}

/// The lines of `s` as `str::lines` gives them (before the trailing whitespace that tidying
/// strips anyway): split at each `\n`, with no empty line after a final `\n`.
pub open spec fn lines_of(s: Seq<char>) -> Seq<Seq<char>> {
    let (done, open) = scan_lines(s);
    if open.len() > 0 {
        done.push(open)
    } else {
        done
    }
}

/// Whether tidying keeps the last of `t`: a blank line is dropped right after another one.
pub open spec fn keeps_last(t: Seq<Seq<char>>) -> bool {
    t.last().len() > 0 || t.len() == 1 || t[t.len() - 2].len() > 0
}

/// Writes trimmed lines, each followed by `\n`, collapsing each run of blank lines to one.
pub open spec fn join_tidy(t: Seq<Seq<char>>) -> Seq<char>
    decreases t.len(),
{
    if t.len() == 0 {
        Seq::empty()
    } else {
        join_tidy(t.drop_last()) + if keeps_last(t) {
            t.last().push('\n')
        } else {
            Seq::empty()
        }
    }
}

pub open spec fn trimmed_lines(s: Seq<char>) -> Seq<Seq<char>> {
    lines_of(s).map_values(|l: Seq<char>| trim_end(l))
}

/// What `tidy` makes of `s`.
pub open spec fn tidied(s: Seq<char>) -> Seq<char> {
    join_tidy(trimmed_lines(s))
}

/// Writes one finished line to `out`; `prev_blank` says whether the line before it was blank.
fn emit_line(out: &mut String, line: &Vec<char>, prev_blank: bool) -> (blank: bool)
    ensures
        blank == (trim_end(line@).len() == 0),
        final(out)@ == old(out)@ + if trim_end(line@).len() > 0 || !prev_blank {
            trim_end(line@).push('\n')
        } else {
            Seq::empty()
        },
{
    let mut k: usize = line.len();
    assert(line@.take(k as int) =~= line@);
    while k > 0 && char_is_whitespace(line[k - 1])
        invariant
            k <= line.len(),
            trim_end(line@) == trim_end(line@.take(k as int)),
        decreases k,
    {
        assert(line@.take(k as int).drop_last() =~= line@.take(k - 1));
        k = k - 1;
    }
    assert(trim_end(line@.take(k as int)) == line@.take(k as int));
    let blank = k == 0;
    if k > 0 || !prev_blank {
        let ghost before = out@;
        let mut j: usize = 0;
        while j < k
            invariant
                j <= k <= line.len(),
                out@ == before + line@.take(j as int),
            decreases k - j,
        {
            push_char(out, line[j]);
            assert(line@.take(j as int).push(line@[j as int]) =~= line@.take(j + 1));
            j = j + 1;
        }
        push_char(out, '\n');
    }
    blank
}

/// Fragment composition leaves ragged blank lines; diffing against real configs suffers
pub fn tidy(s: &str) -> (r: String)
    ensures
        r@ == tidied(s@),
{
    let cs = chars_of(s);
    let mut out = String::new();
    let mut cur: Vec<char> = Vec::new();
    let mut prev_blank = false;
    let ghost mut done: Seq<Seq<char>> = Seq::empty();
    let mut i: usize = 0;
    assert(s@.take(0) =~= Seq::<char>::empty());
    while i < cs.len()
        invariant
            cs@ == s@,
            i <= cs.len(),
            scan_lines(s@.take(i as int)) == (done, cur@),
            out@ == join_tidy(done.map_values(|l: Seq<char>| trim_end(l))),
            prev_blank == (done.len() > 0 && trim_end(done.last()).len() == 0),
        decreases cs.len() - i,
    {
        let c = cs[i];
        assert(s@.take(i + 1).drop_last() =~= s@.take(i as int));
        if c == '\n' {
            let ghost t = done.map_values(|l: Seq<char>| trim_end(l));
            prev_blank = emit_line(&mut out, &cur, prev_blank);
            proof {
                let t2 = done.push(cur@).map_values(|l: Seq<char>| trim_end(l));
                assert(t2.drop_last() =~= t);
                assert(t2.last() == trim_end(cur@));
                done = done.push(cur@);
            }
            cur = Vec::new();
        } else {
            cur.push(c);
        }
        i = i + 1;
    }
    assert(s@.take(cs.len() as int) =~= s@);
    if cur.len() > 0 {
        let ghost t = done.map_values(|l: Seq<char>| trim_end(l));
        emit_line(&mut out, &cur, prev_blank);
        proof {
            let t2 = done.push(cur@).map_values(|l: Seq<char>| trim_end(l));
            assert(t2.drop_last() =~= t);
            assert(t2.last() == trim_end(cur@));
            assert(lines_of(s@) == done.push(cur@));
        }
    }
    out
}

// ---------------------------------------------------------------------------
// What tidying guarantees

/// Lines written out, each followed by `\n`.
pub open spec fn join_lines(k: Seq<Seq<char>>) -> Seq<char>
    decreases k.len(),
{
    if k.len() == 0 {
        Seq::empty()
    } else {
        join_lines(k.drop_last()) + k.last().push('\n')
    }
}

/// The lines tidying keeps, in order.
pub open spec fn kept_lines(t: Seq<Seq<char>>) -> Seq<Seq<char>>
    decreases t.len(),
{
    if t.len() == 0 {
        Seq::empty()
    } else if keeps_last(t) {
        kept_lines(t.drop_last()).push(t.last())
    } else {
        kept_lines(t.drop_last())
    }
}

pub open spec fn no_newline(l: Seq<char>) -> bool {
    forall|j: int| 0 <= j < l.len() ==> l[j] != '\n'
}

/// No two blank lines in a row.
pub open spec fn no_blank_run(k: Seq<Seq<char>>) -> bool {
    forall|i: int| 0 < i < k.len() ==> (#[trigger] k[i]).len() > 0 || k[i - 1].len() > 0
}

/// Lines as tidy writes them: no `\n` inside, no trailing whitespace, no blank run.
pub open spec fn tidy_shaped(k: Seq<Seq<char>>) -> bool {
    &&& forall|i: int| 0 <= i < k.len() ==> no_newline(#[trigger] k[i]) && trim_end(k[i]) == k[i]
    &&& no_blank_run(k)
}

proof fn lemma_join_tidy(t: Seq<Seq<char>>)
    ensures
        join_tidy(t) == join_lines(kept_lines(t)),
        t.len() > 0 ==> kept_lines(t).len() > 0 && (kept_lines(t).last().len() == 0 <==> t.last().len() == 0),
        forall|i: int| 0 <= i < kept_lines(t).len() ==> exists|j: int| 0 <= j < t.len() && #[trigger] kept_lines(t)[i] == t[j],
        no_blank_run(kept_lines(t)),
    decreases t.len(),
{
    if t.len() > 0 {
        let d = t.drop_last();
        lemma_join_tidy(d);
        let kd = kept_lines(d);
        let k = kept_lines(t);
        if keeps_last(t) {
            assert(k.drop_last() =~= kd);
            assert forall|i: int| 0 <= i < k.len() implies exists|j: int| 0 <= j < t.len() && #[trigger] k[i] == t[j] by {
                if i < kd.len() {
                    assert(k[i] == kd[i]);
                    let j = choose|j: int| 0 <= j < d.len() && #[trigger] kd[i] == d[j];
                    assert(t[j] == d[j]);
                } else {
                    assert(k[i] == t[t.len() - 1]);
                }
            }
            assert forall|i: int| 0 < i < k.len() implies (#[trigger] k[i]).len() > 0 || k[i - 1].len() > 0 by {
                if i < kd.len() {
                    assert(k[i] == kd[i] && k[i - 1] == kd[i - 1]);
                } else {
                    assert(k[i - 1] == kd.last());
                }
            }
        } else {
            assert forall|i: int| 0 <= i < k.len() implies exists|j: int| 0 <= j < t.len() && #[trigger] k[i] == t[j] by {
                let j = choose|j: int| 0 <= j < d.len() && #[trigger] kd[i] == d[j];
                assert(t[j] == d[j]);
            }
        }
    }
}

proof fn lemma_trim_end(l: Seq<char>)
    ensures
        trim_end(trim_end(l)) == trim_end(l),
        trim_end(l).len() <= l.len(),
        forall|j: int| 0 <= j < trim_end(l).len() ==> trim_end(l)[j] == l[j],
    decreases l.len(),
{
    if l.len() > 0 && is_whitespace(l.last()) {
        lemma_trim_end(l.drop_last());
        assert forall|j: int| 0 <= j < trim_end(l).len() implies trim_end(l)[j] == l[j] by {
            assert(l.drop_last()[j] == l[j]);
        }
    }
}

proof fn lemma_scan_no_newline(s: Seq<char>)
    ensures
        forall|i: int| 0 <= i < scan_lines(s).0.len() ==> no_newline(#[trigger] scan_lines(s).0[i]),
        no_newline(scan_lines(s).1),
    decreases s.len(),
{
    if s.len() > 0 {
        lemma_scan_no_newline(s.drop_last());
    }
}

proof fn lemma_scan_append(x: Seq<char>, y: Seq<char>)
    requires
        no_newline(y),
    ensures
        scan_lines(x + y) == (scan_lines(x).0, scan_lines(x).1 + y),
    decreases y.len(),
{
    if y.len() == 0 {
        assert(x + y =~= x);
        assert(scan_lines(x).1 + y =~= scan_lines(x).1);
    } else {
        assert((x + y).drop_last() =~= x + y.drop_last());
        lemma_scan_append(x, y.drop_last());
        assert(scan_lines(x).1 + y.drop_last() + seq![y.last()] =~= scan_lines(x).1 + y);
    }
}

proof fn lemma_scan_join(k: Seq<Seq<char>>)
    requires
        forall|i: int| 0 <= i < k.len() ==> no_newline(#[trigger] k[i]),
    ensures
        scan_lines(join_lines(k)) == (k, Seq::<char>::empty()),
    decreases k.len(),
{
    if k.len() > 0 {
        let d = k.drop_last();
        assert forall|i: int| 0 <= i < d.len() implies no_newline(#[trigger] d[i]) by {
            assert(d[i] == k[i]);
        }
        lemma_scan_join(d);
        let x = join_lines(d);
        let l = k.last();
        assert(no_newline(l));
        lemma_scan_append(x, l);
        assert(join_lines(k) == (x + l).push('\n'));
        assert((x + l).push('\n').drop_last() =~= x + l);
        assert(Seq::<char>::empty() + l =~= l);
        assert(d.push(l) =~= k);
    }
}

proof fn lemma_kept_identity(k: Seq<Seq<char>>)
    requires
        no_blank_run(k),
    ensures
        kept_lines(k) == k,
    decreases k.len(),
{
    if k.len() > 0 {
        let d = k.drop_last();
        assert(no_blank_run(d)) by {
            assert forall|i: int| 0 < i < d.len() implies (#[trigger] d[i]).len() > 0 || d[i - 1].len() > 0 by {
                assert(d[i] == k[i] && d[i - 1] == k[i - 1]);
            }
        }
        lemma_kept_identity(d);
        if k.len() > 1 {
            assert(k[k.len() - 1].len() > 0 || k[k.len() - 2].len() > 0);
        }
        assert(keeps_last(k));
        assert(d.push(k.last()) =~= k);
    }
}

/// The lines of tidied text, trimmed, as tidying keeps them.
proof fn lemma_tidied_lines(s: Seq<char>)
    ensures
        tidied(s) == join_lines(kept_lines(trimmed_lines(s))),
        tidy_shaped(kept_lines(trimmed_lines(s))),
{
    let t = trimmed_lines(s);
    let k = kept_lines(t);
    lemma_join_tidy(t);
    lemma_scan_no_newline(s);
    let (done, open) = scan_lines(s);
    assert forall|i: int| 0 <= i < lines_of(s).len() implies no_newline(#[trigger] lines_of(s)[i]) by {
        if i < done.len() {
            assert(lines_of(s)[i] == done[i]);
        }
    }
    assert forall|i: int| 0 <= i < k.len() implies no_newline(#[trigger] k[i]) && trim_end(k[i]) == k[i] by {
        assert(exists|j: int| 0 <= j < t.len() && #[trigger] kept_lines(t)[i] == t[j]);
        let j = choose|j: int| 0 <= j < t.len() && #[trigger] kept_lines(t)[i] == t[j];
        let l = lines_of(s)[j];
        assert(t[j] == trim_end(l));
        lemma_trim_end(l);
        assert(no_newline(l));
        assert forall|m: int| 0 <= m < k[i].len() implies k[i][m] != '\n' by {
            assert(k[i][m] == trim_end(l)[m]);
            assert(trim_end(l)[m] == l[m]);
        }
    }
}

/// Tidied text has no trailing whitespace on any line and no two blank lines in a row, and every
/// line, the last one included, ends in `\n`.
pub proof fn law_tidy_shape(s: Seq<char>)
    ensures
        tidy_shaped(lines_of(tidied(s))),
        join_lines(lines_of(tidied(s))) == tidied(s),
{
    lemma_tidied_lines(s);
    let k = kept_lines(trimmed_lines(s));
    lemma_scan_join(k);
}

/// Tidying tidied text changes nothing.
pub proof fn law_tidy_idempotent(s: Seq<char>)
    ensures
        tidied(tidied(s)) == tidied(s),
{
    lemma_tidied_lines(s);
    let k = kept_lines(trimmed_lines(s));
    lemma_scan_join(k);
    let u = tidied(s);
    assert(lines_of(u) == k);
    assert(trimmed_lines(u) =~= k);
    lemma_join_tidy(k);
    lemma_kept_identity(k);
}

// ---------------------------------------------------------------------------
// The template engine

#[verifier::external_type_specification]
#[verifier::external_body]
pub struct ExTera(Tera);

/// The templates a `Tera` engine holds: each template's name mapped to its source text.
pub uninterp spec fn template_sources_of(t: Tera) -> Map<Seq<char>, Seq<char>>;

/// The engine has tera's default settings: default delimiters, no fallback prefixes, and tera's
/// built-in filters, tests and functions (with possibly some filters of ours added).
pub uninterp spec fn has_default_settings(t: Tera) -> bool;

/// The filters registered on the engine beyond tera's built-in ones.
pub uninterp spec fn extra_filters_of(t: Tera) -> Set<Seq<char>>;

/// Whether an engine with default settings and the extra filters `filters` accepts holding
/// exactly the templates `sources` (name to source): every source parses, and the set passes
/// tera's load-time checks (parents, includes, components, blocks, and the filters, tests and
/// functions each template calls).
pub uninterp spec fn tera_accepts(filters: Set<Seq<char>>, sources: Map<Seq<char>, Seq<char>>) -> bool;

/// No templates at all.
pub open spec fn no_sources() -> Map<Seq<char>, Seq<char>> {
    Map::empty()
}

/// `Tera::new`: a fresh engine with default settings, no filters of ours and no templates.
#[verifier::external_body]
fn new_tera() -> (t: Tera)
    ensures
        template_sources_of(t) == no_sources(),
        has_default_settings(t),
        extra_filters_of(t) == Set::<Seq<char>>::empty(),
{
    Tera::new()
}

/// `Tera::register_filter`: makes `nix` a filter that applies `nix_escape` to its text. The
/// templates and the other settings are left as they were; what the filter does inside a
/// rendering is not stated.
#[verifier::external_body]
fn register_nix_filter(t: &mut Tera)
    ensures
        template_sources_of(*final(t)) == template_sources_of(*old(t)),
        has_default_settings(*final(t)) == has_default_settings(*old(t)),
        extra_filters_of(*final(t)) == extra_filters_of(*old(t)).insert("nix"@),
{
    t.register_filter("nix", |s: &str, _: Kwargs, _: &State| nix_escape(s));
}

/// `Tera::add_raw_template`: parses `body` as the template `name`, then checks the whole set.
/// On an engine with default settings it succeeds exactly when tera accepts the templates it
/// held plus this one. On success the engine holds `name` with `body`; on failure tera takes
/// the addition back and the error comes back as the text it displays (nothing is stated of
/// that text). The settings are untouched.
#[verifier::external_body]
fn add_raw_template(t: &mut Tera, name: &str, body: &str) -> (r: Result<(), String>)
    ensures
        has_default_settings(*final(t)) == has_default_settings(*old(t)),
        extra_filters_of(*final(t)) == extra_filters_of(*old(t)),
        r is Ok ==> template_sources_of(*final(t)) == template_sources_of(*old(t)).insert(name@, body@),
        r is Err ==> template_sources_of(*final(t)) == template_sources_of(*old(t)),
        has_default_settings(*old(t)) ==> (r is Ok <==> tera_accepts(
            extra_filters_of(*old(t)),
            template_sources_of(*old(t)).insert(name@, body@),
        )),
{
    t.add_raw_template(name, body).map_err(|e| e.to_string())
}

/// The template files, fragments first: a fragment a template pulls in must already be there
/// when that template is added.
pub const TEMPLATE_FILES: [&'static str; 17] = [
    "cachyos.nix.j2",
    "disko-fs.nix.j2",
    "locale.nix.j2",
    "boot.nix.j2",
    "kernel.nix.j2",
    "hardware.nix.j2",
    "network.nix.j2",
    "desktop.nix.j2",
    "login.nix.j2",
    "accounts.nix.j2",
    "tuning.nix.j2",
    "swap.nix.j2",
    "shell.nix.j2",
    "flake.nix.j2",
    "configuration.nix.j2",
    "hardware-configuration.nix.j2",
    "disko-config.nix.j2",
];

/// The four templates `generate` renders are loaded last, after every fragment they may pull
/// in, since a template's references must resolve when it is added.
pub proof fn law_rendered_templates_load_last()
    ensures
        TEMPLATE_FILES@.len() == 17,
        TEMPLATE_FILES@[13]@ == "flake.nix.j2"@,
        TEMPLATE_FILES@[14]@ == "configuration.nix.j2"@,
        TEMPLATE_FILES@[15]@ == "hardware-configuration.nix.j2"@,
        TEMPLATE_FILES@[16]@ == "disko-config.nix.j2"@,
{
}

/// The templates (name to source) an engine holds after adding `templates` in order; a later
/// template of the same name replaces an earlier one.
pub open spec fn sources_of(templates: Seq<(String, String)>) -> Map<Seq<char>, Seq<char>>
    decreases templates.len(),
{
    if templates.len() == 0 {
        Map::empty()
    } else {
        sources_of(templates.drop_last()).insert(templates.last().0@, templates.last().1@)
    }
}

/// The filters of ours that every engine of this library has.
pub open spec fn our_filters() -> Set<Seq<char>> {
    Set::<Seq<char>>::empty().insert("nix"@)
}

/// Whether tera accepts each of `templates` in turn, added to the ones before it.
pub open spec fn loads(templates: Seq<(String, String)>) -> bool
    decreases templates.len(),
{
    if templates.len() == 0 {
        true
    } else {
        loads(templates.drop_last()) && tera_accepts(our_filters(), sources_of(templates))
    }
}

/// `t` is the engine `engine` builds from `templates`: default settings, the `nix` filter, and
/// exactly these templates.
pub open spec fn engine_for(t: Tera, templates: Seq<(String, String)>) -> bool {
    &&& template_sources_of(t) == sources_of(templates)
    &&& has_default_settings(t)
    &&& extra_filters_of(t) == our_filters()
}

/// An engine holding `templates` (name, body) in order, with the `nix` filter registered. It
/// succeeds exactly when tera accepts each template added to the ones before it; the first
/// template tera refuses stops it, with the text of tera's error.
pub fn engine(templates: &Vec<(String, String)>) -> (r: Result<Tera, String>)
    ensures
        r is Ok <==> loads(templates@),
        r matches Ok(t) ==> engine_for(t, templates@),
{
    let mut tera = new_tera();
    register_nix_filter(&mut tera);
    assert(extra_filters_of(tera) =~= our_filters());
    let mut i: usize = 0;
    assert(templates@.take(0) =~= Seq::<(String, String)>::empty());
    while i < templates.len()
        invariant
            i <= templates.len(),
            engine_for(tera, templates@.take(i as int)),
            loads(templates@.take(i as int)),
        decreases templates.len() - i,
    {
        let (name, body) = &templates[i];
        let ghost before = templates@.take(i as int);
        let ghost after = templates@.take(i + 1);
        assert(after.drop_last() =~= before);
        assert(after.last() == templates@[i as int]);
        match add_raw_template(&mut tera, name.as_str(), body.as_str()) {
            Ok(()) => {},
            Err(e) => {
                proof {
                    assert(sources_of(after) == sources_of(before).insert(name@, body@));
                    if loads(templates@) {
                        lemma_loads_prefix(templates@, i + 1);
                    }
                }
                return Err(e);
            },
        }
        i = i + 1;
    }
    assert(templates@.take(templates.len() as int) =~= templates@);
    Ok(tera)
}

/// A sequence that loads has every prefix loading.
proof fn lemma_loads_prefix(templates: Seq<(String, String)>, n: int)
    requires
        0 <= n <= templates.len(),
        loads(templates),
    ensures
        loads(templates.take(n)),
    decreases templates.len() - n,
{
    if n < templates.len() {
        lemma_loads_prefix(templates, n + 1);
        assert(templates.take(n + 1).drop_last() =~= templates.take(n));
    } else {
        assert(templates.take(n) =~= templates);
    }
}

// ---------------------------------------------------------------------------
// What the templates are rendered with

/// The swap file a plan asks for: its size in MiB and where it lives.
#[derive(Debug, Clone, Copy)]
pub struct SwapFile {
    pub mib: u64,
    pub path: &'static str,
}

/// The values the system templates get besides the plan itself.
#[derive(Debug, Clone)]
pub struct SystemValues {
    pub effective_loader: BootLoader,
    pub login: LoginManager,
    pub desktop_is_tiling: bool,
    pub needs_xserver: bool,
    pub has_nvidia: bool,
    pub nvidia_open: bool,
    pub allow_unfree: bool,
    /// Present for file swap
    pub swapfile: Option<SwapFile>,
    /// Present for a CachyOS kernel
    pub cachyos: Option<CachyosSpec>,
}

/// One rendering: a template, and what it is rendered with.
pub enum RenderRequest<'a> {
    /// A system template (`flake.nix.j2`, `configuration.nix.j2`, `hardware-configuration.nix.j2`),
    /// rendered with the plan and the values derived from it
    System { template: &'static str, plan: &'a BalsaInstallPlan, values: &'a SystemValues },
    /// `disko-config.nix.j2`, rendered with the disk layout, `legacy_bios` and `esp_mount`
    Disko { disk: &'a DiskoConfig, legacy_bios: bool, esp_mount: &'a str },
}

pub open spec fn spec_has_nvidia(gpus: Seq<Gpu>) -> bool {
    exists|i: int| 0 <= i < gpus.len() && (#[trigger] gpus[i] == Gpu::NvidiaProprietary || gpus[i] == Gpu::NvidiaOpen)
}

pub open spec fn swapfile_path(fs: Filesystem) -> Seq<char> {
    if fs == Filesystem::Btrfs {
        "/swap/swapfile"@
    } else {
        "/swapfile"@
    }
}

/// `v` holds what `system_values` computes for `p`.
pub open spec fn values_for(v: SystemValues, p: BalsaInstallPlan) -> bool {
    &&& v.effective_loader == spec_effective_loader(p.boot.loader, p.boot.dual_boot, p.boot.legacy_bios)
    &&& v.login == spec_login_manager(p)
    &&& v.desktop_is_tiling == spec_is_tiling(p.desktop)
    &&& v.needs_xserver == spec_needs_xserver(p.desktop)
    &&& v.has_nvidia == spec_has_nvidia(p.hardware.gpu@)
    &&& v.nvidia_open == p.hardware.gpu@.contains(Gpu::NvidiaOpen)
    &&& v.allow_unfree == (spec_has_nvidia(p.hardware.gpu@) || p.hardware.firmware == FirmwareMode::All)
    &&& match p.disk.swap {
        SwapMode::File { size_gib } => v.swapfile matches Some(f) && f.mib == size_gib * 1024
            && f.path@ == swapfile_path(p.disk.filesystem),
        _ => v.swapfile is None,
    }
    &&& match p.kernel {
        KernelChoice::CachyOs { variant, nixpkgs_policy, cache } => v.cachyos matches Some(c)
            && spec_matches(c, variant, nixpkgs_policy, cache),
        _ => v.cachyos is None,
    }
}

fn gpus_have_nvidia(gpus: &Vec<Gpu>) -> (r: bool)
    ensures
        r == spec_has_nvidia(gpus@),
{
    let mut i: usize = 0;
    while i < gpus.len()
        invariant
            i <= gpus.len(),
            forall|j: int| 0 <= j < i ==> !(#[trigger] gpus@[j] == Gpu::NvidiaProprietary || gpus@[j] == Gpu::NvidiaOpen),
        decreases gpus.len() - i,
    {
        if gpus[i] == Gpu::NvidiaProprietary || gpus[i] == Gpu::NvidiaOpen {
            return true;
        }
        i = i + 1;
    }
    false
}

fn gpus_contain(gpus: &Vec<Gpu>, g: Gpu) -> (r: bool)
    ensures
        r == gpus@.contains(g),
{
    let mut i: usize = 0;
    while i < gpus.len()
        invariant
            i <= gpus.len(),
            forall|j: int| 0 <= j < i ==> gpus@[j] != g,
        decreases gpus.len() - i,
    {
        if gpus[i] == g {
            assert(gpus@[i as int] == g);
            return true;
        }
        i = i + 1;
    }
    false
}

/// The values the system templates get for `plan`. Validation rules out file swap on ZFS.
pub fn system_values(plan: &BalsaInstallPlan) -> (r: SystemValues)
    requires
        !(plan.disk.filesystem == Filesystem::Zfs && plan.disk.swap is File),
    ensures
        values_for(r, *plan),
{
    let has_nvidia = gpus_have_nvidia(&plan.hardware.gpu);
    let swapfile = match plan.disk.swap {
        SwapMode::File { size_gib } => Some(SwapFile {
            mib: size_gib as u64 * 1024,
            path: match plan.disk.filesystem {
                Filesystem::Btrfs => "/swap/swapfile",
                Filesystem::Ext4 | Filesystem::Xfs => "/swapfile",
                Filesystem::Zfs => {
                    // validate() rejects file swap on ZFS
                    proof {
                        assert(false);
                    }
                    "/swapfile"
                },
            },
        }),
        _ => None,
    };
    let cachyos = match &plan.kernel {
        KernelChoice::CachyOs { variant, nixpkgs_policy, cache } => Some(cachyos::spec(*variant, *nixpkgs_policy, cache).0),
        _ => None,
    };
    SystemValues {
        effective_loader: plan.boot.effective_loader(),
        login: plan.login_manager(),
        desktop_is_tiling: plan.desktop.is_tiling(),
        needs_xserver: plan.desktop.needs_xserver(),
        has_nvidia,
        nvidia_open: gpus_contain(&plan.hardware.gpu, Gpu::NvidiaOpen),
        allow_unfree: has_nvidia || plan.hardware.firmware == FirmwareMode::All,
        swapfile,
        cachyos,
    }
}

/// The warning for a hand-written disko devices block.
pub open spec fn manual_scheme_warning() -> Seq<char> {
    "Manual partitioning: the disko devices block is passed through unchanged and is only checked by nix evaluation."@
}

/// The warning for a ZFS root pool.
pub open spec fn zfs_warning() -> Seq<char> {
    "ZFS: run `zpool export zroot` after installing. The pool is created under the installer's hostId, and the installed system will not force-import it at boot."@
}

/// The warnings `generate` returns for `p`, in order.
pub open spec fn plan_warnings(p: BalsaInstallPlan) -> Seq<Seq<char>> {
    (match p.kernel {
        KernelChoice::CachyOs { variant, nixpkgs_policy, cache } => cachyos_warnings(variant, nixpkgs_policy, cache.substituter@),
        _ => Seq::empty(),
    }) + msg_if(p.disk.scheme is Manual, manual_scheme_warning()) + msg_if(
        p.disk.filesystem == Filesystem::Zfs,
        zfs_warning(),
    )
}

/// Non-fatal notes about `plan` for a UI.
pub fn warnings(plan: &BalsaInstallPlan) -> (r: Vec<String>)
    ensures
        views(r@) == plan_warnings(*plan),
{
    let mut warnings: Vec<String> = Vec::new();
    if let KernelChoice::CachyOs { variant, nixpkgs_policy, cache } = &plan.kernel {
        let (_, w) = cachyos::spec(*variant, *nixpkgs_policy, cache);
        let mut w = w;
        warnings.append(&mut w);
    }
    assert(views(warnings@) =~= match plan.kernel {
        KernelChoice::CachyOs { variant, nixpkgs_policy, cache } => cachyos_warnings(variant, nixpkgs_policy, cache.substituter@),
        _ => Seq::empty(),
    });
    let ghost w0 = views(warnings@);
    if let PartitionScheme::Manual { .. } = &plan.disk.scheme {
        warnings.push(String::from_str(
            "Manual partitioning: the disko devices block is passed through unchanged and is only checked by nix evaluation.",
        ));
    }
    assert(views(warnings@) =~= w0 + msg_if(plan.disk.scheme is Manual, manual_scheme_warning()));
    let ghost w1 = views(warnings@);
    if plan.disk.filesystem == Filesystem::Zfs {
        warnings.push(String::from_str(
            "ZFS: run `zpool export zroot` after installing. The pool is created under the installer's hostId, and the installed system will not force-import it at boot.",
        ));
    }
    assert(views(warnings@) =~= w1 + msg_if(plan.disk.filesystem == Filesystem::Zfs, zfs_warning()));
    warnings
}

// ---------------------------------------------------------------------------
// Generation

/// `req` asks for a system template with `plan` and the values derived from it.
pub open spec fn system_request_for(req: RenderRequest, plan: BalsaInstallPlan) -> bool {
    match req {
        RenderRequest::System { template: _, plan: p, values } => *p == plan && values_for(*values, plan),
        _ => false,
    }
}

/// `req` asks for the system template `template` with `plan` and the values derived from it.
pub open spec fn system_request(req: RenderRequest, template: Seq<char>, plan: BalsaInstallPlan) -> bool {
    &&& system_request_for(req, plan)
    &&& req matches RenderRequest::System { template: t, .. } && t@ == template
}

/// `render` is handed the engine built from `templates` and a request for the system template
/// `template` of `plan`, and produces a body; `out` is that body tidied.
pub open spec fn system_rendered<F: Fn(&Tera, &RenderRequest) -> Result<String, String>>(
    render: F,
    templates: Seq<(String, String)>,
    template: Seq<char>,
    plan: BalsaInstallPlan,
    out: Seq<char>,
) -> bool {
    exists|t: Tera, req: RenderRequest, b: String|
        engine_for(t, templates) && system_request(req, template, plan) && #[trigger] render.ensures(
            (&t, &req),
            Ok(b),
        ) && out == tidied(b@)
}

/// `render`, handed the engine built from `templates` and a request for a system template of
/// `plan`, fails with the message `m`.
pub open spec fn system_failed<F: Fn(&Tera, &RenderRequest) -> Result<String, String>>(
    render: F,
    templates: Seq<(String, String)>,
    plan: BalsaInstallPlan,
    m: String,
) -> bool {
    exists|t: Tera, req: RenderRequest|
        engine_for(t, templates) && system_request_for(req, plan) && #[trigger] render.ensures(
            (&t, &req),
            Err(m),
        )
}

/// `render` never fails, whatever it is handed.
pub open spec fn never_fails<F: Fn(&Tera, &RenderRequest) -> Result<String, String>>(render: F) -> bool {
    forall|t: &Tera, req: &RenderRequest, res: Result<String, String>| #[trigger] render.ensures((t, req), res)
        ==> res is Ok
}

/// The files `generate` writes, in order.
pub open spec fn output_names() -> Seq<Seq<char>> {
    seq!["configuration.nix"@, "disko-config.nix"@, "flake.nix"@, "hardware-configuration.nix"@]
}

proof fn lemma_output_names_ascending()
    ensures
        names_ascending(output_names()),
{
    reveal_strlit("configuration.nix");
    reveal_strlit("disko-config.nix");
    reveal_strlit("flake.nix");
    reveal_strlit("hardware-configuration.nix");
    let n = output_names();
    assert(n[0][0] == 'c' && n[1][0] == 'd' && n[2][0] == 'f' && n[3][0] == 'h');
    assert(n[0].len() > 0 && n[1].len() > 0 && n[2].len() > 0 && n[3].len() > 0);
}

/// Renders one system template and tidies it.
fn render_system<F: Fn(&Tera, &RenderRequest) -> Result<String, String>>(
    tera: &Tera,
    templates: &Vec<(String, String)>,
    template: &'static str,
    plan: &BalsaInstallPlan,
    values: &SystemValues,
    render: &F,
) -> (r: Result<String, crate::Error>)
    requires
        forall|t: &Tera, req: &RenderRequest| render.requires((t, req)),
        engine_for(*tera, templates@),
        values_for(*values, *plan),
    ensures
        match r {
            Ok(body) => system_rendered(*render, templates@, template@, *plan, body@),
            Err(e) => e matches crate::Error::Template(m) && system_failed(*render, templates@, *plan, m),
        },
        never_fails(*render) ==> r is Ok,
{
    let req = RenderRequest::System { template, plan, values };
    assert(system_request(req, template@, *plan));
    match render(tera, &req) {
        Ok(body) => Ok(tidy(body.as_str())),
        Err(m) => Err(crate::Error::Template(m)),
    }
}

/// Validates `plan`, then renders the flake: the system templates through `render` with the plan
/// and the values derived from it, and disko-config.nix through `generate_disko_config`.
/// `templates` (name, body) are loaded into a fresh engine, which `render` gets; a template that
/// fails to load or render is a template error.
pub fn generate<F: Fn(&Tera, &RenderRequest) -> Result<String, String>>(
    plan: &BalsaInstallPlan,
    templates: &Vec<(String, String)>,
    render: &F,
) -> (r: Result<GenerationResult, crate::Error>)
    requires
        forall|t: &Tera, req: &RenderRequest| render.requires((t, req)),
    ensures
        (r matches Err(crate::Error::Validation(_))) <==> plan_errors(*plan).len() > 0,
        r matches Err(crate::Error::Validation(e)) ==> views(e@) == plan_errors(*plan),
        plan_errors(*plan).len() == 0 && !loads(templates@) ==> r matches Err(crate::Error::Template(_)),
        plan_errors(*plan).len() == 0 && loads(templates@) && never_fails(*render) ==> r is Ok,
        r matches Ok(res) ==> {
            &&& plan_errors(*plan).len() == 0
            &&& loads(templates@)
            &&& views(res.warnings@) == plan_warnings(*plan)
            &&& file_names(res.config.files@) == output_names()
            &&& res.config.well_formed()
            &&& system_rendered(*render, templates@, "configuration.nix.j2"@, *plan, res.config.files@[0].1@)
            &&& crate::disko::disko_rendered(
                *render,
                templates@,
                plan.disk,
                plan.boot.legacy_bios,
                plan.boot.esp_mount@,
                res.config.files@[1].1@,
            )
            &&& system_rendered(*render, templates@, "flake.nix.j2"@, *plan, res.config.files@[2].1@)
            &&& system_rendered(
                *render,
                templates@,
                "hardware-configuration.nix.j2"@,
                *plan,
                res.config.files@[3].1@,
            )
        },
        plan_errors(*plan).len() == 0 && loads(templates@) ==> (r matches Err(e) ==> e matches crate::Error::Template(
            m,
        ) && (system_failed(*render, templates@, *plan, m) || crate::disko::disko_failed(
            *render,
            templates@,
            plan.disk,
            plan.boot.legacy_bios,
            plan.boot.esp_mount@,
            m,
        ))),
{
    if let Err(errs) = plan.validate() {
        return Err(crate::Error::Validation(errs));
    }
    proof {
        crate::laws::lemma_valid_plan_has_valid_disk(*plan);
    }
    let warnings = warnings(plan);
    let values = system_values(plan);

    let tera = match engine(templates) {
        Ok(t) => t,
        Err(msg) => return Err(crate::Error::Template(msg)),
    };
    let flake = render_system(&tera, templates, "flake.nix.j2", plan, &values, render)?;
    let configuration = render_system(&tera, templates, "configuration.nix.j2", plan, &values, render)?;
    let hardware = render_system(&tera, templates, "hardware-configuration.nix.j2", plan, &values, render)?;
    let disko = crate::disko::generate_disko_config(
        &plan.disk,
        plan.boot.legacy_bios,
        plan.boot.esp_mount.as_str(),
        templates,
        render,
    )?;

    let mut files: Vec<(String, String)> = Vec::new();
    files.push((String::from_str("configuration.nix"), configuration));
    files.push((String::from_str("disko-config.nix"), disko));
    files.push((String::from_str("flake.nix"), flake));
    files.push((String::from_str("hardware-configuration.nix"), hardware));
    assert(file_names(files@) =~= output_names());
    proof {
        lemma_output_names_ascending();
    }
    Ok(GenerationResult { config: GeneratedConfig { files }, warnings })
}

} // verus!
