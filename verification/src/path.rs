//! Joining paths by the rules of `Path::join` on Unix and on Windows.
//!
//! The target platform is a parameter (`windows`), so both rule sets are
//! stated and proved on every machine. On Windows a path may begin with a
//! prefix: a drive (`C:`), a UNC share (`\\server\share`), a device
//! namespace (`\\.\COM1`) or a verbatim prefix (`\\?\…`), and under a
//! verbatim prefix a join also removes `.` and `..` components.

use vstd::prelude::*;
use crate::text::{chars_of, push_char, str_eq, string_from_chars, to_string};

verus! {

broadcast use vstd::string::group_string_axioms;

/// A path separator: `/`, and on Windows also `\`.
pub open spec fn is_separator(c: char, windows: bool) -> bool {
    c == '/' || (windows && c == '\\')
}

/// An ASCII letter, as a drive letter must be.
pub open spec fn is_ascii_letter(c: char) -> bool {
    ('a' <= c && c <= 'z') || ('A' <= c && c <= 'Z')
}

/// `s` begins with a drive such as `C:`.
pub open spec fn has_drive_prefix(s: Seq<char>) -> bool {
    s.len() >= 2 && is_ascii_letter(s[0]) && s[1] == ':'
}

/// `s` begins with a separator.
pub open spec fn has_root(s: Seq<char>, windows: bool) -> bool {
    s.len() > 0 && is_separator(s[0], windows)
}

/// What separates components: under a verbatim prefix only `\`.
pub open spec fn is_component_separator(c: char, verbatim: bool) -> bool {
    if verbatim {
        c == '\\'
    } else {
        is_separator(c, true)
    }
}

/// The index of the first component separator of `s` at or after `from`,
/// or the length of `s` when there is none.
pub open spec fn next_separator(s: Seq<char>, from: int, verbatim: bool) -> int
    decreases s.len() - from,
{
    if from < 0 || from >= s.len() {
        s.len() as int
    } else if is_component_separator(s[from], verbatim) {
        from
    } else {
        next_separator(s, from + 1, verbatim)
    }
}

/// The kinds of Windows path prefix.
pub enum PrefixKind {
    /// `C:`
    Disk,
    /// `\\server\share`
    Unc,
    /// `\\.\name`
    Device,
    /// `\\?\…`: `\\?\UNC\server\share`, `\\?\C:` or `\\?\name`.
    Verbatim,
}

/// The prefix that a Windows path begins with, and its length.
pub open spec fn windows_prefix(s: Seq<char>) -> Option<(PrefixKind, int)> {
    if s.len() >= 2 && is_separator(s[0], true) && is_separator(s[1], true) {
        if s.len() >= 4 && s[0] == '\\' && s[1] == '\\' && s[2] == '?' && s[3] == '\\' {
            if s.len() >= 8 && s[4] == 'U' && s[5] == 'N' && s[6] == 'C' && is_separator(s[7], true) {
                let e1 = next_separator(s, 8, true);
                let e2 = next_separator(s, e1 + 1, true);
                Some((PrefixKind::Verbatim, if e1 < s.len() && e2 > e1 + 1 { e2 } else { e1 }))
            } else if s.len() >= 6 && is_ascii_letter(s[4]) && s[5] == ':' && (s.len() == 6 || s[6]
                == '\\') {
                Some((PrefixKind::Verbatim, 6))
            } else {
                Some((PrefixKind::Verbatim, next_separator(s, 4, true)))
            }
        } else if s.len() >= 4 && s[2] == '.' && is_separator(s[3], true) {
            Some((PrefixKind::Device, next_separator(s, 4, false)))
        } else {
            let e1 = next_separator(s, 2, false);
            let e2 = next_separator(s, e1 + 1, false);
            if e1 > 2 && e1 < s.len() && e2 > e1 + 1 {
                Some((PrefixKind::Unc, e2))
            } else {
                None
            }
        }
    } else if has_drive_prefix(s) {
        Some((PrefixKind::Disk, 2))
    } else {
        None
    }
}

/// The length of the Windows prefix of `s` (0 without one).
pub open spec fn prefix_len(s: Seq<char>) -> int {
    match windows_prefix(s) {
        Some((_, n)) => n,
        None => 0,
    }
}

/// `s` begins with a verbatim prefix.
pub open spec fn is_verbatim(s: Seq<char>) -> bool {
    windows_prefix(s) matches Some((PrefixKind::Verbatim, _))
}

/// The components of `body` (the part of a verbatim path after its prefix
/// and root) completed so far, and the one being read: `\` ends a
/// component, and empty ones are dropped.
pub open spec fn verbatim_fold(body: Seq<char>) -> (Seq<Seq<char>>, Seq<char>)
    decreases body.len(),
{
    if body.len() == 0 {
        (Seq::empty(), Seq::empty())
    } else {
        let (cs, cur) = verbatim_fold(body.drop_last());
        if body.last() == '\\' {
            (if cur.len() > 0 {
                cs.push(cur)
            } else {
                cs
            }, Seq::empty())
        } else {
            (cs, cur.push(body.last()))
        }
    }
}

/// The non-empty components of the body of a verbatim path.
pub open spec fn verbatim_components(body: Seq<char>) -> Seq<Seq<char>> {
    let (cs, cur) = verbatim_fold(body);
    if cur.len() > 0 {
        cs.push(cur)
    } else {
        cs
    }
}

/// One component of a joined path applied to the components so far: empty
/// and `.` change nothing, `..` removes the last component when that is an
/// ordinary one, anything else is appended.
pub open spec fn apply_component(cs: Seq<Seq<char>>, p: Seq<char>) -> Seq<Seq<char>> {
    if p.len() == 0 || p == "."@ {
        cs
    } else if p == ".."@ {
        if cs.len() > 0 && cs.last() != "."@ && cs.last() != ".."@ {
            cs.drop_last()
        } else {
            cs
        }
    } else {
        cs.push(p)
    }
}

/// The components after the components of `rest` so far are applied to
/// `start`, and the component being read.
pub open spec fn normalize_fold(start: Seq<Seq<char>>, rest: Seq<char>) -> (Seq<Seq<char>>, Seq<char>)
    decreases rest.len(),
{
    if rest.len() == 0 {
        (start, Seq::empty())
    } else {
        let (cs, cur) = normalize_fold(start, rest.drop_last());
        if is_separator(rest.last(), true) {
            (apply_component(cs, cur), Seq::empty())
        } else {
            (cs, cur.push(rest.last()))
        }
    }
}

/// `start` with every component of `rest` applied.
pub open spec fn normalize_components(start: Seq<Seq<char>>, rest: Seq<char>) -> Seq<Seq<char>> {
    let (cs, cur) = normalize_fold(start, rest);
    apply_component(cs, cur)
}

/// Each component preceded by `\`.
pub open spec fn separated(cs: Seq<Seq<char>>) -> Seq<char>
    decreases cs.len(),
{
    if cs.len() == 0 {
        Seq::empty()
    } else {
        separated(cs.drop_last()).push('\\') + cs.last()
    }
}

/// A verbatim `base` with a prefix of length `plen` has a root.
pub open spec fn verbatim_root(base: Seq<char>, plen: int) -> bool {
    plen < base.len() && is_separator(base[plen], true)
}

/// The part of a verbatim `base` after its prefix and root.
pub open spec fn verbatim_body(base: Seq<char>, plen: int) -> Seq<char> {
    if verbatim_root(base, plen) {
        base.skip(plen + 1)
    } else {
        base.skip(plen)
    }
}

/// A non-empty `rest` without a prefix joined to a verbatim `base`: the
/// components of `base` (or none, for a rooted `rest`) with those of `rest`
/// applied, after the prefix of `base`, each preceded by `\`; a root with
/// no component is a single `\`.
pub open spec fn verbatim_join(base: Seq<char>, plen: int, rest: Seq<char>) -> Seq<char> {
    let rooted = has_root(rest, true);
    let cs = normalize_components(
        if rooted {
            Seq::empty()
        } else {
            verbatim_components(verbatim_body(base, plen))
        },
        rest,
    );
    let root = rooted || verbatim_root(base, plen);
    base.take(plen) + if cs.len() == 0 && root {
        seq!['\\']
    } else {
        separated(cs)
    }
}

/// `base` joined with `rest` by the rules of `Path::join` on Windows:
/// a `rest` with a prefix replaces `base`; under a verbatim `base` the
/// components are normalized; a rooted `rest` keeps the prefix of `base`;
/// otherwise `\` goes between them unless `base` is empty, ends with a
/// separator or is a bare drive such as `C:`.
pub open spec fn windows_join(base: Seq<char>, rest: Seq<char>) -> Seq<char> {
    if windows_prefix(rest) is Some {
        rest
    } else if is_verbatim(base) && rest.len() > 0 {
        verbatim_join(base, prefix_len(base), rest)
    } else if has_root(rest, true) {
        base.take(prefix_len(base)) + rest
    } else if base.len() > 0 && !is_separator(base.last(), true) && !(base.len() == 2
        && has_drive_prefix(base)) {
        base.push('\\') + rest
    } else {
        base + rest
    }
}

/// `base` joined with `rest` by the rules of `Path::join` on Unix: an
/// absolute `rest` replaces `base`; otherwise `/` goes between them unless
/// `base` is empty or ends with one.
pub open spec fn unix_join(base: Seq<char>, rest: Seq<char>) -> Seq<char> {
    if has_root(rest, false) {
        rest
    } else if base.len() > 0 && base.last() != '/' {
        base.push('/') + rest
    } else {
        base + rest
    }
}

/// `base` joined with `rest` on Windows (`windows`) or Unix.
pub open spec fn join_spec(base: Seq<char>, rest: Seq<char>, windows: bool) -> Seq<char> {
    if windows {
        windows_join(base, rest)
    } else {
        unix_join(base, rest)
    }
}

/// Whether `c` is a path separator on the platform.
fn is_sep(c: char, windows: bool) -> (r: bool)
    ensures
        r == is_separator(c, windows),
{
    c == '/' || (windows && c == '\\')
}

/// Whether `c` ends a component.
fn is_component_sep(c: char, verbatim: bool) -> (r: bool)
    ensures
        r == is_component_separator(c, verbatim),
{
    if verbatim {
        c == '\\'
    } else {
        is_sep(c, true)
    }
}

/// Whether `c` is an ASCII letter.
fn is_letter(c: char) -> (r: bool)
    ensures
        r == is_ascii_letter(c),
{
    ('a' <= c && c <= 'z') || ('A' <= c && c <= 'Z')
}

/// Whether `v` begins with a drive prefix.
fn starts_with_drive(v: &Vec<char>) -> (r: bool)
    ensures
        r == has_drive_prefix(v@),
{
    v.len() >= 2 && is_letter(v[0]) && v[1] == ':'
}

proof fn lemma_next_separator_bounds(s: Seq<char>, from: int, verbatim: bool)
    ensures
        next_separator(s, from, verbatim) <= s.len(),
        0 <= from ==> from <= next_separator(s, from, verbatim) || next_separator(s, from, verbatim)
            == s.len(),
        0 <= from <= s.len() ==> from <= next_separator(s, from, verbatim),
    decreases s.len() - from,
{
    if 0 <= from < s.len() && !is_component_separator(s[from], verbatim) {
        lemma_next_separator_bounds(s, from + 1, verbatim);
    }
}

/// The first component separator of `v` at or after `from`.
fn next_sep(v: &Vec<char>, from: usize, verbatim: bool) -> (r: usize)
    ensures
        r as int == next_separator(v@, from as int, verbatim),
        r <= v.len(),
{
    if from >= v.len() {
        return v.len();
    }
    let mut i: usize = from;
    while i < v.len() && !is_component_sep(v[i], verbatim)
        invariant
            from <= i <= v.len(),
            next_separator(v@, from as int, verbatim) == next_separator(v@, i as int, verbatim),
        decreases v.len() - i,
    {
        i += 1;
    }
    i
}

/// The first separator after the one at `e` (the length when `e` is last).
fn next_sep_after(v: &Vec<char>, e: usize, verbatim: bool) -> (r: usize)
    requires
        e <= v.len(),
    ensures
        r as int == next_separator(v@, e + 1, verbatim),
        r <= v.len(),
{
    if e < v.len() {
        next_sep(v, e + 1, verbatim)
    } else {
        v.len()
    }
}

/// The Windows prefix of `v` and its length.
fn windows_prefix_of(v: &Vec<char>) -> (r: Option<(PrefixKind, usize)>)
    ensures
        match r {
            Some((k, n)) => windows_prefix(v@) == Some((k, n as int)),
            None => windows_prefix(v@) is None,
        },
{
    let n = v.len();
    if n >= 2 && is_sep(v[0], true) && is_sep(v[1], true) {
        if n >= 4 && v[0] == '\\' && v[1] == '\\' && v[2] == '?' && v[3] == '\\' {
            if n >= 8 && v[4] == 'U' && v[5] == 'N' && v[6] == 'C' && is_sep(v[7], true) {
                let e1 = next_sep(v, 8, true);
                let e2 = next_sep_after(v, e1, true);
                if e1 < n && e2 > e1 + 1 {
                    Some((PrefixKind::Verbatim, e2))
                } else {
                    Some((PrefixKind::Verbatim, e1))
                }
            } else if n >= 6 && is_letter(v[4]) && v[5] == ':' && (n == 6 || v[6] == '\\') {
                Some((PrefixKind::Verbatim, 6))
            } else {
                Some((PrefixKind::Verbatim, next_sep(v, 4, true)))
            }
        } else if n >= 4 && v[2] == '.' && is_sep(v[3], true) {
            Some((PrefixKind::Device, next_sep(v, 4, false)))
        } else {
            let e1 = next_sep(v, 2, false);
            let e2 = next_sep_after(v, e1, false);
            if e1 > 2 && e1 < n && e2 > e1 + 1 {
                Some((PrefixKind::Unc, e2))
            } else {
                None
            }
        }
    } else if starts_with_drive(v) {
        Some((PrefixKind::Disk, 2))
    } else {
        None
    }
}

/// The prefix of a path is part of it: its length is at most the path's,
/// and a verbatim one is at least `\\?\`.
pub proof fn lemma_prefix_len_bounds(s: Seq<char>)
    ensures
        0 <= prefix_len(s) <= s.len(),
        is_verbatim(s) ==> 4 <= prefix_len(s) && s[0] == '\\',
        windows_prefix(s) is Some ==> prefix_len(s) >= 2,
{
    lemma_next_separator_bounds(s, 2, false);
    lemma_next_separator_bounds(s, 4, false);
    lemma_next_separator_bounds(s, 4, true);
    lemma_next_separator_bounds(s, 8, true);
    lemma_next_separator_bounds(s, next_separator(s, 2, false) + 1, false);
    lemma_next_separator_bounds(s, next_separator(s, 8, true) + 1, true);
}

/// A component applied to a list of `String`s.
fn apply_component_to(cs: &mut Vec<String>, p: String)
    ensures
        final(cs)@.map_values(|s: String| s@) == apply_component(
            old(cs)@.map_values(|s: String| s@),
            p@,
        ),
{
    let ghost before = cs@.map_values(|s: String| s@);
    if p.as_str().is_empty() || str_eq(p.as_str(), ".") {
        return;
    }
    if str_eq(p.as_str(), "..") {
        let n = cs.len();
        if n > 0 && !str_eq(cs[n - 1].as_str(), ".") && !str_eq(cs[n - 1].as_str(), "..") {
            assert(before.last() == cs@[n - 1]@);
            let _ = cs.pop();
            assert(cs@.map_values(|s: String| s@) =~= before.drop_last());
        }
        return;
    }
    cs.push(p);
    assert(cs@.map_values(|s: String| s@) =~= before.push(p@));
}

/// The components of `v[from..]`, a verbatim body.
fn verbatim_components_of(v: &Vec<char>, from: usize) -> (r: Vec<String>)
    requires
        from <= v.len(),
    ensures
        r@.map_values(|s: String| s@) == verbatim_components(v@.skip(from as int)),
{
    let mut cs: Vec<String> = Vec::new();
    let mut cur = String::new();
    let mut i: usize = from;
    assert(v@.subrange(from as int, from as int) =~= Seq::<char>::empty());
    assert(cs@.map_values(|s: String| s@) =~= Seq::<Seq<char>>::empty());
    while i < v.len()
        invariant
            from <= i <= v.len(),
            (cs@.map_values(|s: String| s@), cur@) == verbatim_fold(
                v@.subrange(from as int, i as int),
            ),
        decreases v.len() - i,
    {
        let ghost before = cs@.map_values(|s: String| s@);
        let ghost sub = v@.subrange(from as int, i + 1);
        assert(sub.drop_last() =~= v@.subrange(from as int, i as int));
        assert(sub.last() == v@[i as int]);
        if v[i] == '\\' {
            if !cur.as_str().is_empty() {
                cs.push(cur);
                assert(cs@.map_values(|s: String| s@) =~= before.push(verbatim_fold(
                    v@.subrange(from as int, i as int),
                ).1));
            }
            cur = String::new();
        } else {
            push_char(&mut cur, v[i]);
        }
        i += 1;
    }
    assert(v@.subrange(from as int, v.len() as int) =~= v@.skip(from as int));
    let ghost before = cs@.map_values(|s: String| s@);
    if !cur.as_str().is_empty() {
        let ghost c = cur@;
        cs.push(cur);
        assert(cs@.map_values(|s: String| s@) =~= before.push(c));
    }
    cs
}

/// `cs` with every component of `t` applied.
fn normalize_into(cs: &mut Vec<String>, t: &Vec<char>)
    ensures
        final(cs)@.map_values(|s: String| s@) == normalize_components(
            old(cs)@.map_values(|s: String| s@),
            t@,
        ),
{
    let ghost start = cs@.map_values(|s: String| s@);
    let mut cur = String::new();
    let mut i: usize = 0;
    assert(t@.take(0) =~= Seq::<char>::empty());
    while i < t.len()
        invariant
            i <= t.len(),
            (cs@.map_values(|s: String| s@), cur@) == normalize_fold(start, t@.take(i as int)),
        decreases t.len() - i,
    {
        assert(t@.take(i + 1).drop_last() =~= t@.take(i as int));
        assert(t@.take(i + 1).last() == t@[i as int]);
        if is_sep(t[i], true) {
            let mut piece = String::new();
            std::mem::swap(&mut piece, &mut cur);
            apply_component_to(cs, piece);
        } else {
            push_char(&mut cur, t[i]);
        }
        i += 1;
    }
    assert(t@.take(t.len() as int) =~= t@);
    apply_component_to(cs, cur);
}

/// A non-empty `t` without a prefix joined to the verbatim path `b` whose
/// prefix has length `plen`.
fn join_verbatim(b: &Vec<char>, plen: usize, t: &Vec<char>) -> (r: String)
    requires
        plen <= b.len(),
    ensures
        r@ == verbatim_join(b@, plen as int, t@),
{
    let rooted = t.len() > 0 && is_sep(t[0], true);
    let base_root = plen < b.len() && is_sep(b[plen], true);
    let mut cs: Vec<String> = if rooted {
        let e: Vec<String> = Vec::new();
        assert(e@.map_values(|s: String| s@) =~= Seq::<Seq<char>>::empty());
        e
    } else if base_root {
        verbatim_components_of(b, plen + 1)
    } else {
        verbatim_components_of(b, plen)
    };
    normalize_into(&mut cs, t);
    let ghost comps = cs@.map_values(|s: String| s@);
    let mut out = string_from_chars(b, 0, plen);
    assert(b@.subrange(0, plen as int) =~= b@.take(plen as int));
    if cs.len() == 0 {
        if rooted || base_root {
            push_char(&mut out, '\\');
            assert(b@.take(plen as int).push('\\') =~= b@.take(plen as int) + seq!['\\']);
        } else {
            assert(b@.take(plen as int) + separated(comps) =~= b@.take(plen as int));
        }
        return out;
    }
    let mut k: usize = 0;
    assert(comps.take(0) =~= Seq::<Seq<char>>::empty());
    assert(out@ =~= b@.take(plen as int) + separated(comps.take(0)));
    while k < cs.len()
        invariant
            k <= cs@.len(),
            comps == cs@.map_values(|s: String| s@),
            out@ == b@.take(plen as int) + separated(comps.take(k as int)),
        decreases cs.len() - k,
    {
        assert(comps.take(k + 1).drop_last() =~= comps.take(k as int));
        assert(comps.take(k + 1).last() == cs@[k as int]@);
        push_char(&mut out, '\\');
        out.append(cs[k].as_str());
        assert(out@ =~= b@.take(plen as int) + separated(comps.take(k + 1)));
        k += 1;
    }
    assert(comps.take(cs.len() as int) =~= comps);
    out
}

/// `PathBuf::from(base).join(rest)`, displayed, by the rules of Windows
/// (`windows`) or Unix.
pub fn join_path(base: &str, rest: &str, windows: bool) -> (r: String)
    ensures
        r@ == join_spec(base@, rest@, windows),
{
    let b = chars_of(base);
    let t = chars_of(rest);
    if !windows {
        if t.len() > 0 && t[0] == '/' {
            return to_string(rest);
        }
        let mut r = to_string(base);
        if b.len() > 0 && b[b.len() - 1] != '/' {
            push_char(&mut r, '/');
        }
        r.append(rest);
        return r;
    }
    if windows_prefix_of(&t).is_some() {
        return to_string(rest);
    }
    let bp = windows_prefix_of(&b);
    proof {
        lemma_prefix_len_bounds(b@);
    }
    let plen: usize = match bp {
        Some((_, n)) => n,
        None => 0,
    };
    let verbatim = match bp {
        Some((PrefixKind::Verbatim, _)) => true,
        _ => false,
    };
    if verbatim && t.len() > 0 {
        return join_verbatim(&b, plen, &t);
    }
    if t.len() > 0 && is_sep(t[0], true) {
        let mut r = string_from_chars(&b, 0, plen);
        assert(b@.subrange(0, plen as int) =~= b@.take(plen as int));
        r.append(rest);
        return r;
    }
    let mut r = to_string(base);
    if b.len() > 0 && !is_sep(b[b.len() - 1], true) && !(b.len() == 2 && starts_with_drive(&b)) {
        push_char(&mut r, '\\');
    }
    r.append(rest);
    r
}

} // verus!
