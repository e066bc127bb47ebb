//! Gateway configuration: the settings the command line gives, and the
//! workdir / agent-command resolution rules around them.
//!
//! Values that come from the environment (the home directory, `PATH`, the
//! platform) are parameters here; the program reads them and passes them in.
//! Paths are joined by the rules of `Path::join` on the target platform,
//! which is a parameter too.

use vstd::prelude::*;
use crate::path::{
    is_ascii_letter, is_separator, join_path, join_spec, lemma_prefix_len_bounds,
};
use crate::text::{
    chars_of, concat, contains_char, ends_with, is_prefix, is_suffix, starts_with, str_eq,
    string_from_chars, to_string, trim, trim_spec,
};

verus! {

broadcast use vstd::string::group_string_axioms;

/// Subdirectory under the user home used as the default agent workdir.
pub const DEFAULT_WORKDIR_NAME: &'static str = "trae-acp-gateway";

/// Default agent workdir: `<home>/trae-acp-gateway`, or `.` if home is unknown.
pub open spec fn default_workdir_spec(home: Option<Seq<char>>, windows: bool) -> Seq<char> {
    match home {
        Some(h) => join_spec(h, DEFAULT_WORKDIR_NAME@, windows),
        None => "."@,
    }
}

/// Default agent workdir for the user home `home` (`HOME` on Unix,
/// `USERPROFILE` on Windows): `~/trae-acp-gateway` or
/// `%USERPROFILE%\trae-acp-gateway`.
pub fn default_workdir(home: Option<&str>, windows: bool) -> (r: String)
    ensures
        r@ == default_workdir_spec(
            match home {
                Some(h) => Some(h@),
                None => None,
            },
            windows,
        ),
{
    match home {
        Some(h) => join_path(h, DEFAULT_WORKDIR_NAME, windows),
        None => to_string("."),
    }
}

/// Values that should be replaced with the default workdir (legacy / unset).
pub open spec fn is_legacy_workdir_spec(workdir: Seq<char>) -> bool {
    let t = trim_spec(workdir);
    t == ""@ || t == "."@ || t == "./"@ || t == "~"@
}

/// Values that should be replaced with the default workdir (legacy / unset):
/// after trimming, empty, `.`, `./` or `~`.
pub fn is_legacy_workdir(workdir: &str) -> (r: bool)
    ensures
        r == is_legacy_workdir_spec(workdir@),
{
    let t = trim(workdir);
    let t = t.as_str();
    str_eq(t, "") || str_eq(t, ".") || str_eq(t, "./") || str_eq(t, "~")
}

/// `~` / `~/…` expanded against the user home; anything else unchanged.
pub open spec fn expand_workdir_spec(workdir: Seq<char>, home: Option<Seq<char>>, windows: bool) -> Seq<
    char,
> {
    if workdir == "~"@ {
        default_workdir_spec(home, windows)
    } else if is_prefix("~/"@, workdir) && home is Some {
        let rest = workdir.skip(2);
        if rest.len() == 0 {
            home->0
        } else {
            join_spec(home->0, rest, windows)
        }
    } else {
        workdir
    }
}

/// Expand `~` / `~/…` before canonicalization (GUI and CLI share this).
pub fn expand_workdir(workdir: &str, home: Option<&str>, windows: bool) -> (r: String)
    ensures
        r@ == expand_workdir_spec(
            workdir@,
            match home {
                Some(h) => Some(h@),
                None => None,
            },
            windows,
        ),
{
    if str_eq(workdir, "~") {
        return default_workdir(home, windows);
    }
    if starts_with(workdir, "~/") {
        match home {
            Some(h) => {
                proof {
                    reveal_strlit("~/");
                }
                let v = chars_of(workdir);
                let rest = string_from_chars(&v, 2, v.len());
                assert(rest@ =~= workdir@.skip(2));
                if rest.as_str().is_empty() {
                    return to_string(h);
                }
                return join_path(h, rest.as_str(), windows);
            },
            None => {},
        }
    }
    to_string(workdir)
}

/// A path joined onto a non-empty `base` begins with the first character
/// of `base`, with a separator, or with a drive letter.
proof fn lemma_join_first(base: Seq<char>, rest: Seq<char>, windows: bool)
    requires
        base.len() > 0,
    ensures
        join_spec(base, rest, windows).len() > 0,
        join_spec(base, rest, windows)[0] == base[0] || is_separator(
            join_spec(base, rest, windows)[0],
            windows,
        ) || is_ascii_letter(join_spec(base, rest, windows)[0]),
{
    lemma_prefix_len_bounds(base);
    lemma_prefix_len_bounds(rest);
}

/// Expanding a workdir twice gives what expanding it once gives, when the
/// home is unknown or is a non-empty path that does not begin with `~`.
pub proof fn lemma_expand_workdir_idempotent(workdir: Seq<char>, home: Option<Seq<char>>, windows: bool)
    requires
        match home {
            Some(h) => h.len() > 0 && h[0] != '~',
            None => true,
        },
    ensures
        expand_workdir_spec(expand_workdir_spec(workdir, home, windows), home, windows)
            == expand_workdir_spec(workdir, home, windows),
{
    reveal_strlit("~");
    reveal_strlit("~/");
    reveal_strlit(".");
    let e = expand_workdir_spec(workdir, home, windows);
    if e != workdir {
        match home {
            Some(h) => {
                if workdir == "~"@ {
                    lemma_join_first(h, DEFAULT_WORKDIR_NAME@, windows);
                } else if workdir.skip(2).len() > 0 {
                    lemma_join_first(h, workdir.skip(2), windows);
                }
                assert(e[0] != '~');
                assert(e != "~"@);
                assert(!is_prefix("~/"@, e)) by {
                    if e.len() >= 2 {
                        assert(e.take(2)[0] == e[0]);
                    }
                }
            },
            None => {
                assert(e == "."@);
                assert(e != "~"@);
            },
        }
    }
}

/// Common install locations for CLI tools when the process inherits a
/// minimal PATH: `<home>/.local/bin`, `<home>/.cargo/bin`, `/usr/local/bin`,
/// and on Windows `<LOCALAPPDATA>\Programs\trae\bin`, each joined by
/// the platform's rules.
pub open spec fn common_bin_dirs_spec(
    home: Option<Seq<char>>,
    local_app_data: Option<Seq<char>>,
    windows: bool,
) -> Seq<Seq<char>> {
    let home_dirs = match home {
        Some(h) => seq![
            join_spec(join_spec(h, ".local"@, windows), "bin"@, windows),
            join_spec(join_spec(h, ".cargo"@, windows), "bin"@, windows),
        ],
        None => Seq::empty(),
    };
    let local_dirs = match local_app_data {
        Some(l) => seq![
            join_spec(
                join_spec(join_spec(l, "Programs"@, windows), "trae"@, windows),
                "bin"@,
                windows,
            ),
        ],
        None => Seq::empty(),
    };
    home_dirs + seq!["/usr/local/bin"@] + local_dirs
}

/// Common install locations for CLI tools, for the given user home and (on
/// Windows only) `LOCALAPPDATA`.
pub fn common_bin_dirs(home: Option<&str>, local_app_data: Option<&str>, windows: bool) -> (r: Vec<
    String,
>)
    ensures
        r@.map_values(|d: String| d@) == common_bin_dirs_spec(
            match home {
                Some(h) => Some(h@),
                None => None,
            },
            match local_app_data {
                Some(l) => Some(l@),
                None => None,
            },
            windows,
        ),
{
    let mut dirs: Vec<String> = Vec::new();
    match home {
        Some(h) => {
            let local = join_path(h, ".local", windows);
            dirs.push(join_path(local.as_str(), "bin", windows));
            let cargo = join_path(h, ".cargo", windows);
            dirs.push(join_path(cargo.as_str(), "bin", windows));
        },
        None => {},
    }
    dirs.push(to_string("/usr/local/bin"));
    match local_app_data {
        Some(l) => {
            let p = join_path(l, "Programs", windows);
            let t = join_path(p.as_str(), "trae", windows);
            dirs.push(join_path(t.as_str(), "bin", windows));
        },
        None => {},
    }
    assert(dirs@.map_values(|d: String| d@) =~= common_bin_dirs_spec(
        match home {
            Some(h) => Some(h@),
            None => None,
        },
        match local_app_data {
            Some(l) => Some(l@),
            None => None,
        },
        windows,
    ));
    dirs
}

/// A command given with a path separator is used as it is.
pub open spec fn is_explicit_path(cmd: Seq<char>) -> bool {
    cmd.contains('/') || cmd.contains('\\')
}

/// The file name looked up for `cmd`: on Windows with `.exe` appended
/// unless it is there.
pub open spec fn command_file_name(cmd: Seq<char>, windows: bool) -> Seq<char> {
    if windows && !is_suffix(".exe"@, cmd) {
        cmd + ".exe"@
    } else {
        cmd
    }
}

/// Whether probing `path` with `is_file` may answer `answer`.
pub open spec fn probe_answers<F: Fn(&str) -> bool>(is_file: F, path: Seq<char>, answer: bool) -> bool {
    exists|p: &str| p@ == path && call_ensures(is_file, (p,), answer)
}

/// The candidate path in `dir` for `cmd`.
pub open spec fn candidate(dir: Seq<char>, cmd: Seq<char>, windows: bool) -> Seq<char> {
    join_spec(dir, command_file_name(cmd, windows), windows)
}

/// The command resolves to `r` at candidate `k`: every earlier candidate
/// was reported as no file, and `r` is candidate `k`, or the command itself
/// when `k` is past the last candidate.
pub open spec fn resolved_at<F: Fn(&str) -> bool>(
    is_file: F,
    dirs: Seq<String>,
    cmd: Seq<char>,
    windows: bool,
    k: int,
    r: Seq<char>,
) -> bool {
    &&& 0 <= k <= dirs.len()
    &&& forall|j: int|
        0 <= j < k ==> probe_answers(is_file, #[trigger] candidate(dirs[j]@, cmd, windows), false)
    &&& k < dirs.len() ==> probe_answers(is_file, candidate(dirs[k]@, cmd, windows), true) && r
        == candidate(dirs[k]@, cmd, windows)
    &&& k == dirs.len() ==> r == cmd
}

/// Resolve a bare agent command name to an executable path: the first
/// candidate in `dirs` that `is_file` reports as a file, else the command
/// unchanged. A command with a path separator is kept as it is.
pub fn resolve_trae_cmd<F: Fn(&str) -> bool>(
    cmd: &str,
    dirs: &Vec<String>,
    windows: bool,
    is_file: &F,
) -> (r: String)
    requires
        forall|p: &str| call_requires(*is_file, (p,)),
    ensures
        is_explicit_path(cmd@) ==> r@ == cmd@,
        !is_explicit_path(cmd@) ==> exists|k: int| resolved_at(*is_file, dirs@, cmd@, windows, k, r@),
{
    if contains_char(cmd, '/') || contains_char(cmd, '\\') {
        return to_string(cmd);
    }
    let file_name = if windows && !ends_with(cmd, ".exe") {
        concat(cmd, ".exe")
    } else {
        to_string(cmd)
    };
    assert(file_name@ == command_file_name(cmd@, windows));
    let mut i: usize = 0;
    while i < dirs.len()
        invariant
            i <= dirs@.len(),
            file_name@ == command_file_name(cmd@, windows),
            !is_explicit_path(cmd@),
            forall|p: &str| call_requires(*is_file, (p,)),
            forall|j: int|
                0 <= j < i ==> probe_answers(*is_file, #[trigger] candidate(dirs@[j]@, cmd@, windows), false),
        decreases dirs.len() - i,
    {
        let path = join_path(dirs[i].as_str(), file_name.as_str(), windows);
        let found = is_file(path.as_str());
        assert(probe_answers(*is_file, candidate(dirs@[i as int]@, cmd@, windows), found));
        if found {
            assert(resolved_at(*is_file, dirs@, cmd@, windows, i as int, path@));
            return path;
        }
        i += 1;
    }
    let r = to_string(cmd);
    assert(resolved_at(*is_file, dirs@, cmd@, windows, i as int, r@));
    r
}

/// The directories joined by the platform's `PATH` separator.
pub open spec fn join_dirs(dirs: Seq<Seq<char>>, sep: char) -> Seq<char>
    decreases dirs.len(),
{
    if dirs.len() == 0 {
        Seq::empty()
    } else if dirs.len() == 1 {
        dirs[0]
    } else {
        join_dirs(dirs.drop_last(), sep).push(sep) + dirs.last()
    }
}

/// The `PATH` separator: `;` on Windows, `:` elsewhere.
pub open spec fn path_separator(windows: bool) -> char {
    if windows {
        ';'
    } else {
        ':'
    }
}

/// `PATH` for spawned agent processes: the common bin dirs first, then the
/// inherited `PATH` when it is set and not empty.
pub open spec fn agent_path_env_spec(dirs: Seq<Seq<char>>, path: Option<Seq<char>>, windows: bool) -> Seq<
    char,
> {
    let extra = join_dirs(dirs, path_separator(windows));
    match path {
        Some(p) => if p.len() > 0 {
            extra.push(path_separator(windows)) + p
        } else {
            extra
        },
        None => extra,
    }
}

/// `s` cut at every `sep`, as `str::split` cuts it: the pieces between
/// separators, in order (an empty text is one empty piece).
pub open spec fn split_at_separator(s: Seq<char>, sep: char) -> Seq<Seq<char>>
    decreases s.len(),
{
    if s.len() == 0 {
        seq![Seq::empty()]
    } else {
        let ps = split_at_separator(s.drop_last(), sep);
        if s.last() == sep {
            ps.push(Seq::empty())
        } else {
            ps.update(ps.len() - 1, ps.last().push(s.last()))
        }
    }
}

proof fn lemma_split_len(s: Seq<char>, sep: char)
    ensures
        split_at_separator(s, sep).len() >= 1,
    decreases s.len(),
{
    if s.len() > 0 {
        lemma_split_len(s.drop_last(), sep);
    }
}

/// A text without the separator is a single piece.
proof fn lemma_split_plain(d: Seq<char>, sep: char)
    requires
        !d.contains(sep),
    ensures
        split_at_separator(d, sep) == seq![d],
    decreases d.len(),
{
    if d.len() > 0 {
        assert(!d.drop_last().contains(sep)) by {
            assert forall|j: int| 0 <= j < d.drop_last().len() implies d.drop_last()[j] != sep by {
                assert(d.drop_last()[j] == d[j]);
            }
        }
        lemma_split_plain(d.drop_last(), sep);
        assert(d[d.len() - 1] == d.last());
        assert(d.last() != sep);
        assert(d.drop_last().push(d.last()) =~= d);
        assert(seq![d.drop_last()].update(0, d.drop_last().push(d.last())) =~= seq![d]);
    } else {
        assert(d =~= Seq::<char>::empty());
    }
}

/// Cutting `a`, a separator and `b` gives the pieces of `a` followed by
/// those of `b`.
proof fn lemma_split_concat(a: Seq<char>, b: Seq<char>, sep: char)
    ensures
        split_at_separator(a.push(sep) + b, sep) == split_at_separator(a, sep) + split_at_separator(
            b,
            sep,
        ),
    decreases b.len(),
{
    lemma_split_len(a, sep);
    if b.len() == 0 {
        assert(a.push(sep) + b =~= a.push(sep));
        assert(a.push(sep).drop_last() =~= a);
    } else {
        lemma_split_concat(a, b.drop_last(), sep);
        lemma_split_len(b.drop_last(), sep);
        assert((a.push(sep) + b).drop_last() =~= a.push(sep) + b.drop_last());
        assert((a.push(sep) + b).last() == b.last());
        let pa = split_at_separator(a, sep);
        let pb = split_at_separator(b.drop_last(), sep);
        if b.last() == sep {
            assert((pa + pb).push(Seq::empty()) =~= pa + pb.push(Seq::empty()));
        } else {
            assert((pa + pb).update((pa + pb).len() - 1, (pa + pb).last().push(b.last())) =~= pa
                + pb.update(pb.len() - 1, pb.last().push(b.last())));
        }
    }
}

/// The directories joined by the separator come back, one by one, when
/// the text is cut at the separator again: the separator stands between
/// every adjacent pair and nowhere else.
pub proof fn lemma_join_dirs_splits_back(dirs: Seq<Seq<char>>, sep: char)
    requires
        dirs.len() > 0,
        forall|k: int| 0 <= k < dirs.len() ==> !(#[trigger] dirs[k]).contains(sep),
    ensures
        split_at_separator(join_dirs(dirs, sep), sep) == dirs,
    decreases dirs.len(),
{
    if dirs.len() == 1 {
        lemma_split_plain(dirs[0], sep);
        assert(seq![dirs[0]] =~= dirs);
    } else {
        let init = dirs.drop_last();
        assert forall|k: int| 0 <= k < init.len() implies !(#[trigger] init[k]).contains(sep) by {
            assert(init[k] == dirs[k]);
        }
        lemma_join_dirs_splits_back(init, sep);
        lemma_split_concat(join_dirs(init, sep), dirs.last(), sep);
        lemma_split_plain(dirs.last(), sep);
        assert(init + seq![dirs.last()] =~= dirs);
    }
}

/// The agent's `PATH`, cut at the platform's separator, gives the common
/// bin directories back in order, then the pieces of the inherited `PATH`
/// when that is set and not empty.
pub proof fn lemma_agent_path_splits_back(dirs: Seq<Seq<char>>, path: Option<Seq<char>>, windows: bool)
    requires
        dirs.len() > 0,
        forall|k: int| 0 <= k < dirs.len() ==> !(#[trigger] dirs[k]).contains(path_separator(windows)),
    ensures
        split_at_separator(agent_path_env_spec(dirs, path, windows), path_separator(windows)) == (
        match path {
            Some(p) => if p.len() > 0 {
                dirs + split_at_separator(p, path_separator(windows))
            } else {
                dirs
            },
            None => dirs,
        }),
{
    let sep = path_separator(windows);
    lemma_join_dirs_splits_back(dirs, sep);
    match path {
        Some(p) => {
            if p.len() > 0 {
                lemma_split_concat(join_dirs(dirs, sep), p, sep);
            }
        },
        None => {},
    }
}

/// PATH value to hand to spawned agent processes so `traecli` and its
/// helpers remain discoverable under a stripped parent environment.
pub fn agent_path_env(dirs: &Vec<String>, path: Option<&str>, windows: bool) -> (r: Option<String>)
    ensures
        r matches Some(s) && s@ == agent_path_env_spec(
            dirs@.map_values(|d: String| d@),
            match path {
                Some(p) => Some(p@),
                None => None,
            },
            windows,
        ),
        dirs@.len() > 0 && (forall|k: int|
            0 <= k < dirs@.len() ==> !(#[trigger] dirs@[k]@).contains(path_separator(windows)))
            ==> (r matches Some(s) && split_at_separator(s@, path_separator(windows)) == (match path {
            Some(p) => if p@.len() > 0 {
                dirs@.map_values(|d: String| d@) + split_at_separator(p@, path_separator(windows))
            } else {
                dirs@.map_values(|d: String| d@)
            },
            None => dirs@.map_values(|d: String| d@),
        })),
{
    proof {
        let ds = dirs@.map_values(|d: String| d@);
        if dirs@.len() > 0 && (forall|k: int|
            0 <= k < dirs@.len() ==> !(#[trigger] dirs@[k]@).contains(path_separator(windows))) {
            assert forall|k: int| 0 <= k < ds.len() implies !(#[trigger] ds[k]).contains(
                path_separator(windows),
            ) by {
                assert(ds[k] == dirs@[k]@);
            }
            lemma_agent_path_splits_back(
                ds,
                match path {
                    Some(p) => Some(p@),
                    None => None,
                },
                windows,
            );
        }
    }
    let sep = if windows {
        ';'
    } else {
        ':'
    };
    let ghost ds = dirs@.map_values(|d: String| d@);
    let mut extra = String::new();
    let mut i: usize = 0;
    assert(ds.take(0) =~= Seq::<Seq<char>>::empty());
    while i < dirs.len()
        invariant
            i <= dirs.len(),
            ds == dirs@.map_values(|d: String| d@),
            sep == path_separator(windows),
            extra@ == join_dirs(ds.take(i as int), sep),
        decreases dirs.len() - i,
    {
        assert(ds.take(i + 1).drop_last() =~= ds.take(i as int));
        if i > 0 {
            crate::text::push_char(&mut extra, sep);
        } else {
            assert(Seq::<char>::empty() + ds[0] =~= ds[0]);
        }
        extra.append(dirs[i].as_str());
        i += 1;
    }
    assert(ds.take(dirs.len() as int) =~= ds);
    match path {
        Some(p) => {
            if !p.is_empty() {
                crate::text::push_char(&mut extra, sep);
                extra.append(p);
            }
            Some(extra)
        },
        None => Some(extra),
    }
}

/// CLI settings kept between runs.
#[derive(Clone, Copy)]
pub struct CliSettings {
    pub auto_check_update: bool,
}

impl Default for CliSettings {
    fn default() -> (r: CliSettings)
        ensures
            !r.auto_check_update,
    {
        CliSettings { auto_check_update: false }
    }
}

/// Gateway configuration, as given on the command line.
pub struct Config {
    /// TCP port to listen on (localhost only).
    pub port: u16,
    /// Working directory handed to the agent (sessions and tools operate here).
    pub workdir: String,
    /// Agent executable to spawn.
    pub trae_cmd: String,
    /// Arguments passed to the agent executable.
    pub trae_args: Vec<String>,
    /// Keep the agent inside its sandbox: deny permission requests that
    /// escalate beyond it instead of approving them.
    pub sandbox: bool,
    /// Log every raw JSON-RPC line exchanged with the agent.
    pub debug: bool,
    /// Check for updates in the background when starting the gateway.
    pub auto_check_update: bool,
    /// Disable automatic update checks (overrides settings file).
    pub no_auto_check_update: bool,
}

impl Config {
    /// Whether to check for updates at start: the explicit flags decide
    /// first; without them the saved settings (read by `load_settings` only
    /// then) decide.
    pub fn should_auto_check_update<F: FnOnce() -> CliSettings>(&self, load_settings: F) -> (r: bool)
        requires
            call_requires(load_settings, ()),
        ensures
            self.auto_check_update ==> r,
            !self.auto_check_update && self.no_auto_check_update ==> !r,
            !self.auto_check_update && !self.no_auto_check_update ==> exists|s: CliSettings|
                call_ensures(load_settings, (), s) && r == s.auto_check_update,
    {
        if self.auto_check_update {
            return true;
        }
        if self.no_auto_check_update {
            return false;
        }
        let s = load_settings();
        s.auto_check_update
    }
}

/// `update` subcommand actions.
pub enum UpdateAction {
    /// Check whether a newer release is available.
    Check,
    /// Download and replace the current CLI binary.
    Apply {
        /// Skip confirmation prompt.
        yes: bool,
    },
}

/// Subcommands of the gateway CLI.
pub enum Commands {
    /// Check for and apply updates from GitHub Releases.
    Update { action: UpdateAction },
}

/// The gateway command line: serve with `config`, or run a subcommand.
pub struct Cli {
    pub config: Config,
    pub command: Option<Commands>,
}

} // verus!
