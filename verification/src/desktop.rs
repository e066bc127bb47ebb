//! Settings and labels of the desktop tray app that hosts the gateway.

use vstd::prelude::*;
use crate::config::{Config, default_workdir, default_workdir_spec, is_legacy_workdir, is_legacy_workdir_spec};
use crate::text::{push_decimal, to_string};

verus! {

broadcast use vstd::string::group_string_axioms;

/// The desktop app's saved settings.
pub struct AppConfig {
    pub port: u16,
    pub workdir: String,
    pub trae_cmd: String,
    pub trae_args: Vec<String>,
    pub sandbox: bool,
    pub debug: bool,
    pub autostart: bool,
    pub auto_check_update: bool,
}

/// A copy of a list of strings.
pub fn clone_strings(v: &Vec<String>) -> (r: Vec<String>)
    ensures
        r@.map_values(|s: String| s@) == v@.map_values(|s: String| s@),
{
    let mut out: Vec<String> = Vec::new();
    let mut i: usize = 0;
    while i < v.len()
        invariant
            i <= v.len(),
            out@.len() == i,
            forall|k: int| 0 <= k < i ==> #[trigger] out@[k]@ == v@[k]@,
        decreases v.len() - i,
    {
        out.push(v[i].clone());
        i += 1;
    }
    assert(out@.map_values(|s: String| s@) =~= v@.map_values(|s: String| s@));
    out
}

impl AppConfig {
    /// First-run settings: port 60111, the default workdir for `home`,
    /// `traecli acp serve`, sandbox on, everything else off.
    pub fn defaults(home: Option<&str>, windows: bool) -> (r: AppConfig)
        ensures
            r.port == 60111,
            r.workdir@ == default_workdir_spec(
                match home {
                    Some(h) => Some(h@),
                    None => None,
                },
                windows,
            ),
            r.trae_cmd@ == "traecli"@,
            r.trae_args@.map_values(|s: String| s@) == seq!["acp"@, "serve"@],
            r.sandbox,
            !r.debug,
            !r.autostart,
            !r.auto_check_update,
    {
        let mut args: Vec<String> = Vec::new();
        args.push(to_string("acp"));
        args.push(to_string("serve"));
        assert(args@.map_values(|s: String| s@) =~= seq!["acp"@, "serve"@]);
        AppConfig {
            port: 60111,
            workdir: default_workdir(home, windows),
            trae_cmd: to_string("traecli"),
            trae_args: args,
            sandbox: true,
            debug: false,
            autostart: false,
            auto_check_update: false,
        }
    }

    /// Replace a legacy / unset workdir with the default one for `home`.
    pub fn normalize_workdir(&mut self, home: Option<&str>, windows: bool)
        ensures
            final(self).workdir@ == normalized_workdir(
                old(self).workdir@,
                match home {
                    Some(h) => Some(h@),
                    None => None,
                },
                windows,
            ),
            final(self).port == old(self).port,
            final(self).trae_cmd == old(self).trae_cmd,
            final(self).trae_args == old(self).trae_args,
            final(self).sandbox == old(self).sandbox,
            final(self).debug == old(self).debug,
            final(self).autostart == old(self).autostart,
            final(self).auto_check_update == old(self).auto_check_update,
    {
        if is_legacy_workdir(self.workdir.as_str()) {
            self.workdir = default_workdir(home, windows);
        }
    }

    /// The gateway configuration these settings run with; update checks are
    /// the app's own business, so the gateway's flags for them stay off.
    pub fn to_gateway(&self) -> (r: Config)
        ensures
            r.port == self.port,
            r.workdir@ == self.workdir@,
            r.trae_cmd@ == self.trae_cmd@,
            r.trae_args@.map_values(|s: String| s@) == self.trae_args@.map_values(|s: String| s@),
            r.sandbox == self.sandbox,
            r.debug == self.debug,
            !r.auto_check_update,
            !r.no_auto_check_update,
    {
        Config {
            port: self.port,
            workdir: self.workdir.clone(),
            trae_cmd: self.trae_cmd.clone(),
            trae_args: clone_strings(&self.trae_args),
            sandbox: self.sandbox,
            debug: self.debug,
            auto_check_update: false,
            no_auto_check_update: false,
        }
    }
}

/// The workdir settings are normalized to: the default one for `home` in
/// place of a legacy / unset one.
pub open spec fn normalized_workdir(workdir: Seq<char>, home: Option<Seq<char>>, windows: bool) -> Seq<
    char,
> {
    if is_legacy_workdir_spec(workdir) {
        default_workdir_spec(home, windows)
    } else {
        workdir
    }
}

/// Normalizing settings twice changes nothing more than normalizing them
/// once, so a migrated config stays as it was saved.
pub proof fn lemma_normalize_idempotent(workdir: Seq<char>, home: Option<Seq<char>>, windows: bool)
    ensures
        normalized_workdir(normalized_workdir(workdir, home, windows), home, windows)
            == normalized_workdir(workdir, home, windows),
{
}

/// The tray's status line: `Gateway: Running :<port>` or `Gateway: Stopped`.
pub fn tray_status_text(running: bool, port: u16) -> (r: String)
    ensures
        running ==> r@ == "Gateway: Running :"@ + crate::text::decimal(port as nat),
        !running ==> r@ == "Gateway: Stopped"@,
{
    if running {
        let mut s = to_string("Gateway: Running :");
        push_decimal(&mut s, port as u128);
        s
    } else {
        to_string("Gateway: Stopped")
    }
}

/// The tray's start/stop item label.
pub fn tray_toggle_text(running: bool) -> (r: &'static str)
    ensures
        running ==> r@ == "Stop Gateway"@,
        !running ==> r@ == "Start Gateway"@,
{
    if running {
        "Stop Gateway"
    } else {
        "Start Gateway"
    }
}

/// What the gateway supervision loop does after one of its periodic checks.
pub enum WatchStep {
    /// A stop was requested: stop watching.
    Stop,
    /// The server task ended on its own: drop it, refresh the tray, tell the
    /// user, and stop watching.
    Crashed,
    /// Check again later.
    Continue,
}

/// One check of the supervision loop. `server_finished` is `None` when no
/// server task is held, else whether the held task has finished.
pub fn watch_step(stop_requested: bool, server_finished: Option<bool>) -> (r: WatchStep)
    ensures
        stop_requested ==> r is Stop,
        !stop_requested && server_finished == Some(true) ==> r is Crashed,
        !stop_requested && server_finished != Some(true) ==> r is Continue,
{
    if stop_requested {
        return WatchStep::Stop;
    }
    match server_finished {
        Some(true) => WatchStep::Crashed,
        _ => WatchStep::Continue,
    }
}

/// Whether the gateway runs: a server task is held and has not finished.
pub fn is_running(server_finished: Option<bool>) -> (r: bool)
    ensures
        r == (server_finished == Some(false)),
{
    match server_finished {
        Some(finished) => !finished,
        None => false,
    }
}

/// What starting the gateway does.
pub enum StartStep {
    /// It already runs: nothing to do.
    AlreadyRunning,
    /// Clear the stop request, serve with the settings, hold the new server
    /// task, refresh the tray and supervise it.
    Launch,
}

/// Starting the gateway, given the held server task as for [`watch_step`].
pub fn start_step(server_finished: Option<bool>) -> (r: StartStep)
    ensures
        server_finished == Some(false) ==> r is AlreadyRunning,
        server_finished != Some(false) ==> r is Launch,
{
    if is_running(server_finished) {
        StartStep::AlreadyRunning
    } else {
        StartStep::Launch
    }
}

/// What the tray's start/stop item does.
pub enum ToggleStep {
    /// Stop the running gateway and refresh the tray.
    Stop,
    /// Start the gateway.
    Start,
}

/// The tray's start/stop item, given the held server task.
pub fn toggle_step(server_finished: Option<bool>) -> (r: ToggleStep)
    ensures
        server_finished == Some(false) ==> r is Stop,
        server_finished != Some(false) ==> r is Start,
{
    if is_running(server_finished) {
        ToggleStep::Stop
    } else {
        ToggleStep::Start
    }
}

/// Whether stopping finds a server task to abort; it takes any held task,
/// finished or not. Saving the settings starts the gateway again exactly
/// when this holds.
pub fn stop_found_server(server_finished: Option<bool>) -> (r: bool)
    ensures
        r == (server_finished is Some),
{
    server_finished.is_some()
}

} // verus!
