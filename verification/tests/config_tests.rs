use trae_acp_gateway::config::{
    agent_path_env, common_bin_dirs, default_workdir, expand_workdir, is_legacy_workdir,
    resolve_trae_cmd, CliSettings, Config,
};
use trae_acp_gateway::path::join_path;

fn config(auto: bool, no_auto: bool) -> Config {
    Config {
        port: 60111,
        workdir: ".".to_string(),
        trae_cmd: "traecli".to_string(),
        trae_args: vec!["acp".to_string(), "serve".to_string()],
        sandbox: true,
        debug: false,
        auto_check_update: auto,
        no_auto_check_update: no_auto,
    }
}

#[test]
fn resolve_trae_cmd_keeps_explicit_paths() {
    let dirs = common_bin_dirs(Some("/home/u"), None, false);
    let never = |_: &str| -> bool { false };
    assert_eq!(resolve_trae_cmd("/opt/bin/traecli", &dirs, false, &never), "/opt/bin/traecli");
    assert_eq!(resolve_trae_cmd(r"C:\Tools\traecli.exe", &dirs, true, &never), r"C:\Tools\traecli.exe");
}

#[test]
fn resolve_trae_cmd_finds_local_install() {
    let home = "/home/tester";
    let candidate = "/home/tester/.local/bin/traecli";
    let dirs = common_bin_dirs(Some(home), None, false);
    let is_file = |p: &str| -> bool { p == candidate };
    assert_eq!(resolve_trae_cmd("traecli", &dirs, false, &is_file), candidate);
}

#[test]
fn resolve_trae_cmd_falls_back_to_bare_name() {
    let dirs = common_bin_dirs(None, None, false);
    let never = |_: &str| -> bool { false };
    assert_eq!(resolve_trae_cmd("traecli", &dirs, false, &never), "traecli");
}

#[test]
fn resolve_trae_cmd_adds_exe_on_windows() {
    let dirs = common_bin_dirs(None, Some(r"C:\Users\u\AppData\Local"), true);
    let is_file = |p: &str| -> bool { p.ends_with("traecli.exe") };
    assert_eq!(resolve_trae_cmd("traecli", &dirs, true, &is_file), r"/usr/local/bin\traecli.exe");
    let in_home = |p: &str| -> bool { p == r"C:\Users\u\.local\bin\traecli.exe" };
    let dirs = common_bin_dirs(Some(r"C:\Users\u"), None, true);
    assert_eq!(
        resolve_trae_cmd("traecli", &dirs, true, &in_home),
        r"C:\Users\u\.local\bin\traecli.exe"
    );
    assert_eq!(
        resolve_trae_cmd("traecli.exe", &dirs, true, &in_home),
        r"C:\Users\u\.local\bin\traecli.exe"
    );
}

#[test]
fn common_bin_dirs_in_order() {
    assert_eq!(
        common_bin_dirs(Some("/home/u"), None, false),
        vec![
            "/home/u/.local/bin".to_string(),
            "/home/u/.cargo/bin".to_string(),
            "/usr/local/bin".to_string(),
        ]
    );
    assert_eq!(
        common_bin_dirs(Some(r"C:\Users\u"), Some(r"C:\Users\u\AppData\Local"), true),
        vec![
            r"C:\Users\u\.local\bin".to_string(),
            r"C:\Users\u\.cargo\bin".to_string(),
            "/usr/local/bin".to_string(),
            r"C:\Users\u\AppData\Local\Programs\trae\bin".to_string(),
        ]
    );
    assert_eq!(common_bin_dirs(None, None, false), vec!["/usr/local/bin".to_string()]);
}

#[test]
fn join_path_follows_unix_rules() {
    assert_eq!(join_path("/home/u", "x", false), "/home/u/x");
    assert_eq!(join_path("/home/u/", "x", false), "/home/u/x");
    assert_eq!(join_path("", "x", false), "x");
    assert_eq!(join_path("/home/u", "/etc", false), "/etc");
    assert_eq!(join_path("/home/u", r"C:\x", false), r"/home/u/C:\x");
    assert_eq!(join_path("a\\", "x", false), r"a\/x");
}

#[test]
fn join_path_follows_windows_rules() {
    assert_eq!(join_path(r"C:\Users\u", "x", true), r"C:\Users\u\x");
    assert_eq!(join_path(r"C:\Users\u\", "x", true), r"C:\Users\u\x");
    assert_eq!(join_path("C:/Users/u/", "x", true), "C:/Users/u/x");
    assert_eq!(join_path(r"C:\a", r"D:\b", true), r"D:\b");
    assert_eq!(join_path(r"C:\a", "D:b", true), "D:b");
    assert_eq!(join_path(r"C:\a", r"\\server\share", true), r"\\server\share");
    assert_eq!(join_path(r"C:\a", r"\b", true), r"C:\b");
    assert_eq!(join_path(r"C:\a", "/b", true), "C:/b");
    assert_eq!(join_path(r"a\b", r"\c", true), r"\c");
    assert_eq!(join_path("C:", "x", true), "C:x");
    assert_eq!(join_path("", "x", true), "x");
    assert_eq!(join_path("/usr/local/bin", "traecli.exe", true), r"/usr/local/bin\traecli.exe");
}

#[test]
fn join_path_keeps_unc_and_device_prefixes() {
    assert_eq!(join_path(r"\\server\share\a", r"\b", true), r"\\server\share\b");
    assert_eq!(join_path(r"\\server\share", "b", true), r"\\server\share\b");
    assert_eq!(join_path("//server/share/a", "/b", true), "//server/share/b");
    assert_eq!(join_path(r"\\.\pipe\x", r"\y", true), r"\\.\pipe\y");
    // Two separators without a share are no prefix: the rooted rest keeps the drive.
    assert_eq!(join_path(r"C:\a", r"\\x", true), r"C:\\x");
    assert_eq!(join_path(r"\\x", r"\y", true), r"\y");
}

#[test]
fn join_path_normalizes_under_verbatim_prefix() {
    assert_eq!(join_path(r"\\?\C:\a", "b", true), r"\\?\C:\a\b");
    assert_eq!(join_path(r"\\?\C:\a", r"b\..\c", true), r"\\?\C:\a\c");
    assert_eq!(join_path(r"\\?\C:\a", r"..\..\x", true), r"\\?\C:\x");
    assert_eq!(join_path(r"\\?\C:\a\b", r".\c/./d", true), r"\\?\C:\a\b\c\d");
    assert_eq!(join_path(r"\\?\C:\a\b", r"\x", true), r"\\?\C:\x");
    assert_eq!(join_path(r"\\?\C:\a", r"\", true), r"\\?\C:\");
    assert_eq!(join_path(r"\\?\UNC\server\share\a", r"..\b", true), r"\\?\UNC\server\share\b");
    assert_eq!(join_path(r"\\?\C:\a", "", true), r"\\?\C:\a\");
}

#[test]
fn expanding_twice_is_expanding_once() {
    for (w, home, windows) in [
        ("~", Some("/home/u"), false),
        ("~/", Some("/home/u"), false),
        ("~/proj", Some("/home/u"), false),
        ("~//etc", Some("/home/u"), false),
        ("~/proj", None, false),
        ("~", None, false),
        ("rel", Some("/home/u"), false),
        ("~/proj", Some(r"C:\Users\u"), true),
        ("~/D:x", Some(r"C:\Users\u"), true),
    ] {
        let once = expand_workdir(w, home, windows);
        assert_eq!(expand_workdir(&once, home, windows), once, "{w:?}");
    }
}

#[test]
fn default_workdir_under_home() {
    assert_eq!(default_workdir(Some("/home/u"), false), "/home/u/trae-acp-gateway");
    assert_eq!(default_workdir(None, false), ".");
    assert_eq!(default_workdir(Some(r"C:\Users\u"), true), r"C:\Users\u\trae-acp-gateway");
    assert_eq!(default_workdir(None, true), ".");
}

#[test]
fn legacy_workdirs() {
    for w in ["", ".", "./", "~", "  ~ ", "\t.\n"] {
        assert!(is_legacy_workdir(w), "{w:?} should be legacy");
    }
    for w in ["/data", "~/x", ".."] {
        assert!(!is_legacy_workdir(w), "{w:?} should not be legacy");
    }
}

#[test]
fn expand_workdir_cases() {
    assert_eq!(expand_workdir("~", Some("/home/u"), false), "/home/u/trae-acp-gateway");
    assert_eq!(expand_workdir("~", None, false), ".");
    assert_eq!(expand_workdir("~/", Some("/home/u"), false), "/home/u");
    assert_eq!(expand_workdir("~/proj", Some("/home/u"), false), "/home/u/proj");
    assert_eq!(expand_workdir("~/proj", None, false), "~/proj");
    assert_eq!(expand_workdir("/abs", Some("/home/u"), false), "/abs");
    assert_eq!(expand_workdir("~user", Some("/home/u"), false), "~user");
    assert_eq!(expand_workdir("~/proj/a", Some(r"C:\Users\u"), true), r"C:\Users\u\proj/a");
    assert_eq!(expand_workdir("~", Some(r"C:\Users\u"), true), r"C:\Users\u\trae-acp-gateway");
}

#[test]
fn agent_path_env_prepends_bin_dirs() {
    let dirs = vec!["/a".to_string(), "/b".to_string()];
    assert_eq!(agent_path_env(&dirs, Some("/usr/bin"), false).unwrap(), "/a:/b:/usr/bin");
    assert_eq!(agent_path_env(&dirs, Some(""), false).unwrap(), "/a:/b");
    assert_eq!(agent_path_env(&dirs, None, true).unwrap(), "/a;/b");
}

#[test]
fn auto_check_flags_override_settings() {
    let on = || CliSettings { auto_check_update: true };
    let off = || CliSettings { auto_check_update: false };
    assert!(config(true, false).should_auto_check_update(off));
    assert!(!config(false, true).should_auto_check_update(on));
    assert!(config(false, false).should_auto_check_update(on));
    assert!(!config(false, false).should_auto_check_update(off));
}
