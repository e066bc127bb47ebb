//! GitHub Releases update checks and asset resolution.

use vstd::prelude::*;
use crate::text::{chars_of, concat, str_eq, string_from_chars, to_string, trim, trim_spec};
use crate::path::{join_path, join_spec};

verus! {

broadcast use vstd::string::group_string_axioms;

pub const GITHUB_OWNER: &'static str = "yu1ec";

pub const GITHUB_REPO: &'static str = "trae-acp-gateway";

pub const GITHUB_REPO_URL: &'static str = "https://github.com/yu1ec/trae-acp-gateway";

/// The version of this gateway.
pub const CURRENT_VERSION: &'static str = "0.1.0";

#[verifier::external_type_specification]
#[verifier::external_body]
pub struct ExVersion(semver::Version);

/// The platform a build targets.
pub enum TargetOs {
    MacOs,
    Linux,
    Windows,
    Other,
}

/// Why an update step cannot go on.
pub enum UpdateError {
    /// The platform has no release asset of this kind.
    UnsupportedPlatform,
    /// The text is not a semantic version.
    InvalidVersion { raw: String },
}

/// Release asset of the CLI binary for a platform.
pub open spec fn cli_asset_spec(os: TargetOs) -> Option<Seq<char>> {
    match os {
        TargetOs::MacOs => Some("trae_acp_gateway-macos-universal"@),
        TargetOs::Linux => Some("trae_acp_gateway-linux-x86_64"@),
        TargetOs::Windows => Some("trae_acp_gateway-windows-x86_64.exe"@),
        TargetOs::Other => None,
    }
}

/// Release asset of the desktop installer for a platform.
pub open spec fn app_installer_asset_spec(os: TargetOs) -> Option<Seq<char>> {
    match os {
        TargetOs::MacOs => Some("Trae-ACP-Gateway-macos-universal.dmg"@),
        TargetOs::Linux => Some("Trae-ACP-Gateway-linux-x86_64.AppImage"@),
        TargetOs::Windows => Some("Trae-ACP-Gateway-windows-x86_64.msi"@),
        TargetOs::Other => None,
    }
}

/// The name of the CLI binary asset for `os`.
pub fn cli_asset_name(os: TargetOs) -> (r: Result<&'static str, UpdateError>)
    ensures
        match r {
            Ok(name) => cli_asset_spec(os) == Some(name@),
            Err(e) => cli_asset_spec(os) is None && e is UnsupportedPlatform,
        },
{
    match os {
        TargetOs::MacOs => Ok("trae_acp_gateway-macos-universal"),
        TargetOs::Linux => Ok("trae_acp_gateway-linux-x86_64"),
        TargetOs::Windows => Ok("trae_acp_gateway-windows-x86_64.exe"),
        TargetOs::Other => Err(UpdateError::UnsupportedPlatform),
    }
}

/// The name of the desktop installer asset for `os`.
pub fn app_installer_asset_name(os: TargetOs) -> (r: Result<&'static str, UpdateError>)
    ensures
        match r {
            Ok(name) => app_installer_asset_spec(os) == Some(name@),
            Err(e) => app_installer_asset_spec(os) is None && e is UnsupportedPlatform,
        },
{
    match os {
        TargetOs::MacOs => Ok("Trae-ACP-Gateway-macos-universal.dmg"),
        TargetOs::Linux => Ok("Trae-ACP-Gateway-linux-x86_64.AppImage"),
        TargetOs::Windows => Ok("Trae-ACP-Gateway-windows-x86_64.msi"),
        TargetOs::Other => Err(UpdateError::UnsupportedPlatform),
    }
}

/// A parsed semantic version: its numbers and its pre-release and build
/// texts, with the parsed value they came from.
pub struct ParsedVersion {
    major: u64,
    minor: u64,
    patch: u64,
    pre: String,
    build: String,
    version: semver::Version,
}

/// The value of a semantic version: major, minor, patch, pre-release, build.
pub type VersionV = (nat, nat, nat, Seq<char>, Seq<char>);

impl View for ParsedVersion {
    type V = VersionV;

    closed spec fn view(&self) -> VersionV {
        (self.major as nat, self.minor as nat, self.patch as nat, self.pre@, self.build@)
    }
}

/// What `semver::Version::parse` reads from a text: the version, or
/// nothing when the text is not a semantic version.
pub uninterp spec fn semver_parse(text: Seq<char>) -> Option<VersionV>;

/// Whether version `a` has higher precedence than version `b`, by the
/// ordering of `semver::Version`.
pub uninterp spec fn semver_gt(a: VersionV, b: VersionV) -> bool;

/// Parses a semantic version; wraps `semver::Version::parse`, keeping the
/// parsed numbers and pre-release/build texts beside the parsed value. The
/// contract claims only that the result is determined by the text.
#[verifier::external_body]
fn semver_version_parse(text: &str) -> (r: Option<ParsedVersion>)
    ensures
        match r {
            Some(v) => semver_parse(text@) == Some(v@),
            None => semver_parse(text@) is None,
        },
{
    match semver::Version::parse(text) {
        Ok(v) => Some(ParsedVersion {
            major: v.major,
            minor: v.minor,
            patch: v.patch,
            pre: v.pre.as_str().to_string(),
            build: v.build.as_str().to_string(),
            version: v,
        }),
        Err(_) => None,
    }
}

/// Whether `a` is a newer version than `b`; wraps `>` of `semver::Version`,
/// whose derived ordering compares major, minor and patch numerically, in
/// that order, then the pre-release and build parts. The contract states
/// that order for the numbers, that no version is newer than itself and
/// that the comparison is asymmetric.
#[verifier::external_body]
fn semver_version_gt(a: &ParsedVersion, b: &ParsedVersion) -> (r: bool)
    ensures
        r == semver_gt(a@, b@),
        a@.0 != b@.0 ==> r == (a@.0 > b@.0),
        a@.0 == b@.0 && a@.1 != b@.1 ==> r == (a@.1 > b@.1),
        a@.0 == b@.0 && a@.1 == b@.1 && a@.2 != b@.2 ==> r == (a@.2 > b@.2),
        a@ == b@ ==> !r,
        r ==> !semver_gt(b@, a@),
{
    a.version > b.version
}

/// `s` without its leading `v`s (`trim_start_matches('v')`).
pub open spec fn strip_v_spec(s: Seq<char>) -> Seq<char>
    decreases s.len(),
{
    if s.len() > 0 && s[0] == 'v' {
        strip_v_spec(s.drop_first())
    } else {
        s
    }
}

proof fn lemma_strip_v_skip(s: Seq<char>, i: int)
    requires
        0 <= i <= s.len(),
        forall|j: int| 0 <= j < i ==> s[j] == 'v',
    ensures
        strip_v_spec(s) == strip_v_spec(s.skip(i)),
    decreases i,
{
    if i > 0 {
        assert(s.drop_first().skip(i - 1) =~= s.skip(i));
        lemma_strip_v_skip(s.drop_first(), i - 1);
    } else {
        assert(s.skip(0) =~= s);
    }
}

/// `s.trim_start_matches('v')`, as a new `String`.
pub fn strip_v(s: &str) -> (r: String)
    ensures
        r@ == strip_v_spec(s@),
{
    let v = chars_of(s);
    let mut i: usize = 0;
    while i < v.len() && v[i] == 'v'
        invariant
            i <= v.len(),
            v@ == s@,
            forall|j: int| 0 <= j < i ==> v@[j] == 'v',
        decreases v.len() - i,
    {
        i += 1;
    }
    proof {
        lemma_strip_v_skip(s@, i as int);
        assert(v@.subrange(i as int, v@.len() as int) =~= s@.skip(i as int));
    }
    string_from_chars(&v, i, v.len())
}

/// The text a version string is read from: trimmed, leading `v`s removed.
pub open spec fn version_text(raw: Seq<char>) -> Seq<char> {
    strip_v_spec(trim_spec(raw))
}

/// Parse a version string, tolerating surrounding whitespace and a `v` prefix.
pub fn parse_version(raw: &str) -> (r: Result<ParsedVersion, UpdateError>)
    ensures
        match r {
            Ok(v) => semver_parse(version_text(raw@)) == Some(v@),
            Err(e) => semver_parse(version_text(raw@)) is None && (e matches UpdateError::InvalidVersion {
                raw: t,
            } && t@ == raw@),
        },
{
    let t = trim(raw);
    let t = strip_v(t.as_str());
    match semver_version_parse(t.as_str()) {
        Some(v) => Ok(v),
        None => Err(UpdateError::InvalidVersion { raw: to_string(raw) }),
    }
}

/// Whether `latest` is a newer release than `current`; an error when either
/// is not a semantic version.
pub fn is_update_available(current: &str, latest: &str) -> (r: Result<bool, UpdateError>)
    ensures
        match (semver_parse(version_text(current@)), semver_parse(version_text(latest@))) {
            (Some(c), Some(l)) => {
                &&& r == Ok::<bool, UpdateError>(semver_gt(l, c))
                &&& l == c ==> r == Ok::<bool, UpdateError>(false)
                &&& semver_gt(l, c) ==> !semver_gt(c, l)
                &&& l.0 != c.0 ==> r == Ok::<bool, UpdateError>(l.0 > c.0)
                &&& l.0 == c.0 && l.1 != c.1 ==> r == Ok::<bool, UpdateError>(l.1 > c.1)
                &&& l.0 == c.0 && l.1 == c.1 && l.2 != c.2 ==> r == Ok::<bool, UpdateError>(l.2 > c.2)
            },
            (None, _) => r matches Err(UpdateError::InvalidVersion { raw }) && raw@ == current@,
            (Some(_), None) => r matches Err(UpdateError::InvalidVersion { raw }) && raw@ == latest@,
        },
{
    let c = match parse_version(current) {
        Ok(c) => c,
        Err(e) => return Err(e),
    };
    let l = match parse_version(latest) {
        Ok(l) => l,
        Err(e) => return Err(e),
    };
    Ok(semver_version_gt(&l, &c))
}

/// A release asset.
#[derive(Debug, Clone)]
pub struct AssetInfo {
    pub name: String,
    pub download_url: String,
    pub size: u64,
}

/// The latest release: its version (without the tag's `v`), its page, and
/// its assets.
#[derive(Debug, Clone)]
pub struct ReleaseInfo {
    pub version: String,
    pub release_url: String,
    pub assets: Vec<AssetInfo>,
}

impl ReleaseInfo {
    /// The release a GitHub `releases/latest` answer describes: the tag
    /// without its leading `v`s, the page URL, and the assets in order.
    pub fn from_github(tag_name: &str, html_url: String, assets: Vec<AssetInfo>) -> (r: ReleaseInfo)
        ensures
            r.version@ == strip_v_spec(tag_name@),
            r.release_url == html_url,
            r.assets == assets,
    {
        ReleaseInfo { version: strip_v(tag_name), release_url: html_url, assets }
    }
}

/// The GitHub API URL of the repository's latest release.
pub fn latest_release_url() -> (r: String)
    ensures
        r@ == "https://api.github.com/repos/"@ + GITHUB_OWNER@ + "/"@ + GITHUB_REPO@
            + "/releases/latest"@,
{
    let r = concat("https://api.github.com/repos/", GITHUB_OWNER);
    let r = concat(r.as_str(), "/");
    let r = concat(r.as_str(), GITHUB_REPO);
    concat(r.as_str(), "/releases/latest")
}

/// Index of the first asset named `name`.
pub open spec fn asset_index(assets: Seq<AssetInfo>, name: Seq<char>) -> Option<int> {
    if exists|i: int| 0 <= i < assets.len() && assets[i].name@ == name {
        Some(
            choose|i: int|
                0 <= i < assets.len() && assets[i].name@ == name && forall|j: int|
                    0 <= j < i ==> assets[j].name@ != name,
        )
    } else {
        None
    }
}

/// The first asset of the release named `name`.
pub fn find_asset<'a>(release: &'a ReleaseInfo, name: &str) -> (r: Option<&'a AssetInfo>)
    ensures
        match r {
            Some(a) => asset_index(release.assets@, name@) matches Some(i) && release.assets@[i] == *a,
            None => asset_index(release.assets@, name@) is None,
        },
{
    let assets = &release.assets;
    let mut i: usize = 0;
    while i < assets.len()
        invariant
            i <= assets.len(),
            assets@ == release.assets@,
            forall|j: int| 0 <= j < i ==> assets@[j].name@ != name@,
        decreases assets.len() - i,
    {
        if str_eq(assets[i].name.as_str(), name) {
            assert(exists|k: int| 0 <= k < assets@.len() && assets@[k].name@ == name@);
            let ghost w = choose|k: int|
                0 <= k < assets@.len() && assets@[k].name@ == name@ && forall|j: int|
                    0 <= j < k ==> assets@[j].name@ != name@;
            assert(0 <= w < assets@.len() && assets@[w].name@ == name@ && forall|j: int|
                0 <= j < w ==> assets@[j].name@ != name@) by {
                assert(0 <= i < assets@.len() && assets@[i as int].name@ == name@);
            }
            assert(w == i) by {
                if w > i {
                    assert(assets@[i as int].name@ != name@);
                }
            }
            assert(asset_index(release.assets@, name@) == Some(i as int));
            return Some(&assets[i]);
        }
        i += 1;
    }
    None
}

/// What an update check reports.
#[derive(Debug, Clone)]
pub struct UpdateCheckResult {
    pub current_version: String,
    pub latest_version: Option<String>,
    pub update_available: bool,
    pub release_url: String,
    pub asset_name: Option<String>,
    pub download_url: Option<String>,
}

/// The report of an update check of `release` against the running
/// `current` version, for the asset named `asset_name`.
pub fn check_release(current: &str, release: &ReleaseInfo, asset_name: &str) -> (r: Result<
    UpdateCheckResult,
    UpdateError,
>)
    ensures
        match (semver_parse(version_text(current@)), semver_parse(version_text(release.version@))) {
            (Some(c), Some(l)) => r matches Ok(res) && {
                &&& res.current_version@ == current@
                &&& res.latest_version matches Some(v) && v@ == release.version@
                &&& res.update_available == semver_gt(l, c)
                &&& res.release_url@ == release.release_url@
                &&& match asset_index(release.assets@, asset_name@) {
                    Some(i) => (res.asset_name matches Some(n) && n@ == release.assets@[i].name@)
                        && (res.download_url matches Some(u) && u@
                        == release.assets@[i].download_url@),
                    None => res.asset_name is None && res.download_url is None,
                }
            },
            (None, _) => r matches Err(UpdateError::InvalidVersion { raw }) && raw@ == current@,
            (Some(_), None) => r matches Err(UpdateError::InvalidVersion { raw }) && raw@
                == release.version@,
        },
{
    let update_available = match is_update_available(current, release.version.as_str()) {
        Ok(b) => b,
        Err(e) => return Err(e),
    };
    let asset = find_asset(release, asset_name);
    let (name, url) = match asset {
        Some(a) => (Some(a.name.clone()), Some(a.download_url.clone())),
        None => (None, None),
    };
    Ok(
        UpdateCheckResult {
            current_version: to_string(current),
            latest_version: Some(release.version.clone()),
            update_available,
            release_url: release.release_url.clone(),
            asset_name: name,
            download_url: url,
        },
    )
}

/// What an update run does after a check.
pub enum UpdatePlan {
    /// Nothing newer is released.
    UpToDate,
    /// A newer release exists but lacks the wanted asset.
    MissingAsset,
    /// Download the asset from this URL.
    Download { url: String },
}

/// Decide what to do after a check: nothing when up to date, fail when the
/// release lacks the asset, download it otherwise.
pub fn plan_update(check: &UpdateCheckResult) -> (r: UpdatePlan)
    ensures
        !check.update_available ==> r is UpToDate,
        check.update_available && check.download_url is None ==> r is MissingAsset,
        check.update_available && check.download_url is Some ==> (r matches UpdatePlan::Download {
            url,
        } && url@ == check.download_url->0@),
{
    if !check.update_available {
        return UpdatePlan::UpToDate;
    }
    match &check.download_url {
        Some(u) => UpdatePlan::Download { url: u.clone() },
        None => UpdatePlan::MissingAsset,
    }
}

/// Whether an answer to the `[y/N]` prompt confirms: `y` or `Y`, ignoring
/// surrounding whitespace.
pub fn confirms_update(answer: &str) -> (r: bool)
    ensures
        r == (trim_spec(answer@) == "y"@ || trim_spec(answer@) == "Y"@),
{
    let t = trim(answer);
    str_eq(t.as_str(), "y") || str_eq(t.as_str(), "Y")
}

/// `s` with `\` and `"` escaped by a backslash, for an AppleScript string.
pub open spec fn applescript_escape_spec(s: Seq<char>) -> Seq<char>
    decreases s.len(),
{
    if s.len() == 0 {
        Seq::empty()
    } else {
        let c = s.last();
        applescript_escape_spec(s.drop_last()) + if c == '\\' || c == '"' {
            seq!['\\', c]
        } else {
            seq![c]
        }
    }
}

/// `s.replace('\\', "\\\\").replace('"', "\\\"")`.
pub fn applescript_escape(s: &str) -> (r: String)
    ensures
        r@ == applescript_escape_spec(s@),
{
    let v = chars_of(s);
    let mut r = String::new();
    let mut i: usize = 0;
    assert(s@.take(0) =~= Seq::<char>::empty());
    while i < v.len()
        invariant
            i <= v.len(),
            v@ == s@,
            r@ == applescript_escape_spec(s@.take(i as int)),
        decreases v.len() - i,
    {
        assert(s@.take(i + 1).drop_last() =~= s@.take(i as int));
        let c = v[i];
        if c == '\\' || c == '"' {
            crate::text::push_char(&mut r, '\\');
        }
        crate::text::push_char(&mut r, c);
        assert(r@ =~= applescript_escape_spec(s@.take(i + 1)));
        i += 1;
    }
    assert(s@.take(v.len() as int) =~= s@);
    r
}

/// Where the CLI settings live: `<APPDATA>\trae-acp-gateway\settings.json`
/// on Windows, `<home>/.config/trae-acp-gateway/settings.json` elsewhere.
pub enum SettingsPathError {
    /// `APPDATA` is not set (Windows).
    AppDataNotSet,
    /// The home directory is unknown.
    HomeNotSet,
}

/// Path to the CLI settings file, joined by the platform's rules.
pub fn cli_settings_path(windows: bool, app_data: Option<&str>, home: Option<&str>) -> (r: Result<
    String,
    SettingsPathError,
>)
    ensures
        windows ==> match app_data {
            Some(a) => r matches Ok(p) && p@ == join_spec(
                join_spec(a@, "trae-acp-gateway"@, true),
                "settings.json"@,
                true,
            ),
            None => r matches Err(SettingsPathError::AppDataNotSet),
        },
        !windows ==> match home {
            Some(h) => r matches Ok(p) && p@ == join_spec(
                join_spec(join_spec(h@, ".config"@, false), "trae-acp-gateway"@, false),
                "settings.json"@,
                false,
            ),
            None => r matches Err(SettingsPathError::HomeNotSet),
        },
{
    let base = if windows {
        match app_data {
            Some(a) => to_string(a),
            None => return Err(SettingsPathError::AppDataNotSet),
        }
    } else {
        match home {
            Some(h) => join_path(h, ".config", false),
            None => return Err(SettingsPathError::HomeNotSet),
        }
    };
    let dir = join_path(base.as_str(), "trae-acp-gateway", windows);
    Ok(join_path(dir.as_str(), "settings.json", windows))
}

/// Title of the update-available notification.
pub const UPDATE_NOTICE_TITLE: &'static str = "Trae ACP Gateway 发现新版本";

/// Body of the update-available notification.
pub fn update_notice_body(current: &str, latest: &str) -> (r: String)
    ensures
        r@ == "v"@ + current@ + " → v"@ + latest@ + "，运行 update apply 或前往设置页安装"@,
{
    let r = concat("v", current);
    let r = concat(r.as_str(), " → v");
    let r = concat(r.as_str(), latest);
    concat(r.as_str(), "，运行 update apply 或前往设置页安装")
}

/// The AppleScript that shows a notification with `body` and `title`.
pub fn notification_script(body: &str, title: &str) -> (r: String)
    ensures
        r@ == "display notification \""@ + applescript_escape_spec(body@) + "\" with title \""@
            + title@ + "\""@,
{
    let escaped = applescript_escape(body);
    let r = concat("display notification \"", escaped.as_str());
    let r = concat(r.as_str(), "\" with title \"");
    let r = concat(r.as_str(), title);
    concat(r.as_str(), "\"")
}

/// The lines an update-available notice prints: what changes, where the
/// release is, and how to apply it.
pub fn update_notice_lines(current: &str, latest: &str, release_url: &str) -> (r: Vec<String>)
    ensures
        r@.map_values(|l: String| l@) == seq![
            UPDATE_NOTICE_TITLE@ + ": v"@ + current@ + " -> v"@ + latest@,
            "Release: "@ + release_url@,
            "Run: trae_acp_gateway update apply"@,
        ],
{
    let a = concat(UPDATE_NOTICE_TITLE, ": v");
    let a = concat(a.as_str(), current);
    let a = concat(a.as_str(), " -> v");
    let a = concat(a.as_str(), latest);
    let mut r: Vec<String> = Vec::new();
    r.push(a);
    r.push(concat("Release: ", release_url));
    r.push(to_string("Run: trae_acp_gateway update apply"));
    assert(r@.map_values(|l: String| l@) =~= seq![
        UPDATE_NOTICE_TITLE@ + ": v"@ + current@ + " -> v"@ + latest@,
        "Release: "@ + release_url@,
        "Run: trae_acp_gateway update apply"@,
    ]);
    r
}

/// What `update check` prints, and its exit status: the versions and the
/// release page; when an update is available the asset to download and
/// status 1, otherwise a note that all is up to date and status 0.
pub fn check_report(check: &UpdateCheckResult) -> (r: (Vec<String>, i32))
    ensures
        r.1 == (if check.update_available {
            1i32
        } else {
            0i32
        }),
        r.0@.map_values(|l: String| l@) == seq!["Current version: v"@ + check.current_version@]
            + match check.latest_version {
            Some(l) => seq!["Latest version:  v"@ + l@],
            None => Seq::empty(),
        } + seq!["Release: "@ + check.release_url@] + if check.update_available {
            match check.asset_name {
                Some(n) => seq!["Download asset: "@ + n@],
                None => Seq::empty(),
            }
        } else {
            seq!["Already up to date."@]
        },
{
    let mut lines: Vec<String> = Vec::new();
    lines.push(concat("Current version: v", check.current_version.as_str()));
    let ghost l0 = lines@.map_values(|l: String| l@);
    match &check.latest_version {
        Some(l) => {
            lines.push(concat("Latest version:  v", l.as_str()));
        },
        None => {},
    }
    let ghost l1 = lines@.map_values(|l: String| l@);
    assert(l1 =~= l0 + match check.latest_version {
        Some(l) => seq!["Latest version:  v"@ + l@],
        None => Seq::<Seq<char>>::empty(),
    });
    lines.push(concat("Release: ", check.release_url.as_str()));
    let ghost l2 = lines@.map_values(|l: String| l@);
    assert(l2 =~= l1 + seq!["Release: "@ + check.release_url@]);
    let code: i32 = if check.update_available {
        match &check.asset_name {
            Some(n) => {
                lines.push(concat("Download asset: ", n.as_str()));
            },
            None => {},
        }
        1i32
    } else {
        lines.push(to_string("Already up to date."));
        0i32
    };
    assert(lines@.map_values(|l: String| l@) =~= l2 + if check.update_available {
        match check.asset_name {
            Some(n) => seq!["Download asset: "@ + n@],
            None => Seq::<Seq<char>>::empty(),
        }
    } else {
        seq!["Already up to date."@]
    });
    (lines, code)
}

} // verus!
