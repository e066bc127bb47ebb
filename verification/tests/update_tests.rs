use trae_acp_gateway::update::{
    app_installer_asset_name, applescript_escape, check_release, check_report, cli_asset_name,
    cli_settings_path, confirms_update, find_asset, is_update_available, latest_release_url,
    notification_script, plan_update, update_notice_body, update_notice_lines, AssetInfo,
    ReleaseInfo, SettingsPathError, TargetOs, UpdateError, UpdatePlan,
};

#[test]
fn semver_compare() {
    assert!(is_update_available("0.1.0", "0.2.0").ok().unwrap());
    assert!(!is_update_available("0.2.0", "0.2.0").ok().unwrap());
    assert!(!is_update_available("0.3.0", "0.2.0").ok().unwrap());
}

#[test]
fn strip_v_prefix() {
    assert!(is_update_available("v0.1.0", "v0.2.0").ok().unwrap());
}

#[test]
fn invalid_versions_are_errors() {
    match is_update_available("nope", "0.2.0") {
        Err(UpdateError::InvalidVersion { raw }) => assert_eq!(raw, "nope"),
        _ => panic!("expected an invalid version"),
    }
    match is_update_available("0.2.0", "1.x") {
        Err(UpdateError::InvalidVersion { raw }) => assert_eq!(raw, "1.x"),
        _ => panic!("expected an invalid version"),
    }
    assert!(is_update_available(" v1.0.0\n", "1.0.1").ok().unwrap());
    assert!(is_update_available("1.0.0-rc.1", "1.0.0").ok().unwrap());
}

#[test]
fn asset_names_per_platform() {
    assert_eq!(cli_asset_name(TargetOs::Linux).ok().unwrap(), "trae_acp_gateway-linux-x86_64");
    assert_eq!(cli_asset_name(TargetOs::MacOs).ok().unwrap(), "trae_acp_gateway-macos-universal");
    assert_eq!(cli_asset_name(TargetOs::Windows).ok().unwrap(), "trae_acp_gateway-windows-x86_64.exe");
    assert!(matches!(cli_asset_name(TargetOs::Other), Err(UpdateError::UnsupportedPlatform)));
    assert_eq!(app_installer_asset_name(TargetOs::MacOs).ok().unwrap(), "Trae-ACP-Gateway-macos-universal.dmg");
    assert_eq!(app_installer_asset_name(TargetOs::Linux).ok().unwrap(), "Trae-ACP-Gateway-linux-x86_64.AppImage");
    assert_eq!(app_installer_asset_name(TargetOs::Windows).ok().unwrap(), "Trae-ACP-Gateway-windows-x86_64.msi");
    assert!(app_installer_asset_name(TargetOs::Other).is_err());
}

fn release() -> ReleaseInfo {
    ReleaseInfo::from_github(
        "vv9.1.0",
        "https://example.com/r".to_string(),
        vec![
            AssetInfo { name: "a".to_string(), download_url: "u1".to_string(), size: 1 },
            AssetInfo { name: "b".to_string(), download_url: "u2".to_string(), size: 2 },
            AssetInfo { name: "b".to_string(), download_url: "u3".to_string(), size: 3 },
        ],
    )
}

#[test]
fn release_tag_loses_its_v() {
    assert_eq!(release().version, "9.1.0");
    assert_eq!(latest_release_url(), "https://api.github.com/repos/yu1ec/trae-acp-gateway/releases/latest");
}

#[test]
fn find_asset_takes_first_match() {
    let r = release();
    assert_eq!(find_asset(&r, "b").unwrap().download_url, "u2");
    assert!(find_asset(&r, "c").is_none());
}

#[test]
fn check_release_reports_asset() {
    let r = release();
    let check = check_release("0.1.0", &r, "b").ok().unwrap();
    assert!(check.update_available);
    assert_eq!(check.latest_version.as_deref(), Some("9.1.0"));
    assert_eq!(check.download_url.as_deref(), Some("u2"));
    match plan_update(&check) {
        UpdatePlan::Download { url } => assert_eq!(url, "u2"),
        _ => panic!("expected a download"),
    }
    let (lines, code) = check_report(&check);
    assert_eq!(code, 1);
    assert_eq!(
        lines,
        vec![
            "Current version: v0.1.0".to_string(),
            "Latest version:  v9.1.0".to_string(),
            "Release: https://example.com/r".to_string(),
            "Download asset: b".to_string(),
        ]
    );
    let missing = check_release("0.1.0", &r, "zzz").ok().unwrap();
    assert!(matches!(plan_update(&missing), UpdatePlan::MissingAsset));
    let same = check_release("9.1.0", &r, "a").ok().unwrap();
    assert!(matches!(plan_update(&same), UpdatePlan::UpToDate));
    let (lines, code) = check_report(&same);
    assert_eq!(code, 0);
    assert_eq!(lines.last().unwrap(), "Already up to date.");
}

#[test]
fn confirmation_accepts_y_only() {
    assert!(confirms_update("y\n"));
    assert!(confirms_update(" Y "));
    assert!(!confirms_update("yes"));
    assert!(!confirms_update(""));
}

#[test]
fn notification_texts() {
    assert_eq!(applescript_escape(r#"a"b\c"#), r#"a\"b\\c"#);
    assert_eq!(update_notice_body("0.1.0", "0.2.0"), "v0.1.0 → v0.2.0，运行 update apply 或前往设置页安装");
    assert_eq!(notification_script("say \"hi\"", "T"), r#"display notification "say \"hi\"" with title "T""#);
    let lines = update_notice_lines("0.1.0", "0.2.0", "U");
    assert_eq!(lines[0], "Trae ACP Gateway 发现新版本: v0.1.0 -> v0.2.0");
    assert_eq!(lines[1], "Release: U");
    assert_eq!(lines[2], "Run: trae_acp_gateway update apply");
}

#[test]
fn settings_path_per_platform() {
    assert_eq!(
        cli_settings_path(false, None, Some("/home/u")).ok().unwrap(),
        "/home/u/.config/trae-acp-gateway/settings.json"
    );
    assert!(matches!(cli_settings_path(false, None, None), Err(SettingsPathError::HomeNotSet)));
    assert_eq!(
        cli_settings_path(true, Some(r"C:\Users\u\AppData\Roaming"), None).ok().unwrap(),
        r"C:\Users\u\AppData\Roaming\trae-acp-gateway\settings.json"
    );
    assert!(matches!(cli_settings_path(true, None, Some("/h")), Err(SettingsPathError::AppDataNotSet)));
}

#[test]
fn newer_is_asymmetric() {
    for (a, b) in [("0.1.0", "0.2.0"), ("1.0.0-alpha", "1.0.0"), ("1.9.0", "1.10.0"), ("2.0.0", "2.0.0")] {
        let forward = is_update_available(a, b).ok().unwrap();
        let backward = is_update_available(b, a).ok().unwrap();
        assert!(!(forward && backward), "{a} vs {b}");
    }
    assert!(is_update_available("1.9.0", "1.10.0").ok().unwrap());
}
