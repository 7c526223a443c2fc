use pausecat::updater::{
    classify_release_status, find_asset_named, find_msi_asset, install_command, parse_and_check_version,
    trim_start_char, update_info_for, GithubAsset, GithubRelease, ReleaseStatus, UpdateCheckError, UpdateInfo,
};

fn asset(name: &str, url: &str, size: u64) -> GithubAsset {
    GithubAsset { name: name.to_string(), browser_download_url: url.to_string(), size }
}

#[test]
fn test_updater_integration_smoke() {
    // Just verify types and module accessibility
    let _ = UpdateInfo { available: false, latest_version: "1.0.0".to_string(), changelog: "".to_string() };
}

#[test]
fn test_github_release_parsing_logic() {
    // The release the endpoint describes as
    // {"tag_name": "v1.2.0", "body": "New version", "assets": [
    //   {"name": "pausecat.msi", "browser_download_url": "http://test.com/msi", "size": 1000},
    //   {"name": "readme.txt", "browser_download_url": "http://test.com/txt", "size": 500}]}
    let release = GithubRelease {
        tag_name: "v1.2.0".to_string(),
        body: "New version".to_string(),
        assets: vec![asset("pausecat.msi", "http://test.com/msi", 1000), asset("readme.txt", "http://test.com/txt", 500)],
    };
    assert_eq!(release.tag_name, "v1.2.0");
    assert_eq!(release.assets.len(), 2);

    let info = parse_and_check_version(&release, "1.1.0").unwrap();
    assert!(info.available);
    assert_eq!(info.latest_version, "v1.2.0");

    let msi = find_msi_asset(&release).unwrap();
    assert_eq!(msi.name, "pausecat.msi");
}

#[test]
fn test_no_update_available_logic() {
    let release = GithubRelease { tag_name: "v1.0.0".to_string(), body: "No changes".to_string(), assets: vec![] };
    let info = parse_and_check_version(&release, "1.0.0").unwrap();
    assert!(!info.available);
}

#[test]
fn older_release_is_not_an_update() {
    let release = GithubRelease { tag_name: "v0.9.9".to_string(), body: String::new(), assets: vec![] };
    assert!(!parse_and_check_version(&release, "1.0.0").unwrap().available);
    let pre = GithubRelease { tag_name: "1.0.0-rc.1".to_string(), body: String::new(), assets: vec![] };
    assert!(!parse_and_check_version(&pre, "1.0.0").unwrap().available);
    assert!(parse_and_check_version(&pre, "1.0.0-beta.11").unwrap().available);
}

#[test]
fn update_info_carries_tag_and_notes() {
    let release = GithubRelease { tag_name: "vv2.0.0".to_string(), body: "notes".to_string(), assets: vec![] };
    let info = parse_and_check_version(&release, "1.9.0").unwrap();
    assert!(info.available);
    assert_eq!(info.latest_version, "vv2.0.0");
    assert_eq!(info.changelog, "notes");
    let direct = update_info_for(&release, false);
    assert!(!direct.available);
    assert_eq!(direct.latest_version, "vv2.0.0");
}

#[test]
fn invalid_versions_are_reported_in_order() {
    let release = GithubRelease { tag_name: "vlatest".to_string(), body: String::new(), assets: vec![] };
    match parse_and_check_version(&release, "1.0") {
        Err(UpdateCheckError::InvalidVersion { text, .. }) => assert_eq!(text, "1.0"),
        Ok(_) => panic!("the running version is not a semver version"),
    }
    match parse_and_check_version(&release, "1.0.0") {
        Err(UpdateCheckError::InvalidVersion { text, .. }) => assert_eq!(text, "latest"),
        Ok(_) => panic!("the tag is not a semver version"),
    }
}

#[test]
fn trim_removes_every_leading_v() {
    assert_eq!(trim_start_char("vvv1.0.0", 'v'), "1.0.0");
    assert_eq!(trim_start_char("1.0.0v", 'v'), "1.0.0v");
    assert_eq!(trim_start_char("", 'v'), "");
}

#[test]
fn msi_asset_is_found_in_any_case_and_first_wins() {
    let release = GithubRelease {
        tag_name: "v1".to_string(),
        body: String::new(),
        assets: vec![
            asset("notes.txt", "u0", 1),
            asset("PauseCat_Installer.MSI", "u1", 2),
            asset("other.msi", "u2", 3),
        ],
    };
    assert_eq!(find_msi_asset(&release).unwrap().browser_download_url, "u1");
    let none = GithubRelease { tag_name: "v1".to_string(), body: String::new(), assets: vec![asset("msi.txt", "u", 1)] };
    assert!(find_msi_asset(&none).is_none());
}

#[test]
fn asset_named_exactly() {
    let release = GithubRelease {
        tag_name: "v1".to_string(),
        body: String::new(),
        assets: vec![asset("Default.webm", "a", 1), asset("default.webm", "b", 2)],
    };
    assert_eq!(find_asset_named(&release, "default.webm").unwrap().browser_download_url, "b");
    assert!(find_asset_named(&release, "missing.webm").is_none());
}

#[test]
fn release_status_classes() {
    assert_eq!(classify_release_status(200), ReleaseStatus::Success);
    assert_eq!(classify_release_status(299), ReleaseStatus::Success);
    assert_eq!(classify_release_status(403), ReleaseStatus::Forbidden);
    assert_eq!(classify_release_status(404), ReleaseStatus::Failed(404));
    assert_eq!(classify_release_status(301), ReleaseStatus::Failed(301));
}

#[test]
fn install_command_text() {
    assert_eq!(
        install_command("C:\\u\\PauseCat.msi", "C:\\p\\pausecat.exe"),
        "/c start /wait msiexec.exe /i \"C:\\u\\PauseCat.msi\" /passive /norestart && timeout /t 2 /nobreak && start \"\" \"C:\\p\\pausecat.exe\""
    );
}
