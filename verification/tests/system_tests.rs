use pausecat::system::{immersive_dark_value, is_whitelisted, preferred_app_mode, sorted_unique, theme_is_dark};

#[test]
fn theme_from_registry_value() {
    assert!(theme_is_dark(Some(0)));
    assert!(!theme_is_dark(Some(1)));
    assert!(!theme_is_dark(None));
    assert_eq!(preferred_app_mode(true), 2);
    assert_eq!(preferred_app_mode(false), 3);
    assert_eq!(immersive_dark_value(true), 1);
    assert_eq!(immersive_dark_value(false), 0);
}

#[test]
fn whitelist_ignores_case() {
    let list = vec!["Zoom.exe".to_string(), "obs64.exe".to_string()];
    assert!(is_whitelisted(&list, "zoom.EXE"));
    assert!(is_whitelisted(&list, "OBS64.exe"));
    assert!(!is_whitelisted(&list, "zoom"));
    assert!(!is_whitelisted(&Vec::new(), "zoom.exe"));
}

#[test]
fn running_apps_sorted_once() {
    let names = vec![
        "explorer.exe".to_string(),
        "Code.exe".to_string(),
        "explorer.exe".to_string(),
        "chrome.exe".to_string(),
        "Code.exe".to_string(),
        "ä.exe".to_string(),
    ];
    assert_eq!(
        sorted_unique(names),
        vec!["Code.exe".to_string(), "chrome.exe".to_string(), "explorer.exe".to_string(), "ä.exe".to_string()]
    );
    assert!(sorted_unique(Vec::new()).is_empty());
}
