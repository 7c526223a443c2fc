use pausecat::settings_ui::{
    build_apps_list_msg, build_media_selected_msg, build_settings_load_msg, build_theme_changed_msg,
    build_update_error_msg, build_update_progress_msg, build_update_status_msg, classify_settings_message,
    SettingsRequest,
};

#[test]
fn test_message_builders() {
    let info_json = "{\"available\":true,\"latest_version\":\"v1\",\"changelog\":\"notes\"}";
    assert!(build_update_status_msg(info_json).contains("update_status"));
    assert!(build_update_progress_msg(50).contains("50"));
    assert!(build_update_error_msg("test \"error\"").contains("test \\\"error\\\""));
}

#[test]
fn exact_messages() {
    assert_eq!(
        build_update_status_msg("{\"available\":false}"),
        "{\"action\":\"update_status\", \"info\": {\"available\":false}}"
    );
    assert_eq!(build_update_progress_msg(0), "{\"action\":\"update_progress\", \"percentage\": 0}");
    assert_eq!(build_update_progress_msg(100), "{\"action\":\"update_progress\", \"percentage\": 100}");
    assert_eq!(build_update_progress_msg(4294967295), "{\"action\":\"update_progress\", \"percentage\": 4294967295}");
    assert_eq!(build_update_error_msg("plain"), "{\"action\":\"update_error\", \"error\": \"plain\"}");
    assert_eq!(build_apps_list_msg("[\"a.exe\"]"), "{\"action\":\"apps_list\", \"apps\": [\"a.exe\"]}");
    assert_eq!(
        build_media_selected_msg("test\\path.png"),
        "{\"action\":\"media_selected\", \"path\":\"test/path.png\"}"
    );
    assert_eq!(build_theme_changed_msg(true), "{\"action\":\"theme_changed\", \"isDark\": true}");
    assert_eq!(build_theme_changed_msg(false), "{\"action\":\"theme_changed\", \"isDark\": false}");
    assert_eq!(
        build_settings_load_msg("{}", false, "1.2.3", true),
        "{\"action\":\"load\", \"settings\": {}, \"isDark\": false, \"version\": \"1.2.3\", \"assetReady\": true, \"logoPath\": \"https://pausecat.app/assets/pauseCat.ico\"}"
    );
}

#[test]
fn settings_requests() {
    assert_eq!(classify_settings_message("{\"action\":\"save\", \"settings\": {}}"), SettingsRequest::Save);
    assert_eq!(classify_settings_message("{\"action\":\"close\"}"), SettingsRequest::Close);
    assert_eq!(classify_settings_message("{\"action\":\"get_apps\"}"), SettingsRequest::GetApps);
    assert_eq!(classify_settings_message("{\"action\":\"check_updates\"}"), SettingsRequest::CheckUpdates);
    assert_eq!(classify_settings_message("{\"action\":\"start_update\"}"), SettingsRequest::StartUpdate);
    assert_eq!(classify_settings_message("{\"action\":\"select_media\"}"), SettingsRequest::SelectMedia);
    assert_eq!(classify_settings_message("{\"action\":\"retry_sync\"}"), SettingsRequest::RetrySync);
    assert_eq!(classify_settings_message("{\"action\": \"save\"}"), SettingsRequest::Unknown);
    // Save is looked for first.
    assert_eq!(
        classify_settings_message("{\"action\":\"close\",\"x\":{\"action\":\"save\"}}"),
        SettingsRequest::Save
    );
}

#[test]
fn apps_list_serialises_names() {
    let apps = vec!["a.exe".to_string(), "say \"b\".exe".to_string()];
    assert_eq!(
        pausecat::settings_ui::apps_list_msg(&apps),
        "{\"action\":\"apps_list\", \"apps\": [\"a.exe\",\"say \\\"b\\\".exe\"]}"
    );
    assert_eq!(pausecat::settings_ui::apps_list_msg(&Vec::new()), "{\"action\":\"apps_list\", \"apps\": []}");
}

#[test]
fn apps_list_escapes_as_serde_json_does() {
    let apps = vec![
        "tab\there".to_string(),
        "line\nfeed\r".to_string(),
        "back\\slash".to_string(),
        "bell\u{7}\u{1f}\u{8}\u{c}".to_string(),
        "ünï😺".to_string(),
    ];
    let expected = format!("{{\"action\":\"apps_list\", \"apps\": {}}}", serde_json::to_string(&apps).unwrap());
    assert_eq!(pausecat::settings_ui::apps_list_msg(&apps), expected);
    assert_eq!(
        pausecat::settings_ui::apps_list_msg(&apps),
        "{\"action\":\"apps_list\", \"apps\": [\"tab\\there\",\"line\\nfeed\\r\",\"back\\\\slash\",\"bell\\u0007\\u001f\\b\\f\",\"ünï😺\"]}"
    );
}

#[test]
fn test_handle_settings_message_logic() {
    let s = pausecat::settings::Settings::default();
    let mut fields = serde_json::Map::new();
    fields.insert("work_duration_secs".to_string(), serde_json::Value::from(s.work_duration_secs));
    fields.insert("break_duration_secs".to_string(), serde_json::Value::from(s.break_duration_secs));
    let settings_json = serde_json::to_string(&serde_json::Value::Object(fields)).unwrap();
    let json = format!("{{\"action\":\"save\", \"settings\": {}}}", settings_json);
    assert_eq!(classify_settings_message(&json), SettingsRequest::Save);
    assert_eq!(classify_settings_message("{\"action\":\"close\"}"), SettingsRequest::Close);
    assert_eq!(classify_settings_message("{\"action\":\"check_updates\"}"), SettingsRequest::CheckUpdates);
    assert_eq!(classify_settings_message("{\"action\":\"start_update\"}"), SettingsRequest::StartUpdate);
    assert_eq!(classify_settings_message("{\"action\":\"get_apps\"}"), SettingsRequest::GetApps);
    let apps = vec!["a.exe".to_string()];
    assert!(pausecat::settings_ui::apps_list_msg(&apps).contains("\"action\":\"apps_list\""));
    assert_eq!(classify_settings_message("{\"action\":\"select_media\"}"), SettingsRequest::SelectMedia);
    let msg = build_media_selected_msg("test\\path.png");
    assert!(msg.contains("\"action\":\"media_selected\""));
    assert!(msg.contains("test/path.png"));
}
