use pausecat::settings::{BreakMode, Settings};

#[test]
fn test_settings_default() {
    let settings = Settings::default();
    assert_eq!(settings.work_duration_secs, 3600);
    assert_eq!(settings.break_duration_secs, 300);
    assert_eq!(settings.mode, BreakMode::Soft);
    assert!(settings.autostart);
    assert_eq!(settings.overlay_animation, "default.webm");
}

#[test]
fn test_settings_validate() {
    let mut settings = Settings::default();

    settings.work_duration_secs = 100; // Too low (min 300)
    settings.break_duration_secs = 10000; // Too high (max 7200)

    settings.validate();

    assert_eq!(settings.work_duration_secs, 300);
    assert_eq!(settings.break_duration_secs, 7200);
}

#[test]
fn default_look_values() {
    let s = Settings::default();
    assert_eq!(f32::from_bits(s.bubble_opacity_bits), 0.1f32);
    assert_eq!(f32::from_bits(s.video_volume_bits), 0.0f32);
    assert_eq!(f32::from_bits(s.text_opacity_bits), 0.15f32);
    assert_eq!(f32::from_bits(s.text_glow_bits), 10.0f32);
    assert_eq!(s.bubble_size, 580);
    assert_eq!(s.bubble_pos_x, 5);
    assert_eq!(s.bubble_pos_y, 5);
    assert_eq!(s.text_rotation_x, 20);
    assert_eq!(s.text_rotation_y, -20);
    assert_eq!(s.text_rotation_z, 0);
    assert_eq!(s.text_depth, 5);
    assert_eq!(s.custom_text, "PAUSE");
    assert_eq!(s.animation_style, "float");
    assert_eq!(s.break_style, "text");
    assert_eq!(s.text_animation, "float");
    assert_eq!(s.text_color, "#ffffff");
    assert_eq!(s.text_glow_color, "#ffffff");
    assert!(s.whitelist.is_empty());
    assert_eq!(
        s.break_messages,
        vec![
            "Take a deep breath".to_string(),
            "Stretch your body".to_string(),
            "Rest your eyes for a moment".to_string(),
            "Time for a quick water break".to_string()
        ]
    );
    assert!(s.randomize_messages && s.show_work_duration_status && s.text_glow_enabled && s.adaptive_text_color);
}

#[test]
fn validate_clamps_opacity_as_float_comparisons_do() {
    let mut s = Settings::default();
    s.bubble_opacity_bits = (-0.5f32).to_bits();
    s.validate();
    assert_eq!(f32::from_bits(s.bubble_opacity_bits), 0.0f32);

    s.bubble_opacity_bits = 1.5f32.to_bits();
    s.validate();
    assert_eq!(f32::from_bits(s.bubble_opacity_bits), 1.0f32);

    s.bubble_opacity_bits = f32::INFINITY.to_bits();
    s.validate();
    assert_eq!(f32::from_bits(s.bubble_opacity_bits), 1.0f32);

    s.bubble_opacity_bits = f32::NEG_INFINITY.to_bits();
    s.validate();
    assert_eq!(f32::from_bits(s.bubble_opacity_bits), 0.0f32);

    // -0.0 is not below zero, and NaN compares false both ways: both are kept.
    s.bubble_opacity_bits = (-0.0f32).to_bits();
    s.validate();
    assert_eq!(s.bubble_opacity_bits, (-0.0f32).to_bits());

    s.bubble_opacity_bits = f32::NAN.to_bits();
    s.validate();
    assert!(f32::from_bits(s.bubble_opacity_bits).is_nan());

    s.bubble_opacity_bits = 0.7f32.to_bits();
    s.validate();
    assert_eq!(f32::from_bits(s.bubble_opacity_bits), 0.7f32);
}

#[test]
fn validate_is_idempotent_and_keeps_other_fields() {
    let mut s = Settings::default();
    s.work_duration_secs = 1;
    s.break_duration_secs = u32::MAX;
    s.custom_text = "BREAK".to_string();
    s.validate();
    let once = s.clone();
    s.validate();
    assert_eq!(s.work_duration_secs, once.work_duration_secs);
    assert_eq!(s.break_duration_secs, once.break_duration_secs);
    assert_eq!(s.work_duration_secs, 300);
    assert_eq!(s.break_duration_secs, 7200);
    assert_eq!(s.custom_text, "BREAK");
}

#[test]
fn prepared_for_save_leaves_original_untouched() {
    let mut s = Settings::default();
    s.work_duration_secs = 99999;
    let saved = s.prepared_for_save();
    assert_eq!(saved.work_duration_secs, 14400);
    assert_eq!(s.work_duration_secs, 99999);
}

#[test]
fn from_loaded_falls_back_to_defaults() {
    let mut s = Settings::default();
    s.work_duration_secs = 1234;
    assert_eq!(Settings::from_loaded(Some(s)).work_duration_secs, 1234);
    assert_eq!(Settings::from_loaded(None).work_duration_secs, 3600);
}
