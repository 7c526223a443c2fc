use pausecat::overlay::blur::{flush_buffers, grow_zeroed, pixel_offset, sample_index, BlurBuffers};
use pausecat::overlay::capture::{capture_geometry, flush_buffer};
use pausecat::overlay::webview::{
    after_last, build_overlay_init_msg, classify_overlay_message, get_mime_type, media_source_for, parse_resource_uri,
    resolve_media_source, FloatTexts, MediaSource, OverlayRequest, ResourceRequest,
};
use pausecat::settings::{BreakMode, Settings};

#[test]
fn overlay_requests() {
    assert_eq!(classify_overlay_message("{\"action\":\"dismiss\"}"), OverlayRequest::Dismiss);
    assert_eq!(classify_overlay_message("{\"action\":\"ready\"}"), OverlayRequest::Ready);
    assert_eq!(classify_overlay_message("{\"action\":\"other\"}"), OverlayRequest::Other);
    assert_eq!(classify_overlay_message("{\"action\":\"ready\",\"b\":{\"action\":\"dismiss\"}}"), OverlayRequest::Dismiss);
}

#[test]
fn bundled_and_local_media() {
    match media_source_for("default.webm", '\\', None) {
        MediaSource::Bundled { url } => assert_eq!(url, "https://pausecat.app/assets/default.webm"),
        other => panic!("unexpected {:?}", other),
    }
    match media_source_for("cat.gif", '\\', None) {
        MediaSource::Bundled { url } => assert_eq!(url, "https://pausecat.app/assets/cat.gif"),
        other => panic!("unexpected {:?}", other),
    }
    match media_source_for("C:\\media\\cat.mp4", '\\', Some("cat.mp4")) {
        MediaSource::Local { id, url } => {
            assert_eq!(id, "cat.mp4");
            assert_eq!(url, "https://pausecat.app/local/cat.mp4");
        }
        other => panic!("unexpected {:?}", other),
    }
    match media_source_for("C:\\", '\\', None) {
        MediaSource::Local { id, url } => {
            assert_eq!(id, "custom");
            assert_eq!(url, "https://pausecat.app/local/custom");
        }
        other => panic!("unexpected {:?}", other),
    }
    if std::path::MAIN_SEPARATOR == '/' {
        match resolve_media_source("/home/u/cat.webm") {
            MediaSource::Local { id, url } => {
                assert_eq!(id, "cat.webm");
                assert_eq!(url, "https://pausecat.app/local/cat.webm");
            }
            other => panic!("unexpected {:?}", other),
        }
    }
}

#[test]
fn resource_uris() {
    assert!(matches!(parse_resource_uri("https://pausecat.app/assets/default.webm"),
        ResourceRequest::Asset(n) if n == "default.webm"));
    assert!(matches!(parse_resource_uri("https://pausecat.app/assets/assets/x.png"),
        ResourceRequest::Asset(n) if n == "x.png"));
    assert!(matches!(parse_resource_uri("https://pausecat.app/local/cat.mp4"),
        ResourceRequest::Local(n) if n == "cat.mp4"));
    assert!(matches!(parse_resource_uri("https://pausecat.app/assets/"), ResourceRequest::Unhandled));
    assert!(matches!(parse_resource_uri("https://example.com/assets/x.png"), ResourceRequest::Unhandled));
    assert!(matches!(parse_resource_uri("https://pausecat.app/other/x.png"), ResourceRequest::Unhandled));
}

#[test]
fn mime_types() {
    assert_eq!(get_mime_type("default.webm"), "video/webm");
    assert_eq!(get_mime_type("PHOTO.JPG"), "image/jpeg");
    assert_eq!(get_mime_type("a.b.jpeg"), "image/jpeg");
    assert_eq!(get_mime_type("mp4"), "video/mp4");
    assert_eq!(get_mime_type("pauseCat.ico"), "image/x-icon");
    assert_eq!(get_mime_type("style.css"), "text/css");
    assert_eq!(get_mime_type("app.js"), "application/javascript");
    assert_eq!(get_mime_type("index.html"), "text/html");
    assert_eq!(get_mime_type("x.png"), "image/png");
    assert_eq!(get_mime_type("x.gif"), "image/gif");
    assert_eq!(get_mime_type("archive.tar.gz"), "application/octet-stream");
    assert_eq!(get_mime_type("trailingdot."), "application/octet-stream");
    assert_eq!(after_last("a.b.c", '.'), "c");
    assert_eq!(after_last("abc", '.'), "abc");
}

#[test]
fn init_message_for_defaults() {
    let mut s = Settings::default();
    s.custom_text = "say \"hi\"".to_string();
    s.mode = BreakMode::Hard;
    let floats = FloatTexts {
        bubble_opacity: "0.1".to_string(),
        video_volume: "0".to_string(),
        text_opacity: "0.15".to_string(),
        text_glow: "10".to_string(),
    };
    let msg = build_overlay_init_msg(&s, "https://pausecat.app/assets/default.webm", true, "[\"a\"]", &floats);
    assert_eq!(
        msg,
        "{\"action\":\"init\", \"duration\": 300, \"mode\": \"hard\", \"mediaPath\": \"https://pausecat.app/assets/default.webm\", \"isDark\": true, \"bubbleOpacity\": 0.1, \"bubbleSize\": 580, \"bubblePosX\": 5, \"bubblePosY\": 5, \"animationStyle\": \"float\", \"breakMessages\": [\"a\"], \"randomizeMessages\": true, \"showWorkStatus\": true, \"workDurationSecs\": 3600, \"breakStyle\": \"text\", \"customText\": \"say \\\"hi\\\"\", \"videoVolume\": 0, \"textAnimation\": \"float\", \"textRotationX\": 20, \"textRotationY\": -20, \"textRotationZ\": 0, \"textColor\": \"#ffffff\", \"textOpacity\": 0.15, \"textGlow\": 10, \"textGlowEnabled\": true, \"textGlowColor\": \"#ffffff\", \"textDepth\": 5, \"adaptiveTextColor\": true}"
    );
}

#[test]
fn blur_addressing() {
    assert_eq!(sample_index(0, 0, 3, 10), 0);
    assert_eq!(sample_index(5, 3, 3, 10), 5);
    assert_eq!(sample_index(9, 6, 3, 10), 9);
    assert_eq!(sample_index(2, 0, 3, 10), 0);
    assert_eq!(pixel_offset(2, 2, 4), 40);
}

#[test]
fn blur_buffers_grow_and_flush() {
    let mut b = BlurBuffers::new();
    b.reserve_for(16);
    assert_eq!(b.temp.len(), 16);
    assert_eq!(b.dst.len(), 16);
    b.temp[3] = 7;
    b.reserve_for(8);
    assert_eq!(b.temp.len(), 16);
    assert_eq!(b.temp[3], 7);
    b.reserve_for(20);
    assert_eq!(b.temp[3], 7);
    assert_eq!(b.temp[19], 0);
    flush_buffers(&mut b);
    assert!(b.temp.is_empty() && b.dst.is_empty());
    let mut v = vec![1u8];
    grow_zeroed(&mut v, 3);
    assert_eq!(v, vec![1, 0, 0]);
}

#[test]
fn capture_geometry_and_flush() {
    assert_eq!(capture_geometry(1920, 1080), (480, 270, 480 * 270 * 4));
    assert_eq!(capture_geometry(3, 3), (0, 0, 0));
    let mut v = vec![1u8, 2, 3];
    flush_buffer(&mut v);
    assert!(v.is_empty());
}

#[test]
fn break_messages_as_json() {
    let s = Settings::default();
    assert_eq!(
        pausecat::overlay::webview::break_messages_json(&s.break_messages),
        "[\"Take a deep breath\",\"Stretch your body\",\"Rest your eyes for a moment\",\"Time for a quick water break\"]"
    );
}

#[test]
fn slash_paths_name_the_file() {
    if std::path::MAIN_SEPARATOR == '/' {
        match resolve_media_source("clips/cats/cat.mp4") {
            MediaSource::Local { id, url } => {
                assert_eq!(id, "cat.mp4");
                assert_eq!(url, "https://pausecat.app/local/cat.mp4");
            }
            other => panic!("unexpected {:?}", other),
        }
        match resolve_media_source("clips/") {
            MediaSource::Local { id, .. } => assert_eq!(id, "clips"),
            other => panic!("unexpected {:?}", other),
        }
    }
}

#[test]
fn media_source_follows_the_platform_separator() {
    let windows = std::path::MAIN_SEPARATOR == '\\';
    match resolve_media_source("C:\\media\\cat.mp4") {
        MediaSource::Local { id, url } => {
            assert!(windows);
            assert_eq!(id, "cat.mp4");
            assert_eq!(url, "https://pausecat.app/local/cat.mp4");
        }
        MediaSource::Bundled { url } => {
            assert!(!windows);
            assert_eq!(url, "https://pausecat.app/assets/C:\\media\\cat.mp4");
        }
    }
    match resolve_media_source("default.webm") {
        MediaSource::Bundled { url } => assert_eq!(url, "https://pausecat.app/assets/default.webm"),
        other => panic!("unexpected {:?}", other),
    }
}
