use base64::Engine;
use screen_capture::error::Error;
use screen_capture::targets::{
    format_target_id, get_all_targets, get_capture_targets, parse_target_id, resolve_capture_source,
    resolve_monitor, resolve_primary_monitor, resolve_window, MonitorInfo, RawImage,
    ResolvedSource, TargetKind, WindowInfo,
};

fn monitor(id: u32, name: &str, primary: bool) -> MonitorInfo {
    MonitorInfo {
        id,
        name: name.to_string(),
        width: 1920,
        height: 1080,
        x: 0,
        y: 0,
        is_primary: primary,
        image: None,
    }
}

fn window(id: u32, title: &str, app: &str, w: u32, h: u32, minimized: bool) -> WindowInfo {
    WindowInfo {
        id,
        title: title.to_string(),
        app_name: app.to_string(),
        width: w,
        height: h,
        x: 10,
        y: 20,
        is_minimized: minimized,
        image: None,
    }
}

#[test]
fn parse_monitor_id() {
    let r = parse_target_id("monitor:3");
    assert!(matches!(r, Ok((TargetKind::Monitor, 3))));
}

#[test]
fn parse_window_id() {
    let r = parse_target_id("window:41");
    assert!(matches!(r, Ok((TargetKind::Window, 41))));
}

#[test]
fn parse_without_separator_fails() {
    assert!(matches!(parse_target_id("bogus"), Err(Error::InvalidTargetId)));
    assert!(matches!(parse_target_id(""), Err(Error::InvalidTargetId)));
}

#[test]
fn parse_unknown_kind_fails() {
    assert!(matches!(parse_target_id("tablet:3"), Err(Error::UnknownTargetKind)));
    assert!(matches!(parse_target_id(":3"), Err(Error::UnknownTargetKind)));
}

#[test]
fn parse_negative_number_fails() {
    assert!(matches!(parse_target_id("monitor:-1"), Err(Error::InvalidTargetNumber)));
}

#[test]
fn parse_non_numeric_suffix_fails() {
    assert!(matches!(parse_target_id("window:abc"), Err(Error::InvalidTargetNumber)));
    assert!(matches!(parse_target_id("window:"), Err(Error::InvalidTargetNumber)));
    assert!(matches!(parse_target_id("monitor:3:4"), Err(Error::InvalidTargetNumber)));
}

#[test]
fn parse_number_bounds() {
    assert!(matches!(parse_target_id("monitor:4294967295"), Ok((TargetKind::Monitor, 4294967295))));
    assert!(matches!(parse_target_id("monitor:4294967296"), Err(Error::InvalidTargetNumber)));
}

#[test]
fn format_ids() {
    assert_eq!(format_target_id(TargetKind::Monitor, 3), "monitor:3");
    assert_eq!(format_target_id(TargetKind::Window, 0), "window:0");
    assert_eq!(format_target_id(TargetKind::Window, 4294967295), "window:4294967295");
}

#[test]
fn format_then_parse_round_trip() {
    let id = format_target_id(TargetKind::Monitor, 17);
    assert!(matches!(parse_target_id(&id), Ok((TargetKind::Monitor, 17))));
}

#[test]
fn registry_filters_and_orders() {
    let monitors = vec![monitor(1, "HDMI-1", false), monitor(2, "eDP-1", true)];
    let windows = vec![
        window(10, "zulu notes", "Editor", 800, 600, false),
        window(11, "", "Ghost", 800, 600, false),
        window(12, "tiny", "Tiny", 99, 400, false),
        window(13, "short", "Shorty", 400, 99, false),
        window(14, "sleeping", "Dozer", 800, 600, true),
        window(15, "alpha notes", "Editor", 800, 600, false),
        window(16, "browser", "Browser", 1024, 768, false),
    ];
    let targets = get_all_targets(&monitors, &windows, false);

    // two monitors, three kept windows
    assert_eq!(targets.len(), 5);

    // the primary monitor sorts first among monitors, monitors before windows
    assert_eq!(targets[0].id, "monitor:2");
    assert!(targets[0].is_primary);
    assert_eq!(targets[1].id, "monitor:1");
    assert!(matches!(targets[0].kind, TargetKind::Monitor));
    assert!(matches!(targets[1].kind, TargetKind::Monitor));

    // windows sort by application name, ties broken by title
    assert_eq!(targets[2].id, "window:16");
    assert_eq!(targets[2].app_name.as_deref(), Some("Browser"));
    assert_eq!(targets[3].id, "window:15");
    assert_eq!(targets[3].name, "alpha notes");
    assert_eq!(targets[4].id, "window:10");
    assert_eq!(targets[4].name, "zulu notes");

    // every returned window passes the filters
    for t in &targets {
        if matches!(t.kind, TargetKind::Window) {
            assert!(t.width >= 100 && t.height >= 100);
            assert!(!t.name.is_empty());
            assert!(!t.is_primary);
        }
        // no thumbnails were requested
        assert!(t.thumbnail.is_none());
    }

    // the forwarding entry point agrees
    let same = get_capture_targets(&monitors, &windows, false);
    assert_eq!(same.len(), targets.len());
    for (a, b) in targets.iter().zip(same.iter()) {
        assert_eq!(a.id, b.id);
    }
}

#[test]
fn registry_monitor_fields_carry_over() {
    let mut m = monitor(7, "DP-3", true);
    m.width = 2560;
    m.height = 1440;
    m.x = -2560;
    m.y = 5;
    let targets = get_all_targets(&vec![m], &vec![], false);
    assert_eq!(targets.len(), 1);
    let t = &targets[0];
    assert_eq!(t.id, "monitor:7");
    assert_eq!(t.name, "DP-3");
    assert_eq!(t.width, 2560);
    assert_eq!(t.height, 1440);
    assert_eq!(t.x, -2560);
    assert_eq!(t.y, 5);
    assert!(t.is_primary);
    assert!(t.app_name.is_none());
}

#[test]
fn registry_attaches_thumbnails_on_request() {
    // an 8x6 all-blue frame; small enough that no downscale happens
    let w: u32 = 8;
    let h: u32 = 6;
    let mut pixels = Vec::new();
    for _ in 0..(w * h) {
        pixels.extend_from_slice(&[0u8, 0u8, 255u8, 255u8]);
    }
    let mut m = monitor(1, "eDP-1", true);
    m.image = Some(RawImage { pixels, width: w, height: h });
    let targets = get_all_targets(&vec![m], &vec![], true);
    assert_eq!(targets.len(), 1);
    let thumb = targets[0].thumbnail.as_ref().expect("thumbnail expected");
    let jpeg = base64::engine::general_purpose::STANDARD.decode(thumb).expect("valid base64");
    assert_eq!(&jpeg[0..2], &[0xFF, 0xD8], "JPEG bitstream expected");
    let img = image::load_from_memory(&jpeg).expect("decodable thumbnail");
    assert_eq!(img.width(), w);
    assert_eq!(img.height(), h);
}

#[test]
fn registry_swallows_bad_thumbnail_input() {
    // a malformed grab (wrong buffer size) yields no thumbnail, not an error
    let mut m = monitor(1, "eDP-1", true);
    m.image = Some(RawImage { pixels: vec![1, 2, 3], width: 8, height: 6 });
    let targets = get_all_targets(&vec![m], &vec![], true);
    assert_eq!(targets.len(), 1);
    assert!(targets[0].thumbnail.is_none());
}

#[test]
fn resolve_monitor_by_id() {
    let monitors = vec![monitor(5, "a", false), monitor(9, "b", true), monitor(9, "c", false)];
    assert_eq!(resolve_monitor(&monitors, 9), Some(1));
    assert_eq!(resolve_monitor(&monitors, 5), Some(0));
    assert_eq!(resolve_monitor(&monitors, 77), None);
}

#[test]
fn resolve_window_by_id() {
    let windows = vec![window(4, "t", "a", 200, 200, false)];
    assert_eq!(resolve_window(&windows, 4), Some(0));
    assert_eq!(resolve_window(&windows, 5), None);
}

#[test]
fn resolve_primary_prefers_primary_then_first() {
    let with_primary = vec![monitor(1, "a", false), monitor(2, "b", true)];
    assert_eq!(resolve_primary_monitor(&with_primary), Some(1));
    let without_primary = vec![monitor(1, "a", false), monitor(2, "b", false)];
    assert_eq!(resolve_primary_monitor(&without_primary), Some(0));
    assert_eq!(resolve_primary_monitor(&vec![]), None);
}

#[test]
fn resolve_source_all_paths() {
    let monitors = vec![monitor(1, "a", true)];
    let windows = vec![window(4, "t", "a", 200, 200, false)];
    assert!(matches!(
        resolve_capture_source(Some((TargetKind::Monitor, 1)), &monitors, &windows),
        Ok(ResolvedSource::Monitor(0))
    ));
    assert!(matches!(
        resolve_capture_source(Some((TargetKind::Window, 4)), &monitors, &windows),
        Ok(ResolvedSource::Window(0))
    ));
    assert!(matches!(
        resolve_capture_source(None, &monitors, &windows),
        Ok(ResolvedSource::Monitor(0))
    ));
    assert!(matches!(
        resolve_capture_source(Some((TargetKind::Monitor, 3)), &monitors, &windows),
        Err(Error::TargetNotFound)
    ));
    assert!(matches!(
        resolve_capture_source(None, &vec![], &windows),
        Err(Error::TargetNotFound)
    ));
}
