//! End to end over the library's own seams: resolve a default target on a
//! one-monitor machine, run one worker tick by hand, and read the frame back
//! as a pull consumer would.

use base64::Engine;
use screen_capture::codec::{encode_frame, LIVE_JPEG_QUALITY, LIVE_MAX_WIDTH};
use screen_capture::session::{DeliveryMode, Session, TARGET_TICK_MS};
use screen_capture::targets::{resolve_capture_source, MonitorInfo, ResolvedSource};

#[test]
fn one_tick_end_to_end() {
    // one 2560x1440 monitor, reported primary
    let monitors = vec![MonitorInfo {
        id: 1,
        name: "eDP-1".to_string(),
        width: 2560,
        height: 1440,
        x: 0,
        y: 0,
        is_primary: true,
        image: None,
    }];

    // start with no target: the primary monitor is selected
    let src = resolve_capture_source(None, &monitors, &vec![]).expect("a monitor resolves");
    let ResolvedSource::Monitor(mi) = src else {
        panic!("the default target is a monitor");
    };
    assert_eq!(mi, 0);

    let mut session = Session::new();
    let spawn = session.start_capture_stream(None, DeliveryMode::Pull);
    assert!(spawn, "an idle session spawns a worker");

    // worker tick: grab (synthesized here), encode, deliver
    assert!(session.worker_should_continue());
    let w = monitors[mi].width;
    let h = monitors[mi].height;
    let mut pixels = Vec::with_capacity((w as usize) * (h as usize) * 4);
    for _ in 0..(w as usize) * (h as usize) {
        pixels.extend_from_slice(&[120u8, 90u8, 60u8, 255u8]);
    }
    let tick_start_ms: u64 = 50_000;
    let encoded = encode_frame(&pixels, w, h, LIVE_MAX_WIDTH, LIVE_JPEG_QUALITY).expect("encodes");
    session.publish_frame(encoded, tick_start_ms);

    // within one tick of starting, the counter has moved and a frame is up
    assert!(session.frame_count >= 1);
    let f = session.get_frame().expect("a frame is available");
    assert!(!f.frame.is_empty());
    assert_eq!(f.width, 1280);
    assert_eq!(f.height, 720, "2560x1440 downscales to 1280x720");

    // the frame is a decodable compressed image at the downscaled size
    let jpeg = base64::engine::general_purpose::STANDARD.decode(&f.frame).expect("valid base64");
    let img = image::load_from_memory(&jpeg).expect("decodable image");
    assert_eq!((img.width(), img.height()), (1280, 720));

    // a poll within the same tick sees a fresh, active session
    let st = session.get_broadcast_status(tick_start_ms + TARGET_TICK_MS);
    assert!(st.is_active);
    assert_eq!(st.frame_count, 1);
    assert_eq!(st.is_stale, Some(false));
}
