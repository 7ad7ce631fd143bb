use screen_capture::codec::EncodedImage;
use screen_capture::error::Error;
use screen_capture::session::{
    frame_is_stale, tick_sleep_ms, DeliveryMode, Session, STALE_AFTER_MS, TARGET_TICK_MS,
};

fn encoded(text: &str, w: u32, h: u32) -> EncodedImage {
    EncodedImage { data: text.to_string(), width: w, height: h }
}

#[test]
fn new_session_is_idle() {
    let s = Session::new();
    assert!(!s.active);
    assert_eq!(s.frame_count, 0);
    assert!(s.selected_target.is_none());
    assert!(!s.stop_signal);
    assert!(s.cached_frame.is_none());
}

#[test]
fn start_arms_a_fresh_generation() {
    let mut s = Session::new();
    let spawn = s.start_capture_stream(Some("monitor:1".to_string()), DeliveryMode::Push);
    assert!(spawn);
    assert!(s.active);
    assert_eq!(s.frame_count, 0);
    assert!(!s.stop_signal);
    assert_eq!(s.selected_target.as_deref(), Some("monitor:1"));
}

#[test]
fn start_on_active_same_target_is_idempotent() {
    let mut s = Session::new();
    assert!(s.start_capture_stream(Some("monitor:1".to_string()), DeliveryMode::Push));
    let f = s.publish_frame(encoded("abc", 8, 8), 1000);
    assert_eq!(f.frame_count, 0);
    assert_eq!(s.frame_count, 1);
    // same target, same delivery model: accepted, nothing reset, no worker
    let spawn = s.start_capture_stream(Some("monitor:1".to_string()), DeliveryMode::Push);
    assert!(!spawn);
    assert!(s.active);
    assert_eq!(s.frame_count, 1, "the counter must not reset");
}

#[test]
fn start_on_active_other_target_restarts() {
    let mut s = Session::new();
    assert!(s.start_capture_stream(None, DeliveryMode::Push));
    s.publish_frame(encoded("abc", 8, 8), 1000);
    let spawn = s.start_capture_stream(Some("window:4".to_string()), DeliveryMode::Push);
    assert!(spawn, "a different target arms a new generation");
    assert_eq!(s.frame_count, 0, "the counter resets at each new start");
    assert_eq!(s.selected_target.as_deref(), Some("window:4"));
}

#[test]
fn start_on_active_other_mode_restarts() {
    let mut s = Session::new();
    assert!(s.start_capture_stream(None, DeliveryMode::Push));
    let spawn = s.start_capture_stream(None, DeliveryMode::Pull);
    assert!(spawn, "a different delivery model arms a new generation");
}

#[test]
fn start_noop_query_matches_the_transition() {
    let mut s = Session::new();
    assert!(!s.start_is_noop_for(&None, DeliveryMode::Push));
    assert!(s.start_capture_stream(None, DeliveryMode::Push));
    assert!(s.start_is_noop_for(&None, DeliveryMode::Push));
    assert!(!s.start_is_noop_for(&Some("monitor:1".to_string()), DeliveryMode::Push));
    assert!(!s.start_is_noop_for(&None, DeliveryMode::Pull));
}

#[test]
fn signal_stop_only_raises_the_flag() {
    let mut s = Session::new();
    s.start_capture_stream(Some("monitor:1".to_string()), DeliveryMode::Push);
    s.publish_frame(encoded("abc", 8, 8), 1000);
    s.signal_stop();
    assert!(s.stop_signal);
    assert!(s.active, "a drain signal does not end the generation");
    assert_eq!(s.frame_count, 1);
    assert_eq!(s.selected_target.as_deref(), Some("monitor:1"));
}

#[test]
fn stop_clears_the_session() {
    let mut s = Session::new();
    s.start_capture_stream(Some("monitor:1".to_string()), DeliveryMode::Pull);
    s.publish_frame(encoded("abc", 8, 8), 1000);
    assert!(s.get_frame().is_ok());
    s.stop_capture();
    assert!(!s.active);
    assert!(s.stop_signal);
    assert!(s.selected_target.is_none());
    let st = s.get_broadcast_status(2000);
    assert!(!st.is_active);
    // pull mode after a stop: no frame yet
    assert!(matches!(s.get_frame(), Err(Error::NoFrameYet)));
}

#[test]
fn stop_on_idle_is_a_noop() {
    let mut s = Session::new();
    s.stop_capture();
    assert!(!s.active);
    assert!(!s.stop_signal, "an idle session has no stop to signal");
}

#[test]
fn pull_delivery_caches_the_newest_frame() {
    let mut s = Session::new();
    s.start_capture_stream(None, DeliveryMode::Pull);
    assert!(matches!(s.get_frame(), Err(Error::NoFrameYet)));
    s.publish_frame(encoded("first", 4, 4), 100);
    s.publish_frame(encoded("second", 4, 4), 200);
    let f = s.get_frame().expect("a frame is cached");
    assert_eq!(f.frame, "second");
    assert_eq!(f.timestamp_ms, 200);
    assert_eq!(f.frame_count, 1);
    assert_eq!(s.frame_count, 2);
}

#[test]
fn push_delivery_caches_nothing() {
    let mut s = Session::new();
    s.start_capture_stream(None, DeliveryMode::Push);
    let f = s.publish_frame(encoded("pushed", 4, 4), 100);
    assert_eq!(f.frame, "pushed");
    assert_eq!(f.frame_count, 0);
    assert!(matches!(s.get_frame(), Err(Error::NoFrameYet)));
    let st = s.get_broadcast_status(200);
    assert!(st.is_stale.is_none());
    assert!(st.frame.is_none());
    assert!(st.timestamp_ms.is_none());
    assert_eq!(st.frame_count, 1);
}

#[test]
fn consumer_closure_stops_the_session() {
    let mut s = Session::new();
    s.start_capture_stream(None, DeliveryMode::Push);
    s.on_consumer_closed();
    assert!(!s.active);
    assert!(s.stop_signal);
    assert!(s.selected_target.is_none());
}

#[test]
fn worker_observes_stop_and_exits() {
    let mut s = Session::new();
    s.start_capture_stream(None, DeliveryMode::Push);
    assert!(s.worker_should_continue());
    s.stop_capture();
    assert!(!s.worker_should_continue());
    s.worker_exited();
    assert!(!s.active);
}

#[test]
fn status_reports_staleness_in_pull_mode() {
    let mut s = Session::new();
    s.start_capture_stream(None, DeliveryMode::Pull);
    let now: u64 = 10_000;
    s.publish_frame(encoded("old", 4, 4), now - 1500);
    let st = s.get_broadcast_status(now);
    assert_eq!(st.is_stale, Some(true), "a frame 1.5s old is stale");
    s.publish_frame(encoded("fresh", 4, 4), now - 200);
    let st = s.get_broadcast_status(now);
    assert_eq!(st.is_stale, Some(false), "a frame 0.2s old is fresh");
    assert_eq!(st.frame.as_deref(), Some("fresh"));
    assert_eq!(st.timestamp_ms, Some(now - 200));
    assert!(st.is_active);
    assert_eq!(st.target_id, None);
}

#[test]
fn staleness_threshold_is_one_second() {
    assert!(!frame_is_stale(10_000, 10_000 - STALE_AFTER_MS));
    assert!(frame_is_stale(10_000, 10_000 - STALE_AFTER_MS - 1));
    assert!(!frame_is_stale(1_000, 5_000), "a frame from the future is not stale");
    assert!(!frame_is_stale(500, u64::MAX - 10));
}

#[test]
fn tick_sleep_holds_the_target_rate() {
    assert_eq!(tick_sleep_ms(TARGET_TICK_MS, 30), 70);
    assert_eq!(tick_sleep_ms(TARGET_TICK_MS, 0), 100);
    assert_eq!(tick_sleep_ms(TARGET_TICK_MS, 100), 0);
    assert_eq!(tick_sleep_ms(TARGET_TICK_MS, 250), 0);
}
