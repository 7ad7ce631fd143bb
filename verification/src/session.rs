//! Capture session engine: one session oscillates between idle and active,
//! owns the per-generation frame counter and stop signal, and routes encoded
//! frames to the configured delivery model (a pull cache of the newest frame,
//! or push delivery of every frame).
//!
//! The session is plain state with verified transitions. The surrounding
//! program owns the worker thread and the shared-memory plumbing: it drives
//! one transition per event (start request, stop request, produced frame,
//! closed consumer, worker exit) and performs the grabs, sends and sleeps
//! the transitions ask for.

use vstd::prelude::*;

use crate::codec::EncodedImage;
use crate::error::Error;

verus! {

/// Frames per second the capture loop aims for.
pub const TARGET_FPS: u64 = 10;

/// Milliseconds of one capture tick at the target frame rate.
pub const TARGET_TICK_MS: u64 = 1000 / TARGET_FPS;

/// A cached frame older than this many milliseconds is reported stale.
pub const STALE_AFTER_MS: u64 = 1000;

/// How a session hands produced frames to its consumer.
#[derive(Clone, Copy, PartialEq, Eq, Structural, Debug)]
pub enum DeliveryMode {
    /// Keep only the newest frame; the consumer polls for it.
    Pull,
    /// Hand every frame to the consumer as it is produced; keep none.
    Push,
}

/// One encoded frame as delivered to a consumer.
pub struct FrameData {
    /// Base64 rendering of the JPEG bitstream.
    pub frame: String,
    /// Capture time, in milliseconds since the epoch.
    pub timestamp_ms: u64,
    /// Width of the encoded image in pixels.
    pub width: u32,
    /// Height of the encoded image in pixels.
    pub height: u32,
    /// Sequence number within the current capture generation, from zero.
    pub frame_count: u64,
}

/// A status record for consumers polling the session.
pub struct BroadcastStatus {
    /// Whether a worker is currently attempting to produce frames.
    pub is_active: bool,
    /// Frames produced in the current generation.
    pub frame_count: u64,
    /// The selected target id; `None` when capturing the primary monitor.
    pub target_id: Option<String>,
    /// Pull delivery with a cached frame: whether that frame is stale.
    pub is_stale: Option<bool>,
    /// Pull delivery with a cached frame: its base64 JPEG text.
    pub frame: Option<String>,
    /// Pull delivery with a cached frame: its capture time.
    pub timestamp_ms: Option<u64>,
}

/// Whether selected targets are the same: both default (primary monitor)
/// or both the same id text.
pub open spec fn target_eq(a: Option<String>, b: Option<String>) -> bool {
    match (a, b) {
        (Option::None, Option::None) => true,
        (Option::Some(x), Option::Some(y)) => x@ == y@,
        _ => false,
    }
}

/// A frame captured at `timestamp_ms` is stale at `now_ms` when more than
/// the freshness threshold has passed.
pub open spec fn spec_is_stale(now_ms: u64, timestamp_ms: u64) -> bool {
    now_ms > timestamp_ms + STALE_AFTER_MS
}

/// Whether a cached frame's age exceeds the freshness threshold, suggesting
/// the producer has stalled or the consumer polls slower than production.
pub fn frame_is_stale(now_ms: u64, timestamp_ms: u64) -> (r: bool)
    ensures
        r == spec_is_stale(now_ms, timestamp_ms),
{
    if timestamp_ms <= u64::MAX - STALE_AFTER_MS {
        now_ms > timestamp_ms + STALE_AFTER_MS
    } else {
        false
    }
}

/// How long to sleep after a tick so that ticks hold the target rate:
/// the remainder of the tick budget, or nothing if the tick ran over.
pub fn tick_sleep_ms(target_tick_ms: u64, elapsed_ms: u64) -> (r: u64)
    ensures
        elapsed_ms < target_tick_ms ==> r == target_tick_ms - elapsed_ms,
        elapsed_ms >= target_tick_ms ==> r == 0,
{
    if elapsed_ms < target_tick_ms {
        target_tick_ms - elapsed_ms
    } else {
        0
    }
}

/// The capture session: the one authoritative record of whether capture is
/// running, what it targets, how it delivers, and how far it has counted.
pub struct Session {
    /// True iff a worker loop is attempting to produce frames.
    pub active: bool,
    /// Frames produced in the current generation; reset at each start.
    pub frame_count: u64,
    /// The selected target id; `None` means the primary monitor.
    pub selected_target: Option<String>,
    /// Broadcast flag telling the current worker to exit; latest value wins.
    pub stop_signal: bool,
    /// The delivery model of the current generation.
    pub mode: DeliveryMode,
    /// Pull delivery: the newest produced frame, if any.
    pub cached_frame: Option<FrameData>,
}

impl Session {
    /// Internal consistency: only an active pull session retains a frame.
    pub open spec fn wf(self) -> bool {
        &&& (!self.active ==> self.cached_frame is None)
        &&& (self.mode is Push ==> self.cached_frame is None)
    }

    /// The state a start request arms: a fresh generation, counter at zero,
    /// stop signal lowered, no retained frame.
    pub open spec fn spec_start(self, target: Option<String>, mode: DeliveryMode) -> Session {
        Session {
            active: true,
            frame_count: 0,
            selected_target: target,
            stop_signal: false,
            mode,
            cached_frame: None,
        }
    }

    /// The state a stop request leaves: inactive with the stop signal raised,
    /// target and cache cleared; a stop on an idle session changes nothing.
    pub open spec fn spec_stop(self) -> Session {
        if !self.active {
            self
        } else {
            Session {
                active: false,
                frame_count: self.frame_count,
                selected_target: None,
                stop_signal: true,
                mode: self.mode,
                cached_frame: None,
            }
        }
    }

    /// Whether a start request for `target` finds this session already
    /// running the same capture and may answer without a new worker.
    pub open spec fn start_is_noop(self, target: Option<String>, mode: DeliveryMode) -> bool {
        self.active && self.mode == mode && target_eq(self.selected_target, target)
    }

    /// A fresh, idle session.
    pub fn new() -> (s: Session)
        ensures
            !s.active,
            s.frame_count == 0,
            s.selected_target is None,
            !s.stop_signal,
            s.mode is Pull,
            s.cached_frame is None,
            s.wf(),
    {
        Session {
            active: false,
            frame_count: 0,
            selected_target: None,
            stop_signal: false,
            mode: DeliveryMode::Pull,
            cached_frame: None,
        }
    }

    /// Whether a start request for this target and delivery model would find
    /// the same capture already running and change nothing.
    pub fn start_is_noop_for(&self, target_id: &Option<String>, mode: DeliveryMode) -> (r: bool)
        ensures
            r == self.start_is_noop(*target_id, mode),
    {
        let same_target = match (&self.selected_target, target_id) {
            (Option::None, Option::None) => true,
            (Option::Some(a), Option::Some(b)) => crate::text::str_eq(a.as_str(), b.as_str()),
            _ => false,
        };
        self.active && self.mode == mode && same_target
    }

    /// Raise the stop signal and nothing else: how a restart tells any
    /// previous worker to drain before the new generation is armed.
    pub fn signal_stop(&mut self)
        ensures
            final(self).stop_signal,
            final(self).active == old(self).active,
            final(self).frame_count == old(self).frame_count,
            final(self).selected_target == old(self).selected_target,
            final(self).mode == old(self).mode,
            final(self).cached_frame == old(self).cached_frame,
            old(self).wf() ==> final(self).wf(),
    {
        self.stop_signal = true;
    }

    /// Handle a start request: idempotent when the same capture is already
    /// running (the counter is not reset and no second worker is asked for);
    /// otherwise arm a fresh generation. Returns whether the caller must
    /// spawn a worker for the new generation.
    pub fn start_capture_stream(&mut self, target_id: Option<String>, mode: DeliveryMode) -> (spawn:
        bool)
        ensures
            old(self).start_is_noop(target_id, mode) ==> !spawn && *final(self) == *old(self),
            !old(self).start_is_noop(target_id, mode) ==> spawn && *final(self) == old(
                self,
            ).spec_start(target_id, mode),
            old(self).wf() ==> final(self).wf(),
    {
        if self.start_is_noop_for(&target_id, mode) {
            return false;
        }
        self.active = true;
        self.frame_count = 0;
        self.selected_target = target_id;
        self.stop_signal = false;
        self.mode = mode;
        self.cached_frame = None;
        true
    }

    /// Handle a stop request: mark the session inactive first (so a racing
    /// start cannot mistake the old generation for a running one), raise the
    /// stop signal, clear the target and any retained frame. A stop on an
    /// idle session is a no-op success.
    pub fn stop_capture(&mut self)
        ensures
            *final(self) == old(self).spec_stop(),
            old(self).wf() ==> final(self).wf(),
    {
        if !self.active {
            return ;
        }
        self.active = false;
        self.stop_signal = true;
        self.selected_target = None;
        self.cached_frame = None;
    }

    /// Worker tick, first step: keep looping only while the stop signal
    /// stays lowered.
    pub fn worker_should_continue(&self) -> (r: bool)
        ensures
            r == !self.stop_signal,
    {
        !self.stop_signal
    }

    /// Worker tick, delivery step: stamp the encoded image with the capture
    /// time and its sequence number, count it, and in pull mode retain it as
    /// the newest frame (overwriting the previous one). The returned frame is
    /// what push delivery hands to the consumer.
    pub fn publish_frame(&mut self, encoded: EncodedImage, timestamp_ms: u64) -> (f: FrameData)
        requires
            old(self).active,
            old(self).frame_count < u64::MAX,
        ensures
            f.frame == encoded.data,
            f.timestamp_ms == timestamp_ms,
            f.width == encoded.width,
            f.height == encoded.height,
            f.frame_count == old(self).frame_count,
            final(self).frame_count == old(self).frame_count + 1,
            final(self).active == old(self).active,
            final(self).stop_signal == old(self).stop_signal,
            final(self).selected_target == old(self).selected_target,
            final(self).mode == old(self).mode,
            old(self).mode is Pull ==> final(self).cached_frame == Some(f),
            old(self).mode is Push ==> final(self).cached_frame == old(self).cached_frame,
            old(self).wf() ==> final(self).wf(),
    {
        let f = FrameData {
            frame: encoded.data,
            timestamp_ms,
            width: encoded.width,
            height: encoded.height,
            frame_count: self.frame_count,
        };
        match self.mode {
            DeliveryMode::Pull => {
                let copy = FrameData {
                    frame: f.frame.clone(),
                    timestamp_ms: f.timestamp_ms,
                    width: f.width,
                    height: f.height,
                    frame_count: f.frame_count,
                };
                self.cached_frame = Some(copy);
            },
            DeliveryMode::Push => {},
        }
        self.frame_count = self.frame_count + 1;
        f
    }

    /// Push delivery reported the consumer gone: that is the cancellation
    /// signal for the whole session, equivalent to a stop request.
    pub fn on_consumer_closed(&mut self)
        ensures
            *final(self) == old(self).spec_stop(),
            old(self).wf() ==> final(self).wf(),
    {
        self.stop_capture();
    }

    /// The worker observed the stop signal and exited its loop: on this
    /// natural exit it records that no worker is producing frames.
    pub fn worker_exited(&mut self)
        ensures
            !final(self).active,
            final(self).frame_count == old(self).frame_count,
            final(self).selected_target == old(self).selected_target,
            final(self).stop_signal == old(self).stop_signal,
            final(self).mode == old(self).mode,
            final(self).cached_frame == old(self).cached_frame,
            old(self).wf() && old(self).cached_frame is None ==> final(self).wf(),
    {
        self.active = false;
    }

    /// Pull delivery: the newest frame, or `NoFrameYet` when nothing is
    /// retained (never captured, or cleared by a stop).
    pub fn get_frame(&self) -> (r: Result<&FrameData, Error>)
        ensures
            match self.cached_frame {
                Some(f) => r matches Ok(g) && *g == f,
                None => r matches Err(e) && e is NoFrameYet,
            },
    {
        match &self.cached_frame {
            Some(f) => Ok(f),
            None => Err(Error::NoFrameYet),
        }
    }

    /// A well-formed status record, readable at any time: activity and count
    /// always; staleness, frame text and capture time only in pull delivery
    /// with a retained frame.
    pub fn get_broadcast_status(&self, now_ms: u64) -> (st: BroadcastStatus)
        ensures
            st.is_active == self.active,
            st.frame_count == self.frame_count,
            st.target_id == self.selected_target,
            self.mode is Push ==> st.is_stale is None && st.frame is None && st.timestamp_ms
                is None,
            self.mode is Pull ==> match self.cached_frame {
                Some(f) => st.is_stale == Some(spec_is_stale(now_ms, f.timestamp_ms)) && st.frame
                    == Some(f.frame) && st.timestamp_ms == Some(f.timestamp_ms),
                None => st.is_stale is None && st.frame is None && st.timestamp_ms is None,
            },
    {
        let target_id: Option<String> = match &self.selected_target {
            Some(t) => Some(t.clone()),
            None => None,
        };
        let mut is_stale: Option<bool> = None;
        let mut frame: Option<String> = None;
        let mut timestamp_ms: Option<u64> = None;
        match self.mode {
            DeliveryMode::Pull => {
                match &self.cached_frame {
                    Some(f) => {
                        is_stale = Some(frame_is_stale(now_ms, f.timestamp_ms));
                        frame = Some(f.frame.clone());
                        timestamp_ms = Some(f.timestamp_ms);
                    },
                    None => {},
                }
            },
            DeliveryMode::Push => {},
        }
        BroadcastStatus {
            is_active: self.active,
            frame_count: self.frame_count,
            target_id,
            is_stale,
            frame,
            timestamp_ms,
        }
    }
}

/// Law: a stop always leaves the session reporting inactive, and (on a
/// well-formed session) leaves pull consumers an empty frame cache, so a
/// subsequent frame poll answers `NoFrameYet`.
pub proof fn lemma_stop_leaves_idle(s: Session)
    requires
        s.wf(),
    ensures
        !s.spec_stop().active,
        s.spec_stop().cached_frame is None,
        s.spec_stop().wf(),
{
}

/// Law: arming a new generation resets the counter and the cache whatever
/// came before, and records exactly the requested target and delivery model.
pub proof fn lemma_start_resets_generation(s: Session, target: Option<String>, mode: DeliveryMode)
    ensures
        s.spec_start(target, mode).active,
        s.spec_start(target, mode).frame_count == 0,
        s.spec_start(target, mode).cached_frame is None,
        !s.spec_start(target, mode).stop_signal,
        s.spec_start(target, mode).selected_target == target,
        s.spec_start(target, mode).mode == mode,
        s.spec_start(target, mode).wf(),
{
}

} // verus!
