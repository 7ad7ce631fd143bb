//! Surface registry: capture targets (monitors and windows) with stable
//! string identifiers, id parsing, and resolution of a parsed id against the
//! currently enumerated surfaces.
//!
//! Enumeration itself is a platform capability outside this library; it
//! hands in plain `MonitorInfo` / `WindowInfo` records (and raw pixel
//! buffers for thumbnails), and the registry filters, orders and labels
//! them. Identifiers are stable only for the lifetime of the underlying
//! native handle: re-enumeration may assign different numeric ids.

use vstd::prelude::*;
use vstd::string::*;

use crate::codec::{
    base64_fits, encode_thumbnail, spec_can_encode, spec_frame_data, spec_frame_jpeg,
    THUMBNAIL_JPEG_QUALITY, THUMBNAIL_MAX_WIDTH,
};
use crate::error::Error;
use crate::order::{sort_targets, targets_sorted};
use crate::text::{dec_digits, digit_char, u32_to_dec};

verus! {

/// Kind of capture target.
#[derive(Clone, Copy, PartialEq, Eq, Structural, Debug)]
pub enum TargetKind {
    Monitor,
    Window,
}

/// A capture target (monitor or window) with metadata and optional thumbnail.
pub struct CaptureTarget {
    /// Unique identifier: `monitor:{id}` or `window:{id}`.
    pub id: String,
    /// Type of target.
    pub kind: TargetKind,
    /// Display name: the monitor name, or the window title.
    pub name: String,
    /// For windows: the application name.
    pub app_name: Option<String>,
    /// Base64-encoded JPEG thumbnail.
    pub thumbnail: Option<String>,
    /// Width in pixels.
    pub width: u32,
    /// Height in pixels.
    pub height: u32,
    /// Whether this is the primary monitor (always false for windows).
    pub is_primary: bool,
    /// X position.
    pub x: i32,
    /// Y position.
    pub y: i32,
}

/// A raw RGBA pixel buffer grabbed from a surface.
pub struct RawImage {
    /// RGBA bytes, 4 per pixel, row-major.
    pub pixels: Vec<u8>,
    /// Width in pixels.
    pub width: u32,
    /// Height in pixels.
    pub height: u32,
}

impl RawImage {
    /// The buffer holds exactly its advertised pixels.
    pub open spec fn wf(self) -> bool {
        self.pixels@.len() == 4 * self.width * self.height && self.width >= 1 && self.height >= 1
    }
}

/// One enumerated monitor, as the platform describes it.
pub struct MonitorInfo {
    /// The platform's numeric id for this monitor.
    pub id: u32,
    /// Display name.
    pub name: String,
    /// Width in pixels.
    pub width: u32,
    /// Height in pixels.
    pub height: u32,
    /// X position.
    pub x: i32,
    /// Y position.
    pub y: i32,
    /// Whether the platform reports this as the primary monitor.
    pub is_primary: bool,
    /// A grabbed frame for the thumbnail, when one was requested and the
    /// grab succeeded.
    pub image: Option<RawImage>,
}

/// One enumerated window, as the platform describes it.
pub struct WindowInfo {
    /// The platform's numeric id for this window.
    pub id: u32,
    /// Window title.
    pub title: String,
    /// Name of the owning application.
    pub app_name: String,
    /// Width in pixels.
    pub width: u32,
    /// Height in pixels.
    pub height: u32,
    /// X position.
    pub x: i32,
    /// Y position.
    pub y: i32,
    /// Whether the window is currently minimized.
    pub is_minimized: bool,
    /// A grabbed frame for the thumbnail, when one was requested and the
    /// grab succeeded.
    pub image: Option<RawImage>,
}

// ---------------------------------------------------------------------------
// Target ids
// ---------------------------------------------------------------------------

/// The id prefix of a target kind, separator included.
pub open spec fn kind_prefix(kind: TargetKind) -> Seq<char> {
    match kind {
        TargetKind::Monitor => "monitor:"@,
        TargetKind::Window => "window:"@,
    }
}

/// The id text of a target: its kind's prefix, then its number in decimal.
pub open spec fn spec_target_id(kind: TargetKind, id: u32) -> Seq<char> {
    kind_prefix(kind) + dec_digits(id as nat)
}

/// Render the unique identifier of a target.
pub fn format_target_id(kind: TargetKind, id: u32) -> (r: String)
    ensures
        r@ == spec_target_id(kind, id),
{
    let prefix: &str = match kind {
        TargetKind::Monitor => "monitor:",
        TargetKind::Window => "window:",
    };
    let mut s = prefix.to_owned();
    let digits = u32_to_dec(id);
    s.append(digits.as_str());
    s
}

/// Index of the first `:` at or after position `i`, or -1 if there is none.
pub open spec fn first_colon_from(s: Seq<char>, i: int) -> int
    decreases s.len() - i,
{
    if i < 0 || i >= s.len() {
        -1
    } else if s[i] == ':' {
        i
    } else {
        first_colon_from(s, i + 1)
    }
}

/// Index of the first `:`, or -1 if there is none.
pub open spec fn first_colon(s: Seq<char>) -> int {
    first_colon_from(s, 0)
}

/// Whether a char is a decimal digit.
pub open spec fn is_digit(c: char) -> bool {
    48 <= c as u32 <= 57
}

/// The value of a decimal digit char.
pub open spec fn digit_val(c: char) -> int {
    c as u32 - 48
}

/// Whether every char of a sequence is a decimal digit.
pub open spec fn all_digits(s: Seq<char>) -> bool {
    forall|i: int| 0 <= i < s.len() ==> is_digit(s[i])
}

/// The number a digit sequence denotes, most significant digit first.
pub open spec fn dec_val(s: Seq<char>) -> int
    decreases s.len(),
{
    if s.len() == 0 {
        0
    } else {
        dec_val(s.drop_last()) * 10 + digit_val(s.last())
    }
}

/// Whether a sequence denotes a number that fits the 32-bit id space:
/// non-empty, digits only, value within range.
pub open spec fn valid_number(s: Seq<char>) -> bool {
    s.len() > 0 && all_digits(s) && dec_val(s) <= u32::MAX
}

/// What parsing a target id yields: split at the first `:`; fail without a
/// separator, on a prefix that names no kind, and on a suffix that is not a
/// number within the id space.
pub open spec fn spec_parse_target_id(s: Seq<char>) -> Result<(TargetKind, u32), Error> {
    let ci = first_colon(s);
    if ci < 0 {
        Err(Error::InvalidTargetId)
    } else {
        let prefix = s.subrange(0, ci);
        let suffix = s.subrange(ci + 1, s.len() as int);
        if prefix != "monitor"@ && prefix != "window"@ {
            Err(Error::UnknownTargetKind)
        } else if !valid_number(suffix) {
            Err(Error::InvalidTargetNumber)
        } else if prefix == "monitor"@ {
            Ok((TargetKind::Monitor, dec_val(suffix) as u32))
        } else {
            Ok((TargetKind::Window, dec_val(suffix) as u32))
        }
    }
}

proof fn lemma_dec_digits_are_digits(n: nat)
    ensures
        all_digits(dec_digits(n)),
        dec_digits(n).len() > 0,
    decreases n,
{
    assert(is_digit(digit_char((n % 10) as int)));
    if n < 10 {
        assert(is_digit(digit_char(n as int)));
    } else {
        lemma_dec_digits_are_digits(n / 10);
        let s = dec_digits(n / 10).push(digit_char((n % 10) as int));
        assert forall|i: int| 0 <= i < s.len() implies is_digit(s[i]) by {
            if i < s.len() - 1 {
                assert(s[i] == dec_digits(n / 10)[i]);
            }
        }
    }
}

proof fn lemma_dec_digits_value(n: nat)
    ensures
        dec_val(dec_digits(n)) == n,
    decreases n,
{
    if n < 10 {
        let s = seq![digit_char(n as int)];
        assert(dec_digits(n) == s);
        assert(s.drop_last() =~= Seq::<char>::empty());
        assert(dec_val(s.drop_last()) == 0);
        assert(s.last() == digit_char(n as int));
        assert(digit_val(digit_char(n as int)) == n);
        assert(dec_val(s) == digit_val(s.last()));
    } else {
        lemma_dec_digits_value(n / 10);
        let s = dec_digits(n / 10).push(digit_char((n % 10) as int));
        assert(dec_digits(n) == s);
        assert(s.drop_last() =~= dec_digits(n / 10));
        assert(s.last() == digit_char((n % 10) as int));
        assert(digit_val(digit_char((n % 10) as int)) == n % 10);
        assert(dec_val(s) == dec_val(dec_digits(n / 10)) * 10 + digit_val(s.last()));
        assert(dec_val(s) == (n / 10) * 10 + n % 10);
        vstd::arithmetic::div_mod::lemma_fundamental_div_mod(n as int, 10);
        assert((n / 10) * 10 + n % 10 == n);
    }
}

proof fn lemma_first_colon_from_at(s: Seq<char>, i: int, c: int)
    requires
        0 <= i <= c < s.len(),
        s[c] == ':',
        forall|j: int| i <= j < c ==> s[j] != ':',
    ensures
        first_colon_from(s, i) == c,
    decreases c - i,
{
    if i < c {
        lemma_first_colon_from_at(s, i + 1, c);
    }
}

/// Law: an id the registry renders parses back to exactly its kind and
/// number, so callers may round-trip the ids they are handed (within one
/// enumeration: re-enumeration may renumber the surfaces).
pub proof fn lemma_target_id_round_trip(kind: TargetKind, id: u32)
    ensures
        spec_parse_target_id(spec_target_id(kind, id)) == Ok::<(TargetKind, u32), Error>(
            (kind, id),
        ),
{
    reveal_strlit("monitor:");
    reveal_strlit("window:");
    reveal_strlit("monitor");
    reveal_strlit("window");
    let s = spec_target_id(kind, id);
    let p = kind_prefix(kind);
    let d = dec_digits(id as nat);
    lemma_dec_digits_are_digits(id as nat);
    lemma_dec_digits_value(id as nat);
    let c = p.len() - 1;
    assert(s[c] == ':');
    assert forall|j: int| 0 <= j < c implies s[j] != ':' by {
        assert(s[j] == p[j]);
    }
    lemma_first_colon_from_at(s, 0, c);
    let suffix = s.subrange(c + 1, s.len() as int);
    assert(suffix =~= d);
    assert(valid_number(suffix));
    match kind {
        TargetKind::Monitor => {
            assert(s.subrange(0, c) =~= "monitor"@);
        },
        TargetKind::Window => {
            assert(s.subrange(0, c) =~= "window"@);
            assert("window"@ != "monitor"@);
        },
    }
}

proof fn lemma_dec_val_nonneg(s: Seq<char>)
    requires
        all_digits(s),
    ensures
        dec_val(s) >= 0,
    decreases s.len(),
{
    if s.len() > 0 {
        assert(all_digits(s.drop_last())) by {
            assert(forall|i: int|
                0 <= i < s.len() - 1 ==> s.drop_last()[i] == s[i] && is_digit(s[i]));
        }
        lemma_dec_val_nonneg(s.drop_last());
    }
}

/// A digit sequence denotes at least what any of its prefixes denotes.
proof fn lemma_dec_val_grows(s: Seq<char>, k: int)
    requires
        0 <= k <= s.len(),
        all_digits(s),
    ensures
        dec_val(s) >= dec_val(s.subrange(0, k)),
    decreases s.len() - k,
{
    if k == s.len() {
        assert(s.subrange(0, k) =~= s);
    } else {
        lemma_dec_val_grows(s, k + 1);
        let p = s.subrange(0, k + 1);
        assert(p.drop_last() =~= s.subrange(0, k));
        assert(all_digits(s.subrange(0, k))) by {
            assert(forall|i: int|
                0 <= i < k ==> s.subrange(0, k)[i] == s[i] && is_digit(s[i]));
        }
        lemma_dec_val_nonneg(s.subrange(0, k));
        assert(dec_val(p) == dec_val(s.subrange(0, k)) * 10 + digit_val(s[k]));
    }
}

/// Parse the suffix of a target id: the denoted number, or `None` when the
/// text is not a number in the 32-bit id space.
fn parse_u32_digits(s: &str) -> (r: Option<u32>)
    ensures
        r is Some <==> valid_number(s@),
        r matches Some(v) ==> v == dec_val(s@),
{
    let len = s.unicode_len();
    if len == 0 {
        return None;
    }
    let mut val: u64 = 0;
    let mut i: usize = 0;
    while i < len
        invariant
            len == s@.len(),
            i <= len,
            all_digits(s@.subrange(0, i as int)),
            val == dec_val(s@.subrange(0, i as int)),
            val <= u32::MAX,
        decreases len - i,
    {
        let c = s.get_char(i);
        let u = c as u32;
        if u < 48 || u > 57 {
            proof {
                assert(!is_digit(s@[i as int]));
            }
            return None;
        }
        let d: u64 = (u - 48) as u64;
        let nv: u64 = val * 10 + d;
        proof {
            let pre = s@.subrange(0, (i + 1) as int);
            assert(pre.drop_last() =~= s@.subrange(0, i as int));
            assert(dec_val(pre) == nv);
            assert(all_digits(pre)) by {
                assert(forall|j: int|
                    0 <= j < i + 1 ==> pre[j] == s@[j]);
            }
        }
        if nv > 0xFFFF_FFFFu64 {
            proof {
                if all_digits(s@) {
                    lemma_dec_val_grows(s@, (i + 1) as int);
                }
                assert(!valid_number(s@));
            }
            return None;
        }
        val = nv;
        i = i + 1;
    }
    proof {
        assert(s@.subrange(0, len as int) =~= s@);
    }
    Some(val as u32)
}

/// Parse a target id into its kind and numeric id. Fails with a format
/// error when there is no `:` separator, an unknown-kind error when the
/// prefix is neither `monitor` nor `window`, and a number error when the
/// suffix is not a non-negative integer in the id space.
pub fn parse_target_id(target_id: &str) -> (r: Result<(TargetKind, u32), Error>)
    ensures
        r == spec_parse_target_id(target_id@),
{
    let len = target_id.unicode_len();
    let mut i: usize = 0;
    loop
        invariant
            len == target_id@.len(),
            i <= len,
            first_colon(target_id@) == first_colon_from(target_id@, i as int),
        ensures
            i < len,
            first_colon(target_id@) == i,
        decreases len - i,
    {
        if i >= len {
            return Err(Error::InvalidTargetId);
        }
        let c = target_id.get_char(i);
        if c == ':' {
            break ;
        }
        i = i + 1;
    }
    let prefix = target_id.substring_char(0, i);
    let suffix = target_id.substring_char(i + 1, len);
    let is_monitor = crate::text::str_eq(prefix, "monitor");
    let is_window = crate::text::str_eq(prefix, "window");
    if !is_monitor && !is_window {
        return Err(Error::UnknownTargetKind);
    }
    match parse_u32_digits(suffix) {
        Some(v) => {
            if is_monitor {
                Ok((TargetKind::Monitor, v))
            } else {
                Ok((TargetKind::Window, v))
            }
        },
        None => Err(Error::InvalidTargetNumber),
    }
}

// ---------------------------------------------------------------------------
// Resolution against enumerated surfaces
// ---------------------------------------------------------------------------

/// A resolved capture source: an index into the enumerated monitors or
/// windows it was resolved against.
#[derive(Clone, Copy, PartialEq, Eq, Structural, Debug)]
pub enum ResolvedSource {
    /// Index into the monitor list.
    Monitor(usize),
    /// Index into the window list.
    Window(usize),
}

/// Find the first monitor with the given numeric id.
pub fn resolve_monitor(monitors: &Vec<MonitorInfo>, id: u32) -> (r: Option<usize>)
    ensures
        match r {
            Some(i) => i < monitors@.len() && monitors@[i as int].id == id && forall|j: int|
                0 <= j < i ==> monitors@[j].id != id,
            None => forall|j: int| 0 <= j < monitors@.len() ==> monitors@[j].id != id,
        },
{
    let mut i: usize = 0;
    while i < monitors.len()
        invariant
            i <= monitors@.len(),
            forall|j: int| 0 <= j < i ==> monitors@[j].id != id,
        decreases monitors@.len() - i,
    {
        if monitors[i].id == id {
            return Some(i);
        }
        i = i + 1;
    }
    None
}

/// Find the first window with the given numeric id.
pub fn resolve_window(windows: &Vec<WindowInfo>, id: u32) -> (r: Option<usize>)
    ensures
        match r {
            Some(i) => i < windows@.len() && windows@[i as int].id == id && forall|j: int|
                0 <= j < i ==> windows@[j].id != id,
            None => forall|j: int| 0 <= j < windows@.len() ==> windows@[j].id != id,
        },
{
    let mut i: usize = 0;
    while i < windows.len()
        invariant
            i <= windows@.len(),
            forall|j: int| 0 <= j < i ==> windows@[j].id != id,
        decreases windows@.len() - i,
    {
        if windows[i].id == id {
            return Some(i);
        }
        i = i + 1;
    }
    None
}

/// Find the first primary monitor, or fall back to the first monitor at all.
pub fn resolve_primary_monitor(monitors: &Vec<MonitorInfo>) -> (r: Option<usize>)
    ensures
        match r {
            Some(i) => i < monitors@.len() && if (exists|j: int|
                0 <= j < monitors@.len() && monitors@[j].is_primary) {
                monitors@[i as int].is_primary && forall|j: int|
                    0 <= j < i ==> !monitors@[j].is_primary
            } else {
                i == 0
            },
            None => monitors@.len() == 0,
        },
{
    let mut i: usize = 0;
    while i < monitors.len()
        invariant
            i <= monitors@.len(),
            forall|j: int| 0 <= j < i ==> !monitors@[j].is_primary,
        decreases monitors@.len() - i,
    {
        if monitors[i].is_primary {
            return Some(i);
        }
        i = i + 1;
    }
    if monitors.len() > 0 {
        Some(0)
    } else {
        None
    }
}

/// Resolve a start request's target against the enumerated surfaces:
/// a parsed id picks the first surface of its kind with that number;
/// no target picks the primary monitor, or the first one if none is
/// marked primary. Fails exactly when no surface matches.
pub fn resolve_capture_source(
    target: Option<(TargetKind, u32)>,
    monitors: &Vec<MonitorInfo>,
    windows: &Vec<WindowInfo>,
) -> (r: Result<ResolvedSource, Error>)
    ensures
        match target {
            Some((TargetKind::Monitor, id)) => match r {
                Ok(src) => src matches ResolvedSource::Monitor(i) && i < monitors@.len()
                    && monitors@[i as int].id == id,
                Err(e) => e is TargetNotFound && forall|j: int|
                    0 <= j < monitors@.len() ==> monitors@[j].id != id,
            },
            Some((TargetKind::Window, id)) => match r {
                Ok(src) => src matches ResolvedSource::Window(i) && i < windows@.len()
                    && windows@[i as int].id == id,
                Err(e) => e is TargetNotFound && forall|j: int|
                    0 <= j < windows@.len() ==> windows@[j].id != id,
            },
            None => match r {
                Ok(src) => src matches ResolvedSource::Monitor(i) && i < monitors@.len() && ((
                exists|j: int| 0 <= j < monitors@.len() && monitors@[j].is_primary)
                    ==> monitors@[i as int].is_primary),
                Err(e) => e is TargetNotFound && monitors@.len() == 0,
            },
        },
{
    match target {
        Some((TargetKind::Monitor, id)) => {
            match resolve_monitor(monitors, id) {
                Some(i) => Ok(ResolvedSource::Monitor(i)),
                None => Err(Error::TargetNotFound),
            }
        },
        Some((TargetKind::Window, id)) => {
            match resolve_window(windows, id) {
                Some(i) => Ok(ResolvedSource::Window(i)),
                None => Err(Error::TargetNotFound),
            }
        },
        None => {
            match resolve_primary_monitor(monitors) {
                Some(i) => Ok(ResolvedSource::Monitor(i)),
                None => Err(Error::TargetNotFound),
            }
        },
    }
}

// ---------------------------------------------------------------------------
// Building the registry
// ---------------------------------------------------------------------------

/// Whether a window passes the registry's filters: a title, at least
/// 100x100 pixels, not minimized.
pub open spec fn window_kept(w: WindowInfo) -> bool {
    w.title@.len() > 0 && w.width >= 100 && w.height >= 100 && !w.is_minimized
}

/// The thumbnail text the registry attaches for a grabbed image: the encoded
/// thumbnail when one was requested, grabbed, and encodes; otherwise nothing
/// (a per-surface failure never fails the enumeration).
#[verifier::opaque]
pub open spec fn spec_thumbnail(img: Option<RawImage>, with_thumbs: bool) -> Option<Seq<char>> {
    if with_thumbs {
        match img {
            Some(im) => {
                if im.wf() && spec_can_encode(
                    im.width as int,
                    im.height as int,
                    THUMBNAIL_MAX_WIDTH as int,
                ) && base64_fits(
                    spec_frame_jpeg(
                        im.pixels@,
                        im.width as int,
                        im.height as int,
                        THUMBNAIL_MAX_WIDTH as int,
                        THUMBNAIL_JPEG_QUALITY as int,
                    ).len(),
                ) {
                    Some(
                        spec_frame_data(
                            im.pixels@,
                            im.width as int,
                            im.height as int,
                            THUMBNAIL_MAX_WIDTH as int,
                            THUMBNAIL_JPEG_QUALITY as int,
                        ),
                    )
                } else {
                    None
                }
            },
            None => None,
        }
    } else {
        None
    }
}

/// Whether an attached thumbnail is exactly the specified one.
pub open spec fn thumb_matches(t: Option<String>, q: Option<Seq<char>>) -> bool {
    match (t, q) {
        (Option::Some(s), Option::Some(v)) => s@ == v,
        (Option::None, Option::None) => true,
        _ => false,
    }
}

/// Whether a target is the registry's description of a monitor.
#[verifier::opaque]
pub open spec fn monitor_matches(t: CaptureTarget, m: MonitorInfo, with_thumbs: bool) -> bool {
    &&& t.kind is Monitor
    &&& t.id@ == spec_target_id(TargetKind::Monitor, m.id)
    &&& t.name@ == m.name@
    &&& t.app_name is None
    &&& t.width == m.width
    &&& t.height == m.height
    &&& t.x == m.x
    &&& t.y == m.y
    &&& t.is_primary == m.is_primary
    &&& thumb_matches(t.thumbnail, spec_thumbnail(m.image, with_thumbs))
}

/// Whether a target is the registry's description of a window.
#[verifier::opaque]
pub open spec fn window_matches(t: CaptureTarget, w: WindowInfo, with_thumbs: bool) -> bool {
    &&& t.kind is Window
    &&& t.id@ == spec_target_id(TargetKind::Window, w.id)
    &&& t.name@ == w.title@
    &&& t.app_name matches Some(a) && a@ == w.app_name@
    &&& t.width == w.width
    &&& t.height == w.height
    &&& t.x == w.x
    &&& t.y == w.y
    &&& !t.is_primary
    &&& thumb_matches(t.thumbnail, spec_thumbnail(w.image, with_thumbs))
}

/// What the registry guarantees of every returned target: a window entry is
/// at least 100x100, has a title, and is never marked primary.
pub open spec fn target_wf(t: CaptureTarget) -> bool {
    t.kind is Window ==> (t.width >= 100 && t.height >= 100 && t.name@.len() > 0 && !t.is_primary)
}

fn image_wf_exec(img: &RawImage) -> (r: bool)
    ensures
        r == img.wf(),
{
    proof {
        assert(4 * (img.width as int) * (img.height as int) <= u128::MAX) by (nonlinear_arith)
            requires
                img.width <= u32::MAX,
                img.height <= u32::MAX,
        {
        }
    }
    (img.pixels.len() as u128) == 4u128 * (img.width as u128) * (img.height as u128) && img.width
        >= 1 && img.height >= 1
}

/// Encode the thumbnail for a grabbed image, if any; a failure to encode
/// yields no thumbnail rather than an error.
fn make_thumbnail(img: &Option<RawImage>, with_thumbs: bool) -> (r: Option<String>)
    ensures
        thumb_matches(r, spec_thumbnail(*img, with_thumbs)),
{
    proof {
        reveal(spec_thumbnail);
    }
    if !with_thumbs {
        return None;
    }
    match img {
        Some(im) => {
            if !image_wf_exec(im) {
                return None;
            }
            match encode_thumbnail(&im.pixels, im.width, im.height) {
                Ok(e) => Some(e.data),
                Err(_) => None,
            }
        },
        None => None,
    }
}

/// The registry's description of one monitor.
fn build_monitor_target(m: &MonitorInfo, include_thumbnails: bool) -> (t: CaptureTarget)
    ensures
        monitor_matches(t, *m, include_thumbnails),
{
    proof {
        reveal(monitor_matches);
    }
    CaptureTarget {
        id: format_target_id(TargetKind::Monitor, m.id),
        kind: TargetKind::Monitor,
        name: m.name.clone(),
        app_name: None,
        thumbnail: make_thumbnail(&m.image, include_thumbnails),
        width: m.width,
        height: m.height,
        is_primary: m.is_primary,
        x: m.x,
        y: m.y,
    }
}

/// The registry's description of one window.
fn build_window_target(w: &WindowInfo, include_thumbnails: bool) -> (t: CaptureTarget)
    ensures
        window_matches(t, *w, include_thumbnails),
{
    proof {
        reveal(window_matches);
    }
    CaptureTarget {
        id: format_target_id(TargetKind::Window, w.id),
        kind: TargetKind::Window,
        name: w.title.clone(),
        app_name: Some(w.app_name.clone()),
        thumbnail: make_thumbnail(&w.image, include_thumbnails),
        width: w.width,
        height: w.height,
        is_primary: false,
        x: w.x,
        y: w.y,
    }
}

fn window_kept_exec(w: &WindowInfo) -> (r: bool)
    ensures
        r == window_kept(*w),
{
    !w.title.as_str().is_empty() && w.width >= 100 && w.height >= 100 && !w.is_minimized
}

proof fn lemma_permutation_preserves_all(
    s1: Seq<CaptureTarget>,
    s2: Seq<CaptureTarget>,
    p: spec_fn(CaptureTarget) -> bool,
)
    requires
        s1.to_multiset() == s2.to_multiset(),
        forall|i: int| 0 <= i < s1.len() ==> p(s1[i]),
    ensures
        forall|i: int| 0 <= i < s2.len() ==> p(s2[i]),
{
    assert forall|i: int| 0 <= i < s2.len() implies p(s2[i]) by {
        assert(s2.contains(s2[i]));
        vstd::seq_lib::to_multiset_contains(s2, s2[i]);
        vstd::seq_lib::to_multiset_contains(s1, s2[i]);
        assert(s1.contains(s2[i]));
        let j = choose|j: int| 0 <= j < s1.len() && s1[j] == s2[i];
        assert(p(s1[j]));
    }
}

proof fn lemma_permutation_preserves_exists(
    s1: Seq<CaptureTarget>,
    s2: Seq<CaptureTarget>,
    p: spec_fn(CaptureTarget) -> bool,
)
    requires
        s1.to_multiset() == s2.to_multiset(),
        exists|i: int| 0 <= i < s1.len() && p(s1[i]),
    ensures
        exists|i: int| 0 <= i < s2.len() && p(s2[i]),
{
    let i = choose|i: int| 0 <= i < s1.len() && p(s1[i]);
    assert(s1.contains(s1[i]));
    vstd::seq_lib::to_multiset_contains(s1, s1[i]);
    vstd::seq_lib::to_multiset_contains(s2, s1[i]);
    assert(s2.contains(s1[i]));
    let j = choose|j: int| 0 <= j < s2.len() && s2[j] == s1[i];
    assert(p(s2[j]));
}

/// The windows that pass the registry's filters, in enumeration order.
pub open spec fn kept_windows(ws: Seq<WindowInfo>) -> Seq<WindowInfo>
    decreases ws.len(),
{
    if ws.len() == 0 {
        Seq::empty()
    } else if window_kept(ws.last()) {
        kept_windows(ws.drop_last()).push(ws.last())
    } else {
        kept_windows(ws.drop_last())
    }
}

proof fn lemma_kept_windows_step(ws: Seq<WindowInfo>, k: int)
    requires
        0 <= k < ws.len(),
    ensures
        window_kept(ws[k]) ==> kept_windows(ws.subrange(0, k + 1)) == kept_windows(
            ws.subrange(0, k),
        ).push(ws[k]),
        !window_kept(ws[k]) ==> kept_windows(ws.subrange(0, k + 1)) == kept_windows(
            ws.subrange(0, k),
        ),
{
    let pre = ws.subrange(0, k + 1);
    assert(pre.drop_last() =~= ws.subrange(0, k));
    assert(pre.last() == ws[k]);
}

/// Every kept window comes from the input and passes the filters, and every
/// input window that passes the filters is kept.
proof fn lemma_kept_windows_elems(ws: Seq<WindowInfo>)
    ensures
        forall|j: int|
            0 <= j < kept_windows(ws).len() ==> window_kept(#[trigger] kept_windows(ws)[j])
                && ws.contains(kept_windows(ws)[j]),
        forall|i: int|
            0 <= i < ws.len() && window_kept(#[trigger] ws[i]) ==> kept_windows(ws).contains(
                ws[i],
            ),
    decreases ws.len(),
{
    if ws.len() > 0 {
        let dl = ws.drop_last();
        lemma_kept_windows_elems(dl);
        assert forall|j: int|
            0 <= j < kept_windows(ws).len() implies window_kept(#[trigger] kept_windows(ws)[j])
            && ws.contains(kept_windows(ws)[j]) by {
            if j < kept_windows(dl).len() {
                assert(kept_windows(ws)[j] == kept_windows(dl)[j]);
                let i = choose|i: int| 0 <= i < dl.len() && dl[i] == kept_windows(dl)[j];
                assert(ws[i] == kept_windows(ws)[j]);
            } else {
                assert(kept_windows(ws)[j] == ws.last());
                assert(ws[ws.len() - 1] == ws.last());
            }
        }
        assert forall|i: int|
            0 <= i < ws.len() && window_kept(#[trigger] ws[i]) implies kept_windows(ws).contains(
            ws[i],
        ) by {
            if i < ws.len() - 1 {
                assert(dl[i] == ws[i]);
                let j = choose|j: int|
                    0 <= j < kept_windows(dl).len() && kept_windows(dl)[j] == dl[i];
                assert(kept_windows(ws)[j] == ws[i]);
            } else {
                assert(kept_windows(ws).last() == ws[i]);
            }
        }
    }
}

/// The registry's descriptions of the monitors, in enumeration order.
fn build_monitor_targets(monitors: &Vec<MonitorInfo>, include_thumbnails: bool) -> (r: Vec<
    CaptureTarget,
>)
    ensures
        r@.len() == monitors@.len(),
        forall|j: int|
            0 <= j < monitors@.len() ==> monitor_matches(
                #[trigger] r@[j],
                monitors@[j],
                include_thumbnails,
            ),
{
    let mut out: Vec<CaptureTarget> = Vec::new();
    let mut i: usize = 0;
    while i < monitors.len()
        invariant
            i <= monitors@.len(),
            out@.len() == i,
            forall|j: int|
                0 <= j < i ==> monitor_matches(#[trigger] out@[j], monitors@[j], include_thumbnails),
        decreases monitors@.len() - i,
    {
        let t = build_monitor_target(&monitors[i], include_thumbnails);
        out.push(t);
        i = i + 1;
    }
    out
}

/// The registry's descriptions of the windows that pass the filters.
#[verifier::rlimit(50)]
fn build_window_targets(windows: &Vec<WindowInfo>, include_thumbnails: bool) -> (r: Vec<
    CaptureTarget,
>)
    ensures
        r@.len() == kept_windows(windows@).len(),
        forall|j: int|
            0 <= j < r@.len() ==> window_matches(
                #[trigger] r@[j],
                kept_windows(windows@)[j],
                include_thumbnails,
            ),
{
    let mut out: Vec<CaptureTarget> = Vec::new();
    let mut k: usize = 0;
    while k < windows.len()
        invariant
            k <= windows@.len(),
            out@.len() == kept_windows(windows@.subrange(0, k as int)).len(),
            forall|j: int|
                0 <= j < out@.len() ==> window_matches(
                    #[trigger] out@[j],
                    kept_windows(windows@.subrange(0, k as int))[j],
                    include_thumbnails,
                ),
        decreases windows@.len() - k,
    {
        proof {
            lemma_kept_windows_step(windows@, k as int);
        }
        if window_kept_exec(&windows[k]) {
            let t = build_window_target(&windows[k], include_thumbnails);
            out.push(t);
        }
        k = k + 1;
    }
    proof {
        assert(windows@.subrange(0, windows@.len() as int) =~= windows@);
    }
    out
}

/// Whether a target is the registry's description of some enumerated
/// monitor, or of some enumerated window that passes the filters.
pub open spec fn describes_some_surface(
    t: CaptureTarget,
    monitors: Seq<MonitorInfo>,
    windows: Seq<WindowInfo>,
    with_thumbs: bool,
) -> bool {
    (exists|j: int| 0 <= j < monitors.len() && monitor_matches(t, monitors[j], with_thumbs)) || (
    exists|j: int|
        0 <= j < windows.len() && window_kept(windows[j]) && window_matches(
            t,
            windows[j],
            with_thumbs,
        ))
}

/// Whether some returned target describes this monitor.
pub open spec fn monitor_described(m: MonitorInfo, rs: Seq<CaptureTarget>, with_thumbs: bool) -> bool {
    exists|i: int| 0 <= i < rs.len() && monitor_matches(rs[i], m, with_thumbs)
}

/// Whether some returned target describes this window.
pub open spec fn window_described(w: WindowInfo, rs: Seq<CaptureTarget>, with_thumbs: bool) -> bool {
    exists|i: int| 0 <= i < rs.len() && window_matches(rs[i], w, with_thumbs)
}

/// Enumerate the registry: describe every monitor and every window that
/// passes the filters (a title, at least 100x100 pixels, not minimized),
/// attach thumbnails where requested and possible, and order the result for
/// presentation — monitors (primary first) before windows (grouped by
/// application name, ties broken by title). A per-surface thumbnail failure
/// is swallowed: the surface is returned without a thumbnail. Only the
/// platform's own enumeration can fail, and that happens before this
/// function is handed its surfaces.
#[verifier::rlimit(50)]
pub fn get_all_targets(
    monitors: &Vec<MonitorInfo>,
    windows: &Vec<WindowInfo>,
    include_thumbnails: bool,
) -> (r: Vec<CaptureTarget>)
    ensures
        targets_sorted(r@),
        r@.len() == monitors@.len() + kept_windows(windows@).len(),
        forall|i: int| 0 <= i < r@.len() ==> #[trigger] target_wf(r@[i]),
        forall|i: int|
            0 <= i < r@.len() ==> describes_some_surface(
                #[trigger] r@[i],
                monitors@,
                windows@,
                include_thumbnails,
            ),
        forall|j: int|
            0 <= j < monitors@.len() ==> monitor_described(
                #[trigger] monitors@[j],
                r@,
                include_thumbnails,
            ),
        forall|j: int|
            0 <= j < windows@.len() && window_kept(#[trigger] windows@[j]) ==> window_described(
                windows@[j],
                r@,
                include_thumbnails,
            ),
{
    let mut unsorted = build_monitor_targets(monitors, include_thumbnails);
    let mut wins = build_window_targets(windows, include_thumbnails);
    let ghost mon_part = unsorted@;
    let ghost win_part = wins@;
    unsorted.append(&mut wins);
    let ghost before = unsorted@;
    let r = sort_targets(unsorted);
    proof {
        lemma_kept_windows_elems(windows@);
        let kw = kept_windows(windows@);
        let keep = |t: CaptureTarget|
            describes_some_surface(t, monitors@, windows@, include_thumbnails);
        assert forall|i2: int| 0 <= i2 < before.len() implies keep(before[i2]) by {
            if i2 < mon_part.len() {
                assert(before[i2] == mon_part[i2]);
                assert(monitor_matches(before[i2], monitors@[i2], include_thumbnails));
            } else {
                let jw = i2 - mon_part.len();
                assert(before[i2] == win_part[jw]);
                assert(window_matches(win_part[jw], kw[jw], include_thumbnails));
                assert(windows@.contains(kw[jw]));
                let j = choose|j: int| 0 <= j < windows@.len() && windows@[j] == kw[jw];
                assert(window_kept(windows@[j]));
                assert(window_matches(before[i2], windows@[j], include_thumbnails));
            }
        }
        lemma_permutation_preserves_all(before, r@, keep);
        assert forall|i2: int| 0 <= i2 < r@.len() implies describes_some_surface(
            #[trigger] r@[i2],
            monitors@,
            windows@,
            include_thumbnails,
        ) by {
            assert(keep(r@[i2]));
        }
        assert forall|i2: int| 0 <= i2 < r@.len() implies #[trigger] target_wf(r@[i2]) by {
            reveal(monitor_matches);
            reveal(window_matches);
            assert(keep(r@[i2]));
        }
        assert forall|j: int| 0 <= j < monitors@.len() implies monitor_described(
            #[trigger] monitors@[j],
            r@,
            include_thumbnails,
        ) by {
            let p = |t: CaptureTarget| monitor_matches(t, monitors@[j], include_thumbnails);
            assert(before[j] == mon_part[j]);
            assert(p(before[j]));
            lemma_permutation_preserves_exists(before, r@, p);
            let w = choose|i3: int| 0 <= i3 < r@.len() && p(r@[i3]);
            assert(monitor_matches(r@[w], monitors@[j], include_thumbnails));
        }
        assert forall|j: int|
            0 <= j < windows@.len() && window_kept(#[trigger] windows@[j]) implies window_described(
            windows@[j],
            r@,
            include_thumbnails,
        ) by {
            let p = |t: CaptureTarget| window_matches(t, windows@[j], include_thumbnails);
            assert(kw.contains(windows@[j]));
            let jw = choose|jw: int| 0 <= jw < kw.len() && kw[jw] == windows@[j];
            assert(window_matches(win_part[jw], kw[jw], include_thumbnails));
            assert(before[mon_part.len() + jw] == win_part[jw]);
            assert(p(before[mon_part.len() + jw]));
            lemma_permutation_preserves_exists(before, r@, p);
            let w = choose|i3: int| 0 <= i3 < r@.len() && p(r@[i3]);
            assert(window_matches(r@[w], windows@[j], include_thumbnails));
        }
    }
    r
}

/// Get all available capture targets: the registry over the surfaces the
/// platform enumerated, filtered and in presentation order.
pub fn get_capture_targets(
    monitors: &Vec<MonitorInfo>,
    windows: &Vec<WindowInfo>,
    include_thumbnails: bool,
) -> (r: Vec<CaptureTarget>)
    ensures
        targets_sorted(r@),
        r@.len() == monitors@.len() + kept_windows(windows@).len(),
        forall|i: int| 0 <= i < r@.len() ==> #[trigger] target_wf(r@[i]),
{
    get_all_targets(monitors, windows, include_thumbnails)
}

} // verus!
