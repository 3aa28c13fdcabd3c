//! When a frame is worth sending, and what sending it changes.
use crate::calibration::CalibrationPattern;
use crate::calibration::ScreenRegion;
use crate::calibration::calibration_perimeter_colors;
use crate::calibration::calibration_zone_colors;
use crate::color::RgbColor;
use crate::color::copy_channels;
use crate::color::copy_colors;
use crate::config::LightZone;
use crate::daemon::SECOND;
use crate::daemon::elapsed_since;
use crate::web::SharedState;
use vstd::prelude::*;

verus! {

/// How long an unchanged picture goes unsent: every output is refreshed twice a
/// second at least.
pub const HEARTBEAT_INTERVAL: u64 = 500_000_000;

/// How far a component of a Hue colour may move before the change is worth
/// sending.
pub const HUE_DEADBAND: u16 = 350;

/// Two components that are closer than the deadband.
pub open spec fn close(left: u16, right: u16) -> bool {
    -HUE_DEADBAND < left - right < HUE_DEADBAND
}

/// Two channels whose colours are closer than the deadband.
pub open spec fn close_channels(left: (u8, (u16, u16, u16)), right: (u8, (u16, u16, u16))) -> bool {
    &&& close(left.1.0, right.1.0)
    &&& close(left.1.1, right.1.1)
    &&& close(left.1.2, right.1.2)
}

/// Two frames of Hue channels that look the same. Nothing looks like an empty
/// frame.
pub open spec fn virtually_identical(
    left: Seq<(u8, (u16, u16, u16))>,
    right: Seq<(u8, (u16, u16, u16))>,
) -> bool {
    &&& left.len() > 0
    &&& left.len() == right.len()
    &&& forall|i: int|
        0 <= i < left.len() ==> #[trigger] close_channels(left[i], right[i])
}

fn is_close(left: u16, right: u16) -> (yes: bool)
    ensures
        yes == close(left, right),
{
    if left >= right {
        left - right < HUE_DEADBAND
    } else {
        right - left < HUE_DEADBAND
    }
}

/// Whether two frames of Hue channels look the same.
pub fn is_virtually_identical(
    left: &[(u8, (u16, u16, u16))],
    right: &[(u8, (u16, u16, u16))],
) -> (yes: bool)
    ensures
        yes == virtually_identical(left@, right@),
{
    if left.len() == 0 || left.len() != right.len() {
        return false;
    }
    for i in 0..left.len()
        invariant
            left@.len() == right@.len(),
            forall|k: int|
                0 <= k < i ==> #[trigger] close_channels(left@[k], right@[k]),
    {
        let (a1, a2, a3): (u16, u16, u16) = left[i].1;
        let (b1, b2, b3): (u16, u16, u16) = right[i].1;
        let same = is_close(a1, b1) && is_close(a2, b2) && is_close(a3, b3);
        assert(same == close_channels(left@[i as int], right@[i as int]));
        if !same {
            return false;
        }
    }
    true
}

/// How the colours of a frame are written for the bridge. A calibration pattern
/// is shown as it is.
#[derive(Debug, Clone, Copy, PartialEq, Eq, Structural)]
pub struct HueEncoding {
    /// Scale the colours with the Hue gain.
    pub scaled: bool,
    /// Write CIE coordinates in place of RGB.
    pub xy: bool,
}

/// How to write the colours of a frame for the bridge.
pub fn hue_encoding(calibration: Option<CalibrationPattern>, use_xy: bool) -> (encoding: HueEncoding)
    ensures
        encoding == (HueEncoding {
            scaled: calibration is None,
            xy: calibration is None && use_xy,
        }),
{
    match calibration {
        Some(_) => HueEncoding { scaled: false, xy: false },
        None => HueEncoding { scaled: true, xy: use_xy },
    }
}

/// The colours of the Hue zones in a frame.
pub open spec fn zone_frame(
    calibration: Option<CalibrationPattern>,
    sampled: Seq<(u8, RgbColor)>,
    zones: Seq<LightZone>,
    centers: Seq<ScreenRegion>,
) -> Seq<(u8, RgbColor)> {
    match calibration {
        Some(pattern) => Seq::new(
            zones.len(),
            |i: int| (zones[i].channel_id, crate::calibration::shown(pattern, centers[i])),
        ),
        None => sampled,
    }
}

/// The colours for the Hue zones of a frame: those of the calibration pattern
/// while one is shown, and those that were sampled otherwise. They are shown on
/// the dashboard too.
pub fn hue_frame(
    shared: &mut SharedState,
    sampled: Vec<(u8, RgbColor)>,
    zones: &[LightZone],
    centers: &[ScreenRegion],
) -> (colors: Vec<(u8, RgbColor)>)
    requires
        centers@.len() == zones@.len(),
    ensures
        final(shared)@ == old(shared)@.after(
            crate::status::StatusStep::HueFrame {
                sampled: sampled@,
                zones: zones@,
                centers: centers@,
            },
        ),
        colors@ == zone_frame(old(shared).calibration_pattern, sampled@, zones@, centers@),
        final(shared).live_hue_colors@ == colors@,
        *final(shared) == (SharedState {
            live_hue_colors: final(shared).live_hue_colors,
            ..*old(shared)
        }),
{
    let colors = match shared.calibration_pattern {
        Some(pattern) => calibration_zone_colors(pattern, zones, centers),
        None => sampled,
    };
    shared.live_hue_colors = copy_channels(&colors);
    colors
}

/// The colours of a perimeter in a frame.
pub open spec fn perimeter_frame(
    calibration: Option<CalibrationPattern>,
    sampled: Seq<RgbColor>,
    active_segment: nat,
) -> Seq<RgbColor> {
    match calibration {
        Some(pattern) => Seq::new(
            sampled.len(),
            |i: int|
                crate::calibration::segment_color(
                    pattern,
                    i as nat,
                    sampled.len(),
                    active_segment,
                ),
        ),
        None => sampled,
    }
}

fn perimeter_colors(
    calibration: Option<CalibrationPattern>,
    sampled: Vec<RgbColor>,
    active_segment: usize,
) -> (colors: Vec<RgbColor>)
    ensures
        colors@ == perimeter_frame(calibration, sampled@, active_segment as nat),
{
    match calibration {
        Some(pattern) => calibration_perimeter_colors(pattern, sampled.len(), active_segment),
        None => sampled,
    }
}

/// The colours for the Nanoleaf strip in a frame: those of the calibration
/// pattern while one is shown, and those that were sampled otherwise. They are
/// shown on the dashboard too, where the strip counts as connected from now on.
pub fn nanoleaf_frame(shared: &mut SharedState, sampled: Vec<RgbColor>, active_segment: usize) -> (colors:
    Vec<RgbColor>)
    ensures
        final(shared)@ == old(shared)@.after(
            crate::status::StatusStep::NanoleafFrame {
                sampled: sampled@,
                active_segment: active_segment as nat,
            },
        ),
        colors@ == perimeter_frame(
            old(shared).calibration_pattern,
            sampled@,
            active_segment as nat,
        ),
        final(shared).live_nanoleaf_colors@ == colors@,
        *final(shared) == (SharedState {
            live_nanoleaf_colors: final(shared).live_nanoleaf_colors,
            nanoleaf_connected: true,
            ..*old(shared)
        }),
{
    let colors = perimeter_colors(shared.calibration_pattern, sampled, active_segment);
    shared.live_nanoleaf_colors = copy_colors(&colors);
    shared.nanoleaf_connected = true;
    colors
}

/// The colours for the WLED strip in a frame: those of the calibration pattern
/// while one is shown, and those that were sampled otherwise. They are shown on
/// the dashboard too.
pub fn wled_frame(shared: &mut SharedState, sampled: Vec<RgbColor>, active_segment: usize) -> (colors:
    Vec<RgbColor>)
    ensures
        final(shared)@ == old(shared)@.after(
            crate::status::StatusStep::WledFrame {
                sampled: sampled@,
                active_segment: active_segment as nat,
            },
        ),
        colors@ == perimeter_frame(
            old(shared).calibration_pattern,
            sampled@,
            active_segment as nat,
        ),
        final(shared).live_wled_colors@ == colors@,
        *final(shared) == (SharedState {
            live_wled_colors: final(shared).live_wled_colors,
            ..*old(shared)
        }),
{
    let colors = perimeter_colors(shared.calibration_pattern, sampled, active_segment);
    shared.live_wled_colors = copy_colors(&colors);
    colors
}

/// Keeps frames that look the same away from the bridge.
pub struct HueThrottle {
    /// The channels of the last frame that was sent.
    pub last_channels: Vec<(u8, (u16, u16, u16))>,
    /// How many frames in a row looked like it.
    pub static_frame_count: u32,
    pub last_heartbeat: u64,
}

/// A frame that is held back unless it changed or a heartbeat is due.
pub open spec fn worth_sending(adaptive: bool, changed: bool, now: u64, last_heartbeat: u64) -> bool {
    !adaptive || changed || crate::daemon::elapsed(now, last_heartbeat) >= HEARTBEAT_INTERVAL
}

/// When the last heartbeat was, once a frame has been sent or held back.
pub open spec fn heartbeat_after(adaptive: bool, changed: bool, now: u64, last_heartbeat: u64) -> u64 {
    if worth_sending(adaptive, changed, now, last_heartbeat) {
        now
    } else {
        last_heartbeat
    }
}

impl HueThrottle {
    pub fn new(now: u64) -> (throttle: Self)
        ensures
            throttle.last_channels@.len() == 0,
            throttle.static_frame_count == 0,
            throttle.last_heartbeat == now,
    {
        HueThrottle { last_channels: Vec::new(), static_frame_count: 0, last_heartbeat: now }
    }

    /// Whether to send a frame. Without throttling every frame is sent.
    pub fn should_send(
        &mut self,
        adaptive_throttling: bool,
        channels: &[(u8, (u16, u16, u16))],
        now: u64,
    ) -> (send: bool)
        ensures
            ({
                let before = *old(self);
                let same = virtually_identical(before.last_channels@, channels@);
                &&& send == worth_sending(adaptive_throttling, !same, now, before.last_heartbeat)
                &&& *final(self) == (HueThrottle {
                    static_frame_count: if !adaptive_throttling {
                        before.static_frame_count
                    } else if !same {
                        0
                    } else if before.static_frame_count < u32::MAX {
                        (before.static_frame_count + 1) as u32
                    } else {
                        u32::MAX
                    },
                    last_heartbeat: if adaptive_throttling {
                        heartbeat_after(true, !same, now, before.last_heartbeat)
                    } else {
                        before.last_heartbeat
                    },
                    ..before
                })
            }),
    {
        if !adaptive_throttling {
            return true;
        }
        if is_virtually_identical(&self.last_channels, channels) {
            self.static_frame_count = self.static_frame_count.saturating_add(1);
            if elapsed_since(now, self.last_heartbeat) >= HEARTBEAT_INTERVAL {
                self.last_heartbeat = now;
                true
            } else {
                false
            }
        } else {
            self.static_frame_count = 0;
            self.last_heartbeat = now;
            true
        }
    }

    /// Remembers a frame that was to be sent, whether or not that worked.
    pub fn remember(&mut self, channels: Vec<(u8, (u16, u16, u16))>)
        ensures
            *final(self) == (HueThrottle { last_channels: channels, ..*old(self) }),
    {
        self.last_channels = channels;
    }
}

/// Keeps frames that look the same away from a perimeter strip.
pub struct PerimeterThrottle {
    /// The colours of the last frame that arrived.
    pub last_colors: Vec<RgbColor>,
    pub last_heartbeat: u64,
}

impl PerimeterThrottle {
    pub fn new(now: u64) -> (throttle: Self)
        ensures
            throttle.last_colors@.len() == 0,
            throttle.last_heartbeat == now,
    {
        PerimeterThrottle { last_colors: Vec::new(), last_heartbeat: now }
    }

    /// Whether to send a frame. `changed` says whether it looks different from
    /// the last one that arrived.
    pub fn should_send(&mut self, adaptive_throttling: bool, changed: bool, now: u64) -> (send: bool)
        ensures
            send == worth_sending(adaptive_throttling, changed, now, old(self).last_heartbeat),
            *final(self) == (PerimeterThrottle {
                last_heartbeat: heartbeat_after(
                    adaptive_throttling,
                    changed,
                    now,
                    old(self).last_heartbeat,
                ),
                ..*old(self)
            }),
    {
        if !adaptive_throttling || changed || elapsed_since(now, self.last_heartbeat)
            >= HEARTBEAT_INTERVAL {
            self.last_heartbeat = now;
            true
        } else {
            false
        }
    }

    /// Remembers a frame that arrived.
    pub fn remember(&mut self, colors: Vec<RgbColor>)
        ensures
            *final(self) == (PerimeterThrottle { last_colors: colors, ..*old(self) }),
    {
        self.last_colors = colors;
    }
}

/// How sending a frame ended.
#[derive(Debug, Clone, Copy, PartialEq, Eq, Structural)]
pub enum SendOutcome {
    Sent,
    /// It failed, and it is too early to open a new session.
    Failed,
    /// It failed, and a new session is open.
    Reopened,
    /// It failed, and no new session could be opened.
    ReopenFailed,
}

/// What came of a frame for a session, before a new one was opened.
#[derive(Debug, Clone, Copy, PartialEq, Eq, Structural)]
pub enum Sending {
    /// It was not worth sending, or there was nothing to sample it with.
    Held,
    Sent,
    /// It failed; `ready` says whether a new session may be tried already.
    Failed { ready: bool },
}

/// The outcome of a frame that was to be sent. A new session is tried only
/// after sending failed, and only once its retry delay is over.
pub open spec fn outcome_of(sent: bool, ready: bool, reopened: bool) -> SendOutcome {
    if sent {
        SendOutcome::Sent
    } else if !ready {
        SendOutcome::Failed
    } else if reopened {
        SendOutcome::Reopened
    } else {
        SendOutcome::ReopenFailed
    }
}

/// The outcome of a frame that was to be sent.
pub fn send_outcome(sent: bool, ready: bool, reopened: bool) -> (outcome: SendOutcome)
    ensures
        outcome == outcome_of(sent, ready, reopened),
{
    if sent {
        SendOutcome::Sent
    } else if !ready {
        SendOutcome::Failed
    } else if reopened {
        SendOutcome::Reopened
    } else {
        SendOutcome::ReopenFailed
    }
}

/// The outcome of `sending`, if no new session is to be tried first.
pub open spec fn settled(sending: Sending) -> Option<SendOutcome> {
    match sending {
        Sending::Held => None,
        Sending::Sent => Some(outcome_of(true, false, false)),
        Sending::Failed { ready } => if ready {
            None
        } else {
            Some(outcome_of(false, false, false))
        },
    }
}

/// The outcome of `sending`, if no new session is to be tried first.
pub fn settle(sending: Sending) -> (outcome: Option<SendOutcome>)
    ensures
        outcome == settled(sending),
{
    match sending {
        Sending::Held => None,
        Sending::Sent => Some(send_outcome(true, false, false)),
        Sending::Failed { ready } => if ready {
            None
        } else {
            Some(send_outcome(false, false, false))
        },
    }
}

/// Whether a frame is a scene cut: the zone sampler knows, and where it did not
/// see the frame, the watch over the perimeter does.
pub open spec fn is_cut(hue: Option<bool>, perimeter: bool) -> bool {
    match hue {
        Some(cut) => cut,
        None => perimeter,
    }
}

/// Whether a frame is a scene cut, by what the zone sampler and the watch over
/// the perimeter found.
pub fn scene_cut(hue: Option<bool>, perimeter: bool) -> (cut: bool)
    ensures
        cut == is_cut(hue, perimeter),
{
    match hue {
        Some(cut) => cut,
        None => perimeter,
    }
}

/// What a session's retry delay learns from sending a frame.
#[derive(Debug, Clone, Copy, PartialEq, Eq, Structural)]
pub enum RetryNote {
    Nothing,
    Success,
    Failure,
}

/// What a retry delay learns from an outcome.
pub open spec fn retry_note(outcome: SendOutcome) -> RetryNote {
    match outcome {
        SendOutcome::Sent | SendOutcome::Reopened => RetryNote::Success,
        SendOutcome::Failed => RetryNote::Nothing,
        SendOutcome::ReopenFailed => RetryNote::Failure,
    }
}

/// What sending a frame means for the loop.
#[derive(Debug, Clone, Copy, PartialEq, Eq, Structural)]
pub struct SendReport {
    pub retry: RetryNote,
    /// The lights show the frame.
    pub emitted: bool,
}

fn report(outcome: SendOutcome) -> (report: SendReport)
    ensures
        report == (SendReport {
            retry: retry_note(outcome),
            emitted: outcome == SendOutcome::Sent,
        }),
{
    match outcome {
        SendOutcome::Sent => SendReport { retry: RetryNote::Success, emitted: true },
        SendOutcome::Failed => SendReport { retry: RetryNote::Nothing, emitted: false },
        SendOutcome::Reopened => SendReport { retry: RetryNote::Success, emitted: false },
        SendOutcome::ReopenFailed => SendReport { retry: RetryNote::Failure, emitted: false },
    }
}

/// Takes in how sending to Hue ended.
pub fn hue_sent(
    throttle: &mut HueThrottle,
    shared: &mut SharedState,
    channels: Vec<(u8, (u16, u16, u16))>,
    outcome: SendOutcome,
) -> (sent: SendReport)
    ensures
        final(shared)@ == old(shared)@.after(crate::status::StatusStep::HueLink(
            outcome == SendOutcome::Sent || outcome == SendOutcome::Reopened,
        )),
        sent == (SendReport {
            retry: retry_note(outcome),
            emitted: outcome == SendOutcome::Sent,
        }),
        *final(throttle) == (HueThrottle { last_channels: channels, ..*old(throttle) }),
        *final(shared) == (SharedState {
            hue_connected: outcome == SendOutcome::Sent || outcome == SendOutcome::Reopened,
            ..*old(shared)
        }),
{
    shared.hue_connected = match outcome {
        SendOutcome::Sent | SendOutcome::Reopened => true,
        _ => false,
    };
    throttle.remember(channels);
    report(outcome)
}

/// Takes in how sending to the Nanoleaf strip ended. After a failure it counts
/// as connected again once a frame has been sampled for the new session.
pub fn nanoleaf_sent(
    throttle: &mut PerimeterThrottle,
    shared: &mut SharedState,
    colors: Vec<RgbColor>,
    outcome: SendOutcome,
) -> (sent: SendReport)
    ensures
        final(shared)@ == old(shared)@.after(crate::status::StatusStep::NanoleafSent(outcome)),
        sent == (SendReport {
            retry: retry_note(outcome),
            emitted: outcome == SendOutcome::Sent,
        }),
        *final(throttle) == (if outcome == SendOutcome::Sent {
            PerimeterThrottle { last_colors: colors, ..*old(throttle) }
        } else {
            *old(throttle)
        }),
        *final(shared) == (SharedState {
            nanoleaf_connected: old(shared).nanoleaf_connected && outcome == SendOutcome::Sent,
            ..*old(shared)
        }),
{
    match outcome {
        SendOutcome::Sent => {
            throttle.remember(colors);
        },
        _ => {
            shared.nanoleaf_connected = false;
        },
    }
    report(outcome)
}

/// Takes in how sending to the WLED strip ended.
pub fn wled_sent(
    throttle: &mut PerimeterThrottle,
    shared: &mut SharedState,
    colors: Vec<RgbColor>,
    outcome: SendOutcome,
) -> (sent: SendReport)
    ensures
        final(shared)@ == old(shared)@.after(crate::status::StatusStep::WledLink(
            outcome == SendOutcome::Sent || outcome == SendOutcome::Reopened,
        )),
        sent == (SendReport {
            retry: retry_note(outcome),
            emitted: outcome == SendOutcome::Sent,
        }),
        *final(throttle) == (if outcome == SendOutcome::Sent {
            PerimeterThrottle { last_colors: colors, ..*old(throttle) }
        } else {
            *old(throttle)
        }),
        *final(shared) == (SharedState {
            wled_connected: outcome == SendOutcome::Sent || outcome == SendOutcome::Reopened,
            ..*old(shared)
        }),
{
    match outcome {
        SendOutcome::Sent => {
            shared.wled_connected = true;
            throttle.remember(colors);
        },
        SendOutcome::Reopened => {
            shared.wled_connected = true;
        },
        _ => {
            shared.wled_connected = false;
        },
    }
    report(outcome)
}

/// Looks for scene cuts and letterbox bars while no Hue area does.
#[derive(Debug, Clone, Copy, PartialEq, Eq, Structural)]
pub struct PerimeterWatch {
    pub frame_count: u64,
    /// The average colour of the last frame.
    pub global: RgbColor,
}

impl PerimeterWatch {
    pub fn new() -> (watch: Self)
        ensures
            watch == (PerimeterWatch { frame_count: 0, global: crate::color::black() }),
    {
        PerimeterWatch { frame_count: 0, global: RgbColor::new(0, 0, 0) }
    }

    /// Takes in a frame by its average colour. `far` says whether that is far
    /// from the average before it. The result says whether the frame is a scene
    /// cut, which the first one never is, and whether to look for letterbox
    /// bars in it: in the first frame and in every fifteenth.
    pub fn note_frame(&mut self, average: RgbColor, far: bool, letterbox_detection: bool) -> (found:
        (bool, bool))
        requires
            old(self).frame_count < u64::MAX,
        ensures
            *final(self) == (PerimeterWatch {
                frame_count: (old(self).frame_count + 1) as u64,
                global: average,
            }),
            found.0 == (far && old(self).frame_count > 0),
            found.1 == (letterbox_detection && (old(self).frame_count == 0 || (
            old(self).frame_count + 1) % 15 == 0)),
    {
        self.frame_count = self.frame_count + 1;
        self.global = average;
        let cut = self.frame_count > 1 && far;
        let detect = letterbox_detection && (self.frame_count == 1 || self.frame_count % 15 == 0);
        (cut, detect)
    }
}

/// Counts the frames that reach the lights.
#[derive(Debug, Clone, Copy, PartialEq, Eq, Structural)]
pub struct LightMeter {
    pub updates: u32,
    pub window: u64,
}

impl LightMeter {
    pub fn new(now: u64) -> (meter: Self)
        ensures
            meter == (LightMeter { updates: 0, window: now }),
    {
        LightMeter { updates: 0, window: now }
    }

    /// The count with one more frame, if one was emitted.
    pub open spec fn counted(self, emitted: bool) -> u32 {
        if emitted && self.updates < u32::MAX {
            (self.updates + 1) as u32
        } else {
            self.updates
        }
    }

    /// Takes in whether a frame reached the lights. Once a second has passed,
    /// the result is the number of frames and the time that they took, and the
    /// count begins again.
    pub fn note(&mut self, emitted: bool, now: u64) -> (measured: Option<(u32, u64)>)
        ensures
            ({
                let time = crate::daemon::elapsed(now, old(self).window);
                let count = old(self).counted(emitted);
                if time >= SECOND {
                    &&& measured == Some((count, time as u64))
                    &&& *final(self) == (LightMeter { updates: 0, window: now })
                } else {
                    &&& measured is None
                    &&& *final(self) == (LightMeter { updates: count, ..*old(self) })
                }
            }),
    {
        if emitted {
            self.updates = self.updates.saturating_add(1);
        }
        let time: u64 = elapsed_since(now, self.window);
        if time >= SECOND {
            let measured = (self.updates, time);
            self.updates = 0;
            self.window = now;
            Some(measured)
        } else {
            None
        }
    }
}

/// When the last heartbeat was after `frames`, of each of which it is known
/// whether it changed and when it came.
pub open spec fn heartbeat_at(frames: Seq<(bool, u64)>, first: u64) -> u64
    decreases frames.len(),
{
    if frames.len() == 0 {
        first
    } else {
        heartbeat_after(
            true,
            frames.last().0,
            frames.last().1,
            heartbeat_at(frames.drop_last(), first),
        )
    }
}

/// Unchanged frames are held back, but a keepalive of two frames a second
/// remains: whichever frames came, after each of them the last one sent is less
/// than half a second old, and an unchanged frame that comes later than that is
/// sent.
pub proof fn keepalive_of_two_frames_a_second(frames: Seq<(bool, u64)>, first: u64, now: u64)
    requires
        frames.len() > 0,
    ensures
        crate::daemon::elapsed(frames.last().1, heartbeat_at(frames, first)) < HEARTBEAT_INTERVAL,
        worth_sending(true, false, now, heartbeat_at(frames, first)) == (crate::daemon::elapsed(
            now,
            heartbeat_at(frames, first),
        ) >= HEARTBEAT_INTERVAL),
{
}

/// A changed frame is sent at once, and every frame is where frames are not
/// throttled.
pub proof fn changed_frames_are_sent_at_once(changed: bool, now: u64, last_heartbeat: u64)
    ensures
        worth_sending(true, true, now, last_heartbeat),
        worth_sending(false, changed, now, last_heartbeat),
{
}

/// A frame that was sent twice is not a change.
pub proof fn a_repeated_frame_is_identical(channels: Seq<(u8, (u16, u16, u16))>)
    requires
        channels.len() > 0,
    ensures
        virtually_identical(channels, channels),
{
}

/// Whether two frames look the same does not depend on which came first.
pub proof fn looking_the_same_is_symmetric(
    left: Seq<(u8, (u16, u16, u16))>,
    right: Seq<(u8, (u16, u16, u16))>,
)
    requires
        virtually_identical(left, right),
    ensures
        virtually_identical(right, left),
{
    assert forall|i: int| 0 <= i < right.len() implies #[trigger] close_channels(
        right[i],
        left[i],
    ) by {
        assert(close_channels(left[i], right[i]));
    }
}

/// How far two components are apart.
pub open spec fn apart(left: u16, right: u16) -> int {
    if left < right {
        right - left
    } else {
        left - right
    }
}

/// A frame in which any component of any channel moved by 350 or more is a change,
/// and a frame in which every component of every channel moved by less is not. A
/// frame with another number of channels is a change, and so is every frame after
/// an empty one.
pub proof fn a_frame_is_the_same_only_in_every_component(
    left: &[(u8, (u16, u16, u16))],
    right: &[(u8, (u16, u16, u16))],
    same: bool,
)
    requires
        call_ensures(is_virtually_identical, (left, right), same),
    ensures
        left@.len() != right@.len() ==> !same,
        left@.len() == 0 ==> !same,
        forall|i: int|
            #![trigger left@[i]]
            #![trigger right@[i]]
            0 <= i < left@.len() && (apart(left@[i].1.0, right@[i].1.0) >= 350 || apart(
                left@[i].1.1,
                right@[i].1.1,
            ) >= 350 || apart(left@[i].1.2, right@[i].1.2) >= 350) ==> !same,
        !same && left@.len() == right@.len() && left@.len() > 0 ==> exists|i: int|
            #![trigger left@[i]]
            0 <= i < left@.len() && (apart(left@[i].1.0, right@[i].1.0) >= 350 || apart(
                left@[i].1.1,
                right@[i].1.1,
            ) >= 350 || apart(left@[i].1.2, right@[i].1.2) >= 350),
{
    assert forall|i: int| 0 <= i < left@.len() && same implies #[trigger] close_channels(
        left@[i],
        right@[i],
    ) by {}
    assert forall|i: int|
        #![trigger left@[i]]
        #![trigger right@[i]]
        0 <= i < left@.len() && (apart(left@[i].1.0, right@[i].1.0) >= 350 || apart(
            left@[i].1.1,
            right@[i].1.1,
        ) >= 350 || apart(left@[i].1.2, right@[i].1.2) >= 350) implies !same by {
        if same {
            assert(close_channels(left@[i], right@[i]));
        }
    }
    if !same && left@.len() == right@.len() && left@.len() > 0 {
        let i = choose|i: int|
            0 <= i < left@.len() && !(#[trigger] close_channels(left@[i], right@[i]));
        assert(left@[i] == left@[i]);
    }
}

/// Which channels a frame is for does not matter to whether it looks the same,
/// only their colours do.
pub proof fn only_colours_make_a_change(
    left: &[(u8, (u16, u16, u16))],
    right: &[(u8, (u16, u16, u16))],
    renamed: &[(u8, (u16, u16, u16))],
    same: bool,
    renamed_same: bool,
)
    requires
        call_ensures(is_virtually_identical, (left, right), same),
        call_ensures(is_virtually_identical, (left, renamed), renamed_same),
        right@.len() == renamed@.len(),
        forall|i: int| 0 <= i < right@.len() ==> right@[i].1 == #[trigger] renamed@[i].1,
    ensures
        same == renamed_same,
{
    a_frame_is_the_same_only_in_every_component(left, right, same);
    a_frame_is_the_same_only_in_every_component(left, renamed, renamed_same);
    assert forall|i: int| 0 <= i < right@.len() implies #[trigger] close_channels(
        left@[i],
        right@[i],
    ) == close_channels(left@[i], renamed@[i]) by {
        assert(right@[i].1 == renamed@[i].1);
    }
    if same {
        assert forall|i: int| 0 <= i < left@.len() implies #[trigger] close_channels(
            left@[i],
            renamed@[i],
        ) by {
            assert(close_channels(left@[i], right@[i]));
        }
    }
    if renamed_same {
        assert forall|i: int| 0 <= i < left@.len() implies #[trigger] close_channels(
            left@[i],
            right@[i],
        ) by {
            assert(close_channels(left@[i], renamed@[i]));
        }
    }
}

/// Hue frames are held back only while frames are throttled, only if they look
/// like the last one that was to be sent, and only for half a second: a frame that
/// looks different is sent whenever it comes.
pub proof fn a_hue_frame_is_held_back_only_as_a_repetition(
    throttle: &mut HueThrottle,
    adaptive: bool,
    channels: &[(u8, (u16, u16, u16))],
    now: u64,
    send: bool,
    last: &[(u8, (u16, u16, u16))],
    same: bool,
)
    requires
        call_ensures(HueThrottle::should_send, (throttle, adaptive, channels, now), send),
        last@ == old(throttle).last_channels@,
        call_ensures(is_virtually_identical, (last, channels), same),
    ensures
        !adaptive ==> send,
        !same ==> send,
        now - old(throttle).last_heartbeat >= 500_000_000 ==> send,
        adaptive && same && now - old(throttle).last_heartbeat < 500_000_000 ==> !send,
        final(throttle).last_channels@ == old(throttle).last_channels@,
        adaptive && send ==> final(throttle).last_heartbeat == now,
        !adaptive || !send ==> final(throttle).last_heartbeat == old(throttle).last_heartbeat,
        adaptive && !same ==> final(throttle).static_frame_count == 0,
        adaptive && same && old(throttle).static_frame_count < u32::MAX
            ==> final(throttle).static_frame_count == old(throttle).static_frame_count + 1,
        adaptive && same && old(throttle).static_frame_count == u32::MAX
            ==> final(throttle).static_frame_count == u32::MAX,
        !adaptive ==> final(throttle).static_frame_count == old(throttle).static_frame_count,
{
}

/// A strip's frame is held back only while frames are throttled, only if it did
/// not change, and only for half a second after the last one that was sent.
pub proof fn a_strip_frame_is_held_back_only_as_a_repetition(
    throttle: &mut PerimeterThrottle,
    adaptive: bool,
    changed: bool,
    now: u64,
    send: bool,
)
    requires
        call_ensures(PerimeterThrottle::should_send, (throttle, adaptive, changed, now), send),
    ensures
        !adaptive ==> send,
        changed ==> send,
        now - old(throttle).last_heartbeat >= 500_000_000 ==> send,
        adaptive && !changed && now - old(throttle).last_heartbeat < 500_000_000 ==> !send,
        final(throttle).last_colors@ == old(throttle).last_colors@,
        send ==> final(throttle).last_heartbeat == now,
        !send ==> final(throttle).last_heartbeat == old(throttle).last_heartbeat,
{
}

/// A new throttle has seen no frame, so the first one is sent.
pub proof fn the_first_hue_frame_is_sent(
    made: HueThrottle,
    first: u64,
    throttle: &mut HueThrottle,
    adaptive: bool,
    channels: &[(u8, (u16, u16, u16))],
    now: u64,
    send: bool,
)
    requires
        call_ensures(HueThrottle::new, (first,), made),
        *old(throttle) == made,
        call_ensures(HueThrottle::should_send, (throttle, adaptive, channels, now), send),
    ensures
        send,
        made.last_heartbeat == first,
{
}

/// A Hue frame that failed is not sent again as long as it stays the same, and a
/// strip's frame that failed still counts as a change: a throttle remembers what it
/// was to send for Hue, and what arrived for a strip.
pub proof fn throttles_remember_what_was_sent(
    hue: &mut HueThrottle,
    hue_shared: &mut SharedState,
    channels: Vec<(u8, (u16, u16, u16))>,
    strip: &mut PerimeterThrottle,
    strip_shared: &mut SharedState,
    other_strip: &mut PerimeterThrottle,
    other_shared: &mut SharedState,
    colors: Vec<RgbColor>,
    outcome: SendOutcome,
    hue_report: SendReport,
    strip_report: SendReport,
    other_report: SendReport,
)
    requires
        call_ensures(hue_sent, (hue, hue_shared, channels, outcome), hue_report),
        call_ensures(nanoleaf_sent, (strip, strip_shared, colors, outcome), strip_report),
        call_ensures(wled_sent, (other_strip, other_shared, colors, outcome), other_report),
    ensures
        final(hue).last_channels == channels,
        final(hue).last_heartbeat == old(hue).last_heartbeat,
        final(hue).static_frame_count == old(hue).static_frame_count,
        outcome is Sent ==> final(strip).last_colors == colors && final(other_strip).last_colors
            == colors,
        !(outcome is Sent) ==> final(strip).last_colors == old(strip).last_colors
            && final(other_strip).last_colors == old(other_strip).last_colors,
        final(strip).last_heartbeat == old(strip).last_heartbeat,
        final(other_strip).last_heartbeat == old(other_strip).last_heartbeat,
{
}

/// Only a frame that was sent counts as a light update. A delay before trying a new
/// session is shortened by every success, and lengthened only by a new session
/// that could not be opened.
pub proof fn only_sent_frames_count(
    hue: &mut HueThrottle,
    hue_shared: &mut SharedState,
    channels: Vec<(u8, (u16, u16, u16))>,
    strip: &mut PerimeterThrottle,
    strip_shared: &mut SharedState,
    other_strip: &mut PerimeterThrottle,
    other_shared: &mut SharedState,
    colors: Vec<RgbColor>,
    outcome: SendOutcome,
    hue_report: SendReport,
    strip_report: SendReport,
    other_report: SendReport,
)
    requires
        call_ensures(hue_sent, (hue, hue_shared, channels, outcome), hue_report),
        call_ensures(nanoleaf_sent, (strip, strip_shared, colors, outcome), strip_report),
        call_ensures(wled_sent, (other_strip, other_shared, colors, outcome), other_report),
    ensures
        hue_report == strip_report,
        strip_report == other_report,
        hue_report.emitted <==> outcome is Sent,
        hue_report.retry is Success <==> outcome is Sent || outcome is Reopened,
        hue_report.retry is Failure <==> outcome is ReopenFailed,
        final(hue_shared).hue_connected <==> outcome is Sent || outcome is Reopened,
        final(other_shared).wled_connected <==> outcome is Sent || outcome is Reopened,
        outcome is Sent ==> final(strip_shared).nanoleaf_connected == old(
            strip_shared,
        ).nanoleaf_connected,
        !(outcome is Sent) ==> !final(strip_shared).nanoleaf_connected,
        final(hue_shared).nanoleaf_connected == old(hue_shared).nanoleaf_connected,
        final(hue_shared).wled_connected == old(hue_shared).wled_connected,
        final(strip_shared).hue_connected == old(strip_shared).hue_connected,
        final(strip_shared).wled_connected == old(strip_shared).wled_connected,
        final(other_shared).hue_connected == old(other_shared).hue_connected,
        final(other_shared).nanoleaf_connected == old(other_shared).nanoleaf_connected,
{
}

/// Without a calibration pattern the lights show what was sampled, unchanged; with
/// one they show the pattern, whatever was sampled. The dashboard shows what the
/// lights show.
pub proof fn a_pattern_replaces_what_was_sampled(
    hue: &mut SharedState,
    channels: Vec<(u8, RgbColor)>,
    zones: &[LightZone],
    centers: &[ScreenRegion],
    shown_channels: Vec<(u8, RgbColor)>,
    nanoleaf: &mut SharedState,
    wled: &mut SharedState,
    colors: Vec<RgbColor>,
    active_segment: usize,
    nanoleaf_colors: Vec<RgbColor>,
    wled_colors: Vec<RgbColor>,
    i: int,
)
    requires
        call_ensures(hue_frame, (hue, channels, zones, centers), shown_channels),
        call_ensures(nanoleaf_frame, (nanoleaf, colors, active_segment), nanoleaf_colors),
        call_ensures(wled_frame, (wled, colors, active_segment), wled_colors),
        old(hue).calibration_pattern == old(nanoleaf).calibration_pattern,
        old(nanoleaf).calibration_pattern == old(wled).calibration_pattern,
        0 <= i < zones@.len(),
    ensures
        final(hue).live_hue_colors@ == shown_channels@,
        final(nanoleaf).live_nanoleaf_colors@ == nanoleaf_colors@,
        final(wled).live_wled_colors@ == wled_colors@,
        final(nanoleaf).nanoleaf_connected,
        final(wled).wled_connected == old(wled).wled_connected,
        final(hue).hue_connected == old(hue).hue_connected,
        nanoleaf_colors@ == wled_colors@,
        nanoleaf_colors@.len() == colors@.len(),
        old(hue).calibration_pattern is None ==> shown_channels@ == channels@ && nanoleaf_colors@
            == colors@,
        old(hue).calibration_pattern is Some ==> shown_channels@.len() == zones@.len()
            && shown_channels@[i].0 == zones@[i].channel_id,
{
}

/// A calibration pattern is written as it is: neither dimmed nor in other
/// coordinates. Any other frame is dimmed, and in the coordinates that were chosen.
pub proof fn patterns_are_written_plainly(
    pattern: CalibrationPattern,
    use_xy: bool,
    patterned: HueEncoding,
    plain: HueEncoding,
)
    requires
        call_ensures(hue_encoding, (Some(pattern), use_xy), patterned),
        call_ensures(hue_encoding, (None::<CalibrationPattern>, use_xy), plain),
    ensures
        !patterned.scaled && !patterned.xy,
        plain.scaled,
        plain.xy == use_xy,
{
}

/// The first frame that strips watch over is never a scene cut, and is always
/// looked at for letterbox bars where that is wanted; later ones are a cut if they
/// are far from the frame before, and looked at once in fifteen. The watch moves
/// on to the new frame.
pub proof fn a_watch_compares_each_frame_with_the_last(
    watch: &mut PerimeterWatch,
    average: RgbColor,
    far: bool,
    letterbox_detection: bool,
    found: (bool, bool),
)
    requires
        call_ensures(PerimeterWatch::note_frame, (watch, average, far, letterbox_detection), found),
        old(watch).frame_count < u64::MAX,
    ensures
        final(watch).global == average,
        final(watch).frame_count == old(watch).frame_count + 1,
        old(watch).frame_count == 0 ==> !found.0 && found.1 == letterbox_detection,
        old(watch).frame_count > 0 ==> found.0 == far,
        !letterbox_detection ==> !found.1,
        old(watch).frame_count > 0 && letterbox_detection ==> (found.1 <==> final(watch).frame_count % 15 == 0),
{
}

/// The light updates of a second are counted, none is lost, and the count begins
/// anew once it has been handed out.
pub proof fn every_light_update_is_counted_once(
    meter: &mut LightMeter,
    emitted: bool,
    now: u64,
    measured: Option<(u32, u64)>,
)
    requires
        call_ensures(LightMeter::note, (meter, emitted, now), measured),
    ensures
        measured is Some <==> now - old(meter).window >= 1_000_000_000,
        measured matches Some(m) ==> m.0 == old(meter).updates + (if emitted && old(meter).updates < u32::MAX {
            1int
        } else {
            0int
        }) && m.1 == now - old(meter).window && final(meter).updates == 0 && final(meter).window
            == now,
        measured is None ==> final(meter).window == old(meter).window && final(meter).updates
            == old(meter).updates + (if emitted && old(meter).updates < u32::MAX {
            1int
        } else {
            0int
        }),
{
}

/// A new session is tried only for a frame that failed, and a frame that failed is
/// lost even if it opens.
pub proof fn a_failed_frame_is_lost(
    sent: bool,
    ready: bool,
    reopened: bool,
    outcome: SendOutcome,
    held: Option<SendOutcome>,
    done: Option<SendOutcome>,
    failed: Option<SendOutcome>,
)
    requires
        call_ensures(send_outcome, (sent, ready, reopened), outcome),
        call_ensures(settle, (Sending::Held,), held),
        call_ensures(settle, (Sending::Sent,), done),
        call_ensures(settle, (Sending::Failed { ready },), failed),
    ensures
        outcome is Sent <==> sent,
        !sent && !ready ==> outcome is Failed,
        !sent && ready && reopened ==> outcome is Reopened,
        !sent && ready && !reopened ==> outcome is ReopenFailed,
        held is None,
        done == Some(SendOutcome::Sent),
        failed is Some <==> !ready,
        failed matches Some(kind) ==> kind is Failed,
{
}

/// Where the zone sampler saw the frame its word on scene cuts counts, and the
/// perimeter's only where it did not.
pub proof fn the_zone_sampler_is_believed(hue: bool, perimeter: bool, seen: bool, unseen: bool)
    requires
        call_ensures(scene_cut, (Some(hue), perimeter), seen),
        call_ensures(scene_cut, (None::<bool>, perimeter), unseen),
    ensures
        seen == hue,
        unseen == perimeter,
{
}

/// What is remembered is the frame that was given, and nothing else changes; a fresh
/// throttle remembers none, and a fresh count is nothing.
pub proof fn a_remembered_frame_is_that_frame(
    hue: &mut HueThrottle,
    strip: &mut PerimeterThrottle,
    channels: Vec<(u8, (u16, u16, u16))>,
    colors: Vec<RgbColor>,
    fresh: PerimeterThrottle,
    watch: PerimeterWatch,
    meter: LightMeter,
    now: u64,
)
    requires
        call_ensures(HueThrottle::remember, (hue, channels), ()),
        call_ensures(PerimeterThrottle::remember, (strip, colors), ()),
        call_ensures(PerimeterThrottle::new, (now,), fresh),
        call_ensures(PerimeterWatch::new, (), watch),
        call_ensures(LightMeter::new, (now,), meter),
    ensures
        final(hue).last_channels@ == channels@,
        final(hue).static_frame_count == old(hue).static_frame_count,
        final(hue).last_heartbeat == old(hue).last_heartbeat,
        final(strip).last_colors@ == colors@,
        final(strip).last_heartbeat == old(strip).last_heartbeat,
        fresh.last_colors@.len() == 0 && fresh.last_heartbeat == now,
        watch.frame_count == 0,
        (watch.global.r, watch.global.g, watch.global.b) == (0u8, 0u8, 0u8),
        meter.updates == 0 && meter.window == now,
{
}

/// While a pattern is shown, each light shows the part of it that is the pattern's own
/// for that place, whatever was sampled; nothing else of what is shared changes.
pub proof fn a_pattern_is_shown_in_its_places(
    hue: &mut SharedState,
    channels: Vec<(u8, RgbColor)>,
    zones: &[LightZone],
    centers: &[ScreenRegion],
    shown_channels: Vec<(u8, RgbColor)>,
    nanoleaf: &mut SharedState,
    wled: &mut SharedState,
    colors: Vec<RgbColor>,
    count: usize,
    active_segment: usize,
    nanoleaf_colors: Vec<RgbColor>,
    wled_colors: Vec<RgbColor>,
    pattern: CalibrationPattern,
    zone_colors: Vec<(u8, RgbColor)>,
    segment_colors: Vec<RgbColor>,
)
    requires
        centers@.len() == zones@.len(),
        count == colors@.len(),
        call_ensures(hue_frame, (hue, channels, zones, centers), shown_channels),
        call_ensures(nanoleaf_frame, (nanoleaf, colors, active_segment), nanoleaf_colors),
        call_ensures(wled_frame, (wled, colors, active_segment), wled_colors),
        call_ensures(calibration_zone_colors, (pattern, zones, centers), zone_colors),
        call_ensures(
            calibration_perimeter_colors,
            (pattern, count, active_segment),
            segment_colors,
        ),
    ensures
        old(hue).calibration_pattern == Some(pattern) ==> shown_channels@ == zone_colors@,
        old(nanoleaf).calibration_pattern == Some(pattern) ==> nanoleaf_colors@ == segment_colors@,
        old(wled).calibration_pattern == Some(pattern) ==> wled_colors@ == segment_colors@,
        (SharedState { live_hue_colors: old(hue).live_hue_colors, ..*final(hue) }) == *old(hue),
        (SharedState {
            live_nanoleaf_colors: old(nanoleaf).live_nanoleaf_colors,
            nanoleaf_connected: old(nanoleaf).nanoleaf_connected,
            ..*final(nanoleaf)
        }) == *old(nanoleaf),
        (SharedState { live_wled_colors: old(wled).live_wled_colors, ..*final(wled) }) == *old(
            wled,
        ),
{
}

} // verus!
