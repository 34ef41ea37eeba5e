//! Debounce state machine that detects a long simultaneous press on the east
//! and west proximity sensors.

use crate::model::Gesture;
use vstd::prelude::*;

verus! {

/// Hold time, in microseconds, after which a dual press becomes a long press.
pub const LONG_PRESS_US: u64 = 5_000_000;

/// Distance in millimeters under which an object counts as near.
pub const PROXIMITY_MM: u16 = 300;

/// The abstract state of a [`GestureDetector`].
pub struct GestureDetectorView {
    /// Time at which the current dual press started, if one is in progress.
    pub press_start_time_us: Option<u64>,
    /// Duration of the current dual press, in microseconds.
    pub last_press_duration_us: u64,
    /// Distance under which a side sensor counts as pressed.
    pub threshold_mm: u16,
}

/// One step of the detector: the next state and the reported gesture.
pub open spec fn detector_step(v: GestureDetectorView, gesture: Gesture, now_us: u64) -> (
    GestureDetectorView,
    Option<Gesture>,
) {
    match gesture {
        Gesture::Proximity(north, east, west) => {
            let both_pressed = east < v.threshold_mm && west < v.threshold_mm;
            let start = match v.press_start_time_us {
                Some(s) => s,
                None => now_us,
            };
            let duration: u64 = if now_us >= start {
                (now_us - start) as u64
            } else {
                0
            };
            let next = if both_pressed {
                GestureDetectorView {
                    press_start_time_us: Some(start),
                    last_press_duration_us: duration,
                    threshold_mm: v.threshold_mm,
                }
            } else {
                GestureDetectorView {
                    press_start_time_us: None,
                    last_press_duration_us: 0,
                    threshold_mm: v.threshold_mm,
                }
            };
            let out = if both_pressed && duration >= LONG_PRESS_US {
                Gesture::DualLongPress
            } else if north < PROXIMITY_MM || east < PROXIMITY_MM || west < PROXIMITY_MM {
                Gesture::ProximityDetected
            } else {
                Gesture::ProximityNotDetected
            };
            (next, Some(out))
        },
        _ => (v, None),
    }
}

/// Tracks time-of-flight distances and reports proximity and dual long presses.
pub struct GestureDetector {
    press_start_time_us: Option<u64>,
    last_press_duration_us: u64,
    threshold_mm: u16,
}

impl View for GestureDetector {
    type V = GestureDetectorView;

    closed spec fn view(&self) -> GestureDetectorView {
        GestureDetectorView {
            press_start_time_us: self.press_start_time_us,
            last_press_duration_us: self.last_press_duration_us,
            threshold_mm: self.threshold_mm,
        }
    }
}

impl GestureDetector {
    /// Creates a detector whose side sensors count as pressed under `threshold_mm`.
    pub fn new(threshold_mm: u16) -> (r: Self)
        ensures
            r@ == (GestureDetectorView {
                press_start_time_us: None,
                last_press_duration_us: 0,
                threshold_mm,
            }),
    {
        GestureDetector { press_start_time_us: None, last_press_duration_us: 0, threshold_mm }
    }

    /// Feeds distances (a `Gesture::Proximity`) taken at `current_time_us`.
    /// Returns `DualLongPress` once east and west have both been pressed for five
    /// seconds, otherwise whether any sensor is nearer than 300 mm; `None` for any
    /// other kind of input.
    pub fn update(&mut self, gesture: Gesture, current_time_us: u64) -> (r: Option<Gesture>)
        ensures
            (final(self)@, r) == detector_step(old(self)@, gesture, current_time_us),
    {
        let (dist_north_mm, dist_east_mm, dist_west_mm) = match gesture {
            Gesture::Proximity(n, e, w) => (n, e, w),
            _ => return None,
        };
        let east_pressed = dist_east_mm < self.threshold_mm;
        let west_pressed = dist_west_mm < self.threshold_mm;

        if east_pressed && west_pressed {
            let start = match self.press_start_time_us {
                Some(s) => s,
                None => {
                    self.press_start_time_us = Some(current_time_us);
                    current_time_us
                },
            };
            let duration = current_time_us.saturating_sub(start);
            self.last_press_duration_us = duration;
            if duration >= LONG_PRESS_US {
                return Some(Gesture::DualLongPress);
            }
        } else {
            self.press_start_time_us = None;
            self.last_press_duration_us = 0;
        }

        if dist_north_mm < PROXIMITY_MM || dist_east_mm < PROXIMITY_MM || dist_west_mm
            < PROXIMITY_MM {
            Some(Gesture::ProximityDetected)
        } else {
            Some(Gesture::ProximityNotDetected)
        }
    }

    /// The duration of the current dual press in milliseconds, truncated to 32 bits.
    pub fn press_time_ms(&self) -> (r: u32)
        ensures
            r == (self@.last_press_duration_us / 1000) as u32,
    {
        (self.last_press_duration_us / 1000) as u32
    }

    /// Forgets any press in progress.
    pub fn reset(&mut self)
        ensures
            final(self)@ == (GestureDetectorView {
                press_start_time_us: None,
                last_press_duration_us: 0,
                threshold_mm: old(self)@.threshold_mm,
            }),
    {
        self.press_start_time_us = None;
        self.last_press_duration_us = 0;
    }
}

/// A long press is reported only while both side sensors are under the threshold
/// and the press has lasted at least five seconds.
pub proof fn lemma_long_press_requires_hold(
    v: GestureDetectorView,
    gesture: Gesture,
    now_us: u64,
)
    requires
        detector_step(v, gesture, now_us).1 == Some(Gesture::DualLongPress),
    ensures
        gesture matches Gesture::Proximity(_, east, west) && east < v.threshold_mm && west
            < v.threshold_mm,
        detector_step(v, gesture, now_us).0.last_press_duration_us >= LONG_PRESS_US,
{
}

/// Releasing either side sensor clears the press in progress.
pub proof fn lemma_release_resets(v: GestureDetectorView, north: u16, east: u16, west: u16, now_us: u64)
    requires
        east >= v.threshold_mm || west >= v.threshold_mm,
    ensures
        detector_step(v, Gesture::Proximity(north, east, west), now_us).0.press_start_time_us
            is None,
        detector_step(v, Gesture::Proximity(north, east, west), now_us).0.last_press_duration_us
            == 0,
{
}

/// While a press continues, its start time is kept and the reported duration is
/// the time elapsed since that start.
pub proof fn lemma_hold_keeps_start(
    v: GestureDetectorView,
    start: u64,
    north: u16,
    east: u16,
    west: u16,
    now_us: u64,
)
    requires
        v.press_start_time_us == Some(start),
        east < v.threshold_mm,
        west < v.threshold_mm,
        now_us >= start,
    ensures
        detector_step(v, Gesture::Proximity(north, east, west), now_us).0.press_start_time_us
            == Some(start),
        detector_step(v, Gesture::Proximity(north, east, west), now_us).0.last_press_duration_us
            == now_us - start,
{
}

/// Any input other than raw distances leaves the detector unchanged and yields
/// nothing.
pub proof fn lemma_other_input_ignored(v: GestureDetectorView, gesture: Gesture, now_us: u64)
    requires
        !(gesture is Proximity),
    ensures
        detector_step(v, gesture, now_us) == (v, None::<Gesture>),
{
}

/// The threshold never changes.
pub proof fn lemma_threshold_constant(v: GestureDetectorView, gesture: Gesture, now_us: u64)
    ensures
        detector_step(v, gesture, now_us).0.threshold_mm == v.threshold_mm,
{
}

/// The detector after a run of distance readings `(north, east, west, time)`,
/// fed in order.
pub open spec fn detector_run(v: GestureDetectorView, readings: Seq<(u16, u16, u16, u64)>) -> GestureDetectorView
    decreases readings.len(),
{
    if readings.len() == 0 {
        v
    } else {
        let r = readings.last();
        detector_step(detector_run(v, readings.drop_last()), Gesture::Proximity(r.0, r.1, r.2), r.3).0
    }
}

/// Both side sensors are pressed in every reading of `readings`, at times that
/// never go back.
pub open spec fn held_run(threshold_mm: u16, readings: Seq<(u16, u16, u16, u64)>) -> bool {
    &&& forall|i: int|
        0 <= i < readings.len() ==> #[trigger] readings[i].1 < threshold_mm && readings[i].2 < threshold_mm
    &&& forall|i: int, j: int| 0 <= i <= j < readings.len() ==> #[trigger] readings[i].3 <= #[trigger] readings[j].3
}

/// A dual press held over a run of readings, from a detector with no press in
/// progress: the press starts at the first reading, its duration is the time
/// from the first reading to the last, and the last reading is reported as a
/// long press exactly when that time is at least five seconds.
pub proof fn lemma_press_run(v: GestureDetectorView, readings: Seq<(u16, u16, u16, u64)>)
    requires
        v.press_start_time_us is None,
        readings.len() > 0,
        held_run(v.threshold_mm, readings),
    ensures
        detector_run(v, readings).threshold_mm == v.threshold_mm,
        detector_run(v, readings).press_start_time_us == Some(readings[0].3),
        detector_run(v, readings).last_press_duration_us == readings.last().3 - readings[0].3,
        ({
            let r = readings.last();
            detector_step(detector_run(v, readings.drop_last()), Gesture::Proximity(r.0, r.1, r.2), r.3).1
                == Some(Gesture::DualLongPress) <==> readings.last().3 - readings[0].3 >= LONG_PRESS_US
        }),
    decreases readings.len(),
{
    let n = readings.len();
    let r = readings.last();
    assert(r.1 < v.threshold_mm && r.2 < v.threshold_mm) by {
        assert(readings[n - 1].1 < v.threshold_mm);
    }
    if n == 1 {
        assert(readings.drop_last().len() == 0);
        assert(detector_run(v, readings.drop_last()) == v);
        assert(readings.last() == readings[0]);
    } else {
        let prefix = readings.drop_last();
        assert(held_run(v.threshold_mm, prefix)) by {
            assert forall|i: int| 0 <= i < prefix.len() implies #[trigger] prefix[i].1 < v.threshold_mm
                && prefix[i].2 < v.threshold_mm by {
                assert(prefix[i] == readings[i]);
            }
            assert forall|i: int, j: int| 0 <= i <= j < prefix.len() implies #[trigger] prefix[i].3
                <= #[trigger] prefix[j].3 by {
                assert(prefix[i] == readings[i]);
                assert(prefix[j] == readings[j]);
            }
        }
        lemma_press_run(v, prefix);
        assert(prefix[0] == readings[0]);
        assert(readings[0].3 <= readings[n - 1].3);
    }
}

/// A call made on a detector: an update with an input and its time, or a reset.
#[derive(Clone, Copy, PartialEq, Eq, Structural, Debug)]
pub enum DetectorCall {
    /// `update(gesture, time)`.
    Update(Gesture, u64),
    /// `reset()`.
    Reset,
}

/// The detector after a history of calls.
pub open spec fn detector_history(v: GestureDetectorView, h: Seq<DetectorCall>) -> GestureDetectorView
    decreases h.len(),
{
    if h.len() == 0 {
        v
    } else {
        let p = detector_history(v, h.drop_last());
        match h.last() {
            DetectorCall::Update(g, t) => detector_step(p, g, t).0,
            DetectorCall::Reset => GestureDetectorView {
                press_start_time_us: None,
                last_press_duration_us: 0,
                threshold_mm: p.threshold_mm,
            },
        }
    }
}

/// Whether a call is an update with both side sensors under `th`.
pub open spec fn is_press(th: u16, c: DetectorCall) -> bool {
    c matches DetectorCall::Update(Gesture::Proximity(_, e, w), _) && e < th && w < th
}

/// The time of the first update of the unbroken run of pressed updates that
/// the history ends with, skipping inputs other than distances; `None` when the
/// last distance update (or a reset after it) ended any press.
pub open spec fn press_start(th: u16, h: Seq<DetectorCall>) -> Option<u64>
    decreases h.len(),
{
    if h.len() == 0 {
        None
    } else {
        match h.last() {
            DetectorCall::Reset => None,
            DetectorCall::Update(g, t) => match g {
                Gesture::Proximity(_, e, w) => if e < th && w < th {
                    match press_start(th, h.drop_last()) {
                        Some(s) => Some(s),
                        None => Some(t),
                    }
                } else {
                    None
                },
                _ => press_start(th, h.drop_last()),
            },
        }
    }
}

/// The time of the last distance update, if it was a press that no reset
/// followed.
pub open spec fn last_press_time(th: u16, h: Seq<DetectorCall>) -> Option<u64>
    decreases h.len(),
{
    if h.len() == 0 {
        None
    } else {
        match h.last() {
            DetectorCall::Reset => None,
            DetectorCall::Update(g, t) => match g {
                Gesture::Proximity(_, e, w) => if e < th && w < th {
                    Some(t)
                } else {
                    None
                },
                _ => last_press_time(th, h.drop_last()),
            },
        }
    }
}

/// `t - s`, or 0 when `t` comes before `s`.
pub open spec fn elapsed(t: u64, s: u64) -> u64 {
    if t >= s {
        (t - s) as u64
    } else {
        0
    }
}

/// The press duration a history leaves: the time from the start of the
/// current press to the last update of it (0 when it goes back in time), or 0
/// with no press in progress.
pub open spec fn press_duration(th: u16, h: Seq<DetectorCall>) -> u64 {
    match (last_press_time(th, h), press_start(th, h)) {
        (Some(t), Some(s)) => elapsed(t, s),
        _ => 0,
    }
}

/// Over any history of calls on a new detector, whatever the times: the press
/// in progress started at the first update of the unbroken run of presses the
/// history ends with, its duration is the time from that start to the last
/// update (0 when the clock went back), and an update is reported as a long
/// press exactly when it is a press and that duration, taken with it, is at
/// least five seconds; otherwise as proximity when any sensor is under 300 mm.
pub proof fn lemma_detector_history(v: GestureDetectorView, h: Seq<DetectorCall>)
    requires
        v.press_start_time_us is None,
        v.last_press_duration_us == 0,
    ensures
        detector_history(v, h).threshold_mm == v.threshold_mm,
        detector_history(v, h).press_start_time_us == press_start(v.threshold_mm, h),
        detector_history(v, h).last_press_duration_us == press_duration(v.threshold_mm, h),
        press_start(v.threshold_mm, h) is Some <==> last_press_time(v.threshold_mm, h) is Some,
        h.len() > 0 ==> (h.last() matches DetectorCall::Update(Gesture::Proximity(n, e, w), t) ==> ({
            let th = v.threshold_mm;
            let p = detector_history(v, h.drop_last());
            detector_step(p, Gesture::Proximity(n, e, w), t).1 == Some(
                if e < th && w < th && press_duration(th, h) >= LONG_PRESS_US {
                    Gesture::DualLongPress
                } else if n < PROXIMITY_MM || e < PROXIMITY_MM || w < PROXIMITY_MM {
                    Gesture::ProximityDetected
                } else {
                    Gesture::ProximityNotDetected
                },
            )
        })),
    decreases h.len(),
{
    if h.len() > 0 {
        lemma_detector_history(v, h.drop_last());
    }
}

} // verus!
