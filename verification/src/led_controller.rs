//! Status LED: target colours, fades, blink sequences, the decisions of the LED
//! run loop, the LED part of system state changes and the `led` command line.

use crate::model::{PeripheralError, SystemLedState, SystemStatus};
use crate::motor_controller::opt_chars;
use crate::parse::{parse_u8, spec_parse_unsigned, str_eq};
use crate::telemetry_controller::{LedClientView, LedTelemetryClient, TelemetryClient};
use crate::types::{BatteryStatus, BatteryUpdateAction, DeviceSupport};
use vstd::prelude::*;

verus! {

/// An RGB colour.
pub type Rgb = (u8, u8, u8);

/// Number of intermediate colours of a fade.
pub const FADE_STEPS: u32 = 10;

/// Pause between two fade colours (ms).
pub const FADE_DELAY_MS: u32 = 20;

/// Pause after each colour of the four red blinks (ms).
pub const BLINK_FOUR_PAUSE_MS: u32 = 150;

/// How long the slow red blink stays lit (ms).
pub const SLOW_BLINK_ON_MS: u32 = 500;

/// Interval between two slow red blinks (ms).
pub const SLOW_BLINK_PERIOD_MS: u32 = 30000;

/// An RGB LED driver. Its implementations promise that what showing a colour
/// returns, and the driver afterwards, follow from the driver before the call
/// and the colour; this contract is not proved here.
pub trait LedDriver: Sized {
    /// What showing `c` returns.
    spec fn color_result(&self, c: Rgb) -> Result<(), PeripheralError>;

    /// The driver after showing `c`.
    spec fn after_color(&self, c: Rgb) -> Self;

    /// Shows the colour `(r, g, b)`.
    fn set_color(&mut self, r: u8, g: u8, b: u8) -> (res: Result<(), PeripheralError>)
        ensures
            res == old(self).color_result((r, g, b)),
            *final(self) == old(self).after_color((r, g, b)),
    ;
}

/// Waits used between the colours of an LED pattern.
pub trait LedDelay {
    /// Waits `ms` milliseconds.
    fn delay_ms(&mut self, ms: u32);
}

/// The delay of the run loop. A host build has no timer: the wait returns at once.
pub struct AsyncDelay;

impl LedDelay for AsyncDelay {
    fn delay_ms(&mut self, ms: u32) {
    }
}

/// The delay of blocking callers. A host build has no timer: the wait returns at once.
pub struct BlockingDelay;

impl LedDelay for BlockingDelay {
    fn delay_ms(&mut self, ms: u32) {
    }
}

/// Commands sent to the LED controller.
#[derive(Clone, Copy, PartialEq, Eq, Structural, Debug)]
pub enum LedCommand {
    /// Show a pattern.
    State(SystemLedState),
    /// Set the brightness (percent).
    SetBrightness(u8),
}

/// Full-brightness colour of a pattern.
pub open spec fn base_color(p: SystemLedState) -> Rgb {
    match p {
        SystemLedState::Off => (0, 0, 0),
        SystemLedState::SolidGreen => (0, 128, 0),
        SystemLedState::SolidBlue => (0, 0, 64),
        SystemLedState::SolidYellow => (128, 128, 0),
        SystemLedState::SolidOrange => (128, 64, 0),
        SystemLedState::BlinksRedFourTimes => (255, 0, 0),
        SystemLedState::BlinksRedOncePerThirtySeconds => (255, 0, 0),
    }
}

/// A channel scaled by a brightness percentage, `c * brightness / 100`, kept to
/// its low eight bits.
pub open spec fn scale_channel(c: u8, brightness: u8) -> u8 {
    ((c as int * brightness as int) / 100) as u8
}

/// The colour that shows pattern `p` at `brightness`.
pub open spec fn target_color(p: SystemLedState, brightness: u8) -> Rgb {
    let c = base_color(p);
    (scale_channel(c.0, brightness), scale_channel(c.1, brightness), scale_channel(c.2, brightness))
}

/// Channel value at fade step `step` (of ten) from `from` to `to`, the distance
/// covered rounded towards `from`.
pub open spec fn fade_channel(from: u8, to: u8, step: int) -> u8 {
    if from <= to {
        (from + (to - from) * step / 10) as u8
    } else {
        (from - (from - to) * step / 10) as u8
    }
}

/// Colour at fade step `step` from `from` to `to`.
pub open spec fn fade_color(from: Rgb, to: Rgb, step: int) -> Rgb {
    (fade_channel(from.0, to.0, step), fade_channel(from.1, to.1, step), fade_channel(from.2, to.2, step))
}

/// The ten colours of a fade, ending at `to`.
pub open spec fn fade_writes(from: Rgb, to: Rgb) -> Seq<Rgb> {
    Seq::new(FADE_STEPS as nat, |i: int| fade_color(from, to, i + 1))
}

/// The colours handed to the driver to go from `from` to `to`: none when they
/// are equal, a fade when asked for and one end is black, else `to` alone.
pub open spec fn color_writes(from: Rgb, to: Rgb, fade: bool) -> Seq<Rgb> {
    if from == to {
        Seq::empty()
    } else if fade && (from == (0u8, 0u8, 0u8) || to == (0u8, 0u8, 0u8)) {
        fade_writes(from, to)
    } else {
        seq![to]
    }
}

/// A solid pattern.
pub open spec fn is_solid(p: SystemLedState) -> bool {
    p == SystemLedState::SolidGreen || p == SystemLedState::SolidBlue || p
        == SystemLedState::SolidYellow || p == SystemLedState::SolidOrange
}

/// Changes between off and a solid pattern fade; all others switch at once.
pub open spec fn uses_fade(from: SystemLedState, to: SystemLedState) -> bool {
    (from == SystemLedState::Off && is_solid(to)) || (is_solid(from) && to == SystemLedState::Off)
}

/// One colour change of a pattern: show `pattern`, fading if `fade`, then pause
/// `pause_ms` (no pause when 0).
#[derive(Clone, Copy, PartialEq, Eq, Structural, Debug)]
pub struct LedSegment {
    /// Pattern whose colour is shown.
    pub pattern: SystemLedState,
    /// Whether to fade.
    pub fade: bool,
    /// Pause after the change (ms).
    pub pause_ms: u32,
}

/// A segment.
pub open spec fn segment(pattern: SystemLedState, fade: bool, pause_ms: u32) -> LedSegment {
    LedSegment { pattern, fade, pause_ms }
}

/// Four red blinks: red and off in turn, each followed by a pause.
pub open spec fn blink_four_segments() -> Seq<LedSegment> {
    Seq::new(
        8,
        |i: int|
            if i % 2 == 0 {
                segment(SystemLedState::BlinksRedFourTimes, false, BLINK_FOUR_PAUSE_MS)
            } else {
                segment(SystemLedState::Off, false, BLINK_FOUR_PAUSE_MS)
            },
    )
}

/// The colour changes that play `pattern` when `current` is shown.
pub open spec fn pattern_segments(current: SystemLedState, pattern: SystemLedState) -> Seq<LedSegment> {
    match pattern {
        SystemLedState::BlinksRedFourTimes => blink_four_segments(),
        SystemLedState::BlinksRedOncePerThirtySeconds => seq![
            segment(SystemLedState::BlinksRedOncePerThirtySeconds, false, SLOW_BLINK_ON_MS),
            segment(SystemLedState::Off, false, 0),
        ],
        _ => seq![segment(pattern, uses_fade(current, pattern), 0)],
    }
}

/// The colour shown after playing `segs` from `color`.
pub open spec fn run_color(color: Rgb, brightness: u8, segs: Seq<LedSegment>) -> Rgb {
    if segs.len() == 0 {
        color
    } else {
        target_color(segs.last().pattern, brightness)
    }
}

/// The colours handed to the driver while playing `segs` from `color`.
pub open spec fn run_writes(color: Rgb, brightness: u8, segs: Seq<LedSegment>) -> Seq<Rgb>
    decreases segs.len(),
{
    if segs.len() == 0 {
        Seq::empty()
    } else {
        run_writes(color, brightness, segs.drop_last()) + color_writes(
            run_color(color, brightness, segs.drop_last()),
            target_color(segs.last().pattern, brightness),
            segs.last().fade,
        )
    }
}

/// The abstract state of an [`LedController`].
pub struct LedControllerView {
    /// Pattern last asked for.
    pub current_state: SystemLedState,
    /// Colour shown.
    pub current_color: Rgb,
    /// Brightness (percent).
    pub brightness: u8,
    /// Every colour handed to the driver, in order.
    pub writes: Seq<Rgb>,
}

/// `w` is a non-empty prefix of `plan`: the writes up to a failed one.
pub open spec fn failed_prefix(w: Seq<Rgb>, plan: Seq<Rgb>) -> bool {
    exists|k: int| 1 <= k <= plan.len() && w == #[trigger] plan.take(k)
}

/// Drives a status LED.
pub struct LedController<D> {
    driver: D,
    current_state: SystemLedState,
    current_color: Rgb,
    brightness: u8,
    writes: Ghost<Seq<Rgb>>,
}

impl<D> LedController<D> {
    /// The LED driver.
    pub closed spec fn driver_state(&self) -> D {
        self.driver
    }
}

impl<D> View for LedController<D> {
    type V = LedControllerView;

    closed spec fn view(&self) -> LedControllerView {
        LedControllerView {
            current_state: self.current_state,
            current_color: self.current_color,
            brightness: self.brightness,
            writes: self.writes@,
        }
    }
}

/// The colours of the patterns: each lights exactly its own channels, scaled by
/// the brightness percentage (`c * brightness / 100`): green lights only green
/// at 128, blue only blue at 64, yellow red and green at 128, orange red at 128
/// and green at 64, both blinks only red at 255, and off nothing. So at full
/// brightness each pattern shows its own colour, and at brightness 0 every
/// pattern is dark.
pub proof fn lemma_pattern_colors(b: u8)
    ensures
        target_color(SystemLedState::Off, b) == (0u8, 0u8, 0u8),
        target_color(SystemLedState::SolidGreen, b) == (0u8, ((128 * b as int) / 100) as u8, 0u8),
        target_color(SystemLedState::SolidBlue, b) == (0u8, 0u8, ((64 * b as int) / 100) as u8),
        target_color(SystemLedState::SolidYellow, b) == (
            ((128 * b as int) / 100) as u8,
            ((128 * b as int) / 100) as u8,
            0u8,
        ),
        target_color(SystemLedState::SolidOrange, b) == (
            ((128 * b as int) / 100) as u8,
            ((64 * b as int) / 100) as u8,
            0u8,
        ),
        target_color(SystemLedState::BlinksRedFourTimes, b) == (((255 * b as int) / 100) as u8, 0u8, 0u8),
        target_color(SystemLedState::BlinksRedOncePerThirtySeconds, b) == (
            ((255 * b as int) / 100) as u8,
            0u8,
            0u8,
        ),
        b == 100 ==> target_color(SystemLedState::SolidBlue, b) == (0u8, 0u8, 64u8)
            && target_color(SystemLedState::SolidGreen, b) == (0u8, 128u8, 0u8)
            && target_color(SystemLedState::SolidYellow, b) == (128u8, 128u8, 0u8)
            && target_color(SystemLedState::SolidOrange, b) == (128u8, 64u8, 0u8)
            && target_color(SystemLedState::BlinksRedFourTimes, b) == (255u8, 0u8, 0u8),
        b == 0 ==> forall|p: SystemLedState| #[trigger] target_color(p, b) == (0u8, 0u8, 0u8),
{
    assert(0 * (b as int) == 0);
    if b == 0 {
        assert forall|p: SystemLedState| #[trigger] target_color(p, b) == (0u8, 0u8, 0u8) by {
            let c = base_color(p);
            assert(c.0 as int * 0 == 0 && c.1 as int * 0 == 0 && c.2 as int * 0 == 0) by (nonlinear_arith);
        }
    }
}

/// A channel scaled by a brightness percentage.
fn scale(c: u8, brightness: u8) -> (r: u8)
    ensures
        r == scale_channel(c, brightness),
{
    proof {
        assert(c as int * brightness as int <= 255 * 255) by (nonlinear_arith)
            requires
                c <= 255,
                brightness <= 255,
        ;
    }
    (((c as u16) * (brightness as u16)) / 100) as u8
}

/// The last colour of a fade is its target.
proof fn lemma_fade_ends(from: Rgb, to: Rgb)
    ensures
        fade_writes(from, to).last() == to,
{
    assert forall|a: u8, b: u8| fade_channel(a, b, 10) == b by {
        if a <= b {
            assert((b - a) * 10 / 10 == b - a);
        } else {
            assert((a - b) * 10 / 10 == a - b);
        }
    }
    assert(fade_writes(from, to).last() == fade_color(from, to, 10));
}

/// Whether two colours are equal.
fn same_color(a: Rgb, b: Rgb) -> (r: bool)
    ensures
        r == (a == b),
{
    a.0 == b.0 && a.1 == b.1 && a.2 == b.2
}

/// A fade channel.
fn fade_step(from: u8, to: u8, step: u32) -> (r: u8)
    requires
        1 <= step <= FADE_STEPS,
    ensures
        r == fade_channel(from, to, step as int),
{
    if from <= to {
        let d: u32 = (to - from) as u32;
        proof {
            assert(d * step / 10 <= d) by (nonlinear_arith)
                requires
                    step <= 10,
            ;
        }
        (from as u32 + d * step / 10) as u8
    } else {
        let d: u32 = (from - to) as u32;
        proof {
            assert(d * step / 10 <= d) by (nonlinear_arith)
                requires
                    step <= 10,
            ;
        }
        (from as u32 - d * step / 10) as u8
    }
}

/// The colour that shows pattern `p` at `brightness`.
pub fn pattern_color(p: SystemLedState, brightness: u8) -> (r: Rgb)
    ensures
        r == target_color(p, brightness),
{
    let base: Rgb = match p {
        SystemLedState::Off => (0, 0, 0),
        SystemLedState::SolidGreen => (0, 128, 0),
        SystemLedState::SolidBlue => (0, 0, 64),
        SystemLedState::SolidYellow => (128, 128, 0),
        SystemLedState::SolidOrange => (128, 64, 0),
        SystemLedState::BlinksRedFourTimes => (255, 0, 0),
        SystemLedState::BlinksRedOncePerThirtySeconds => (255, 0, 0),
    };
    (scale(base.0, brightness), scale(base.1, brightness), scale(base.2, brightness))
}

/// Whether a change between two patterns fades.
pub fn fades_between(from: SystemLedState, to: SystemLedState) -> (r: bool)
    ensures
        r == uses_fade(from, to),
{
    let solid_to = match to {
        SystemLedState::SolidGreen | SystemLedState::SolidBlue | SystemLedState::SolidYellow
        | SystemLedState::SolidOrange => true,
        _ => false,
    };
    let solid_from = match from {
        SystemLedState::SolidGreen | SystemLedState::SolidBlue | SystemLedState::SolidYellow
        | SystemLedState::SolidOrange => true,
        _ => false,
    };
    let from_off = match from {
        SystemLedState::Off => true,
        _ => false,
    };
    let to_off = match to {
        SystemLedState::Off => true,
        _ => false,
    };
    (from_off && solid_to) || (solid_from && to_off)
}

/// The colour changes that play `pattern` when `current` is shown.
pub fn pattern_plan(current: SystemLedState, pattern: SystemLedState) -> (r: Vec<LedSegment>)
    ensures
        r@ == pattern_segments(current, pattern),
{
    match pattern {
        SystemLedState::BlinksRedFourTimes => {
            let mut v: Vec<LedSegment> = Vec::new();
            let mut i: usize = 0;
            while i < 8
                invariant
                    i <= 8,
                    v@ == blink_four_segments().take(i as int),
                decreases 8 - i,
            {
                let s = if i % 2 == 0 {
                    LedSegment {
                        pattern: SystemLedState::BlinksRedFourTimes,
                        fade: false,
                        pause_ms: BLINK_FOUR_PAUSE_MS,
                    }
                } else {
                    LedSegment { pattern: SystemLedState::Off, fade: false, pause_ms: BLINK_FOUR_PAUSE_MS }
                };
                proof {
                    assert(blink_four_segments().take(i as int + 1) =~= blink_four_segments().take(
                        i as int,
                    ).push(s));
                }
                v.push(s);
                i = i + 1;
            }
            proof {
                assert(blink_four_segments().take(8) =~= blink_four_segments());
            }
            v
        },
        SystemLedState::BlinksRedOncePerThirtySeconds => {
            let v = vec![
                LedSegment {
                    pattern: SystemLedState::BlinksRedOncePerThirtySeconds,
                    fade: false,
                    pause_ms: SLOW_BLINK_ON_MS,
                },
                LedSegment { pattern: SystemLedState::Off, fade: false, pause_ms: 0 },
            ];
            proof {
                assert(v@ =~= pattern_segments(current, pattern));
            }
            v
        },
        _ => {
            let v = vec![LedSegment { pattern, fade: fades_between(current, pattern), pause_ms: 0 }];
            proof {
                assert(v@ =~= pattern_segments(current, pattern));
            }
            v
        },
    }
}

impl<D: LedDriver> LedController<D> {
    /// A controller showing nothing, at full brightness.
    pub fn new(driver: D) -> (r: Self)
        ensures
            r@ == (LedControllerView {
                current_state: SystemLedState::Off,
                current_color: (0, 0, 0),
                brightness: 100,
                writes: Seq::empty(),
            }),
            r.driver_state() == driver,
    {
        LedController {
            driver,
            current_state: SystemLedState::Off,
            current_color: (0, 0, 0),
            brightness: 100,
            writes: Ghost(Seq::empty()),
        }
    }

    /// The pattern last asked for.
    pub fn current_state(&self) -> (r: SystemLedState)
        ensures
            r == self@.current_state,
    {
        self.current_state
    }

    /// The brightness (percent).
    pub fn brightness(&self) -> (r: u8)
        ensures
            r == self@.brightness,
    {
        self.brightness
    }

    /// The colour shown.
    pub fn current_color(&self) -> (r: Rgb)
        ensures
            r == self@.current_color,
    {
        self.current_color
    }

    /// Hands one colour to the driver.
    fn write_color(&mut self, c: Rgb) -> (r: Result<(), PeripheralError>)
        ensures
            final(self)@ == (LedControllerView { writes: old(self)@.writes.push(c), ..old(self)@ }),
            r == old(self).driver_state().color_result(c),
            final(self).driver_state() == old(self).driver_state().after_color(c),
    {
        let r = self.driver.set_color(c.0, c.1, c.2);
        self.writes = Ghost(self.writes@.push(c));
        r
    }

    /// Fades from `from` to `to` in ten steps with a short pause after each.
    fn fade_to<DL: LedDelay>(&mut self, from: Rgb, to: Rgb, delay: &mut DL) -> (r: Result<(), PeripheralError>)
        ensures
            final(self)@.current_state == old(self)@.current_state,
            final(self)@.current_color == old(self)@.current_color,
            final(self)@.brightness == old(self)@.brightness,
            r is Ok ==> final(self)@.writes == old(self)@.writes + fade_writes(from, to),
            r is Err ==> exists|w: Seq<Rgb>|
                final(self)@.writes == old(self)@.writes + w && failed_prefix(w, fade_writes(from, to)),
            ({
                let x = drive(old(self).driver_state(), fade_writes(from, to));
                &&& final(self).driver_state() == x.0
                &&& r == refusal(x)
                &&& final(self)@.writes == old(self)@.writes + fade_writes(from, to).take(x.1 as int)
            }),
    {
        let ghost w0 = self@.writes;
        let ghost d0 = self.driver;
        let ghost fw = fade_writes(from, to);
        let mut step: u32 = 1;
        while step <= FADE_STEPS
            invariant
                1 <= step <= FADE_STEPS + 1,
                self@.current_state == old(self)@.current_state,
                self@.current_color == old(self)@.current_color,
                self@.brightness == old(self)@.brightness,
                w0 == old(self)@.writes,
                d0 == old(self).driver_state(),
                fw == fade_writes(from, to),
                self@.writes == w0 + fw.take(step - 1),
                self.driver == drive(d0, fw.take(step - 1)).0,
                drive(d0, fw.take(step - 1)).2 is None,
            decreases FADE_STEPS + 1 - step,
        {
            let c: Rgb = (fade_step(from.0, to.0, step), fade_step(from.1, to.1, step), fade_step(from.2, to.2, step));
            let res = self.write_color(c);
            proof {
                assert(fw.take(step as int) =~= fw.take(step - 1).push(c));
                assert(fw.take(step as int).drop_last() =~= fw.take(step - 1));
                assert(self@.writes =~= w0 + fw.take(step as int));
                lemma_drive_len(d0, fw.take(step - 1));
            }
            if let Err(e) = res {
                proof {
                    assert(failed_prefix(fw.take(step as int), fw));
                    lemma_drive_stops(d0, fw, step as int);
                }
                return Err(e);
            }
            delay.delay_ms(FADE_DELAY_MS);
            step = step + 1;
        }
        proof {
            assert(fw.take(FADE_STEPS as int) =~= fw);
            lemma_drive_len(d0, fw);
        }
        Ok(())
    }

    /// Shows `pattern` at the current brightness: nothing is written when the
    /// colour is already shown; a change fades when `use_fade` is set and one end
    /// is black. The new colour counts as shown only once every write succeeded.
    pub fn update_color_with_delay<DL: LedDelay>(
        &mut self,
        pattern: SystemLedState,
        use_fade: bool,
        delay: &mut DL,
    ) -> (r: Result<(), PeripheralError>)
        ensures
            ({
                let o = old(self)@;
                let plan = color_writes(o.current_color, target_color(pattern, o.brightness), use_fade);
                &&& r is Ok ==> final(self)@ == LedControllerView {
                    current_color: target_color(pattern, o.brightness),
                    writes: o.writes + plan,
                    ..o
                }
                &&& r is Err ==> exists|w: Seq<Rgb>|
                    final(self)@ == LedControllerView { writes: o.writes + w, ..o } && failed_prefix(
                        w,
                        plan,
                    )
                &&& final(self).driver_state() == drive(old(self).driver_state(), plan).0
                &&& r == refusal(drive(old(self).driver_state(), plan))
                &&& final(self)@.writes == o.writes + plan.take(drive(old(self).driver_state(), plan).1 as int)
            }),
    {
        let ghost d0 = self.driver;
        let from = self.current_color;
        let to = pattern_color(pattern, self.brightness);
        if !same_color(from, to) {
            let black = same_color(from, (0, 0, 0)) || same_color(to, (0, 0, 0));
            if use_fade && black {
                self.fade_to(from, to, delay)?;
                proof {
                    lemma_fade_ends(from, to);
                }
            } else {
                let ghost w0 = self@.writes;
                let res = self.write_color(to);
                proof {
                    assert(seq![to].drop_last() =~= Seq::<Rgb>::empty());
                    assert(seq![to].take(1) =~= seq![to]);
                    assert(drive(d0, Seq::<Rgb>::empty()) == (d0, 0nat, None::<PeripheralError>));
                    assert(drive(d0, seq![to]).0 == d0.after_color(to));
                    match d0.color_result(to) {
                        Ok(u) => {
                            assert(u == ());
                        },
                        Err(e) => {},
                    }
                    assert(refusal(drive(d0, seq![to])) == d0.color_result(to));
                    assert(drive(d0, seq![to]).1 == 1);
                }
                if let Err(e) = res {
                    proof {
                        assert(self@.writes =~= w0 + seq![to]);
                        assert(failed_prefix(seq![to], seq![to]));
                    }
                    return Err(e);
                }
                proof {
                    assert(self@.writes =~= w0 + seq![to]);
                }
            }
            self.current_color = to;
        } else {
            proof {
                assert(self@.writes =~= self@.writes + Seq::<Rgb>::empty());
                assert(Seq::<Rgb>::empty().take(0) =~= Seq::<Rgb>::empty());
            }
        }
        Ok(())
    }
}


/// The state after playing `segs` from `o` without a failure.
pub open spec fn played(o: LedControllerView, segs: Seq<LedSegment>) -> LedControllerView {
    LedControllerView {
        current_color: run_color(o.current_color, o.brightness, segs),
        writes: o.writes + run_writes(o.current_color, o.brightness, segs),
        ..o
    }
}

/// `f` is the state after playing `segs` from `o` stopped at a failed write:
/// the segments before the failing one were played, and the failing one wrote
/// a prefix of its colours, up to the failed write.
pub open spec fn failed_run(o: LedControllerView, segs: Seq<LedSegment>, f: LedControllerView) -> bool {
    exists|j: int| 0 <= j < segs.len() && #[trigger] failed_at(o, segs, j, f)
}

/// `f` is the state after playing `segs` from `o` up to a failed write in
/// segment `j`.
pub open spec fn failed_at(o: LedControllerView, segs: Seq<LedSegment>, j: int, f: LedControllerView) -> bool {
    let p = played(o, segs.take(j));
    exists|w: Seq<Rgb>|
        f == LedControllerView { writes: p.writes + w, ..p } && failed_prefix(
            w,
            color_writes(p.current_color, target_color(segs[j].pattern, o.brightness), segs[j].fade),
        )
}

/// Playing two runs of segments one after the other plays their concatenation.
pub proof fn lemma_run_concat(c: Rgb, b: u8, s1: Seq<LedSegment>, s2: Seq<LedSegment>)
    ensures
        run_color(c, b, s1 + s2) == run_color(run_color(c, b, s1), b, s2),
        run_writes(c, b, s1 + s2) == run_writes(c, b, s1) + run_writes(run_color(c, b, s1), b, s2),
    decreases s2.len(),
{
    if s2.len() == 0 {
        assert(s1 + s2 =~= s1);
        assert(run_writes(c, b, s1) + Seq::<Rgb>::empty() =~= run_writes(c, b, s1));
    } else {
        lemma_run_concat(c, b, s1, s2.drop_last());
        assert((s1 + s2).drop_last() =~= s1 + s2.drop_last());
        assert((s1 + s2).last() == s2.last());
        if s2.drop_last().len() == 0 {
            assert(s1 + s2.drop_last() =~= s1);
        }
        assert(run_writes(c, b, s1 + s2) =~= run_writes(c, b, s1) + run_writes(
            run_color(c, b, s1),
            b,
            s2,
        ));
    }
}

/// The effect of one more segment.
proof fn lemma_run_push(c: Rgb, b: u8, segs: Seq<LedSegment>, s: LedSegment)
    ensures
        run_color(c, b, segs.push(s)) == target_color(s.pattern, b),
        run_writes(c, b, segs.push(s)) == run_writes(c, b, segs) + color_writes(
            run_color(c, b, segs),
            target_color(s.pattern, b),
            s.fade,
        ),
{
    assert(segs.push(s).drop_last() =~= segs);
}

impl<D: LedDriver> LedController<D> {
    /// Plays `segs` in order, pausing after each as asked; stops at the first
    /// failed write.
    fn apply_segments<DL: LedDelay>(&mut self, segs: &Vec<LedSegment>, delay: &mut DL) -> (r: Result<(), PeripheralError>)
        ensures
            r is Ok ==> final(self)@ == played(old(self)@, segs@),
            r is Err ==> failed_run(old(self)@, segs@, final(self)@),
            ({
                let x = drive(
                    old(self).driver_state(),
                    run_writes(old(self)@.current_color, old(self)@.brightness, segs@),
                );
                &&& final(self).driver_state() == x.0
                &&& r == refusal(x)
            }),
    {
        let ghost o = self@;
        let ghost d0 = self.driver;
        let mut i: usize = 0;
        proof {
            assert(run_writes(o.current_color, o.brightness, segs@.take(0)) =~= Seq::<Rgb>::empty()) by {
                assert(segs@.take(0) =~= Seq::<LedSegment>::empty());
            }
        }
        while i < segs.len()
            invariant
                i <= segs@.len(),
                o == old(self)@,
                d0 == old(self).driver_state(),
                self@ == played(o, segs@.take(i as int)),
                self.driver == drive(d0, run_writes(o.current_color, o.brightness, segs@.take(i as int))).0,
                drive(d0, run_writes(o.current_color, o.brightness, segs@.take(i as int))).2 is None,
            decreases segs@.len() - i,
        {
            let seg = segs[i];
            let ghost before = self@;
            let ghost db = self.driver;
            let res = self.update_color_with_delay(seg.pattern, seg.fade, delay);
            proof {
                lemma_run_push(o.current_color, o.brightness, segs@.take(i as int), seg);
                assert(segs@.take(i as int + 1) =~= segs@.take(i as int).push(seg));
                let prev = run_writes(o.current_color, o.brightness, segs@.take(i as int));
                let plan = color_writes(before.current_color, target_color(seg.pattern, before.brightness), seg.fade);
                lemma_drive_concat(d0, prev, plan);
            }
            if let Err(e) = res {
                proof {
                    let k = i as int + 1;
                    let head = segs@.take(k);
                    let tail = segs@.skip(k);
                    assert(head + tail =~= segs@);
                    lemma_run_concat(o.current_color, o.brightness, head, tail);
                    lemma_drive_concat(
                        d0,
                        run_writes(o.current_color, o.brightness, head),
                        run_writes(run_color(o.current_color, o.brightness, head), o.brightness, tail),
                    );
                }
                proof {
                    let w = choose|w: Seq<Rgb>|
                        self@ == LedControllerView { writes: before.writes + w, ..before }
                            && failed_prefix(
                            w,
                            color_writes(
                                before.current_color,
                                target_color(seg.pattern, before.brightness),
                                seg.fade,
                            ),
                        );
                    assert(segs@[i as int] == seg);
                    assert(failed_at(o, segs@, i as int, self@));
                    assert(failed_run(o, segs@, self@));
                }
                return Err(e);
            }
            proof {
                assert(self@.writes =~= played(o, segs@.take(i as int + 1)).writes);
            }
            if seg.pause_ms > 0 {
                delay.delay_ms(seg.pause_ms);
            }
            i = i + 1;
        }
        proof {
            assert(segs@.take(segs@.len() as int) =~= segs@);
        }
        Ok(())
    }

    /// Plays `pattern`. The two blink patterns end with the LED off and count as
    /// off afterwards; the others stay. Changes between off and a solid colour
    /// fade. A failed write stops the pattern and is returned.
    pub fn set_pattern_with_delay<DL: LedDelay>(&mut self, pattern: SystemLedState, delay: &mut DL) -> (r: Result<(), PeripheralError>)
        ensures
            ({
                let o = old(self)@;
                let segs = pattern_segments(o.current_state, pattern);
                let blink = pattern == SystemLedState::BlinksRedFourTimes || pattern
                    == SystemLedState::BlinksRedOncePerThirtySeconds;
                &&& r is Ok ==> final(self)@ == LedControllerView {
                    current_state: if blink {
                        SystemLedState::Off
                    } else {
                        pattern
                    },
                    ..played(o, segs)
                }
                &&& r is Err ==> failed_run(LedControllerView { current_state: pattern, ..o }, segs, final(self)@)
                &&& final(self).driver_state() == drive(
                    old(self).driver_state(),
                    run_writes(o.current_color, o.brightness, segs),
                ).0
                &&& r == refusal(drive(old(self).driver_state(), run_writes(o.current_color, o.brightness, segs)))
            }),
    {
        let segs = pattern_plan(self.current_state, pattern);
        self.current_state = pattern;
        self.apply_segments(&segs, delay)?;
        match pattern {
            SystemLedState::BlinksRedFourTimes | SystemLedState::BlinksRedOncePerThirtySeconds => {
                self.current_state = SystemLedState::Off;
            },
            _ => {},
        }
        Ok(())
    }

    /// Plays `pattern` with the blocking delay.
    pub fn set_pattern(&mut self, pattern: SystemLedState) -> (r: Result<(), PeripheralError>)
        ensures
            ({
                let o = old(self)@;
                let segs = pattern_segments(o.current_state, pattern);
                let blink = pattern == SystemLedState::BlinksRedFourTimes || pattern
                    == SystemLedState::BlinksRedOncePerThirtySeconds;
                &&& r is Ok ==> final(self)@ == LedControllerView {
                    current_state: if blink {
                        SystemLedState::Off
                    } else {
                        pattern
                    },
                    ..played(o, segs)
                }
                &&& r is Err ==> failed_run(LedControllerView { current_state: pattern, ..o }, segs, final(self)@)
                &&& final(self).driver_state() == drive(
                    old(self).driver_state(),
                    run_writes(o.current_color, o.brightness, segs),
                ).0
                &&& r == refusal(drive(old(self).driver_state(), run_writes(o.current_color, o.brightness, segs)))
            }),
    {
        let mut delay = BlockingDelay;
        self.set_pattern_with_delay(pattern, &mut delay)
    }

    /// Sets the brightness and shows the current pattern at it, without a fade.
    pub fn set_brightness(&mut self, brightness: u8) -> (r: Result<(), PeripheralError>)
        ensures
            ({
                let o = LedControllerView { brightness, ..old(self)@ };
                let plan = color_writes(o.current_color, target_color(o.current_state, brightness), false);
                &&& r is Ok ==> final(self)@ == LedControllerView {
                    current_color: target_color(o.current_state, brightness),
                    writes: o.writes + plan,
                    ..o
                }
                &&& r is Err ==> exists|w: Seq<Rgb>|
                    final(self)@ == LedControllerView { writes: o.writes + w, ..o } && failed_prefix(w, plan)
                &&& final(self).driver_state() == drive(old(self).driver_state(), plan).0
                &&& r == refusal(drive(old(self).driver_state(), plan))
            }),
    {
        self.brightness = brightness;
        let state = self.current_state;
        let mut delay = BlockingDelay;
        self.update_color_with_delay(state, false, &mut delay)
    }
}


/// Where the LED run loop stands between two events.
#[derive(Clone, Copy, PartialEq, Eq, Structural, Debug)]
pub struct LedRun {
    /// Pattern being played.
    pub state: SystemLedState,
    /// Whether the slow blink is lit.
    pub led_on: bool,
}

/// What the run loop waits for next.
#[derive(Clone, Copy, PartialEq, Eq, Structural, Debug)]
pub enum LedWait {
    /// The next command.
    Command,
    /// The next command, or the given time (ms) after the last slow-blink
    /// toggle, whichever comes first.
    CommandOrTimeout(u32),
}

/// What ended a wait of the run loop.
#[derive(Clone, Copy, PartialEq, Eq, Structural, Debug)]
pub enum LedEvent {
    /// A command arrived.
    Command(LedCommand),
    /// The slow-blink time ran out.
    Timeout,
}

/// The result of one step of the run loop.
#[derive(Clone, Copy, PartialEq, Eq, Structural, Debug)]
pub struct LedStep {
    /// The new loop state.
    pub run: LedRun,
    /// What to wait for next.
    pub wait: LedWait,
    /// Whether every driver write succeeded; failures were reported.
    pub driver_ok: bool,
}

/// A four-blink is one-shot: afterwards the loop stands at off.
pub open spec fn settle(run: LedRun) -> LedRun {
    if run.state == SystemLedState::BlinksRedFourTimes {
        LedRun { state: SystemLedState::Off, ..run }
    } else {
        run
    }
}

/// The wait of a loop state: the slow blink waits at most until its next
/// toggle (half a second lit, thirty seconds dark); every other pattern waits
/// for a command.
pub open spec fn run_wait(run: LedRun) -> LedWait {
    if run.state == SystemLedState::BlinksRedOncePerThirtySeconds {
        LedWait::CommandOrTimeout(
            if run.led_on {
                SLOW_BLINK_ON_MS
            } else {
                SLOW_BLINK_PERIOD_MS
            },
        )
    } else {
        LedWait::Command
    }
}

/// The colour changes made on entering a loop state while `current` is the
/// pattern last asked for: none for the slow blink (its toggles come with the
/// timeouts), four blinks then off, or the pattern itself.
pub open spec fn enter_segments(current: SystemLedState, run: LedRun) -> Seq<LedSegment> {
    match run.state {
        SystemLedState::BlinksRedOncePerThirtySeconds => Seq::empty(),
        SystemLedState::BlinksRedFourTimes => blink_four_segments().push(
            segment(SystemLedState::Off, false, 0),
        ),
        p => seq![segment(p, uses_fade(current, p), 0)],
    }
}

/// The client after the loop reports pattern `s`.
pub open spec fn led_reported(c: LedClientView, s: SystemLedState) -> LedClientView {
    if c.enabled && c.last_state != Some(s) {
        LedClientView { last_state: Some(s), pending: c.pending.push(crate::model::TelemetryRecord::Led(s)), ..c }
    } else {
        c
    }
}

/// The reports made on entering a loop state: a four-blink reports off once done.
pub open spec fn enter_reports(c: LedClientView, run: LedRun) -> LedClientView {
    if run.state == SystemLedState::BlinksRedFourTimes {
        led_reported(c, SystemLedState::Off)
    } else {
        c
    }
}

/// The loop state right after an event. In the slow blink a new pattern starts
/// dark and a timeout toggles the blink; elsewhere only a new pattern counts.
pub open spec fn event_run(run: LedRun, ev: LedEvent) -> LedRun {
    let slow = run.state == SystemLedState::BlinksRedOncePerThirtySeconds;
    match ev {
        LedEvent::Command(LedCommand::State(new)) => if slow {
            LedRun { state: new, led_on: false }
        } else {
            LedRun { state: new, ..run }
        },
        LedEvent::Command(LedCommand::SetBrightness(_)) => run,
        LedEvent::Timeout => if slow {
            LedRun { led_on: !run.led_on, ..run }
        } else {
            run
        },
    }
}

/// Whether the event ends the wait: every event of the slow blink and every new
/// pattern; elsewhere a brightness change or a stray timeout keeps waiting.
pub open spec fn event_reenters(run: LedRun, ev: LedEvent) -> bool {
    run.state == SystemLedState::BlinksRedOncePerThirtySeconds || ev matches LedEvent::Command(
        LedCommand::State(_),
    )
}

/// The brightness after an event.
pub open spec fn event_brightness(b: u8, ev: LedEvent) -> u8 {
    match ev {
        LedEvent::Command(LedCommand::SetBrightness(nb)) => nb,
        _ => b,
    }
}

/// The pattern last asked for, after the event: only a new pattern during the
/// slow blink records it at once.
pub open spec fn event_current(current: SystemLedState, run: LedRun, ev: LedEvent) -> SystemLedState {
    match ev {
        LedEvent::Command(LedCommand::State(new)) => if run.state
            == SystemLedState::BlinksRedOncePerThirtySeconds {
            new
        } else {
            current
        },
        _ => current,
    }
}

/// The colour changes an event makes before the loop re-enters: a brightness
/// change redraws the lit slow blink or the current pattern; a slow-blink
/// timeout lights or darkens it.
pub open spec fn event_segments(run: LedRun, ev: LedEvent) -> Seq<LedSegment> {
    let slow = run.state == SystemLedState::BlinksRedOncePerThirtySeconds;
    match ev {
        LedEvent::Command(LedCommand::SetBrightness(_)) => if slow {
            if run.led_on {
                seq![segment(SystemLedState::BlinksRedOncePerThirtySeconds, false, 0)]
            } else {
                Seq::empty()
            }
        } else {
            seq![segment(run.state, false, 0)]
        },
        LedEvent::Timeout => if slow {
            seq![
                segment(
                    if run.led_on {
                        SystemLedState::Off
                    } else {
                        SystemLedState::BlinksRedOncePerThirtySeconds
                    },
                    false,
                    0,
                ),
            ]
        } else {
            Seq::empty()
        },
        _ => Seq::empty(),
    }
}

/// The loop state after an event and the re-entry it causes.
pub open spec fn after_event(run: LedRun, ev: LedEvent) -> LedRun {
    if event_reenters(run, ev) {
        settle(event_run(run, ev))
    } else {
        run
    }
}

/// All colour changes of an event, re-entry included.
pub open spec fn all_event_segments(current: SystemLedState, run: LedRun, ev: LedEvent) -> Seq<LedSegment> {
    if event_reenters(run, ev) {
        event_segments(run, ev) + enter_segments(event_current(current, run, ev), event_run(run, ev))
    } else {
        event_segments(run, ev)
    }
}

/// The pattern last asked for after an event and its re-entry.
pub open spec fn current_after_event(current: SystemLedState, run: LedRun, ev: LedEvent) -> SystemLedState {
    if event_reenters(run, ev) {
        if event_run(run, ev).state == SystemLedState::BlinksRedOncePerThirtySeconds {
            event_current(current, run, ev)
        } else {
            settle(event_run(run, ev)).state
        }
    } else {
        current
    }
}

/// The colours a segment hands to the driver from `c`: all of its plan when it
/// completes (`None`), or the first `k` of them when the `k`-th was refused
/// (`Some(k)`).
pub open spec fn segment_writes_with(c: Rgb, b: u8, s: LedSegment, f: Option<nat>) -> Seq<Rgb> {
    let plan = color_writes(c, target_color(s.pattern, b), s.fade);
    match f {
        None => plan,
        Some(k) => plan.take(k as int),
    }
}

/// The colour shown after a segment: its target when it completed, else the
/// colour shown before.
pub open spec fn segment_color_with(c: Rgb, b: u8, s: LedSegment, f: Option<nat>) -> Rgb {
    match f {
        None => target_color(s.pattern, b),
        Some(_) => c,
    }
}

/// The colour shown after playing `segs` from `c` with the outcomes `fs`.
pub open spec fn outcome_color(c: Rgb, b: u8, segs: Seq<LedSegment>, fs: Seq<Option<nat>>) -> Rgb
    decreases segs.len(),
{
    if segs.len() == 0 || fs.len() == 0 {
        c
    } else {
        segment_color_with(outcome_color(c, b, segs.drop_last(), fs.drop_last()), b, segs.last(), fs.last())
    }
}

/// The colours handed to the driver while playing `segs` from `c` with the
/// outcomes `fs`.
pub open spec fn outcome_writes(c: Rgb, b: u8, segs: Seq<LedSegment>, fs: Seq<Option<nat>>) -> Seq<Rgb>
    decreases segs.len(),
{
    if segs.len() == 0 || fs.len() == 0 {
        Seq::empty()
    } else {
        outcome_writes(c, b, segs.drop_last(), fs.drop_last()) + segment_writes_with(
            outcome_color(c, b, segs.drop_last(), fs.drop_last()),
            b,
            segs.last(),
            fs.last(),
        )
    }
}

/// `fs` are possible outcomes of playing `segs` from `c`: one per segment, and a
/// failed segment refused one of the colours it planned.
pub open spec fn outcome_valid(c: Rgb, b: u8, segs: Seq<LedSegment>, fs: Seq<Option<nat>>) -> bool
    decreases segs.len(),
{
    &&& fs.len() == segs.len()
    &&& segs.len() > 0 ==> {
        &&& outcome_valid(c, b, segs.drop_last(), fs.drop_last())
        &&& match fs.last() {
            None => true,
            Some(k) => 1 <= k <= color_writes(
                outcome_color(c, b, segs.drop_last(), fs.drop_last()),
                target_color(segs.last().pattern, b),
                segs.last().fade,
            ).len(),
        }
    }
}

/// The number of failed segments.
pub open spec fn failures(fs: Seq<Option<nat>>) -> nat
    decreases fs.len(),
{
    if fs.len() == 0 {
        0
    } else {
        failures(fs.drop_last()) + if fs.last() is Some {
            1nat
        } else {
            0nat
        }
    }
}

/// The driver after being handed the colours `ws` one by one, how many it was
/// handed, and the error of the one it refused: handing over stops at the
/// first refusal.
pub open spec fn drive<D: LedDriver>(d: D, ws: Seq<Rgb>) -> (D, nat, Option<PeripheralError>)
    decreases ws.len(),
{
    if ws.len() == 0 {
        (d, 0, None)
    } else {
        let p = drive(d, ws.drop_last());
        if p.2 is Some {
            p
        } else {
            (
                p.0.after_color(ws.last()),
                ws.len(),
                match p.0.color_result(ws.last()) {
                    Ok(_) => None,
                    Err(e) => Some(e),
                },
            )
        }
    }
}

/// The result of handing colours over: the refusal's error, if any.
pub open spec fn refusal<D>(x: (D, nat, Option<PeripheralError>)) -> Result<(), PeripheralError> {
    match x.2 {
        None => Ok(()),
        Some(e) => Err(e),
    }
}

/// The driver after one segment from colour `c`, and the segment's outcome:
/// `None` when the driver took every colour, `Some(k)` when it refused the
/// `k`-th.
pub open spec fn segment_drive<D: LedDriver>(d: D, c: Rgb, b: u8, s: LedSegment) -> (D, Option<nat>) {
    let x = drive(d, color_writes(c, target_color(s.pattern, b), s.fade));
    (
        x.0,
        if x.2 is Some {
            Some(x.1)
        } else {
            None
        },
    )
}

/// The driver after playing `segs` from colour `c` segment by segment, carrying
/// on after a refused colour, and the outcome of each segment.
pub open spec fn segments_drive<D: LedDriver>(d: D, c: Rgb, b: u8, segs: Seq<LedSegment>) -> (
    D,
    Seq<Option<nat>>,
)
    decreases segs.len(),
{
    if segs.len() == 0 {
        (d, Seq::empty())
    } else {
        let p = segments_drive(d, c, b, segs.drop_last());
        let x = segment_drive(p.0, outcome_color(c, b, segs.drop_last(), p.1), b, segs.last());
        (x.0, p.1.push(x.1))
    }
}

/// The client after the loop reports the errors `errs`, in order.
pub open spec fn errors_reported(c: LedClientView, errs: Seq<crate::model::TelemetryRecord>) -> LedClientView {
    if c.enabled {
        LedClientView { pending: c.pending + errs, ..c }
    } else {
        c
    }
}

/// The error record of a segment whose colour the driver refused; none when it
/// took them all.
pub open spec fn segment_error<D: LedDriver>(d: D, c: Rgb, b: u8, s: LedSegment) -> Seq<
    crate::model::TelemetryRecord,
> {
    match drive(d, color_writes(c, target_color(s.pattern, b), s.fade)).2 {
        Some(e) => seq![crate::model::TelemetryRecord::PeripheralError(e)],
        None => Seq::empty(),
    }
}

/// The error records of playing `segs` segment by segment, in order.
pub open spec fn segments_errors<D: LedDriver>(d: D, c: Rgb, b: u8, segs: Seq<LedSegment>) -> Seq<
    crate::model::TelemetryRecord,
>
    decreases segs.len(),
{
    if segs.len() == 0 {
        Seq::empty()
    } else {
        let p = segments_drive(d, c, b, segs.drop_last());
        segments_errors(d, c, b, segs.drop_last()) + segment_error(
            p.0,
            outcome_color(c, b, segs.drop_last(), p.1),
            b,
            segs.last(),
        )
    }
}

/// The driver after playing `segs`.
pub open spec fn before_driver<D: LedDriver>(d: D, c: Rgb, b: u8, segs: Seq<LedSegment>) -> D {
    segments_drive(d, c, b, segs).0
}

/// The client after the loop enters `run` from colour `c`, pattern `current`
/// and driver `d`: the errors of its colour changes in order; a four-blink
/// reports off after its blinks and before the error of its final darkening.
pub open spec fn enter_client<D: LedDriver>(
    cl: LedClientView,
    d: D,
    c: Rgb,
    b: u8,
    current: SystemLedState,
    run: LedRun,
) -> LedClientView {
    if run.state == SystemLedState::BlinksRedFourTimes {
        let segs = blink_four_segments();
        let p = segments_drive(d, c, b, segs);
        errors_reported(
            led_reported(errors_reported(cl, segments_errors(d, c, b, segs)), SystemLedState::Off),
            segment_error(p.0, outcome_color(c, b, segs, p.1), b, segment(SystemLedState::Off, false, 0)),
        )
    } else {
        errors_reported(cl, segments_errors(d, c, b, enter_segments(current, run)))
    }
}

/// The client after the loop handles event `ev`: the errors of the event's own
/// colour changes; then, when the loop re-enters, the report of the new pattern
/// and what entering it reports.
pub open spec fn event_client<D: LedDriver>(
    cl: LedClientView,
    d: D,
    c: Rgb,
    b: u8,
    current: SystemLedState,
    run: LedRun,
    ev: LedEvent,
) -> LedClientView {
    let es = event_segments(run, ev);
    let e1 = errors_reported(cl, segments_errors(d, c, b, es));
    if event_reenters(run, ev) {
        let p = segments_drive(d, c, b, es);
        enter_client(
            led_reported(e1, event_run(run, ev).state),
            p.0,
            outcome_color(c, b, es, p.1),
            b,
            event_current(current, run, ev),
            event_run(run, ev),
        )
    } else {
        e1
    }
}

/// Playing a single segment, or none.
pub proof fn lemma_segments_small<D: LedDriver>(d: D, c: Rgb, b: u8, sg: LedSegment)
    ensures
        segments_errors(d, c, b, seq![sg]) == segment_error(d, c, b, sg),
        segments_drive(d, c, b, seq![sg]) == (segment_drive(d, c, b, sg).0, seq![segment_drive(d, c, b, sg).1]),
        segments_errors(d, c, b, Seq::empty()) == Seq::<crate::model::TelemetryRecord>::empty(),
        segments_drive(d, c, b, Seq::empty()) == (d, Seq::<Option<nat>>::empty()),
{
    let e = Seq::<LedSegment>::empty();
    assert(seq![sg].drop_last() =~= e);
    assert(segments_drive(d, c, b, e) == (d, Seq::<Option<nat>>::empty()));
    assert(segments_errors(d, c, b, e) =~= Seq::<crate::model::TelemetryRecord>::empty());
    assert(outcome_color(c, b, e, Seq::<Option<nat>>::empty()) == c);
    assert(seq![sg].last() == sg);
    assert(Seq::<crate::model::TelemetryRecord>::empty() + segment_error(d, c, b, sg) =~= segment_error(d, c, b, sg));
    assert(Seq::<Option<nat>>::empty().push(segment_drive(d, c, b, sg).1) =~= seq![segment_drive(d, c, b, sg).1]);
}

/// Reporting `a` and then `b` is reporting `a + b`.
pub proof fn lemma_errors_reported_concat(
    c: LedClientView,
    a: Seq<crate::model::TelemetryRecord>,
    b: Seq<crate::model::TelemetryRecord>,
)
    ensures
        errors_reported(errors_reported(c, a), b) == errors_reported(c, a + b),
        errors_reported(c, Seq::empty()) == c,
{
    assert(c.pending + a + b =~= c.pending + (a + b));
    assert(c.pending + Seq::<crate::model::TelemetryRecord>::empty() =~= c.pending);
}

/// Handing colours over hands over at most all of them; all of them when none
/// is refused, at least one when one is.
pub proof fn lemma_drive_len<D: LedDriver>(d: D, ws: Seq<Rgb>)
    ensures
        drive(d, ws).1 <= ws.len(),
        drive(d, ws).2 is None ==> drive(d, ws).1 == ws.len(),
        drive(d, ws).2 is Some ==> drive(d, ws).1 >= 1,
    decreases ws.len(),
{
    if ws.len() > 0 {
        lemma_drive_len(d, ws.drop_last());
    }
}

/// After a refusal among the first `k` colours, the rest are not handed over.
pub proof fn lemma_drive_stops<D: LedDriver>(d: D, ws: Seq<Rgb>, k: int)
    requires
        0 <= k <= ws.len(),
        drive(d, ws.take(k)).2 is Some,
    ensures
        drive(d, ws) == drive(d, ws.take(k)),
    decreases ws.len(),
{
    if ws.len() == k {
        assert(ws.take(k) =~= ws);
    } else {
        assert(ws.drop_last().take(k) =~= ws.take(k));
        lemma_drive_stops(d, ws.drop_last(), k);
    }
}

/// Handing over `a` and then `b` is handing over `a + b`.
pub proof fn lemma_drive_concat<D: LedDriver>(d: D, a: Seq<Rgb>, b: Seq<Rgb>)
    ensures
        drive(d, a + b) == (if drive(d, a).2 is Some {
            drive(d, a)
        } else {
            let y = drive(drive(d, a).0, b);
            (y.0, a.len() + y.1, y.2)
        }),
    decreases b.len(),
{
    lemma_drive_len(d, a);
    if b.len() == 0 {
        assert(a + b =~= a);
    } else {
        lemma_drive_concat(d, a, b.drop_last());
        assert((a + b).drop_last() =~= a + b.drop_last());
        assert((a + b).last() == b.last());
        lemma_drive_len(drive(d, a).0, b.drop_last());
    }
}

/// Playing two runs of segments one after the other drives the driver as
/// playing their concatenation does.
pub proof fn lemma_segments_drive_concat<D: LedDriver>(
    d: D,
    c: Rgb,
    b: u8,
    s1: Seq<LedSegment>,
    s2: Seq<LedSegment>,
)
    ensures
        segments_drive(d, c, b, s1).1.len() == s1.len(),
        segments_drive(d, c, b, s1 + s2) == ({
            let p = segments_drive(d, c, b, s1);
            let q = segments_drive(p.0, outcome_color(c, b, s1, p.1), b, s2);
            (q.0, p.1 + q.1)
        }),
    decreases s1.len() + s2.len(),
{
    lemma_segments_drive_len(d, c, b, s1);
    let p = segments_drive(d, c, b, s1);
    if s2.len() == 0 {
        assert(s1 + s2 =~= s1);
        assert(p.1 + Seq::<Option<nat>>::empty() =~= p.1);
    } else {
        lemma_segments_drive_concat(d, c, b, s1, s2.drop_last());
        assert((s1 + s2).drop_last() =~= s1 + s2.drop_last());
        assert((s1 + s2).last() == s2.last());
        let c1 = outcome_color(c, b, s1, p.1);
        let q0 = segments_drive(p.0, c1, b, s2.drop_last());
        lemma_segments_drive_len(p.0, c1, b, s2.drop_last());
        lemma_outcome_concat(c, b, s1, s2.drop_last(), p.1, q0.1);
        let q = segments_drive(p.0, c1, b, s2);
        assert((p.1 + q0.1).push(q.1.last()) =~= p.1 + q.1);
    }
}

/// Playing segments gives one outcome per segment.
pub proof fn lemma_segments_drive_len<D: LedDriver>(d: D, c: Rgb, b: u8, segs: Seq<LedSegment>)
    ensures
        segments_drive(d, c, b, segs).1.len() == segs.len(),
    decreases segs.len(),
{
    if segs.len() > 0 {
        lemma_segments_drive_len(d, c, b, segs.drop_last());
    }
}

/// Outcomes of consecutive runs of segments compose.
pub proof fn lemma_outcome_concat(
    c: Rgb,
    b: u8,
    s1: Seq<LedSegment>,
    s2: Seq<LedSegment>,
    f1: Seq<Option<nat>>,
    f2: Seq<Option<nat>>,
)
    requires
        f1.len() == s1.len(),
        f2.len() == s2.len(),
    ensures
        outcome_color(c, b, s1 + s2, f1 + f2) == outcome_color(outcome_color(c, b, s1, f1), b, s2, f2),
        outcome_writes(c, b, s1 + s2, f1 + f2) == outcome_writes(c, b, s1, f1) + outcome_writes(
            outcome_color(c, b, s1, f1),
            b,
            s2,
            f2,
        ),
        outcome_valid(c, b, s1 + s2, f1 + f2) == (outcome_valid(c, b, s1, f1) && outcome_valid(
            outcome_color(c, b, s1, f1),
            b,
            s2,
            f2,
        )),
        failures(f1 + f2) == failures(f1) + failures(f2),
    decreases s2.len(),
{
    if s2.len() == 0 {
        assert(s1 + s2 =~= s1);
        assert(f1 + f2 =~= f1);
        assert(outcome_writes(c, b, s1, f1) + Seq::<Rgb>::empty() =~= outcome_writes(c, b, s1, f1));
    } else {
        lemma_outcome_concat(c, b, s1, s2.drop_last(), f1, f2.drop_last());
        assert((s1 + s2).drop_last() =~= s1 + s2.drop_last());
        assert((f1 + f2).drop_last() =~= f1 + f2.drop_last());
        assert((s1 + s2).last() == s2.last());
        assert((f1 + f2).last() == f2.last());
        assert(outcome_writes(c, b, s1 + s2, f1 + f2) =~= outcome_writes(c, b, s1, f1) + outcome_writes(
            outcome_color(c, b, s1, f1),
            b,
            s2,
            f2,
        ));
    }
}

/// The outcome of a single segment.
proof fn lemma_outcome_single(c: Rgb, b: u8, s: LedSegment, f: Option<nat>)
    ensures
        outcome_writes(c, b, seq![s], seq![f]) == segment_writes_with(c, b, s, f),
        outcome_color(c, b, seq![s], seq![f]) == segment_color_with(c, b, s, f),
        outcome_valid(c, b, seq![s], seq![f]) == (match f {
            None => true,
            Some(k) => 1 <= k <= color_writes(c, target_color(s.pattern, b), s.fade).len(),
        }),
        failures(seq![f]) == (if f is Some {
            1nat
        } else {
            0nat
        }),
{
    let es = Seq::<LedSegment>::empty();
    let ef = Seq::<Option<nat>>::empty();
    assert(seq![s].drop_last() =~= es);
    assert(seq![f].drop_last() =~= ef);
    assert(outcome_valid(c, b, es, ef));
    assert(outcome_writes(c, b, es, ef) =~= Seq::<Rgb>::empty());
    assert(failures(ef) == 0);
    assert(Seq::<Rgb>::empty() + segment_writes_with(c, b, s, f) =~= segment_writes_with(c, b, s, f));
}

/// With no failure, playing with outcomes is plain playing.
pub proof fn lemma_outcome_clean(c: Rgb, b: u8, segs: Seq<LedSegment>, fs: Seq<Option<nat>>)
    requires
        fs.len() == segs.len(),
        failures(fs) == 0,
    ensures
        outcome_color(c, b, segs, fs) == run_color(c, b, segs),
        outcome_writes(c, b, segs, fs) == run_writes(c, b, segs),
    decreases segs.len(),
{
    if segs.len() > 0 {
        lemma_outcome_clean(c, b, segs.drop_last(), fs.drop_last());
        if segs.drop_last().len() > 0 {
            assert(run_color(c, b, segs.drop_last()) == target_color(segs.drop_last().last().pattern, b));
        }
    }
}

/// `longer` starts with `shorter`.
pub open spec fn extends<T>(longer: Seq<T>, shorter: Seq<T>) -> bool {
    &&& shorter.len() <= longer.len()
    &&& forall|i: int| 0 <= i < shorter.len() ==> longer[i] == #[trigger] shorter[i]
}

/// Every record that the LED loop added after `old_len` is a pattern report or
/// a driver error.
pub open spec fn led_records_since(p: Seq<crate::model::TelemetryRecord>, old_len: int) -> bool {
    forall|i: int|
        old_len <= i < p.len() ==> (#[trigger] p[i] is Led || p[i] is PeripheralError)
}

/// A sequence starts with itself.
proof fn lemma_extends_refl<T>(a: Seq<T>)
    ensures
        extends(a, a),
{
}

/// No record added, nothing to check.
proof fn lemma_no_records(p: Seq<crate::model::TelemetryRecord>)
    ensures
        extends(p, p),
        led_records_since(p, p.len() as int),
{
}

/// A pattern report only appends a pattern record.
proof fn lemma_report_records(c: LedClientView, s: SystemLedState)
    ensures
        extends(led_reported(c, s).pending, c.pending),
        led_records_since(led_reported(c, s).pending, c.pending.len() as int),
{
}

/// Colour writes only grow, and growth composes.
proof fn lemma_writes_chain(a: Seq<Rgb>, b: Seq<Rgb>, c: Seq<Rgb>)
    requires
        extends(b, a),
        extends(c, b),
    ensures
        extends(c, a),
{
    assert forall|i: int| 0 <= i < a.len() implies c[i] == #[trigger] a[i] by {
        assert(c[i] == b[i]);
    }
}

/// A pattern report depends only on whether reporting is on and on the last
/// pattern reported, not on the records already waiting.
proof fn lemma_reports_shift(c: LedClientView, d: LedClientView, run: LedRun, s: SystemLedState)
    requires
        c.enabled == d.enabled,
        c.last_state == d.last_state,
    ensures
        led_reported(d, s).pending.len() - d.pending.len() == led_reported(c, s).pending.len() - c.pending.len(),
        led_reported(d, s).last_state == led_reported(c, s).last_state,
        led_reported(d, s).enabled == d.enabled,
        enter_reports(d, run).pending.len() - d.pending.len() == enter_reports(c, run).pending.len()
            - c.pending.len(),
        enter_reports(d, run).last_state == enter_reports(c, run).last_state,
        enter_reports(d, run).enabled == d.enabled,
{
}

/// `v` and `c` are what playing `segs` at brightness `b` from `o` and `c0` gave
/// with the outcomes `fs`, failures reported.
spec fn played_with(
    o: LedControllerView,
    c0: LedClientView,
    b: u8,
    segs: Seq<LedSegment>,
    fs: Seq<Option<nat>>,
    v: LedControllerView,
    c: LedClientView,
    ok: bool,
) -> bool {
    &&& outcome_valid(o.current_color, b, segs, fs)
    &&& v.writes == o.writes + outcome_writes(o.current_color, b, segs, fs)
    &&& v.current_color == outcome_color(o.current_color, b, segs, fs)
    &&& ok == (failures(fs) == 0)
    &&& c.pending.len() == c0.pending.len() + (if c0.enabled {
        failures(fs) as int
    } else {
        0int
    })
    &&& c.last_state == c0.last_state
    &&& c.enabled == c0.enabled
}

/// Record growth composes.
proof fn lemma_records_chain(
    a: Seq<crate::model::TelemetryRecord>,
    b: Seq<crate::model::TelemetryRecord>,
    c: Seq<crate::model::TelemetryRecord>,
)
    requires
        extends(b, a),
        extends(c, b),
        led_records_since(b, a.len() as int),
        led_records_since(c, b.len() as int),
    ensures
        extends(c, a),
        led_records_since(c, a.len() as int),
{
    assert forall|i: int| a.len() <= i < c.len() implies (#[trigger] c[i] is Led || c[i] is PeripheralError) by {
        if i < b.len() {
            assert(c[i] == b[i]);
        }
    }
    assert forall|i: int| 0 <= i < a.len() implies c[i] == #[trigger] a[i] by {
        assert(c[i] == b[i]);
    }
}

impl<D: LedDriver> LedController<D> {
    /// Shows `pattern`, reporting a failure instead of returning it.
    fn update_reporting<DL: LedDelay>(
        &mut self,
        seg: LedSegment,
        delay: &mut DL,
        client: &mut LedTelemetryClient,
    ) -> (r: (bool, Ghost<Option<nat>>))
        ensures
            final(self)@.current_state == old(self)@.current_state,
            final(self)@.brightness == old(self)@.brightness,
            final(client)@.enabled == old(client)@.enabled,
            final(client)@.last_state == old(client)@.last_state,
            r.0 ==> final(self)@ == played(old(self)@, seq![seg]),
            r.0 ==> final(client)@ == old(client)@,
            extends(final(self)@.writes, old(self)@.writes),
            extends(final(client)@.pending, old(client)@.pending),
            led_records_since(final(client)@.pending, old(client)@.pending.len() as int),
            r.0 == (r.1@ is None),
            outcome_valid(
                old(self)@.current_color,
                old(self)@.brightness,
                seq![seg],
                seq![r.1@],
            ),
            final(self)@.writes == old(self)@.writes + outcome_writes(
                old(self)@.current_color,
                old(self)@.brightness,
                seq![seg],
                seq![r.1@],
            ),
            final(self)@.current_color == outcome_color(
                old(self)@.current_color,
                old(self)@.brightness,
                seq![seg],
                seq![r.1@],
            ),
            final(client)@.pending.len() == old(client)@.pending.len() + (if old(client)@.enabled
                && r.1@ is Some {
                1int
            } else {
                0int
            }),
            final(self).driver_state() == segment_drive(
                old(self).driver_state(),
                old(self)@.current_color,
                old(self)@.brightness,
                seg,
            ).0,
            r.1@ == segment_drive(
                old(self).driver_state(),
                old(self)@.current_color,
                old(self)@.brightness,
                seg,
            ).1,
            final(client)@ == errors_reported(
                old(client)@,
                segment_error(old(self).driver_state(), old(self)@.current_color, old(self)@.brightness, seg),
            ),
    {
        let ghost o = self@;
        let ghost d0 = self.driver;
        let ghost s0 = seg;
        let ghost c0 = client@;
        proof {
            lemma_errors_reported_concat(c0, Seq::empty(), Seq::empty());
        }
        let ghost plan = color_writes(o.current_color, target_color(seg.pattern, o.brightness), seg.fade);
        let res = self.update_color_with_delay(seg.pattern, seg.fade, delay);
        proof {
            lemma_outcome_single(o.current_color, o.brightness, s0, None);
            lemma_run_push(o.current_color, o.brightness, Seq::empty(), s0);
            assert(Seq::<LedSegment>::empty().push(s0) =~= seq![s0]);
            assert(o.writes + Seq::<Rgb>::empty() =~= o.writes);
            assert(seq![s0].drop_last() =~= Seq::<LedSegment>::empty());
        }
        match res {
            Ok(()) => {
                proof {
                    lemma_drive_len(d0, plan);
                    let fs = seq![None::<nat>];
                    assert(fs.drop_last() =~= Seq::<Option<nat>>::empty());
                    assert(Seq::<Rgb>::empty() + plan =~= plan);
                }
                (true, Ghost(None))
            },
            Err(e) => {
                let ghost k = drive(d0, plan).1;
                proof {
                    lemma_drive_len(d0, plan);
                }
                let ghost f = Some(k);
                proof {
                    lemma_outcome_single(o.current_color, o.brightness, s0, f);
                    let fs = seq![f];
                    assert(fs.drop_last() =~= Seq::<Option<nat>>::empty());
                    assert(Seq::<Rgb>::empty() + plan.take(k as int) =~= plan.take(k as int));
                }
                client.report_error(e);
                proof {
                    assert(Seq::<crate::model::TelemetryRecord>::empty().push(
                        crate::model::TelemetryRecord::PeripheralError(e),
                    ) =~= seq![crate::model::TelemetryRecord::PeripheralError(e)]);
                    if c0.enabled {
                        assert(client@.pending =~= c0.pending + seq![crate::model::TelemetryRecord::PeripheralError(e)]);
                    }
                }
                (false, Ghost(f))
            },
        }
    }

    /// Plays `segs`, reporting failures and carrying on after them.
    fn apply_segments_reporting<DL: LedDelay>(
        &mut self,
        segs: &Vec<LedSegment>,
        delay: &mut DL,
        client: &mut LedTelemetryClient,
    ) -> (r: (bool, Ghost<Seq<Option<nat>>>))
        ensures
            final(self)@.current_state == old(self)@.current_state,
            final(self)@.brightness == old(self)@.brightness,
            final(client)@.enabled == old(client)@.enabled,
            final(client)@.last_state == old(client)@.last_state,
            r.0 ==> final(self)@ == played(old(self)@, segs@),
            r.0 ==> final(client)@ == old(client)@,
            extends(final(self)@.writes, old(self)@.writes),
            extends(final(client)@.pending, old(client)@.pending),
            led_records_since(final(client)@.pending, old(client)@.pending.len() as int),
            r.0 == (failures(r.1@) == 0),
            outcome_valid(old(self)@.current_color, old(self)@.brightness, segs@, r.1@),
            final(self)@.writes == old(self)@.writes + outcome_writes(
                old(self)@.current_color,
                old(self)@.brightness,
                segs@,
                r.1@,
            ),
            final(self)@.current_color == outcome_color(
                old(self)@.current_color,
                old(self)@.brightness,
                segs@,
                r.1@,
            ),
            final(client)@.pending.len() == old(client)@.pending.len() + (if old(client)@.enabled {
                failures(r.1@) as int
            } else {
                0int
            }),
            final(self).driver_state() == segments_drive(
                old(self).driver_state(),
                old(self)@.current_color,
                old(self)@.brightness,
                segs@,
            ).0,
            r.1@ == segments_drive(
                old(self).driver_state(),
                old(self)@.current_color,
                old(self)@.brightness,
                segs@,
            ).1,
            final(client)@ == errors_reported(
                old(client)@,
                segments_errors(old(self).driver_state(), old(self)@.current_color, old(self)@.brightness, segs@),
            ),
    {
        let ghost o = self@;
        let ghost d0 = self.driver;
        let ghost c0 = client@;
        let mut ok = true;
        let ghost mut fs: Seq<Option<nat>> = Seq::empty();
        proof {
            assert(segs@.take(0) =~= Seq::<LedSegment>::empty());
            lemma_errors_reported_concat(c0, Seq::empty(), Seq::empty());
        }
        proof {
            assert(o.writes + Seq::<Rgb>::empty() =~= o.writes);
        }
        let mut i: usize = 0;
        while i < segs.len()
            invariant
                i <= segs@.len(),
                o == old(self)@,
                c0 == old(client)@,
                self@.current_state == o.current_state,
                self@.brightness == o.brightness,
                client@.enabled == c0.enabled,
                client@.last_state == c0.last_state,
                ok ==> self@ == played(o, segs@.take(i as int)),
                ok ==> client@ == c0,
                extends(self@.writes, o.writes),
                extends(client@.pending, c0.pending),
                led_records_since(client@.pending, c0.pending.len() as int),
                fs.len() == i,
                ok == (failures(fs) == 0),
                outcome_valid(o.current_color, o.brightness, segs@.take(i as int), fs),
                self@.writes == o.writes + outcome_writes(o.current_color, o.brightness, segs@.take(i as int), fs),
                self@.current_color == outcome_color(o.current_color, o.brightness, segs@.take(i as int), fs),
                client@.pending.len() == c0.pending.len() + (if c0.enabled {
                    failures(fs) as int
                } else {
                    0int
                }),
                d0 == old(self).driver_state(),
                self.driver == segments_drive(d0, o.current_color, o.brightness, segs@.take(i as int)).0,
                fs == segments_drive(d0, o.current_color, o.brightness, segs@.take(i as int)).1,
                client@ == errors_reported(c0, segments_errors(d0, o.current_color, o.brightness, segs@.take(i as int))),
            decreases segs@.len() - i,
        {
            let seg = segs[i];
            let ghost before = self@;
            let ghost cb = client@;
            let ghost errs0 = segments_errors(d0, o.current_color, o.brightness, segs@.take(i as int));
            proof {
                assert(segs@.take(i as int + 1).drop_last() =~= segs@.take(i as int));
            }
            let (seg_ok, seg_f) = self.update_reporting(seg, delay, client);
            proof {
                lemma_outcome_concat(o.current_color, o.brightness, segs@.take(i as int), seq![seg], fs, seq![seg_f@]);
                lemma_outcome_single(before.current_color, before.brightness, seg, seg_f@);
                assert(segs@.take(i as int + 1) =~= segs@.take(i as int) + seq![seg]);
                assert(self@.writes =~= o.writes + outcome_writes(
                    o.current_color,
                    o.brightness,
                    segs@.take(i as int) + seq![seg],
                    fs + seq![seg_f@],
                ));
                lemma_records_chain(c0.pending, cb.pending, client@.pending);
                if ok && seg_ok {
                    lemma_run_push(o.current_color, o.brightness, segs@.take(i as int), seg);
                    assert(segs@.take(i as int + 1) =~= segs@.take(i as int).push(seg));
                    let s0 = seg;
                    lemma_run_push(before.current_color, before.brightness, Seq::empty(), s0);
                    assert(Seq::<LedSegment>::empty().push(s0) =~= seq![s0]);
                    let cw = color_writes(
                        before.current_color,
                        target_color(seg.pattern, before.brightness),
                        seg.fade,
                    );
                    assert(Seq::<Rgb>::empty() + cw =~= cw);
                    assert(run_writes(before.current_color, before.brightness, seq![s0]) == cw);
                    assert(before == played(o, segs@.take(i as int)));
                    assert(self@ == played(before, seq![s0]));
                    assert(self@.writes == before.writes + cw);
                    assert(played(o, segs@.take(i as int + 1)).writes == o.writes + (run_writes(
                        o.current_color,
                        o.brightness,
                        segs@.take(i as int),
                    ) + cw));
                    assert(self@.writes =~= played(o, segs@.take(i as int + 1)).writes);
                }
            }
            proof {
                lemma_errors_reported_concat(
                    c0,
                    errs0,
                    segment_error(before_driver(d0, o.current_color, o.brightness, segs@.take(i as int)), before.current_color, before.brightness, seg),
                );
            }
            ok = ok && seg_ok;
            proof {
                assert(fs + seq![seg_f@] =~= fs.push(seg_f@));
                fs = fs + seq![seg_f@];
            }
            if seg.pause_ms > 0 {
                delay.delay_ms(seg.pause_ms);
            }
            i = i + 1;
        }
        proof {
            assert(segs@.take(segs@.len() as int) =~= segs@);
        }
        (ok, Ghost(fs))
    }

    /// Enters a loop state: plays what it needs and says what to wait for.
    fn enter<DL: LedDelay>(&mut self, run: LedRun, delay: &mut DL, client: &mut LedTelemetryClient) -> (r: (LedStep, Ghost<Seq<Option<nat>>>))
        ensures
            r.0.run == settle(run),
            r.0.wait == run_wait(settle(run)),
            final(self)@.current_state == (if run.state == SystemLedState::BlinksRedOncePerThirtySeconds {
                old(self)@.current_state
            } else {
                settle(run).state
            }),
            final(self)@.brightness == old(self)@.brightness,
            final(client)@.enabled == old(client)@.enabled,
            r.0.driver_ok ==> final(self)@ == (LedControllerView {
                current_state: final(self)@.current_state,
                ..played(old(self)@, enter_segments(old(self)@.current_state, run))
            }),
            r.0.driver_ok ==> final(client)@ == enter_reports(old(client)@, run),
            extends(final(self)@.writes, old(self)@.writes),
            extends(final(client)@.pending, old(client)@.pending),
            led_records_since(final(client)@.pending, old(client)@.pending.len() as int),
            r.0.driver_ok == (failures(r.1@) == 0),
            outcome_valid(
                old(self)@.current_color,
                old(self)@.brightness,
                enter_segments(old(self)@.current_state, run),
                r.1@,
            ),
            final(self)@.writes == old(self)@.writes + outcome_writes(
                old(self)@.current_color,
                old(self)@.brightness,
                enter_segments(old(self)@.current_state, run),
                r.1@,
            ),
            final(self)@.current_color == outcome_color(
                old(self)@.current_color,
                old(self)@.brightness,
                enter_segments(old(self)@.current_state, run),
                r.1@,
            ),
            final(client)@.last_state == enter_reports(old(client)@, run).last_state,
            final(client)@.pending.len() == enter_reports(old(client)@, run).pending.len() + (if old(
                client,
            )@.enabled {
                failures(r.1@) as int
            } else {
                0int
            }),
            final(self).driver_state() == segments_drive(
                old(self).driver_state(),
                old(self)@.current_color,
                old(self)@.brightness,
                enter_segments(old(self)@.current_state, run),
            ).0,
            r.1@ == segments_drive(
                old(self).driver_state(),
                old(self)@.current_color,
                old(self)@.brightness,
                enter_segments(old(self)@.current_state, run),
            ).1,
            final(client)@ == enter_client(
                old(client)@,
                old(self).driver_state(),
                old(self)@.current_color,
                old(self)@.brightness,
                old(self)@.current_state,
                run,
            ),
    {
        let ghost o = self@;
        let ghost d0 = self.driver;
        let ghost c0 = client@;
        proof {
            assert(Seq::<LedSegment>::empty().len() == 0);
            assert(segments_drive(d0, o.current_color, o.brightness, Seq::<LedSegment>::empty()) == (
                d0,
                Seq::<Option<nat>>::empty(),
            ));
            assert(segments_errors(d0, o.current_color, o.brightness, Seq::<LedSegment>::empty()) =~= Seq::<
                crate::model::TelemetryRecord,
            >::empty());
            lemma_errors_reported_concat(c0, Seq::empty(), Seq::empty());
        }
        match run.state {
            SystemLedState::BlinksRedOncePerThirtySeconds => {
                proof {
                    assert(o.writes + Seq::<Rgb>::empty() =~= o.writes);
                    lemma_extends_refl(o.writes);
                    lemma_no_records(c0.pending);
                }
                let wait = if run.led_on {
                    LedWait::CommandOrTimeout(SLOW_BLINK_ON_MS)
                } else {
                    LedWait::CommandOrTimeout(SLOW_BLINK_PERIOD_MS)
                };
                (LedStep { run, wait, driver_ok: true }, Ghost(Seq::empty()))
            },
            SystemLedState::BlinksRedFourTimes => {
                let segs = pattern_plan(self.current_state, SystemLedState::BlinksRedFourTimes);
                let (ok1, fs1) = self.apply_segments_reporting(&segs, delay, client);
                let ghost mid = self@;
                self.current_state = SystemLedState::Off;
                let ghost c1 = client@;
                client.report(SystemLedState::Off);
                let ghost c2 = client@;
                let ghost w2 = self@.writes;
                let off = LedSegment { pattern: SystemLedState::Off, fade: false, pause_ms: 0 };
                let (ok2, f2) = self.update_reporting(off, delay, client);
                let ghost fs = fs1@ + seq![f2@];
                proof {
                    lemma_report_records(c1, SystemLedState::Off);
                    lemma_records_chain(c0.pending, c1.pending, c2.pending);
                    lemma_records_chain(c0.pending, c2.pending, client@.pending);
                    lemma_writes_chain(o.writes, w2, self@.writes);
                    lemma_outcome_concat(o.current_color, o.brightness, blink_four_segments(), seq![off], fs1@, seq![f2@]);
                    lemma_outcome_single(mid.current_color, mid.brightness, off, f2@);
                    assert(blink_four_segments().push(off) =~= blink_four_segments() + seq![off]);
                    assert(blink_four_segments().push(off).drop_last() =~= blink_four_segments());
                    assert(fs1@ + seq![f2@] =~= fs1@.push(f2@));
                    assert(enter_segments(o.current_state, run) == blink_four_segments() + seq![off]);
                    assert(self@.writes =~= o.writes + outcome_writes(
                        o.current_color,
                        o.brightness,
                        enter_segments(o.current_state, run),
                        fs,
                    ));
                    if ok1 && ok2 {
                        lemma_run_concat(
                            o.current_color,
                            o.brightness,
                            blink_four_segments(),
                            seq![segment(SystemLedState::Off, false, 0)],
                        );
                        assert(self@.writes =~= played(o, enter_segments(o.current_state, run)).writes);
                    }
                }
                (
                    LedStep {
                        run: LedRun { state: SystemLedState::Off, led_on: run.led_on },
                        wait: LedWait::Command,
                        driver_ok: ok1 && ok2,
                    },
                    Ghost(fs),
                )
            },
            p => {
                let fade = fades_between(self.current_state, p);
                self.current_state = p;
                let (ok, f1) = self.update_reporting(LedSegment { pattern: p, fade, pause_ms: 0 }, delay, client);
                proof {
                    lemma_outcome_single(o.current_color, o.brightness, LedSegment { pattern: p, fade, pause_ms: 0 }, f1@);
                    let sg = LedSegment { pattern: p, fade, pause_ms: 0 };
                    assert(seq![sg].drop_last() =~= Seq::<LedSegment>::empty());
                    let se = segment_error(d0, o.current_color, o.brightness, sg);
                    assert(segments_errors(d0, o.current_color, o.brightness, seq![sg]) =~= Seq::<
                        crate::model::TelemetryRecord,
                    >::empty() + se);
                    assert(Seq::<crate::model::TelemetryRecord>::empty() + se =~= se);
                    assert(Seq::<Option<nat>>::empty().push(f1@) =~= seq![f1@]);
                }
                let ghost fs = seq![f1@];
                (LedStep { run, wait: LedWait::Command, driver_ok: ok }, Ghost(fs))
            },
        }
    }

    /// Starts the run loop: reports off, then shows it. A refused colour is
    /// reported and leaves the colour shown as it was.
    pub fn run_start<DL: LedDelay>(&mut self, delay: &mut DL, client: &mut LedTelemetryClient) -> (r: LedStep)
        ensures
            r.run == (LedRun { state: SystemLedState::Off, led_on: false }),
            r.wait == LedWait::Command,
            final(self)@.current_state == SystemLedState::Off,
            final(self)@.brightness == old(self)@.brightness,
            final(client)@.enabled == old(client)@.enabled,
            r.driver_ok ==> final(self)@ == (LedControllerView {
                current_state: SystemLedState::Off,
                ..played(
                    old(self)@,
                    seq![segment(SystemLedState::Off, uses_fade(old(self)@.current_state, SystemLedState::Off), 0)],
                )
            }),
            r.driver_ok ==> final(client)@ == led_reported(old(client)@, SystemLedState::Off),
            extends(final(self)@.writes, old(self)@.writes),
            extends(final(client)@.pending, old(client)@.pending),
            led_records_since(final(client)@.pending, old(client)@.pending.len() as int),
            exists|fs: Seq<Option<nat>>|
                #![trigger failures(fs)]
                {
                    let segs = seq![
                        segment(SystemLedState::Off, uses_fade(old(self)@.current_state, SystemLedState::Off), 0),
                    ];
                    &&& outcome_valid(old(self)@.current_color, old(self)@.brightness, segs, fs)
                    &&& final(self)@.writes == old(self)@.writes + outcome_writes(
                        old(self)@.current_color,
                        old(self)@.brightness,
                        segs,
                        fs,
                    )
                    &&& final(self)@.current_color == outcome_color(
                        old(self)@.current_color,
                        old(self)@.brightness,
                        segs,
                        fs,
                    )
                    &&& r.driver_ok == (failures(fs) == 0)
                    &&& final(client)@.pending.len() == led_reported(
                        old(client)@,
                        SystemLedState::Off,
                    ).pending.len() + (if old(client)@.enabled {
                        failures(fs) as int
                    } else {
                        0int
                    })
                    &&& fs == segments_drive(
                        old(self).driver_state(),
                        old(self)@.current_color,
                        old(self)@.brightness,
                        segs,
                    ).1
                },
            final(client)@.last_state == led_reported(old(client)@, SystemLedState::Off).last_state,
            final(self).driver_state() == segments_drive(
                old(self).driver_state(),
                old(self)@.current_color,
                old(self)@.brightness,
                seq![segment(SystemLedState::Off, uses_fade(old(self)@.current_state, SystemLedState::Off), 0)],
            ).0,
            final(client)@ == enter_client(
                led_reported(old(client)@, SystemLedState::Off),
                old(self).driver_state(),
                old(self)@.current_color,
                old(self)@.brightness,
                old(self)@.current_state,
                LedRun { state: SystemLedState::Off, led_on: false },
            ),
    {
        let ghost c0 = client@;
        let ghost o = self@;
        client.report(SystemLedState::Off);
        let ghost c1 = client@;
        let (step, fs) = self.enter(LedRun { state: SystemLedState::Off, led_on: false }, delay, client);
        proof {
            lemma_report_records(c0, SystemLedState::Off);
            lemma_records_chain(c0.pending, c1.pending, client@.pending);
            let segs = seq![segment(SystemLedState::Off, uses_fade(o.current_state, SystemLedState::Off), 0)];
            assert(enter_segments(o.current_state, LedRun { state: SystemLedState::Off, led_on: false }) == segs);
        }
        step
    }

    /// Handles the event that ended a wait of the run loop and says what to wait
    /// for next. A new pattern, and every event of the slow blink, end the wait:
    /// the loop reports its pattern and enters it again. A refused colour is
    /// reported and the loop carries on; the colour change it belonged to
    /// leaves the colour shown as it was.
    #[verifier::rlimit(60)]
    #[verifier::spinoff_prover]
    pub fn on_event<DL: LedDelay>(
        &mut self,
        run: LedRun,
        event: LedEvent,
        delay: &mut DL,
        client: &mut LedTelemetryClient,
    ) -> (r: LedStep)
        requires
            run.state != SystemLedState::BlinksRedFourTimes,
        ensures
            r.run == after_event(run, event),
            r.wait == run_wait(after_event(run, event)),
            final(self)@.current_state == current_after_event(old(self)@.current_state, run, event),
            final(self)@.brightness == event_brightness(old(self)@.brightness, event),
            final(client)@.enabled == old(client)@.enabled,
            r.driver_ok ==> final(self)@ == (LedControllerView {
                current_state: final(self)@.current_state,
                ..played(
                    (LedControllerView { brightness: event_brightness(old(self)@.brightness, event), ..old(self)@ }),
                    all_event_segments(old(self)@.current_state, run, event),
                )
            }),
            r.driver_ok ==> final(client)@ == (if event_reenters(run, event) {
                enter_reports(led_reported(old(client)@, event_run(run, event).state), event_run(run, event))
            } else {
                old(client)@
            }),
            extends(final(self)@.writes, old(self)@.writes),
            extends(final(client)@.pending, old(client)@.pending),
            led_records_since(final(client)@.pending, old(client)@.pending.len() as int),
            exists|fs: Seq<Option<nat>>|
                #![trigger failures(fs)]
                {
                    let b = event_brightness(old(self)@.brightness, event);
                    let segs = all_event_segments(old(self)@.current_state, run, event);
                    let expected = if event_reenters(run, event) {
                        enter_reports(led_reported(old(client)@, event_run(run, event).state), event_run(run, event))
                    } else {
                        old(client)@
                    };
                    &&& outcome_valid(old(self)@.current_color, b, segs, fs)
                    &&& final(self)@.writes == old(self)@.writes + outcome_writes(
                        old(self)@.current_color,
                        b,
                        segs,
                        fs,
                    )
                    &&& final(self)@.current_color == outcome_color(old(self)@.current_color, b, segs, fs)
                    &&& r.driver_ok == (failures(fs) == 0)
                    &&& final(client)@.pending.len() == expected.pending.len() + (if old(client)@.enabled {
                        failures(fs) as int
                    } else {
                        0int
                    })
                    &&& final(client)@.last_state == expected.last_state
                    &&& fs == segments_drive(old(self).driver_state(), old(self)@.current_color, b, segs).1
                },
            final(self).driver_state() == segments_drive(
                old(self).driver_state(),
                old(self)@.current_color,
                event_brightness(old(self)@.brightness, event),
                all_event_segments(old(self)@.current_state, run, event),
            ).0,
            final(client)@ == event_client(
                old(client)@,
                old(self).driver_state(),
                old(self)@.current_color,
                event_brightness(old(self)@.brightness, event),
                old(self)@.current_state,
                run,
                event,
            ),
    {
        let ghost o = self@;
        let ghost d0 = self.driver;
        let ghost c0 = client@;
        let ghost bb = event_brightness(o.brightness, event);
        proof {
            lemma_errors_reported_concat(c0, Seq::empty(), Seq::empty());
            let es = event_segments(run, event);
            if es.len() == 1 {
                lemma_segments_small(d0, o.current_color, bb, es[0]);
                assert(es =~= seq![es[0]]);
            } else {
                assert(es =~= Seq::<LedSegment>::empty());
                lemma_segments_small(d0, o.current_color, bb, segment(SystemLedState::Off, false, 0));
            }
        }
        proof {
            assert(segments_drive(d0, o.current_color, event_brightness(o.brightness, event), Seq::<LedSegment>::empty()) == (
                d0,
                Seq::<Option<nat>>::empty(),
            ));
        }
        proof {
            lemma_extends_refl(o.writes);
            lemma_no_records(c0.pending);
        }
        let slow = match run.state {
            SystemLedState::BlinksRedOncePerThirtySeconds => true,
            _ => false,
        };
        let mut ok = true;
        let ghost mut fs_ev: Seq<Option<nat>> = Seq::empty();
        proof {
            assert(o.writes + Seq::<Rgb>::empty() =~= o.writes);
        }
        let mut next = run;
        match event {
            LedEvent::Command(LedCommand::State(new)) => {
                if slow {
                    next = LedRun { state: new, led_on: false };
                    self.current_state = new;
                } else {
                    next = LedRun { state: new, led_on: run.led_on };
                }
                proof {
                    assert(self@.writes + Seq::<Rgb>::empty() =~= self@.writes);
                }
            },
            LedEvent::Command(LedCommand::SetBrightness(b)) => {
                self.brightness = b;
                if slow {
                    if run.led_on {
                        let (o1, f1) = self.update_reporting(
                            LedSegment { pattern: SystemLedState::BlinksRedOncePerThirtySeconds, fade: false, pause_ms: 0 },
                            delay,
                            client,
                        );
                        ok = o1;
                        proof {
                            fs_ev = seq![f1@];
                            let sg = LedSegment { pattern: SystemLedState::BlinksRedOncePerThirtySeconds, fade: false, pause_ms: 0 };
                            lemma_outcome_single(o.current_color, b, sg, f1@);
                            assert(seq![sg].drop_last() =~= Seq::<LedSegment>::empty());
                            assert(Seq::<Option<nat>>::empty().push(f1@) =~= seq![f1@]);
                        }
                    } else {
                        proof {
                            assert(self@.writes + Seq::<Rgb>::empty() =~= self@.writes);
                        }
                    }
                } else {
                    let state = run.state;
                    let (ok1, f1) = self.update_reporting(LedSegment { pattern: state, fade: false, pause_ms: 0 }, delay, client);
                    proof {
                        let sg = LedSegment { pattern: state, fade: false, pause_ms: 0 };
                        lemma_outcome_single(o.current_color, b, sg, f1@);
                        assert(all_event_segments(o.current_state, run, event) == seq![sg]);
                        assert(seq![sg].drop_last() =~= Seq::<LedSegment>::empty());
                        assert(Seq::<Option<nat>>::empty().push(f1@) =~= seq![f1@]);
                    }
                    return LedStep { run, wait: LedWait::Command, driver_ok: ok1 };
                }
            },
            LedEvent::Timeout => {
                if slow {
                    next = LedRun { state: run.state, led_on: !run.led_on };
                    let p = if next.led_on {
                        SystemLedState::BlinksRedOncePerThirtySeconds
                    } else {
                        SystemLedState::Off
                    };
                    let (o1, f1) = self.update_reporting(LedSegment { pattern: p, fade: false, pause_ms: 0 }, delay, client);
                    ok = o1;
                    proof {
                        fs_ev = seq![f1@];
                        let sg = LedSegment { pattern: p, fade: false, pause_ms: 0 };
                        lemma_outcome_single(o.current_color, o.brightness, sg, f1@);
                        assert(seq![sg].drop_last() =~= Seq::<LedSegment>::empty());
                        assert(Seq::<Option<nat>>::empty().push(f1@) =~= seq![f1@]);
                    }
                } else {
                    proof {
                        assert(o.writes + Seq::<Rgb>::empty() =~= o.writes);
                        let fs = Seq::<Option<nat>>::empty();
                        assert(failures(fs) == 0);
                        assert(outcome_valid(o.current_color, o.brightness, Seq::empty(), fs));
                        assert(outcome_writes(o.current_color, o.brightness, Seq::empty(), fs) =~= Seq::<Rgb>::empty());
                    }
                    return LedStep { run, wait: LedWait::Command, driver_ok: true };
                }
            },
        }
        let ghost mid = self@;
        let ghost c1 = client@;
        assert(played_with(
            o,
            c0,
            event_brightness(o.brightness, event),
            event_segments(run, event),
            fs_ev,
            mid,
            c1,
            ok,
        ));
        client.report(next.state);
        let ghost c2 = client@;
        let (step, fs2) = self.enter(next, delay, client);
        proof {
            lemma_report_records(c1, next.state);
            lemma_records_chain(c0.pending, c1.pending, c2.pending);
            lemma_records_chain(c0.pending, c2.pending, client@.pending);
            lemma_writes_chain(o.writes, mid.writes, self@.writes);
            let b = event_brightness(o.brightness, event);
            let es = event_segments(run, event);
            let ns = enter_segments(event_current(o.current_state, run, event), next);
            let lr0 = led_reported(c0, next.state);
            lemma_reports_shift(c0, c1, next, next.state);
            lemma_reports_shift(lr0, c2, next, next.state);
            lemma_outcome_concat(o.current_color, b, es, ns, fs_ev, fs2@);
            lemma_segments_drive_concat(d0, o.current_color, b, es, ns);
            let fs = fs_ev + fs2@;
            assert(all_event_segments(o.current_state, run, event) == es + ns);
            assert(self@.writes =~= o.writes + outcome_writes(o.current_color, b, es + ns, fs));
            assert(failures(fs) == failures(fs_ev) + failures(fs2@));
            if ok && step.driver_ok {
                let ob = LedControllerView { brightness: event_brightness(o.brightness, event), ..o };
                lemma_run_concat(
                    ob.current_color,
                    ob.brightness,
                    event_segments(run, event),
                    enter_segments(event_current(o.current_state, run, event), next),
                );
                assert(self@.writes =~= played(ob, all_event_segments(o.current_state, run, event)).writes);
            }
        }
        LedStep { run: step.run, wait: step.wait, driver_ok: ok && step.driver_ok }
    }
}


/// The LED pattern after a system state change. With the LED in use: in active
/// mode the battery's state-of-charge colour (off when unknown), otherwise four
/// red blinks when overheating and blue when not. With the LED not in use: the
/// slow red blink when the battery is critical, the state-of-charge colour
/// while charging, else off.
pub open spec fn state_change_led(
    to: SystemStatus,
    led_supported: bool,
    battery_status: Option<BatteryStatus>,
    thermal_critical: bool,
) -> SystemLedState {
    if led_supported {
        if to == SystemStatus::Active {
            match battery_status {
                Some(s) => s.soc_led_state,
                None => SystemLedState::Off,
            }
        } else if thermal_critical {
            SystemLedState::BlinksRedFourTimes
        } else {
            SystemLedState::SolidBlue
        }
    } else if battery_status matches Some(s) && s.battery_critical {
        SystemLedState::BlinksRedOncePerThirtySeconds
    } else if battery_status matches Some(s) && s.charger_connected {
        battery_status->Some_0.soc_led_state
    } else {
        SystemLedState::Off
    }
}

/// The LED pattern after a state-of-charge report, if any: the slow red blink
/// when the battery is critical; in power-down the state-of-charge colour while
/// charging and off otherwise; in active mode the state-of-charge colour when
/// known; nothing in sleep.
pub open spec fn battery_report_led(status: SystemStatus, battery_status: Option<BatteryStatus>) -> Option<SystemLedState> {
    if battery_status matches Some(s) && s.battery_critical {
        Some(SystemLedState::BlinksRedOncePerThirtySeconds)
    } else if status == SystemStatus::PowerDown {
        if battery_status matches Some(s) && s.charger_connected {
            Some(battery_status->Some_0.soc_led_state)
        } else {
            Some(SystemLedState::Off)
        }
    } else if status == SystemStatus::Active {
        match battery_status {
            Some(s) => Some(s.soc_led_state),
            None => None,
        }
    } else {
        None
    }
}

/// The LED's part in the system's reactions.
#[derive(Clone, Copy, PartialEq, Eq, Structural, Debug)]
pub struct LedFeatureConfig {
    /// Whether an LED controller listens for commands.
    pub led_enabled: bool,
    /// Brightness (percent) set at start.
    pub brightness: u8,
}

impl LedFeatureConfig {
    /// Creates the feature.
    pub fn new(led_enabled: bool, brightness: u8) -> (r: Self)
        ensures
            r.led_enabled == led_enabled,
            r.brightness == brightness,
    {
        LedFeatureConfig { led_enabled, brightness }
    }

    /// The commands sent at start: the brightness, then off.
    pub fn on_init(&self) -> (r: Vec<LedCommand>)
        ensures
            r@ == (if self.led_enabled {
                seq![LedCommand::SetBrightness(self.brightness), LedCommand::State(SystemLedState::Off)]
            } else {
                Seq::empty()
            }),
    {
        if self.led_enabled {
            let v = vec![LedCommand::SetBrightness(self.brightness), LedCommand::State(SystemLedState::Off)];
            proof {
                assert(v@ =~= seq![LedCommand::SetBrightness(self.brightness), LedCommand::State(SystemLedState::Off)]);
            }
            v
        } else {
            Vec::new()
        }
    }

    /// The command sent on a system state change.
    pub fn on_state_changed(
        &self,
        from: SystemStatus,
        to: SystemStatus,
        support: DeviceSupport,
        battery_status: Option<BatteryStatus>,
        thermal_critical: bool,
    ) -> (r: Option<LedCommand>)
        ensures
            r == (if self.led_enabled {
                Some(LedCommand::State(state_change_led(to, support.led, battery_status, thermal_critical)))
            } else {
                None
            }),
    {
        if !self.led_enabled {
            return None;
        }
        let led = if support.led {
            match to {
                SystemStatus::Active => match battery_status {
                    Some(s) => s.soc_led_state,
                    None => SystemLedState::Off,
                },
                _ => if thermal_critical {
                    SystemLedState::BlinksRedFourTimes
                } else {
                    SystemLedState::SolidBlue
                },
            }
        } else {
            match battery_status {
                Some(s) => if s.battery_critical {
                    SystemLedState::BlinksRedOncePerThirtySeconds
                } else if s.charger_connected {
                    s.soc_led_state
                } else {
                    SystemLedState::Off
                },
                None => SystemLedState::Off,
            }
        };
        Some(LedCommand::State(led))
    }

    /// The command sent on a battery action: only a state-of-charge report
    /// changes the LED.
    pub fn on_battery_action(
        &self,
        action: BatteryUpdateAction,
        status: SystemStatus,
        battery_status: Option<BatteryStatus>,
    ) -> (r: Option<LedCommand>)
        ensures
            r == (if self.led_enabled && action == BatteryUpdateAction::ReportSoC {
                match battery_report_led(status, battery_status) {
                    Some(p) => Some(LedCommand::State(p)),
                    None => None,
                }
            } else {
                None
            }),
    {
        match action {
            BatteryUpdateAction::ReportSoC => {},
            _ => return None,
        }
        if !self.led_enabled {
            return None;
        }
        let critical = match battery_status {
            Some(s) => s.battery_critical,
            None => false,
        };
        if critical {
            return Some(LedCommand::State(SystemLedState::BlinksRedOncePerThirtySeconds));
        }
        match status {
            SystemStatus::PowerDown => {
                let led = match battery_status {
                    Some(s) => if s.charger_connected {
                        s.soc_led_state
                    } else {
                        SystemLedState::Off
                    },
                    None => SystemLedState::Off,
                };
                Some(LedCommand::State(led))
            },
            SystemStatus::Active => match battery_status {
                Some(s) => Some(LedCommand::State(s.soc_led_state)),
                None => None,
            },
            SystemStatus::Sleep => None,
        }
    }

    /// The command sent when an alert fires: four red blinks, in sleep only.
    pub fn on_alert_triggered(&self, status: SystemStatus) -> (r: Option<LedCommand>)
        ensures
            r == (if self.led_enabled && status == SystemStatus::Sleep {
                Some(LedCommand::State(SystemLedState::BlinksRedFourTimes))
            } else {
                None
            }),
    {
        match status {
            SystemStatus::Sleep => if self.led_enabled {
                Some(LedCommand::State(SystemLedState::BlinksRedFourTimes))
            } else {
                None
            },
            _ => None,
        }
    }
}

/// Subcommands of the `led` command line.
#[derive(Clone, Copy, PartialEq, Eq, Structural, Debug)]
pub enum LedSubcommand {
    /// Turn the LED off.
    Off,
    /// Solid green.
    Green,
    /// Solid blue.
    Blue,
    /// Solid yellow.
    Yellow,
    /// Solid orange.
    Orange,
    /// Blink red four times.
    BlinkFour,
    /// Blink red once every thirty seconds.
    BlinkSlow,
    /// Set the brightness.
    Brightness,
}

/// The LED subcommand named by `s`.
pub open spec fn spec_led_sub(s: Seq<char>) -> Option<LedSubcommand> {
    if s == "off"@ {
        Some(LedSubcommand::Off)
    } else if s == "green"@ {
        Some(LedSubcommand::Green)
    } else if s == "blue"@ {
        Some(LedSubcommand::Blue)
    } else if s == "yellow"@ {
        Some(LedSubcommand::Yellow)
    } else if s == "orange"@ {
        Some(LedSubcommand::Orange)
    } else if s == "blink-four"@ {
        Some(LedSubcommand::BlinkFour)
    } else if s == "blink-slow"@ {
        Some(LedSubcommand::BlinkSlow)
    } else if s == "brightness"@ {
        Some(LedSubcommand::Brightness)
    } else {
        None
    }
}

impl LedSubcommand {
    /// Reads an LED subcommand.
    pub fn parse(s: &str) -> (r: Result<LedSubcommand, &'static str>)
        ensures
            match spec_led_sub(s@) {
                Some(c) => r == Ok::<LedSubcommand, &'static str>(c),
                None => r matches Err(e) && e@
                    == "off, green, blue, yellow, orange, blink-four, blink-slow, brightness"@,
            },
    {
        if str_eq(s, "off") {
            Ok(LedSubcommand::Off)
        } else if str_eq(s, "green") {
            Ok(LedSubcommand::Green)
        } else if str_eq(s, "blue") {
            Ok(LedSubcommand::Blue)
        } else if str_eq(s, "yellow") {
            Ok(LedSubcommand::Yellow)
        } else if str_eq(s, "orange") {
            Ok(LedSubcommand::Orange)
        } else if str_eq(s, "blink-four") {
            Ok(LedSubcommand::BlinkFour)
        } else if str_eq(s, "blink-slow") {
            Ok(LedSubcommand::BlinkSlow)
        } else if str_eq(s, "brightness") {
            Ok(LedSubcommand::Brightness)
        } else {
            Err("off, green, blue, yellow, orange, blink-four, blink-slow, brightness")
        }
    }
}

/// What an `led` command line asks of the LED controller.
#[derive(Clone, Copy, PartialEq, Eq, Structural, Debug)]
pub enum LedCliAction {
    /// Set the brightness only.
    SetBrightness(u8),
    /// Optionally set the brightness, then play a pattern.
    SetPattern {
        /// Brightness to set first.
        brightness: Option<u8>,
        /// Pattern to play.
        pattern: SystemLedState,
    },
}

/// The pattern of a pattern subcommand.
pub open spec fn spec_sub_pattern(c: LedSubcommand) -> SystemLedState {
    match c {
        LedSubcommand::Off => SystemLedState::Off,
        LedSubcommand::Green => SystemLedState::SolidGreen,
        LedSubcommand::Blue => SystemLedState::SolidBlue,
        LedSubcommand::Yellow => SystemLedState::SolidYellow,
        LedSubcommand::Orange => SystemLedState::SolidOrange,
        LedSubcommand::BlinkFour => SystemLedState::BlinksRedFourTimes,
        _ => SystemLedState::BlinksRedOncePerThirtySeconds,
    }
}

/// A brightness argument: a number from 0 to 100.
pub open spec fn spec_brightness_arg(a: Seq<char>) -> Result<u8, Seq<char>> {
    match spec_parse_unsigned(a, u8::MAX as int) {
        None => Err("Invalid brightness format (expected 0..100)"@),
        Some(v) => if v > 100 {
            Err("Brightness must be between 0 and 100"@)
        } else {
            Ok(v as u8)
        },
    }
}

/// The action (or error message) of an `led` command line.
pub open spec fn spec_led_cli(sub: Option<LedSubcommand>, arg1: Option<Seq<char>>) -> Result<LedCliAction, Seq<char>> {
    match sub {
        None => Err(
            "Missing LED subcommand. Expected: off, green, blue, yellow, orange, blink-four, blink-slow, brightness"@,
        ),
        Some(LedSubcommand::Brightness) => match arg1 {
            None => Err("Missing brightness value (expected 0..100)"@),
            Some(a) => match spec_brightness_arg(a) {
                Ok(b) => Ok(LedCliAction::SetBrightness(b)),
                Err(m) => Err(m),
            },
        },
        Some(c) => match arg1 {
            None => Ok(LedCliAction::SetPattern { brightness: None, pattern: spec_sub_pattern(c) }),
            Some(a) => match spec_brightness_arg(a) {
                Ok(b) => Ok(LedCliAction::SetPattern { brightness: Some(b), pattern: spec_sub_pattern(c) }),
                Err(m) => Err(m),
            },
        },
    }
}

/// Reads a brightness argument.
fn brightness_arg(a: &str) -> (r: Result<u8, &'static str>)
    ensures
        match spec_brightness_arg(a@) {
            Ok(b) => r == Ok::<u8, &'static str>(b),
            Err(m) => r matches Err(e) && e@ == m,
        },
{
    proof {
        crate::parse::lemma_parse_unsigned_range(a@, u8::MAX as int);
    }
    match parse_u8(a) {
        None => Err("Invalid brightness format (expected 0..100)"),
        Some(v) => if v > 100 {
            Err("Brightness must be between 0 and 100")
        } else {
            Ok(v)
        },
    }
}

/// Reads an `led` command line: a pattern subcommand with an optional
/// brightness, or `brightness <0..100>`.
pub fn plan_led_cli(subcommand: Option<LedSubcommand>, arg1: Option<&str>) -> (r: Result<LedCliAction, &'static str>)
    ensures
        match spec_led_cli(subcommand, opt_chars(arg1)) {
            Ok(a) => r == Ok::<LedCliAction, &'static str>(a),
            Err(m) => r matches Err(e) && e@ == m,
        },
{
    let cmd = match subcommand {
        Some(c) => c,
        None => {
            return Err(
                "Missing LED subcommand. Expected: off, green, blue, yellow, orange, blink-four, blink-slow, brightness",
            )
        },
    };
    if let LedSubcommand::Brightness = cmd {
        let a = match arg1 {
            Some(a) => a,
            None => return Err("Missing brightness value (expected 0..100)"),
        };
        let b = brightness_arg(a)?;
        return Ok(LedCliAction::SetBrightness(b));
    }
    let brightness = match arg1 {
        Some(a) => Some(brightness_arg(a)?),
        None => None,
    };
    let pattern = match cmd {
        LedSubcommand::Off => SystemLedState::Off,
        LedSubcommand::Green => SystemLedState::SolidGreen,
        LedSubcommand::Blue => SystemLedState::SolidBlue,
        LedSubcommand::Yellow => SystemLedState::SolidYellow,
        LedSubcommand::Orange => SystemLedState::SolidOrange,
        LedSubcommand::BlinkFour => SystemLedState::BlinksRedFourTimes,
        _ => SystemLedState::BlinksRedOncePerThirtySeconds,
    };
    Ok(LedCliAction::SetPattern { brightness, pattern })
}


/// A fade ends exactly at its target, and each of its colours lies between the
/// two ends, channel by channel.
pub proof fn lemma_fade_bounded(from: Rgb, to: Rgb)
    ensures
        fade_writes(from, to).last() == to,
        forall|i: int|
            0 <= i < FADE_STEPS ==> {
                let c = #[trigger] fade_writes(from, to)[i];
                &&& between(c.0, from.0, to.0)
                &&& between(c.1, from.1, to.1)
                &&& between(c.2, from.2, to.2)
            },
{
    lemma_fade_ends(from, to);
    assert forall|a: u8, b: u8, step: int| 1 <= step <= 10 implies between(#[trigger] fade_channel(a, b, step), a, b) by {
        if a <= b {
            assert((b - a) * step / 10 <= b - a) by (nonlinear_arith)
                requires
                    b >= a,
                    step <= 10,
                    step >= 1,
            ;
            assert((b - a) * step / 10 >= 0) by (nonlinear_arith)
                requires
                    b >= a,
                    step >= 1,
            ;
        } else {
            assert((a - b) * step / 10 <= a - b) by (nonlinear_arith)
                requires
                    a > b,
                    step <= 10,
                    step >= 1,
            ;
            assert((a - b) * step / 10 >= 0) by (nonlinear_arith)
                requires
                    a > b,
                    step >= 1,
            ;
        }
    }
    assert forall|i: int| 0 <= i < FADE_STEPS implies {
        let c = #[trigger] fade_writes(from, to)[i];
        &&& between(c.0, from.0, to.0)
        &&& between(c.1, from.1, to.1)
        &&& between(c.2, from.2, to.2)
    } by {
        assert(fade_writes(from, to)[i] == fade_color(from, to, i + 1));
        assert(between(fade_channel(from.0, to.0, i + 1), from.0, to.0));
        assert(between(fade_channel(from.1, to.1, i + 1), from.1, to.1));
        assert(between(fade_channel(from.2, to.2, i + 1), from.2, to.2));
    }
}

/// `c` lies between `a` and `b`.
pub open spec fn between(c: u8, a: u8, b: u8) -> bool {
    (a <= c <= b) || (b <= c <= a)
}

/// Both blink patterns leave the LED dark, whatever was shown before.
pub proof fn lemma_blinks_end_dark(color: Rgb, brightness: u8, current: SystemLedState, pattern: SystemLedState)
    requires
        pattern == SystemLedState::BlinksRedFourTimes || pattern == SystemLedState::BlinksRedOncePerThirtySeconds,
    ensures
        run_color(color, brightness, pattern_segments(current, pattern)) == (0u8, 0u8, 0u8),
{
    let segs = pattern_segments(current, pattern);
    assert(segs.last().pattern == SystemLedState::Off);
}

/// Asking again for the solid pattern or off that is shown writes nothing to
/// the driver.
pub proof fn lemma_repeat_pattern_writes_nothing(o: LedControllerView, pattern: SystemLedState)
    requires
        pattern == SystemLedState::Off || is_solid(pattern),
    ensures
        ({
            let once = LedControllerView {
                current_state: pattern,
                ..played(o, pattern_segments(o.current_state, pattern))
            };
            played(once, pattern_segments(once.current_state, pattern)) == once
        }),
{
    let once = LedControllerView { current_state: pattern, ..played(o, pattern_segments(o.current_state, pattern)) };
    let segs = pattern_segments(once.current_state, pattern);
    let first = pattern_segments(o.current_state, pattern);
    assert(first.len() == 1 && first.last().pattern == pattern);
    assert(once.current_color == target_color(pattern, o.brightness));
    assert(segs.len() == 1 && segs.last().pattern == pattern);
    assert(segs.drop_last() =~= Seq::<LedSegment>::empty());
    assert(run_writes(once.current_color, once.brightness, Seq::<LedSegment>::empty()) =~= Seq::<Rgb>::empty());
    assert(color_writes(once.current_color, target_color(pattern, once.brightness), segs.last().fade) =~= Seq::<Rgb>::empty());
    assert(once.writes + Seq::<Rgb>::empty() =~= once.writes);
    assert(run_writes(once.current_color, once.brightness, segs) =~= Seq::<Rgb>::empty());
}

} // verus!
