//! Telemetry filtering and accounting.
//!
//! Each controller owns a client that decides which updates are worth recording;
//! accepted records wait in the client's outbox until the run loop forwards them
//! to the telemetry queue.

use crate::model::{
    BatteryStatus, ChargeState, Device, Direction, FuelGaugeTelemetry, MotorStatus,
    PeriodicInterval, PeripheralError, ProximityTelemetry, SystemLedState, TelemetryRecord,
    ThermalStatus, NUM_TELEMETRY_VARIANTS, direction_index, record_kind,
};
use crate::types::ThermalState;
use vstd::prelude::*;

verus! {

/// Capacity of the telemetry channel queue.
pub const CHANNEL_CAPACITY: usize = 64;

/// Maximum number of categories listed in a statistics summary.
pub const STATS_TOP: usize = 5;

/// A client that accepts values of type `T` for telemetry.
pub trait TelemetryClient<T> {
    /// Offers a value; the client decides whether it becomes a record.
    fn report(&mut self, value: T);
}

/// Sum of a sequence of counters.
pub open spec fn seq_sum(s: Seq<u32>) -> int
    decreases s.len(),
{
    if s.len() == 0 {
        0
    } else {
        seq_sum(s.drop_last()) + s.last()
    }
}

/// Counts processed telemetry records per category.
#[derive(Clone, Copy, PartialEq, Eq, Debug)]
pub struct TelemetryCounters {
    /// Count of records per category, indexed by [`record_kind`].
    pub counts: [u32; NUM_TELEMETRY_VARIANTS],
}

/// `out` lists, by decreasing count, the busiest non-empty categories of `counts`:
/// at most five, and all of them when fewer than five are non-empty.
pub open spec fn is_top_summary(counts: Seq<u32>, out: Seq<(usize, u32)>) -> bool {
    &&& out.len() <= STATS_TOP
    &&& forall|i: int|
        0 <= i < out.len() ==> {
            &&& (#[trigger] out[i]).0 < counts.len()
            &&& out[i].1 == counts[out[i].0 as int]
            &&& out[i].1 > 0
        }
    &&& forall|i: int, j: int| 0 <= i < j < out.len() ==> out[i].0 != out[j].0 && out[i].1 >= out[j].1
    &&& forall|k: int|
        0 <= k < counts.len() && counts[k] > 0 && !listed(out, k) ==> {
            &&& out.len() == STATS_TOP
            &&& counts[k] <= out[out.len() - 1].1
        }
}

/// Category `k` appears in the summary `out`.
pub open spec fn listed(out: Seq<(usize, u32)>, k: int) -> bool {
    exists|i: int| 0 <= i < out.len() && out[i].0 == k
}

impl Default for TelemetryCounters {
    fn default() -> (r: Self)
        ensures
            forall|i: int| 0 <= i < NUM_TELEMETRY_VARIANTS ==> r.counts[i] == 0,
    {
        TelemetryCounters { counts: [0u32; NUM_TELEMETRY_VARIANTS] }
    }
}

impl TelemetryCounters {
    /// Counts one more record of the category of `record`.
    pub fn record(&mut self, record: &TelemetryRecord)
        requires
            old(self).counts[record_kind(*record)] < u32::MAX,
        ensures
            final(self).counts@ == old(self).counts@.update(
                record_kind(*record),
                (old(self).counts[record_kind(*record)] + 1) as u32,
            ),
    {
        let idx = record.kind_index();
        self.counts[idx] = self.counts[idx] + 1;
    }

    /// Total number of records counted.
    pub fn total(&self) -> (r: u32)
        requires
            seq_sum(self.counts@) <= u32::MAX,
        ensures
            r == seq_sum(self.counts@),
    {
        let mut sum: u32 = 0;
        let mut i: usize = 0;
        while i < NUM_TELEMETRY_VARIANTS
            invariant
                i <= NUM_TELEMETRY_VARIANTS,
                self.counts@.len() == NUM_TELEMETRY_VARIANTS,
                seq_sum(self.counts@) <= u32::MAX,
                sum == seq_sum(self.counts@.take(i as int)),
            decreases NUM_TELEMETRY_VARIANTS - i,
        {
            proof {
                lemma_seq_sum_prefix_bound(self.counts@, i as int + 1);
                assert(self.counts@.take(i as int + 1).drop_last() =~= self.counts@.take(i as int));
            }
            sum = sum + self.counts[i];
            i = i + 1;
        }
        proof {
            assert(self.counts@.take(NUM_TELEMETRY_VARIANTS as int) =~= self.counts@);
        }
        sum
    }

    /// Resets all counters to zero.
    pub fn reset(&mut self)
        ensures
            forall|i: int| 0 <= i < NUM_TELEMETRY_VARIANTS ==> final(self).counts[i] == 0,
    {
        self.counts = [0u32; NUM_TELEMETRY_VARIANTS];
    }

    /// The busiest non-empty categories, by decreasing count: at most five, and all
    /// of them when fewer than five are non-empty. Ties go to the lower index.
    pub fn top_categories(&self) -> (r: Vec<(usize, u32)>)
        ensures
            is_top_summary(self.counts@, r@),
    {
        let mut out: Vec<(usize, u32)> = Vec::new();
        let mut round: usize = 0;
        while round < STATS_TOP
            invariant
                self.counts@.len() == NUM_TELEMETRY_VARIANTS,
                out@.len() == round,
                round <= STATS_TOP,
                forall|i: int|
                    0 <= i < out@.len() ==> {
                        &&& (#[trigger] out@[i]).0 < NUM_TELEMETRY_VARIANTS
                        &&& out@[i].1 == self.counts@[out@[i].0 as int]
                        &&& out@[i].1 > 0
                    },
                forall|i: int, j: int|
                    0 <= i < j < out@.len() ==> out@[i].0 != out@[j].0 && out@[i].1 >= out@[j].1,
                out@.len() > 0 ==> forall|k: int|
                    0 <= k < NUM_TELEMETRY_VARIANTS && !listed(out@, k) ==> self.counts@[k]
                        <= out@[out@.len() - 1].1,
            ensures
                is_top_summary(self.counts@, out@),
            decreases STATS_TOP - round,
        {
            // Find the busiest category not yet listed.
            let mut best: usize = NUM_TELEMETRY_VARIANTS;
            let mut best_count: u32 = 0;
            let mut k: usize = 0;
            while k < NUM_TELEMETRY_VARIANTS
                invariant
                    self.counts@.len() == NUM_TELEMETRY_VARIANTS,
                    k <= NUM_TELEMETRY_VARIANTS,
                    best <= NUM_TELEMETRY_VARIANTS,
                    best == NUM_TELEMETRY_VARIANTS ==> best_count == 0,
                    best < NUM_TELEMETRY_VARIANTS ==> {
                        &&& best < k
                        &&& best_count == self.counts@[best as int]
                        &&& best_count > 0
                        &&& !listed(out@, best as int)
                    },
                    forall|m: int|
                        0 <= m < k && !listed(out@, m) ==> self.counts@[m] <= best_count,
                decreases NUM_TELEMETRY_VARIANTS - k,
            {
                let mut already = false;
                let mut j: usize = 0;
                while j < out.len()
                    invariant
                        j <= out@.len(),
                        already <==> exists|i: int| 0 <= i < j && out@[i].0 == k,
                    decreases out@.len() - j,
                {
                    if out[j].0 == k {
                        already = true;
                    }
                    j = j + 1;
                }
                proof {
                    if !already {
                        assert(!listed(out@, k as int));
                    } else {
                        assert(listed(out@, k as int));
                    }
                }
                if !already && self.counts[k] > best_count {
                    best = k;
                    best_count = self.counts[k];
                }
                k = k + 1;
            }
            if best == NUM_TELEMETRY_VARIANTS {
                // No unlisted category has records left.
                proof {
                    assert forall|m: int|
                        0 <= m < self.counts@.len() && self.counts@[m] > 0 implies listed(
                        out@,
                        m,
                    ) by {
                        if !listed(out@, m) {
                            assert(self.counts@[m] <= 0);
                        }
                    }
                }
                return out;
            }
            let ghost old_out = out@;
            out.push((best, best_count));
            proof {
                assert forall|m: int|
                    0 <= m < NUM_TELEMETRY_VARIANTS && !listed(out@, m) implies self.counts@[m]
                    <= out@[out@.len() - 1].1 by {
                    if listed(old_out, m) {
                        let i = choose|i: int| 0 <= i < old_out.len() && old_out[i].0 == m;
                        assert(out@[i].0 == m);
                    }
                }
                assert forall|m: int| 0 <= m < NUM_TELEMETRY_VARIANTS && listed(old_out, m) implies listed(out@, m) by {
                    let i = choose|i: int| 0 <= i < old_out.len() && old_out[i].0 == m;
                    assert(out@[i].0 == m);
                }
                assert(!listed(old_out, best as int));
                assert(out@[old_out.len() as int] == (best, best_count));
                if old_out.len() > 0 {
                    assert(self.counts@[best as int] <= old_out[old_out.len() - 1].1);
                }
                assert forall|i: int| 0 <= i < out@.len() implies {
                    &&& (#[trigger] out@[i]).0 < NUM_TELEMETRY_VARIANTS
                    &&& out@[i].1 == self.counts@[out@[i].0 as int]
                    &&& out@[i].1 > 0
                } by {
                    if i < old_out.len() {
                        assert(out@[i] == old_out[i]);
                    } else {
                        assert(out@[i] == (best, best_count));
                    }
                }
                assert forall|i: int, j: int| 0 <= i < j < out@.len() implies out@[i].0 != out@[j].0
                    && out@[i].1 >= out@[j].1 by {
                    assert(out@[i] == old_out[i]);
                    if j < old_out.len() {
                        assert(out@[j] == old_out[j]);
                    } else {
                        assert(out@[j] == (best, best_count));
                        assert(old_out[i].1 >= old_out[old_out.len() - 1].1);
                        if old_out[i].0 == best {
                            assert(listed(old_out, best as int));
                        }
                    }
                }
            }
            round = round + 1;
        }
        out
    }
}

/// The prefix sums of a sequence of counters are bounded by the whole sum.
pub proof fn lemma_seq_sum_prefix_bound(s: Seq<u32>, n: int)
    requires
        0 <= n <= s.len(),
    ensures
        seq_sum(s.take(n)) <= seq_sum(s),
        seq_sum(s.take(n)) >= 0,
    decreases s.len(),
{
    if s.len() == 0 {
        assert(s.take(n) =~= s);
    } else if n == s.len() {
        assert(s.take(n) =~= s);
        lemma_seq_sum_nonneg(s);
    } else {
        lemma_seq_sum_prefix_bound(s.drop_last(), n);
        assert(s.drop_last().take(n) =~= s.take(n));
    }
}

/// Sums of counters are non-negative.
pub proof fn lemma_seq_sum_nonneg(s: Seq<u32>)
    ensures
        seq_sum(s) >= 0,
    decreases s.len(),
{
    if s.len() > 0 {
        lemma_seq_sum_nonneg(s.drop_last());
    }
}

/// Abstract state of a [`ThermalTelemetryClient`].
pub struct ThermalClientView {
    /// Whether records are accepted at all.
    pub enabled: bool,
    /// Last temperature recorded.
    pub last_temp: Option<i32>,
    /// Last thermal state recorded.
    pub last_state: Option<ThermalState>,
    /// Records waiting to be forwarded.
    pub pending: Seq<TelemetryRecord>,
}

/// Whether a thermal update differs enough from the last one recorded: by at least
/// one degree, or in state, or nothing was recorded yet.
pub open spec fn thermal_report_due(
    last_temp: Option<i32>,
    last_state: Option<ThermalState>,
    temp: i32,
    state: ThermalState,
) -> bool {
    match (last_temp, last_state) {
        (Some(lt), Some(ls)) => {
            let d = temp - lt;
            (if d < 0 {
                -d
            } else {
                d
            }) >= 1000 || state != ls
        },
        _ => true,
    }
}

/// A thermal update can be compared with the last one recorded without leaving
/// the 32-bit range.
pub open spec fn thermal_report_defined(last_temp: Option<i32>, temp: i32) -> bool {
    match last_temp {
        Some(lt) => i32::MIN < temp - lt <= i32::MAX,
        None => true,
    }
}

/// Telemetry client for thermal status: records a reading when it moved by at
/// least one degree or the state changed.
pub struct ThermalTelemetryClient {
    enabled: bool,
    last_temp: Option<i32>,
    last_state: Option<ThermalState>,
    pending: Vec<TelemetryRecord>,
}

impl View for ThermalTelemetryClient {
    type V = ThermalClientView;

    closed spec fn view(&self) -> ThermalClientView {
        ThermalClientView {
            enabled: self.enabled,
            last_temp: self.last_temp,
            last_state: self.last_state,
            pending: self.pending@,
        }
    }
}

impl ThermalTelemetryClient {
    /// Creates a client; a disabled client records nothing.
    pub fn new(enabled: bool) -> (r: Self)
        ensures
            r@ == (ThermalClientView {
                enabled,
                last_temp: None,
                last_state: None,
                pending: Seq::empty(),
            }),
    {
        ThermalTelemetryClient { enabled, last_temp: None, last_state: None, pending: Vec::new() }
    }

    /// Records a change of the periodic interval of `device`.
    pub fn report_interval(&mut self, device: Device, interval: PeriodicInterval)
        ensures
            final(self)@ == (ThermalClientView {
                pending: if old(self)@.enabled {
                    old(self)@.pending.push(TelemetryRecord::PeriodicInterval(device, interval))
                } else {
                    old(self)@.pending
                },
                ..old(self)@
            }),
    {
        if self.enabled {
            self.pending.push(TelemetryRecord::PeriodicInterval(device, interval));
        }
    }

    /// Offers a temperature (milli-Celsius) and state.
    pub fn report_thermal(&mut self, temp: i32, state: ThermalState)
        requires
            thermal_report_defined(old(self)@.last_temp, temp),
        ensures
            ({
                let o = old(self)@;
                if o.enabled && thermal_report_due(o.last_temp, o.last_state, temp, state) {
                    final(self)@ == ThermalClientView {
                        enabled: o.enabled,
                        last_temp: Some(temp),
                        last_state: Some(state),
                        pending: o.pending.push(
                            TelemetryRecord::Thermal(
                                ThermalStatus::TempOverheating(
                                    temp,
                                    state == ThermalState::Overheating,
                                ),
                            ),
                        ),
                    }
                } else {
                    final(self)@ == o
                }
            }),
    {
        if self.enabled {
            let send = match (self.last_temp, self.last_state) {
                (Some(last_temp), Some(last_state)) => {
                    let d = temp - last_temp;
                    let a = if d < 0 {
                        -d
                    } else {
                        d
                    };
                    a >= 1000 || state != last_state
                },
                _ => true,
            };
            if send {
                let overheating = state == ThermalState::Overheating;
                self.pending.push(
                    TelemetryRecord::Thermal(ThermalStatus::TempOverheating(temp, overheating)),
                );
                self.last_temp = Some(temp);
                self.last_state = Some(state);
            }
        }
    }

    /// Hands out the records waiting to be forwarded.
    pub fn take_pending(&mut self) -> (r: Vec<TelemetryRecord>)
        ensures
            r@ == old(self)@.pending,
            final(self)@ == (ThermalClientView { pending: Seq::empty(), ..old(self)@ }),
    {
        let mut out = Vec::new();
        std::mem::swap(&mut out, &mut self.pending);
        out
    }
}

/// Abstract state of a [`ProximityTelemetryClient`].
pub struct ProximityClientView {
    /// Whether records are accepted at all.
    pub enabled: bool,
    /// Distance under which an object counts as in range.
    pub wake_threshold_mm: u16,
    /// Last distance recorded per direction.
    pub last_logged_distance: Seq<u16>,
    /// Last in-range flag recorded per direction.
    pub last_logged_in_range: Seq<Option<bool>>,
    /// Records waiting to be forwarded.
    pub pending: Seq<TelemetryRecord>,
}

/// Whether a proximity update is worth recording: the in-range flag changed or
/// the distance moved by at least 50 mm since the last record of that direction.
pub open spec fn proximity_report_due(v: ProximityClientView, direction: Direction, distance_mm: u16) -> bool {
    let idx = direction_index(direction);
    let in_range = distance_mm < v.wake_threshold_mm;
    let d = distance_mm - v.last_logged_distance[idx];
    Some(in_range) != v.last_logged_in_range[idx] || (if d < 0 {
        -d
    } else {
        d
    }) >= 50
}

/// The client after a proximity update of `direction` at `distance_mm`: a due
/// update is recorded as in or out of range and remembered for its direction.
pub open spec fn proximity_reported(o: ProximityClientView, direction: Direction, distance_mm: u16) -> ProximityClientView {
    let idx = direction_index(direction);
    let in_range = distance_mm < o.wake_threshold_mm;
    if o.enabled && proximity_report_due(o, direction, distance_mm) {
        ProximityClientView {
            last_logged_distance: o.last_logged_distance.update(idx, distance_mm),
            last_logged_in_range: o.last_logged_in_range.update(idx, Some(in_range)),
            pending: o.pending.push(
                TelemetryRecord::Proximity(
                    if in_range {
                        ProximityTelemetry::InRange(direction, distance_mm)
                    } else {
                        ProximityTelemetry::OutRange(direction, distance_mm)
                    },
                ),
            ),
            ..o
        }
    } else {
        o
    }
}

/// A proximity report adds at most one record, after those already waiting;
/// the record says "in range" exactly when the distance is under the wake
/// threshold, and "out of range" otherwise, with the reported direction and
/// distance; the direction then remembers that side and that distance. The
/// first report of a direction is always recorded, and so is a report that
/// crosses the threshold.
pub proof fn lemma_proximity_record_side(o: ProximityClientView, direction: Direction, distance_mm: u16)
    requires
        o.enabled,
        o.last_logged_in_range.len() == 3,
        o.last_logged_distance.len() == 3,
    ensures
        ({
            let n = proximity_reported(o, direction, distance_mm);
            let i = direction_index(direction);
            let under = distance_mm < o.wake_threshold_mm;
            &&& n.pending.len() == o.pending.len() || n.pending.len() == o.pending.len() + 1
            &&& n.pending.subrange(0, o.pending.len() as int) == o.pending
            &&& n.pending.len() == o.pending.len() + 1 ==> {
                &&& n.pending.last() matches TelemetryRecord::Proximity(ProximityTelemetry::InRange(d, mm)) ==> under
                    && d == direction && mm == distance_mm
                &&& n.pending.last() matches TelemetryRecord::Proximity(ProximityTelemetry::OutRange(d, mm)) ==> !under
                    && d == direction && mm == distance_mm
                &&& n.pending.last() is Proximity
                &&& n.last_logged_in_range[i] == Some(under)
                &&& n.last_logged_distance[i] == distance_mm
            }
            &&& (o.last_logged_in_range[i] is None || o.last_logged_in_range[i] == Some(!under)) ==> n.pending.len()
                == o.pending.len() + 1
        }),
{
    let n = proximity_reported(o, direction, distance_mm);
    assert(n.pending.subrange(0, o.pending.len() as int) =~= o.pending);
}

/// Telemetry client for proximity: records in/out-of-range changes and distance
/// moves of at least 50 mm, per direction.
pub struct ProximityTelemetryClient {
    enabled: bool,
    wake_threshold_mm: u16,
    last_logged_distance: [u16; 3],
    last_logged_in_range: [Option<bool>; 3],
    pending: Vec<TelemetryRecord>,
}

impl View for ProximityTelemetryClient {
    type V = ProximityClientView;

    closed spec fn view(&self) -> ProximityClientView {
        ProximityClientView {
            enabled: self.enabled,
            wake_threshold_mm: self.wake_threshold_mm,
            last_logged_distance: self.last_logged_distance@,
            last_logged_in_range: self.last_logged_in_range@,
            pending: self.pending@,
        }
    }
}

impl ProximityTelemetryClient {
    /// Creates a client with the given wake threshold.
    pub fn new(enabled: bool, wake_threshold_mm: u16) -> (r: Self)
        ensures
            r@.enabled == enabled,
            r@.wake_threshold_mm == wake_threshold_mm,
            r@.last_logged_distance == seq![9999u16, 9999u16, 9999u16],
            r@.last_logged_in_range == seq![None::<bool>, None::<bool>, None::<bool>],
            r@.pending == Seq::<TelemetryRecord>::empty(),
    {
        let r = ProximityTelemetryClient {
            enabled,
            wake_threshold_mm,
            last_logged_distance: [9999u16; 3],
            last_logged_in_range: [None; 3],
            pending: Vec::new(),
        };
        assert(r@.last_logged_distance =~= seq![9999u16, 9999u16, 9999u16]);
        assert(r@.last_logged_in_range =~= seq![None::<bool>, None::<bool>, None::<bool>]);
        r
    }

    /// Records a change of the periodic interval of `device`.
    pub fn report_interval(&mut self, device: Device, interval: PeriodicInterval)
        ensures
            final(self)@ == (ProximityClientView {
                pending: if old(self)@.enabled {
                    old(self)@.pending.push(TelemetryRecord::PeriodicInterval(device, interval))
                } else {
                    old(self)@.pending
                },
                ..old(self)@
            }),
    {
        if self.enabled {
            self.pending.push(TelemetryRecord::PeriodicInterval(device, interval));
        }
    }

    /// Hands out the records waiting to be forwarded.
    pub fn take_pending(&mut self) -> (r: Vec<TelemetryRecord>)
        ensures
            r@ == old(self)@.pending,
            final(self)@ == (ProximityClientView { pending: Seq::empty(), ..old(self)@ }),
    {
        let mut out = Vec::new();
        std::mem::swap(&mut out, &mut self.pending);
        out
    }
}

impl TelemetryClient<(Direction, u16)> for ProximityTelemetryClient {
    fn report(&mut self, value: (Direction, u16))
        ensures
            final(self)@ == proximity_reported(old(self)@, value.0, value.1),
    {
        let (direction, distance_mm) = value;
        if self.enabled {
            let idx = direction.index();
            let in_range = distance_mm < self.wake_threshold_mm;
            let in_range_changed = match self.last_logged_in_range[idx] {
                Some(b) => b != in_range,
                None => true,
            };
            let last = self.last_logged_distance[idx];
            let moved = if distance_mm >= last {
                distance_mm - last >= 50
            } else {
                last - distance_mm >= 50
            };
            if in_range_changed || moved {
                let prox = if in_range {
                    ProximityTelemetry::InRange(direction, distance_mm)
                } else {
                    ProximityTelemetry::OutRange(direction, distance_mm)
                };
                self.pending.push(TelemetryRecord::Proximity(prox));
                self.last_logged_distance[idx] = distance_mm;
                self.last_logged_in_range[idx] = Some(in_range);
            }
        }
    }
}

/// Abstract state of a client that only forwards records.
pub struct ForwardingClientView {
    /// Whether records are accepted at all.
    pub enabled: bool,
    /// Records waiting to be forwarded.
    pub pending: Seq<TelemetryRecord>,
}

/// The outbox after offering `rec` to a forwarding client.
pub open spec fn forwarded(v: ForwardingClientView, rec: TelemetryRecord) -> ForwardingClientView {
    ForwardingClientView {
        enabled: v.enabled,
        pending: if v.enabled {
            v.pending.push(rec)
        } else {
            v.pending
        },
    }
}

/// Telemetry client for the motor: forwards statuses and errors.
pub struct MotorTelemetryClient {
    enabled: bool,
    pending: Vec<TelemetryRecord>,
}

impl View for MotorTelemetryClient {
    type V = ForwardingClientView;

    closed spec fn view(&self) -> ForwardingClientView {
        ForwardingClientView { enabled: self.enabled, pending: self.pending@ }
    }
}

impl MotorTelemetryClient {
    /// Creates a client; a disabled client records nothing.
    pub fn new(enabled: bool) -> (r: Self)
        ensures
            r@ == (ForwardingClientView { enabled, pending: Seq::empty() }),
    {
        MotorTelemetryClient { enabled, pending: Vec::new() }
    }

    /// Records a peripheral error.
    pub fn report_error(&mut self, err: PeripheralError)
        ensures
            final(self)@ == forwarded(old(self)@, TelemetryRecord::PeripheralError(err)),
    {
        if self.enabled {
            self.pending.push(TelemetryRecord::PeripheralError(err));
        }
    }

    /// Hands out the records waiting to be forwarded.
    pub fn take_pending(&mut self) -> (r: Vec<TelemetryRecord>)
        ensures
            r@ == old(self)@.pending,
            final(self)@ == (ForwardingClientView { pending: Seq::empty(), ..old(self)@ }),
    {
        let mut out = Vec::new();
        std::mem::swap(&mut out, &mut self.pending);
        out
    }
}

impl TelemetryClient<MotorStatus> for MotorTelemetryClient {
    fn report(&mut self, value: MotorStatus)
        ensures
            final(self)@ == forwarded(old(self)@, TelemetryRecord::Motor(value)),
    {
        if self.enabled {
            self.pending.push(TelemetryRecord::Motor(value));
        }
    }
}

/// Telemetry client for the battery: forwards statuses, fuel gauge readings,
/// charger states, errors and interval changes.
pub struct BatteryTelemetryClient {
    enabled: bool,
    pending: Vec<TelemetryRecord>,
}

impl View for BatteryTelemetryClient {
    type V = ForwardingClientView;

    closed spec fn view(&self) -> ForwardingClientView {
        ForwardingClientView { enabled: self.enabled, pending: self.pending@ }
    }
}

impl BatteryTelemetryClient {
    /// Creates a client; a disabled client records nothing.
    pub fn new(enabled: bool) -> (r: Self)
        ensures
            r@ == (ForwardingClientView { enabled, pending: Seq::empty() }),
    {
        BatteryTelemetryClient { enabled, pending: Vec::new() }
    }

    /// Records a peripheral error.
    pub fn report_error(&mut self, err: PeripheralError)
        ensures
            final(self)@ == forwarded(old(self)@, TelemetryRecord::PeripheralError(err)),
    {
        if self.enabled {
            self.pending.push(TelemetryRecord::PeripheralError(err));
        }
    }

    /// Records a change of the periodic interval of `device`.
    pub fn report_interval(&mut self, device: Device, interval: PeriodicInterval)
        ensures
            final(self)@ == forwarded(
                old(self)@,
                TelemetryRecord::PeriodicInterval(device, interval),
            ),
    {
        if self.enabled {
            self.pending.push(TelemetryRecord::PeriodicInterval(device, interval));
        }
    }

    /// Hands out the records waiting to be forwarded.
    pub fn take_pending(&mut self) -> (r: Vec<TelemetryRecord>)
        ensures
            r@ == old(self)@.pending,
            final(self)@ == (ForwardingClientView { pending: Seq::empty(), ..old(self)@ }),
    {
        let mut out = Vec::new();
        std::mem::swap(&mut out, &mut self.pending);
        out
    }
}

impl TelemetryClient<BatteryStatus> for BatteryTelemetryClient {
    fn report(&mut self, value: BatteryStatus)
        ensures
            final(self)@ == forwarded(old(self)@, TelemetryRecord::Battery(value)),
    {
        if self.enabled {
            self.pending.push(TelemetryRecord::Battery(value));
        }
    }
}

impl TelemetryClient<FuelGaugeTelemetry> for BatteryTelemetryClient {
    fn report(&mut self, value: FuelGaugeTelemetry)
        ensures
            final(self)@ == forwarded(old(self)@, TelemetryRecord::FuelGauge(value)),
    {
        if self.enabled {
            self.pending.push(TelemetryRecord::FuelGauge(value));
        }
    }
}

impl TelemetryClient<ChargeState> for BatteryTelemetryClient {
    fn report(&mut self, value: ChargeState)
        ensures
            final(self)@ == forwarded(old(self)@, TelemetryRecord::ChargerState(value)),
    {
        if self.enabled {
            self.pending.push(TelemetryRecord::ChargerState(value));
        }
    }
}

/// Abstract state of an [`LedTelemetryClient`].
pub struct LedClientView {
    /// Whether records are accepted at all.
    pub enabled: bool,
    /// Last pattern recorded.
    pub last_state: Option<SystemLedState>,
    /// Records waiting to be forwarded.
    pub pending: Seq<TelemetryRecord>,
}

/// Telemetry client for the LED: records pattern changes only.
pub struct LedTelemetryClient {
    enabled: bool,
    last_state: Option<SystemLedState>,
    pending: Vec<TelemetryRecord>,
}

impl View for LedTelemetryClient {
    type V = LedClientView;

    closed spec fn view(&self) -> LedClientView {
        LedClientView { enabled: self.enabled, last_state: self.last_state, pending: self.pending@ }
    }
}

impl LedTelemetryClient {
    /// Creates a client; a disabled client records nothing.
    pub fn new(enabled: bool) -> (r: Self)
        ensures
            r@ == (LedClientView { enabled, last_state: None, pending: Seq::empty() }),
    {
        LedTelemetryClient { enabled, last_state: None, pending: Vec::new() }
    }

    /// Records a peripheral error.
    pub fn report_error(&mut self, err: PeripheralError)
        ensures
            final(self)@ == (LedClientView {
                pending: if old(self)@.enabled {
                    old(self)@.pending.push(TelemetryRecord::PeripheralError(err))
                } else {
                    old(self)@.pending
                },
                ..old(self)@
            }),
    {
        if self.enabled {
            self.pending.push(TelemetryRecord::PeripheralError(err));
        }
    }

    /// Hands out the records waiting to be forwarded.
    pub fn take_pending(&mut self) -> (r: Vec<TelemetryRecord>)
        ensures
            r@ == old(self)@.pending,
            final(self)@ == (LedClientView { pending: Seq::empty(), ..old(self)@ }),
    {
        let mut out = Vec::new();
        std::mem::swap(&mut out, &mut self.pending);
        out
    }
}

impl TelemetryClient<SystemLedState> for LedTelemetryClient {
    fn report(&mut self, value: SystemLedState)
        ensures
            ({
                let o = old(self)@;
                if o.enabled && o.last_state != Some(value) {
                    final(self)@ == LedClientView {
                        enabled: o.enabled,
                        last_state: Some(value),
                        pending: o.pending.push(TelemetryRecord::Led(value)),
                    }
                } else {
                    final(self)@ == o
                }
            }),
    {
        if self.enabled {
            let changed = match self.last_state {
                Some(last) => last != value,
                None => true,
            };
            if changed {
                self.pending.push(TelemetryRecord::Led(value));
                self.last_state = Some(value);
            }
        }
    }
}

} // verus!
