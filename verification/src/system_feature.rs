//! How the answers of several system features combine into one.

use crate::model::Gesture;
use crate::types::{BatteryStatus, BatteryUpdateAction, GestureAction, ProximityAction};
use vstd::prelude::*;

verus! {

/// Overheating threshold (milli-Celsius) when no feature sets one.
pub const DEFAULT_OVERHEATING_MILLI_C: i32 = 45000;

/// Critical temperature threshold (milli-Celsius) when no feature sets one.
pub const DEFAULT_CRITICAL_MILLI_C: i32 = 60000;

/// Overheating and critical temperature thresholds (milli-Celsius).
#[derive(Clone, Copy, PartialEq, Eq, Structural, Debug)]
pub struct ThermalThresholds {
    /// Overheating threshold.
    pub overheating_milli_c: i32,
    /// Critical threshold.
    pub critical_milli_c: i32,
}

/// What one feature contributes to the combined configuration.
#[derive(Clone, Copy, PartialEq, Eq, Structural, Debug)]
pub struct FeatureTraits {
    /// Boot traps the feature holds at start.
    pub boot_trap_mask: u32,
    /// Overheating and critical thresholds (milli-Celsius), for the one feature
    /// that sets them.
    pub thermal_thresholds: Option<ThermalThresholds>,
    /// Whether the feature sees a critical temperature.
    pub thermal_critical: bool,
}

/// The bitwise union of the boot trap masks of `fs`.
pub open spec fn mask_union(fs: Seq<FeatureTraits>) -> u32
    decreases fs.len(),
{
    if fs.len() == 0 {
        0
    } else {
        mask_union(fs.drop_last()) | fs.last().boot_trap_mask
    }
}

/// The number of features that set thermal thresholds.
pub open spec fn threshold_owners(fs: Seq<FeatureTraits>) -> nat
    decreases fs.len(),
{
    if fs.len() == 0 {
        0
    } else {
        threshold_owners(fs.drop_last()) + if fs.last().thermal_thresholds is Some {
            1nat
        } else {
            0nat
        }
    }
}

/// The thresholds of the first feature that sets them, else the defaults.
pub open spec fn combined_thresholds(fs: Seq<FeatureTraits>) -> ThermalThresholds
    decreases fs.len(),
{
    if fs.len() == 0 {
        ThermalThresholds { overheating_milli_c: DEFAULT_OVERHEATING_MILLI_C, critical_milli_c: DEFAULT_CRITICAL_MILLI_C }
    } else {
        match fs[0].thermal_thresholds {
            Some(t) => t,
            None => combined_thresholds(fs.drop_first()),
        }
    }
}

/// The boot traps of all features together.
pub fn default_boot_trap_mask(features: &Vec<FeatureTraits>) -> (r: u32)
    ensures
        r == mask_union(features@),
{
    let mut m: u32 = 0;
    let mut i: usize = 0;
    while i < features.len()
        invariant
            i <= features@.len(),
            m == mask_union(features@.take(i as int)),
        decreases features@.len() - i,
    {
        proof {
            assert(features@.take(i as int + 1).drop_last() =~= features@.take(i as int));
        }
        m = m | features[i].boot_trap_mask;
        i = i + 1;
    }
    proof {
        assert(features@.take(features@.len() as int) =~= features@);
    }
    m
}

/// The thresholds of the first feature that sets them.
fn first_thresholds(features: &Vec<FeatureTraits>) -> (r: ThermalThresholds)
    ensures
        r == combined_thresholds(features@),
{
    proof {
        assert(features@.skip(0) =~= features@);
    }
    let mut i: usize = 0;
    while i < features.len()
        invariant
            i <= features@.len(),
            combined_thresholds(features@) == combined_thresholds(features@.skip(i as int)),
        decreases features@.len() - i,
    {
        proof {
            assert(features@.skip(i as int).drop_first() =~= features@.skip(i as int + 1));
        }
        if let Some(t) = features[i].thermal_thresholds {
            return t;
        }
        i = i + 1;
    }
    proof {
        assert(features@.skip(i as int).len() == 0);
    }
    ThermalThresholds { overheating_milli_c: DEFAULT_OVERHEATING_MILLI_C, critical_milli_c: DEFAULT_CRITICAL_MILLI_C }
}

/// The overheating threshold: the one feature's that sets thresholds, else
/// 45 °C. At most one feature may set thresholds.
pub fn thermal_overheating_temp_threshold(features: &Vec<FeatureTraits>) -> (r: i32)
    requires
        threshold_owners(features@) <= 1,
    ensures
        r == combined_thresholds(features@).overheating_milli_c,
{
    first_thresholds(features).overheating_milli_c
}

/// The critical threshold: the one feature's that sets thresholds, else
/// 60 °C. At most one feature may set thresholds.
pub fn thermal_critical_temp_threshold(features: &Vec<FeatureTraits>) -> (r: i32)
    requires
        threshold_owners(features@) <= 1,
    ensures
        r == combined_thresholds(features@).critical_milli_c,
{
    first_thresholds(features).critical_milli_c
}

/// Whether some feature sees a critical temperature.
pub fn thermal_critical(features: &Vec<FeatureTraits>) -> (r: bool)
    ensures
        r == exists|i: int| 0 <= i < features@.len() && #[trigger] features@[i].thermal_critical,
{
    let mut i: usize = 0;
    while i < features.len()
        invariant
            i <= features@.len(),
            forall|k: int| 0 <= k < i ==> !(#[trigger] features@[k]).thermal_critical,
        decreases features@.len() - i,
    {
        if features[i].thermal_critical {
            return true;
        }
        i = i + 1;
    }
    false
}

/// The proximity answers of several features merged: the last gesture and the
/// last action that are not empty win.
pub open spec fn merged_proximity(rs: Seq<(Option<Gesture>, ProximityAction)>) -> (Option<Gesture>, ProximityAction)
    decreases rs.len(),
{
    if rs.len() == 0 {
        (None, ProximityAction::NoAction)
    } else {
        let prev = merged_proximity(rs.drop_last());
        let (g, a) = rs.last();
        (
            if g is Some {
                g
            } else {
                prev.0
            },
            if a != ProximityAction::NoAction {
                a
            } else {
                prev.1
            },
        )
    }
}

/// Merges the proximity answers of several features.
pub fn merge_proximity(results: &Vec<(Option<Gesture>, ProximityAction)>) -> (r: (Option<Gesture>, ProximityAction))
    ensures
        r == merged_proximity(results@),
{
    let mut g: Option<Gesture> = None;
    let mut a = ProximityAction::NoAction;
    let mut i: usize = 0;
    while i < results.len()
        invariant
            i <= results@.len(),
            (g, a) == merged_proximity(results@.take(i as int)),
        decreases results@.len() - i,
    {
        proof {
            assert(results@.take(i as int + 1).drop_last() =~= results@.take(i as int));
        }
        let (rg, ra) = results[i];
        if rg.is_some() {
            g = rg;
        }
        match ra {
            ProximityAction::NoAction => {},
            _ => {
                a = ra;
            },
        }
        i = i + 1;
    }
    proof {
        assert(results@.take(results@.len() as int) =~= results@);
    }
    (g, a)
}

/// The gesture action of several features: the first that does something.
pub open spec fn merged_gesture_action(actions: Seq<GestureAction>) -> GestureAction
    decreases actions.len(),
{
    if actions.len() == 0 {
        GestureAction::NoAction
    } else if actions[0] != GestureAction::NoAction {
        actions[0]
    } else {
        merged_gesture_action(actions.drop_first())
    }
}

/// Merges the gesture actions of several features.
pub fn merge_gesture_action(actions: &Vec<GestureAction>) -> (r: GestureAction)
    ensures
        r == merged_gesture_action(actions@),
{
    proof {
        assert(actions@.skip(0) =~= actions@);
    }
    let mut i: usize = 0;
    while i < actions.len()
        invariant
            i <= actions@.len(),
            merged_gesture_action(actions@) == merged_gesture_action(actions@.skip(i as int)),
        decreases actions@.len() - i,
    {
        proof {
            assert(actions@.skip(i as int).drop_first() =~= actions@.skip(i as int + 1));
        }
        match actions[i] {
            GestureAction::NoAction => {},
            a => {
                return a;
            },
        }
        i = i + 1;
    }
    proof {
        assert(actions@.skip(i as int).len() == 0);
    }
    GestureAction::NoAction
}

/// The battery answer of several features: the first feature that answers.
pub open spec fn first_answer(
    answers: Seq<Option<(Option<BatteryUpdateAction>, BatteryStatus)>>,
) -> Option<(Option<BatteryUpdateAction>, BatteryStatus)>
    decreases answers.len(),
{
    if answers.len() == 0 {
        None
    } else if answers[0] is Some {
        answers[0]
    } else {
        first_answer(answers.drop_first())
    }
}

/// Merges the battery answers of several features.
pub fn merge_battery_update(
    answers: &Vec<Option<(Option<BatteryUpdateAction>, BatteryStatus)>>,
) -> (r: Option<(Option<BatteryUpdateAction>, BatteryStatus)>)
    ensures
        r == first_answer(answers@),
{
    proof {
        assert(answers@.skip(0) =~= answers@);
    }
    let mut i: usize = 0;
    while i < answers.len()
        invariant
            i <= answers@.len(),
            first_answer(answers@) == first_answer(answers@.skip(i as int)),
        decreases answers@.len() - i,
    {
        proof {
            assert(answers@.skip(i as int).drop_first() =~= answers@.skip(i as int + 1));
        }
        if answers[i].is_some() {
            return answers[i];
        }
        i = i + 1;
    }
    proof {
        assert(answers@.skip(i as int).len() == 0);
    }
    None
}

/// A feature's boot traps are among the combined ones.
pub proof fn lemma_mask_union_covers(fs: Seq<FeatureTraits>, i: int)
    requires
        0 <= i < fs.len(),
    ensures
        fs[i].boot_trap_mask & mask_union(fs) == fs[i].boot_trap_mask,
    decreases fs.len(),
{
    let m = mask_union(fs.drop_last());
    let last = fs.last().boot_trap_mask;
    if i == fs.len() - 1 {
        assert(last & (m | last) == last) by (bit_vector);
    } else {
        lemma_mask_union_covers(fs.drop_last(), i);
        let x = fs[i].boot_trap_mask;
        assert(fs.drop_last()[i] == fs[i]);
        assert(x & m == x ==> x & (m | last) == x) by (bit_vector);
    }
}

} // verus!
