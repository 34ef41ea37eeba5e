//! Deterministic state machine for the motor's operating states.

use vstd::prelude::*;

verus! {

/// Operating states of the motor.
#[derive(Clone, Copy, PartialEq, Eq, Structural, Debug)]
pub enum MotorState {
    /// The motor is powered off.
    Off,
    /// The motor is starting up and ramping its duty cycle up.
    RampUp,
    /// The motor runs at target speed.
    On,
    /// The motor is ramping its duty cycle down before stopping.
    RampDown,
}

/// External events that drive motor state transitions.
#[derive(Clone, Copy, PartialEq, Eq, Structural, Debug)]
pub enum MotorEvent {
    /// Turn the motor on.
    PowerOn,
    /// Turn the motor off.
    PowerOff,
    /// The current ramp has finished.
    RampComplete,
}

/// The state reached from `state` on `event`.
pub open spec fn next_state(state: MotorState, event: MotorEvent) -> MotorState {
    match (state, event) {
        (MotorState::Off, MotorEvent::PowerOn) => MotorState::RampUp,
        (MotorState::RampUp, MotorEvent::RampComplete) => MotorState::On,
        (MotorState::RampUp, MotorEvent::PowerOff) => MotorState::Off,
        (MotorState::On, MotorEvent::PowerOff) => MotorState::RampDown,
        (MotorState::RampDown, MotorEvent::RampComplete) => MotorState::Off,
        _ => state,
    }
}

/// A target-agnostic state machine for the motor's operating states.
pub struct MotorStateMachine {
    state: MotorState,
}

impl MotorStateMachine {
    /// The current state, as seen by specifications.
    pub closed spec fn spec_state(&self) -> MotorState {
        self.state
    }

    /// Creates a state machine in the `Off` state.
    pub fn new() -> (r: Self)
        ensures
            r.spec_state() == MotorState::Off,
    {
        MotorStateMachine { state: MotorState::Off }
    }

    /// The current state.
    pub fn state(&self) -> (r: MotorState)
        ensures
            r == self.spec_state(),
    {
        self.state
    }

    /// Applies `event`.
    pub fn transition(&mut self, event: MotorEvent)
        ensures
            final(self).spec_state() == next_state(old(self).spec_state(), event),
    {
        self.state = match (self.state, event) {
            (MotorState::Off, MotorEvent::PowerOn) => MotorState::RampUp,
            (MotorState::RampUp, MotorEvent::RampComplete) => MotorState::On,
            (MotorState::RampUp, MotorEvent::PowerOff) => MotorState::Off,
            (MotorState::On, MotorEvent::PowerOff) => MotorState::RampDown,
            (MotorState::RampDown, MotorEvent::RampComplete) => MotorState::Off,
            _ => self.state,
        };
    }
}

/// Turning the motor off never leaves it running or ramping up: the next state is
/// `Off` or `RampDown`.
pub proof fn lemma_power_off_stops(state: MotorState)
    ensures
        next_state(state, MotorEvent::PowerOff) == MotorState::Off
            || next_state(state, MotorEvent::PowerOff) == MotorState::RampDown,
{
}

/// The motor only reaches `On` from `RampUp` on `RampComplete`.
pub proof fn lemma_on_only_after_ramp_up(state: MotorState, event: MotorEvent)
    requires
        state != MotorState::On,
        next_state(state, event) == MotorState::On,
    ensures
        state == MotorState::RampUp,
        event == MotorEvent::RampComplete,
{
}

/// A stopped motor only leaves `Off` on `PowerOn`, and then it starts ramping up.
pub proof fn lemma_off_leaves_only_on_power_on(event: MotorEvent)
    requires
        next_state(MotorState::Off, event) != MotorState::Off,
    ensures
        event == MotorEvent::PowerOn,
        next_state(MotorState::Off, event) == MotorState::RampUp,
{
}

} // verus!
