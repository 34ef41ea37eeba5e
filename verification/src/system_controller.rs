//! System-level decisions: which devices run in which power state, and what
//! each system command asks of the power manager.

use crate::model::{ChargeState, Direction, Gesture, SystemStatus};
use crate::parse::str_eq;
use crate::types::{
    BatteryStatus, BatteryUpdateAction, BootTrapReason, Device, DeviceSupport, GestureAction,
    ProximityAction, SensorMetadata,
};
use vstd::prelude::*;

verus! {

/// Seconds without activity before the system goes to sleep, by default.
pub const DEFAULT_INACTIVITY_TIMEOUT_S: u32 = 30;

/// Seconds between two logs of the active boot traps.
pub const BOOT_TRAP_LOG_PERIOD_S: u8 = 5;

/// Commands and events for the system controller.
#[derive(Clone, Copy, PartialEq, Eq, Structural, Debug)]
pub enum SystemCommand {
    /// Activity was seen: restart the inactivity timer and wake up.
    ActivityDetected,
    /// A thermal or motor alert fired.
    AlertTriggered,
    /// A fuel gauge update.
    BatteryUpdate {
        /// State of charge (percent).
        state_of_charge: u8,
        /// Charger state.
        charger_state: ChargeState,
    },
    /// A proximity reading.
    ProximityUpdate {
        /// Sensor direction.
        direction: Direction,
        /// Distance (mm).
        distance_mm: u16,
    },
    /// A gesture was recognised.
    Gesture(Gesture),
    /// The power state changed.
    StateChanged {
        /// Previous state.
        from: SystemStatus,
        /// New state.
        to: SystemStatus,
    },
    /// A battery action was decided.
    BatteryAction(BatteryUpdateAction),
}

impl SystemCommand {
    /// The command carrying a fuel gauge update.
    pub fn from_battery_update(state_of_charge: u8, charger_state: ChargeState) -> (r: SystemCommand)
        ensures
            r == (SystemCommand::BatteryUpdate { state_of_charge, charger_state }),
    {
        SystemCommand::BatteryUpdate { state_of_charge, charger_state }
    }

    /// The command carrying a proximity reading of the sensor `metadata` describes.
    pub fn from_proximity_update(metadata: SensorMetadata, distance_mm: u16) -> (r: SystemCommand)
        ensures
            r == (SystemCommand::ProximityUpdate { direction: metadata.direction, distance_mm }),
    {
        SystemCommand::ProximityUpdate { direction: metadata.direction, distance_mm }
    }
}

/// The abstract state of a [`SystemOutbox`].
pub struct SystemOutboxView {
    /// How many commands it holds at most.
    pub capacity: nat,
    /// Commands waiting for the system controller, oldest first.
    pub pending: Seq<SystemCommand>,
}

/// The queue of commands waiting for the system controller; a send fails when
/// it is full.
pub struct SystemOutbox {
    capacity: usize,
    pending: Vec<SystemCommand>,
}

impl View for SystemOutbox {
    type V = SystemOutboxView;

    closed spec fn view(&self) -> SystemOutboxView {
        SystemOutboxView { capacity: self.capacity as nat, pending: self.pending@ }
    }
}

/// The outbox after offering `cmd`: appended when there is room.
pub open spec fn outbox_sent(v: SystemOutboxView, cmd: SystemCommand) -> SystemOutboxView {
    if v.pending.len() < v.capacity {
        SystemOutboxView { pending: v.pending.push(cmd), ..v }
    } else {
        v
    }
}

impl SystemOutbox {
    /// An empty queue with room for `capacity` commands.
    pub fn new(capacity: usize) -> (r: Self)
        ensures
            r@ == (SystemOutboxView { capacity: capacity as nat, pending: Seq::empty() }),
    {
        SystemOutbox { capacity, pending: Vec::new() }
    }

    /// Queues `cmd` when there is room; says whether it was queued.
    pub fn try_send(&mut self, cmd: SystemCommand) -> (r: bool)
        ensures
            r == (old(self)@.pending.len() < old(self)@.capacity),
            final(self)@ == outbox_sent(old(self)@, cmd),
    {
        if self.pending.len() < self.capacity {
            self.pending.push(cmd);
            true
        } else {
            false
        }
    }

    /// Hands out the queued commands, oldest first.
    pub fn take_pending(&mut self) -> (r: Vec<SystemCommand>)
        ensures
            r@ == old(self)@.pending,
            final(self)@ == (SystemOutboxView { pending: Seq::empty(), ..old(self)@ }),
    {
        let mut out = Vec::new();
        std::mem::swap(&mut out, &mut self.pending);
        out
    }
}

/// Whether a device runs in a power state: motor and sensors only when active,
/// the LED when active or asleep, battery and thermal supervision always.
pub open spec fn spec_device_supported(device: Device, state: SystemStatus) -> bool {
    match device {
        Device::Motor => state == SystemStatus::Active,
        Device::Sensors => state == SystemStatus::Active,
        Device::Led => state == SystemStatus::Active || state == SystemStatus::Sleep,
        Device::Battery => true,
        Device::Thermal => true,
    }
}

/// Whether a device runs in a power state.
pub fn device_supported_in_state(device: Device, state: SystemStatus) -> (r: bool)
    ensures
        r == spec_device_supported(device, state),
{
    let active = match state {
        SystemStatus::Active => true,
        _ => false,
    };
    let sleep = match state {
        SystemStatus::Sleep => true,
        _ => false,
    };
    match device {
        Device::Motor => active,
        Device::Sensors => active,
        Device::Led => active || sleep,
        Device::Battery => true,
        Device::Thermal => true,
    }
}

/// The devices that run in a power state.
pub fn get_device_support(state: SystemStatus) -> (r: DeviceSupport)
    ensures
        r.motor == spec_device_supported(Device::Motor, state),
        r.battery == spec_device_supported(Device::Battery, state),
        r.proximity == spec_device_supported(Device::Sensors, state),
        r.led == spec_device_supported(Device::Led, state),
        r.thermal == spec_device_supported(Device::Thermal, state),
{
    DeviceSupport {
        motor: device_supported_in_state(Device::Motor, state),
        battery: device_supported_in_state(Device::Battery, state),
        proximity: device_supported_in_state(Device::Sensors, state),
        led: device_supported_in_state(Device::Led, state),
        thermal: device_supported_in_state(Device::Thermal, state),
    }
}

/// Whether the battery is known to be critical.
pub open spec fn spec_battery_critical(s: Option<BatteryStatus>) -> bool {
    s matches Some(b) && b.battery_critical
}

/// Whether the charger is known to be connected.
pub open spec fn spec_charger_connected(s: Option<BatteryStatus>) -> bool {
    s matches Some(b) && b.charger_connected
}

/// Whether the battery is known to be critical.
pub fn battery_critical(s: Option<BatteryStatus>) -> (r: bool)
    ensures
        r == spec_battery_critical(s),
{
    match s {
        Some(b) => b.battery_critical,
        None => false,
    }
}

/// Whether the charger is known to be connected.
pub fn charger_connected(s: Option<BatteryStatus>) -> (r: bool)
    ensures
        r == spec_charger_connected(s),
{
    match s {
        Some(b) => b.charger_connected,
        None => false,
    }
}

/// An operation of the power manager asked for by a system decision.
#[derive(Clone, Copy, PartialEq, Eq, Structural, Debug)]
pub enum PowerOp {
    /// Restart the inactivity timer.
    ResetInactivity,
    /// Drop every wake lock.
    ClearWakeLocks,
    /// Take a wake lock.
    AcquireWakeLock,
    /// Release a wake lock.
    ReleaseWakeLock,
    /// Change the power state.
    SetStatus(SystemStatus),
    /// Clear a boot trap.
    ClearBootTrap(BootTrapReason),
    /// Change the power state if no boot trap remains.
    SetStatusIfUntrapped(SystemStatus),
    /// Record the gesture in telemetry.
    LogGesture(Gesture),
    /// Restart the wake bookkeeping of a system that just became active.
    ResetOnWake,
}

/// Activity restarts the inactivity timer and wakes a sleeping system unless
/// the battery or the temperature is critical.
pub open spec fn spec_plan_activity(status: SystemStatus, battery_critical: bool, thermal_critical: bool) -> Seq<PowerOp> {
    if status == SystemStatus::Sleep && !battery_critical && !thermal_critical {
        seq![PowerOp::ResetInactivity, PowerOp::SetStatus(SystemStatus::Active)]
    } else {
        seq![PowerOp::ResetInactivity]
    }
}

/// The power operations of detected activity.
pub fn plan_activity(status: SystemStatus, battery_critical: bool, thermal_critical: bool) -> (r: Vec<PowerOp>)
    ensures
        r@ == spec_plan_activity(status, battery_critical, thermal_critical),
{
    let mut v = vec![PowerOp::ResetInactivity];
    if let SystemStatus::Sleep = status {
        if !battery_critical && !thermal_critical {
            v.push(PowerOp::SetStatus(SystemStatus::Active));
        }
    }
    proof {
        assert(v@ =~= spec_plan_activity(status, battery_critical, thermal_critical));
    }
    v
}

/// An alert puts an active system to sleep, dropping its wake locks; a sleeping
/// or powered-down system stays.
pub open spec fn spec_plan_alert(status: SystemStatus) -> Seq<PowerOp> {
    if status == SystemStatus::Active {
        seq![PowerOp::ClearWakeLocks, PowerOp::SetStatus(SystemStatus::Sleep)]
    } else {
        Seq::empty()
    }
}

/// The power operations of an alert.
pub fn plan_alert(status: SystemStatus) -> (r: Vec<PowerOp>)
    ensures
        r@ == spec_plan_alert(status),
{
    match status {
        SystemStatus::Active => {
            let v = vec![PowerOp::ClearWakeLocks, PowerOp::SetStatus(SystemStatus::Sleep)];
            proof {
                assert(v@ =~= spec_plan_alert(status));
            }
            v
        },
        _ => Vec::new(),
    }
}

/// A proximity action: wake locks are taken and released as asked; waking the
/// system needs a battery and temperature that are not critical.
pub open spec fn spec_plan_proximity(action: ProximityAction, battery_critical: bool, thermal_critical: bool) -> Seq<PowerOp> {
    match action {
        ProximityAction::AcquireWakeLock => seq![PowerOp::AcquireWakeLock],
        ProximityAction::ReleaseWakeLock => seq![PowerOp::ReleaseWakeLock],
        ProximityAction::WakeSystem => if !battery_critical && !thermal_critical {
            seq![PowerOp::SetStatus(SystemStatus::Active)]
        } else {
            Seq::empty()
        },
        ProximityAction::NoAction => Seq::empty(),
    }
}

/// The power operations of a proximity action.
pub fn plan_proximity(action: ProximityAction, battery_critical: bool, thermal_critical: bool) -> (r: Vec<PowerOp>)
    ensures
        r@ == spec_plan_proximity(action, battery_critical, thermal_critical),
{
    let v = match action {
        ProximityAction::AcquireWakeLock => vec![PowerOp::AcquireWakeLock],
        ProximityAction::ReleaseWakeLock => vec![PowerOp::ReleaseWakeLock],
        ProximityAction::WakeSystem => if !battery_critical && !thermal_critical {
            vec![PowerOp::SetStatus(SystemStatus::Active)]
        } else {
            Vec::new()
        },
        ProximityAction::NoAction => Vec::new(),
    };
    proof {
        assert(v@ =~= spec_plan_proximity(action, battery_critical, thermal_critical));
    }
    v
}

/// A battery action: an empty battery powers down, dropping wake locks; the
/// first good reading clears the battery boot trap and wakes the system once
/// no trap remains; a state-of-charge report only concerns the features.
pub open spec fn spec_plan_battery_action(action: BatteryUpdateAction) -> Seq<PowerOp> {
    match action {
        BatteryUpdateAction::GoToPowerDown => seq![
            PowerOp::ClearWakeLocks,
            PowerOp::SetStatus(SystemStatus::PowerDown),
        ],
        BatteryUpdateAction::ClearBootTrap => seq![
            PowerOp::ClearBootTrap(BootTrapReason::Battery),
            PowerOp::SetStatusIfUntrapped(SystemStatus::Active),
        ],
        BatteryUpdateAction::ReportSoC => Seq::empty(),
    }
}

/// The power operations of a battery action.
pub fn plan_battery_action(action: BatteryUpdateAction) -> (r: Vec<PowerOp>)
    ensures
        r@ == spec_plan_battery_action(action),
{
    let v = match action {
        BatteryUpdateAction::GoToPowerDown => vec![
            PowerOp::ClearWakeLocks,
            PowerOp::SetStatus(SystemStatus::PowerDown),
        ],
        BatteryUpdateAction::ClearBootTrap => vec![
            PowerOp::ClearBootTrap(BootTrapReason::Battery),
            PowerOp::SetStatusIfUntrapped(SystemStatus::Active),
        ],
        BatteryUpdateAction::ReportSoC => Vec::new(),
    };
    proof {
        assert(v@ =~= spec_plan_battery_action(action));
    }
    v
}

/// A gesture mapped to the power toggle is logged; it wakes a powered-down
/// system unless the charger is connected, and powers any other state down,
/// dropping its wake locks. Other gestures ask nothing.
pub open spec fn spec_plan_gesture(
    action: GestureAction,
    gesture: Gesture,
    status: SystemStatus,
    charger_connected: bool,
) -> Seq<PowerOp> {
    match action {
        GestureAction::TogglePower => if status == SystemStatus::PowerDown {
            if charger_connected {
                seq![PowerOp::LogGesture(gesture)]
            } else {
                seq![PowerOp::LogGesture(gesture), PowerOp::SetStatus(SystemStatus::Active)]
            }
        } else {
            seq![
                PowerOp::LogGesture(gesture),
                PowerOp::ClearWakeLocks,
                PowerOp::SetStatus(SystemStatus::PowerDown),
            ]
        },
        GestureAction::NoAction => Seq::empty(),
    }
}

/// The power operations of a gesture.
pub fn plan_gesture(action: GestureAction, gesture: Gesture, status: SystemStatus, charger_connected: bool) -> (r: Vec<PowerOp>)
    ensures
        r@ == spec_plan_gesture(action, gesture, status, charger_connected),
{
    let v = match action {
        GestureAction::TogglePower => match status {
            SystemStatus::PowerDown => if charger_connected {
                vec![PowerOp::LogGesture(gesture)]
            } else {
                vec![PowerOp::LogGesture(gesture), PowerOp::SetStatus(SystemStatus::Active)]
            },
            _ => vec![
                PowerOp::LogGesture(gesture),
                PowerOp::ClearWakeLocks,
                PowerOp::SetStatus(SystemStatus::PowerDown),
            ],
        },
        GestureAction::NoAction => Vec::new(),
    };
    proof {
        assert(v@ =~= spec_plan_gesture(action, gesture, status, charger_connected));
    }
    v
}

/// What a crossed one-second tick decides.
#[derive(Clone, Copy, PartialEq, Eq, Structural, Debug)]
pub struct TickDecision {
    /// Go to sleep.
    pub sleep: bool,
    /// Log the active boot traps now.
    pub log_boot_traps: bool,
    /// The new boot trap log countdown (s).
    pub countdown: u8,
}

/// The decision of a tick: a crossed second puts the system to sleep once it
/// was inactive for the timeout; while a boot trap holds, the traps are logged
/// every five seconds. A tick that crosses no second decides nothing.
pub open spec fn spec_tick(crossed: bool, inactive_ms: u32, timeout_s: u32, boot_trapped: bool, countdown: u8) -> TickDecision {
    if !crossed {
        TickDecision { sleep: false, log_boot_traps: false, countdown }
    } else {
        TickDecision {
            sleep: inactive_ms >= timeout_s * 1000,
            log_boot_traps: boot_trapped && countdown == 0,
            countdown: if !boot_trapped {
                0
            } else if countdown == 0 {
                BOOT_TRAP_LOG_PERIOD_S
            } else {
                (countdown - 1) as u8
            },
        }
    }
}

/// The decision of a tick.
pub fn plan_tick(crossed: bool, inactive_ms: u32, timeout_s: u32, boot_trapped: bool, countdown: u8) -> (r: TickDecision)
    requires
        timeout_s * 1000 <= u32::MAX,
    ensures
        r == spec_tick(crossed, inactive_ms, timeout_s, boot_trapped, countdown),
{
    if !crossed {
        return TickDecision { sleep: false, log_boot_traps: false, countdown };
    }
    let sleep = inactive_ms >= timeout_s * 1000;
    let (log, next) = if boot_trapped {
        if countdown == 0 {
            (true, BOOT_TRAP_LOG_PERIOD_S)
        } else {
            (false, countdown - 1)
        }
    } else {
        (false, 0u8)
    };
    TickDecision { sleep, log_boot_traps: log, countdown: next }
}

/// Subcommands of the `system` command line.
#[derive(Clone, Copy, PartialEq, Eq, Structural, Debug)]
pub enum SystemSubcommand {
    /// Record activity.
    Activity,
    /// Crash on purpose, to test the crash dump.
    Crash,
}

/// The system subcommand named by `s`.
pub open spec fn spec_system_sub(s: Seq<char>) -> Option<SystemSubcommand> {
    if s == "activity"@ {
        Some(SystemSubcommand::Activity)
    } else if s == "crash"@ {
        Some(SystemSubcommand::Crash)
    } else {
        None
    }
}

impl SystemSubcommand {
    /// Reads a system subcommand.
    pub fn parse(s: &str) -> (r: Result<SystemSubcommand, &'static str>)
        ensures
            match spec_system_sub(s@) {
                Some(c) => r == Ok::<SystemSubcommand, &'static str>(c),
                None => r matches Err(e) && e@ == "Invalid system subcommand. Expected: activity, crash"@,
            },
    {
        if str_eq(s, "activity") {
            Ok(SystemSubcommand::Activity)
        } else if str_eq(s, "crash") {
            Ok(SystemSubcommand::Crash)
        } else {
            Err("Invalid system subcommand. Expected: activity, crash")
        }
    }
}

/// The subcommand of a `system` command line, or the message for a missing one.
pub fn plan_system_cli(subcommand: Option<SystemSubcommand>) -> (r: Result<SystemSubcommand, &'static str>)
    ensures
        match subcommand {
            Some(c) => r == Ok::<SystemSubcommand, &'static str>(c),
            None => r matches Err(e) && e@ == "Missing system subcommand"@,
        },
{
    match subcommand {
        Some(c) => Ok(c),
        None => Err("Missing system subcommand"),
    }
}

/// A toggle gesture never wakes a powered-down system whose charger is
/// connected, and always powers down a running one.
pub proof fn lemma_toggle_respects_charger(gesture: Gesture, status: SystemStatus, charger: bool)
    ensures
        status == SystemStatus::PowerDown && charger ==> !spec_plan_gesture(
            GestureAction::TogglePower,
            gesture,
            status,
            charger,
        ).contains(PowerOp::SetStatus(SystemStatus::Active)),
        status != SystemStatus::PowerDown ==> spec_plan_gesture(
            GestureAction::TogglePower,
            gesture,
            status,
            charger,
        ).last() == PowerOp::SetStatus(SystemStatus::PowerDown),
{
    if status == SystemStatus::PowerDown && charger {
        let s = spec_plan_gesture(GestureAction::TogglePower, gesture, status, charger);
        assert(s =~= seq![PowerOp::LogGesture(gesture)]);
        assert(s[0] != PowerOp::SetStatus(SystemStatus::Active));
    }
}

/// Nothing wakes the system while the battery or the temperature is critical:
/// neither activity nor a proximity action asks for the active state then.
pub proof fn lemma_critical_blocks_wake(status: SystemStatus, action: ProximityAction, battery_critical: bool, thermal_critical: bool)
    requires
        battery_critical || thermal_critical,
    ensures
        !spec_plan_activity(status, battery_critical, thermal_critical).contains(PowerOp::SetStatus(SystemStatus::Active)),
        !spec_plan_proximity(action, battery_critical, thermal_critical).contains(PowerOp::SetStatus(SystemStatus::Active)),
{
    let a = spec_plan_activity(status, battery_critical, thermal_critical);
    assert(a =~= seq![PowerOp::ResetInactivity]);
    assert(a[0] != PowerOp::SetStatus(SystemStatus::Active));
    let p = spec_plan_proximity(action, battery_critical, thermal_critical);
    if p.len() > 0 {
        assert(p.len() == 1);
        assert(p[0] != PowerOp::SetStatus(SystemStatus::Active));
    }
}

/// Motor and sensors run only when the system is active; battery and thermal
/// supervision run in every state.
pub proof fn lemma_supervision_always_runs(state: SystemStatus)
    ensures
        spec_device_supported(Device::Battery, state),
        spec_device_supported(Device::Thermal, state),
        spec_device_supported(Device::Motor, state) <==> state == SystemStatus::Active,
        spec_device_supported(Device::Sensors, state) <==> state == SystemStatus::Active,
{
}

/// Which devices run in which power state: everything when active; the LED and
/// the battery and thermal supervision when asleep; only the supervision when
/// powered down.
pub proof fn lemma_device_table()
    ensures
        spec_device_support(SystemStatus::Active) == (DeviceSupport {
            motor: true,
            battery: true,
            proximity: true,
            led: true,
            thermal: true,
        }),
        spec_device_support(SystemStatus::Sleep) == (DeviceSupport {
            motor: false,
            battery: true,
            proximity: false,
            led: true,
            thermal: true,
        }),
        spec_device_support(SystemStatus::PowerDown) == (DeviceSupport {
            motor: false,
            battery: true,
            proximity: false,
            led: false,
            thermal: true,
        }),
{
}

/// The devices that run in a power state.
pub open spec fn spec_device_support(state: SystemStatus) -> DeviceSupport {
    DeviceSupport {
        motor: spec_device_supported(Device::Motor, state),
        battery: spec_device_supported(Device::Battery, state),
        proximity: spec_device_supported(Device::Sensors, state),
        led: spec_device_supported(Device::Led, state),
        thermal: spec_device_supported(Device::Thermal, state),
    }
}

/// What the system controller tells its features about a command.
#[derive(Clone, Copy, PartialEq, Eq, Structural, Debug)]
pub enum FeatureNotice {
    /// An alert fired in the given power state.
    AlertTriggered(SystemStatus),
    /// A gesture was recognised in the given power state.
    Gesture(Gesture, SystemStatus),
    /// A battery action, in the given power state, with the battery status known.
    BatteryAction(BatteryUpdateAction, SystemStatus, Option<BatteryStatus>),
    /// The power state changed.
    StateChanged {
        /// Previous state.
        from: SystemStatus,
        /// New state.
        to: SystemStatus,
        /// Devices that run in the new state.
        support: DeviceSupport,
        /// The battery status known.
        battery_status: Option<BatteryStatus>,
        /// Whether the temperature is critical.
        thermal_critical: bool,
    },
}

/// What the features answered that a command needs: the merged proximity
/// answer (gesture, action) for a proximity update, the merged battery answer
/// for a battery update, and the merged action of a gesture.
#[derive(Clone, Copy, Debug)]
pub struct FeatureAnswers {
    /// The features' answer to a proximity update.
    pub proximity: (Option<Gesture>, ProximityAction),
    /// The features' answer to a battery update: the action to take, if any,
    /// and the new battery status.
    pub battery: Option<(Option<BatteryUpdateAction>, BatteryStatus)>,
    /// The action a gesture maps to.
    pub gesture: GestureAction,
}

/// What handling one command asks for.
pub struct SystemStep {
    /// Power operations, in order.
    pub ops: Vec<PowerOp>,
    /// What the features are told, in order.
    pub notices: Vec<FeatureNotice>,
    /// A command to handle at once, before any other.
    pub follow_up: Option<SystemCommand>,
}

/// The power operations of a command in power state `status`.
pub open spec fn spec_command_ops(
    cmd: SystemCommand,
    status: SystemStatus,
    battery_status: Option<BatteryStatus>,
    thermal_critical: bool,
    answers: FeatureAnswers,
) -> Seq<PowerOp> {
    match cmd {
        SystemCommand::ActivityDetected => spec_plan_activity(
            status,
            spec_battery_critical(battery_status),
            thermal_critical,
        ),
        SystemCommand::AlertTriggered => spec_plan_alert(status),
        SystemCommand::BatteryUpdate { .. } => Seq::empty(),
        SystemCommand::ProximityUpdate { .. } => spec_plan_proximity(
            answers.proximity.1,
            spec_battery_critical(battery_status),
            thermal_critical,
        ),
        SystemCommand::Gesture(g) => spec_plan_gesture(
            answers.gesture,
            g,
            status,
            spec_charger_connected(battery_status),
        ),
        SystemCommand::StateChanged { to, .. } => if to == SystemStatus::Active {
            seq![PowerOp::ResetOnWake]
        } else {
            Seq::empty()
        },
        SystemCommand::BatteryAction(a) => spec_plan_battery_action(a),
    }
}

/// What the features are told about a command.
pub open spec fn spec_command_notices(
    cmd: SystemCommand,
    status: SystemStatus,
    battery_status: Option<BatteryStatus>,
    thermal_critical: bool,
) -> Seq<FeatureNotice> {
    match cmd {
        SystemCommand::AlertTriggered => seq![FeatureNotice::AlertTriggered(status)],
        SystemCommand::Gesture(g) => seq![FeatureNotice::Gesture(g, status)],
        SystemCommand::BatteryAction(BatteryUpdateAction::ReportSoC) => seq![
            FeatureNotice::BatteryAction(BatteryUpdateAction::ReportSoC, status, battery_status),
        ],
        SystemCommand::StateChanged { from, to } => seq![
            FeatureNotice::StateChanged {
                from,
                to,
                support: spec_device_support(to),
                battery_status,
                thermal_critical,
            },
        ],
        _ => Seq::empty(),
    }
}

/// The command to handle right after `cmd`: the gesture a proximity update
/// recognised, or the action a battery update asks for.
pub open spec fn spec_follow_up(cmd: SystemCommand, answers: FeatureAnswers) -> Option<SystemCommand> {
    match cmd {
        SystemCommand::ProximityUpdate { .. } => match answers.proximity.0 {
            Some(g) => Some(SystemCommand::Gesture(g)),
            None => None,
        },
        SystemCommand::BatteryUpdate { .. } => match answers.battery {
            Some((Some(a), _)) => Some(SystemCommand::BatteryAction(a)),
            _ => None,
        },
        _ => None,
    }
}

/// The battery status after a command: a battery update stores the status the
/// features answered; nothing else changes it.
pub open spec fn spec_battery_status_after(
    cmd: SystemCommand,
    battery_status: Option<BatteryStatus>,
    answers: FeatureAnswers,
) -> Option<BatteryStatus> {
    match cmd {
        SystemCommand::BatteryUpdate { .. } => match answers.battery {
            Some((_, st)) => Some(st),
            None => battery_status,
        },
        _ => battery_status,
    }
}

/// The system controller's own state: the battery status last answered.
pub struct SystemDispatcher {
    /// The battery status known.
    pub battery_status: Option<BatteryStatus>,
}

impl SystemDispatcher {
    /// A dispatcher that knows nothing of the battery yet.
    pub fn new() -> (r: Self)
        ensures
            r.battery_status is None,
    {
        SystemDispatcher { battery_status: None }
    }

    /// Handles `cmd` in power state `status`: says which power operations to
    /// run, what to tell the features, and which command to handle next; stores
    /// the battery status a battery update brings. The answers the features gave
    /// for this command are passed in.
    pub fn handle_command(
        &mut self,
        cmd: SystemCommand,
        status: SystemStatus,
        thermal_critical: bool,
        answers: FeatureAnswers,
    ) -> (r: SystemStep)
        ensures
            r.ops@ == spec_command_ops(cmd, status, old(self).battery_status, thermal_critical, answers),
            r.notices@ == spec_command_notices(cmd, status, old(self).battery_status, thermal_critical),
            r.follow_up == spec_follow_up(cmd, answers),
            final(self).battery_status == spec_battery_status_after(cmd, old(self).battery_status, answers),
    {
        let bs = self.battery_status;
        let bc = battery_critical(bs);
        let mut notices: Vec<FeatureNotice> = Vec::new();
        let mut follow_up: Option<SystemCommand> = None;
        let ops = match cmd {
            SystemCommand::ActivityDetected => plan_activity(status, bc, thermal_critical),
            SystemCommand::AlertTriggered => {
                notices.push(FeatureNotice::AlertTriggered(status));
                plan_alert(status)
            },
            SystemCommand::BatteryUpdate { .. } => {
                if let Some((action, st)) = answers.battery {
                    self.battery_status = Some(st);
                    if let Some(a) = action {
                        follow_up = Some(SystemCommand::BatteryAction(a));
                    }
                }
                Vec::new()
            },
            SystemCommand::ProximityUpdate { .. } => {
                if let Some(g) = answers.proximity.0 {
                    follow_up = Some(SystemCommand::Gesture(g));
                }
                plan_proximity(answers.proximity.1, bc, thermal_critical)
            },
            SystemCommand::Gesture(g) => {
                notices.push(FeatureNotice::Gesture(g, status));
                plan_gesture(answers.gesture, g, status, charger_connected(bs))
            },
            SystemCommand::StateChanged { from, to } => {
                notices.push(
                    FeatureNotice::StateChanged {
                        from,
                        to,
                        support: get_device_support(to),
                        battery_status: bs,
                        thermal_critical,
                    },
                );
                match to {
                    SystemStatus::Active => vec![PowerOp::ResetOnWake],
                    _ => Vec::new(),
                }
            },
            SystemCommand::BatteryAction(a) => {
                if let BatteryUpdateAction::ReportSoC = a {
                    notices.push(FeatureNotice::BatteryAction(a, status, bs));
                }
                plan_battery_action(a)
            },
        };
        proof {
            assert(notices@ =~= spec_command_notices(cmd, status, old(self).battery_status, thermal_critical));
            assert(ops@ =~= spec_command_ops(cmd, status, old(self).battery_status, thermal_critical, answers));
        }
        SystemStep { ops, notices, follow_up }
    }
}

/// The battery counts as critical, and the charger as connected, exactly as
/// the stored battery status says (and neither before any status is known).
/// After a battery update that brings a critical status, nothing wakes a
/// sleeping system: activity only restarts the inactivity timer, and a
/// proximity wake asks for nothing. After one that brings a status that is not
/// critical, with the temperature not critical, activity and a proximity wake
/// do wake it.
pub proof fn lemma_battery_status_governs_wake(
    bs: Option<BatteryStatus>,
    soc: u8,
    charger: ChargeState,
    st: BatteryStatus,
    a: Option<BatteryUpdateAction>,
    answers: FeatureAnswers,
    direction: Direction,
    distance_mm: u16,
)
    requires
        answers.battery == Some((a, st)),
    ensures
        spec_battery_critical(None) == false,
        spec_charger_connected(None) == false,
        spec_battery_critical(Some(st)) == st.battery_critical,
        spec_charger_connected(Some(st)) == st.charger_connected,
        ({
            let stored = spec_battery_status_after(
                SystemCommand::BatteryUpdate { state_of_charge: soc, charger_state: charger },
                bs,
                answers,
            );
            let wake = FeatureAnswers {
                proximity: (None, ProximityAction::WakeSystem),
                ..answers
            };
            let activity = spec_command_ops(SystemCommand::ActivityDetected, SystemStatus::Sleep, stored, false, answers);
            let prox = spec_command_ops(
                SystemCommand::ProximityUpdate { direction, distance_mm },
                SystemStatus::Sleep,
                stored,
                false,
                wake,
            );
            &&& st.battery_critical ==> activity == seq![PowerOp::ResetInactivity]
            &&& st.battery_critical ==> prox == Seq::<PowerOp>::empty()
            &&& !st.battery_critical ==> activity == seq![
                PowerOp::ResetInactivity,
                PowerOp::SetStatus(SystemStatus::Active),
            ]
            &&& !st.battery_critical ==> prox == seq![PowerOp::SetStatus(SystemStatus::Active)]
        }),
{
}

/// A proximity update that recognises a gesture is followed at once by that
/// gesture's handling.
pub proof fn lemma_proximity_gesture_follows(
    direction: Direction,
    distance_mm: u16,
    g: Gesture,
    answers: FeatureAnswers,
)
    requires
        answers.proximity.0 == Some(g),
    ensures
        spec_follow_up(SystemCommand::ProximityUpdate { direction, distance_mm }, answers) == Some(
            SystemCommand::Gesture(g),
        ),
{
}

/// Only a battery update changes the battery status known, and it stores what
/// the features answered.
pub proof fn lemma_battery_status_stored(
    cmd: SystemCommand,
    bs: Option<BatteryStatus>,
    answers: FeatureAnswers,
    st: BatteryStatus,
    a: Option<BatteryUpdateAction>,
)
    requires
        answers.battery == Some((a, st)),
    ensures
        cmd is BatteryUpdate ==> spec_battery_status_after(cmd, bs, answers) == Some(st),
        !(cmd is BatteryUpdate) ==> spec_battery_status_after(cmd, bs, answers) == bs,
{
}

/// The power state that a plan of power operations leaves: the last one it
/// sets, or `status` when it sets none.
pub open spec fn status_after(ops: Seq<PowerOp>, status: SystemStatus) -> SystemStatus
    decreases ops.len(),
{
    if ops.len() == 0 {
        status
    } else {
        match ops.last() {
            PowerOp::SetStatus(s) => s,
            _ => status_after(ops.drop_last(), status),
        }
    }
}

/// The power toggle: a powered-down system wakes to active unless the charger
/// is connected; any other state powers down. Without the charger, toggling
/// twice always ends active.
pub proof fn lemma_toggle_outcomes(gesture: Gesture, status: SystemStatus, charger: bool)
    ensures
        status_after(spec_plan_gesture(GestureAction::TogglePower, gesture, status, charger), status)
            == (if status == SystemStatus::PowerDown {
            if charger {
                SystemStatus::PowerDown
            } else {
                SystemStatus::Active
            }
        } else {
            SystemStatus::PowerDown
        }),
        !charger ==> ({
            let once = status_after(spec_plan_gesture(GestureAction::TogglePower, gesture, status, false), status);
            status_after(spec_plan_gesture(GestureAction::TogglePower, gesture, once, false), once)
                == if status == SystemStatus::PowerDown {
                SystemStatus::PowerDown
            } else {
                SystemStatus::Active
            }
        }),
{
    assert forall|st: SystemStatus, ch: bool|
        status_after(#[trigger] spec_plan_gesture(GestureAction::TogglePower, gesture, st, ch), st) == (if st
            == SystemStatus::PowerDown {
            if ch {
                SystemStatus::PowerDown
            } else {
                SystemStatus::Active
            }
        } else {
            SystemStatus::PowerDown
        }) by {
        let ops = spec_plan_gesture(GestureAction::TogglePower, gesture, st, ch);
        if st == SystemStatus::PowerDown && ch {
            assert(ops.drop_last() =~= Seq::<PowerOp>::empty());
            assert(status_after(ops.drop_last(), st) == st);
        }
    }
}

} // verus!
