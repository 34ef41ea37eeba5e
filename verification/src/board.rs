//! Board description: flash layout, the boot cause from the reset register,
//! and the host's stand-in for a GPIO pin.

use crate::model::BootReason;
use vstd::prelude::*;

verus! {

/// Start of the storage area of the flash.
pub const STORAGE_PARTITION_START: u32 = 0x1C_0000;

/// End (exclusive) of the storage area of the flash.
pub const STORAGE_PARTITION_END: u32 = 0x20_0000;

/// Start of the filesystem partition.
pub const FS_PARTITION_START: u32 = 0x1C_0000;

/// End (exclusive) of the filesystem partition.
pub const FS_PARTITION_END: u32 = 0x1D_0000;

/// Start of the telemetry partition.
pub const TELEMETRY_PARTITION_START: u32 = 0x1D_0000;

/// End (exclusive) of the telemetry partition.
pub const TELEMETRY_PARTITION_END: u32 = 0x20_0000;

/// Reset register bit of a power-on reset.
pub const RESET_POWER_ON_BIT: u32 = 8;

/// Reset register bit of a watchdog reset.
pub const RESET_WATCHDOG_BIT: u32 = 20;

/// Reset register bit of a software reset.
pub const RESET_SOFTWARE_BIT: u32 = 16;

/// A range of flash holding a map filesystem.
#[derive(Clone, Copy, PartialEq, Eq, Structural, Debug)]
pub struct MapFilesystem {
    /// First address.
    pub start: u32,
    /// End address (exclusive).
    pub end: u32,
}

/// Where the filesystem lives.
#[derive(Clone, Copy, PartialEq, Eq, Structural, Debug)]
pub struct FilesystemStorageConfig {
    /// The filesystem partition.
    pub partition: MapFilesystem,
}

/// The filesystem lives in its own partition of the flash.
pub fn get_filesystem_config() -> (r: FilesystemStorageConfig)
    ensures
        r.partition == (MapFilesystem { start: FS_PARTITION_START, end: FS_PARTITION_END }),
{
    FilesystemStorageConfig { partition: MapFilesystem { start: FS_PARTITION_START, end: FS_PARTITION_END } }
}

/// The filesystem and telemetry partitions are non-empty, lie within the
/// storage area and do not overlap.
pub proof fn lemma_partitions_disjoint()
    ensures
        STORAGE_PARTITION_START <= FS_PARTITION_START < FS_PARTITION_END <= STORAGE_PARTITION_END,
        STORAGE_PARTITION_START <= TELEMETRY_PARTITION_START < TELEMETRY_PARTITION_END
            <= STORAGE_PARTITION_END,
        FS_PARTITION_END <= TELEMETRY_PARTITION_START || TELEMETRY_PARTITION_END <= FS_PARTITION_START,
{
}

/// Whether bit `b` of `reg` is set.
pub open spec fn bit_set(reg: u32, b: u32) -> bool {
    reg & (1u32 << b) != 0
}

/// The boot cause named by the chip's reset register: power-on first, then
/// watchdog, then software reset.
pub open spec fn spec_boot_reason(reg: u32) -> BootReason {
    if bit_set(reg, RESET_POWER_ON_BIT) {
        BootReason::PowerOn
    } else if bit_set(reg, RESET_WATCHDOG_BIT) {
        BootReason::Watchdog
    } else if bit_set(reg, RESET_SOFTWARE_BIT) {
        BootReason::SoftwareReset
    } else {
        BootReason::Unknown
    }
}

/// The reset register's bits decide the boot cause: bit 8 (mask `0x100`) means
/// power-on whatever else is set; otherwise bit 20 (`0x10_0000`) means the
/// watchdog; otherwise bit 16 (`0x1_0000`) a software reset; with none of the
/// three the cause is unknown.
pub proof fn lemma_boot_reason_bits(reg: u32)
    ensures
        (spec_boot_reason(reg) == BootReason::PowerOn) <==> reg & 0x100u32 != 0,
        (spec_boot_reason(reg) == BootReason::Watchdog) <==> (reg & 0x100u32 == 0 && reg & 0x10_0000u32 != 0),
        (spec_boot_reason(reg) == BootReason::SoftwareReset) <==> (reg & 0x100u32 == 0 && reg & 0x10_0000u32
            == 0 && reg & 0x1_0000u32 != 0),
        (spec_boot_reason(reg) == BootReason::Unknown) <==> (reg & 0x100u32 == 0 && reg & 0x10_0000u32 == 0
            && reg & 0x1_0000u32 == 0),
{
    assert(1u32 << 8u32 == 0x100u32) by (bit_vector);
    assert(1u32 << 20u32 == 0x10_0000u32) by (bit_vector);
    assert(1u32 << 16u32 == 0x1_0000u32) by (bit_vector);
}

/// The boot cause named by the chip's reset register.
pub fn boot_reason_from_reset_register(reg: u32) -> (r: BootReason)
    ensures
        r == spec_boot_reason(reg),
{
    if reg & (1u32 << RESET_POWER_ON_BIT) != 0 {
        BootReason::PowerOn
    } else if reg & (1u32 << RESET_WATCHDOG_BIT) != 0 {
        BootReason::Watchdog
    } else if reg & (1u32 << RESET_SOFTWARE_BIT) != 0 {
        BootReason::SoftwareReset
    } else {
        BootReason::Unknown
    }
}

/// The host's stand-in for a GPIO pin: it remembers its level.
#[derive(Clone, Copy, PartialEq, Eq, Structural, Debug)]
pub struct MockFlex {
    /// Whether the pin is high.
    pub value: bool,
}

impl MockFlex {
    /// A low pin.
    pub fn new() -> (r: Self)
        ensures
            !r.value,
    {
        MockFlex { value: false }
    }

    /// Drives the pin high.
    pub fn set_high(&mut self)
        ensures
            final(self).value,
    {
        self.value = true;
    }

    /// Drives the pin low.
    pub fn set_low(&mut self)
        ensures
            !final(self).value,
    {
        self.value = false;
    }

    /// Whether the pin is high.
    pub fn is_high(&self) -> (r: bool)
        ensures
            r == self.value,
    {
        self.value
    }
}

/// The pins used to free a stuck I2C bus.
#[derive(Clone, Copy, PartialEq, Eq, Structural, Debug)]
pub struct Rp2040I2cRecovery {
    /// GPIO number of SDA.
    pub sda_pin: u8,
    /// GPIO number of SCL.
    pub scl_pin: u8,
}

} // verus!
