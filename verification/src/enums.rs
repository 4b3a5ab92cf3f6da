//! Wrapped enums for the management interface.
//!
//! Each enum that crosses the wire travels as a fixed-width integer.
//! The wire encoding of every variant is listed next to the enum as a
//! named constant; conversions out of the wire form are partial (only
//! the documented raw values are accepted), conversions into the wire
//! form are total.

use vstd::prelude::*;
use crate::structs::SingleDeviceId;

verus! {

/// Wire encoding of [`UnitType::NPU`].
pub const RAW_UNIT_NPU: u32 = 0;

/// Wire encoding of [`UnitType::MCU`].
pub const RAW_UNIT_MCU: u32 = 1;

/// Wire encoding of [`UnitType::CPU`].
pub const RAW_UNIT_CPU: u32 = 2;

/// Wire encoding of [`UnitType::Invalid`].
pub const RAW_UNIT_INVALID: u32 = 3;

/// Compute unit type
#[derive(Debug, PartialEq, Eq, Clone, Copy, Structural)]
pub enum UnitType {
    /// NPU
    NPU,
    /// MCU
    MCU,
    /// CPU
    CPU,
    /// Invalid type
    Invalid,
}

/// Holds exactly on the unit-type raw values the interface manual documents.
pub open spec fn unit_type_documented(raw: u32) -> bool {
    raw == RAW_UNIT_NPU || raw == RAW_UNIT_MCU || raw == RAW_UNIT_CPU || raw == RAW_UNIT_INVALID
}

/// The unit type a documented raw value stands for.
pub open spec fn unit_type_of_raw(raw: u32) -> UnitType {
    if raw == RAW_UNIT_NPU {
        UnitType::NPU
    } else if raw == RAW_UNIT_MCU {
        UnitType::MCU
    } else if raw == RAW_UNIT_CPU {
        UnitType::CPU
    } else {
        UnitType::Invalid
    }
}

/// The wire encoding of a unit type.
pub open spec fn raw_of_unit_type(unit: UnitType) -> u32 {
    match unit {
        UnitType::NPU => RAW_UNIT_NPU,
        UnitType::MCU => RAW_UNIT_MCU,
        UnitType::CPU => RAW_UNIT_CPU,
        UnitType::Invalid => RAW_UNIT_INVALID,
    }
}

impl UnitType {
    /// Decode a unit type from its wire value; only documented values are
    /// admitted.
    pub fn from_raw_value(raw: u32) -> (r: UnitType)
        requires
            unit_type_documented(raw),
        ensures
            r == unit_type_of_raw(raw),
    {
        if raw == RAW_UNIT_NPU {
            UnitType::NPU
        } else if raw == RAW_UNIT_MCU {
            UnitType::MCU
        } else if raw == RAW_UNIT_CPU {
            UnitType::CPU
        } else {
            UnitType::Invalid
        }
    }

    /// Convert the enum to the u32 used on the wire.
    pub fn to_raw_value(&self) -> (r: u32)
        ensures
            r == raw_of_unit_type(*self),
            unit_type_documented(r),
            unit_type_of_raw(r) == *self,
    {
        match self {
            UnitType::NPU => RAW_UNIT_NPU,
            UnitType::MCU => RAW_UNIT_MCU,
            UnitType::CPU => RAW_UNIT_CPU,
            UnitType::Invalid => RAW_UNIT_INVALID,
        }
    }
}

/// Wire encoding of [`DieType::NDie`].
pub const RAW_DIE_NDIE: u32 = 0;

/// Wire encoding of [`DieType::VDie`].
pub const RAW_DIE_VDIE: u32 = 1;

/// Die type
#[derive(Debug, PartialEq, Eq, Clone, Copy, Structural)]
pub enum DieType {
    /// NDie
    NDie,
    /// VDie
    VDie,
}

/// Holds exactly on the die-type raw values the interface manual documents.
pub open spec fn die_type_documented(raw: u32) -> bool {
    raw == RAW_DIE_NDIE || raw == RAW_DIE_VDIE
}

/// The die type a documented raw value stands for.
pub open spec fn die_type_of_raw(raw: u32) -> DieType {
    if raw == RAW_DIE_NDIE {
        DieType::NDie
    } else {
        DieType::VDie
    }
}

/// The wire encoding of a die type.
pub open spec fn raw_of_die_type(die: DieType) -> u32 {
    match die {
        DieType::NDie => RAW_DIE_NDIE,
        DieType::VDie => RAW_DIE_VDIE,
    }
}

impl DieType {
    /// Decode a die type from its wire value; only documented values are
    /// admitted.
    pub fn from_raw_value(raw: u32) -> (r: DieType)
        requires
            die_type_documented(raw),
        ensures
            r == die_type_of_raw(raw),
    {
        if raw == RAW_DIE_NDIE {
            DieType::NDie
        } else {
            DieType::VDie
        }
    }

    /// Convert the enum to the u32 used on the wire.
    pub fn to_raw_value(&self) -> (r: u32)
        ensures
            r == raw_of_die_type(*self),
            die_type_documented(r),
            die_type_of_raw(r) == *self,
    {
        match self {
            DieType::NDie => RAW_DIE_NDIE,
            DieType::VDie => RAW_DIE_VDIE,
        }
    }
}

/// Wire encoding of [`DeviceType::DDR`].
pub const RAW_DEVICE_DDR: u32 = 0;

/// Wire encoding of [`DeviceType::SRAM`].
pub const RAW_DEVICE_SRAM: u32 = 1;

/// Wire encoding of [`DeviceType::HBM`].
pub const RAW_DEVICE_HBM: u32 = 2;

/// Wire encoding of [`DeviceType::NPU`].
pub const RAW_DEVICE_NPU: u32 = 3;

/// Wire encoding of [`DeviceType::HBMRecordedSingleAddr`].
pub const RAW_DEVICE_HBM_RECORDED_SINGLE_ADDR: u32 = 4;

/// Wire encoding of [`DeviceType::HBMRecordedMultiAddr`].
pub const RAW_DEVICE_HBM_RECORDED_MULTI_ADDR: u32 = 5;

/// Wire encoding of [`DeviceType::NoDevice`].
pub const RAW_DEVICE_NONE: u32 = 6;

/// Device type
#[derive(Debug, PartialEq, Eq, Clone, Copy, Structural)]
pub enum DeviceType {
    /// DDR
    DDR,
    /// SRAM
    SRAM,
    /// HBM
    HBM,
    /// NPU
    NPU,
    /// HBM recorded single address
    HBMRecordedSingleAddr,
    /// HBM recorded multi address
    HBMRecordedMultiAddr,
    /// None
    NoDevice,
}

/// Holds exactly on the device-type raw values the interface manual documents.
pub open spec fn device_type_documented(raw: u32) -> bool {
    raw == RAW_DEVICE_DDR || raw == RAW_DEVICE_SRAM || raw == RAW_DEVICE_HBM
        || raw == RAW_DEVICE_NPU || raw == RAW_DEVICE_HBM_RECORDED_SINGLE_ADDR
        || raw == RAW_DEVICE_HBM_RECORDED_MULTI_ADDR || raw == RAW_DEVICE_NONE
}

/// The device type a documented raw value stands for.
pub open spec fn device_type_of_raw(raw: u32) -> DeviceType {
    if raw == RAW_DEVICE_DDR {
        DeviceType::DDR
    } else if raw == RAW_DEVICE_SRAM {
        DeviceType::SRAM
    } else if raw == RAW_DEVICE_HBM {
        DeviceType::HBM
    } else if raw == RAW_DEVICE_NPU {
        DeviceType::NPU
    } else if raw == RAW_DEVICE_HBM_RECORDED_SINGLE_ADDR {
        DeviceType::HBMRecordedSingleAddr
    } else if raw == RAW_DEVICE_HBM_RECORDED_MULTI_ADDR {
        DeviceType::HBMRecordedMultiAddr
    } else {
        DeviceType::NoDevice
    }
}

/// The wire encoding of a device type.
pub open spec fn raw_of_device_type(device: DeviceType) -> u32 {
    match device {
        DeviceType::DDR => RAW_DEVICE_DDR,
        DeviceType::SRAM => RAW_DEVICE_SRAM,
        DeviceType::HBM => RAW_DEVICE_HBM,
        DeviceType::NPU => RAW_DEVICE_NPU,
        DeviceType::HBMRecordedSingleAddr => RAW_DEVICE_HBM_RECORDED_SINGLE_ADDR,
        DeviceType::HBMRecordedMultiAddr => RAW_DEVICE_HBM_RECORDED_MULTI_ADDR,
        DeviceType::NoDevice => RAW_DEVICE_NONE,
    }
}

impl DeviceType {
    /// Decode a device type from its wire value; only documented values are
    /// admitted.
    pub fn from_raw_value(raw: u32) -> (r: DeviceType)
        requires
            device_type_documented(raw),
        ensures
            r == device_type_of_raw(raw),
    {
        if raw == RAW_DEVICE_DDR {
            DeviceType::DDR
        } else if raw == RAW_DEVICE_SRAM {
            DeviceType::SRAM
        } else if raw == RAW_DEVICE_HBM {
            DeviceType::HBM
        } else if raw == RAW_DEVICE_NPU {
            DeviceType::NPU
        } else if raw == RAW_DEVICE_HBM_RECORDED_SINGLE_ADDR {
            DeviceType::HBMRecordedSingleAddr
        } else if raw == RAW_DEVICE_HBM_RECORDED_MULTI_ADDR {
            DeviceType::HBMRecordedMultiAddr
        } else {
            DeviceType::NoDevice
        }
    }

    /// Convert the enum to the u32 used on the wire.
    pub fn to_raw_value(&self) -> (r: u32)
        ensures
            r == raw_of_device_type(*self),
            device_type_documented(r),
            device_type_of_raw(r) == *self,
    {
        match self {
            DeviceType::DDR => RAW_DEVICE_DDR,
            DeviceType::SRAM => RAW_DEVICE_SRAM,
            DeviceType::HBM => RAW_DEVICE_HBM,
            DeviceType::NPU => RAW_DEVICE_NPU,
            DeviceType::HBMRecordedSingleAddr => RAW_DEVICE_HBM_RECORDED_SINGLE_ADDR,
            DeviceType::HBMRecordedMultiAddr => RAW_DEVICE_HBM_RECORDED_MULTI_ADDR,
            DeviceType::NoDevice => RAW_DEVICE_NONE,
        }
    }
}

/// Wire encoding of [`HealthState::Normal`].
pub const RAW_HEALTH_NORMAL: u32 = 0;

/// Wire encoding of [`HealthState::GeneralAlarm`].
pub const RAW_HEALTH_GENERAL_ALARM: u32 = 1;

/// Wire encoding of [`HealthState::ImportantAlarm`].
pub const RAW_HEALTH_IMPORTANT_ALARM: u32 = 2;

/// Wire encoding of [`HealthState::EmergencyAlarm`].
pub const RAW_HEALTH_EMERGENCY_ALARM: u32 = 3;

/// Wire encoding of [`HealthState::DeviceNotFoundOrNotStarted`].
pub const RAW_HEALTH_DEVICE_NOT_FOUND: u32 = 0xffff_ffff;

/// Health state
#[derive(Debug, PartialEq, Eq, Clone, Copy, Structural)]
pub enum HealthState {
    /// Normal
    Normal,
    /// General alarm
    GeneralAlarm,
    /// Important alarm
    ImportantAlarm,
    /// Emergency alarm
    EmergencyAlarm,
    /// Device not found or not started
    DeviceNotFoundOrNotStarted,
}

/// Holds exactly on the health raw values the interface manual documents.
pub open spec fn health_state_documented(raw: u32) -> bool {
    raw == RAW_HEALTH_NORMAL || raw == RAW_HEALTH_GENERAL_ALARM
        || raw == RAW_HEALTH_IMPORTANT_ALARM || raw == RAW_HEALTH_EMERGENCY_ALARM
        || raw == RAW_HEALTH_DEVICE_NOT_FOUND
}

/// The health state a documented raw value stands for.
pub open spec fn health_state_of_raw(raw: u32) -> HealthState {
    if raw == RAW_HEALTH_NORMAL {
        HealthState::Normal
    } else if raw == RAW_HEALTH_GENERAL_ALARM {
        HealthState::GeneralAlarm
    } else if raw == RAW_HEALTH_IMPORTANT_ALARM {
        HealthState::ImportantAlarm
    } else if raw == RAW_HEALTH_EMERGENCY_ALARM {
        HealthState::EmergencyAlarm
    } else {
        HealthState::DeviceNotFoundOrNotStarted
    }
}

/// The wire encoding of a health state.
pub open spec fn raw_of_health_state(state: HealthState) -> u32 {
    match state {
        HealthState::Normal => RAW_HEALTH_NORMAL,
        HealthState::GeneralAlarm => RAW_HEALTH_GENERAL_ALARM,
        HealthState::ImportantAlarm => RAW_HEALTH_IMPORTANT_ALARM,
        HealthState::EmergencyAlarm => RAW_HEALTH_EMERGENCY_ALARM,
        HealthState::DeviceNotFoundOrNotStarted => RAW_HEALTH_DEVICE_NOT_FOUND,
    }
}

impl HealthState {
    /// Decode a health state from its wire value; only documented values are
    /// admitted.
    pub fn from_raw_value(raw: u32) -> (r: HealthState)
        requires
            health_state_documented(raw),
        ensures
            r == health_state_of_raw(raw),
    {
        if raw == RAW_HEALTH_NORMAL {
            HealthState::Normal
        } else if raw == RAW_HEALTH_GENERAL_ALARM {
            HealthState::GeneralAlarm
        } else if raw == RAW_HEALTH_IMPORTANT_ALARM {
            HealthState::ImportantAlarm
        } else if raw == RAW_HEALTH_EMERGENCY_ALARM {
            HealthState::EmergencyAlarm
        } else {
            HealthState::DeviceNotFoundOrNotStarted
        }
    }

    /// Convert the enum to the u32 used on the wire.
    pub fn to_raw_value(&self) -> (r: u32)
        ensures
            r == raw_of_health_state(*self),
            health_state_documented(r),
            health_state_of_raw(r) == *self,
    {
        match self {
            HealthState::Normal => RAW_HEALTH_NORMAL,
            HealthState::GeneralAlarm => RAW_HEALTH_GENERAL_ALARM,
            HealthState::ImportantAlarm => RAW_HEALTH_IMPORTANT_ALARM,
            HealthState::EmergencyAlarm => RAW_HEALTH_EMERGENCY_ALARM,
            HealthState::DeviceNotFoundOrNotStarted => RAW_HEALTH_DEVICE_NOT_FOUND,
        }
    }
}

/// Wire encoding of [`FrequencyType::DDR`].
pub const RAW_FREQ_DDR: u32 = 1;

/// Wire encoding of [`FrequencyType::CtrlCpu`].
pub const RAW_FREQ_CTRLCPU: u32 = 2;

/// Wire encoding of [`FrequencyType::HBM`].
pub const RAW_FREQ_HBM: u32 = 3;

/// Wire encoding of [`FrequencyType::AICoreCurrent`].
pub const RAW_FREQ_AICORE_CURRENT: u32 = 4;

/// Wire encoding of [`FrequencyType::AICoreMax`].
pub const RAW_FREQ_AICORE_MAX: u32 = 5;

/// Wire encoding of [`FrequencyType::VectorCoreCurrent`].
pub const RAW_FREQ_VECTORCORE_CURRENT: u32 = 6;

/// Frequency type
#[derive(Debug, PartialEq, Eq, Clone, Copy, Structural)]
pub enum FrequencyType {
    /// DDR
    DDR,
    /// CtrlCpu
    CtrlCpu,
    /// HBM
    HBM,
    /// AICoreCurrent
    AICoreCurrent,
    /// AICoreMax, refers to the frequency at which it can operate continuously
    /// under TDP power consumption and scenarios
    AICoreMax,
    /// VectorCoreCurrent
    VectorCoreCurrent,
}

/// Holds exactly on the frequency raw values the interface manual documents.
pub open spec fn frequency_type_documented(raw: u32) -> bool {
    raw == RAW_FREQ_DDR || raw == RAW_FREQ_CTRLCPU || raw == RAW_FREQ_HBM
        || raw == RAW_FREQ_AICORE_CURRENT || raw == RAW_FREQ_AICORE_MAX
        || raw == RAW_FREQ_VECTORCORE_CURRENT
}

/// The frequency type a documented raw value stands for.
pub open spec fn frequency_type_of_raw(raw: u32) -> FrequencyType {
    if raw == RAW_FREQ_DDR {
        FrequencyType::DDR
    } else if raw == RAW_FREQ_CTRLCPU {
        FrequencyType::CtrlCpu
    } else if raw == RAW_FREQ_HBM {
        FrequencyType::HBM
    } else if raw == RAW_FREQ_AICORE_CURRENT {
        FrequencyType::AICoreCurrent
    } else if raw == RAW_FREQ_AICORE_MAX {
        FrequencyType::AICoreMax
    } else {
        FrequencyType::VectorCoreCurrent
    }
}

/// The wire encoding of a frequency type.
pub open spec fn raw_of_frequency_type(freq: FrequencyType) -> u32 {
    match freq {
        FrequencyType::DDR => RAW_FREQ_DDR,
        FrequencyType::CtrlCpu => RAW_FREQ_CTRLCPU,
        FrequencyType::HBM => RAW_FREQ_HBM,
        FrequencyType::AICoreCurrent => RAW_FREQ_AICORE_CURRENT,
        FrequencyType::AICoreMax => RAW_FREQ_AICORE_MAX,
        FrequencyType::VectorCoreCurrent => RAW_FREQ_VECTORCORE_CURRENT,
    }
}

impl FrequencyType {
    /// Decode a frequency type from its wire value; only documented values
    /// are admitted.
    pub fn from_raw_value(raw: u32) -> (r: FrequencyType)
        requires
            frequency_type_documented(raw),
        ensures
            r == frequency_type_of_raw(raw),
    {
        if raw == RAW_FREQ_DDR {
            FrequencyType::DDR
        } else if raw == RAW_FREQ_CTRLCPU {
            FrequencyType::CtrlCpu
        } else if raw == RAW_FREQ_HBM {
            FrequencyType::HBM
        } else if raw == RAW_FREQ_AICORE_CURRENT {
            FrequencyType::AICoreCurrent
        } else if raw == RAW_FREQ_AICORE_MAX {
            FrequencyType::AICoreMax
        } else {
            FrequencyType::VectorCoreCurrent
        }
    }

    /// Convert the enum to the u32 used on the wire.
    pub fn to_raw_value(&self) -> (r: u32)
        ensures
            r == raw_of_frequency_type(*self),
            frequency_type_documented(r),
            frequency_type_of_raw(r) == *self,
    {
        match self {
            FrequencyType::DDR => RAW_FREQ_DDR,
            FrequencyType::CtrlCpu => RAW_FREQ_CTRLCPU,
            FrequencyType::HBM => RAW_FREQ_HBM,
            FrequencyType::AICoreCurrent => RAW_FREQ_AICORE_CURRENT,
            FrequencyType::AICoreMax => RAW_FREQ_AICORE_MAX,
            FrequencyType::VectorCoreCurrent => RAW_FREQ_VECTORCORE_CURRENT,
        }
    }
}

/// Wire encoding of [`UtilizationType::Memory`].
pub const RAW_UTIL_MEMORY: i32 = 1;

/// Wire encoding of [`UtilizationType::AICore`].
pub const RAW_UTIL_AI_CORE: i32 = 2;

/// Wire encoding of [`UtilizationType::AICpu`].
pub const RAW_UTIL_AI_CPU: i32 = 3;

/// Wire encoding of [`UtilizationType::CtrlCpu`].
pub const RAW_UTIL_CTRL_CPU: i32 = 4;

/// Wire encoding of [`UtilizationType::MemoryBandwidth`].
pub const RAW_UTIL_MEMORY_BANDWIDTH: i32 = 5;

/// Wire encoding of [`UtilizationType::HBM`].
pub const RAW_UTIL_HBM: i32 = 6;

/// Wire encoding of [`UtilizationType::DDR`].
pub const RAW_UTIL_DDR: i32 = 8;

/// Wire encoding of [`UtilizationType::HbmBandwidth`].
pub const RAW_UTIL_HBM_BANDWIDTH: i32 = 10;

/// Wire encoding of [`UtilizationType::VectorCore`].
pub const RAW_UTIL_VECTOR_CORE: i32 = 12;

/// Utilization type
#[derive(Debug, PartialEq, Eq, Clone, Copy, Structural)]
pub enum UtilizationType {
    /// Memory
    Memory,
    /// AI Core
    AICore,
    /// AI CPU
    AICpu,
    /// Control CPU
    CtrlCpu,
    /// Memory Bandwidth
    MemoryBandwidth,
    /// HBM
    HBM,
    /// DDR
    DDR,
    /// HBM Bandwidth
    HbmBandwidth,
    /// Vector Core
    VectorCore,
}

/// Holds exactly on the utilization raw values the interface manual documents.
pub open spec fn utilization_type_documented(raw: i32) -> bool {
    raw == RAW_UTIL_MEMORY || raw == RAW_UTIL_AI_CORE || raw == RAW_UTIL_AI_CPU
        || raw == RAW_UTIL_CTRL_CPU || raw == RAW_UTIL_MEMORY_BANDWIDTH || raw == RAW_UTIL_HBM
        || raw == RAW_UTIL_DDR || raw == RAW_UTIL_HBM_BANDWIDTH || raw == RAW_UTIL_VECTOR_CORE
}

/// The utilization type a documented raw value stands for.
pub open spec fn utilization_type_of_raw(raw: i32) -> UtilizationType {
    if raw == RAW_UTIL_MEMORY {
        UtilizationType::Memory
    } else if raw == RAW_UTIL_AI_CORE {
        UtilizationType::AICore
    } else if raw == RAW_UTIL_AI_CPU {
        UtilizationType::AICpu
    } else if raw == RAW_UTIL_CTRL_CPU {
        UtilizationType::CtrlCpu
    } else if raw == RAW_UTIL_MEMORY_BANDWIDTH {
        UtilizationType::MemoryBandwidth
    } else if raw == RAW_UTIL_HBM {
        UtilizationType::HBM
    } else if raw == RAW_UTIL_DDR {
        UtilizationType::DDR
    } else if raw == RAW_UTIL_HBM_BANDWIDTH {
        UtilizationType::HbmBandwidth
    } else {
        UtilizationType::VectorCore
    }
}

/// The wire encoding of a utilization type.
pub open spec fn raw_of_utilization_type(util: UtilizationType) -> i32 {
    match util {
        UtilizationType::Memory => RAW_UTIL_MEMORY,
        UtilizationType::AICore => RAW_UTIL_AI_CORE,
        UtilizationType::AICpu => RAW_UTIL_AI_CPU,
        UtilizationType::CtrlCpu => RAW_UTIL_CTRL_CPU,
        UtilizationType::MemoryBandwidth => RAW_UTIL_MEMORY_BANDWIDTH,
        UtilizationType::HBM => RAW_UTIL_HBM,
        UtilizationType::DDR => RAW_UTIL_DDR,
        UtilizationType::HbmBandwidth => RAW_UTIL_HBM_BANDWIDTH,
        UtilizationType::VectorCore => RAW_UTIL_VECTOR_CORE,
    }
}

impl UtilizationType {
    /// Decode a utilization type from its wire value; only documented values
    /// are admitted.
    pub fn from_raw_value(raw: i32) -> (r: UtilizationType)
        requires
            utilization_type_documented(raw),
        ensures
            r == utilization_type_of_raw(raw),
    {
        if raw == RAW_UTIL_MEMORY {
            UtilizationType::Memory
        } else if raw == RAW_UTIL_AI_CORE {
            UtilizationType::AICore
        } else if raw == RAW_UTIL_AI_CPU {
            UtilizationType::AICpu
        } else if raw == RAW_UTIL_CTRL_CPU {
            UtilizationType::CtrlCpu
        } else if raw == RAW_UTIL_MEMORY_BANDWIDTH {
            UtilizationType::MemoryBandwidth
        } else if raw == RAW_UTIL_HBM {
            UtilizationType::HBM
        } else if raw == RAW_UTIL_DDR {
            UtilizationType::DDR
        } else if raw == RAW_UTIL_HBM_BANDWIDTH {
            UtilizationType::HbmBandwidth
        } else {
            UtilizationType::VectorCore
        }
    }

    /// Convert the enum to the i32 which used by the management C library.
    pub fn to_raw_value(&self) -> (r: i32)
        ensures
            r == raw_of_utilization_type(*self),
            utilization_type_documented(r),
            utilization_type_of_raw(r) == *self,
    {
        match self {
            UtilizationType::Memory => RAW_UTIL_MEMORY,
            UtilizationType::AICore => RAW_UTIL_AI_CORE,
            UtilizationType::AICpu => RAW_UTIL_AI_CPU,
            UtilizationType::CtrlCpu => RAW_UTIL_CTRL_CPU,
            UtilizationType::MemoryBandwidth => RAW_UTIL_MEMORY_BANDWIDTH,
            UtilizationType::HBM => RAW_UTIL_HBM,
            UtilizationType::DDR => RAW_UTIL_DDR,
            UtilizationType::HbmBandwidth => RAW_UTIL_HBM_BANDWIDTH,
            UtilizationType::VectorCore => RAW_UTIL_VECTOR_CORE,
        }
    }
}

/// VChip power splitting mode
#[derive(Debug, PartialEq, Eq, Clone, Copy, Structural)]
pub enum VChipPowerSplittingMode {
    /// Container
    Container,
    /// VirtualMachine
    VM,
}

/// Destroy mode for virtual chips: destroying everything on a chip is
/// an explicit variant, distinguishable from destroying one id (which
/// fails with not-found when the id does not exist).
#[derive(Debug, PartialEq, Eq, Clone, Copy, Structural)]
pub enum DestroyVChipMode {
    /// Destroy the single virtual chip with the given id
    SingleDevice(SingleDeviceId),
    /// Destroy every virtual chip of the chip
    AllDevices,
}

/// VChip create parameter
pub enum VChipCreateParam {
    /// Create a VChip with a specific template name, vchip id and group id
    /// will automatically assigned
    TemplateName(String),
    /// Create a VChip with a specific template name, vchip id and group id
    SpecificId {
        /// Template name
        template_name: String,
        /// VChip id
        id: u32,
        /// Group id
        group_id: u32,
    },
}

} // verus!
