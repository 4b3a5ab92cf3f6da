//! Wrapped value types for the management interface.
//!
//! Every type here is a plain value: handles carry only identifiers and
//! parent linkage, telemetry types are immutable snapshots of the moment
//! they were read.

use vstd::prelude::*;
use crate::enums::VChipCreateParam;

verus! {

/// Id of one virtual chip, used to address a single destroy.
#[derive(Debug, PartialEq, Eq, Clone, Copy, Structural)]
pub struct SingleDeviceId {
    /// The virtual chip id
    pub id: u32,
}

impl SingleDeviceId {
    /// Wrap a virtual chip id.
    pub fn new(id: u32) -> (r: SingleDeviceId)
        ensures
            r.id == id,
    {
        SingleDeviceId { id }
    }
}

/// A virtual chip creation request.
pub struct VChipRes {
    /// Which virtual chip to instantiate
    pub param: VChipCreateParam,
}

impl VChipRes {
    /// Request a virtual chip from a template, with id and group assigned
    /// automatically.
    pub fn new(template_name: String) -> (r: VChipRes)
        ensures
            r.param == VChipCreateParam::TemplateName(template_name),
    {
        VChipRes { param: VChipCreateParam::TemplateName(template_name) }
    }

    /// Request a virtual chip from a template with an explicit id and group.
    pub fn with_ids(template_name: String, id: u32, group_id: u32) -> (r: VChipRes)
        ensures
            r.param == (VChipCreateParam::SpecificId { template_name, id, group_id }),
    {
        VChipRes { param: VChipCreateParam::SpecificId { template_name, id, group_id } }
    }
}

/// The result of a successful virtual chip creation: the actually
/// assigned ids, which may differ from the requested ones.
#[derive(Debug, PartialEq, Eq, Clone, Copy, Structural)]
pub struct VChipOut {
    /// The assigned virtual chip id
    pub vchip_id: u32,
    /// The assigned group id
    pub vfg_id: u32,
}

/// Memory telemetry of one chip.
#[derive(Debug, PartialEq, Eq, Clone, Copy, Structural)]
pub struct MemoryInfo {
    /// Total memory size, in MB
    pub memory_size: u64,
    /// Available memory size, in MB
    pub memory_available: u64,
    /// Memory frequency, in MHz
    pub frequency: u32,
    /// Memory utilization rate, in percent
    pub utilization_rate: u32,
}

/// Frequency telemetry of one chip: one reading per frequency type, in
/// MHz.
#[derive(Debug, PartialEq, Eq, Clone, Copy, Structural)]
pub struct FrequencyTable {
    /// DDR frequency
    pub ddr: u32,
    /// Control CPU frequency
    pub ctrl_cpu: u32,
    /// HBM frequency
    pub hbm: u32,
    /// Current AI core frequency
    pub aicore_current: u32,
    /// Sustainable AI core frequency under TDP
    pub aicore_max: u32,
    /// Current vector core frequency
    pub vector_core_current: u32,
}

/// Utilization telemetry of one chip: one reading per utilization type,
/// in percent.
#[derive(Debug, PartialEq, Eq, Clone, Copy, Structural)]
pub struct UtilizationTable {
    /// Memory utilization
    pub memory: u32,
    /// AI core utilization
    pub ai_core: u32,
    /// AI CPU utilization
    pub ai_cpu: u32,
    /// Control CPU utilization
    pub ctrl_cpu: u32,
    /// Memory bandwidth utilization
    pub memory_bandwidth: u32,
    /// HBM utilization
    pub hbm: u32,
    /// DDR utilization
    pub ddr: u32,
    /// HBM bandwidth utilization
    pub hbm_bandwidth: u32,
    /// Vector core utilization
    pub vector_core: u32,
}

/// HBM telemetry of one chip.
#[derive(Debug, PartialEq, Eq, Clone, Copy, Structural)]
pub struct HbmInfo {
    /// Total HBM size, in MB
    pub memory_size: u64,
    /// HBM frequency, in MHz
    pub frequency: u32,
    /// Used HBM, in MB
    pub memory_usage: u64,
    /// HBM temperature, in degrees Celsius
    pub temperature: i32,
    /// HBM bandwidth utilization rate, in percent
    pub bandwidth_util_rate: u32,
}

} // verus!
