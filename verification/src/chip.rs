//! Chips: telemetry queries and the virtual-chip lifecycle.
//!
//! A chip handle is a plain value (card id, chip index, unit type).
//! Every operation builds its wire request through the marshalling
//! layer, invokes the wire level, maps the status code and, on success,
//! marshals the output back into a domain value.  Outputs of failing
//! calls are discarded, never exposed.

use vstd::prelude::*;
use crate::DCMI;
use crate::enums::{
    DestroyVChipMode, FrequencyType, HealthState, UnitType, UtilizationType, health_state_of_raw,
    raw_of_frequency_type, raw_of_utilization_type,
};
use crate::error::{
    DcmiError, Operation, error_of_status, map_status, STATUS_OK, STATUS_INVALID_PARAMETER,
};
use crate::native::{
    VChipSlot, assigned_group_id, assigned_vchip_id, card_chips, chip_query_status, create_status,
    destroy_status, frequency_of, hbm_query_status, utilization_of, without_chip, without_id,
};
use crate::structs::{HbmInfo, MemoryInfo, VChipOut, VChipRes};
use crate::wire::{AUTO_SENTINEL, CreateVChipRequest, wire_group_of, wire_id_of};

verus! {

/// The wire-level target of a destroy: the explicit id for a single
/// destroy, the sentinel for destroy-all.
pub open spec fn destroy_target(mode: DestroyVChipMode) -> u32 {
    match mode {
        DestroyVChipMode::SingleDevice(single) => single.id,
        DestroyVChipMode::AllDevices => AUTO_SENTINEL,
    }
}

/// The outcome a destroy request gets.  A single destroy naming the
/// sentinel is refused before it reaches the wire: the sentinel is not
/// a valid virtual chip id, and passing it through would silently turn
/// the call into a destroy-all.
pub open spec fn destroy_outcome(
    inv: crate::native::Inventory,
    card_id: u32,
    chip_idx: u32,
    mode: DestroyVChipMode,
) -> i32 {
    if mode matches DestroyVChipMode::SingleDevice(s) && s.id == AUTO_SENTINEL {
        STATUS_INVALID_PARAMETER
    } else {
        destroy_status(inv, card_id, chip_idx, destroy_target(mode))
    }
}

/// A chip of a card: the logical handle (card id, chip index, unit
/// type).  Handles are plain values; the wire level re-validates them
/// on every call.
#[derive(Debug, PartialEq, Eq, Clone, Copy, Structural)]
pub struct Chip {
    /// Id of the card the chip sits on
    pub card_id: u32,
    /// Index of the chip under its card
    pub idx: u32,
    /// Unit type the chip was classified as
    pub unit_type: UnitType,
}

impl Chip {
    /// Memory telemetry of this chip: an immutable snapshot of the
    /// moment it was read.
    pub fn get_memory_info(&self, ctx: &DCMI) -> (r: Result<MemoryInfo, DcmiError>)
        requires
            ctx.wf(),
        ensures
            r is Ok <==> chip_query_status(ctx.inv, self.card_id, self.idx) == STATUS_OK,
            r matches Ok(m) ==> m == card_chips(ctx.inv, self.card_id)[self.idx as int].mem,
            r matches Err(e) ==> e == error_of_status(
                Operation::GetMemoryInfo,
                chip_query_status(ctx.inv, self.card_id, self.idx),
            ),
    {
        let (code, mem) = ctx.inv.memory_info(self.card_id, self.idx);
        match map_status(Operation::GetMemoryInfo, code) {
            Ok(()) => Ok(mem),
            Err(e) => Err(e),
        }
    }

    /// HBM telemetry of this chip: an immutable snapshot.  Only compute
    /// chips carry HBM; on any other chip the query is refused as an
    /// invalid parameter.
    pub fn get_hbm_info(&self, ctx: &DCMI) -> (r: Result<HbmInfo, DcmiError>)
        requires
            ctx.wf(),
        ensures
            r is Ok <==> hbm_query_status(ctx.inv, self.card_id, self.idx) == STATUS_OK,
            r matches Ok(h) ==> h == card_chips(ctx.inv, self.card_id)[self.idx as int].hbm,
            r matches Err(e) ==> e == error_of_status(
                Operation::GetHbmInfo,
                hbm_query_status(ctx.inv, self.card_id, self.idx),
            ),
    {
        let (code, hbm) = ctx.inv.hbm_info(self.card_id, self.idx);
        match map_status(Operation::GetHbmInfo, code) {
            Ok(()) => Ok(hbm),
            Err(e) => Err(e),
        }
    }

    /// Health state of this chip, decoded from its wire encoding.
    pub fn get_health(&self, ctx: &DCMI) -> (r: Result<HealthState, DcmiError>)
        requires
            ctx.wf(),
        ensures
            r is Ok <==> chip_query_status(ctx.inv, self.card_id, self.idx) == STATUS_OK,
            r matches Ok(h) ==> h == health_state_of_raw(
                card_chips(ctx.inv, self.card_id)[self.idx as int].health_raw,
            ),
            r matches Err(e) ==> e == error_of_status(
                Operation::GetHealth,
                chip_query_status(ctx.inv, self.card_id, self.idx),
            ),
    {
        let (code, raw) = ctx.inv.health_raw(self.card_id, self.idx);
        match map_status(Operation::GetHealth, code) {
            Ok(()) => Ok(HealthState::from_raw_value(raw)),
            Err(e) => Err(e),
        }
    }

    /// Frequency reading of this chip for the given frequency type, in
    /// MHz.
    pub fn get_frequency(&self, ctx: &DCMI, freq_type: FrequencyType) -> (r: Result<
        u32,
        DcmiError,
    >)
        requires
            ctx.wf(),
        ensures
            r is Ok <==> chip_query_status(ctx.inv, self.card_id, self.idx) == STATUS_OK,
            r matches Ok(v) ==> v == frequency_of(
                card_chips(ctx.inv, self.card_id)[self.idx as int].freq,
                raw_of_frequency_type(freq_type),
            ),
            r matches Err(e) ==> e == error_of_status(
                Operation::GetFrequency,
                chip_query_status(ctx.inv, self.card_id, self.idx),
            ),
    {
        let raw = freq_type.to_raw_value();
        let (code, v) = ctx.inv.frequency(self.card_id, self.idx, raw);
        match map_status(Operation::GetFrequency, code) {
            Ok(()) => Ok(v),
            Err(e) => Err(e),
        }
    }

    /// Utilization reading of this chip for the given utilization type,
    /// in percent.
    pub fn get_utilization_rate(&self, ctx: &DCMI, util_type: UtilizationType) -> (r: Result<
        u32,
        DcmiError,
    >)
        requires
            ctx.wf(),
        ensures
            r is Ok <==> chip_query_status(ctx.inv, self.card_id, self.idx) == STATUS_OK,
            r matches Ok(v) ==> v == utilization_of(
                card_chips(ctx.inv, self.card_id)[self.idx as int].util,
                raw_of_utilization_type(util_type),
            ),
            r matches Err(e) ==> e == error_of_status(
                Operation::GetUtilizationRate,
                chip_query_status(ctx.inv, self.card_id, self.idx),
            ),
    {
        let raw = util_type.to_raw_value();
        let (code, v) = ctx.inv.utilization(self.card_id, self.idx, raw);
        match map_status(Operation::GetUtilizationRate, code) {
            Ok(()) => Ok(v),
            Err(e) => Err(e),
        }
    }

    /// Create a virtual chip on this chip.
    ///
    /// The request is marshalled to its wire form (sentinel for every
    /// field the caller left unspecified, template name truncated to
    /// the wire width).  On success the returned value carries the
    /// actually assigned id and group, which may differ from the
    /// requested ones; the wire level is the sole arbiter of
    /// collisions, reported as typed failures and never retried here.
    pub fn create_virtual_chip(&self, ctx: &mut DCMI, res: VChipRes) -> (r: Result<
        VChipOut,
        DcmiError,
    >)
        requires
            old(ctx).wf(),
        ensures
            final(ctx).wf(),
            ({
                let st = create_status(
                    old(ctx).inv,
                    self.card_id,
                    self.idx,
                    wire_id_of(res.param),
                    wire_group_of(res.param),
                );
                &&& (r is Ok <==> st == STATUS_OK)
                &&& (r matches Err(e) ==> e == error_of_status(Operation::CreateVirtualChip, st))
            }),
            r matches Ok(out) ==> ({
                let aid = assigned_vchip_id(
                    old(ctx).inv,
                    self.card_id,
                    self.idx,
                    wire_id_of(res.param),
                );
                let ag = assigned_group_id(wire_group_of(res.param));
                &&& out == (VChipOut { vchip_id: aid, vfg_id: ag })
                &&& final(ctx).inv.vchips@ == old(ctx).inv.vchips@.push(
                    (VChipSlot { card_id: self.card_id, chip_idx: self.idx, id: aid, group: ag }),
                )
                &&& final(ctx).inv.cards == old(ctx).inv.cards
                &&& final(ctx).inv.recover_mode == old(ctx).inv.recover_mode
            }),
            r is Err ==> final(ctx).inv == old(ctx).inv,
    {
        let req = CreateVChipRequest::from_param(res.param);
        let (code, vchip_id, vfg_id) = ctx.inv.create_vdev(self.card_id, self.idx, &req);
        match map_status(Operation::CreateVirtualChip, code) {
            Ok(()) => Ok(VChipOut { vchip_id, vfg_id }),
            Err(e) => Err(e),
        }
    }

    /// Destroy one virtual chip of this chip, or all of them.
    ///
    /// Destroying a single id that is not alive fails as not-found;
    /// destroy is not idempotent.  After a successful single destroy
    /// every copy of that id dangles: the only way to observe it is a
    /// not-found failure from a later call.
    pub fn destroy_virtual_chip(&self, ctx: &mut DCMI, mode: DestroyVChipMode) -> (r: Result<
        (),
        DcmiError,
    >)
        requires
            old(ctx).wf(),
        ensures
            final(ctx).wf(),
            ({
                let st = destroy_outcome(old(ctx).inv, self.card_id, self.idx, mode);
                &&& (r is Ok <==> st == STATUS_OK)
                &&& (r matches Err(e) ==> e == error_of_status(Operation::DestroyVirtualChip, st))
            }),
            r is Ok ==> final(ctx).inv.vchips@ == (if (mode matches DestroyVChipMode::AllDevices) {
                without_chip(old(ctx).inv.vchips@, self.card_id, self.idx)
            } else {
                without_id(
                    old(ctx).inv.vchips@,
                    self.card_id,
                    self.idx,
                    destroy_target(mode),
                )
            }) && final(ctx).inv.cards == old(ctx).inv.cards && final(ctx).inv.recover_mode == old(
                ctx,
            ).inv.recover_mode,
            r is Err ==> final(ctx).inv == old(ctx).inv,
    {
        let target: u32 = match mode {
            DestroyVChipMode::SingleDevice(single) => {
                if single.id == AUTO_SENTINEL {
                    return Err(
                        DcmiError {
                            op: Operation::DestroyVirtualChip,
                            code: STATUS_INVALID_PARAMETER,
                            category: crate::error::ErrorCategory::InvalidParameter,
                        },
                    );
                }
                single.id
            },
            DestroyVChipMode::AllDevices => AUTO_SENTINEL,
        };
        let code = ctx.inv.destroy_vdev(self.card_id, self.idx, target);
        match map_status(Operation::DestroyVirtualChip, code) {
            Ok(()) => Ok(()),
            Err(e) => Err(e),
        }
    }
}

} // verus!
