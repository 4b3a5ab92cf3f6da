//! The wire level of the management interface: an explicit inventory of
//! the managed hardware state.
//!
//! The inventory stands for the externally owned hardware state the
//! management layer talks to.  It is addressed with raw wire values
//! (unit types and health states in their wire encoding, ids with the
//! auto-assign sentinel) and answers every call with a raw status code;
//! the typed layer above it never exposes a raw value without
//! marshalling it and mapping the status.

use vstd::prelude::*;
use crate::enums::{
    unit_type_documented, health_state_documented, raw_of_unit_type, raw_of_health_state,
    UnitType, HealthState, RAW_UNIT_NPU, RAW_FREQ_DDR, RAW_FREQ_CTRLCPU, RAW_FREQ_HBM,
    RAW_FREQ_AICORE_CURRENT, RAW_FREQ_AICORE_MAX, RAW_UTIL_MEMORY, RAW_UTIL_AI_CORE,
    RAW_UTIL_AI_CPU, RAW_UTIL_CTRL_CPU, RAW_UTIL_MEMORY_BANDWIDTH, RAW_UTIL_HBM, RAW_UTIL_DDR,
    RAW_UTIL_HBM_BANDWIDTH,
};
use crate::error::{
    STATUS_OK, STATUS_NOT_FOUND, STATUS_INVALID_PARAMETER, STATUS_BUSY, status_documented,
};
use crate::structs::{FrequencyTable, MemoryInfo, HbmInfo, UtilizationTable};
use crate::wire::{AUTO_SENTINEL, CreateVChipRequest};

verus! {

/// One chip of a card as the wire level records it: its unit type and
/// health in wire encoding, and its telemetry snapshots.
#[derive(Debug, PartialEq, Eq, Clone, Copy, Structural)]
pub struct ChipUnit {
    /// Unit type, in wire encoding
    pub unit_raw: u32,
    /// Health state, in wire encoding
    pub health_raw: u32,
    /// Memory telemetry of the chip
    pub mem: MemoryInfo,
    /// HBM telemetry of the chip
    pub hbm: HbmInfo,
    /// Frequency telemetry of the chip
    pub freq: FrequencyTable,
    /// Utilization telemetry of the chip
    pub util: UtilizationTable,
}

/// One card of the inventory: its id and its chips, in enumeration
/// order.
#[derive(Debug, PartialEq, Eq, Clone)]
pub struct CardState {
    /// The card id
    pub id: u32,
    /// The card's chips; a chip's index is its position here
    pub chips: Vec<ChipUnit>,
}

/// One virtual chip: the compute chip it partitions and its assigned
/// ids.
#[derive(Debug, PartialEq, Eq, Clone, Copy, Structural)]
pub struct VChipSlot {
    /// Card id of the parent chip
    pub card_id: u32,
    /// Index of the parent chip under its card
    pub chip_idx: u32,
    /// The virtual chip id, never the auto-assign sentinel
    pub id: u32,
    /// The resource group the virtual chip belongs to
    pub group: u32,
}

/// The chip data a caller hands to the inventory builder, in domain
/// form; the builder marshals it to the wire encoding.
#[derive(Debug, PartialEq, Eq, Clone, Copy)]
pub struct ChipConfig {
    /// Unit type of the chip
    pub unit: UnitType,
    /// Health state of the chip
    pub health: HealthState,
    /// Memory telemetry of the chip
    pub mem: MemoryInfo,
    /// HBM telemetry of the chip
    pub hbm: HbmInfo,
    /// Frequency telemetry of the chip
    pub freq: FrequencyTable,
    /// Utilization telemetry of the chip
    pub util: UtilizationTable,
}

/// The managed hardware state: cards with their chips, the virtual
/// chips partitioning them, and the device-scoped recover-mode flag.
#[derive(Debug, PartialEq, Eq, Clone)]
pub struct Inventory {
    /// The cards, in enumeration order
    pub cards: Vec<CardState>,
    /// Every virtual chip currently alive, in creation order
    pub vchips: Vec<VChipSlot>,
    /// Whether virtual-chip capacity auto-restores after a destroy
    pub recover_mode: bool,
}

/// The wire form of a chip configuration.
pub open spec fn chip_unit_of_config(c: ChipConfig) -> ChipUnit {
    ChipUnit {
        unit_raw: raw_of_unit_type(c.unit),
        health_raw: raw_of_health_state(c.health),
        mem: c.mem,
        hbm: c.hbm,
        freq: c.freq,
        util: c.util,
    }
}

/// The table entry a wire-encoded frequency type selects.
pub open spec fn frequency_of(t: FrequencyTable, raw: u32) -> u32 {
    if raw == RAW_FREQ_DDR {
        t.ddr
    } else if raw == RAW_FREQ_CTRLCPU {
        t.ctrl_cpu
    } else if raw == RAW_FREQ_HBM {
        t.hbm
    } else if raw == RAW_FREQ_AICORE_CURRENT {
        t.aicore_current
    } else if raw == RAW_FREQ_AICORE_MAX {
        t.aicore_max
    } else {
        t.vector_core_current
    }
}

/// The table entry a wire-encoded utilization type selects.
pub open spec fn utilization_of(t: UtilizationTable, raw: i32) -> u32 {
    if raw == RAW_UTIL_MEMORY {
        t.memory
    } else if raw == RAW_UTIL_AI_CORE {
        t.ai_core
    } else if raw == RAW_UTIL_AI_CPU {
        t.ai_cpu
    } else if raw == RAW_UTIL_CTRL_CPU {
        t.ctrl_cpu
    } else if raw == RAW_UTIL_MEMORY_BANDWIDTH {
        t.memory_bandwidth
    } else if raw == RAW_UTIL_HBM {
        t.hbm
    } else if raw == RAW_UTIL_DDR {
        t.ddr
    } else if raw == RAW_UTIL_HBM_BANDWIDTH {
        t.hbm_bandwidth
    } else {
        t.vector_core
    }
}

/// Whether a slot partitions the given chip.
pub open spec fn slot_on_chip(s: VChipSlot, card_id: u32, chip_idx: u32) -> bool {
    s.card_id == card_id && s.chip_idx == chip_idx
}

/// Whether a virtual chip with the given id is alive on the given chip.
pub open spec fn vchip_id_taken(
    vchips: Seq<VChipSlot>,
    card_id: u32,
    chip_idx: u32,
    id: u32,
) -> bool {
    exists|p: int|
        0 <= p < vchips.len() && slot_on_chip(vchips[p], card_id, chip_idx) && vchips[p].id == id
}

/// How many virtual chips are alive on the given chip.
pub open spec fn count_on_chip(vchips: Seq<VChipSlot>, card_id: u32, chip_idx: u32) -> nat
    decreases vchips.len(),
{
    if vchips.len() == 0 {
        0
    } else {
        count_on_chip(vchips.drop_last(), card_id, chip_idx) + if slot_on_chip(
            vchips.last(),
            card_id,
            chip_idx,
        ) {
            1nat
        } else {
            0nat
        }
    }
}

/// The highest virtual chip id alive on the given chip (zero when the
/// chip has none; only meaningful together with `count_on_chip`).
pub open spec fn max_id_on_chip(vchips: Seq<VChipSlot>, card_id: u32, chip_idx: u32) -> u32
    decreases vchips.len(),
{
    if vchips.len() == 0 {
        0u32
    } else {
        let m = max_id_on_chip(vchips.drop_last(), card_id, chip_idx);
        if slot_on_chip(vchips.last(), card_id, chip_idx) && vchips.last().id > m {
            vchips.last().id
        } else {
            m
        }
    }
}

/// The slots that survive destroying every virtual chip of one chip,
/// in their original order.
pub open spec fn without_chip(vchips: Seq<VChipSlot>, card_id: u32, chip_idx: u32) -> Seq<
    VChipSlot,
>
    decreases vchips.len(),
{
    if vchips.len() == 0 {
        Seq::empty()
    } else {
        let rest = without_chip(vchips.drop_last(), card_id, chip_idx);
        if slot_on_chip(vchips.last(), card_id, chip_idx) {
            rest
        } else {
            rest.push(vchips.last())
        }
    }
}

/// The slots that survive destroying the single virtual chip with the
/// given id, in their original order.
pub open spec fn without_id(vchips: Seq<VChipSlot>, card_id: u32, chip_idx: u32, id: u32) -> Seq<
    VChipSlot,
>
    decreases vchips.len(),
{
    if vchips.len() == 0 {
        Seq::empty()
    } else {
        let rest = without_id(vchips.drop_last(), card_id, chip_idx, id);
        if slot_on_chip(vchips.last(), card_id, chip_idx) && vchips.last().id == id {
            rest
        } else {
            rest.push(vchips.last())
        }
    }
}

/// Virtual chip ids are unique per chip.
pub open spec fn vchips_unique(vchips: Seq<VChipSlot>) -> bool {
    forall|p: int, q: int|
        0 <= p < q < vchips.len() && vchips[p].card_id == vchips[q].card_id
            && vchips[p].chip_idx == vchips[q].chip_idx ==> vchips[p].id != vchips[q].id
}

/// No alive virtual chip carries the auto-assign sentinel as its id.
pub open spec fn vchips_no_sentinel(vchips: Seq<VChipSlot>) -> bool {
    forall|p: int| 0 <= p < vchips.len() ==> vchips[p].id != AUTO_SENTINEL
}

/// Well-formedness of the inventory: card ids are unique, every chip
/// fits the wire contract (documented unit type and health, index
/// representable on the wire), and virtual chip ids are unique per chip
/// and never the sentinel.
pub open spec fn inv_wf(inv: Inventory) -> bool {
    &&& forall|p: int, q: int|
        0 <= p < q < inv.cards@.len() ==> inv.cards@[p].id != inv.cards@[q].id
    &&& forall|p: int, j: int|
        0 <= p < inv.cards@.len() && 0 <= j < inv.cards@[p].chips@.len()
            ==> unit_type_documented(#[trigger] inv.cards@[p].chips@[j].unit_raw)
    &&& forall|p: int, j: int|
        0 <= p < inv.cards@.len() && 0 <= j < inv.cards@[p].chips@.len()
            ==> health_state_documented(#[trigger] inv.cards@[p].chips@[j].health_raw)
    &&& forall|p: int| 0 <= p < inv.cards@.len() ==> inv.cards@[p].chips@.len() <= 0xffff_ffff
    &&& vchips_unique(inv.vchips@)
    &&& vchips_no_sentinel(inv.vchips@)
}

/// Whether the inventory holds a card with the given id.
pub open spec fn has_card(inv: Inventory, card_id: u32) -> bool {
    exists|j: int| 0 <= j < inv.cards@.len() && inv.cards@[j].id == card_id
}

/// The position of the card with the given id; under well-formedness
/// the position is unique.
pub open spec fn card_index(inv: Inventory, card_id: u32) -> int {
    choose|j: int| 0 <= j < inv.cards@.len() && inv.cards@[j].id == card_id
}

/// The chips of the card with the given id, in enumeration order.
pub open spec fn card_chips(inv: Inventory, card_id: u32) -> Seq<ChipUnit> {
    inv.cards@[card_index(inv, card_id)].chips@
}

/// Whether the inventory holds the given chip.
pub open spec fn has_chip(inv: Inventory, card_id: u32, chip_idx: u32) -> bool {
    has_card(inv, card_id) && chip_idx < card_chips(inv, card_id).len()
}

/// The wire-encoded unit type of the given chip.
pub open spec fn chip_unit_raw(inv: Inventory, card_id: u32, chip_idx: u32) -> u32 {
    card_chips(inv, card_id)[chip_idx as int].unit_raw
}

/// In a well-formed inventory any position holding the card id is the
/// card's index.
pub proof fn lemma_card_index_agrees(inv: Inventory, card_id: u32, j: int)
    requires
        inv_wf(inv),
        0 <= j < inv.cards@.len(),
        inv.cards@[j].id == card_id,
    ensures
        has_card(inv, card_id),
        card_index(inv, card_id) == j,
{
    assert(has_card(inv, card_id));
    let ci = card_index(inv, card_id);
    assert(0 <= ci < inv.cards@.len() && inv.cards@[ci].id == card_id);
    if ci < j {
        assert(inv.cards@[ci].id != inv.cards@[j].id);
    } else if j < ci {
        assert(inv.cards@[j].id != inv.cards@[ci].id);
    }
}

/// Every virtual chip id alive on a chip is bounded by the chip's
/// highest alive id.
pub proof fn lemma_ids_le_max(vchips: Seq<VChipSlot>, card_id: u32, chip_idx: u32)
    ensures
        forall|p: int|
            0 <= p < vchips.len() && slot_on_chip(#[trigger] vchips[p], card_id, chip_idx)
                ==> vchips[p].id <= max_id_on_chip(vchips, card_id, chip_idx),
    decreases vchips.len(),
{
    if vchips.len() > 0 {
        lemma_ids_le_max(vchips.drop_last(), card_id, chip_idx);
        assert forall|p: int|
            0 <= p < vchips.len() && slot_on_chip(#[trigger] vchips[p], card_id, chip_idx)
            implies vchips[p].id <= max_id_on_chip(vchips, card_id, chip_idx) by {
            if p < vchips.len() - 1 {
                assert(vchips.drop_last()[p] == vchips[p]);
            }
        }
    }
}

/// A chip with no alive virtual chips has no alive id at all.
pub proof fn lemma_count_zero_no_slots(vchips: Seq<VChipSlot>, card_id: u32, chip_idx: u32)
    requires
        count_on_chip(vchips, card_id, chip_idx) == 0,
    ensures
        forall|p: int|
            0 <= p < vchips.len() ==> !slot_on_chip(#[trigger] vchips[p], card_id, chip_idx),
    decreases vchips.len(),
{
    if vchips.len() > 0 {
        lemma_count_zero_no_slots(vchips.drop_last(), card_id, chip_idx);
        assert forall|p: int|
            0 <= p < vchips.len() implies !slot_on_chip(#[trigger] vchips[p], card_id, chip_idx) by {
            if p < vchips.len() - 1 {
                assert(vchips.drop_last()[p] == vchips[p]);
            }
        }
    }
}

/// Every slot surviving a single-id destroy comes from the original
/// slots with the last element removed from consideration step by step:
/// each survivor is one of the original slots.
pub proof fn lemma_without_id_membership(
    vchips: Seq<VChipSlot>,
    card_id: u32,
    chip_idx: u32,
    id: u32,
)
    ensures
        forall|p: int|
            0 <= p < without_id(vchips, card_id, chip_idx, id).len() ==> vchips.contains(
                #[trigger] without_id(vchips, card_id, chip_idx, id)[p],
            ),
    decreases vchips.len(),
{
    if vchips.len() > 0 {
        lemma_without_id_membership(vchips.drop_last(), card_id, chip_idx, id);
        let rest = without_id(vchips.drop_last(), card_id, chip_idx, id);
        let whole = without_id(vchips, card_id, chip_idx, id);
        assert forall|p: int| 0 <= p < whole.len() implies vchips.contains(#[trigger] whole[p]) by {
            if p < rest.len() {
                assert(rest[p] == whole[p]);
                let q = choose|q: int| 0 <= q < vchips.drop_last().len() && vchips.drop_last()[q]
                    == rest[p];
                assert(vchips[q] == whole[p]);
            } else {
                assert(whole[p] == vchips.last());
                assert(vchips[vchips.len() - 1] == whole[p]);
            }
        }
    }
}

/// The same membership fact for a destroy-all.
pub proof fn lemma_without_chip_membership(vchips: Seq<VChipSlot>, card_id: u32, chip_idx: u32)
    ensures
        forall|p: int|
            0 <= p < without_chip(vchips, card_id, chip_idx).len() ==> vchips.contains(
                #[trigger] without_chip(vchips, card_id, chip_idx)[p],
            ),
    decreases vchips.len(),
{
    if vchips.len() > 0 {
        lemma_without_chip_membership(vchips.drop_last(), card_id, chip_idx);
        let rest = without_chip(vchips.drop_last(), card_id, chip_idx);
        let whole = without_chip(vchips, card_id, chip_idx);
        assert forall|p: int| 0 <= p < whole.len() implies vchips.contains(#[trigger] whole[p]) by {
            if p < rest.len() {
                assert(rest[p] == whole[p]);
                let q = choose|q: int| 0 <= q < vchips.drop_last().len() && vchips.drop_last()[q]
                    == rest[p];
                assert(vchips[q] == whole[p]);
            } else {
                assert(whole[p] == vchips.last());
                assert(vchips[vchips.len() - 1] == whole[p]);
            }
        }
    }
}

/// A single-id destroy keeps the surviving slots well formed and
/// removes the destroyed id: it is no longer alive on the chip.
pub proof fn lemma_without_id_props(vchips: Seq<VChipSlot>, card_id: u32, chip_idx: u32, id: u32)
    requires
        vchips_unique(vchips),
        vchips_no_sentinel(vchips),
    ensures
        vchips_unique(without_id(vchips, card_id, chip_idx, id)),
        vchips_no_sentinel(without_id(vchips, card_id, chip_idx, id)),
        !vchip_id_taken(without_id(vchips, card_id, chip_idx, id), card_id, chip_idx, id),
    decreases vchips.len(),
{
    if vchips.len() > 0 {
        let prefix = vchips.drop_last();
        assert(vchips_unique(prefix)) by {
            assert forall|p: int, q: int|
                0 <= p < q < prefix.len() && prefix[p].card_id == prefix[q].card_id
                    && prefix[p].chip_idx == prefix[q].chip_idx implies prefix[p].id
                != prefix[q].id by {
                assert(prefix[p] == vchips[p] && prefix[q] == vchips[q]);
            }
        }
        assert(vchips_no_sentinel(prefix)) by {
            assert forall|p: int| 0 <= p < prefix.len() implies prefix[p].id != AUTO_SENTINEL by {
                assert(prefix[p] == vchips[p]);
            }
        }
        lemma_without_id_props(prefix, card_id, chip_idx, id);
        lemma_without_id_membership(prefix, card_id, chip_idx, id);
        let rest = without_id(prefix, card_id, chip_idx, id);
        let whole = without_id(vchips, card_id, chip_idx, id);
        let last = vchips.last();
        if !(slot_on_chip(last, card_id, chip_idx) && last.id == id) {
            assert(whole == rest.push(last));
            assert(vchips_unique(whole)) by {
                assert forall|p: int, q: int|
                    0 <= p < q < whole.len() && whole[p].card_id == whole[q].card_id
                        && whole[p].chip_idx == whole[q].chip_idx implies whole[p].id
                    != whole[q].id by {
                    if q < rest.len() {
                        assert(whole[p] == rest[p] && whole[q] == rest[q]);
                    } else {
                        assert(whole[q] == last);
                        assert(whole[p] == rest[p]);
                        let w = choose|w: int|
                            0 <= w < prefix.len() && prefix[w] == rest[p];
                        assert(vchips[w] == rest[p]);
                        assert(vchips[vchips.len() - 1] == last);
                    }
                }
            }
            assert(vchips_no_sentinel(whole)) by {
                assert forall|p: int| 0 <= p < whole.len() implies whole[p].id
                    != AUTO_SENTINEL by {
                    if p < rest.len() {
                        assert(whole[p] == rest[p]);
                    } else {
                        assert(whole[p] == last);
                        assert(vchips[vchips.len() - 1] == last);
                    }
                }
            }
            assert(!vchip_id_taken(whole, card_id, chip_idx, id)) by {
                if vchip_id_taken(whole, card_id, chip_idx, id) {
                    let p = choose|p: int|
                        0 <= p < whole.len() && slot_on_chip(whole[p], card_id, chip_idx)
                            && whole[p].id == id;
                    if p < rest.len() {
                        assert(whole[p] == rest[p]);
                        assert(vchip_id_taken(rest, card_id, chip_idx, id));
                    } else {
                        assert(whole[p] == last);
                    }
                }
            }
        } else {
            assert(whole == rest);
        }
    }
}

/// A destroy-all keeps the surviving slots well formed and leaves no
/// virtual chip alive on the destroyed chip.
pub proof fn lemma_without_chip_props(vchips: Seq<VChipSlot>, card_id: u32, chip_idx: u32)
    requires
        vchips_unique(vchips),
        vchips_no_sentinel(vchips),
    ensures
        vchips_unique(without_chip(vchips, card_id, chip_idx)),
        vchips_no_sentinel(without_chip(vchips, card_id, chip_idx)),
        forall|v: u32| !vchip_id_taken(without_chip(vchips, card_id, chip_idx), card_id, chip_idx, v),
    decreases vchips.len(),
{
    if vchips.len() > 0 {
        let prefix = vchips.drop_last();
        assert(vchips_unique(prefix)) by {
            assert forall|p: int, q: int|
                0 <= p < q < prefix.len() && prefix[p].card_id == prefix[q].card_id
                    && prefix[p].chip_idx == prefix[q].chip_idx implies prefix[p].id
                != prefix[q].id by {
                assert(prefix[p] == vchips[p] && prefix[q] == vchips[q]);
            }
        }
        assert(vchips_no_sentinel(prefix)) by {
            assert forall|p: int| 0 <= p < prefix.len() implies prefix[p].id != AUTO_SENTINEL by {
                assert(prefix[p] == vchips[p]);
            }
        }
        lemma_without_chip_props(prefix, card_id, chip_idx);
        lemma_without_chip_membership(prefix, card_id, chip_idx);
        let rest = without_chip(prefix, card_id, chip_idx);
        let whole = without_chip(vchips, card_id, chip_idx);
        let last = vchips.last();
        if !slot_on_chip(last, card_id, chip_idx) {
            assert(whole == rest.push(last));
            assert(vchips_unique(whole)) by {
                assert forall|p: int, q: int|
                    0 <= p < q < whole.len() && whole[p].card_id == whole[q].card_id
                        && whole[p].chip_idx == whole[q].chip_idx implies whole[p].id
                    != whole[q].id by {
                    if q < rest.len() {
                        assert(whole[p] == rest[p] && whole[q] == rest[q]);
                    } else {
                        assert(whole[q] == last);
                        assert(whole[p] == rest[p]);
                        let w = choose|w: int|
                            0 <= w < prefix.len() && prefix[w] == rest[p];
                        assert(vchips[w] == rest[p]);
                        assert(vchips[vchips.len() - 1] == last);
                    }
                }
            }
            assert(vchips_no_sentinel(whole)) by {
                assert forall|p: int| 0 <= p < whole.len() implies whole[p].id
                    != AUTO_SENTINEL by {
                    if p < rest.len() {
                        assert(whole[p] == rest[p]);
                    } else {
                        assert(whole[p] == last);
                        assert(vchips[vchips.len() - 1] == last);
                    }
                }
            }
            assert forall|v: u32| !vchip_id_taken(whole, card_id, chip_idx, v) by {
                if vchip_id_taken(whole, card_id, chip_idx, v) {
                    let p = choose|p: int|
                        0 <= p < whole.len() && slot_on_chip(whole[p], card_id, chip_idx)
                            && whole[p].id == v;
                    if p < rest.len() {
                        assert(whole[p] == rest[p]);
                        assert(vchip_id_taken(rest, card_id, chip_idx, v));
                    } else {
                        assert(whole[p] == last);
                    }
                }
            }
        } else {
            assert(whole == rest);
        }
    }
}

/// The status a creation request gets: not-found for an unknown card or
/// chip, invalid-parameter on a chip that is not a compute chip or on an
/// explicit id collision, busy when the chip's id space is exhausted,
/// success otherwise.
pub open spec fn create_status(
    inv: Inventory,
    card_id: u32,
    chip_idx: u32,
    req_id: u32,
    req_group: u32,
) -> i32 {
    if !has_chip(inv, card_id, chip_idx) {
        STATUS_NOT_FOUND
    } else if chip_unit_raw(inv, card_id, chip_idx) != RAW_UNIT_NPU {
        STATUS_INVALID_PARAMETER
    } else if req_id != AUTO_SENTINEL && vchip_id_taken(inv.vchips@, card_id, chip_idx, req_id) {
        STATUS_INVALID_PARAMETER
    } else if req_id == AUTO_SENTINEL && count_on_chip(inv.vchips@, card_id, chip_idx) > 0
        && max_id_on_chip(inv.vchips@, card_id, chip_idx) >= AUTO_SENTINEL - 1 {
        STATUS_BUSY
    } else {
        STATUS_OK
    }
}

/// The id a successful creation assigns: the explicit id when one was
/// requested; otherwise the successor of the chip's highest alive id,
/// starting from zero on an unpartitioned chip.
pub open spec fn assigned_vchip_id(inv: Inventory, card_id: u32, chip_idx: u32, req_id: u32) -> u32 {
    if req_id != AUTO_SENTINEL {
        req_id
    } else if count_on_chip(inv.vchips@, card_id, chip_idx) == 0 {
        0u32
    } else {
        (max_id_on_chip(inv.vchips@, card_id, chip_idx) + 1) as u32
    }
}

/// The group a successful creation assigns: the explicit group when one
/// was requested, the default group zero otherwise.
pub open spec fn assigned_group_id(req_group: u32) -> u32 {
    if req_group != AUTO_SENTINEL {
        req_group
    } else {
        0u32
    }
}

/// The status a destroy gets: not-found for an unknown card or chip and
/// for a single id that is not alive; success otherwise.  The sentinel
/// as target destroys everything on the chip and succeeds even when
/// nothing is alive.
pub open spec fn destroy_status(inv: Inventory, card_id: u32, chip_idx: u32, target: u32) -> i32 {
    if !has_chip(inv, card_id, chip_idx) {
        STATUS_NOT_FOUND
    } else if target == AUTO_SENTINEL {
        STATUS_OK
    } else if vchip_id_taken(inv.vchips@, card_id, chip_idx, target) {
        STATUS_OK
    } else {
        STATUS_NOT_FOUND
    }
}

/// The status a chip-scoped query gets: success exactly when the chip
/// exists.
pub open spec fn chip_query_status(inv: Inventory, card_id: u32, chip_idx: u32) -> i32 {
    if has_chip(inv, card_id, chip_idx) {
        STATUS_OK
    } else {
        STATUS_NOT_FOUND
    }
}

/// The status an HBM query gets: HBM telemetry exists only on compute
/// chips.
pub open spec fn hbm_query_status(inv: Inventory, card_id: u32, chip_idx: u32) -> i32 {
    if !has_chip(inv, card_id, chip_idx) {
        STATUS_NOT_FOUND
    } else if chip_unit_raw(inv, card_id, chip_idx) != RAW_UNIT_NPU {
        STATUS_INVALID_PARAMETER
    } else {
        STATUS_OK
    }
}

/// Destroy invalidation: once a single destroy of an id has succeeded,
/// the very same destroy on the resulting inventory is refused as
/// not-found — the id no longer names anything.
pub proof fn lemma_destroy_invalidation(
    pre: Inventory,
    post: Inventory,
    card_id: u32,
    chip_idx: u32,
    id: u32,
)
    requires
        inv_wf(pre),
        id != AUTO_SENTINEL,
        destroy_status(pre, card_id, chip_idx, id) == STATUS_OK,
        post.cards == pre.cards,
        post.vchips@ == without_id(pre.vchips@, card_id, chip_idx, id),
    ensures
        destroy_status(post, card_id, chip_idx, id) == STATUS_NOT_FOUND,
{
    lemma_without_id_props(pre.vchips@, card_id, chip_idx, id);
}

impl Inventory {
    /// Find the position of a card by id.
    pub fn find_card(&self, card_id: u32) -> (r: Option<usize>)
        ensures
            r is Some <==> has_card(*self, card_id),
            r matches Some(j) ==> j < self.cards@.len() && self.cards@[j as int].id == card_id,
    {
        let mut j: usize = 0;
        while j < self.cards.len()
            invariant
                j <= self.cards@.len(),
                forall|k: int| 0 <= k < j ==> self.cards@[k].id != card_id,
            decreases self.cards@.len() - j,
        {
            if self.cards[j].id == card_id {
                return Some(j);
            }
            j += 1;
        }
        None
    }

    /// The ids of all cards, in enumeration order.
    pub fn card_ids(&self) -> (r: Vec<u32>)
        ensures
            r@ == self.cards@.map_values(|c: CardState| c.id),
    {
        let mut ids: Vec<u32> = Vec::new();
        let mut j: usize = 0;
        while j < self.cards.len()
            invariant
                j <= self.cards@.len(),
                ids@.len() == j,
                forall|k: int| 0 <= k < j ==> ids@[k] == self.cards@[k].id,
            decreases self.cards@.len() - j,
        {
            let id = self.cards[j].id;
            ids.push(id);
            j += 1;
        }
        proof {
            assert(ids@ =~= self.cards@.map_values(|c: CardState| c.id));
        }
        ids
    }

    /// How many virtual chips are alive on a chip, and the highest alive
    /// id (zero when none are alive).
    fn count_and_max(&self, card_id: u32, chip_idx: u32) -> (r: (usize, u32))
        ensures
            r.0 == count_on_chip(self.vchips@, card_id, chip_idx),
            r.1 == max_id_on_chip(self.vchips@, card_id, chip_idx),
    {
        let mut count: usize = 0;
        let mut max_id: u32 = 0;
        let mut p: usize = 0;
        while p < self.vchips.len()
            invariant
                p <= self.vchips@.len(),
                count == count_on_chip(self.vchips@.take(p as int), card_id, chip_idx),
                max_id == max_id_on_chip(self.vchips@.take(p as int), card_id, chip_idx),
                count <= p,
            decreases self.vchips@.len() - p,
        {
            let s = self.vchips[p];
            proof {
                assert(self.vchips@.take(p + 1int).drop_last() =~= self.vchips@.take(p as int));
                assert(self.vchips@.take(p + 1int).last() == s);
            }
            if s.card_id == card_id && s.chip_idx == chip_idx {
                count += 1;
                if s.id > max_id {
                    max_id = s.id;
                }
            }
            p += 1;
        }
        proof {
            assert(self.vchips@.take(self.vchips@.len() as int) =~= self.vchips@);
        }
        (count, max_id)
    }

    /// Whether a virtual chip with the given id is alive on a chip.
    fn id_taken(&self, card_id: u32, chip_idx: u32, id: u32) -> (r: bool)
        ensures
            r == vchip_id_taken(self.vchips@, card_id, chip_idx, id),
    {
        let mut p: usize = 0;
        while p < self.vchips.len()
            invariant
                p <= self.vchips@.len(),
                forall|k: int|
                    0 <= k < p ==> !(slot_on_chip(#[trigger] self.vchips@[k], card_id, chip_idx)
                        && self.vchips@[k].id == id),
            decreases self.vchips@.len() - p,
        {
            let s = self.vchips[p];
            if s.card_id == card_id && s.chip_idx == chip_idx && s.id == id {
                return true;
            }
            p += 1;
        }
        false
    }

    /// Number of chips under a card.
    pub fn chip_count(&self, card_id: u32) -> (r: (i32, usize))
        requires
            inv_wf(*self),
        ensures
            r.0 == (if has_card(*self, card_id) {
                STATUS_OK
            } else {
                STATUS_NOT_FOUND
            }),
            status_documented(r.0),
            r.0 == STATUS_OK ==> r.1 == card_chips(*self, card_id).len(),
    {
        match self.find_card(card_id) {
            None => (STATUS_NOT_FOUND, 0),
            Some(j) => {
                proof {
                    lemma_card_index_agrees(*self, card_id, j as int);
                }
                (STATUS_OK, self.cards[j].chips.len())
            },
        }
    }

    /// Wire-encoded unit type of a chip.
    pub fn unit_type_raw(&self, card_id: u32, chip_idx: u32) -> (r: (i32, u32))
        requires
            inv_wf(*self),
        ensures
            r.0 == chip_query_status(*self, card_id, chip_idx),
            status_documented(r.0),
            r.0 == STATUS_OK ==> r.1 == chip_unit_raw(*self, card_id, chip_idx)
                && unit_type_documented(r.1),
    {
        match self.find_card(card_id) {
            None => (STATUS_NOT_FOUND, 0),
            Some(j) => {
                proof {
                    lemma_card_index_agrees(*self, card_id, j as int);
                }
                if (chip_idx as usize) < self.cards[j].chips.len() {
                    (STATUS_OK, self.cards[j].chips[chip_idx as usize].unit_raw)
                } else {
                    (STATUS_NOT_FOUND, 0)
                }
            },
        }
    }

    /// Wire-encoded health state of a chip.
    pub fn health_raw(&self, card_id: u32, chip_idx: u32) -> (r: (i32, u32))
        requires
            inv_wf(*self),
        ensures
            r.0 == chip_query_status(*self, card_id, chip_idx),
            status_documented(r.0),
            r.0 == STATUS_OK ==> r.1 == card_chips(*self, card_id)[chip_idx as int].health_raw
                && health_state_documented(r.1),
    {
        match self.find_card(card_id) {
            None => (STATUS_NOT_FOUND, 0),
            Some(j) => {
                proof {
                    lemma_card_index_agrees(*self, card_id, j as int);
                }
                if (chip_idx as usize) < self.cards[j].chips.len() {
                    (STATUS_OK, self.cards[j].chips[chip_idx as usize].health_raw)
                } else {
                    (STATUS_NOT_FOUND, 0)
                }
            },
        }
    }

    /// Frequency reading of a chip for a wire-encoded frequency type.
    pub fn frequency(&self, card_id: u32, chip_idx: u32, freq_raw: u32) -> (r: (i32, u32))
        requires
            inv_wf(*self),
        ensures
            r.0 == chip_query_status(*self, card_id, chip_idx),
            status_documented(r.0),
            r.0 == STATUS_OK ==> r.1 == frequency_of(
                card_chips(*self, card_id)[chip_idx as int].freq,
                freq_raw,
            ),
    {
        match self.find_card(card_id) {
            None => (STATUS_NOT_FOUND, 0),
            Some(j) => {
                proof {
                    lemma_card_index_agrees(*self, card_id, j as int);
                }
                if (chip_idx as usize) < self.cards[j].chips.len() {
                    let t = self.cards[j].chips[chip_idx as usize].freq;
                    let v = if freq_raw == crate::enums::RAW_FREQ_DDR {
                        t.ddr
                    } else if freq_raw == crate::enums::RAW_FREQ_CTRLCPU {
                        t.ctrl_cpu
                    } else if freq_raw == crate::enums::RAW_FREQ_HBM {
                        t.hbm
                    } else if freq_raw == crate::enums::RAW_FREQ_AICORE_CURRENT {
                        t.aicore_current
                    } else if freq_raw == crate::enums::RAW_FREQ_AICORE_MAX {
                        t.aicore_max
                    } else {
                        t.vector_core_current
                    };
                    (STATUS_OK, v)
                } else {
                    (STATUS_NOT_FOUND, 0)
                }
            },
        }
    }

    /// Utilization reading of a chip for a wire-encoded utilization
    /// type.
    pub fn utilization(&self, card_id: u32, chip_idx: u32, util_raw: i32) -> (r: (i32, u32))
        requires
            inv_wf(*self),
        ensures
            r.0 == chip_query_status(*self, card_id, chip_idx),
            status_documented(r.0),
            r.0 == STATUS_OK ==> r.1 == utilization_of(
                card_chips(*self, card_id)[chip_idx as int].util,
                util_raw,
            ),
    {
        match self.find_card(card_id) {
            None => (STATUS_NOT_FOUND, 0),
            Some(j) => {
                proof {
                    lemma_card_index_agrees(*self, card_id, j as int);
                }
                if (chip_idx as usize) < self.cards[j].chips.len() {
                    let t = self.cards[j].chips[chip_idx as usize].util;
                    let v = if util_raw == RAW_UTIL_MEMORY {
                        t.memory
                    } else if util_raw == RAW_UTIL_AI_CORE {
                        t.ai_core
                    } else if util_raw == RAW_UTIL_AI_CPU {
                        t.ai_cpu
                    } else if util_raw == RAW_UTIL_CTRL_CPU {
                        t.ctrl_cpu
                    } else if util_raw == RAW_UTIL_MEMORY_BANDWIDTH {
                        t.memory_bandwidth
                    } else if util_raw == RAW_UTIL_HBM {
                        t.hbm
                    } else if util_raw == RAW_UTIL_DDR {
                        t.ddr
                    } else if util_raw == RAW_UTIL_HBM_BANDWIDTH {
                        t.hbm_bandwidth
                    } else {
                        t.vector_core
                    };
                    (STATUS_OK, v)
                } else {
                    (STATUS_NOT_FOUND, 0)
                }
            },
        }
    }

    /// Memory telemetry of a chip; the output of a failing call is
    /// zeroed and must be discarded by the mapping layer.
    pub fn memory_info(&self, card_id: u32, chip_idx: u32) -> (r: (i32, MemoryInfo))
        requires
            inv_wf(*self),
        ensures
            r.0 == chip_query_status(*self, card_id, chip_idx),
            status_documented(r.0),
            r.0 == STATUS_OK ==> r.1 == card_chips(*self, card_id)[chip_idx as int].mem,
    {
        let zero = MemoryInfo { memory_size: 0, memory_available: 0, frequency: 0, utilization_rate: 0 };
        match self.find_card(card_id) {
            None => (STATUS_NOT_FOUND, zero),
            Some(j) => {
                proof {
                    lemma_card_index_agrees(*self, card_id, j as int);
                }
                if (chip_idx as usize) < self.cards[j].chips.len() {
                    (STATUS_OK, self.cards[j].chips[chip_idx as usize].mem)
                } else {
                    (STATUS_NOT_FOUND, zero)
                }
            },
        }
    }

    /// HBM telemetry of a chip; only compute chips carry HBM.  The
    /// output of a failing call is zeroed and must be discarded by the
    /// mapping layer.
    pub fn hbm_info(&self, card_id: u32, chip_idx: u32) -> (r: (i32, HbmInfo))
        requires
            inv_wf(*self),
        ensures
            r.0 == hbm_query_status(*self, card_id, chip_idx),
            status_documented(r.0),
            r.0 == STATUS_OK ==> r.1 == card_chips(*self, card_id)[chip_idx as int].hbm,
    {
        let zero = HbmInfo {
            memory_size: 0,
            frequency: 0,
            memory_usage: 0,
            temperature: 0,
            bandwidth_util_rate: 0,
        };
        match self.find_card(card_id) {
            None => (STATUS_NOT_FOUND, zero),
            Some(j) => {
                proof {
                    lemma_card_index_agrees(*self, card_id, j as int);
                }
                if (chip_idx as usize) < self.cards[j].chips.len() {
                    let chip = &self.cards[j].chips[chip_idx as usize];
                    if chip.unit_raw == RAW_UNIT_NPU {
                        (STATUS_OK, chip.hbm)
                    } else {
                        (STATUS_INVALID_PARAMETER, zero)
                    }
                } else {
                    (STATUS_NOT_FOUND, zero)
                }
            },
        }
    }

    /// Create a virtual chip from its wire request.  On success the
    /// returned pair carries the actually assigned id and group and the
    /// slot is recorded; on failure the inventory is unchanged.
    pub fn create_vdev(&mut self, card_id: u32, chip_idx: u32, req: &CreateVChipRequest) -> (r: (
        i32,
        u32,
        u32,
    ))
        requires
            inv_wf(*old(self)),
        ensures
            inv_wf(*final(self)),
            r.0 == create_status(*old(self), card_id, chip_idx, req.vdev_id, req.vfg_id),
            status_documented(r.0),
            r.0 == STATUS_OK ==> ({
                let aid = assigned_vchip_id(*old(self), card_id, chip_idx, req.vdev_id);
                let ag = assigned_group_id(req.vfg_id);
                &&& r.1 == aid
                &&& r.2 == ag
                &&& final(self).vchips@ == old(self).vchips@.push(
                    VChipSlot { card_id, chip_idx, id: aid, group: ag },
                )
                &&& final(self).cards == old(self).cards
                &&& final(self).recover_mode == old(self).recover_mode
            }),
            r.0 != STATUS_OK ==> *final(self) == *old(self),
    {
        let j = match self.find_card(card_id) {
            None => {
                return (STATUS_NOT_FOUND, 0, 0);
            },
            Some(j) => j,
        };
        proof {
            lemma_card_index_agrees(*self, card_id, j as int);
        }
        if (chip_idx as usize) >= self.cards[j].chips.len() {
            return (STATUS_NOT_FOUND, 0, 0);
        }
        if self.cards[j].chips[chip_idx as usize].unit_raw != RAW_UNIT_NPU {
            return (STATUS_INVALID_PARAMETER, 0, 0);
        }
        let (count, max_id) = self.count_and_max(card_id, chip_idx);
        let assigned: u32 = if req.vdev_id != AUTO_SENTINEL {
            if self.id_taken(card_id, chip_idx, req.vdev_id) {
                return (STATUS_INVALID_PARAMETER, 0, 0);
            }
            req.vdev_id
        } else {
            if count > 0 && max_id >= AUTO_SENTINEL - 1 {
                return (STATUS_BUSY, 0, 0);
            }
            if count == 0 {
                0
            } else {
                max_id + 1
            }
        };
        let group: u32 = if req.vfg_id != AUTO_SENTINEL {
            req.vfg_id
        } else {
            0
        };
        proof {
            lemma_ids_le_max(self.vchips@, card_id, chip_idx);
            if req.vdev_id == AUTO_SENTINEL && count_on_chip(self.vchips@, card_id, chip_idx)
                == 0 {
                lemma_count_zero_no_slots(self.vchips@, card_id, chip_idx);
            }
            assert(!vchip_id_taken(self.vchips@, card_id, chip_idx, assigned));
        }
        let slot = VChipSlot { card_id, chip_idx, id: assigned, group };
        self.vchips.push(slot);
        proof {
            let new_vchips = self.vchips@;
            let old_vchips = old(self).vchips@;
            assert(vchips_unique(new_vchips)) by {
                assert forall|p: int, q: int|
                    0 <= p < q < new_vchips.len() && new_vchips[p].card_id
                        == new_vchips[q].card_id && new_vchips[p].chip_idx
                        == new_vchips[q].chip_idx implies new_vchips[p].id != new_vchips[q].id by {
                    if q == new_vchips.len() - 1 {
                        assert(new_vchips[p] == old_vchips[p]);
                        assert(new_vchips[q] == slot);
                    } else {
                        assert(new_vchips[p] == old_vchips[p]);
                        assert(new_vchips[q] == old_vchips[q]);
                    }
                }
            }
            assert(vchips_no_sentinel(new_vchips)) by {
                assert forall|p: int| 0 <= p < new_vchips.len() implies new_vchips[p].id
                    != AUTO_SENTINEL by {
                    if p < new_vchips.len() - 1 {
                        assert(new_vchips[p] == old_vchips[p]);
                    }
                }
            }
        }
        (STATUS_OK, assigned, group)
    }

    /// Destroy the virtual chip with the given id, or everything on the
    /// chip when the target is the sentinel.  On failure the inventory
    /// is unchanged.
    pub fn destroy_vdev(&mut self, card_id: u32, chip_idx: u32, target: u32) -> (r: i32)
        requires
            inv_wf(*old(self)),
        ensures
            inv_wf(*final(self)),
            r == destroy_status(*old(self), card_id, chip_idx, target),
            status_documented(r),
            r == STATUS_OK ==> final(self).vchips@ == (if target == AUTO_SENTINEL {
                without_chip(old(self).vchips@, card_id, chip_idx)
            } else {
                without_id(old(self).vchips@, card_id, chip_idx, target)
            }) && final(self).cards == old(self).cards && final(self).recover_mode == old(
                self,
            ).recover_mode,
            r != STATUS_OK ==> *final(self) == *old(self),
    {
        let j = match self.find_card(card_id) {
            None => {
                return STATUS_NOT_FOUND;
            },
            Some(j) => j,
        };
        proof {
            lemma_card_index_agrees(*self, card_id, j as int);
        }
        if (chip_idx as usize) >= self.cards[j].chips.len() {
            return STATUS_NOT_FOUND;
        }
        if target != AUTO_SENTINEL && !self.id_taken(card_id, chip_idx, target) {
            return STATUS_NOT_FOUND;
        }
        let mut kept: Vec<VChipSlot> = Vec::new();
        let mut p: usize = 0;
        while p < self.vchips.len()
            invariant
                p <= self.vchips@.len(),
                self.vchips@ == old(self).vchips@,
                self.cards@ == old(self).cards@,
                kept@ == (if target == AUTO_SENTINEL {
                    without_chip(self.vchips@.take(p as int), card_id, chip_idx)
                } else {
                    without_id(self.vchips@.take(p as int), card_id, chip_idx, target)
                }),
            decreases self.vchips@.len() - p,
        {
            let s = self.vchips[p];
            proof {
                assert(self.vchips@.take(p + 1int).drop_last() =~= self.vchips@.take(p as int));
                assert(self.vchips@.take(p + 1int).last() == s);
            }
            let drop_it = if target == AUTO_SENTINEL {
                s.card_id == card_id && s.chip_idx == chip_idx
            } else {
                s.card_id == card_id && s.chip_idx == chip_idx && s.id == target
            };
            if !drop_it {
                kept.push(s);
            }
            p += 1;
        }
        proof {
            assert(self.vchips@.take(self.vchips@.len() as int) =~= self.vchips@);
            if target == AUTO_SENTINEL {
                lemma_without_chip_props(self.vchips@, card_id, chip_idx);
            } else {
                lemma_without_id_props(self.vchips@, card_id, chip_idx, target);
            }
        }
        self.vchips = kept;
        STATUS_OK
    }

    /// The recover-mode flag in wire encoding.
    pub fn get_recover_raw(&self) -> (r: u32)
        ensures
            r == (if self.recover_mode {
                1u32
            } else {
                0u32
            }),
    {
        if self.recover_mode {
            1
        } else {
            0
        }
    }

    /// Write the recover-mode flag from its wire encoding; any non-zero
    /// value enables it.
    pub fn set_recover_raw(&mut self, raw: u32) -> (r: i32)
        ensures
            r == STATUS_OK,
            status_documented(r),
            final(self).recover_mode == (raw != 0),
            final(self).cards == old(self).cards,
            final(self).vchips == old(self).vchips,
            inv_wf(*old(self)) ==> inv_wf(*final(self)),
    {
        self.recover_mode = raw != 0;
        STATUS_OK
    }
}

} // verus!
