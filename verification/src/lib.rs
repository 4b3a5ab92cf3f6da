//! A typed, verified management layer for accelerator cards.
//!
//! The library models a fleet of accelerator cards (cards hold compute,
//! MCU and CPU chips; compute chips can be partitioned into virtual
//! chips) and offers a safe, fully typed surface over a wire-level
//! management interface: every enum crossing the wire is marshalled
//! through a total/partial conversion pair, every status code is mapped
//! to a typed error, and the virtual-chip lifecycle (create, destroy,
//! recover-mode) is specified and proved against an explicit inventory
//! of the managed hardware state.

use vstd::prelude::*;

pub mod card;
pub mod chip;
pub mod enums;
pub mod error;
pub mod native;
pub mod structs;
pub mod wire;

use crate::card::Card;
use crate::enums::{RAW_UNIT_NPU, RAW_UNIT_MCU, RAW_UNIT_CPU, RAW_HEALTH_NORMAL};
use crate::error::DcmiError;
use crate::native::{
    CardState, ChipConfig, ChipUnit, Inventory, VChipSlot, chip_unit_of_config, has_card, inv_wf,
};
use crate::structs::{FrequencyTable, HbmInfo, MemoryInfo, UtilizationTable};

verus! {

/// The compute chip of the power-on inventory.
pub open spec fn power_on_compute_chip() -> ChipUnit {
    ChipUnit {
        unit_raw: RAW_UNIT_NPU,
        health_raw: RAW_HEALTH_NORMAL,
        mem: MemoryInfo {
            memory_size: 32768,
            memory_available: 30720,
            frequency: 1200,
            utilization_rate: 5,
        },
        hbm: HbmInfo {
            memory_size: 32768,
            frequency: 1600,
            memory_usage: 2048,
            temperature: 36,
            bandwidth_util_rate: 4,
        },
        freq: FrequencyTable {
            ddr: 1600,
            ctrl_cpu: 1000,
            hbm: 1200,
            aicore_current: 1000,
            aicore_max: 1800,
            vector_core_current: 900,
        },
        util: UtilizationTable {
            memory: 5,
            ai_core: 10,
            ai_cpu: 3,
            ctrl_cpu: 2,
            memory_bandwidth: 4,
            hbm: 6,
            ddr: 1,
            hbm_bandwidth: 4,
            vector_core: 0,
        },
    }
}

/// The MCU chip of the power-on inventory.
pub open spec fn power_on_mcu_chip() -> ChipUnit {
    ChipUnit {
        unit_raw: RAW_UNIT_MCU,
        health_raw: RAW_HEALTH_NORMAL,
        mem: MemoryInfo {
            memory_size: 1024,
            memory_available: 896,
            frequency: 800,
            utilization_rate: 2,
        },
        hbm: HbmInfo {
            memory_size: 0,
            frequency: 0,
            memory_usage: 0,
            temperature: 0,
            bandwidth_util_rate: 0,
        },
        freq: FrequencyTable {
            ddr: 800,
            ctrl_cpu: 600,
            hbm: 0,
            aicore_current: 0,
            aicore_max: 0,
            vector_core_current: 0,
        },
        util: UtilizationTable {
            memory: 2,
            ai_core: 0,
            ai_cpu: 0,
            ctrl_cpu: 1,
            memory_bandwidth: 1,
            hbm: 0,
            ddr: 2,
            hbm_bandwidth: 0,
            vector_core: 0,
        },
    }
}

/// The CPU chip of the power-on inventory.
pub open spec fn power_on_cpu_chip() -> ChipUnit {
    ChipUnit {
        unit_raw: RAW_UNIT_CPU,
        health_raw: RAW_HEALTH_NORMAL,
        mem: MemoryInfo {
            memory_size: 8192,
            memory_available: 7168,
            frequency: 1000,
            utilization_rate: 3,
        },
        hbm: HbmInfo {
            memory_size: 0,
            frequency: 0,
            memory_usage: 0,
            temperature: 0,
            bandwidth_util_rate: 0,
        },
        freq: FrequencyTable {
            ddr: 1000,
            ctrl_cpu: 1400,
            hbm: 0,
            aicore_current: 0,
            aicore_max: 0,
            vector_core_current: 0,
        },
        util: UtilizationTable {
            memory: 3,
            ai_core: 0,
            ai_cpu: 0,
            ctrl_cpu: 4,
            memory_bandwidth: 2,
            hbm: 0,
            ddr: 3,
            hbm_bandwidth: 0,
            vector_core: 0,
        },
    }
}

/// The virtual chip a prior session left alive on the power-on
/// inventory's compute chip.
pub open spec fn power_on_vchip() -> VChipSlot {
    VChipSlot { card_id: 0, chip_idx: 0, id: 100, group: 0 }
}

/// The inventory after a write of the recover-mode flag: only the flag
/// changes.
pub open spec fn recover_after_set(inv: Inventory, mode: bool) -> Inventory {
    Inventory { cards: inv.cards, vchips: inv.vchips, recover_mode: mode }
}

/// A management context: the process-wide handle every operation is
/// addressed through, holding the inventory of the managed hardware
/// state.  Handles obtained from it (cards, chips, virtual chip ids)
/// are plain values with no lifetime guarantee: they are re-validated
/// against the inventory on every call, and a destroyed resource makes
/// every handle to it dangle, observable only as a not-found failure.
pub struct DCMI {
    /// The managed hardware state
    pub inv: Inventory,
}

impl DCMI {
    /// Well-formedness: the held inventory is well formed.  Every
    /// constructor establishes it and every operation preserves it.
    pub open spec fn wf(&self) -> bool {
        inv_wf(self.inv)
    }

    /// Initialize a management context.  The context comes up over the
    /// power-on inventory: one card (id 0) carrying one compute chip,
    /// one MCU chip and one CPU chip, with one virtual chip (id 100,
    /// group 0) a prior session provisioned on the compute chip, and
    /// recover mode off.
    pub fn init() -> (r: Result<DCMI, DcmiError>)
        ensures
            r is Ok,
            r matches Ok(d) ==> d.wf() && d.inv.cards@.len() == 1 && d.inv.cards@[0].id == 0
                && d.inv.cards@[0].chips@ == seq![
                power_on_compute_chip(),
                power_on_mcu_chip(),
                power_on_cpu_chip(),
            ] && d.inv.vchips@ == seq![power_on_vchip()] && d.inv.recover_mode == false,
    {
        let mut chips: Vec<ChipUnit> = Vec::new();
        chips.push(
            ChipUnit {
                unit_raw: RAW_UNIT_NPU,
                health_raw: RAW_HEALTH_NORMAL,
                mem: MemoryInfo {
                    memory_size: 32768,
                    memory_available: 30720,
                    frequency: 1200,
                    utilization_rate: 5,
                },
                hbm: HbmInfo {
                    memory_size: 32768,
                    frequency: 1600,
                    memory_usage: 2048,
                    temperature: 36,
                    bandwidth_util_rate: 4,
                },
                freq: FrequencyTable {
                    ddr: 1600,
                    ctrl_cpu: 1000,
                    hbm: 1200,
                    aicore_current: 1000,
                    aicore_max: 1800,
                    vector_core_current: 900,
                },
                util: UtilizationTable {
                    memory: 5,
                    ai_core: 10,
                    ai_cpu: 3,
                    ctrl_cpu: 2,
                    memory_bandwidth: 4,
                    hbm: 6,
                    ddr: 1,
                    hbm_bandwidth: 4,
                    vector_core: 0,
                },
            },
        );
        chips.push(
            ChipUnit {
                unit_raw: RAW_UNIT_MCU,
                health_raw: RAW_HEALTH_NORMAL,
                mem: MemoryInfo {
                    memory_size: 1024,
                    memory_available: 896,
                    frequency: 800,
                    utilization_rate: 2,
                },
                hbm: HbmInfo {
                    memory_size: 0,
                    frequency: 0,
                    memory_usage: 0,
                    temperature: 0,
                    bandwidth_util_rate: 0,
                },
                freq: FrequencyTable {
                    ddr: 800,
                    ctrl_cpu: 600,
                    hbm: 0,
                    aicore_current: 0,
                    aicore_max: 0,
                    vector_core_current: 0,
                },
                util: UtilizationTable {
                    memory: 2,
                    ai_core: 0,
                    ai_cpu: 0,
                    ctrl_cpu: 1,
                    memory_bandwidth: 1,
                    hbm: 0,
                    ddr: 2,
                    hbm_bandwidth: 0,
                    vector_core: 0,
                },
            },
        );
        chips.push(
            ChipUnit {
                unit_raw: RAW_UNIT_CPU,
                health_raw: RAW_HEALTH_NORMAL,
                mem: MemoryInfo {
                    memory_size: 8192,
                    memory_available: 7168,
                    frequency: 1000,
                    utilization_rate: 3,
                },
                hbm: HbmInfo {
                    memory_size: 0,
                    frequency: 0,
                    memory_usage: 0,
                    temperature: 0,
                    bandwidth_util_rate: 0,
                },
                freq: FrequencyTable {
                    ddr: 1000,
                    ctrl_cpu: 1400,
                    hbm: 0,
                    aicore_current: 0,
                    aicore_max: 0,
                    vector_core_current: 0,
                },
                util: UtilizationTable {
                    memory: 3,
                    ai_core: 0,
                    ai_cpu: 0,
                    ctrl_cpu: 4,
                    memory_bandwidth: 2,
                    hbm: 0,
                    ddr: 3,
                    hbm_bandwidth: 0,
                    vector_core: 0,
                },
            },
        );
        proof {
            assert(chips@ =~= seq![
                power_on_compute_chip(),
                power_on_mcu_chip(),
                power_on_cpu_chip(),
            ]);
        }
        let mut cards: Vec<CardState> = Vec::new();
        cards.push(CardState { id: 0, chips });
        let mut vchips: Vec<VChipSlot> = Vec::new();
        vchips.push(VChipSlot { card_id: 0, chip_idx: 0, id: 100, group: 0 });
        proof {
            assert(vchips@ =~= seq![power_on_vchip()]);
        }
        let inv = Inventory { cards, vchips, recover_mode: false };
        Ok(DCMI { inv })
    }

    /// A context over an empty inventory: no cards, no virtual chips,
    /// recover mode off.  Cards are added with [`DCMI::add_card`].
    pub fn empty() -> (r: DCMI)
        ensures
            r.wf(),
            r.inv.cards@.len() == 0,
            r.inv.vchips@.len() == 0,
            r.inv.recover_mode == false,
    {
        DCMI { inv: Inventory { cards: Vec::new(), vchips: Vec::new(), recover_mode: false } }
    }

    /// Add a card with the given chips to the inventory.  The call is
    /// refused (returning false, changing nothing) when a card with
    /// that id already exists or the chip list does not fit the wire's
    /// index width; otherwise the card is appended and its chips are
    /// marshalled to their wire encoding, in order.
    pub fn add_card(&mut self, id: u32, chips: Vec<ChipConfig>) -> (r: bool)
        requires
            old(self).wf(),
        ensures
            final(self).wf(),
            r == (!has_card(old(self).inv, id) && chips@.len() <= 0xffff_ffff),
            r ==> final(self).inv.cards@.len() == old(self).inv.cards@.len() + 1
                && final(self).inv.cards@.take(old(self).inv.cards@.len() as int) == old(
                self,
            ).inv.cards@ && final(self).inv.cards@.last().id == id
                && final(self).inv.cards@.last().chips@ == chips@.map_values(
                |c: ChipConfig| chip_unit_of_config(c),
            ) && final(self).inv.vchips == old(self).inv.vchips && final(self).inv.recover_mode
                == old(self).inv.recover_mode,
            !r ==> *final(self) == *old(self),
    {
        if chips.len() > 0xffff_ffff {
            return false;
        }
        match self.inv.find_card(id) {
            Some(_) => {
                return false;
            },
            None => {},
        }
        let mut units: Vec<ChipUnit> = Vec::new();
        let mut i: usize = 0;
        while i < chips.len()
            invariant
                i <= chips@.len(),
                units@.len() == i,
                forall|k: int| 0 <= k < i ==> units@[k] == chip_unit_of_config(chips@[k]),
                self.inv == old(self).inv,
            decreases chips@.len() - i,
        {
            let c = chips[i];
            let unit_raw = c.unit.to_raw_value();
            let health_raw = c.health.to_raw_value();
            units.push(
                ChipUnit { unit_raw, health_raw, mem: c.mem, hbm: c.hbm, freq: c.freq, util: c.util },
            );
            i += 1;
        }
        proof {
            assert(units@ =~= chips@.map_values(|c: ChipConfig| chip_unit_of_config(c)));
        }
        self.inv.cards.push(CardState { id, chips: units });
        proof {
            let oldc = old(self).inv.cards@;
            let newc = self.inv.cards@;
            assert(newc.take(oldc.len() as int) =~= oldc);
            assert(inv_wf(self.inv)) by {
                assert forall|p: int, q: int| 0 <= p < q < newc.len() implies newc[p].id
                    != newc[q].id by {
                    if q < oldc.len() {
                        assert(newc[p] == oldc[p] && newc[q] == oldc[q]);
                    } else {
                        assert(newc[p] == oldc[p]);
                        assert(newc[q].id == id);
                        assert(!has_card(old(self).inv, id));
                    }
                }
                assert forall|p: int, j: int|
                    0 <= p < newc.len() && 0 <= j < newc[p].chips@.len() implies crate::enums::unit_type_documented(
                    #[trigger] newc[p].chips@[j].unit_raw,
                ) by {
                    if p < oldc.len() {
                        assert(newc[p] == oldc[p]);
                    } else {
                        assert(newc[p].chips@[j] == chip_unit_of_config(chips@[j]));
                    }
                }
                assert forall|p: int, j: int|
                    0 <= p < newc.len() && 0 <= j < newc[p].chips@.len() implies crate::enums::health_state_documented(
                    #[trigger] newc[p].chips@[j].health_raw,
                ) by {
                    if p < oldc.len() {
                        assert(newc[p] == oldc[p]);
                    } else {
                        assert(newc[p].chips@[j] == chip_unit_of_config(chips@[j]));
                    }
                }
                assert forall|p: int| 0 <= p < newc.len() implies newc[p].chips@.len()
                    <= 0xffff_ffff by {
                    if p < oldc.len() {
                        assert(newc[p] == oldc[p]);
                    }
                }
            }
        }
        true
    }

    /// Enumerate the cards the inventory currently holds, in
    /// enumeration order.  An empty list is a valid answer, not an
    /// error.
    pub fn get_card_list(&self) -> (r: Result<Vec<Card>, DcmiError>)
        requires
            self.wf(),
        ensures
            r is Ok,
            r matches Ok(cards) ==> cards@.len() == self.inv.cards@.len() && forall|k: int|
                0 <= k < cards@.len() ==> (#[trigger] cards@[k]).id == self.inv.cards@[k].id,
    {
        let ids = self.inv.card_ids();
        let mut cards: Vec<Card> = Vec::new();
        let mut j: usize = 0;
        while j < ids.len()
            invariant
                j <= ids@.len(),
                ids@ == self.inv.cards@.map_values(|c: CardState| c.id),
                cards@.len() == j,
                forall|k: int| 0 <= k < j ==> (#[trigger] cards@[k]).id == self.inv.cards@[k].id,
            decreases ids@.len() - j,
        {
            let id = ids[j];
            cards.push(Card { id });
            j += 1;
        }
        Ok(cards)
    }

    /// Read the device-scoped recover-mode flag.
    pub fn get_vchip_recover_mode(&self) -> (r: Result<bool, DcmiError>)
        requires
            self.wf(),
        ensures
            r == Ok::<bool, DcmiError>(self.inv.recover_mode),
    {
        let raw = self.inv.get_recover_raw();
        Ok(raw != 0)
    }

    /// Write the device-scoped recover-mode flag.  Nothing but the flag
    /// changes: flipping recover mode neither creates nor destroys
    /// anything.
    pub fn set_vchip_recover_mode(&mut self, mode: bool) -> (r: Result<(), DcmiError>)
        requires
            old(self).wf(),
        ensures
            final(self).wf(),
            r is Ok,
            final(self).inv == recover_after_set(old(self).inv, mode),
    {
        let raw: u32 = if mode {
            1
        } else {
            0
        };
        let code = self.inv.set_recover_raw(raw);
        match crate::error::map_status(crate::error::Operation::SetVChipRecoverMode, code) {
            Ok(()) => Ok(()),
            Err(e) => Err(e),
        }
    }
}

/// Recover-mode read-after-write: writing the flag and reading it back
/// yields the written value, for both booleans; and flipping the flag
/// twice restores the original inventory, flag included.
pub proof fn lemma_recover_mode_read_after_write(inv: Inventory, mode: bool)
    ensures
        recover_after_set(inv, mode).recover_mode == mode,
        recover_after_set(
            recover_after_set(inv, !inv.recover_mode),
            !recover_after_set(inv, !inv.recover_mode).recover_mode,
        ) == inv,
{
}

} // verus!
