//! Cards and topology discovery.
//!
//! A card handle is a plain value carrying only the card id; it caches
//! no topology.  Discovery enumerates the chips under a card, queries
//! each chip's unit type through the marshalling layer and partitions
//! the chips by classification: compute chips in enumeration order, at
//! most one MCU chip, at most one CPU chip, invalid units excluded.

use vstd::prelude::*;
use crate::DCMI;
use crate::chip::Chip;
use crate::enums::{UnitType, RAW_UNIT_NPU, RAW_UNIT_MCU, RAW_UNIT_CPU};
use crate::error::{
    DcmiError, Operation, error_of_status, STATUS_NOT_FOUND, STATUS_INTERNAL,
};
use crate::native::{ChipUnit, card_chips, has_card, lemma_card_index_agrees};

verus! {

/// The indices (in enumeration order) of the chips of the given
/// wire-encoded unit type.
pub open spec fn indices_with(chips: Seq<ChipUnit>, raw: u32) -> Seq<u32>
    decreases chips.len(),
{
    if chips.len() == 0 {
        Seq::empty()
    } else {
        let rest = indices_with(chips.drop_last(), raw);
        if chips.last().unit_raw == raw {
            rest.push((chips.len() - 1) as u32)
        } else {
            rest
        }
    }
}

/// Every classified index points at a chip of the class: membership in
/// `indices_with` means the index is in range and the chip there has
/// exactly that unit type.
pub proof fn lemma_indices_with_sound(chips: Seq<ChipUnit>, raw: u32)
    requires
        chips.len() <= 0x1_0000_0000,
    ensures
        forall|idx: u32|
            #[trigger] indices_with(chips, raw).contains(idx) ==> idx < chips.len() && chips[
                idx as int
            ].unit_raw == raw,
    decreases chips.len(),
{
    if chips.len() > 0 {
        lemma_indices_with_sound(chips.drop_last(), raw);
        let rest = indices_with(chips.drop_last(), raw);
        let whole = indices_with(chips, raw);
        assert forall|idx: u32| #[trigger] whole.contains(idx) implies idx < chips.len() && chips[
            idx as int
        ].unit_raw == raw by {
            let p = choose|p: int| 0 <= p < whole.len() && whole[p] == idx;
            if p < rest.len() {
                assert(rest[p] == idx);
                assert(rest.contains(idx));
                assert(chips.drop_last()[idx as int] == chips[idx as int]);
            } else {
                assert(chips.last().unit_raw == raw);
                assert(whole[p] == (chips.len() - 1) as u32);
                assert(idx as int == chips.len() - 1);
                assert(chips[idx as int] == chips.last());
            }
        }
    }
}

/// Classifying a longer prefix never loses classified chips.
pub proof fn lemma_indices_with_take_le(chips: Seq<ChipUnit>, n: int, raw: u32)
    requires
        0 <= n <= chips.len(),
    ensures
        indices_with(chips.take(n), raw).len() <= indices_with(chips, raw).len(),
    decreases chips.len() - n,
{
    if n == chips.len() {
        assert(chips.take(n) =~= chips);
    } else {
        lemma_indices_with_take_le(chips, n + 1, raw);
        assert(chips.take(n + 1).drop_last() =~= chips.take(n));
    }
}

/// Topology partition: classification by unit type partitions the chip
/// indices of a card — no index is classified into two of the three
/// result parts, and every classified index names a chip of exactly
/// its class.
pub proof fn lemma_topology_partition(chips: Seq<ChipUnit>)
    requires
        chips.len() <= 0x1_0000_0000,
    ensures
        forall|idx: u32|
            !(#[trigger] indices_with(chips, RAW_UNIT_NPU).contains(idx) && indices_with(
                chips,
                RAW_UNIT_MCU,
            ).contains(idx)),
        forall|idx: u32|
            !(#[trigger] indices_with(chips, RAW_UNIT_NPU).contains(idx) && indices_with(
                chips,
                RAW_UNIT_CPU,
            ).contains(idx)),
        forall|idx: u32|
            !(#[trigger] indices_with(chips, RAW_UNIT_MCU).contains(idx) && indices_with(
                chips,
                RAW_UNIT_CPU,
            ).contains(idx)),
{
    lemma_indices_with_sound(chips, RAW_UNIT_NPU);
    lemma_indices_with_sound(chips, RAW_UNIT_MCU);
    lemma_indices_with_sound(chips, RAW_UNIT_CPU);
}

/// A card of the managed fleet, addressed by id.  Handles are obtained
/// from topology discovery, never constructed by callers; they carry no
/// validity guarantee beyond the next topology-changing operation.
#[derive(Debug, PartialEq, Eq, Clone, Copy, Structural)]
pub struct Card {
    /// The card id
    pub id: u32,
}

impl Card {
    /// Enumerate and classify the chips under this card: compute chips
    /// in enumeration order, at most one MCU chip, at most one CPU
    /// chip; chips with an invalid unit type are excluded.  Observing a
    /// second MCU or CPU chip is a contract violation and fails the
    /// whole call; partial topology is never returned.
    pub fn get_chips(&self, ctx: &DCMI) -> (r: Result<
        (Vec<Chip>, Option<Chip>, Option<Chip>),
        DcmiError,
    >)
        requires
            ctx.wf(),
        ensures
            r is Ok <==> has_card(ctx.inv, self.id) && indices_with(
                card_chips(ctx.inv, self.id),
                RAW_UNIT_MCU,
            ).len() <= 1 && indices_with(card_chips(ctx.inv, self.id), RAW_UNIT_CPU).len() <= 1,
            r matches Err(e) ==> e == (if !has_card(ctx.inv, self.id) {
                error_of_status(Operation::GetChips, STATUS_NOT_FOUND)
            } else {
                error_of_status(Operation::GetChips, STATUS_INTERNAL)
            }),
            r matches Ok(parts) ==> ({
                let chips = card_chips(ctx.inv, self.id);
                let npus = indices_with(chips, RAW_UNIT_NPU);
                let mcus = indices_with(chips, RAW_UNIT_MCU);
                let cpus = indices_with(chips, RAW_UNIT_CPU);
                &&& parts.0@.len() == npus.len()
                &&& forall|k: int|
                    0 <= k < npus.len() ==> parts.0@[k] == (Chip {
                        card_id: self.id,
                        idx: npus[k],
                        unit_type: UnitType::NPU,
                    })
                &&& (parts.1 is Some <==> mcus.len() == 1)
                &&& (parts.1 matches Some(c) ==> c == (Chip {
                    card_id: self.id,
                    idx: mcus[0],
                    unit_type: UnitType::MCU,
                }))
                &&& (parts.2 is Some <==> cpus.len() == 1)
                &&& (parts.2 matches Some(c) ==> c == (Chip {
                    card_id: self.id,
                    idx: cpus[0],
                    unit_type: UnitType::CPU,
                }))
            }),
    {
        let j = match ctx.inv.find_card(self.id) {
            None => {
                return Err(
                    DcmiError {
                        op: Operation::GetChips,
                        code: STATUS_NOT_FOUND,
                        category: crate::error::ErrorCategory::NotFound,
                    },
                );
            },
            Some(j) => j,
        };
        proof {
            lemma_card_index_agrees(ctx.inv, self.id, j as int);
        }
        let ghost chips_seq = ctx.inv.cards@[j as int].chips@;
        proof {
            assert(chips_seq == card_chips(ctx.inv, self.id));
            assert(chips_seq.len() <= 0xffff_ffff);
        }
        let chip_total = ctx.inv.cards[j].chips.len();
        let mut compute: Vec<Chip> = Vec::new();
        let mut mcu: Option<Chip> = None;
        let mut cpu: Option<Chip> = None;
        let mut i: usize = 0;
        while i < chip_total
            invariant
                ctx.wf(),
                has_card(ctx.inv, self.id),
                0 <= j < ctx.inv.cards@.len(),
                ctx.inv.cards@[j as int].id == self.id,
                chips_seq == ctx.inv.cards@[j as int].chips@,
                chips_seq == card_chips(ctx.inv, self.id),
                chip_total == chips_seq.len(),
                chips_seq.len() <= 0xffff_ffff,
                i <= chip_total,
                compute@.len() == indices_with(chips_seq.take(i as int), RAW_UNIT_NPU).len(),
                forall|k: int|
                    0 <= k < compute@.len() ==> compute@[k] == (Chip {
                        card_id: self.id,
                        idx: indices_with(chips_seq.take(i as int), RAW_UNIT_NPU)[k],
                        unit_type: UnitType::NPU,
                    }),
                indices_with(chips_seq.take(i as int), RAW_UNIT_MCU).len() <= 1,
                mcu is Some <==> indices_with(chips_seq.take(i as int), RAW_UNIT_MCU).len() == 1,
                mcu matches Some(c) ==> c == (Chip {
                    card_id: self.id,
                    idx: indices_with(chips_seq.take(i as int), RAW_UNIT_MCU)[0],
                    unit_type: UnitType::MCU,
                }),
                indices_with(chips_seq.take(i as int), RAW_UNIT_CPU).len() <= 1,
                cpu is Some <==> indices_with(chips_seq.take(i as int), RAW_UNIT_CPU).len() == 1,
                cpu matches Some(c) ==> c == (Chip {
                    card_id: self.id,
                    idx: indices_with(chips_seq.take(i as int), RAW_UNIT_CPU)[0],
                    unit_type: UnitType::CPU,
                }),
            decreases chip_total - i,
        {
            proof {
                assert(chips_seq.take(i + 1int).drop_last() =~= chips_seq.take(i as int));
                assert(chips_seq.take(i + 1int).last() == chips_seq[i as int]);
            }
            let raw = ctx.inv.cards[j].chips[i].unit_raw;
            let unit = UnitType::from_raw_value(raw);
            match unit {
                UnitType::NPU => {
                    compute.push(Chip { card_id: self.id, idx: i as u32, unit_type: UnitType::NPU });
                },
                UnitType::MCU => {
                    if mcu.is_some() {
                        proof {
                            lemma_indices_with_take_le(chips_seq, i + 1, RAW_UNIT_MCU);
                        }
                        return Err(
                            DcmiError {
                                op: Operation::GetChips,
                                code: STATUS_INTERNAL,
                                category: crate::error::ErrorCategory::Internal,
                            },
                        );
                    }
                    mcu = Some(Chip { card_id: self.id, idx: i as u32, unit_type: UnitType::MCU });
                },
                UnitType::CPU => {
                    if cpu.is_some() {
                        proof {
                            lemma_indices_with_take_le(chips_seq, i + 1, RAW_UNIT_CPU);
                        }
                        return Err(
                            DcmiError {
                                op: Operation::GetChips,
                                code: STATUS_INTERNAL,
                                category: crate::error::ErrorCategory::Internal,
                            },
                        );
                    }
                    cpu = Some(Chip { card_id: self.id, idx: i as u32, unit_type: UnitType::CPU });
                },
                UnitType::Invalid => {},
            }
            i += 1;
        }
        proof {
            assert(chips_seq.take(chips_seq.len() as int) =~= chips_seq);
        }
        Ok((compute, mcu, cpu))
    }
}

} // verus!
