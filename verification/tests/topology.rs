use hw_dcmi::enums::{FrequencyType, HealthState, UnitType, UtilizationType};
use hw_dcmi::error::ErrorCategory;
use hw_dcmi::native::ChipConfig;
use hw_dcmi::structs::{FrequencyTable, HbmInfo, MemoryInfo, UtilizationTable};
use hw_dcmi::DCMI;

fn mem(size: u64) -> MemoryInfo {
    MemoryInfo {
        memory_size: size,
        memory_available: size / 2,
        frequency: 1200,
        utilization_rate: 10,
    }
}

fn hbm(size: u64) -> HbmInfo {
    HbmInfo {
        memory_size: size,
        frequency: 1600,
        memory_usage: size / 4,
        temperature: 40,
        bandwidth_util_rate: 7,
    }
}

fn freq() -> FrequencyTable {
    FrequencyTable {
        ddr: 1600,
        ctrl_cpu: 1000,
        hbm: 1200,
        aicore_current: 950,
        aicore_max: 1800,
        vector_core_current: 900,
    }
}

fn util() -> UtilizationTable {
    UtilizationTable {
        memory: 11,
        ai_core: 22,
        ai_cpu: 33,
        ctrl_cpu: 44,
        memory_bandwidth: 55,
        hbm: 66,
        ddr: 77,
        hbm_bandwidth: 88,
        vector_core: 99,
    }
}

fn config(unit: UnitType) -> ChipConfig {
    ChipConfig {
        unit,
        health: HealthState::Normal,
        mem: mem(16384),
        hbm: hbm(16384),
        freq: freq(),
        util: util(),
    }
}

#[test]
fn chips_are_partitioned_by_unit_type() {
    let mut dcmi = DCMI::empty();
    assert!(dcmi.add_card(
        5,
        vec![
            config(UnitType::NPU),
            config(UnitType::MCU),
            config(UnitType::NPU),
            config(UnitType::Invalid),
            config(UnitType::CPU),
        ],
    ));
    let cards = dcmi.get_card_list().unwrap();
    assert_eq!(cards.len(), 1);
    let card = cards.first().unwrap();
    assert_eq!(card.id, 5);
    let (compute, mcu, cpu) = card.get_chips(&dcmi).unwrap();
    let compute_idx: Vec<u32> = compute.iter().map(|c| c.idx).collect();
    assert_eq!(compute_idx, vec![0, 2]);
    for chip in &compute {
        assert_eq!(chip.unit_type, UnitType::NPU);
        assert_eq!(chip.card_id, 5);
    }
    let mcu = mcu.unwrap();
    assert_eq!(mcu.idx, 1);
    assert_eq!(mcu.unit_type, UnitType::MCU);
    let cpu = cpu.unwrap();
    assert_eq!(cpu.idx, 4);
    assert_eq!(cpu.unit_type, UnitType::CPU);
    // no index appears in two parts; the invalid chip is excluded
    assert!(!compute_idx.contains(&mcu.idx));
    assert!(!compute_idx.contains(&cpu.idx));
    assert_ne!(mcu.idx, cpu.idx);
    assert!(!compute_idx.contains(&3));
    assert_ne!(mcu.idx, 3);
    assert_ne!(cpu.idx, 3);
}

#[test]
fn second_mcu_chip_is_a_contract_violation() {
    let mut dcmi = DCMI::empty();
    assert!(dcmi.add_card(1, vec![config(UnitType::MCU), config(UnitType::MCU)]));
    let cards = dcmi.get_card_list().unwrap();
    let err = cards.first().unwrap().get_chips(&dcmi).unwrap_err();
    assert_eq!(err.category, ErrorCategory::Internal);
}

#[test]
fn unknown_card_is_not_found() {
    let dcmi = DCMI::empty();
    let card = hw_dcmi::card::Card { id: 42 };
    let err = card.get_chips(&dcmi).unwrap_err();
    assert_eq!(err.category, ErrorCategory::NotFound);
}

#[test]
fn duplicate_card_id_is_refused() {
    let mut dcmi = DCMI::empty();
    assert!(dcmi.add_card(3, vec![config(UnitType::NPU)]));
    assert!(!dcmi.add_card(3, vec![config(UnitType::NPU)]));
    assert_eq!(dcmi.get_card_list().unwrap().len(), 1);
}

#[test]
fn telemetry_reads_back_the_inventory_values() {
    let mut dcmi = DCMI::empty();
    assert!(dcmi.add_card(8, vec![config(UnitType::NPU), config(UnitType::MCU)]));
    let cards = dcmi.get_card_list().unwrap();
    let (compute, mcu, _) = cards.first().unwrap().get_chips(&dcmi).unwrap();
    let npu = compute.first().unwrap();
    assert_eq!(npu.get_memory_info(&dcmi).unwrap(), mem(16384));
    assert_eq!(npu.get_hbm_info(&dcmi).unwrap(), hbm(16384));
    assert_eq!(npu.get_health(&dcmi).unwrap(), HealthState::Normal);
    // HBM telemetry exists only on compute chips
    let err = mcu.unwrap().get_hbm_info(&dcmi).unwrap_err();
    assert_eq!(err.category, ErrorCategory::InvalidParameter);
}

#[test]
fn frequency_reads_back_the_selected_entry() {
    let mut dcmi = DCMI::empty();
    assert!(dcmi.add_card(2, vec![config(UnitType::NPU)]));
    let cards = dcmi.get_card_list().unwrap();
    let (compute, _, _) = cards.first().unwrap().get_chips(&dcmi).unwrap();
    let npu = compute.first().unwrap();
    assert_eq!(npu.get_frequency(&dcmi, FrequencyType::DDR).unwrap(), 1600);
    assert_eq!(npu.get_frequency(&dcmi, FrequencyType::CtrlCpu).unwrap(), 1000);
    assert_eq!(npu.get_frequency(&dcmi, FrequencyType::HBM).unwrap(), 1200);
    assert_eq!(
        npu.get_frequency(&dcmi, FrequencyType::AICoreCurrent).unwrap(),
        950
    );
    assert_eq!(npu.get_frequency(&dcmi, FrequencyType::AICoreMax).unwrap(), 1800);
    assert_eq!(
        npu.get_frequency(&dcmi, FrequencyType::VectorCoreCurrent).unwrap(),
        900
    );
}

#[test]
fn utilization_reads_back_the_selected_entry() {
    let mut dcmi = DCMI::empty();
    assert!(dcmi.add_card(2, vec![config(UnitType::NPU)]));
    let cards = dcmi.get_card_list().unwrap();
    let (compute, _, _) = cards.first().unwrap().get_chips(&dcmi).unwrap();
    let npu = compute.first().unwrap();
    let expected = [
        (UtilizationType::Memory, 11),
        (UtilizationType::AICore, 22),
        (UtilizationType::AICpu, 33),
        (UtilizationType::CtrlCpu, 44),
        (UtilizationType::MemoryBandwidth, 55),
        (UtilizationType::HBM, 66),
        (UtilizationType::DDR, 77),
        (UtilizationType::HbmBandwidth, 88),
        (UtilizationType::VectorCore, 99),
    ];
    for (util_type, value) in expected {
        assert_eq!(npu.get_utilization_rate(&dcmi, util_type).unwrap(), value);
    }
}

#[test]
fn telemetry_on_unknown_chip_is_not_found() {
    let dcmi = DCMI::empty();
    let chip = hw_dcmi::chip::Chip {
        card_id: 9,
        idx: 0,
        unit_type: UnitType::NPU,
    };
    assert_eq!(
        chip.get_memory_info(&dcmi).unwrap_err().category,
        ErrorCategory::NotFound
    );
    assert_eq!(
        chip.get_frequency(&dcmi, FrequencyType::DDR).unwrap_err().category,
        ErrorCategory::NotFound
    );
    assert_eq!(
        chip.get_utilization_rate(&dcmi, UtilizationType::Memory)
            .unwrap_err()
            .category,
        ErrorCategory::NotFound
    );
    assert_eq!(
        chip.get_health(&dcmi).unwrap_err().category,
        ErrorCategory::NotFound
    );
}
