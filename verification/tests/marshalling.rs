use hw_dcmi::enums::{
    DeviceType, DieType, FrequencyType, HealthState, UnitType, UtilizationType, VChipCreateParam,
};
use hw_dcmi::wire::CreateVChipRequest;

#[test]
fn explicit_ids_round_trip() {
    let param = VChipCreateParam::SpecificId {
        template_name: "vir03_1c_8g".to_string(),
        id: 7,
        group_id: 9,
    };
    let req = CreateVChipRequest::from_param(param);
    assert_eq!(req.vdev_id, 7);
    assert_eq!(req.vfg_id, 9);
    assert_eq!(req.requested_vchip_id(), Some(7));
    assert_eq!(req.requested_group_id(), Some(9));
}

#[test]
fn auto_param_marshals_to_sentinels() {
    let param = VChipCreateParam::TemplateName("vir03_1c_8g".to_string());
    let req = CreateVChipRequest::from_param(param);
    assert_eq!(req.vdev_id, 0xffff_ffff);
    assert_eq!(req.vfg_id, 0xffff_ffff);
    assert_eq!(req.requested_vchip_id(), None);
    assert_eq!(req.requested_group_id(), None);
}

#[test]
fn long_name_truncates_to_first_32_bytes() {
    let name = "abcdefghijklmnopqrstuvwxyz0123456789abcd".to_string();
    assert!(name.len() > 32);
    let expected: Vec<u8> = name.as_bytes()[..32].to_vec();
    let param = VChipCreateParam::TemplateName(name);
    let req = CreateVChipRequest::from_param(param);
    assert_eq!(req.template_name.len(), 32);
    assert_eq!(req.template_name, expected);
    assert_eq!(req.reserved.len(), 64);
    assert!(req.reserved.iter().all(|&b| b == 0));
}

#[test]
fn short_name_is_zero_padded() {
    let param = VChipCreateParam::TemplateName("vir03_1c_8g".to_string());
    let req = CreateVChipRequest::from_param(param);
    assert_eq!(req.template_name.len(), 32);
    assert_eq!(&req.template_name[..11], "vir03_1c_8g".as_bytes());
    assert!(req.template_name[11..].iter().all(|&b| b == 0));
    assert!(req.reserved.iter().all(|&b| b == 0));
}

#[test]
fn exactly_32_byte_name_is_kept_whole() {
    let name = "abcdefghijklmnopqrstuvwxyz012345".to_string();
    assert_eq!(name.len(), 32);
    let expected: Vec<u8> = name.as_bytes().to_vec();
    let param = VChipCreateParam::TemplateName(name);
    let req = CreateVChipRequest::from_param(param);
    assert_eq!(req.template_name, expected);
}

#[test]
fn unit_type_wire_round_trip() {
    let units = [UnitType::NPU, UnitType::MCU, UnitType::CPU, UnitType::Invalid];
    for unit in units {
        assert_eq!(UnitType::from_raw_value(unit.to_raw_value()), unit);
    }
    assert_eq!(UnitType::from_raw_value(0), UnitType::NPU);
    assert_eq!(UnitType::from_raw_value(1), UnitType::MCU);
    assert_eq!(UnitType::from_raw_value(2), UnitType::CPU);
    assert_eq!(UnitType::from_raw_value(3), UnitType::Invalid);
}

#[test]
fn die_type_wire_round_trip() {
    assert_eq!(DieType::NDie.to_raw_value(), 0);
    assert_eq!(DieType::VDie.to_raw_value(), 1);
    for die in [DieType::NDie, DieType::VDie] {
        assert_eq!(DieType::from_raw_value(die.to_raw_value()), die);
    }
}

#[test]
fn device_type_wire_round_trip() {
    let devices = [
        DeviceType::DDR,
        DeviceType::SRAM,
        DeviceType::HBM,
        DeviceType::NPU,
        DeviceType::HBMRecordedSingleAddr,
        DeviceType::HBMRecordedMultiAddr,
        DeviceType::NoDevice,
    ];
    for device in devices {
        assert_eq!(DeviceType::from_raw_value(device.to_raw_value()), device);
    }
}

#[test]
fn health_state_wire_round_trip() {
    assert_eq!(HealthState::from_raw_value(0), HealthState::Normal);
    assert_eq!(HealthState::from_raw_value(1), HealthState::GeneralAlarm);
    assert_eq!(HealthState::from_raw_value(2), HealthState::ImportantAlarm);
    assert_eq!(HealthState::from_raw_value(3), HealthState::EmergencyAlarm);
    assert_eq!(
        HealthState::from_raw_value(0xffff_ffff),
        HealthState::DeviceNotFoundOrNotStarted
    );
    let states = [
        HealthState::Normal,
        HealthState::GeneralAlarm,
        HealthState::ImportantAlarm,
        HealthState::EmergencyAlarm,
        HealthState::DeviceNotFoundOrNotStarted,
    ];
    for state in states {
        assert_eq!(HealthState::from_raw_value(state.to_raw_value()), state);
    }
}

#[test]
fn frequency_type_wire_round_trip() {
    let freqs = [
        FrequencyType::DDR,
        FrequencyType::CtrlCpu,
        FrequencyType::HBM,
        FrequencyType::AICoreCurrent,
        FrequencyType::AICoreMax,
        FrequencyType::VectorCoreCurrent,
    ];
    for freq in freqs {
        assert_eq!(FrequencyType::from_raw_value(freq.to_raw_value()), freq);
    }
}

#[test]
fn utilization_type_wire_values() {
    assert_eq!(UtilizationType::Memory.to_raw_value(), 1);
    assert_eq!(UtilizationType::AICore.to_raw_value(), 2);
    assert_eq!(UtilizationType::AICpu.to_raw_value(), 3);
    assert_eq!(UtilizationType::CtrlCpu.to_raw_value(), 4);
    assert_eq!(UtilizationType::MemoryBandwidth.to_raw_value(), 5);
    assert_eq!(UtilizationType::HBM.to_raw_value(), 6);
    assert_eq!(UtilizationType::DDR.to_raw_value(), 8);
    assert_eq!(UtilizationType::HbmBandwidth.to_raw_value(), 10);
    assert_eq!(UtilizationType::VectorCore.to_raw_value(), 12);
    let utils = [
        UtilizationType::Memory,
        UtilizationType::AICore,
        UtilizationType::AICpu,
        UtilizationType::CtrlCpu,
        UtilizationType::MemoryBandwidth,
        UtilizationType::HBM,
        UtilizationType::DDR,
        UtilizationType::HbmBandwidth,
        UtilizationType::VectorCore,
    ];
    for util in utils {
        assert_eq!(UtilizationType::from_raw_value(util.to_raw_value()), util);
    }
}
