use hw_dcmi::enums::{DestroyVChipMode, UnitType};
use hw_dcmi::error::ErrorCategory;
use hw_dcmi::structs::{SingleDeviceId, VChipRes};
use hw_dcmi::DCMI;

fn first_compute_chip(dcmi: &DCMI) -> hw_dcmi::chip::Chip {
    let cards = dcmi.get_card_list().unwrap();
    let card = cards.first().unwrap();
    let (chips, _, _) = card.get_chips(dcmi).unwrap();
    *chips.first().unwrap()
}

#[test]
fn auto_create_assigns_successor_of_highest_id() {
    // the power-on inventory already holds virtual chip id 100
    let mut dcmi = DCMI::init().unwrap();
    let chip = first_compute_chip(&dcmi);
    let out = chip
        .create_virtual_chip(&mut dcmi, VChipRes::new("vir03_1c_8g".to_string()))
        .unwrap();
    assert_eq!(out.vchip_id, 101);
    assert_eq!(out.vfg_id, 0);
}

#[test]
fn explicit_ids_are_honored() {
    let mut dcmi = DCMI::init().unwrap();
    let chip = first_compute_chip(&dcmi);
    let res = VChipRes::with_ids("vir03_1c_8g".to_string(), 7, 9);
    let out = chip.create_virtual_chip(&mut dcmi, res).unwrap();
    assert_eq!(out.vchip_id, 7);
    assert_eq!(out.vfg_id, 9);
}

#[test]
fn id_collision_is_an_invalid_parameter() {
    let mut dcmi = DCMI::init().unwrap();
    let chip = first_compute_chip(&dcmi);
    let res = VChipRes::with_ids("vir03_1c_8g".to_string(), 100, 0);
    let err = chip.create_virtual_chip(&mut dcmi, res).unwrap_err();
    assert_eq!(err.category, ErrorCategory::InvalidParameter);
}

#[test]
fn create_on_non_compute_chip_is_refused() {
    let mut dcmi = DCMI::init().unwrap();
    let cards = dcmi.get_card_list().unwrap();
    let (_, mcu, _) = cards.first().unwrap().get_chips(&dcmi).unwrap();
    let mcu = mcu.unwrap();
    assert_eq!(mcu.unit_type, UnitType::MCU);
    let err = mcu
        .create_virtual_chip(&mut dcmi, VChipRes::new("vir03_1c_8g".to_string()))
        .unwrap_err();
    assert_eq!(err.category, ErrorCategory::InvalidParameter);
}

#[test]
fn create_on_unknown_chip_is_not_found() {
    let mut dcmi = DCMI::init().unwrap();
    let chip = hw_dcmi::chip::Chip {
        card_id: 0,
        idx: 99,
        unit_type: UnitType::NPU,
    };
    let err = chip
        .create_virtual_chip(&mut dcmi, VChipRes::new("vir03_1c_8g".to_string()))
        .unwrap_err();
    assert_eq!(err.category, ErrorCategory::NotFound);
}

#[test]
fn exhausted_id_space_is_busy() {
    let mut dcmi = DCMI::init().unwrap();
    let chip = first_compute_chip(&dcmi);
    let res = VChipRes::with_ids("vir03_1c_8g".to_string(), 0xffff_fffe, 0);
    chip.create_virtual_chip(&mut dcmi, res).unwrap();
    let err = chip
        .create_virtual_chip(&mut dcmi, VChipRes::new("vir03_1c_8g".to_string()))
        .unwrap_err();
    assert_eq!(err.category, ErrorCategory::Busy);
}

#[test]
fn destroy_is_not_idempotent() {
    // destroy invalidation: once an id is destroyed, destroying it again
    // reports not-found, not success
    let mut dcmi = DCMI::init().unwrap();
    let chip = first_compute_chip(&dcmi);
    let mode = DestroyVChipMode::SingleDevice(SingleDeviceId::new(100));
    chip.destroy_virtual_chip(&mut dcmi, mode).unwrap();
    let err = chip.destroy_virtual_chip(&mut dcmi, mode).unwrap_err();
    assert_eq!(err.category, ErrorCategory::NotFound);
}

#[test]
fn destroy_unknown_id_is_not_found() {
    let mut dcmi = DCMI::init().unwrap();
    let chip = first_compute_chip(&dcmi);
    let mode = DestroyVChipMode::SingleDevice(SingleDeviceId::new(77));
    let err = chip.destroy_virtual_chip(&mut dcmi, mode).unwrap_err();
    assert_eq!(err.category, ErrorCategory::NotFound);
}

#[test]
fn destroy_sentinel_id_is_refused() {
    let mut dcmi = DCMI::init().unwrap();
    let chip = first_compute_chip(&dcmi);
    let mode = DestroyVChipMode::SingleDevice(SingleDeviceId::new(0xffff_ffff));
    let err = chip.destroy_virtual_chip(&mut dcmi, mode).unwrap_err();
    assert_eq!(err.category, ErrorCategory::InvalidParameter);
}

#[test]
fn destroy_all_succeeds_even_when_nothing_is_alive() {
    let mut dcmi = DCMI::init().unwrap();
    let chip = first_compute_chip(&dcmi);
    chip.destroy_virtual_chip(&mut dcmi, DestroyVChipMode::AllDevices)
        .unwrap();
    // the chip is unpartitioned now; destroy-all is still a success
    chip.destroy_virtual_chip(&mut dcmi, DestroyVChipMode::AllDevices)
        .unwrap();
    // and the next auto assignment starts over from zero
    let out = chip
        .create_virtual_chip(&mut dcmi, VChipRes::new("vir03_1c_8g".to_string()))
        .unwrap();
    assert_eq!(out.vchip_id, 0);
}

#[test]
fn recover_mode_read_after_write_holds_for_both_values() {
    let mut dcmi = DCMI::init().unwrap();
    for value in [true, false] {
        dcmi.set_vchip_recover_mode(value).unwrap();
        assert_eq!(dcmi.get_vchip_recover_mode().unwrap(), value);
    }
    // flipping twice restores the original value
    let original = dcmi.get_vchip_recover_mode().unwrap();
    dcmi.set_vchip_recover_mode(!original).unwrap();
    dcmi.set_vchip_recover_mode(!dcmi.get_vchip_recover_mode().unwrap())
        .unwrap();
    assert_eq!(dcmi.get_vchip_recover_mode().unwrap(), original);
}
