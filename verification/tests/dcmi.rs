use hw_dcmi::enums::DestroyVChipMode;
use hw_dcmi::structs::{SingleDeviceId, VChipRes};
use hw_dcmi::DCMI;
use std::ops::Not;

#[test]
fn test_get_card_list() {
    let dcmi = DCMI::init().unwrap();
    let card_list = dcmi.get_card_list().unwrap();
    println!("card num: {}, card list: {:?}", card_list.len(), card_list);
}

#[test]
fn test_get_memory_info() {
    let dcmi = DCMI::init().unwrap();
    let card_list = dcmi.get_card_list().unwrap();
    for card in card_list {
        let (chips, mcu_chip, cpu_chip) = card.get_chips(&dcmi).unwrap();
        println!(
            "chips: {:?}, mcu_chip: {:?}, cpu_chip: {:?}",
            chips, mcu_chip, cpu_chip
        );
        for chip in chips {
            let memory_info = chip.get_memory_info(&dcmi).unwrap();
            println!("chip memory info: {:?}", memory_info);
        }
    }
}

#[test]
fn test_get_hbm_info() {
    let dcmi = DCMI::init().unwrap();
    let card_list = dcmi.get_card_list().unwrap();
    for card in card_list {
        let (chips, mcu_chip, cpu_chip) = card.get_chips(&dcmi).unwrap();
        println!(
            "chips: {:?}, mcu_chip: {:?}, cpu_chip: {:?}",
            chips, mcu_chip, cpu_chip
        );
        for chip in chips {
            let hbm_info = chip.get_hbm_info(&dcmi).unwrap();
            println!("chip hbm info: {:?}", hbm_info);
        }
    }
}

#[test]
fn test_create_vchip() {
    let mut dcmi = DCMI::init().unwrap();
    let card_list = dcmi.get_card_list().unwrap();
    let card = card_list.first().unwrap();
    let (chips, _mcu_chip, _cpu_chip) = card.get_chips(&dcmi).unwrap();
    let chip = chips.first().unwrap();
    let vchip_res = VChipRes::new("vir03_1c_8g".to_string());
    let vchip_out = chip.create_virtual_chip(&mut dcmi, vchip_res).unwrap();
    println!("vchip_out: {:?}", vchip_out);
}

#[test]
fn test_destroy_vchip() {
    let mut dcmi = DCMI::init().unwrap();
    let card_list = dcmi.get_card_list().unwrap();
    let card = card_list.first().unwrap();
    let (chips, _mcu_chip, _cpu_chip) = card.get_chips(&dcmi).unwrap();
    let chip = chips.first().unwrap();
    test_create_vchip();
    let destroy_mode = DestroyVChipMode::SingleDevice(SingleDeviceId::new(100));
    chip.destroy_virtual_chip(&mut dcmi, destroy_mode).unwrap();
}

#[test]
fn test_chip_mod() {
    let mut dcmi = DCMI::init().unwrap();
    let anti_mode = dcmi.get_vchip_recover_mode().unwrap().not();
    dcmi.set_vchip_recover_mode(anti_mode).unwrap();
    let new_mode = dcmi.get_vchip_recover_mode().unwrap();
    assert_eq!(anti_mode, new_mode);
}
