use airgradient::device::{
    get_chip_id, get_chip_id_u32, get_device_id, get_mac_address_str, resolve_reset_reason,
    DeviceInfo, ResetReason,
};

const MAC: [u8; 6] = [0x00, 0x11, 0x22, 0xAA, 0xBB, 0xCC];

#[test]
fn mac_address_is_capital_hex_with_colons() {
    assert_eq!(get_mac_address_str(&MAC).text.as_str(), "00:11:22:AA:BB:CC");
    assert_eq!(get_mac_address_str(&[0xFF; 6]).text.as_str(), "FF:FF:FF:FF:FF:FF");
    assert_eq!(
        get_mac_address_str(&[0x09, 0x0A, 0x90, 0xA0, 0x1F, 0xF1]).text.as_str(),
        "09:0A:90:A0:1F:F1"
    );
    assert_eq!(get_mac_address_str(&[0; 6]).text.as_str(), "00:00:00:00:00:00");
}

#[test]
fn device_id_is_small_hex_without_colons() {
    assert_eq!(get_device_id(&MAC).text.as_str(), "001122aabbcc");
    assert_eq!(
        get_device_id(&[0x09, 0x0A, 0x90, 0xA0, 0x1F, 0xF1]).text.as_str(),
        "090a90a01ff1"
    );
}

#[test]
fn chip_id_text_is_decimal_without_leading_zeros() {
    assert_eq!(get_chip_id(&MAC).text.as_str(), "11189196");
    assert_eq!(get_chip_id(&[1, 2, 3, 0, 0, 0]).text.as_str(), "0");
    assert_eq!(get_chip_id(&[1, 2, 3, 0, 0, 10]).text.as_str(), "10");
    assert_eq!(get_chip_id(&[1, 2, 3, 0xFF, 0xFF, 0xFF]).text.as_str(), "16777215");
    assert_eq!(get_chip_id_u32(&[1, 2, 3, 0xFF, 0xFF, 0xFF]), 16777215);
}

#[test]
fn texts_fill_their_capacity_and_no_more() {
    let mac = get_mac_address_str(&MAC);
    assert_eq!(mac.text.len(), 17);
    assert_eq!(mac.text.capacity(), 17);
    let id = get_device_id(&MAC);
    assert_eq!(id.text.len(), 12);
    assert_eq!(id.text.capacity(), 12);
    let chip = get_chip_id(&[0, 0, 0, 0xFF, 0xFF, 0xFF]);
    assert_eq!(chip.text.len(), 8);
    assert_eq!(chip.text.capacity(), 10);
}

#[test]
fn device_info_holds_both_texts() {
    let info = DeviceInfo::get(&MAC);
    assert_eq!(info.mac_address.text.as_str(), "00:11:22:AA:BB:CC");
    assert_eq!(info.chip_id.text.as_str(), "11189196");
    assert_eq!(info, DeviceInfo::get(&MAC));
    assert_ne!(info, DeviceInfo::get(&[0x00, 0x11, 0x22, 0xAA, 0xBB, 0xCD]));
}

#[test]
fn reset_reason_is_reported_by_its_name() {
    assert_eq!(resolve_reset_reason(None), "None");
    let all = [
        (ResetReason::ChipPowerOn, "ChipPowerOn"),
        (ResetReason::CoreEfuseCrc, "CoreEfuseCrc"),
        (ResetReason::CoreMwdt0, "CoreMwdt0"),
        (ResetReason::CoreMwdt1, "CoreMwdt1"),
        (ResetReason::CoreRtcWdt, "CoreRtcWdt"),
        (ResetReason::CoreSw, "CoreSw"),
        (ResetReason::SysBrownOut, "SysBrownOut"),
        (ResetReason::SysSuperWdt, "SysSuperWdt"),
        (ResetReason::SysClkGlitch, "SysClkGlitch"),
        (ResetReason::SysRtcWdt, "SysRtcWdt"),
        (ResetReason::CoreUsbUart, "CoreUsbUart"),
        (ResetReason::CoreUsbJtag, "CoreUsbJtag"),
        (ResetReason::CorePwrGlitch, "CorePwrGlitch"),
        (ResetReason::CoreDeepSleep, "CoreDeepSleep"),
        (ResetReason::Cpu0Mwdt0, "Cpu0Mwdt0"),
        (ResetReason::Cpu0Mwdt1, "Cpu0Mwdt1"),
        (ResetReason::Cpu0Sw, "Cpu0Sw"),
        (ResetReason::Cpu0RtcWdt, "Cpu0RtcWdt"),
    ];
    for (reason, name) in all {
        assert_eq!(resolve_reset_reason(Some(reason)), name);
        assert_eq!(format!("{:?}", reason), name);
    }
}
