use qmk_via_api::api::KeyboardValue;
use qmk_via_api::error::Error;
use qmk_via_api::scan::{find_keyboard, scan_keyboards, KeyboardDeviceInfo};
use qmk_via_api::transfer::Reply;
use std::str::FromStr;

fn device(vendor_id: u16, product_id: u16, usage_page: u16, product: &str) -> KeyboardDeviceInfo {
    KeyboardDeviceInfo {
        vendor_id,
        product_id,
        usage_page,
        manufacturer: None,
        product: Some(product.to_string()),
        serial_number: None,
    }
}

#[test]
fn scan_keeps_the_devices_on_the_usage_page_in_order() {
    let devices = vec![
        device(1, 1, 0x0001, "mouse"),
        device(2, 1, 0xff60, "first"),
        device(2, 1, 0x0006, "first, as a keyboard"),
        device(3, 7, 0xff60, "second"),
        device(4, 7, 0xff61, "other"),
        device(2, 1, 0xff60, "third"),
    ];
    let keyboards = scan_keyboards(devices.clone());
    assert_eq!(keyboards, vec![devices[1].clone(), devices[3].clone(), devices[5].clone()]);
    assert_eq!(scan_keyboards(vec![]), vec![]);
    assert_eq!(scan_keyboards(vec![device(1, 1, 1, "mouse")]), vec![]);
}

#[test]
fn the_first_device_with_the_identifiers_is_found() {
    let devices = vec![
        device(2, 1, 0x0006, "as a keyboard"),
        device(2, 1, 0xff60, "first"),
        device(2, 1, 0xff60, "second"),
    ];
    assert_eq!(find_keyboard(&devices, 2, 1, 0xff60), Ok(1));
    assert_eq!(find_keyboard(&devices, 2, 1, 0x0006), Ok(0));
}

#[test]
fn a_missing_device_is_reported_with_its_identifiers() {
    let devices = vec![device(2, 1, 0xff60, "first")];
    assert_eq!(
        find_keyboard(&devices, 2, 2, 0xff60),
        Err(Error::NoSuchDevice { vid: 2, pid: 2, usage_page: 0xff60 })
    );
    assert_eq!(
        find_keyboard(&vec![], 0x594d, 0x604d, 0xff60),
        Err(Error::NoSuchDevice { vid: 0x594d, pid: 0x604d, usage_page: 0xff60 })
    );
}

#[test]
fn keyboard_values_are_read_from_their_names() {
    assert_eq!(KeyboardValue::from_name("Uptime"), Some(KeyboardValue::Uptime));
    assert_eq!(KeyboardValue::from_name("LayoutOptions"), Some(KeyboardValue::LayoutOptions));
    assert_eq!(
        KeyboardValue::from_name("SwitchMatrixState"),
        Some(KeyboardValue::SwitchMatrixState)
    );
    assert_eq!(KeyboardValue::from_name("FirmwareVersion"), Some(KeyboardValue::FirmwareVersion));
    assert_eq!(
        KeyboardValue::from_name("DeviceIndication"),
        Some(KeyboardValue::DeviceIndication)
    );
    assert_eq!(KeyboardValue::from_name("uptime"), None);
    assert_eq!(KeyboardValue::from_name(""), None);
    assert_eq!(KeyboardValue::from_str("FirmwareVersion"), Ok(KeyboardValue::FirmwareVersion));
    assert_eq!(KeyboardValue::from_str("Firmware"), Err("Invalid KeyboardValue"));
}

#[test]
fn a_result_gives_out_only_what_it_holds() {
    assert_eq!(Reply::Byte(7).into_byte(), Some(7));
    assert_eq!(Reply::Word(7).into_byte(), None);
    assert_eq!(Reply::Flag(true).into_flag(), Some(true));
    assert_eq!(Reply::Byte(1).into_flag(), None);
    assert_eq!(Reply::Word(0x1234).into_word(), Some(0x1234));
    assert_eq!(Reply::Empty.into_word(), None);
    assert_eq!(Reply::Pair(1, 2).into_pair(), Some((1, 2)));
    assert_eq!(Reply::Bytes(vec![1, 2]).into_pair(), None);
    assert_eq!(Reply::Bytes(vec![1, 2]).into_bytes(), Some(vec![1, 2]));
    assert_eq!(Reply::Words(vec![1, 2]).into_bytes(), None);
    assert_eq!(Reply::Words(vec![1, 2]).into_words(), Some(vec![1, 2]));
    assert_eq!(Reply::Bytes(vec![1, 2]).into_words(), None);
}
