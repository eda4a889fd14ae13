use tracker_bridge::gatt::find_characteristic;
use tracker_bridge::gatt::find_notifying;
use tracker_bridge::gatt::request_uuid;
use tracker_bridge::gatt::response_uuid;
use tracker_bridge::gatt::Characteristic;
use tracker_bridge::gatt::BLUETOOTH_BASE_UUID;
use tracker_bridge::gatt::NOTIFY;
use tracker_bridge::gatt::REQUEST_CHARACTERISTIC;
use tracker_bridge::gatt::RESPONSE_CHARACTERISTIC;

fn characteristic(uuid: u128, properties: u8) -> Characteristic {
    Characteristic { uuid, properties }
}

#[test]
fn endpoint_uuids_fill_the_base_uuid() {
    assert_eq!(request_uuid(), 0x0000_0af6_0000_1000_8000_0080_5f9b_34fb);
    assert_eq!(response_uuid(), 0x0000_0af7_0000_1000_8000_0080_5f9b_34fb);
    assert_eq!(REQUEST_CHARACTERISTIC, 0x0af6);
    assert_eq!(RESPONSE_CHARACTERISTIC, 0x0af7);
    assert_eq!(request_uuid(), BLUETOOTH_BASE_UUID | (0x0af6u128 << 96));
    assert_ne!(request_uuid(), response_uuid());
    assert_ne!(request_uuid(), 0x0af6);
}

#[test]
fn notify_is_read_from_its_own_bit() {
    assert_eq!(NOTIFY, 0x10);
    assert!(characteristic(1, 0x10).supports_notify());
    assert!(characteristic(1, 0x1a).supports_notify());
    assert!(characteristic(1, 0xff).supports_notify());
    assert!(!characteristic(1, 0x00).supports_notify());
    assert!(!characteristic(1, 0x20).supports_notify());
    assert!(!characteristic(1, 0x08).supports_notify());
    assert!(!characteristic(1, 0xef).supports_notify());
    assert!(!characteristic(1, 0x01).supports_notify());
}

#[test]
fn find_notifying_gives_the_first_at_or_after() {
    let list = vec![
        characteristic(1, 0x02),
        characteristic(2, 0x10),
        characteristic(3, 0x08),
        characteristic(4, 0x12),
    ];
    assert_eq!(find_notifying(&list, 0), Some(1));
    assert_eq!(find_notifying(&list, 1), Some(1));
    assert_eq!(find_notifying(&list, 2), Some(3));
    assert_eq!(find_notifying(&list, 3), Some(3));
    assert_eq!(find_notifying(&list, 4), None);
    assert_eq!(find_notifying(&list, 100), None);
    assert_eq!(find_notifying(&[], 0), None);
    assert_eq!(find_notifying(&list[..1], 0), None);
}

#[test]
fn find_characteristic_gives_the_first_with_the_uuid() {
    let list = vec![
        characteristic(7, 0x02),
        characteristic(9, 0x10),
        characteristic(7, 0x08),
    ];
    assert_eq!(find_characteristic(&list, 7), Some(0));
    assert_eq!(find_characteristic(&list, 9), Some(1));
    assert_eq!(find_characteristic(&list, 8), None);
    assert_eq!(find_characteristic(&[], 7), None);
}
