use tracker_bridge::gatt::request_uuid;
use tracker_bridge::gatt::response_uuid;
use tracker_bridge::protocol::decode;
use tracker_bridge::protocol::decode_payload;
use tracker_bridge::protocol::read_le_u16;
use tracker_bridge::protocol::Diagnostic;
use tracker_bridge::protocol::Event;
use tracker_bridge::protocol::Notification;
use tracker_bridge::protocol::BUTTON_TYPE;
use tracker_bridge::protocol::HEART_RATE_TYPE;

#[test]
fn heart_rate_sample_decodes_to_its_last_byte() {
    assert_eq!(decode_payload(&[0x02, 0xa0, 0x4b]), Ok(Event::HeartRate(75)));
}

#[test]
fn two_byte_payload_is_invalid() {
    assert_eq!(decode_payload(&[0x07, 0x01]), Err(Diagnostic::InvalidPayload));
}

#[test]
fn button_message_decodes_to_button_press() {
    assert_eq!(decode_payload(&[0x07, 0x01, 0x00]), Ok(Event::ButtonPress));
}

#[test]
fn every_payload_under_three_bytes_is_invalid() {
    assert_eq!(decode_payload(&[]), Err(Diagnostic::InvalidPayload));
    assert_eq!(decode_payload(&[0x02]), Err(Diagnostic::InvalidPayload));
    assert_eq!(decode_payload(&[0x02, 0xa0]), Err(Diagnostic::InvalidPayload));
    assert_eq!(decode_payload(&[0xff, 0xff]), Err(Diagnostic::InvalidPayload));
}

#[test]
fn heart_rate_is_last_byte_of_longer_payloads() {
    assert_eq!(decode_payload(&[0x02, 0xa0, 0x01, 0x02, 0x03]), Ok(Event::HeartRate(3)));
    assert_eq!(decode_payload(&[0x02, 0xa0, 0xff, 0x00]), Ok(Event::HeartRate(0)));
    assert_eq!(decode_payload(&[0x02, 0xa0, 0x00, 0x00, 0x00, 0xff]), Ok(Event::HeartRate(255)));
}

#[test]
fn button_press_does_not_depend_on_payload() {
    assert_eq!(decode_payload(&[0x07, 0x01, 0xff, 0x12, 0x34]), Ok(Event::ButtonPress));
    assert_eq!(decode_payload(&[0x07, 0x01, 0x4b]), Ok(Event::ButtonPress));
}

#[test]
fn unknown_type_keeps_type_and_payload() {
    assert_eq!(
        decode_payload(&[0x34, 0x12, 0xaa, 0xbb]),
        Ok(Event::Unknown { type_code: 0x1234, payload: vec![0xaa, 0xbb] })
    );
    assert_eq!(
        decode_payload(&[0x00, 0x00, 0x00]),
        Ok(Event::Unknown { type_code: 0, payload: vec![0x00] })
    );
}

#[test]
fn swapped_type_bytes_are_another_type() {
    assert_eq!(
        decode_payload(&[0xa0, 0x02, 0x4b]),
        Ok(Event::Unknown { type_code: 0x02a0, payload: vec![0x4b] })
    );
    assert_eq!(
        decode_payload(&[0x01, 0x07, 0x00]),
        Ok(Event::Unknown { type_code: 0x0701, payload: vec![0x00] })
    );
}

#[test]
fn unknown_message_frames_back_to_what_was_sent() {
    let sent: Vec<u8> = vec![0xcd, 0xab, 0x01, 0x02, 0x03];
    match decode_payload(&sent) {
        Ok(Event::Unknown { type_code, payload }) => {
            let mut framed = type_code.to_le_bytes().to_vec();
            framed.extend_from_slice(&payload);
            assert_eq!(framed, sent);
        }
        other => panic!("decoded to {:?}", other),
    }
}

#[test]
fn type_code_is_little_endian() {
    assert_eq!(read_le_u16(0x02, 0xa0), 0xa002);
    assert_eq!(read_le_u16(0x07, 0x01), 0x0107);
    assert_eq!(read_le_u16(0xff, 0xff), 0xffff);
    assert_eq!(read_le_u16(0x00, 0x00), 0);
    assert_eq!(read_le_u16(0x01, 0x00), 1);
    assert_eq!(read_le_u16(0x00, 0x01), 256);
    assert_eq!(HEART_RATE_TYPE, 0xa002);
    assert_eq!(BUTTON_TYPE, 0x0107);
}

#[test]
fn notification_of_response_characteristic_decodes() {
    let notification = Notification { uuid: response_uuid(), value: vec![0x02, 0xa0, 0x4b] };
    assert_eq!(decode(&notification), Ok(Event::HeartRate(0x4b)));
    let notification = Notification {
        uuid: 0x0000_0af7_0000_1000_8000_0080_5f9b_34fb,
        value: vec![0x07, 0x01, 0x00],
    };
    assert_eq!(decode(&notification), Ok(Event::ButtonPress));
}

#[test]
fn notification_of_another_characteristic_is_unrecognized() {
    let notification = Notification { uuid: request_uuid(), value: vec![0x02, 0xa0, 0x4b] };
    assert_eq!(decode(&notification), Err(Diagnostic::UnrecognizedSource));
    let notification = Notification { uuid: 0x0af7, value: vec![0x02, 0xa0, 0x4b] };
    assert_eq!(decode(&notification), Err(Diagnostic::UnrecognizedSource));
    let notification = Notification { uuid: 0, value: vec![] };
    assert_eq!(decode(&notification), Err(Diagnostic::UnrecognizedSource));
}

#[test]
fn short_notification_of_response_characteristic_is_invalid() {
    let notification = Notification { uuid: response_uuid(), value: vec![0x07, 0x01] };
    assert_eq!(decode(&notification), Err(Diagnostic::InvalidPayload));
}
