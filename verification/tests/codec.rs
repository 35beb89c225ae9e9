use qmk_via_api::api_commands::{ViaChannelId, ViaCommandId, ViaQmkRgbMatrixValue};
use qmk_via_api::error::Error;
use qmk_via_api::frame::{decode_and_validate, encode};
use qmk_via_api::utils::{
    get_bit_at_index, set_bit_at_index, shift_buffer_from_16_bit, shift_buffer_to_16_bit,
    shift_from_16_bit, shift_to_16_bit,
};

#[test]
fn bit_is_read_from_the_most_significant_end() {
    assert!(get_bit_at_index(0b1000_0000, 0));
    assert!(!get_bit_at_index(0b1000_0000, 1));
    assert!(get_bit_at_index(0b0000_0001, 7));
    assert!(!get_bit_at_index(0b1111_1110, 7));
    assert!(get_bit_at_index(0b0010_0000, 2));
}

#[test]
fn bit_is_set_and_cleared_in_place() {
    assert_eq!(set_bit_at_index(0b0000_0000, 0, true), 0b1000_0000);
    assert_eq!(set_bit_at_index(0b0000_0000, 7, true), 0b0000_0001);
    assert_eq!(set_bit_at_index(0b1111_1111, 3, false), 0b1110_1111);
    assert_eq!(set_bit_at_index(0b1010_1010, 0, true), 0b1010_1010);
    assert_eq!(set_bit_at_index(0b1010_1010, 1, false), 0b1010_1010);
}

#[test]
fn set_bit_changes_only_the_bit_asked_for() {
    for byte in 0..=255u8 {
        for index in 0..8u8 {
            for enabled in [false, true] {
                let out = set_bit_at_index(byte, index, enabled);
                for other in 0..8u8 {
                    let expected = if other == index {
                        enabled
                    } else {
                        get_bit_at_index(byte, other)
                    };
                    assert_eq!(get_bit_at_index(out, other), expected);
                }
            }
        }
    }
}

#[test]
fn sixteen_bit_values_are_big_endian() {
    assert_eq!(shift_to_16_bit(0x12, 0x34), 0x1234);
    assert_eq!(shift_to_16_bit(0x00, 0xff), 0x00ff);
    assert_eq!(shift_to_16_bit(0xff, 0x00), 0xff00);
    assert_eq!(shift_from_16_bit(0x1234), (0x12, 0x34));
    assert_eq!(shift_from_16_bit(0x00ff), (0x00, 0xff));
    assert_eq!(shift_from_16_bit(0xffff), (0xff, 0xff));
}

#[test]
fn split_and_join_round_trip_for_every_value() {
    for value in 0..=u16::MAX {
        let (hi, lo) = shift_from_16_bit(value);
        assert_eq!(shift_to_16_bit(hi, lo), value);
    }
}

#[test]
fn buffers_are_regrouped_in_pairs() {
    assert_eq!(shift_buffer_to_16_bit(&[1, 2, 3, 4]), vec![0x0102, 0x0304]);
    assert_eq!(shift_buffer_to_16_bit(&[0xab, 0xcd]), vec![0xabcd]);
    assert_eq!(shift_buffer_to_16_bit(&[]), Vec::<u16>::new());
}

#[test]
fn a_trailing_odd_byte_is_dropped() {
    assert_eq!(shift_buffer_to_16_bit(&[1, 2, 3, 4, 5]), vec![0x0102, 0x0304]);
    assert_eq!(shift_buffer_to_16_bit(&[9]), Vec::<u16>::new());
}

#[test]
fn values_are_flattened_high_byte_first() {
    assert_eq!(shift_buffer_from_16_bit(&[0x0102, 0xa0b0]), vec![0x01, 0x02, 0xa0, 0xb0]);
    assert_eq!(shift_buffer_from_16_bit(&[]), Vec::<u8>::new());
}

#[test]
fn buffer_round_trip_is_the_identity() {
    let words: Vec<u16> = vec![0, 1, 0x00ff, 0xff00, 0x1234, 0xffff, 0x8001];
    assert_eq!(shift_buffer_to_16_bit(&shift_buffer_from_16_bit(&words)), words);
    let bytes: Vec<u8> = vec![0, 1, 2, 3, 0xfe, 0xff];
    assert_eq!(shift_buffer_from_16_bit(&shift_buffer_to_16_bit(&bytes)), bytes);
}

#[test]
fn command_bytes_are_those_of_the_protocol() {
    assert_eq!(ViaCommandId::GetProtocolVersion.code(), 0x01);
    assert_eq!(ViaCommandId::CustomMenuSetValue.code(), 0x07);
    assert_eq!(ViaCommandId::DynamicKeymapMacroGetBufferSize.code(), 0x0d);
    assert_eq!(ViaCommandId::DynamicKeymapMacroReset.code(), 0x10);
    assert_eq!(ViaCommandId::DynamicKeymapGetBuffer.code(), 0x12);
    assert_eq!(ViaCommandId::DynamicKeymapSetEncoder.code(), 0x15);
    assert_eq!(ViaChannelId::IdCustomChannel.code(), 0);
    assert_eq!(ViaChannelId::IdQmkLedMatrixChannel.code(), 5);
    assert_eq!(ViaQmkRgbMatrixValue::IdQmkRgbMatrixColor.code(), 4);
}

#[test]
fn frame_holds_report_id_command_payload_and_padding() {
    let frame = encode(ViaCommandId::DynamicKeymapGetKeycode, &[1, 2, 3], 33).unwrap();
    let mut expected = vec![0u8; 33];
    expected[1] = 0x04;
    expected[2] = 1;
    expected[3] = 2;
    expected[4] = 3;
    assert_eq!(frame, expected);
    let frame = encode(ViaCommandId::GetProtocolVersion, &[], 32).unwrap();
    let mut expected = vec![0u8; 32];
    expected[1] = 0x01;
    assert_eq!(frame, expected);
}

#[test]
fn frame_takes_a_payload_that_just_fits() {
    let payload = vec![7u8; 31];
    let frame = encode(ViaCommandId::CustomMenuSetValue, &payload, 33).unwrap();
    assert_eq!(frame.len(), 33);
    assert_eq!(frame[0], 0);
    assert_eq!(frame[1], 0x07);
    assert_eq!(&frame[2..], &payload[..]);
}

#[test]
fn frame_refuses_a_payload_that_is_too_long() {
    let payload = vec![7u8; 32];
    assert_eq!(
        encode(ViaCommandId::CustomMenuSetValue, &payload, 33),
        Err(Error::SizeExceeded { expected: 31, actual: 32, context: "payload" })
    );
    assert_eq!(
        encode(ViaCommandId::CustomMenuSetValue, &[], 1),
        Err(Error::SizeExceeded { expected: 0, actual: 0, context: "payload" })
    );
}

#[test]
fn an_echo_with_any_tail_is_accepted() {
    let response = vec![0x04, 1, 2, 3, 0xde, 0xad, 0xbe, 0xef];
    assert_eq!(
        decode_and_validate(ViaCommandId::DynamicKeymapGetKeycode, &[1, 2, 3], response.clone()),
        Ok(response)
    );
    let exact = vec![0x01];
    assert_eq!(decode_and_validate(ViaCommandId::GetProtocolVersion, &[], exact.clone()), Ok(exact));
}

#[test]
fn a_mismatch_at_any_position_is_refused() {
    let request = [1u8, 2, 3];
    for at in 0..4 {
        let mut response = vec![0x04, 1, 2, 3, 9, 9];
        response[at] ^= 0x80;
        assert_eq!(
            decode_and_validate(ViaCommandId::DynamicKeymapGetKeycode, &request, response),
            Err(Error::BadResponse(ViaCommandId::DynamicKeymapGetKeycode))
        );
    }
}

#[test]
fn a_response_shorter_than_the_request_is_refused() {
    assert_eq!(
        decode_and_validate(ViaCommandId::DynamicKeymapGetKeycode, &[1, 2, 3], vec![0x04, 1, 2]),
        Err(Error::BadResponse(ViaCommandId::DynamicKeymapGetKeycode))
    );
    assert_eq!(
        decode_and_validate(ViaCommandId::GetProtocolVersion, &[], vec![]),
        Err(Error::BadResponse(ViaCommandId::GetProtocolVersion))
    );
}

#[test]
fn size_mismatch_builds_the_size_failure() {
    assert_eq!(
        Error::size_mismatch("macro data", 10, 11),
        Error::SizeExceeded { expected: 10, actual: 11, context: "macro data" }
    );
}
