use qmk_via_api::api::{KeyboardApi, KeyboardValue, MatrixInfo, Step};
use qmk_via_api::api_commands::ViaCommandId;
use qmk_via_api::error::Error;
use qmk_via_api::transfer::{read_buffer, write_buffer, Keep, Reply};

/// Runs an operation against a device that answers each frame as `answer`
/// says, and returns the outcome with the frames that were written.
fn drive(
    first: Step,
    mut answer: impl FnMut(&[u8]) -> Option<Vec<u8>>,
) -> (Result<Reply, Error>, Vec<Vec<u8>>) {
    let mut frames: Vec<Vec<u8>> = Vec::new();
    let mut step = first;
    loop {
        step = match step {
            Step::Write(api, frame) => {
                let count = frame.len();
                frames.push(frame);
                api.written(Some(count))
            }
            Step::Read(api) => api.received(answer(frames.last().unwrap())),
            Step::Done(outcome) => return (outcome, frames),
        };
    }
}

/// The report that repeats a frame's request and is zero elsewhere.
fn echo(frame: &[u8]) -> Vec<u8> {
    frame[1..].to_vec()
}

/// The report that repeats a frame's first `keep` request bytes and goes on
/// with `data`.
fn echo_with(frame: &[u8], keep: usize, data: &[u8]) -> Vec<u8> {
    let mut report = vec![0u8; 32];
    report[..keep].copy_from_slice(&frame[1..1 + keep]);
    report[keep..keep + data.len()].copy_from_slice(data);
    report
}

/// A keyboard with the given protocol version, keymap buffer and macro buffer.
fn keyboard(version: u16, keymap: Vec<u8>, macros: Vec<u8>) -> impl FnMut(&[u8]) -> Option<Vec<u8>> {
    let mut keymap = keymap;
    let mut macros = macros;
    move |frame: &[u8]| {
        let offset = ((frame[2] as usize) << 8) | frame[3] as usize;
        let size = frame[4] as usize;
        match frame[1] {
            0x01 => Some(echo_with(frame, 1, &version.to_be_bytes())),
            0x11 => Some(echo_with(frame, 1, &[6])),
            0x0d => Some(echo_with(frame, 1, &(macros.len() as u16).to_be_bytes())),
            0x12 => Some(echo_with(frame, 4, &keymap[offset..offset + size])),
            0x0e => Some(echo_with(frame, 4, &macros[offset..offset + size])),
            0x13 => {
                keymap[offset..offset + size].copy_from_slice(&frame[5..5 + size]);
                Some(echo(frame))
            }
            0x0f => {
                macros[offset..offset + size].copy_from_slice(&frame[5..5 + size]);
                Some(echo(frame))
            }
            0x10 => {
                macros.iter_mut().for_each(|byte| *byte = 0);
                Some(echo(frame))
            }
            0x04 => Some(echo_with(frame, 4, &[frame[3], frame[4]])),
            _ => Some(echo(frame)),
        }
    }
}

fn request_of(frame: &[u8], len: usize) -> Vec<u8> {
    assert_eq!(frame.len(), 33);
    assert_eq!(frame[0], 0);
    assert!(frame[1 + len..].iter().all(|byte| *byte == 0));
    frame[1..1 + len].to_vec()
}

#[test]
fn testing_test_get_protocol_version() {
    let (outcome, frames) =
        drive(KeyboardApi::get_protocol_version(), |frame| Some(echo_with(frame, 1, &[0, 8])));
    assert_eq!(outcome, Ok(Reply::Word(8)));
    assert_eq!(frames.len(), 1);
}

#[test]
fn testing2_test_get_protocol_version() {
    let mut answers = 0;
    let (outcome, frames) = drive(KeyboardApi::get_protocol_version(), |frame| {
        answers += 1;
        Some(echo_with(frame, 1, &[0, 8]))
    });
    assert_eq!(outcome, Ok(Reply::Word(8)));
    assert_eq!(answers, 1);
    assert_eq!(request_of(&frames[0], 1), vec![0x01]);
}

#[test]
fn protocol_version_is_big_endian() {
    let (outcome, _) =
        drive(KeyboardApi::get_protocol_version(), |frame| Some(echo_with(frame, 1, &[0x01, 0x0c])));
    assert_eq!(outcome, Ok(Reply::Word(0x010c)));
}

#[test]
fn an_exchange_is_one_write_and_one_read() {
    let api = match KeyboardApi::get_key(1, 2, 3) {
        Step::Write(api, frame) => {
            assert_eq!(request_of(&frame, 4), vec![0x04, 1, 2, 3]);
            api
        }
        _ => panic!("the request is to be written first"),
    };
    let api = match api.written(Some(33)) {
        Step::Read(api) => api,
        _ => panic!("the answer is to be read next"),
    };
    let mut report = vec![0u8; 32];
    report[..6].copy_from_slice(&[0x04, 1, 2, 3, 0xab, 0xcd]);
    match api.received(Some(report)) {
        Step::Done(outcome) => assert_eq!(outcome, Ok(Reply::Word(0xabcd))),
        _ => panic!("the operation is over"),
    }
}

#[test]
fn a_failed_write_is_an_io_failure() {
    match KeyboardApi::get_key(0, 0, 0) {
        Step::Write(api, _) => match api.written(None) {
            Step::Done(outcome) => assert_eq!(outcome, Err(Error::Io)),
            _ => panic!("the operation is over"),
        },
        _ => panic!("the request is to be written first"),
    }
}

#[test]
fn a_short_write_is_an_io_failure() {
    match KeyboardApi::get_key(0, 0, 0) {
        Step::Write(api, _) => match api.written(Some(32)) {
            Step::Done(outcome) => assert_eq!(outcome, Err(Error::Io)),
            _ => panic!("the operation is over"),
        },
        _ => panic!("the request is to be written first"),
    }
}

#[test]
fn a_failed_read_is_an_io_failure() {
    let (outcome, frames) = drive(KeyboardApi::get_macro_count(), |_| None);
    assert_eq!(outcome, Err(Error::Io));
    assert_eq!(frames.len(), 1);
}

#[test]
fn a_report_out_of_turn_is_an_io_failure() {
    match KeyboardApi::get_key(0, 0, 0) {
        Step::Write(api, frame) => match api.received(Some(echo(&frame))) {
            Step::Done(outcome) => assert_eq!(outcome, Err(Error::Io)),
            _ => panic!("the operation is over"),
        },
        _ => panic!("the request is to be written first"),
    }
    match KeyboardApi::get_key(0, 0, 0) {
        Step::Write(api, _) => match api.written(Some(33)) {
            Step::Read(api) => match api.written(Some(33)) {
                Step::Done(outcome) => assert_eq!(outcome, Err(Error::Io)),
                _ => panic!("the operation is over"),
            },
            _ => panic!("the answer is to be read next"),
        },
        _ => panic!("the request is to be written first"),
    }
}

#[test]
fn a_wrong_echo_is_a_bad_response() {
    let (outcome, frames) = drive(KeyboardApi::get_key(1, 2, 3), |frame| {
        let mut report = echo(frame);
        report[2] = 9;
        Some(report)
    });
    assert_eq!(outcome, Err(Error::BadResponse(ViaCommandId::DynamicKeymapGetKeycode)));
    assert_eq!(frames.len(), 1);
}

#[test]
fn a_report_without_the_field_is_a_bad_response() {
    let (outcome, _) = drive(KeyboardApi::get_key(1, 2, 3), |_| Some(vec![0x04, 1, 2, 3, 0xab]));
    assert_eq!(outcome, Err(Error::BadResponse(ViaCommandId::DynamicKeymapGetKeycode)));
    let (outcome, _) = drive(
        KeyboardApi::get_keyboard_value(KeyboardValue::Uptime, vec![], usize::MAX),
        |frame| Some(echo(frame)),
    );
    assert_eq!(outcome, Err(Error::BadResponse(ViaCommandId::GetKeyboardValue)));
}

#[test]
fn raw_command_returns_the_whole_answer() {
    let (outcome, frames) = drive(
        KeyboardApi::hid_command(ViaCommandId::DynamicKeymapClearAll, vec![5, 6]),
        |frame| Some(echo_with(frame, 3, &[0x11, 0x22])),
    );
    let mut expected = vec![0u8; 32];
    expected[..5].copy_from_slice(&[0x06, 5, 6, 0x11, 0x22]);
    assert_eq!(outcome, Ok(Reply::Bytes(expected)));
    assert_eq!(request_of(&frames[0], 3), vec![0x06, 5, 6]);
}

#[test]
fn a_payload_that_does_not_fit_is_refused_before_any_exchange() {
    match KeyboardApi::hid_command(ViaCommandId::CustomMenuSetValue, vec![0; 32]) {
        Step::Done(outcome) => {
            assert_eq!(outcome, Err(Error::SizeExceeded {
                expected: 31,
                actual: 32,
                context: "payload",
            }))
        }
        _ => panic!("nothing is to be written"),
    }
    match KeyboardApi::set_custom_menu_value(vec![0; 40]) {
        Step::Done(outcome) => {
            assert_eq!(outcome, Err(Error::SizeExceeded {
                expected: 31,
                actual: 40,
                context: "payload",
            }))
        }
        _ => panic!("nothing is to be written"),
    }
    match KeyboardApi::set_keyboard_value(KeyboardValue::LayoutOptions, vec![0; 31]) {
        Step::Done(outcome) => {
            assert_eq!(outcome, Err(Error::SizeExceeded {
                expected: 31,
                actual: 32,
                context: "payload",
            }))
        }
        _ => panic!("nothing is to be written"),
    }
    let (outcome, frames) =
        drive(KeyboardApi::hid_command(ViaCommandId::CustomMenuSetValue, vec![1; 31]), |frame| {
            Some(echo(frame))
        });
    assert!(outcome.is_ok());
    assert_eq!(frames[0][2..], [1u8; 31]);
}

#[test]
fn layer_count_is_four_for_the_oldest_protocol() {
    let (outcome, frames) = drive(KeyboardApi::get_layer_count(), keyboard(7, vec![], vec![]));
    assert_eq!(outcome, Ok(Reply::Byte(4)));
    assert_eq!(frames.len(), 1);
    assert_eq!(request_of(&frames[0], 1), vec![0x01]);
}

#[test]
fn layer_count_is_asked_for_from_the_newer_protocol_on() {
    for version in [8u16, 9, 12] {
        let (outcome, frames) =
            drive(KeyboardApi::get_layer_count(), keyboard(version, vec![], vec![]));
        assert_eq!(outcome, Ok(Reply::Byte(6)));
        assert_eq!(frames.len(), 2);
        assert_eq!(request_of(&frames[0], 1), vec![0x01]);
        assert_eq!(request_of(&frames[1], 1), vec![0x11]);
    }
}

#[test]
fn an_older_protocol_is_unsupported() {
    let (outcome, frames) = drive(KeyboardApi::get_layer_count(), keyboard(6, vec![], vec![]));
    assert_eq!(outcome, Err(Error::UnsupportedProtocol(Some(6))));
    assert_eq!(frames.len(), 1);
    let info = MatrixInfo { rows: 2, cols: 2 };
    let (outcome, _) = drive(KeyboardApi::read_raw_matrix(info, 0), keyboard(0, vec![], vec![]));
    assert_eq!(outcome, Err(Error::UnsupportedProtocol(Some(0))));
    let (outcome, _) =
        drive(KeyboardApi::write_raw_matrix(info, vec![vec![1, 2, 3, 4]]), keyboard(6, vec![], vec![]));
    assert_eq!(outcome, Err(Error::UnsupportedProtocol(Some(6))));
}

#[test]
fn a_failed_version_query_is_unsupported() {
    let info = MatrixInfo { rows: 2, cols: 2 };
    let (outcome, _) = drive(KeyboardApi::get_layer_count(), |_| None);
    assert_eq!(outcome, Err(Error::UnsupportedProtocol(None)));
    let (outcome, _) = drive(KeyboardApi::read_raw_matrix(info, 0), |_| Some(vec![0x02, 0, 8]));
    assert_eq!(outcome, Err(Error::UnsupportedProtocol(None)));
    match KeyboardApi::write_raw_matrix(info, vec![]) {
        Step::Write(api, _) => match api.written(None) {
            Step::Done(outcome) => assert_eq!(outcome, Err(Error::UnsupportedProtocol(None))),
            _ => panic!("the operation is over"),
        },
        _ => panic!("the request is to be written first"),
    }
}

#[test]
fn bulk_read_of_a_layer_takes_five_windows() {
    let info = MatrixInfo { rows: 5, cols: 14 };
    let keycodes: Vec<u16> = (0..70u16).map(|i| 0x1000 + 3 * i).collect();
    let keymap: Vec<u8> = keycodes.iter().flat_map(|k| k.to_be_bytes()).collect();
    let (outcome, frames) = drive(KeyboardApi::read_raw_matrix(info, 0), keyboard(8, keymap, vec![]));
    assert_eq!(outcome, Ok(Reply::Words(keycodes)));
    assert_eq!(frames.len(), 6);
    assert_eq!(request_of(&frames[0], 1), vec![0x01]);
    let offsets: [u8; 5] = [0, 28, 56, 84, 112];
    for (window, offset) in offsets.iter().enumerate() {
        assert_eq!(request_of(&frames[window + 1], 4), vec![0x12, 0, *offset, 28]);
    }
}

#[test]
fn bulk_read_addresses_the_layer_and_shortens_the_last_window() {
    let info = MatrixInfo { rows: 4, cols: 5 };
    let all: Vec<u16> = (0..60u16).map(|i| 0x0100 + i).collect();
    let keymap: Vec<u8> = all.iter().flat_map(|k| k.to_be_bytes()).collect();
    let (outcome, frames) = drive(KeyboardApi::read_raw_matrix(info, 2), keyboard(9, keymap, vec![]));
    assert_eq!(outcome, Ok(Reply::Words(all[40..60].to_vec())));
    assert_eq!(frames.len(), 3);
    assert_eq!(request_of(&frames[1], 4), vec![0x12, 0, 80, 28]);
    assert_eq!(request_of(&frames[2], 4), vec![0x12, 0, 108, 12]);
}

#[test]
fn bulk_read_fails_as_a_whole_when_a_window_fails() {
    let info = MatrixInfo { rows: 5, cols: 14 };
    let mut device = keyboard(8, vec![0; 140], vec![]);
    let (outcome, frames) = drive(KeyboardApi::read_raw_matrix(info, 0), |frame| {
        if frame[1] == 0x12 && frame[3] == 56 {
            None
        } else {
            device(frame)
        }
    });
    assert_eq!(outcome, Err(Error::Io));
    assert_eq!(frames.len(), 4);
}

#[test]
fn bulk_read_beyond_the_address_space_is_refused() {
    let info = MatrixInfo { rows: 255, cols: 255 };
    let (outcome, frames) = drive(KeyboardApi::read_raw_matrix(info, 0), keyboard(8, vec![], vec![]));
    assert_eq!(outcome, Err(Error::SizeExceeded {
        expected: 65536,
        actual: 130050,
        context: "buffer",
    }));
    assert_eq!(frames.len(), 1);
    let info = MatrixInfo { rows: 100, cols: 100 };
    let (outcome, _) = drive(KeyboardApi::read_raw_matrix(info, 4), keyboard(8, vec![], vec![]));
    assert_eq!(outcome, Err(Error::SizeExceeded { expected: 0, actual: 20000, context: "buffer" }));
}

#[test]
fn an_empty_matrix_is_read_without_a_window() {
    let info = MatrixInfo { rows: 0, cols: 14 };
    for version in [7u16, 8] {
        let (outcome, frames) =
            drive(KeyboardApi::read_raw_matrix(info, 0), keyboard(version, vec![], vec![]));
        assert_eq!(outcome, Ok(Reply::Words(vec![])));
        assert_eq!(frames.len(), 1);
    }
}

#[test]
fn read_cell_by_cell_goes_row_by_row() {
    let info = MatrixInfo { rows: 2, cols: 3 };
    let (outcome, frames) = drive(KeyboardApi::read_raw_matrix(info, 1), keyboard(7, vec![], vec![]));
    assert_eq!(
        outcome,
        Ok(Reply::Words(vec![0x0000, 0x0001, 0x0002, 0x0100, 0x0101, 0x0102]))
    );
    assert_eq!(frames.len(), 7);
    let cells = [(0u8, 0u8), (0, 1), (0, 2), (1, 0), (1, 1), (1, 2)];
    for (i, (row, col)) in cells.iter().enumerate() {
        assert_eq!(request_of(&frames[i + 1], 4), vec![0x04, 1, *row, *col]);
    }
}

#[test]
fn bulk_write_flattens_the_keymap() {
    let info = MatrixInfo { rows: 2, cols: 10 };
    let keymap: Vec<Vec<u16>> =
        vec![(0..20u16).map(|i| 0x0100 + i).collect(), (0..20u16).map(|i| 0x0200 + i).collect()];
    let bytes: Vec<u8> = keymap.iter().flatten().flat_map(|k| k.to_be_bytes()).collect();
    let (outcome, frames) =
        drive(KeyboardApi::write_raw_matrix(info, keymap), keyboard(8, vec![0; 80], vec![]));
    assert_eq!(outcome, Ok(Reply::Empty));
    assert_eq!(frames.len(), 4);
    let mut first = vec![0x13, 0, 0, 28];
    first.extend_from_slice(&bytes[0..28]);
    assert_eq!(request_of(&frames[1], 32), first);
    let mut second = vec![0x13, 0, 28, 28];
    second.extend_from_slice(&bytes[28..56]);
    assert_eq!(request_of(&frames[2], 32), second);
    let mut third = vec![0x13, 0, 56, 24];
    third.extend_from_slice(&bytes[56..80]);
    assert_eq!(request_of(&frames[3], 28), third);
}

#[test]
fn bulk_write_stops_at_the_first_failure() {
    let info = MatrixInfo { rows: 2, cols: 10 };
    let keymap: Vec<Vec<u16>> = vec![vec![1; 20], vec![2; 20]];
    let mut device = keyboard(8, vec![0; 80], vec![]);
    let (outcome, frames) = drive(KeyboardApi::write_raw_matrix(info, keymap), |frame| {
        if frame[1] == 0x13 && frame[3] == 28 {
            Some(vec![0u8; 32])
        } else {
            device(frame)
        }
    });
    assert_eq!(outcome, Err(Error::BadResponse(ViaCommandId::DynamicKeymapSetBuffer)));
    assert_eq!(frames.len(), 3);
}

#[test]
fn write_cell_by_cell_goes_layer_by_layer() {
    let info = MatrixInfo { rows: 2, cols: 2 };
    let keymap: Vec<Vec<u16>> = vec![vec![0x0a0b, 0x0c0d, 0x0e0f], vec![0x1112]];
    let (outcome, frames) = drive(KeyboardApi::write_raw_matrix(info, keymap), keyboard(7, vec![], vec![]));
    assert_eq!(outcome, Ok(Reply::Empty));
    assert_eq!(frames.len(), 5);
    assert_eq!(request_of(&frames[1], 6), vec![0x05, 0, 0, 0, 0x0a, 0x0b]);
    assert_eq!(request_of(&frames[2], 6), vec![0x05, 0, 0, 1, 0x0c, 0x0d]);
    assert_eq!(request_of(&frames[3], 6), vec![0x05, 0, 1, 0, 0x0e, 0x0f]);
    assert_eq!(request_of(&frames[4], 6), vec![0x05, 1, 0, 0, 0x11, 0x12]);
}

#[test]
fn write_cell_by_cell_refuses_what_the_matrix_cannot_hold() {
    let info = MatrixInfo { rows: 2, cols: 2 };
    let keymap: Vec<Vec<u16>> = vec![vec![1, 2], vec![1, 2, 3, 4, 5], vec![1, 2, 3, 4, 5, 6]];
    let (outcome, frames) = drive(KeyboardApi::write_raw_matrix(info, keymap), keyboard(7, vec![], vec![]));
    assert_eq!(outcome, Err(Error::SizeExceeded {
        expected: 4,
        actual: 6,
        context: "layer keycodes",
    }));
    assert_eq!(frames.len(), 1);
    let keymap: Vec<Vec<u16>> = vec![vec![]; 257];
    let (outcome, _) = drive(KeyboardApi::write_raw_matrix(info, keymap), keyboard(7, vec![], vec![]));
    assert_eq!(outcome, Err(Error::SizeExceeded {
        expected: 256,
        actual: 257,
        context: "keymap layers",
    }));
    let keymap: Vec<Vec<u16>> = vec![];
    let (outcome, frames) = drive(KeyboardApi::write_raw_matrix(info, keymap), keyboard(7, vec![], vec![]));
    assert_eq!(outcome, Ok(Reply::Empty));
    assert_eq!(frames.len(), 1);
}

#[test]
fn bulk_write_refuses_more_than_the_address_space() {
    let info = MatrixInfo { rows: 2, cols: 2 };
    let keymap: Vec<Vec<u16>> = vec![vec![0; 30000], vec![0; 2769]];
    let (outcome, frames) = drive(KeyboardApi::write_raw_matrix(info, keymap), keyboard(8, vec![], vec![]));
    assert_eq!(outcome, Err(Error::SizeExceeded {
        expected: 65536,
        actual: 65538,
        context: "buffer",
    }));
    assert_eq!(frames.len(), 1);
}

#[test]
fn macro_write_is_bracketed_by_the_marker() {
    let data: Vec<u8> = (1..=40u8).collect();
    let (outcome, frames) =
        drive(KeyboardApi::set_macro_bytes(data.clone()), keyboard(9, vec![], vec![0x55; 100]));
    assert_eq!(outcome, Ok(Reply::Empty));
    assert_eq!(frames.len(), 6);
    assert_eq!(request_of(&frames[0], 1), vec![0x0d]);
    assert_eq!(request_of(&frames[1], 1), vec![0x10]);
    assert_eq!(request_of(&frames[2], 5), vec![0x0f, 0, 99, 1, 0xff]);
    let mut first = vec![0x0f, 0, 0, 28];
    first.extend_from_slice(&data[0..28]);
    assert_eq!(request_of(&frames[3], 32), first);
    let mut second = vec![0x0f, 0, 28, 12];
    second.extend_from_slice(&data[28..40]);
    assert_eq!(request_of(&frames[4], 16), second);
    assert_eq!(request_of(&frames[5], 5), vec![0x0f, 0, 99, 1, 0x00]);
}

#[test]
fn macro_write_and_read_round_trip() {
    let data: Vec<u8> = (0..50u8).map(|i| if i % 10 == 9 { 0 } else { b'a' + i % 26 }).collect();
    let mut device = keyboard(9, vec![], vec![0x55; 64]);
    let (outcome, _) = drive(KeyboardApi::set_macro_bytes(data.clone()), &mut device);
    assert_eq!(outcome, Ok(Reply::Empty));
    let (outcome, frames) = drive(KeyboardApi::get_macro_bytes(), &mut device);
    let mut expected = data.clone();
    expected.resize(64, 0);
    assert_eq!(outcome, Ok(Reply::Bytes(expected)));
    assert_eq!(frames.len(), 4);
    assert_eq!(request_of(&frames[0], 1), vec![0x0d]);
    assert_eq!(request_of(&frames[1], 4), vec![0x0e, 0, 0, 28]);
    assert_eq!(request_of(&frames[2], 4), vec![0x0e, 0, 28, 28]);
    assert_eq!(request_of(&frames[3], 4), vec![0x0e, 0, 56, 8]);
}

#[test]
fn an_oversized_macro_is_refused_before_the_buffer_is_touched() {
    let (outcome, frames) =
        drive(KeyboardApi::set_macro_bytes(vec![1; 101]), keyboard(9, vec![], vec![0; 100]));
    assert_eq!(outcome, Err(Error::SizeExceeded {
        expected: 100,
        actual: 101,
        context: "macro data",
    }));
    assert_eq!(frames.len(), 1);
    assert_eq!(request_of(&frames[0], 1), vec![0x0d]);
}

#[test]
fn a_macro_that_fills_the_buffer_is_written() {
    let (outcome, frames) =
        drive(KeyboardApi::set_macro_bytes(vec![1; 56]), keyboard(9, vec![], vec![0; 56]));
    assert_eq!(outcome, Ok(Reply::Empty));
    assert_eq!(frames.len(), 6);
}

#[test]
fn a_macro_buffer_without_room_for_the_marker_is_refused() {
    let (outcome, frames) =
        drive(KeyboardApi::set_macro_bytes(vec![]), keyboard(9, vec![], vec![]));
    assert_eq!(outcome, Err(Error::SizeExceeded { expected: 0, actual: 1, context: "macro data" }));
    assert_eq!(frames.len(), 1);
}

#[test]
fn macro_write_stops_at_the_first_failure() {
    let mut device = keyboard(9, vec![], vec![0; 100]);
    let (outcome, frames) = drive(KeyboardApi::set_macro_bytes(vec![1; 40]), |frame| {
        if frame[1] == 0x0f && frame[3] == 0 && frame[4] == 28 {
            None
        } else {
            device(frame)
        }
    });
    assert_eq!(outcome, Err(Error::Io));
    assert_eq!(frames.len(), 4);
    let (outcome, frames) = drive(KeyboardApi::set_macro_bytes(vec![1; 40]), |_| None);
    assert_eq!(outcome, Err(Error::Io));
    assert_eq!(frames.len(), 1);
}

#[test]
fn macro_read_fails_as_a_whole_when_a_window_fails() {
    let mut device = keyboard(9, vec![], vec![7; 100]);
    let (outcome, frames) = drive(KeyboardApi::get_macro_bytes(), |frame| {
        if frame[1] == 0x0e && frame[3] == 84 {
            Some(vec![0x0e, 0, 84])
        } else {
            device(frame)
        }
    });
    assert_eq!(outcome, Err(Error::BadResponse(ViaCommandId::DynamicKeymapMacroGetBuffer)));
    assert_eq!(frames.len(), 5);
}

#[test]
fn chunked_read_plans_windows_in_rising_order() {
    let plan = read_buffer(ViaCommandId::DynamicKeymapGetBuffer, 0x01f0, 60, 28).unwrap();
    assert_eq!(plan.len(), 3);
    assert_eq!(plan[0].payload, vec![0x01, 0xf0, 28]);
    assert_eq!(plan[1].payload, vec![0x02, 0x0c, 28]);
    assert_eq!(plan[2].payload, vec![0x02, 0x28, 4]);
    assert_eq!(plan[0].keep, Keep::Range { start: 4, len: 28 });
    assert_eq!(plan[2].keep, Keep::Range { start: 4, len: 4 });
    assert!(plan.iter().all(|request| request.command == ViaCommandId::DynamicKeymapGetBuffer));
    assert_eq!(read_buffer(ViaCommandId::DynamicKeymapGetBuffer, 7, 0, 28).unwrap().len(), 0);
    assert_eq!(read_buffer(ViaCommandId::DynamicKeymapGetBuffer, 0, 65536, 28).unwrap().len(), 2341);
}

#[test]
fn chunked_read_takes_the_window_size_asked_for() {
    let plan = read_buffer(ViaCommandId::DynamicKeymapMacroGetBuffer, 0, 25, 10).unwrap();
    assert_eq!(plan.len(), 3);
    assert_eq!(plan[0].payload, vec![0, 0, 10]);
    assert_eq!(plan[1].payload, vec![0, 10, 10]);
    assert_eq!(plan[2].payload, vec![0, 20, 5]);
    assert_eq!(plan[2].keep, Keep::Range { start: 4, len: 5 });
    let plan = read_buffer(ViaCommandId::DynamicKeymapMacroGetBuffer, 0, 30, 10).unwrap();
    assert_eq!(plan.len(), 3);
    assert_eq!(plan[2].payload, vec![0, 20, 10]);
    let plan = read_buffer(ViaCommandId::DynamicKeymapMacroGetBuffer, 0, 3, 1).unwrap();
    assert_eq!(plan.len(), 3);
    assert_eq!(plan[2].payload, vec![0, 2, 1]);
}

#[test]
fn chunked_read_refuses_what_cannot_be_addressed_or_framed() {
    assert_eq!(
        read_buffer(ViaCommandId::DynamicKeymapGetBuffer, 1, 65536, 28),
        Err(Error::SizeExceeded { expected: 65535, actual: 65536, context: "buffer" })
    );
    assert_eq!(
        read_buffer(ViaCommandId::DynamicKeymapGetBuffer, 70000, 1, 28),
        Err(Error::SizeExceeded { expected: 0, actual: 1, context: "buffer" })
    );
    assert_eq!(
        read_buffer(ViaCommandId::DynamicKeymapGetBuffer, 0, 10, 29),
        Err(Error::SizeExceeded { expected: 28, actual: 29, context: "window" })
    );
    assert_eq!(
        write_buffer(ViaCommandId::DynamicKeymapSetBuffer, &[1, 2, 3], 29),
        Err(Error::SizeExceeded { expected: 28, actual: 29, context: "window" })
    );
    assert_eq!(
        write_buffer(ViaCommandId::DynamicKeymapSetBuffer, &vec![0u8; 65537], 28),
        Err(Error::SizeExceeded { expected: 65536, actual: 65537, context: "buffer" })
    );
}

#[test]
fn chunked_write_plans_windows_in_rising_order() {
    let data: Vec<u8> = (0..30u8).collect();
    let plan = write_buffer(ViaCommandId::DynamicKeymapSetBuffer, &data, 28).unwrap();
    assert_eq!(plan.len(), 2);
    let mut first = vec![0, 0, 28];
    first.extend_from_slice(&data[..28]);
    assert_eq!(plan[0].payload, first);
    assert_eq!(plan[1].payload, vec![0, 28, 2, 28, 29]);
    assert_eq!(write_buffer(ViaCommandId::DynamicKeymapSetBuffer, &[], 28).unwrap().len(), 0);
    let plan = write_buffer(ViaCommandId::DynamicKeymapSetBuffer, &[9, 8, 7, 6, 5], 2).unwrap();
    assert_eq!(plan.len(), 3);
    assert_eq!(plan[0].payload, vec![0, 0, 2, 9, 8]);
    assert_eq!(plan[1].payload, vec![0, 2, 2, 7, 6]);
    assert_eq!(plan[2].payload, vec![0, 4, 1, 5]);
    assert!(plan.iter().all(|request| request.keep == Keep::Range { start: 0, len: 0 }));
}

#[test]
fn plans_of_the_keymap_and_the_macro_buffer_can_be_had_alone() {
    let info = MatrixInfo { rows: 5, cols: 14 };
    let plan = KeyboardApi::fast_read_raw_matrix(info, 1).unwrap();
    assert_eq!(plan.len(), 5);
    assert_eq!(plan[0].payload, vec![0, 140, 28]);
    assert_eq!(plan[4].payload, vec![0, 252, 28]);
    let plan = KeyboardApi::slow_read_raw_matrix(info, 1);
    assert_eq!(plan.len(), 70);
    assert_eq!(plan[15].payload, vec![1, 1, 1]);
    assert_eq!(plan[69].payload, vec![1, 4, 13]);
    let plan = KeyboardApi::fast_write_raw_matrix(&vec![vec![0x0102], vec![0x0304, 0x0506]]).unwrap();
    assert_eq!(plan.len(), 1);
    assert_eq!(plan[0].payload, vec![0, 0, 6, 1, 2, 3, 4, 5, 6]);
    let plan =
        KeyboardApi::slow_write_raw_matrix(info, &vec![vec![0x0102], vec![0x0304, 0x0506]]).unwrap();
    assert_eq!(plan.len(), 3);
    assert_eq!(plan[2].payload, vec![1, 0, 1, 5, 6]);
    let plan = KeyboardApi::macro_read_requests(30);
    assert_eq!(plan.len(), 2);
    assert_eq!(plan[1].payload, vec![0, 28, 2]);
    let plan = KeyboardApi::macro_write_requests(300, &[7, 8]).unwrap();
    assert_eq!(plan.len(), 4);
    assert_eq!(plan[0].command, ViaCommandId::DynamicKeymapMacroReset);
    assert_eq!(plan[1].payload, vec![0x01, 0x2b, 1, 0xff]);
    assert_eq!(plan[2].payload, vec![0, 0, 2, 7, 8]);
    assert_eq!(plan[3].payload, vec![0x01, 0x2b, 1, 0x00]);
    assert_eq!(
        KeyboardApi::macro_write_requests(1, &[7, 8]),
        Err(Error::SizeExceeded { expected: 1, actual: 2, context: "macro data" })
    );
}

#[test]
fn keycode_operations_use_the_fixed_fields() {
    let (outcome, frames) = drive(KeyboardApi::set_key(1, 2, 3, 0xa1b2), |frame| Some(echo(frame)));
    assert_eq!(outcome, Ok(Reply::Word(0xa1b2)));
    assert_eq!(request_of(&frames[0], 6), vec![0x05, 1, 2, 3, 0xa1, 0xb2]);
    let (outcome, frames) = drive(KeyboardApi::get_encoder_value(2, 1, true), |frame| {
        Some(echo_with(frame, 4, &[0x12, 0x34]))
    });
    assert_eq!(outcome, Ok(Reply::Word(0x1234)));
    assert_eq!(request_of(&frames[0], 4), vec![0x14, 2, 1, 1]);
    let (outcome, frames) =
        drive(KeyboardApi::set_encoder_value(2, 1, false, 0x0405), |frame| Some(echo(frame)));
    assert_eq!(outcome, Ok(Reply::Empty));
    assert_eq!(request_of(&frames[0], 6), vec![0x15, 2, 1, 0, 0x04, 0x05]);
}

#[test]
fn keyboard_values_follow_the_parameters() {
    let (outcome, frames) = drive(
        KeyboardApi::get_keyboard_value(KeyboardValue::SwitchMatrixState, vec![9], 3),
        |frame| Some(echo_with(frame, 3, &[0xa, 0xb, 0xc])),
    );
    assert_eq!(outcome, Ok(Reply::Bytes(vec![9, 0xa, 0xb])));
    assert_eq!(request_of(&frames[0], 3), vec![0x02, 0x03, 9]);
    let (outcome, frames) = drive(
        KeyboardApi::set_keyboard_value(KeyboardValue::DeviceIndication, vec![1, 2]),
        |frame| Some(echo(frame)),
    );
    assert_eq!(outcome, Ok(Reply::Empty));
    assert_eq!(request_of(&frames[0], 4), vec![0x03, 0x05, 1, 2]);
    assert_eq!(KeyboardValue::Uptime.code(), 1);
    assert_eq!(KeyboardValue::FirmwareVersion.code(), 4);
}

#[test]
fn custom_menu_operations_carry_their_bytes() {
    let (outcome, frames) =
        drive(KeyboardApi::get_custom_menu_value(vec![3, 4]), |frame| Some(echo_with(frame, 3, &[77])));
    assert_eq!(outcome, Ok(Reply::Bytes(vec![0x08, 3])));
    assert_eq!(request_of(&frames[0], 3), vec![0x08, 3, 4]);
    let (outcome, frames) =
        drive(KeyboardApi::set_custom_menu_value(vec![3, 4, 5]), |frame| Some(echo(frame)));
    assert_eq!(outcome, Ok(Reply::Empty));
    assert_eq!(request_of(&frames[0], 4), vec![0x07, 3, 4, 5]);
    let (outcome, frames) = drive(KeyboardApi::save_custom_menu(2), |frame| Some(echo(frame)));
    assert_eq!(outcome, Ok(Reply::Empty));
    assert_eq!(request_of(&frames[0], 2), vec![0x09, 2]);
}

#[test]
fn lighting_settings_sit_behind_channel_and_value() {
    let (outcome, frames) =
        drive(KeyboardApi::get_backlight_brightness(), |frame| Some(echo_with(frame, 3, &[200])));
    assert_eq!(outcome, Ok(Reply::Byte(200)));
    assert_eq!(request_of(&frames[0], 3), vec![0x08, 1, 1]);
    let (outcome, frames) =
        drive(KeyboardApi::get_rgb_matrix_color(), |frame| Some(echo_with(frame, 3, &[10, 20])));
    assert_eq!(outcome, Ok(Reply::Pair(10, 20)));
    assert_eq!(request_of(&frames[0], 3), vec![0x08, 3, 4]);
    let (outcome, frames) =
        drive(KeyboardApi::get_led_matrix_effect_speed(), |frame| Some(echo_with(frame, 3, &[5])));
    assert_eq!(outcome, Ok(Reply::Byte(5)));
    assert_eq!(request_of(&frames[0], 3), vec![0x08, 5, 3]);
    let (outcome, frames) =
        drive(KeyboardApi::set_rgblight_color(30, 40), |frame| Some(echo(frame)));
    assert_eq!(outcome, Ok(Reply::Empty));
    assert_eq!(request_of(&frames[0], 5), vec![0x07, 2, 4, 30, 40]);
    let (outcome, frames) =
        drive(KeyboardApi::set_rgblight_effect_speed(9), |frame| Some(echo(frame)));
    assert_eq!(outcome, Ok(Reply::Empty));
    assert_eq!(request_of(&frames[0], 4), vec![0x07, 2, 3, 9]);
    let (outcome, frames) = drive(KeyboardApi::save_lighting(), |frame| Some(echo(frame)));
    assert_eq!(outcome, Ok(Reply::Empty));
    assert_eq!(request_of(&frames[0], 1), vec![0x09]);
}

#[test]
fn audio_settings_are_flags() {
    let (outcome, frames) =
        drive(KeyboardApi::get_audio_enabled(), |frame| Some(echo_with(frame, 3, &[1])));
    assert_eq!(outcome, Ok(Reply::Flag(true)));
    assert_eq!(request_of(&frames[0], 3), vec![0x08, 4, 1]);
    let (outcome, _) =
        drive(KeyboardApi::get_audio_clicky_enabled(), |frame| Some(echo_with(frame, 3, &[2])));
    assert_eq!(outcome, Ok(Reply::Flag(false)));
    let (outcome, frames) =
        drive(KeyboardApi::set_audio_clicky_enabled(true), |frame| Some(echo(frame)));
    assert_eq!(outcome, Ok(Reply::Empty));
    assert_eq!(request_of(&frames[0], 4), vec![0x07, 4, 2, 1]);
    let (_, frames) = drive(KeyboardApi::set_audio_enabled(false), |frame| Some(echo(frame)));
    assert_eq!(request_of(&frames[0], 4), vec![0x07, 4, 1, 0]);
}

#[test]
fn maintenance_commands_carry_no_payload() {
    let (outcome, frames) = drive(KeyboardApi::reset_macros(), |frame| Some(echo(frame)));
    assert_eq!(outcome, Ok(Reply::Empty));
    assert_eq!(request_of(&frames[0], 1), vec![0x10]);
    let (_, frames) = drive(KeyboardApi::reset_eeprom(), |frame| Some(echo(frame)));
    assert_eq!(request_of(&frames[0], 1), vec![0x0a]);
    let (_, frames) = drive(KeyboardApi::jump_to_bootloader(), |frame| Some(echo(frame)));
    assert_eq!(request_of(&frames[0], 1), vec![0x0b]);
    let (outcome, frames) =
        drive(KeyboardApi::get_macro_count(), |frame| Some(echo_with(frame, 1, &[16])));
    assert_eq!(outcome, Ok(Reply::Byte(16)));
    assert_eq!(request_of(&frames[0], 1), vec![0x0c]);
}
