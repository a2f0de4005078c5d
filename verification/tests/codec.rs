use apdu::command::{
    read_binary, select_file, verify, BufferTooSmall, Command, ReadBinaryCommand,
    SelectFileCommand, VerifyCommand,
};
use apdu::response::{Error, Response};

#[test]
fn command_to_vec() {
    assert_eq!(
        vec![0x01, 0x02, 0x03, 0x04, 0x03, 0x05, 0x06, 0x07, 0x08],
        Vec::from(Command::new_with_payload_le(
            0x01,
            0x02,
            0x03,
            0x04,
            0x08,
            &[0x05, 0x06, 0x07]
        )),
    );
}

#[test]
fn header_only_command_is_four_bytes() {
    let command = Command::new(0x00, 0xA4, 0x04, 0x00);
    assert_eq!(command.len(false), 4);
    assert_eq!(command.len(true), 4);
    assert_eq!(command.to_vec(false), vec![0x00, 0xA4, 0x04, 0x00]);
    assert_eq!(command.to_vec(true), vec![0x00, 0xA4, 0x04, 0x00]);
}

#[test]
fn command_with_le_ends_in_le() {
    let command = Command::new_with_le(0x00, 0xB0, 0x00, 0x00, 0x10);
    assert_eq!(command.len(false), 5);
    assert_eq!(command.to_vec(false), vec![0x00, 0xB0, 0x00, 0x00, 0x10]);
}

#[test]
fn command_with_payload_has_lc() {
    let command = Command::new_with_payload(0x00, 0xA4, 0x12, 0x34, &[0x56, 0x78]);
    let bytes: Vec<u8> = command.into();
    assert_eq!(vec![0x00, 0xA4, 0x12, 0x34, 0x02, 0x56, 0x78], bytes);
}

#[test]
fn empty_payload_still_has_lc() {
    let command = Command::new_with_payload(0x00, 0xA4, 0x00, 0x00, &[]);
    assert_eq!(command.len(false), 5);
    assert_eq!(command.to_vec(false), vec![0x00, 0xA4, 0x00, 0x00, 0x00]);
}

#[test]
fn short_form_truncates_long_lengths() {
    let payload = vec![0xAB; 300];
    let command = Command::new_with_payload_le(0x00, 0xD6, 0x00, 0x00, 0x0123, &payload);
    let bytes = command.to_vec(false);
    assert_eq!(bytes.len(), 4 + 1 + 300 + 1);
    assert_eq!(command.len(false), bytes.len());
    assert_eq!(bytes[4], 44);
    assert_eq!(&bytes[5..305], payload.as_slice());
    assert_eq!(bytes[305], 0x23);
}

#[test]
fn extended_lc_is_marker_low_high() {
    let payload = vec![0x11; 0x0203];
    let command = Command::new_with_payload(0x00, 0xD6, 0x00, 0x00, &payload);
    let bytes = command.to_vec(true);
    assert_eq!(bytes.len(), 4 + 3 + 0x0203);
    assert_eq!(command.len(true), bytes.len());
    assert_eq!(&bytes[..7], &[0x00, 0xD6, 0x00, 0x00, 0x00, 0x03, 0x02]);
    assert_eq!(&bytes[7..], payload.as_slice());
}

#[test]
fn extended_le_without_payload_has_marker() {
    let command = Command::new_with_le(0x00, 0xB0, 0x00, 0x00, 0x0102);
    assert_eq!(command.to_vec(true), vec![0x00, 0xB0, 0x00, 0x00, 0x00, 0x02, 0x01]);
    assert_eq!(command.len(true), 7);
    assert_eq!(command.to_vec(false), vec![0x00, 0xB0, 0x00, 0x00, 0x02]);
}

#[test]
fn extended_le_after_payload_has_no_marker() {
    let command = Command::new_with_payload_le(0x00, 0xB0, 0x00, 0x00, 0xFFFF, &[0x01]);
    assert_eq!(
        command.to_vec(true),
        vec![0x00, 0xB0, 0x00, 0x00, 0x01, 0x01, 0xFF, 0xFF]
    );
    assert_eq!(command.len(true), 8);
}

#[test]
fn extended_flag_keeps_short_values_short() {
    let payload = vec![0x22; 255];
    let command = Command::new_with_payload_le(0x00, 0xD6, 0x00, 0x00, 255, &payload);
    let bytes = command.to_vec(true);
    assert_eq!(bytes.len(), 4 + 1 + 255 + 1);
    assert_eq!(bytes[4], 0xFF);
    assert_eq!(bytes[260], 0xFF);
    assert_eq!(bytes, command.to_vec(false));
}

#[test]
fn write_fills_the_front_of_the_buffer() {
    let command = Command::new_with_payload_le(0x01, 0x02, 0x03, 0x04, 0x08, &[0x05, 0x06, 0x07]);
    let mut buf = [0xEE; 12];
    assert_eq!(command.write(&mut buf, false), Ok(9));
    assert_eq!(
        buf,
        [0x01, 0x02, 0x03, 0x04, 0x03, 0x05, 0x06, 0x07, 0x08, 0xEE, 0xEE, 0xEE]
    );
}

#[test]
fn write_into_exact_buffer() {
    let command = Command::new_with_le(0x00, 0xB0, 0x00, 0x00, 0x0102);
    let mut buf = [0u8; 7];
    assert_eq!(command.write(&mut buf, true), Ok(7));
    assert_eq!(buf, [0x00, 0xB0, 0x00, 0x00, 0x00, 0x02, 0x01]);
}

#[test]
fn write_agrees_with_to_vec() {
    let payload = vec![0x5A; 400];
    let command = Command::new_with_payload_le(0x80, 0x10, 0x20, 0x30, 0x1234, &payload);
    for extended in [false, true] {
        let expected = command.to_vec(extended);
        let mut buf = vec![0u8; expected.len()];
        assert_eq!(command.write(&mut buf, extended), Ok(expected.len()));
        assert_eq!(buf, expected);
    }
}

#[test]
fn write_rejects_a_short_buffer() {
    let command = Command::new_with_payload_le(0x01, 0x02, 0x03, 0x04, 0x08, &[0x05, 0x06, 0x07]);
    let mut buf = [0xEE; 8];
    assert_eq!(
        command.write(&mut buf, false),
        Err(BufferTooSmall { needed: 9 })
    );
    assert_eq!(buf, [0xEE; 8]);
    let mut empty: [u8; 0] = [];
    assert_eq!(
        command.write(&mut empty, false),
        Err(BufferTooSmall { needed: 9 })
    );
}

#[test]
fn payload_follows_header_and_length_byte() {
    for n in [0usize, 1, 2, 100, 255] {
        let payload: Vec<u8> = (0..n).map(|i| (i * 7) as u8).collect();
        let command = Command::new_with_payload(0x0A, 0x0B, 0x0C, 0x0D, &payload);
        for extended in [false, true] {
            let bytes = command.to_vec(extended);
            assert_eq!(bytes[4] as usize, n);
            assert_eq!(&bytes[5..], payload.as_slice());
        }
    }
}

#[test]
fn decoded_encoding_keeps_the_header() {
    let command = Command::new_with_payload_le(0x0A, 0x0B, 0x0C, 0x0D, 0x10, &[1, 2, 3]);
    let bytes = command.to_vec(false);
    let response = Response::decode(&bytes);
    assert_eq!(&response.payload[..4], &[0x0A, 0x0B, 0x0C, 0x0D]);

    let bare = Command::new(0x0A, 0x0B, 0x0C, 0x0D).to_vec(false);
    let response = Response::decode(&bare);
    assert_eq!(response.payload, &[0x0A, 0x0B]);
    assert_eq!(response.trailer, (0x0C, 0x0D));
}

#[test]
fn decode_splits_payload_and_trailer() {
    let bytes = [0x12, 0x34, 0x56, 0x90, 0x00];
    let response = Response::decode(&bytes);
    assert_eq!(response.payload, &[0x12, 0x34, 0x56]);
    assert_eq!(response.trailer, (0x90, 0x00));
    assert!(response.is_ok());
    let response = Response::from(&bytes[..]);
    assert_eq!(response.payload, &[0x12, 0x34, 0x56]);
    assert_eq!(response.trailer, (0x90, 0x00));
}

#[test]
fn decode_of_two_bytes_has_empty_payload() {
    let response = Response::decode(&[0x6A, 0x82]);
    assert!(response.payload.is_empty());
    assert_eq!(response.trailer, (0x6A, 0x82));
    assert!(!response.is_ok());
}

#[test]
fn decode_of_short_input_is_all_payload() {
    let response = Response::decode(&[]);
    assert!(response.payload.is_empty());
    assert_eq!(response.trailer, (0x00, 0x00));
    assert!(!response.is_ok());

    let response = Response::decode(&[0x90]);
    assert_eq!(response.payload, &[0x90]);
    assert_eq!(response.trailer, (0x00, 0x00));
    assert!(!response.is_ok());
}

#[test]
fn new_response_is_empty() {
    let response = Response::new();
    assert!(response.payload.is_empty());
    assert_eq!(response.trailer, (0, 0));
    let response = Response::default();
    assert!(response.payload.is_empty());
    assert_eq!(response.trailer, (0, 0));
}

#[test]
fn is_ok_takes_two_status_words_only() {
    for sw1 in 0..=255u8 {
        for sw2 in 0..=255u8 {
            let response = Response {
                payload: &[],
                trailer: (sw1, sw2),
            };
            let expected = (sw1, sw2) == (0x90, 0x00) || (sw1, sw2) == (0x91, 0x00);
            assert_eq!(response.is_ok(), expected);
        }
    }
    let response = Response {
        payload: &[],
        trailer: (0x90, 0x01),
    };
    assert!(!response.is_ok());
}

#[test]
fn ok_response_converts_to_its_payload() {
    let bytes = [0x12, 0x34, 0x91, 0x00];
    let result: Result<&[u8], Error> = Response::decode(&bytes).into();
    match result {
        Ok(payload) => assert_eq!(payload, &[0x12, 0x34]),
        Err(_) => panic!("the response is ok"),
    }
}

#[test]
fn failed_response_converts_to_an_error_that_keeps_it() {
    let bytes = [0x12, 0x34, 0x6A, 0x82];
    let result: Result<&[u8], Error> = Response::decode(&bytes).into();
    match result {
        Ok(_) => panic!("the response is not ok"),
        Err(error) => {
            assert_eq!(error.response.payload, &[0x12, 0x34]);
            assert_eq!(error.response.trailer, (0x6A, 0x82));
            assert_eq!(
                error.message(),
                "The APDU reader returned an error (0x6A, 0x82)."
            );
        }
    }
}

#[test]
fn error_message_writes_small_bytes_with_one_digit() {
    let error = Error {
        response: Response {
            payload: &[],
            trailer: (0x00, 0x0F),
        },
    };
    assert_eq!(
        error.message(),
        format!("The APDU reader returned an error ({:#X}, {:#X}).", 0x00, 0x0F)
    );
    assert_eq!(error.message(), "The APDU reader returned an error (0x0, 0xF).");
}

#[test]
fn select_file_carries_its_payload() {
    let command = select_file(0x12, 0x34, &[0x56, 0x78]);
    let bytes: Vec<u8> = command.into();
    assert_eq!(vec![0x00, 0xA4, 0x12, 0x34, 0x02, 0x56, 0x78], bytes);

    let command: Command = SelectFileCommand::new(0x04, 0x0C, &[0xA0, 0x00]).into();
    assert_eq!(
        (command.cla, command.ins, command.p1, command.p2, command.le),
        (0x00, 0xA4, 0x04, 0x0C, None)
    );
    assert_eq!(command.payload, Some(&[0xA0, 0x00][..]));
}

#[test]
fn select_file_without_payload_has_no_lc() {
    let bytes: Vec<u8> = select_file(0x00, 0x00, &[]).into();
    assert_eq!(vec![0x00, 0xA4, 0x00, 0x00], bytes);
    let command: Command = select_file(0x00, 0x00, &[]).into();
    assert_eq!(command.payload, None);
}

#[test]
fn read_binary_expects_le_bytes() {
    let bytes: Vec<u8> = read_binary(0x01, 0x02, 0x10).into();
    assert_eq!(vec![0x00, 0xB0, 0x01, 0x02, 0x10], bytes);
    let command: Command = ReadBinaryCommand::new(0x01, 0x02, 0x00).into();
    assert_eq!(command.le, Some(0));
    assert_eq!(command.payload, None);
    assert_eq!(command.to_vec(false), vec![0x00, 0xB0, 0x01, 0x02, 0x00]);
}

#[test]
fn verify_sends_the_pin() {
    let bytes: Vec<u8> = verify(0x80, &[0x31, 0x32, 0x33, 0x34]).into();
    assert_eq!(vec![0x00, 0x20, 0x00, 0x80, 0x04, 0x31, 0x32, 0x33, 0x34], bytes);
    let bytes: Vec<u8> = VerifyCommand::new(0x80, &[]).into();
    assert_eq!(vec![0x00, 0x20, 0x00, 0x80], bytes);
    let command: Command = verify(0x81, &[0x00]).into();
    assert_eq!((command.cla, command.ins, command.p1, command.p2), (0x00, 0x20, 0x00, 0x81));
}
