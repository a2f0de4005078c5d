use apdu::handler::{HandleError, Handler, HandlerInCtx};
use apdu::rule::{BytePattern, Outcome, Value};
use apdu::text::{format_decimal, format_upper_hex};
use apdu::{Error, Response};

fn classify(sw1: u8, sw2: u8) -> Error {
    let bytes = [0xDE, 0xAD, sw1, sw2];
    Error::from(&bytes[..])
}

#[test]
fn status_table_ends_in_a_catch_all() {
    let table = Error::table();
    assert_eq!(table.len(), 136);
    assert!(table.is_exhaustive());
    let last = table.get(135).unwrap();
    assert_eq!(last.sw1, BytePattern::Any);
    assert_eq!(last.sw2, BytePattern::Any);
    assert_eq!(last.outcome, Error::Unknown(0, 0));
}

#[test]
fn status_words_with_exact_rules() {
    assert_eq!(classify(0x62, 0x81), Error::DataCorrupted);
    assert_eq!(classify(0x62, 0x00), Error::NvRamNotChanged);
    assert_eq!(classify(0x64, 0x00), Error::NvRamNotChanged);
    assert_eq!(classify(0x63, 0x00), Error::NvRamChanged);
    assert_eq!(classify(0x65, 0x00), Error::NvRamChanged);
    assert_eq!(classify(0x69, 0x82), Error::SecurityConditionNotSatisfied);
    assert_eq!(classify(0x69, 0xF1), Error::MissingPrivileges);
    assert_eq!(classify(0x99, 0x86), Error::MissingPrivileges);
    assert_eq!(classify(0x6A, 0x82), Error::FileNotFound);
    assert_eq!(classify(0x9D, 0x64), Error::NoApplicationLoaded);
    assert_eq!(classify(0x90, 0x04), Error::PinNotVerified);
}

#[test]
fn status_words_by_class() {
    assert_eq!(classify(0x06, 0x55), Error::ClassNotSupported);
    assert_eq!(classify(0x6E, 0x00), Error::ClassNotSupported);
    assert_eq!(classify(0x67, 0x12), Error::WrongLength);
    assert_eq!(classify(0x6D, 0xFF), Error::InstructionInvalid);
}

#[test]
fn status_words_that_carry_a_byte() {
    assert_eq!(classify(0x61, 0x10), Error::ResponseBytesStillAvailable(0x10));
    assert_eq!(classify(0x62, 0xC3), Error::CounterValue(3));
    assert_eq!(classify(0x63, 0xC7), Error::VerifyFailed(7));
    assert_eq!(classify(0x63, 0xC0), Error::VerifyFailed(0));
    assert_eq!(classify(0x63, 0xCF), Error::VerifyFailed(15));
    assert_eq!(classify(0x6C, 0x20), Error::IncorrectLengthOf(0x20));
    assert_eq!(classify(0x6F, 0x42), Error::InternalError(0x42));
}

#[test]
fn specific_rules_come_before_general_ones() {
    assert_eq!(classify(0x6A, 0x00), Error::IncorrectParameters);
    assert_eq!(classify(0x6B, 0x00), Error::IncorrectParameters);
    assert_eq!(classify(0x6B, 0x01), Error::IncorrectReference);
    assert_eq!(classify(0x6C, 0x00), Error::IncorrectLength);
    assert_eq!(classify(0x6C, 0x01), Error::IncorrectLengthOf(0x01));
    assert_eq!(classify(0x6F, 0x00), Error::CommandAborted);
    assert_eq!(classify(0x6F, 0xFF), Error::Dead);
    assert_eq!(classify(0x6F, 0xFE), Error::InternalError(0xFE));
}

#[test]
fn unknown_status_words_keep_their_bytes() {
    assert_eq!(classify(0x70, 0x00), Error::Unknown(0x70, 0x00));
    assert_eq!(classify(0x90, 0x00), Error::Unknown(0x90, 0x00));
    assert_eq!(classify(0x63, 0xD0), Error::Unknown(0x63, 0xD0));
    assert_eq!(classify(0x62, 0xBF), Error::Unknown(0x62, 0xBF));
    assert_eq!(Error::from(&[0x6A][..]), Error::Unknown(0x00, 0x00));
    assert_eq!(Error::from(&[][..]), Error::Unknown(0x00, 0x00));
}

#[test]
fn every_status_word_has_an_error() {
    let table = Error::table();
    for sw1 in 0..=255u8 {
        for sw2 in 0..=255u8 {
            let response = Response {
                payload: &[],
                trailer: (sw1, sw2),
            };
            let error = Error::from_outcome(&table.classify(&response));
            if let Error::Unknown(a, b) = error {
                assert_eq!((a, b), (sw1, sw2));
            }
        }
    }
}

#[test]
fn errors_come_from_responses_and_their_errors() {
    let bytes = [0x01, 0x69, 0x85];
    assert_eq!(Error::from(Response::decode(&bytes)), Error::ConditionNotSatisfied);
    let result: Result<&[u8], apdu::response::Error> = Response::decode(&bytes).into();
    assert_eq!(Error::from(result.unwrap_err()), Error::ConditionNotSatisfied);
}

#[test]
fn outcome_fills_the_fields_of_its_kind() {
    let outcome = Outcome {
        kind: Error::VerifyFailed(0),
        values: vec![Value::Byte(3)],
    };
    assert_eq!(Error::from_outcome(&outcome), Error::VerifyFailed(3));
    let outcome = Outcome {
        kind: Error::Unknown(0, 0),
        values: vec![Value::Byte(0x12), Value::Byte(0x34)],
    };
    assert_eq!(Error::from_outcome(&outcome), Error::Unknown(0x12, 0x34));
    let outcome = Outcome {
        kind: Error::Unknown(9, 9),
        values: vec![Value::Payload(&[1]), Value::Byte(0x34), Value::Byte(0x56)],
    };
    assert_eq!(Error::from_outcome(&outcome), Error::Unknown(0, 0x34));
    let outcome = Outcome {
        kind: Error::Dead,
        values: vec![Value::Byte(3)],
    };
    assert_eq!(Error::from_outcome(&outcome), Error::Dead);
    let outcome = Outcome {
        kind: Error::CounterValue(5),
        values: vec![],
    };
    assert_eq!(Error::from_outcome(&outcome), Error::CounterValue(0));
}

#[test]
fn hexadecimal_is_upper_case_without_leading_zeros() {
    assert_eq!(format_upper_hex(0x00), "0x0");
    assert_eq!(format_upper_hex(0x0A), "0xA");
    assert_eq!(format_upper_hex(0x10), "0x10");
    assert_eq!(format_upper_hex(0x6A), "0x6A");
    assert_eq!(format_upper_hex(0xFF), "0xFF");
    for b in 0..=255u8 {
        assert_eq!(format_upper_hex(b), format!("{:#X}", b));
    }
}

#[test]
fn decimal_has_no_leading_zeros() {
    assert_eq!(format_decimal(0), "0");
    assert_eq!(format_decimal(9), "9");
    assert_eq!(format_decimal(10), "10");
    assert_eq!(format_decimal(256), "256");
    assert_eq!(format_decimal(1_000_000), "1000000");
    assert_eq!(format_decimal(usize::MAX), format!("{}", usize::MAX));
}

#[test]
fn handle_error_describes_itself() {
    assert_eq!(
        HandleError::NotEnoughBuffer(258).message(),
        "The buffer is too small to write the response. (needs 258 bytes)"
    );
    assert_eq!(
        HandleError::Nfc("card removed".to_string()).message(),
        "card removed"
    );
}

struct Echo;

impl HandlerInCtx<()> for Echo {
    fn handle_in_ctx(
        &self,
        _ctx: (),
        command: &[u8],
        response: &mut [u8],
    ) -> Result<usize, HandleError> {
        let needed = command.len() + 2;
        if response.len() < needed {
            return Err(HandleError::NotEnoughBuffer(needed));
        }
        response[..command.len()].copy_from_slice(command);
        response[command.len()] = 0x90;
        response[command.len() + 1] = 0x00;
        Ok(needed)
    }
}

impl Handler for Echo {}

#[test]
fn handler_hands_the_command_on_without_context() {
    let command = apdu::Command::new_with_le(0x00, 0xB0, 0x00, 0x00, 0x02).to_vec(false);
    let mut buffer = [0u8; 16];
    let written = Echo.handle(&command, &mut buffer).unwrap();
    assert_eq!(written, 7);
    let response = Response::decode(&buffer[..written]);
    assert!(response.is_ok());
    assert_eq!(response.payload, command.as_slice());

    let mut small = [0u8; 4];
    match Echo.handle(&command, &mut small) {
        Err(HandleError::NotEnoughBuffer(needed)) => assert_eq!(needed, 7),
        other => panic!("unexpected result {:?}", other),
    }
}
