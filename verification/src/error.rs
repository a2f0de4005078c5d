//! The status words of ISO 7816-4 and of common vendors, as a classification
//! table and as the errors that it yields.

use crate::response::{Response, ResponseView};
use crate::rule::{BytePattern, Extractor, Outcome, Rule, RuleView, Value, ValueView};
use crate::table::{classify, exhaustive, lemma_exhaustive_table_is_total, RuleTable};
use vstd::prelude::*;

verus! {

/// An error that was returned from the card or reader.
#[derive(Debug, Clone, Copy, PartialEq, Eq)]
pub enum Error {
    /// Class not supported.
    ClassNotSupported,
    /// Command successfully executed; N bytes of data are still available.
    ResponseBytesStillAvailable(u8),
    /// NVRAM not changed.
    NvRamNotChanged,
    /// Part of returned data may be corrupted.
    DataCorrupted,
    /// End of file.
    EndOfFile,
    /// The file is already invalidated.
    FileInvalidated,
    /// The file has an invalid format.
    FileInvalid,
    /// No input available from a sensor on the card.
    NoInputAvailable,
    /// Wrong R-MAC found.
    WrongRMac,
    /// The card is locked.
    CardLocked,
    /// Counter with value N.
    CounterValue(u8),
    /// Wrong C-MAC found.
    WrongCmac,
    /// Internal reset occurred.
    InternalReset,
    /// The default agent is locked.
    DefaultAgentLocked,
    /// The cardholder is locked.
    CardholderLocked,
    /// Basement is the current agent.
    BasementIsCurrentAgent,
    /// NVRAM changed.
    NvRamChanged,
    /// The file was filled up by the last write: loading or updating it is not allowed.
    FileFilledUp,
    /// The card key is not supported.
    CardKeyNotSupported,
    /// The reader key is not supported.
    ReaderKeyNotSupported,
    /// Plaintext transmission is not supported.
    PlaintextTransmissionNotSupported,
    /// Secured transmission is not supported.
    SecuredTransmissionNotSupported,
    /// Volatile memory is not available.
    VmNotAvailable,
    /// Non-volatile memory is not available.
    NvmNotAvailable,
    /// The key number is invalid.
    KeyNumberInvalid,
    /// The key length is not correct.
    KeyLengthNotCorrect,
    /// Verify failed: N tries left.
    VerifyFailed(u8),
    /// Received insufficient data.
    InsufficientData,
    /// Received insufficient data: proactive command pending.
    InsufficientDataPending,
    /// Command timed out: immediate response required by the card.
    CommandTimeout,
    /// Failed to write to memory: maybe a hardware issue?
    MemoryWriteFailed,
    /// Memory failure occurred: maybe a hardware issue?
    MemoryFailure,
    /// Receiving timeout.
    ReceivingTimeout,
    /// Parity error occurred while receiving.
    ReceivingParityError,
    /// Checksum mismatch.
    WrongChecksum,
    /// The DF file has no FCI: file control information.
    DfFileNoFci,
    /// No SF or KF file found under the DF file.
    NoSfOrKfFound,
    /// Incorrect encryption or decryption padding found.
    IncorrectCryptoPadding,
    /// Wrong length found.
    WrongLength,
    /// The requested function is not supported by the card.
    NotSupportedByCard,
    /// Logical channel is not supported.
    LogicalChannelNotSupported,
    /// Secure messaging is not supported.
    SecureMessagingNotSupported,
    /// Last command expected on the chain.
    LastCommandExpected,
    /// Command chaining is not supported.
    CommandChainingNotSupported,
    /// The command is not allowed.
    CommandNotAllowed,
    /// The command is not accepted.
    CommandNotAccepted,
    /// The command is incompatible with the file structure.
    CommandIncompatible,
    /// Security condition is not satisfied.
    SecurityConditionNotSatisfied,
    /// Authentication method is blocked.
    AuthenticationMethodBlocked,
    /// Referenced data is reversibly blocked or invalidated.
    ReferencedDataBlocked,
    /// Conditions of use is not satisfied.
    ConditionNotSatisfied,
    /// Command not allowed: no current EF.
    NoCurrentEf,
    /// Expected Secure Messaging object is missing.
    SmObjectMissing,
    /// Incorrect Secure Messaging object found.
    SmObjectIncorrect,
    /// The data must be updated again.
    DataMustBeUpdated,
    /// POL1 of the currently enabled profile prevents the action.
    ActionPrevented,
    /// Permission denied.
    PermissionDenied,
    /// Permission denied: missing privileges.
    MissingPrivileges,
    /// P1 and/or P2 are incorrect.
    IncorrectParameters,
    /// The parameters in the data field is incorrect.
    IncorrectDataFieldParameters,
    /// The function is not supported.
    FunctionNotSupported,
    /// The file is not found.
    FileNotFound,
    /// The record is not found.
    RecordNotFound,
    /// Insufficient memory space in the record or file.
    InsufficientMemory,
    /// Lc value is inconsistent with the TLV structure.
    LcInconsistent,
    /// The referenced data is not found.
    ReferencedDataNotFound,
    /// The file already exists.
    FileAlreadyExists,
    /// The name of DF already exists.
    DfNameAlreadyExists,
    /// Wrong parameter value found.
    WrongParameterValue,
    /// Incorrect reference found.
    IncorrectReference,
    /// Incorrect length found.
    IncorrectLength,
    /// Incorrect length found: it is N actually.
    IncorrectLengthOf(u8),
    /// The instruction is not supported or invalid.
    InstructionInvalid,
    /// Command aborted: internal error occurred.
    CommandAborted,
    /// The card is dead.
    Dead,
    /// Internal error occurred: code N.
    InternalError(u8),
    /// PIN is not verified successfully: 3 or more tries left.
    PinNotVerified,
    /// Unblock try counter has reached to zero.
    UnblockTryCounterZero,
    /// Insufficient memory: no more storage is available.
    NoStorageAvailable,
    /// Failed to write to EEPROM.
    EepromFailed,
    /// The application is permanently locked.
    ApplicationLocked,
    /// No EF is selected.
    NoEfSelected,
    /// Access range exceeded.
    AccessRangeExceeded,
    /// FID, record or comparison pattern is not found.
    FidNotFound,
    /// Required MAC is unavailable.
    MacUnavailable,
    /// The selected file type does not match command.
    FileTypeNotMatch,
    /// No PIN is defined.
    NoPinDefined,
    /// Authentication failed: access conditions are not satisfied.
    AuthenticationFailed,
    /// ASK RANDOM or GIVE RANDOM was not executed.
    RandomNotExecuted,
    /// PIN verification was not successful.
    PinVerificationFailed,
    /// INCREASE or DECREASE was not executed: reached to its limit.
    IncreaseOrDecreaseNotExecuted,
    /// Error occurred during the authentication.
    AuthenticationError,
    /// Incorrect certificate type.
    IncorrectCertificateType,
    /// Incorrect size of the session data.
    IncorrectSessionDataSize,
    /// Incorrect size of DIR file record.
    IncorrectDirFileRecordSize,
    /// Incorrect size of FCI record.
    IncorrectFciRecordSize,
    /// Incorrect size of code.
    IncorrectCodeSize,
    /// Insufficient memory found to load the application.
    InsufficientMemoryLoadApplication,
    /// Invalid AID found.
    InvalidAid,
    /// Duplicated AID found.
    DuplicatedAid,
    /// The application was loaded previously.
    ApplicationLoadedPreviously,
    /// Application history is full.
    ApplicationHistoryFull,
    /// Application is not opened.
    ApplicationNotOpen,
    /// Invalid offset found.
    InvalidOffset,
    /// The application is already loaded.
    ApplicationLoaded,
    /// Invalid certificate found.
    InvalidCertificate,
    /// Invalid signature found.
    InvalidSignature,
    /// Invalid KTU found.
    InvalidKtu,
    /// MTU controls are not set.
    MsmControlsNotSet,
    /// Application signature does not exist.
    ApplicationSignatureNotExists,
    /// KTU does not exist.
    KtuNotExists,
    /// The application was not loaded.
    ApplicationNotLoaded,
    /// Invalid data length found in open command.
    InvalidOpenCommandLength,
    /// Invalid start address found in check.
    InvalidStartAddress,
    /// Invalid length found in check.
    InvalidLength,
    /// Illegal memory check area found.
    IllegalMemoryCheckArea,
    /// Invalid ciphertext found of MSM controls.
    InvalidMsmControlsCiphertext,
    /// MSM controls are already set.
    MsmControlsAlreadySet,
    /// Data length of MSM controls is less than 2 bytes.
    MsmControlsLengthTooShort,
    /// Excess ciphertext found of MSM controls.
    ExcessMsmControlsCiphertext,
    /// Verification failed for MSM controls.
    MsmControlsVerificationFailed,
    /// Invalid MCD issuer production ID found.
    InvalidMcdIssuerProductionId,
    /// Invalid MCD issuer ID found.
    InvalidMcdIssuerId,
    /// Invalid data date of MSM controls was set.
    InvalidMsmControlsDataDate,
    /// Invalid MCD number found.
    InvalidMcdNumber,
    /// MAC verification failed.
    MacVerificationFailed,
    /// Reached to the maximum number of unblocks.
    UnblockLimitReached,
    /// The card was not blocked.
    CardNotBlocked,
    /// Crypto functions are not available.
    CryptoFunctionsNotAvailable,
    /// No applications are loaded.
    NoApplicationLoaded,
    /// A status word that the table does not know, with both of its bytes.
    Unknown(u8, u8),
}

/// A rule for an error that carries no value.
pub open spec fn rule(sw1: BytePattern, sw2: BytePattern, error: Error) -> RuleView<Error> {
    RuleView { sw1, sw2, outcome: error, fields: Seq::empty() }
}

/// A rule for an error that carries the values of `fields`. The values that
/// `error` itself holds do not count: classification puts the extracted
/// values in their place.
pub open spec fn rule_with(
    sw1: BytePattern,
    sw2: BytePattern,
    error: Error,
    fields: Seq<Extractor>,
) -> RuleView<Error> {
    RuleView { sw1, sw2, outcome: error, fields }
}

/// The extractor of the second status byte, under `mask` if there is one.
pub open spec fn second_byte(mask: Option<u8>) -> Seq<Extractor> {
    seq![Extractor::Sw2(mask)]
}

/// The extractors of both status bytes, unmasked.
pub open spec fn both_bytes() -> Seq<Extractor> {
    seq![Extractor::Sw1(None), Extractor::Sw2(None)]
}

fn extract_second_byte(mask: Option<u8>) -> (fields: Vec<Extractor>)
    ensures
        fields@ == second_byte(mask),
{
    let mut fields: Vec<Extractor> = Vec::new();
    fields.push(Extractor::Sw2(mask));
    assert(fields@ =~= second_byte(mask));
    fields
}

fn extract_both_bytes() -> (fields: Vec<Extractor>)
    ensures
        fields@ == both_bytes(),
{
    let mut fields: Vec<Extractor> = Vec::new();
    fields.push(Extractor::Sw1(None));
    fields.push(Extractor::Sw2(None));
    assert(fields@ =~= both_bytes());
    fields
}

/// The table of status words, in the order in which its rules are tried.
/// The last rule takes every status word that no rule before it takes.
pub open spec fn rules() -> Seq<RuleView<Error>> {
    Seq::empty()
        .push(rule(BytePattern::Exact(0x06), BytePattern::Any, Error::ClassNotSupported))
        .push(rule(BytePattern::Exact(0x6E), BytePattern::Any, Error::ClassNotSupported))
        .push(rule_with(BytePattern::Exact(0x61), BytePattern::Any, Error::ResponseBytesStillAvailable(0), second_byte(None)))
        .push(rule(BytePattern::Exact(0x62), BytePattern::Exact(0x00), Error::NvRamNotChanged))
        .push(rule(BytePattern::Exact(0x64), BytePattern::Exact(0x00), Error::NvRamNotChanged))
        .push(rule(BytePattern::Exact(0x62), BytePattern::Exact(0x81), Error::DataCorrupted))
        .push(rule(BytePattern::Exact(0x62), BytePattern::Exact(0x82), Error::EndOfFile))
        .push(rule(BytePattern::Exact(0x62), BytePattern::Exact(0x83), Error::FileInvalidated))
        .push(rule(BytePattern::Exact(0x62), BytePattern::Exact(0x84), Error::FileInvalid))
        .push(rule(BytePattern::Exact(0x62), BytePattern::Exact(0x85), Error::NoInputAvailable))
        .push(rule(BytePattern::Exact(0x62), BytePattern::Exact(0xA2), Error::WrongRMac))
        .push(rule(BytePattern::Exact(0x62), BytePattern::Exact(0xA4), Error::CardLocked))
        .push(rule_with(BytePattern::Exact(0x62), BytePattern::Range(0xC0, 0xCF), Error::CounterValue(0), second_byte(Some(0x0F))))
        .push(rule(BytePattern::Exact(0x62), BytePattern::Exact(0xF1), Error::WrongCmac))
        .push(rule(BytePattern::Exact(0x62), BytePattern::Exact(0xF3), Error::InternalReset))
        .push(rule(BytePattern::Exact(0x62), BytePattern::Exact(0xF5), Error::DefaultAgentLocked))
        .push(rule(BytePattern::Exact(0x62), BytePattern::Exact(0xF7), Error::CardholderLocked))
        .push(rule(BytePattern::Exact(0x62), BytePattern::Exact(0xF8), Error::BasementIsCurrentAgent))
        .push(rule(BytePattern::Exact(0x63), BytePattern::Exact(0x00), Error::NvRamChanged))
        .push(rule(BytePattern::Exact(0x65), BytePattern::Exact(0x00), Error::NvRamChanged))
        .push(rule(BytePattern::Exact(0x63), BytePattern::Exact(0x81), Error::FileFilledUp))
        .push(rule(BytePattern::Exact(0x63), BytePattern::Exact(0x82), Error::CardKeyNotSupported))
        .push(rule(BytePattern::Exact(0x63), BytePattern::Exact(0x83), Error::ReaderKeyNotSupported))
        .push(rule(BytePattern::Exact(0x63), BytePattern::Exact(0x84), Error::PlaintextTransmissionNotSupported))
        .push(rule(BytePattern::Exact(0x63), BytePattern::Exact(0x85), Error::SecuredTransmissionNotSupported))
        .push(rule(BytePattern::Exact(0x63), BytePattern::Exact(0x86), Error::VmNotAvailable))
        .push(rule(BytePattern::Exact(0x63), BytePattern::Exact(0x87), Error::NvmNotAvailable))
        .push(rule(BytePattern::Exact(0x63), BytePattern::Exact(0x88), Error::KeyNumberInvalid))
        .push(rule(BytePattern::Exact(0x63), BytePattern::Exact(0x89), Error::KeyLengthNotCorrect))
        .push(rule_with(BytePattern::Exact(0x63), BytePattern::Range(0xC0, 0xCF), Error::VerifyFailed(0), second_byte(Some(0x0F))))
        .push(rule(BytePattern::Exact(0x63), BytePattern::Exact(0xF1), Error::InsufficientData))
        .push(rule(BytePattern::Exact(0x63), BytePattern::Exact(0xF2), Error::InsufficientDataPending))
        .push(rule(BytePattern::Exact(0x64), BytePattern::Exact(0x01), Error::CommandTimeout))
        .push(rule(BytePattern::Exact(0x65), BytePattern::Exact(0x01), Error::MemoryWriteFailed))
        .push(rule(BytePattern::Exact(0x65), BytePattern::Exact(0x81), Error::MemoryFailure))
        .push(rule(BytePattern::Exact(0x66), BytePattern::Exact(0x00), Error::ReceivingTimeout))
        .push(rule(BytePattern::Exact(0x66), BytePattern::Exact(0x01), Error::ReceivingParityError))
        .push(rule(BytePattern::Exact(0x66), BytePattern::Exact(0x02), Error::WrongChecksum))
        .push(rule(BytePattern::Exact(0x66), BytePattern::Exact(0x03), Error::DfFileNoFci))
        .push(rule(BytePattern::Exact(0x66), BytePattern::Exact(0x04), Error::NoSfOrKfFound))
        .push(rule(BytePattern::Exact(0x66), BytePattern::Exact(0x69), Error::IncorrectCryptoPadding))
        .push(rule(BytePattern::Exact(0x67), BytePattern::Any, Error::WrongLength))
        .push(rule(BytePattern::Exact(0x68), BytePattern::Exact(0x00), Error::NotSupportedByCard))
        .push(rule(BytePattern::Exact(0x68), BytePattern::Exact(0x81), Error::LogicalChannelNotSupported))
        .push(rule(BytePattern::Exact(0x68), BytePattern::Exact(0x82), Error::SecureMessagingNotSupported))
        .push(rule(BytePattern::Exact(0x68), BytePattern::Exact(0x83), Error::LastCommandExpected))
        .push(rule(BytePattern::Exact(0x68), BytePattern::Exact(0x84), Error::CommandChainingNotSupported))
        .push(rule(BytePattern::Exact(0x69), BytePattern::Exact(0x00), Error::CommandNotAllowed))
        .push(rule(BytePattern::Exact(0x69), BytePattern::Exact(0x01), Error::CommandNotAccepted))
        .push(rule(BytePattern::Exact(0x69), BytePattern::Exact(0x81), Error::CommandIncompatible))
        .push(rule(BytePattern::Exact(0x69), BytePattern::Exact(0x82), Error::SecurityConditionNotSatisfied))
        .push(rule(BytePattern::Exact(0x69), BytePattern::Exact(0x83), Error::AuthenticationMethodBlocked))
        .push(rule(BytePattern::Exact(0x69), BytePattern::Exact(0x84), Error::ReferencedDataBlocked))
        .push(rule(BytePattern::Exact(0x69), BytePattern::Exact(0x85), Error::ConditionNotSatisfied))
        .push(rule(BytePattern::Exact(0x69), BytePattern::Exact(0x86), Error::NoCurrentEf))
        .push(rule(BytePattern::Exact(0x69), BytePattern::Exact(0x87), Error::SmObjectMissing))
        .push(rule(BytePattern::Exact(0x69), BytePattern::Exact(0x88), Error::SmObjectIncorrect))
        .push(rule(BytePattern::Exact(0x69), BytePattern::Exact(0x96), Error::DataMustBeUpdated))
        .push(rule(BytePattern::Exact(0x69), BytePattern::Exact(0xE1), Error::ActionPrevented))
        .push(rule(BytePattern::Exact(0x69), BytePattern::Exact(0xF0), Error::PermissionDenied))
        .push(rule(BytePattern::Exact(0x69), BytePattern::Exact(0xF1), Error::MissingPrivileges))
        .push(rule(BytePattern::Exact(0x99), BytePattern::Exact(0x86), Error::MissingPrivileges))
        .push(rule(BytePattern::Exact(0x6A), BytePattern::Exact(0x00), Error::IncorrectParameters))
        .push(rule(BytePattern::Exact(0x6B), BytePattern::Exact(0x00), Error::IncorrectParameters))
        .push(rule(BytePattern::Exact(0x6A), BytePattern::Exact(0x80), Error::IncorrectDataFieldParameters))
        .push(rule(BytePattern::Exact(0x6A), BytePattern::Exact(0x81), Error::FunctionNotSupported))
        .push(rule(BytePattern::Exact(0x6A), BytePattern::Exact(0x82), Error::FileNotFound))
        .push(rule(BytePattern::Exact(0x6A), BytePattern::Exact(0x83), Error::RecordNotFound))
        .push(rule(BytePattern::Exact(0x6A), BytePattern::Exact(0x84), Error::InsufficientMemory))
        .push(rule(BytePattern::Exact(0x6A), BytePattern::Exact(0x85), Error::LcInconsistent))
        .push(rule(BytePattern::Exact(0x6A), BytePattern::Exact(0x86), Error::ReferencedDataNotFound))
        .push(rule(BytePattern::Exact(0x6A), BytePattern::Exact(0x89), Error::FileAlreadyExists))
        .push(rule(BytePattern::Exact(0x6A), BytePattern::Exact(0x8A), Error::DfNameAlreadyExists))
        .push(rule(BytePattern::Exact(0x6A), BytePattern::Exact(0xF0), Error::WrongParameterValue))
        .push(rule(BytePattern::Exact(0x6B), BytePattern::Any, Error::IncorrectReference))
        .push(rule(BytePattern::Exact(0x6C), BytePattern::Exact(0x00), Error::IncorrectLength))
        .push(rule_with(BytePattern::Exact(0x6C), BytePattern::Any, Error::IncorrectLengthOf(0), second_byte(None)))
        .push(rule(BytePattern::Exact(0x6D), BytePattern::Any, Error::InstructionInvalid))
        .push(rule(BytePattern::Exact(0x6F), BytePattern::Exact(0x00), Error::CommandAborted))
        .push(rule(BytePattern::Exact(0x6F), BytePattern::Exact(0xFF), Error::Dead))
        .push(rule_with(BytePattern::Exact(0x6F), BytePattern::Any, Error::InternalError(0), second_byte(None)))
        .push(rule(BytePattern::Exact(0x90), BytePattern::Exact(0x04), Error::PinNotVerified))
        .push(rule(BytePattern::Exact(0x90), BytePattern::Exact(0x80), Error::UnblockTryCounterZero))
        .push(rule(BytePattern::Exact(0x92), BytePattern::Exact(0x10), Error::NoStorageAvailable))
        .push(rule(BytePattern::Exact(0x92), BytePattern::Exact(0x40), Error::EepromFailed))
        .push(rule(BytePattern::Exact(0x93), BytePattern::Exact(0x03), Error::ApplicationLocked))
        .push(rule(BytePattern::Exact(0x94), BytePattern::Exact(0x00), Error::NoEfSelected))
        .push(rule(BytePattern::Exact(0x94), BytePattern::Exact(0x02), Error::AccessRangeExceeded))
        .push(rule(BytePattern::Exact(0x94), BytePattern::Exact(0x04), Error::FidNotFound))
        .push(rule(BytePattern::Exact(0x94), BytePattern::Exact(0x06), Error::MacUnavailable))
        .push(rule(BytePattern::Exact(0x94), BytePattern::Exact(0x08), Error::FileTypeNotMatch))
        .push(rule(BytePattern::Exact(0x98), BytePattern::Exact(0x02), Error::NoPinDefined))
        .push(rule(BytePattern::Exact(0x98), BytePattern::Exact(0x04), Error::AuthenticationFailed))
        .push(rule(BytePattern::Exact(0x98), BytePattern::Exact(0x35), Error::RandomNotExecuted))
        .push(rule(BytePattern::Exact(0x98), BytePattern::Exact(0x40), Error::PinVerificationFailed))
        .push(rule(BytePattern::Exact(0x98), BytePattern::Exact(0x50), Error::IncreaseOrDecreaseNotExecuted))
        .push(rule(BytePattern::Exact(0x98), BytePattern::Exact(0x62), Error::AuthenticationError))
        .push(rule(BytePattern::Exact(0x9D), BytePattern::Exact(0x05), Error::IncorrectCertificateType))
        .push(rule(BytePattern::Exact(0x9D), BytePattern::Exact(0x07), Error::IncorrectSessionDataSize))
        .push(rule(BytePattern::Exact(0x9D), BytePattern::Exact(0x08), Error::IncorrectDirFileRecordSize))
        .push(rule(BytePattern::Exact(0x9D), BytePattern::Exact(0x09), Error::IncorrectFciRecordSize))
        .push(rule(BytePattern::Exact(0x9D), BytePattern::Exact(0x0A), Error::IncorrectCodeSize))
        .push(rule(BytePattern::Exact(0x9D), BytePattern::Exact(0x10), Error::InsufficientMemoryLoadApplication))
        .push(rule(BytePattern::Exact(0x9D), BytePattern::Exact(0x11), Error::InvalidAid))
        .push(rule(BytePattern::Exact(0x9D), BytePattern::Exact(0x12), Error::DuplicatedAid))
        .push(rule(BytePattern::Exact(0x9D), BytePattern::Exact(0x13), Error::ApplicationLoadedPreviously))
        .push(rule(BytePattern::Exact(0x9D), BytePattern::Exact(0x14), Error::ApplicationHistoryFull))
        .push(rule(BytePattern::Exact(0x9D), BytePattern::Exact(0x15), Error::ApplicationNotOpen))
        .push(rule(BytePattern::Exact(0x9D), BytePattern::Exact(0x17), Error::InvalidOffset))
        .push(rule(BytePattern::Exact(0x9D), BytePattern::Exact(0x18), Error::ApplicationLoaded))
        .push(rule(BytePattern::Exact(0x9D), BytePattern::Exact(0x19), Error::InvalidCertificate))
        .push(rule(BytePattern::Exact(0x9D), BytePattern::Exact(0x1A), Error::InvalidSignature))
        .push(rule(BytePattern::Exact(0x9D), BytePattern::Exact(0x1B), Error::InvalidKtu))
        .push(rule(BytePattern::Exact(0x9D), BytePattern::Exact(0x1D), Error::MsmControlsNotSet))
        .push(rule(BytePattern::Exact(0x9D), BytePattern::Exact(0x1E), Error::ApplicationSignatureNotExists))
        .push(rule(BytePattern::Exact(0x9D), BytePattern::Exact(0x1F), Error::KtuNotExists))
        .push(rule(BytePattern::Exact(0x9D), BytePattern::Exact(0x20), Error::ApplicationNotLoaded))
        .push(rule(BytePattern::Exact(0x9D), BytePattern::Exact(0x21), Error::InvalidOpenCommandLength))
        .push(rule(BytePattern::Exact(0x9D), BytePattern::Exact(0x30), Error::InvalidStartAddress))
        .push(rule(BytePattern::Exact(0x9D), BytePattern::Exact(0x31), Error::InvalidLength))
        .push(rule(BytePattern::Exact(0x9D), BytePattern::Exact(0x32), Error::IllegalMemoryCheckArea))
        .push(rule(BytePattern::Exact(0x9D), BytePattern::Exact(0x40), Error::InvalidMsmControlsCiphertext))
        .push(rule(BytePattern::Exact(0x9D), BytePattern::Exact(0x41), Error::MsmControlsAlreadySet))
        .push(rule(BytePattern::Exact(0x9D), BytePattern::Exact(0x42), Error::MsmControlsLengthTooShort))
        .push(rule(BytePattern::Exact(0x9D), BytePattern::Exact(0x44), Error::ExcessMsmControlsCiphertext))
        .push(rule(BytePattern::Exact(0x9D), BytePattern::Exact(0x45), Error::MsmControlsVerificationFailed))
        .push(rule(BytePattern::Exact(0x9D), BytePattern::Exact(0x50), Error::InvalidMcdIssuerProductionId))
        .push(rule(BytePattern::Exact(0x9D), BytePattern::Exact(0x51), Error::InvalidMcdIssuerId))
        .push(rule(BytePattern::Exact(0x9D), BytePattern::Exact(0x52), Error::InvalidMsmControlsDataDate))
        .push(rule(BytePattern::Exact(0x9D), BytePattern::Exact(0x53), Error::InvalidMcdNumber))
        .push(rule(BytePattern::Exact(0x9D), BytePattern::Exact(0x60), Error::MacVerificationFailed))
        .push(rule(BytePattern::Exact(0x9D), BytePattern::Exact(0x61), Error::UnblockLimitReached))
        .push(rule(BytePattern::Exact(0x9D), BytePattern::Exact(0x62), Error::CardNotBlocked))
        .push(rule(BytePattern::Exact(0x9D), BytePattern::Exact(0x63), Error::CryptoFunctionsNotAvailable))
        .push(rule(BytePattern::Exact(0x9D), BytePattern::Exact(0x64), Error::NoApplicationLoaded))
        .push(rule_with(BytePattern::Any, BytePattern::Any, Error::Unknown(0, 0), both_bytes()))
}

/// The byte at index `i` of the values of an outcome, or zero where there is
/// no byte at that index.
pub open spec fn byte_at(values: Seq<ValueView>, i: int) -> u8 {
    if 0 <= i < values.len() {
        match values[i] {
            ValueView::Byte(b) => b,
            ValueView::Payload(_) => 0,
        }
    } else {
        0
    }
}

fn byte_of(values: &Vec<Value<'_>>, i: usize) -> (b: u8)
    ensures
        b == byte_at(values@.map_values(|v: Value<'_>| v@), i as int),
{
    if i < values.len() {
        match values[i] {
            Value::Byte(b) => b,
            Value::Payload(_) => 0,
        }
    } else {
        0
    }
}

impl Error {
    /// The error of the same kind as `self` that carries the extracted
    /// `values` in place of its own.
    pub open spec fn filled(self, values: Seq<ValueView>) -> Error {
        match self {
            Error::ResponseBytesStillAvailable(_) => Error::ResponseBytesStillAvailable(
                byte_at(values, 0),
            ),
            Error::CounterValue(_) => Error::CounterValue(byte_at(values, 0)),
            Error::VerifyFailed(_) => Error::VerifyFailed(byte_at(values, 0)),
            Error::IncorrectLengthOf(_) => Error::IncorrectLengthOf(byte_at(values, 0)),
            Error::InternalError(_) => Error::InternalError(byte_at(values, 0)),
            Error::Unknown(_, _) => Error::Unknown(byte_at(values, 0), byte_at(values, 1)),
            other => other,
        }
    }

    /// The error that a response stands for: the outcome of the first rule of
    /// the table that takes its status word, with the values that the rule
    /// extracts.
    pub open spec fn classified(response: ResponseView) -> Error {
        match classify(rules(), response) {
            Some(outcome) => outcome.kind.filled(outcome.values),
            None => Error::Unknown(response.trailer.0, response.trailer.1),
        }
    }

    /// Builds the table of status words.
    pub fn table() -> (table: RuleTable<Error>)
        ensures
            table@ == rules(),
            exhaustive(table@),
    {
        let mut table: RuleTable<Error> = RuleTable::new();
        table.push(Rule::new(BytePattern::Exact(0x06), BytePattern::Any, Error::ClassNotSupported));
        table.push(Rule::new(BytePattern::Exact(0x6E), BytePattern::Any, Error::ClassNotSupported));
        table.push(Rule::with_fields(BytePattern::Exact(0x61), BytePattern::Any, Error::ResponseBytesStillAvailable(0), extract_second_byte(None)));
        table.push(Rule::new(BytePattern::Exact(0x62), BytePattern::Exact(0x00), Error::NvRamNotChanged));
        table.push(Rule::new(BytePattern::Exact(0x64), BytePattern::Exact(0x00), Error::NvRamNotChanged));
        table.push(Rule::new(BytePattern::Exact(0x62), BytePattern::Exact(0x81), Error::DataCorrupted));
        table.push(Rule::new(BytePattern::Exact(0x62), BytePattern::Exact(0x82), Error::EndOfFile));
        table.push(Rule::new(BytePattern::Exact(0x62), BytePattern::Exact(0x83), Error::FileInvalidated));
        table.push(Rule::new(BytePattern::Exact(0x62), BytePattern::Exact(0x84), Error::FileInvalid));
        table.push(Rule::new(BytePattern::Exact(0x62), BytePattern::Exact(0x85), Error::NoInputAvailable));
        table.push(Rule::new(BytePattern::Exact(0x62), BytePattern::Exact(0xA2), Error::WrongRMac));
        table.push(Rule::new(BytePattern::Exact(0x62), BytePattern::Exact(0xA4), Error::CardLocked));
        table.push(Rule::with_fields(BytePattern::Exact(0x62), BytePattern::Range(0xC0, 0xCF), Error::CounterValue(0), extract_second_byte(Some(0x0F))));
        table.push(Rule::new(BytePattern::Exact(0x62), BytePattern::Exact(0xF1), Error::WrongCmac));
        table.push(Rule::new(BytePattern::Exact(0x62), BytePattern::Exact(0xF3), Error::InternalReset));
        table.push(Rule::new(BytePattern::Exact(0x62), BytePattern::Exact(0xF5), Error::DefaultAgentLocked));
        table.push(Rule::new(BytePattern::Exact(0x62), BytePattern::Exact(0xF7), Error::CardholderLocked));
        table.push(Rule::new(BytePattern::Exact(0x62), BytePattern::Exact(0xF8), Error::BasementIsCurrentAgent));
        table.push(Rule::new(BytePattern::Exact(0x63), BytePattern::Exact(0x00), Error::NvRamChanged));
        table.push(Rule::new(BytePattern::Exact(0x65), BytePattern::Exact(0x00), Error::NvRamChanged));
        table.push(Rule::new(BytePattern::Exact(0x63), BytePattern::Exact(0x81), Error::FileFilledUp));
        table.push(Rule::new(BytePattern::Exact(0x63), BytePattern::Exact(0x82), Error::CardKeyNotSupported));
        table.push(Rule::new(BytePattern::Exact(0x63), BytePattern::Exact(0x83), Error::ReaderKeyNotSupported));
        table.push(Rule::new(BytePattern::Exact(0x63), BytePattern::Exact(0x84), Error::PlaintextTransmissionNotSupported));
        table.push(Rule::new(BytePattern::Exact(0x63), BytePattern::Exact(0x85), Error::SecuredTransmissionNotSupported));
        table.push(Rule::new(BytePattern::Exact(0x63), BytePattern::Exact(0x86), Error::VmNotAvailable));
        table.push(Rule::new(BytePattern::Exact(0x63), BytePattern::Exact(0x87), Error::NvmNotAvailable));
        table.push(Rule::new(BytePattern::Exact(0x63), BytePattern::Exact(0x88), Error::KeyNumberInvalid));
        table.push(Rule::new(BytePattern::Exact(0x63), BytePattern::Exact(0x89), Error::KeyLengthNotCorrect));
        table.push(Rule::with_fields(BytePattern::Exact(0x63), BytePattern::Range(0xC0, 0xCF), Error::VerifyFailed(0), extract_second_byte(Some(0x0F))));
        table.push(Rule::new(BytePattern::Exact(0x63), BytePattern::Exact(0xF1), Error::InsufficientData));
        table.push(Rule::new(BytePattern::Exact(0x63), BytePattern::Exact(0xF2), Error::InsufficientDataPending));
        table.push(Rule::new(BytePattern::Exact(0x64), BytePattern::Exact(0x01), Error::CommandTimeout));
        table.push(Rule::new(BytePattern::Exact(0x65), BytePattern::Exact(0x01), Error::MemoryWriteFailed));
        table.push(Rule::new(BytePattern::Exact(0x65), BytePattern::Exact(0x81), Error::MemoryFailure));
        table.push(Rule::new(BytePattern::Exact(0x66), BytePattern::Exact(0x00), Error::ReceivingTimeout));
        table.push(Rule::new(BytePattern::Exact(0x66), BytePattern::Exact(0x01), Error::ReceivingParityError));
        table.push(Rule::new(BytePattern::Exact(0x66), BytePattern::Exact(0x02), Error::WrongChecksum));
        table.push(Rule::new(BytePattern::Exact(0x66), BytePattern::Exact(0x03), Error::DfFileNoFci));
        table.push(Rule::new(BytePattern::Exact(0x66), BytePattern::Exact(0x04), Error::NoSfOrKfFound));
        table.push(Rule::new(BytePattern::Exact(0x66), BytePattern::Exact(0x69), Error::IncorrectCryptoPadding));
        table.push(Rule::new(BytePattern::Exact(0x67), BytePattern::Any, Error::WrongLength));
        table.push(Rule::new(BytePattern::Exact(0x68), BytePattern::Exact(0x00), Error::NotSupportedByCard));
        table.push(Rule::new(BytePattern::Exact(0x68), BytePattern::Exact(0x81), Error::LogicalChannelNotSupported));
        table.push(Rule::new(BytePattern::Exact(0x68), BytePattern::Exact(0x82), Error::SecureMessagingNotSupported));
        table.push(Rule::new(BytePattern::Exact(0x68), BytePattern::Exact(0x83), Error::LastCommandExpected));
        table.push(Rule::new(BytePattern::Exact(0x68), BytePattern::Exact(0x84), Error::CommandChainingNotSupported));
        table.push(Rule::new(BytePattern::Exact(0x69), BytePattern::Exact(0x00), Error::CommandNotAllowed));
        table.push(Rule::new(BytePattern::Exact(0x69), BytePattern::Exact(0x01), Error::CommandNotAccepted));
        table.push(Rule::new(BytePattern::Exact(0x69), BytePattern::Exact(0x81), Error::CommandIncompatible));
        table.push(Rule::new(BytePattern::Exact(0x69), BytePattern::Exact(0x82), Error::SecurityConditionNotSatisfied));
        table.push(Rule::new(BytePattern::Exact(0x69), BytePattern::Exact(0x83), Error::AuthenticationMethodBlocked));
        table.push(Rule::new(BytePattern::Exact(0x69), BytePattern::Exact(0x84), Error::ReferencedDataBlocked));
        table.push(Rule::new(BytePattern::Exact(0x69), BytePattern::Exact(0x85), Error::ConditionNotSatisfied));
        table.push(Rule::new(BytePattern::Exact(0x69), BytePattern::Exact(0x86), Error::NoCurrentEf));
        table.push(Rule::new(BytePattern::Exact(0x69), BytePattern::Exact(0x87), Error::SmObjectMissing));
        table.push(Rule::new(BytePattern::Exact(0x69), BytePattern::Exact(0x88), Error::SmObjectIncorrect));
        table.push(Rule::new(BytePattern::Exact(0x69), BytePattern::Exact(0x96), Error::DataMustBeUpdated));
        table.push(Rule::new(BytePattern::Exact(0x69), BytePattern::Exact(0xE1), Error::ActionPrevented));
        table.push(Rule::new(BytePattern::Exact(0x69), BytePattern::Exact(0xF0), Error::PermissionDenied));
        table.push(Rule::new(BytePattern::Exact(0x69), BytePattern::Exact(0xF1), Error::MissingPrivileges));
        table.push(Rule::new(BytePattern::Exact(0x99), BytePattern::Exact(0x86), Error::MissingPrivileges));
        table.push(Rule::new(BytePattern::Exact(0x6A), BytePattern::Exact(0x00), Error::IncorrectParameters));
        table.push(Rule::new(BytePattern::Exact(0x6B), BytePattern::Exact(0x00), Error::IncorrectParameters));
        table.push(Rule::new(BytePattern::Exact(0x6A), BytePattern::Exact(0x80), Error::IncorrectDataFieldParameters));
        table.push(Rule::new(BytePattern::Exact(0x6A), BytePattern::Exact(0x81), Error::FunctionNotSupported));
        table.push(Rule::new(BytePattern::Exact(0x6A), BytePattern::Exact(0x82), Error::FileNotFound));
        table.push(Rule::new(BytePattern::Exact(0x6A), BytePattern::Exact(0x83), Error::RecordNotFound));
        table.push(Rule::new(BytePattern::Exact(0x6A), BytePattern::Exact(0x84), Error::InsufficientMemory));
        table.push(Rule::new(BytePattern::Exact(0x6A), BytePattern::Exact(0x85), Error::LcInconsistent));
        table.push(Rule::new(BytePattern::Exact(0x6A), BytePattern::Exact(0x86), Error::ReferencedDataNotFound));
        table.push(Rule::new(BytePattern::Exact(0x6A), BytePattern::Exact(0x89), Error::FileAlreadyExists));
        table.push(Rule::new(BytePattern::Exact(0x6A), BytePattern::Exact(0x8A), Error::DfNameAlreadyExists));
        table.push(Rule::new(BytePattern::Exact(0x6A), BytePattern::Exact(0xF0), Error::WrongParameterValue));
        table.push(Rule::new(BytePattern::Exact(0x6B), BytePattern::Any, Error::IncorrectReference));
        table.push(Rule::new(BytePattern::Exact(0x6C), BytePattern::Exact(0x00), Error::IncorrectLength));
        table.push(Rule::with_fields(BytePattern::Exact(0x6C), BytePattern::Any, Error::IncorrectLengthOf(0), extract_second_byte(None)));
        table.push(Rule::new(BytePattern::Exact(0x6D), BytePattern::Any, Error::InstructionInvalid));
        table.push(Rule::new(BytePattern::Exact(0x6F), BytePattern::Exact(0x00), Error::CommandAborted));
        table.push(Rule::new(BytePattern::Exact(0x6F), BytePattern::Exact(0xFF), Error::Dead));
        table.push(Rule::with_fields(BytePattern::Exact(0x6F), BytePattern::Any, Error::InternalError(0), extract_second_byte(None)));
        table.push(Rule::new(BytePattern::Exact(0x90), BytePattern::Exact(0x04), Error::PinNotVerified));
        table.push(Rule::new(BytePattern::Exact(0x90), BytePattern::Exact(0x80), Error::UnblockTryCounterZero));
        table.push(Rule::new(BytePattern::Exact(0x92), BytePattern::Exact(0x10), Error::NoStorageAvailable));
        table.push(Rule::new(BytePattern::Exact(0x92), BytePattern::Exact(0x40), Error::EepromFailed));
        table.push(Rule::new(BytePattern::Exact(0x93), BytePattern::Exact(0x03), Error::ApplicationLocked));
        table.push(Rule::new(BytePattern::Exact(0x94), BytePattern::Exact(0x00), Error::NoEfSelected));
        table.push(Rule::new(BytePattern::Exact(0x94), BytePattern::Exact(0x02), Error::AccessRangeExceeded));
        table.push(Rule::new(BytePattern::Exact(0x94), BytePattern::Exact(0x04), Error::FidNotFound));
        table.push(Rule::new(BytePattern::Exact(0x94), BytePattern::Exact(0x06), Error::MacUnavailable));
        table.push(Rule::new(BytePattern::Exact(0x94), BytePattern::Exact(0x08), Error::FileTypeNotMatch));
        table.push(Rule::new(BytePattern::Exact(0x98), BytePattern::Exact(0x02), Error::NoPinDefined));
        table.push(Rule::new(BytePattern::Exact(0x98), BytePattern::Exact(0x04), Error::AuthenticationFailed));
        table.push(Rule::new(BytePattern::Exact(0x98), BytePattern::Exact(0x35), Error::RandomNotExecuted));
        table.push(Rule::new(BytePattern::Exact(0x98), BytePattern::Exact(0x40), Error::PinVerificationFailed));
        table.push(Rule::new(BytePattern::Exact(0x98), BytePattern::Exact(0x50), Error::IncreaseOrDecreaseNotExecuted));
        table.push(Rule::new(BytePattern::Exact(0x98), BytePattern::Exact(0x62), Error::AuthenticationError));
        table.push(Rule::new(BytePattern::Exact(0x9D), BytePattern::Exact(0x05), Error::IncorrectCertificateType));
        table.push(Rule::new(BytePattern::Exact(0x9D), BytePattern::Exact(0x07), Error::IncorrectSessionDataSize));
        table.push(Rule::new(BytePattern::Exact(0x9D), BytePattern::Exact(0x08), Error::IncorrectDirFileRecordSize));
        table.push(Rule::new(BytePattern::Exact(0x9D), BytePattern::Exact(0x09), Error::IncorrectFciRecordSize));
        table.push(Rule::new(BytePattern::Exact(0x9D), BytePattern::Exact(0x0A), Error::IncorrectCodeSize));
        table.push(Rule::new(BytePattern::Exact(0x9D), BytePattern::Exact(0x10), Error::InsufficientMemoryLoadApplication));
        table.push(Rule::new(BytePattern::Exact(0x9D), BytePattern::Exact(0x11), Error::InvalidAid));
        table.push(Rule::new(BytePattern::Exact(0x9D), BytePattern::Exact(0x12), Error::DuplicatedAid));
        table.push(Rule::new(BytePattern::Exact(0x9D), BytePattern::Exact(0x13), Error::ApplicationLoadedPreviously));
        table.push(Rule::new(BytePattern::Exact(0x9D), BytePattern::Exact(0x14), Error::ApplicationHistoryFull));
        table.push(Rule::new(BytePattern::Exact(0x9D), BytePattern::Exact(0x15), Error::ApplicationNotOpen));
        table.push(Rule::new(BytePattern::Exact(0x9D), BytePattern::Exact(0x17), Error::InvalidOffset));
        table.push(Rule::new(BytePattern::Exact(0x9D), BytePattern::Exact(0x18), Error::ApplicationLoaded));
        table.push(Rule::new(BytePattern::Exact(0x9D), BytePattern::Exact(0x19), Error::InvalidCertificate));
        table.push(Rule::new(BytePattern::Exact(0x9D), BytePattern::Exact(0x1A), Error::InvalidSignature));
        table.push(Rule::new(BytePattern::Exact(0x9D), BytePattern::Exact(0x1B), Error::InvalidKtu));
        table.push(Rule::new(BytePattern::Exact(0x9D), BytePattern::Exact(0x1D), Error::MsmControlsNotSet));
        table.push(Rule::new(BytePattern::Exact(0x9D), BytePattern::Exact(0x1E), Error::ApplicationSignatureNotExists));
        table.push(Rule::new(BytePattern::Exact(0x9D), BytePattern::Exact(0x1F), Error::KtuNotExists));
        table.push(Rule::new(BytePattern::Exact(0x9D), BytePattern::Exact(0x20), Error::ApplicationNotLoaded));
        table.push(Rule::new(BytePattern::Exact(0x9D), BytePattern::Exact(0x21), Error::InvalidOpenCommandLength));
        table.push(Rule::new(BytePattern::Exact(0x9D), BytePattern::Exact(0x30), Error::InvalidStartAddress));
        table.push(Rule::new(BytePattern::Exact(0x9D), BytePattern::Exact(0x31), Error::InvalidLength));
        table.push(Rule::new(BytePattern::Exact(0x9D), BytePattern::Exact(0x32), Error::IllegalMemoryCheckArea));
        table.push(Rule::new(BytePattern::Exact(0x9D), BytePattern::Exact(0x40), Error::InvalidMsmControlsCiphertext));
        table.push(Rule::new(BytePattern::Exact(0x9D), BytePattern::Exact(0x41), Error::MsmControlsAlreadySet));
        table.push(Rule::new(BytePattern::Exact(0x9D), BytePattern::Exact(0x42), Error::MsmControlsLengthTooShort));
        table.push(Rule::new(BytePattern::Exact(0x9D), BytePattern::Exact(0x44), Error::ExcessMsmControlsCiphertext));
        table.push(Rule::new(BytePattern::Exact(0x9D), BytePattern::Exact(0x45), Error::MsmControlsVerificationFailed));
        table.push(Rule::new(BytePattern::Exact(0x9D), BytePattern::Exact(0x50), Error::InvalidMcdIssuerProductionId));
        table.push(Rule::new(BytePattern::Exact(0x9D), BytePattern::Exact(0x51), Error::InvalidMcdIssuerId));
        table.push(Rule::new(BytePattern::Exact(0x9D), BytePattern::Exact(0x52), Error::InvalidMsmControlsDataDate));
        table.push(Rule::new(BytePattern::Exact(0x9D), BytePattern::Exact(0x53), Error::InvalidMcdNumber));
        table.push(Rule::new(BytePattern::Exact(0x9D), BytePattern::Exact(0x60), Error::MacVerificationFailed));
        table.push(Rule::new(BytePattern::Exact(0x9D), BytePattern::Exact(0x61), Error::UnblockLimitReached));
        table.push(Rule::new(BytePattern::Exact(0x9D), BytePattern::Exact(0x62), Error::CardNotBlocked));
        table.push(Rule::new(BytePattern::Exact(0x9D), BytePattern::Exact(0x63), Error::CryptoFunctionsNotAvailable));
        table.push(Rule::new(BytePattern::Exact(0x9D), BytePattern::Exact(0x64), Error::NoApplicationLoaded));
        table.push(Rule::with_fields(BytePattern::Any, BytePattern::Any, Error::Unknown(0, 0), extract_both_bytes()));
        table
    }

    /// Turns an outcome of the table into the error that it stands for.
    pub fn from_outcome(outcome: &Outcome<'_, Error>) -> (error: Error)
        ensures
            error == outcome@.kind.filled(outcome@.values),
    {
        match outcome.kind {
            Error::ResponseBytesStillAvailable(_) => Error::ResponseBytesStillAvailable(
                byte_of(&outcome.values, 0),
            ),
            Error::CounterValue(_) => Error::CounterValue(byte_of(&outcome.values, 0)),
            Error::VerifyFailed(_) => Error::VerifyFailed(byte_of(&outcome.values, 0)),
            Error::IncorrectLengthOf(_) => Error::IncorrectLengthOf(byte_of(&outcome.values, 0)),
            Error::InternalError(_) => Error::InternalError(byte_of(&outcome.values, 0)),
            Error::Unknown(_, _) => Error::Unknown(
                byte_of(&outcome.values, 0),
                byte_of(&outcome.values, 1),
            ),
            other => other,
        }
    }
}

/// The table of status words ends in a catch-all rule.
pub proof fn lemma_rules_are_exhaustive()
    ensures
        exhaustive(rules()),
{
}

/// Every response stands for an error, under whatever status word: some rule
/// of the table decides it.
pub proof fn lemma_every_response_is_classified(response: ResponseView)
    ensures
        classify(rules(), response) is Some,
        Error::classified(response) == classify(rules(), response)->0.kind.filled(
            classify(rules(), response)->0.values,
        ),
{
    lemma_rules_are_exhaustive();
    lemma_exhaustive_table_is_total(rules(), response);
}

impl<'a> From<Response<'a>> for Error {
    /// Classifies the response by its status word.
    fn from(response: Response<'a>) -> (error: Error)
        ensures
            error == Error::classified(response@),
    {
        let table = Error::table();
        let outcome = table.classify(&response);
        Error::from_outcome(&outcome)
    }
}

impl<'a> vstd::std_specs::convert::FromSpecImpl<Response<'a>> for Error {
    open spec fn obeys_from_spec() -> bool {
        true
    }

    open spec fn from_spec(response: Response<'a>) -> Error {
        Error::classified(response@)
    }
}

impl<'a> From<crate::response::Error<'a>> for Error {
    /// Classifies the response that the error holds.
    fn from(error: crate::response::Error<'a>) -> (classified: Error)
        ensures
            classified == Error::classified(error.response@),
    {
        Error::from(error.response)
    }
}

impl<'a> vstd::std_specs::convert::FromSpecImpl<crate::response::Error<'a>> for Error {
    open spec fn obeys_from_spec() -> bool {
        true
    }

    open spec fn from_spec(error: crate::response::Error<'a>) -> Error {
        Error::classified(error.response@)
    }
}

impl<'a> From<&'a [u8]> for Error {
    /// Decodes the bytes of a response and classifies it.
    fn from(bytes: &'a [u8]) -> (error: Error)
        ensures
            error == Error::classified(ResponseView::decode(bytes@)),
    {
        Error::from(Response::decode(bytes))
    }
}

impl<'a> vstd::std_specs::convert::FromSpecImpl<&'a [u8]> for Error {
    open spec fn obeys_from_spec() -> bool {
        true
    }

    open spec fn from_spec(bytes: &'a [u8]) -> Error {
        Error::classified(ResponseView::decode(bytes@))
    }
}

} // verus!
