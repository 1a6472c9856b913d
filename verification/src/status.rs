//! The device's status-word space, as an explicit enumeration with a
//! catch-all for words this client does not recognize. Equality of a raw
//! status word with the success sentinel 0x9000 is the sole success
//! discriminant of the protocol.
use vstd::prelude::*;

verus! {

/// Every status word a device reply can end with.
#[derive(Debug, Clone, Copy, PartialEq, Eq, Structural)]
pub enum Status {
    AccessConditionNotFulfilled,
    AlgorithmNotSupported,
    ClaNotSupported,
    CodeBlocked,
    CodeNotInitialized,
    CommandIncompatibleFileStructure,
    ConditionsOfUseNotSatisfied,
    ContradictionInvalidation,
    ContradictionSecretCodeStatus,
    CustomImageBootloader,
    CustomImageEmpty,
    FileAlreadyExists,
    FileNotFound,
    GpAuthFailed,
    Halted,
    InconsistentFile,
    IncorrectData,
    IncorrectLength,
    IncorrectP1P2,
    InsNotSupported,
    DeviceNotOnboarded,
    DeviceNotOnboardedSecondary,
    InvalidKcv,
    InvalidOffset,
    Licensing,
    LockedDevice,
    MaxValueReached,
    MemoryProblem,
    MissingCriticalParameter,
    NoEfSelected,
    NotEnoughMemorySpace,
    Success,
    PinRemainingAttempts,
    ReferencedDataNotFound,
    SecurityStatusNotSatisfied,
    TechnicalProblem,
    UnknownApdu,
    UserRefusedOnDevice,
    NotEnoughSpace,
    Unrecognized(u16),
}

/// The status a raw word stands for.
pub open spec fn spec_status_of(code: u16) -> Status {
    match code {
        0x9804 => Status::AccessConditionNotFulfilled,
        0x9484 => Status::AlgorithmNotSupported,
        0x6e00 => Status::ClaNotSupported,
        0x9840 => Status::CodeBlocked,
        0x9802 => Status::CodeNotInitialized,
        0x6981 => Status::CommandIncompatibleFileStructure,
        0x6985 => Status::ConditionsOfUseNotSatisfied,
        0x9810 => Status::ContradictionInvalidation,
        0x9808 => Status::ContradictionSecretCodeStatus,
        0x662f => Status::CustomImageBootloader,
        0x662e => Status::CustomImageEmpty,
        0x6a89 => Status::FileAlreadyExists,
        0x9404 => Status::FileNotFound,
        0x6300 => Status::GpAuthFailed,
        0x6faa => Status::Halted,
        0x9408 => Status::InconsistentFile,
        0x6a80 => Status::IncorrectData,
        0x6700 => Status::IncorrectLength,
        0x6b00 => Status::IncorrectP1P2,
        0x6d00 => Status::InsNotSupported,
        0x6d07 => Status::DeviceNotOnboarded,
        0x6611 => Status::DeviceNotOnboardedSecondary,
        0x9485 => Status::InvalidKcv,
        0x9402 => Status::InvalidOffset,
        0x6f42 => Status::Licensing,
        0x5515 => Status::LockedDevice,
        0x9850 => Status::MaxValueReached,
        0x9240 => Status::MemoryProblem,
        0x6800 => Status::MissingCriticalParameter,
        0x9400 => Status::NoEfSelected,
        0x6a84 => Status::NotEnoughMemorySpace,
        0x9000 => Status::Success,
        0x63c0 => Status::PinRemainingAttempts,
        0x6a88 => Status::ReferencedDataNotFound,
        0x6982 => Status::SecurityStatusNotSatisfied,
        0x6f00 => Status::TechnicalProblem,
        0x6d02 => Status::UnknownApdu,
        0x5501 => Status::UserRefusedOnDevice,
        0x5102 => Status::NotEnoughSpace,
        _ => Status::Unrecognized(code),
    }
}

/// The raw word a status stands for.
pub open spec fn spec_status_code(s: Status) -> u16 {
    match s {
        Status::AccessConditionNotFulfilled => 0x9804,
        Status::AlgorithmNotSupported => 0x9484,
        Status::ClaNotSupported => 0x6e00,
        Status::CodeBlocked => 0x9840,
        Status::CodeNotInitialized => 0x9802,
        Status::CommandIncompatibleFileStructure => 0x6981,
        Status::ConditionsOfUseNotSatisfied => 0x6985,
        Status::ContradictionInvalidation => 0x9810,
        Status::ContradictionSecretCodeStatus => 0x9808,
        Status::CustomImageBootloader => 0x662f,
        Status::CustomImageEmpty => 0x662e,
        Status::FileAlreadyExists => 0x6a89,
        Status::FileNotFound => 0x9404,
        Status::GpAuthFailed => 0x6300,
        Status::Halted => 0x6faa,
        Status::InconsistentFile => 0x9408,
        Status::IncorrectData => 0x6a80,
        Status::IncorrectLength => 0x6700,
        Status::IncorrectP1P2 => 0x6b00,
        Status::InsNotSupported => 0x6d00,
        Status::DeviceNotOnboarded => 0x6d07,
        Status::DeviceNotOnboardedSecondary => 0x6611,
        Status::InvalidKcv => 0x9485,
        Status::InvalidOffset => 0x9402,
        Status::Licensing => 0x6f42,
        Status::LockedDevice => 0x5515,
        Status::MaxValueReached => 0x9850,
        Status::MemoryProblem => 0x9240,
        Status::MissingCriticalParameter => 0x6800,
        Status::NoEfSelected => 0x9400,
        Status::NotEnoughMemorySpace => 0x6a84,
        Status::Success => 0x9000,
        Status::PinRemainingAttempts => 0x63c0,
        Status::ReferencedDataNotFound => 0x6a88,
        Status::SecurityStatusNotSatisfied => 0x6982,
        Status::TechnicalProblem => 0x6f00,
        Status::UnknownApdu => 0x6d02,
        Status::UserRefusedOnDevice => 0x5501,
        Status::NotEnoughSpace => 0x5102,
        Status::Unrecognized(code) => code,
    }
}

impl Status {
    /// The status a raw word stands for.
    pub fn from_code(code: u16) -> (r: Status)
        ensures
            r == spec_status_of(code),
    {
        match code {
            0x9804 => Status::AccessConditionNotFulfilled,
            0x9484 => Status::AlgorithmNotSupported,
            0x6e00 => Status::ClaNotSupported,
            0x9840 => Status::CodeBlocked,
            0x9802 => Status::CodeNotInitialized,
            0x6981 => Status::CommandIncompatibleFileStructure,
            0x6985 => Status::ConditionsOfUseNotSatisfied,
            0x9810 => Status::ContradictionInvalidation,
            0x9808 => Status::ContradictionSecretCodeStatus,
            0x662f => Status::CustomImageBootloader,
            0x662e => Status::CustomImageEmpty,
            0x6a89 => Status::FileAlreadyExists,
            0x9404 => Status::FileNotFound,
            0x6300 => Status::GpAuthFailed,
            0x6faa => Status::Halted,
            0x9408 => Status::InconsistentFile,
            0x6a80 => Status::IncorrectData,
            0x6700 => Status::IncorrectLength,
            0x6b00 => Status::IncorrectP1P2,
            0x6d00 => Status::InsNotSupported,
            0x6d07 => Status::DeviceNotOnboarded,
            0x6611 => Status::DeviceNotOnboardedSecondary,
            0x9485 => Status::InvalidKcv,
            0x9402 => Status::InvalidOffset,
            0x6f42 => Status::Licensing,
            0x5515 => Status::LockedDevice,
            0x9850 => Status::MaxValueReached,
            0x9240 => Status::MemoryProblem,
            0x6800 => Status::MissingCriticalParameter,
            0x9400 => Status::NoEfSelected,
            0x6a84 => Status::NotEnoughMemorySpace,
            0x9000 => Status::Success,
            0x63c0 => Status::PinRemainingAttempts,
            0x6a88 => Status::ReferencedDataNotFound,
            0x6982 => Status::SecurityStatusNotSatisfied,
            0x6f00 => Status::TechnicalProblem,
            0x6d02 => Status::UnknownApdu,
            0x5501 => Status::UserRefusedOnDevice,
            0x5102 => Status::NotEnoughSpace,
            _ => Status::Unrecognized(code),
        }
    }

    /// The raw word this status stands for.
    pub fn code(&self) -> (r: u16)
        ensures
            r == spec_status_code(*self),
    {
        match *self {
            Status::AccessConditionNotFulfilled => 0x9804,
            Status::AlgorithmNotSupported => 0x9484,
            Status::ClaNotSupported => 0x6e00,
            Status::CodeBlocked => 0x9840,
            Status::CodeNotInitialized => 0x9802,
            Status::CommandIncompatibleFileStructure => 0x6981,
            Status::ConditionsOfUseNotSatisfied => 0x6985,
            Status::ContradictionInvalidation => 0x9810,
            Status::ContradictionSecretCodeStatus => 0x9808,
            Status::CustomImageBootloader => 0x662f,
            Status::CustomImageEmpty => 0x662e,
            Status::FileAlreadyExists => 0x6a89,
            Status::FileNotFound => 0x9404,
            Status::GpAuthFailed => 0x6300,
            Status::Halted => 0x6faa,
            Status::InconsistentFile => 0x9408,
            Status::IncorrectData => 0x6a80,
            Status::IncorrectLength => 0x6700,
            Status::IncorrectP1P2 => 0x6b00,
            Status::InsNotSupported => 0x6d00,
            Status::DeviceNotOnboarded => 0x6d07,
            Status::DeviceNotOnboardedSecondary => 0x6611,
            Status::InvalidKcv => 0x9485,
            Status::InvalidOffset => 0x9402,
            Status::Licensing => 0x6f42,
            Status::LockedDevice => 0x5515,
            Status::MaxValueReached => 0x9850,
            Status::MemoryProblem => 0x9240,
            Status::MissingCriticalParameter => 0x6800,
            Status::NoEfSelected => 0x9400,
            Status::NotEnoughMemorySpace => 0x6a84,
            Status::Success => 0x9000,
            Status::PinRemainingAttempts => 0x63c0,
            Status::ReferencedDataNotFound => 0x6a88,
            Status::SecurityStatusNotSatisfied => 0x6982,
            Status::TechnicalProblem => 0x6f00,
            Status::UnknownApdu => 0x6d02,
            Status::UserRefusedOnDevice => 0x5501,
            Status::NotEnoughSpace => 0x5102,
            Status::Unrecognized(code) => code,
        }
    }

    /// Whether this status is the success sentinel.
    pub fn is_success(&self) -> (r: bool)
        ensures
            r == (*self is Success),
    {
        matches!(*self, Status::Success)
    }
}

} // verus!
