use vstd::prelude::*;

verus! {

/// Application status words. Exactly one of these is reported to the host
/// for every top-level command; `Ok` is the success word and every other
/// variant is a terminal error for that command.
#[derive(Clone, Copy, PartialEq, Eq, Structural, Debug)]
pub enum AppSW {
    Deny,
    WrongP1P2,
    InsNotSupported,
    ClaNotSupported,
    TxDisplayFail,
    AddrDisplayFail,
    TxWrongLength,
    TxParsingFail,
    TxHashFail,
    TxSignFail,
    KeyDeriveFail,
    VersionParsingFail,
    DkgRound1Fail,
    DkgRound2Fail,
    DkgRound3Fail,
    InvalidIdentity,
    InvalidPayload,
    InvalidPublicPackage,
    InvalidPublicPackageRound1,
    InvalidKeyPackage,
    InvalidGroupSecretKey,
    InvalidRandomizer,
    InvalidSigningPackage,
    InvalidSigningNonces,
    InvalidKeyType,
    BufferOutOfBounds,
    MissingArtifact,
    WrongApduLength,
    Success,
}

impl AppSW {
    /// The 16-bit status word that stands for this status on the wire.
    pub open spec fn spec_code(self) -> u16 {
        match self {
            AppSW::Deny => 0x6985,
            AppSW::WrongP1P2 => 0x6A86,
            AppSW::InsNotSupported => 0x6D00,
            AppSW::ClaNotSupported => 0x6E00,
            AppSW::TxDisplayFail => 0xB001,
            AppSW::AddrDisplayFail => 0xB002,
            AppSW::TxWrongLength => 0xB004,
            AppSW::TxParsingFail => 0xB005,
            AppSW::TxHashFail => 0xB006,
            AppSW::TxSignFail => 0xB008,
            AppSW::KeyDeriveFail => 0xB009,
            AppSW::VersionParsingFail => 0xB00A,
            AppSW::DkgRound1Fail => 0xB00D,
            AppSW::DkgRound2Fail => 0xB00B,
            AppSW::DkgRound3Fail => 0xB00C,
            AppSW::InvalidIdentity => 0xB00E,
            AppSW::InvalidPayload => 0xB00F,
            AppSW::InvalidPublicPackage => 0xB010,
            AppSW::InvalidPublicPackageRound1 => 0xB011,
            AppSW::InvalidKeyPackage => 0xB012,
            AppSW::InvalidGroupSecretKey => 0xB013,
            AppSW::InvalidRandomizer => 0xB014,
            AppSW::InvalidSigningPackage => 0xB015,
            AppSW::InvalidSigningNonces => 0xB016,
            AppSW::InvalidKeyType => 0xB017,
            AppSW::BufferOutOfBounds => 0xB018,
            AppSW::MissingArtifact => 0xB019,
            AppSW::WrongApduLength => 0x6700,
            AppSW::Success => 0x9000,
        }
    }

    /// The status word sent in a reply.
    pub fn code(self) -> (c: u16)
        ensures
            c == self.spec_code(),
    {
        match self {
            AppSW::Deny => 0x6985,
            AppSW::WrongP1P2 => 0x6A86,
            AppSW::InsNotSupported => 0x6D00,
            AppSW::ClaNotSupported => 0x6E00,
            AppSW::TxDisplayFail => 0xB001,
            AppSW::AddrDisplayFail => 0xB002,
            AppSW::TxWrongLength => 0xB004,
            AppSW::TxParsingFail => 0xB005,
            AppSW::TxHashFail => 0xB006,
            AppSW::TxSignFail => 0xB008,
            AppSW::KeyDeriveFail => 0xB009,
            AppSW::VersionParsingFail => 0xB00A,
            AppSW::DkgRound1Fail => 0xB00D,
            AppSW::DkgRound2Fail => 0xB00B,
            AppSW::DkgRound3Fail => 0xB00C,
            AppSW::InvalidIdentity => 0xB00E,
            AppSW::InvalidPayload => 0xB00F,
            AppSW::InvalidPublicPackage => 0xB010,
            AppSW::InvalidPublicPackageRound1 => 0xB011,
            AppSW::InvalidKeyPackage => 0xB012,
            AppSW::InvalidGroupSecretKey => 0xB013,
            AppSW::InvalidRandomizer => 0xB014,
            AppSW::InvalidSigningPackage => 0xB015,
            AppSW::InvalidSigningNonces => 0xB016,
            AppSW::InvalidKeyType => 0xB017,
            AppSW::BufferOutOfBounds => 0xB018,
            AppSW::MissingArtifact => 0xB019,
            AppSW::WrongApduLength => 0x6700,
            AppSW::Success => 0x9000,
        }
    }
}

/// Errors raised while parsing structured records out of a byte store.
#[derive(Clone, Copy, PartialEq, Eq, Structural, Debug)]
pub enum ParserError {
    NoError,
    InvalidPublicPackage,
    InvalidCombinedPackage,
    InvalidPayload,
    InvalidTxVersion,
    UnexpectedBufferEnd,
}

/// The status word that stands for a parser error.
pub open spec fn spec_parser_error_to_app_sw(e: ParserError) -> AppSW {
    match e {
        ParserError::NoError => AppSW::Success,
        _ => AppSW::TxParsingFail,
    }
}

impl From<ParserError> for AppSW {
    /// Every parser failure is reported to the host as a parsing failure.
    fn from(e: ParserError) -> (r: AppSW) {
        match e {
            ParserError::NoError => AppSW::Success,
            ParserError::InvalidPublicPackage => AppSW::TxParsingFail,
            ParserError::InvalidCombinedPackage => AppSW::TxParsingFail,
            ParserError::InvalidPayload => AppSW::TxParsingFail,
            ParserError::InvalidTxVersion => AppSW::TxParsingFail,
            ParserError::UnexpectedBufferEnd => AppSW::TxParsingFail,
        }
    }
}

impl vstd::std_specs::convert::FromSpecImpl<ParserError> for AppSW {
    open spec fn obeys_from_spec() -> bool {
        true
    }

    open spec fn from_spec(e: ParserError) -> AppSW {
        spec_parser_error_to_app_sw(e)
    }
}

} // verus!
