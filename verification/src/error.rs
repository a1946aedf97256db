//! Failure kinds of the validator and the exit status each one maps to.
//!
//! A failure comes from one of three places: the host, the authorization
//! layer, or this validator's own checks. Each place owns a band of exit
//! codes, and the bands never overlap, so the exit status alone tells where
//! a failure arose.
use ckb_std::error::SysError;
use molecule::lazy_reader::Error as MoleculeError;
use vstd::prelude::*;
use vstd::std_specs::convert::FromSpecImpl;

verus! {

/// `ckb_std::error::SysError`, the host's syscall failure, with its variants
/// as that crate declares them.
#[verifier::external_type_specification]
pub struct ExSysError(ckb_std::error::SysError);

/// `molecule::lazy_reader::Error`, the decoding failure, with its variants as
/// that crate declares them.
#[verifier::external_type_specification]
pub struct ExMoleculeError(MoleculeError);

/// A failure reported by the authorization layer, which checks an operation
/// history against a signed message.
#[derive(Debug)]
pub enum UtilsError {
    InvalidOperation,
    RotationKeysDecodeError,
    InvalidKey,
    InvalidSignature,
    InvalidSignaturePadding,
    VerifySignatureFailed,
    InvalidPrev,
    MissingPrevField,
    NotGenesisOperation,
    DidMismatched,
    ReaderError,
    InvalidKeyIndex,
    InvalidHistory,
    MoleculeError(MoleculeError),
    InvalidCbor,
    InvalidDidFormat,
}

/// Why a validation failed.
#[derive(Debug)]
pub enum Error {
    /// The host refused or failed a request.
    Syscall(SysError),
    /// The authorization layer rejected the claim.
    Utils(UtilsError),
    /// A record does not have the layout its schema asks for.
    Molecule,
    /// The document of a record is not well-formed CBOR.
    InvalidDocumentCbor,
    /// An update tried to change the identifier a record claims.
    MismatchedFrom,
}

/// Where a failure arose.
#[derive(PartialEq, Eq, Structural, Clone, Copy, Debug)]
pub enum Origin {
    Host,
    Authorization,
    Validator,
}

/// The exit code of a host failure.
pub open spec fn syscall_code(e: SysError) -> int {
    match e {
        SysError::IndexOutOfBound => 21,
        SysError::ItemMissing => 22,
        SysError::LengthNotEnough(_) => 23,
        SysError::Encoding => 24,
        SysError::WaitFailure => 25,
        SysError::TypeIDError => 26,
        _ => 27,
    }
}

/// The exit code of an authorization failure.
pub open spec fn utils_code(e: UtilsError) -> int {
    match e {
        UtilsError::InvalidOperation => 31,
        UtilsError::RotationKeysDecodeError => 32,
        UtilsError::InvalidKey => 33,
        UtilsError::InvalidSignature => 34,
        UtilsError::InvalidSignaturePadding => 35,
        UtilsError::VerifySignatureFailed => 36,
        UtilsError::InvalidPrev => 37,
        UtilsError::MissingPrevField => 38,
        UtilsError::NotGenesisOperation => 39,
        UtilsError::DidMismatched => 40,
        UtilsError::ReaderError => 41,
        UtilsError::InvalidKeyIndex => 42,
        UtilsError::InvalidHistory => 43,
        UtilsError::MoleculeError(_) => 44,
        UtilsError::InvalidCbor => 45,
        UtilsError::InvalidDidFormat => 46,
    }
}

impl Error {
    /// The exit code that stands for this failure.
    pub open spec fn code(self) -> int {
        match self {
            Error::Syscall(e) => syscall_code(e),
            Error::Utils(e) => utils_code(e),
            Error::Molecule => 51,
            Error::InvalidDocumentCbor => 52,
            Error::MismatchedFrom => 53,
        }
    }

    /// Where this failure arose.
    pub open spec fn origin(self) -> Origin {
        match self {
            Error::Syscall(_) => Origin::Host,
            Error::Utils(_) => Origin::Authorization,
            _ => Origin::Validator,
        }
    }

    /// The signed byte handed to the host when validation fails with `self`.
    pub fn error_code(&self) -> (code: i8)
        ensures
            code == self.code(),
    {
        match self {
            Error::Syscall(e) => match e {
                SysError::IndexOutOfBound => 21,
                SysError::ItemMissing => 22,
                SysError::LengthNotEnough(_) => 23,
                SysError::Encoding => 24,
                SysError::WaitFailure => 25,
                SysError::TypeIDError => 26,
                _ => 27,
            },
            Error::Utils(e) => match e {
                UtilsError::InvalidOperation => 31,
                UtilsError::RotationKeysDecodeError => 32,
                UtilsError::InvalidKey => 33,
                UtilsError::InvalidSignature => 34,
                UtilsError::InvalidSignaturePadding => 35,
                UtilsError::VerifySignatureFailed => 36,
                UtilsError::InvalidPrev => 37,
                UtilsError::MissingPrevField => 38,
                UtilsError::NotGenesisOperation => 39,
                UtilsError::DidMismatched => 40,
                UtilsError::ReaderError => 41,
                UtilsError::InvalidKeyIndex => 42,
                UtilsError::InvalidHistory => 43,
                UtilsError::MoleculeError(_) => 44,
                UtilsError::InvalidCbor => 45,
                UtilsError::InvalidDidFormat => 46,
            },
            Error::Molecule => 51,
            Error::InvalidDocumentCbor => 52,
            Error::MismatchedFrom => 53,
        }
    }

    /// This failure as text: what `format!` makes of it with the `Debug`
    /// rendering that was derived for it. Nothing is claimed of the text.
    #[verifier::external_body]
    pub fn to_string(&self) -> (text: String) {
        format!("{:?}", self)
    }
}

/// The band of exit codes that belongs to `origin`, as first and last code.
pub open spec fn band(origin: Origin) -> (int, int) {
    match origin {
        Origin::Host => (21, 27),
        Origin::Authorization => (31, 46),
        Origin::Validator => (51, 53),
    }
}

/// Every failure's exit code is non-zero and lies in the band of the place
/// where the failure arose.
pub proof fn code_lies_in_band(e: Error)
    ensures
        e.code() != 0,
        band(e.origin()).0 <= e.code() <= band(e.origin()).1,
        -128 <= e.code() <= 127,
{
}

/// The bands of two different origins share no exit code, so failures from
/// different origins never have the same exit code.
pub proof fn bands_do_not_overlap(a: Error, b: Error)
    requires
        a.origin() != b.origin(),
    ensures
        a.code() != b.code(),
        band(a.origin()).1 < band(b.origin()).0 || band(b.origin()).1 < band(a.origin()).0,
{
}

/// The exit status of a whole validation: zero on success, the failure's code
/// otherwise.
pub fn exit_code(outcome: &Result<(), Error>) -> (code: i8)
    ensures
        outcome is Ok <==> code == 0,
        outcome matches Err(e) ==> code == e.code(),
{
    match outcome {
        Ok(_) => 0,
        Err(e) => e.error_code(),
    }
}

impl From<SysError> for Error {
    fn from(e: SysError) -> (r: Error) {
        Error::Syscall(e)
    }
}

impl FromSpecImpl<SysError> for Error {
    open spec fn obeys_from_spec() -> bool {
        true
    }

    open spec fn from_spec(e: SysError) -> Error {
        Error::Syscall(e)
    }
}

impl From<UtilsError> for Error {
    fn from(e: UtilsError) -> (r: Error) {
        Error::Utils(e)
    }
}

impl FromSpecImpl<UtilsError> for Error {
    open spec fn obeys_from_spec() -> bool {
        true
    }

    open spec fn from_spec(e: UtilsError) -> Error {
        Error::Utils(e)
    }
}

impl From<MoleculeError> for Error {
    fn from(e: MoleculeError) -> (r: Error) {
        Error::Molecule
    }
}

impl FromSpecImpl<MoleculeError> for Error {
    open spec fn obeys_from_spec() -> bool {
        true
    }

    open spec fn from_spec(e: MoleculeError) -> Error {
        Error::Molecule
    }
}

} // verus!
