//! Shapes shared by every API response: the envelope and the exception.

use vstd::prelude::*;

use crate::status::StatusCode;

verus! {

/// Codes the protected information API reports in its exceptions.
#[derive(Clone, Copy, Debug, PartialEq, Eq, Structural)]
pub enum ProtectedInformationExceptionCode {
    /// Information not found (1023).
    InformationNotFound,
    /// Inactive information (1024).
    InactiveInformation,
    /// The information content was not informed (1026).
    MissingContentParameter,
}

/// Codes of the PAM Core APIs.
#[derive(Clone, Copy, Debug, PartialEq, Eq, Structural)]
pub enum PAMCoreExceptionCode {
    /// A code of the protected information API.
    ProtectedInformation(ProtectedInformationExceptionCode),
}

/// An exception code: one the library knows by name, or any other number.
#[derive(Clone, Copy, Debug, PartialEq, Eq, Structural)]
pub enum ExceptionCode {
    /// A code of the PAM Core APIs.
    PAMCore(PAMCoreExceptionCode),
    /// A code outside the known enumeration.
    Unknown(u16),
}

/// The number that stands for a named protected information code.
pub open spec fn protected_information_number(c: ProtectedInformationExceptionCode) -> u16 {
    match c {
        ProtectedInformationExceptionCode::InformationNotFound => 1023,
        ProtectedInformationExceptionCode::InactiveInformation => 1024,
        ProtectedInformationExceptionCode::MissingContentParameter => 1026,
    }
}

/// The named protected information code with the given number, if any.
pub open spec fn protected_information_code(v: u16) -> Option<ProtectedInformationExceptionCode> {
    if v == 1023 {
        Some(ProtectedInformationExceptionCode::InformationNotFound)
    } else if v == 1024 {
        Some(ProtectedInformationExceptionCode::InactiveInformation)
    } else if v == 1026 {
        Some(ProtectedInformationExceptionCode::MissingContentParameter)
    } else {
        None
    }
}

/// The exception code that a number decodes to: the named code where there is
/// one, else `Unknown` of the number.
pub open spec fn decode_exception_code(v: u16) -> ExceptionCode {
    match protected_information_code(v) {
        Some(c) => ExceptionCode::PAMCore(PAMCoreExceptionCode::ProtectedInformation(c)),
        None => ExceptionCode::Unknown(v),
    }
}

/// The number an exception code stands for.
pub open spec fn exception_code_number(c: ExceptionCode) -> u16 {
    match c {
        ExceptionCode::PAMCore(PAMCoreExceptionCode::ProtectedInformation(p)) => {
            protected_information_number(p)
        },
        ExceptionCode::Unknown(v) => v,
    }
}

impl ProtectedInformationExceptionCode {
    /// The named code with the given number, if there is one.
    pub fn from_repr(v: u16) -> (r: Option<ProtectedInformationExceptionCode>)
        ensures
            r == protected_information_code(v),
    {
        if v == 1023 {
            Some(ProtectedInformationExceptionCode::InformationNotFound)
        } else if v == 1024 {
            Some(ProtectedInformationExceptionCode::InactiveInformation)
        } else if v == 1026 {
            Some(ProtectedInformationExceptionCode::MissingContentParameter)
        } else {
            None
        }
    }

    /// The number of this code.
    pub fn code(&self) -> (r: u16)
        ensures
            r == protected_information_number(*self),
    {
        match self {
            ProtectedInformationExceptionCode::InformationNotFound => 1023,
            ProtectedInformationExceptionCode::InactiveInformation => 1024,
            ProtectedInformationExceptionCode::MissingContentParameter => 1026,
        }
    }
}

impl ExceptionCode {
    /// Decodes a number; every number gives a code.
    pub fn from_u16(v: u16) -> (r: ExceptionCode)
        ensures
            r == decode_exception_code(v),
    {
        match ProtectedInformationExceptionCode::from_repr(v) {
            Some(c) => ExceptionCode::PAMCore(PAMCoreExceptionCode::ProtectedInformation(c)),
            None => ExceptionCode::Unknown(v),
        }
    }

    /// The number this code stands for.
    pub fn as_u16(&self) -> (r: u16)
        ensures
            r == exception_code_number(*self),
    {
        match self {
            ExceptionCode::PAMCore(PAMCoreExceptionCode::ProtectedInformation(c)) => c.code(),
            ExceptionCode::Unknown(v) => *v,
        }
    }
}

impl From<u16> for ExceptionCode {
    fn from(v: u16) -> (r: ExceptionCode) {
        ExceptionCode::from_u16(v)
    }
}

impl vstd::std_specs::convert::FromSpecImpl<u16> for ExceptionCode {
    open spec fn obeys_from_spec() -> bool {
        true
    }

    open spec fn from_spec(v: u16) -> ExceptionCode {
        decode_exception_code(v)
    }
}

impl From<ExceptionCode> for u16 {
    fn from(c: ExceptionCode) -> (r: u16) {
        c.as_u16()
    }
}

impl vstd::std_specs::convert::FromSpecImpl<ExceptionCode> for u16 {
    open spec fn obeys_from_spec() -> bool {
        true
    }

    open spec fn from_spec(c: ExceptionCode) -> u16 {
        exception_code_number(c)
    }
}

/// Decoding a number and reading the number back gives the number again; a code
/// that is not `Unknown` of a named number is what its own number decodes to.
pub proof fn exception_code_round_trip(v: u16, c: ExceptionCode)
    ensures
        exception_code_number(decode_exception_code(v)) == v,
        !(c is Unknown && protected_information_code(c->Unknown_0) is Some) ==> decode_exception_code(
            exception_code_number(c),
        ) == c,
{
}

/// The envelope that every API response carries, success or failure.
#[derive(Debug)]
pub struct Response {
    /// HTTP status code.
    pub status: StatusCode,
    /// Human-readable message.
    pub message: String,
    /// Whether the API reports an error.
    pub error: bool,
    /// Error code; zero where the API sends none.
    pub error_code: i32,
}

/// The exception part of an API error.
#[derive(Debug)]
pub struct Exception {
    /// Exception code.
    pub code: ExceptionCode,
    /// Exception message.
    pub message: String,
    /// Exception detail.
    pub detail: Option<String>,
}

/// What the API sends back when it rejects a request.
#[derive(Debug)]
pub struct ApiError {
    /// The envelope.
    pub response: Response,
    /// The exception, where the API gives one.
    pub exception: Option<Exception>,
}

impl ApiError {
    /// The text that describes the error: the envelope's message.
    pub fn message(&self) -> (r: String)
        ensures
            r@ == self.response.message@,
    {
        self.response.message.clone()
    }
}

} // verus!
