//! Native status codes and the error taxonomy they map to.
use vstd::prelude::*;

verus! {

/// The errors a native call can report.
#[derive(Debug, Clone, PartialEq, Eq)]
pub enum ZrRawError {
    InvalidInput,
    UnsupportedFormat,
    ParseError(String),
    OutOfMemory,
    IoError,
    CorruptedData,
    Unknown(i32),
}

/// The error kind named by a nonzero native status code, without the
/// message text that a parse error carries.
pub enum ErrorKind {
    InvalidInput,
    UnsupportedFormat,
    ParseError,
    OutOfMemory,
    IoError,
    CorruptedData,
    Unknown(i32),
}

/// The fixed table from native status codes to error kinds.
pub open spec fn kind_of_code(code: i32) -> ErrorKind {
    if code == -1 {
        ErrorKind::InvalidInput
    } else if code == -2 {
        ErrorKind::UnsupportedFormat
    } else if code == -3 {
        ErrorKind::ParseError
    } else if code == -4 {
        ErrorKind::OutOfMemory
    } else if code == -5 {
        ErrorKind::IoError
    } else if code == -6 {
        ErrorKind::CorruptedData
    } else {
        ErrorKind::Unknown(code)
    }
}

impl ZrRawError {
    /// The kind of this error.
    pub open spec fn kind(&self) -> ErrorKind {
        match self {
            ZrRawError::InvalidInput => ErrorKind::InvalidInput,
            ZrRawError::UnsupportedFormat => ErrorKind::UnsupportedFormat,
            ZrRawError::ParseError(_) => ErrorKind::ParseError,
            ZrRawError::OutOfMemory => ErrorKind::OutOfMemory,
            ZrRawError::IoError => ErrorKind::IoError,
            ZrRawError::CorruptedData => ErrorKind::CorruptedData,
            ZrRawError::Unknown(c) => ErrorKind::Unknown(*c),
        }
    }

    /// The error that a nonzero status code stands for, with the message
    /// text that the native layer's parse failures carry.
    pub open spec fn is_error_of_code(&self, code: i32) -> bool {
        &&& self.kind() == kind_of_code(code)
        &&& (self matches ZrRawError::ParseError(m) ==> m@ == "Parse failed"@)
    }

    /// Maps a native status code to its error.
    pub fn from_code(code: i32) -> (r: ZrRawError)
        ensures
            r.is_error_of_code(code),
    {
        match code {
            -1 => ZrRawError::InvalidInput,
            -2 => ZrRawError::UnsupportedFormat,
            -3 => ZrRawError::ParseError(String::from_str("Parse failed")),
            -4 => ZrRawError::OutOfMemory,
            -5 => ZrRawError::IoError,
            -6 => ZrRawError::CorruptedData,
            other => ZrRawError::Unknown(other),
        }
    }
}

/// The status mapping is total and fixed: every nonzero code names exactly
/// one kind, `-1` through `-6` the six named kinds in order and any other
/// code `Unknown` with the code kept; zero is success and no error.
pub proof fn lemma_status_mapping(code: i32)
    ensures
        code == -1 ==> kind_of_code(code) == ErrorKind::InvalidInput,
        code == -2 ==> kind_of_code(code) == ErrorKind::UnsupportedFormat,
        code == -3 ==> kind_of_code(code) == ErrorKind::ParseError,
        code == -4 ==> kind_of_code(code) == ErrorKind::OutOfMemory,
        code == -5 ==> kind_of_code(code) == ErrorKind::IoError,
        code == -6 ==> kind_of_code(code) == ErrorKind::CorruptedData,
        code != 0 && !(-6 <= code <= -1) ==> kind_of_code(code) == ErrorKind::Unknown(code),
        forall|e1: ZrRawError, e2: ZrRawError|
            e1.is_error_of_code(code) && e2.is_error_of_code(code) ==> e1.kind() == e2.kind(),
{
}

/// Zero means success; any other status is the error it stands for.
pub fn check_status(code: i32) -> (r: Result<(), ZrRawError>)
    ensures
        code == 0 <==> r is Ok,
        r matches Err(e) ==> e.is_error_of_code(code),
{
    if code == 0 {
        Ok(())
    } else {
        Err(ZrRawError::from_code(code))
    }
}

} // verus!
