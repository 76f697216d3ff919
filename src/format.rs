//! RAW container formats and the native format codes that name them.
use vstd::prelude::*;

use crate::status::{check_status, ZrRawError};

verus! {

#[derive(Debug, Clone, Copy, PartialEq, Eq, Structural)]
pub enum CanonFormat {
    CR2,
}

#[derive(Debug, Clone, Copy, PartialEq, Eq, Structural)]
pub enum NikonFormat {
    NEF,
}

#[derive(Debug, Clone, Copy, PartialEq, Eq, Structural)]
pub enum SonyFormat {
    ARW,
}

#[derive(Debug, Clone, Copy, PartialEq, Eq, Structural)]
pub enum AdobeFormat {
    DNG,
}

#[derive(Debug, Clone, Copy, PartialEq, Eq, Structural)]
pub enum FujifilmFormat {
    RAF,
}

#[derive(Debug, Clone, Copy, PartialEq, Eq, Structural)]
pub enum OlympusFormat {
    ORF,
}

/// A RAW format, as the native detector reports it.
#[derive(Debug, Clone, Copy, PartialEq, Eq, Structural)]
pub enum RawFormat {
    Unknown,
    Canon(CanonFormat),
    Nikon(NikonFormat),
    Sony(SonyFormat),
    Adobe(AdobeFormat),
    Fujifilm(FujifilmFormat),
    Olympus(OlympusFormat),
}

/// The closed table of native format codes; every other code is unknown.
pub open spec fn format_of_code(code: u32) -> RawFormat {
    if code == 1 {
        RawFormat::Canon(CanonFormat::CR2)
    } else if code == 2 {
        RawFormat::Nikon(NikonFormat::NEF)
    } else if code == 3 {
        RawFormat::Sony(SonyFormat::ARW)
    } else if code == 4 {
        RawFormat::Adobe(AdobeFormat::DNG)
    } else if code == 5 {
        RawFormat::Fujifilm(FujifilmFormat::RAF)
    } else if code == 6 {
        RawFormat::Olympus(OlympusFormat::ORF)
    } else {
        RawFormat::Unknown
    }
}

impl From<u32> for RawFormat {
    fn from(code: u32) -> (r: RawFormat)
        ensures
            r == format_of_code(code),
    {
        match code {
            1 => RawFormat::Canon(CanonFormat::CR2),
            2 => RawFormat::Nikon(NikonFormat::NEF),
            3 => RawFormat::Sony(SonyFormat::ARW),
            4 => RawFormat::Adobe(AdobeFormat::DNG),
            5 => RawFormat::Fujifilm(FujifilmFormat::RAF),
            6 => RawFormat::Olympus(OlympusFormat::ORF),
            _ => RawFormat::Unknown,
        }
    }
}

impl vstd::std_specs::convert::FromSpecImpl<u32> for RawFormat {
    open spec fn obeys_from_spec() -> bool {
        true
    }

    open spec fn from_spec(code: u32) -> RawFormat {
        format_of_code(code)
    }
}

/// The result of a native format detection: the status it returned and
/// the code it wrote. Any nonzero status is an error; otherwise the code
/// names the format.
pub fn format_from_detection(status: i32, code: u32) -> (r: Result<RawFormat, ZrRawError>)
    ensures
        status == 0 <==> r is Ok,
        r matches Ok(f) ==> f == format_of_code(code),
        r matches Err(e) ==> e.is_error_of_code(status),
{
    match check_status(status) {
        Ok(()) => Ok(RawFormat::from(code)),
        Err(e) => Err(e),
    }
}

} // verus!
