//! The failures that the protocol client can report.

use std::num::ParseFloatError;
use std::num::ParseIntError;
use vstd::prelude::*;

verus! {

/// `std::num::ParseIntError`, carried through as an opaque value.
#[verifier::external_type_specification]
#[verifier::external_body]
pub struct ExParseIntError(ParseIntError);

/// `std::num::ParseFloatError`, carried through as an opaque value.
#[verifier::external_type_specification]
#[verifier::external_body]
pub struct ExParseFloatError(ParseFloatError);

/// `std::io::Error`, carried through as an opaque value.
#[verifier::external_type_specification]
#[verifier::external_body]
pub struct ExIoError(std::io::Error);

/// Why an operation of the protocol client failed.
#[derive(Debug)]
pub enum MmsError {
    /// A response that should hold an integer does not.
    ParseIntError(ParseIntError),
    /// A response that should hold a real number does not.
    ParseFloatError(ParseFloatError),
    /// The text names no statistic.
    ParseStatQueryError(String),
    /// The channel could not be written to or read from.
    IoError(std::io::Error),
    /// A command that moves the robot was answered by something other
    /// than the acknowledgment. Holds the line as it was received.
    InvalidAck(String),
    /// The text names no cell color.
    InvalidColorString(String),
    /// The text names no direction.
    InvalidDirectionString(String),
}

impl From<ParseIntError> for MmsError {
    fn from(e: ParseIntError) -> (r: MmsError) {
        MmsError::ParseIntError(e)
    }
}

impl vstd::std_specs::convert::FromSpecImpl<ParseIntError> for MmsError {
    open spec fn obeys_from_spec() -> bool {
        true
    }

    open spec fn from_spec(e: ParseIntError) -> MmsError {
        MmsError::ParseIntError(e)
    }
}

impl From<ParseFloatError> for MmsError {
    fn from(e: ParseFloatError) -> (r: MmsError) {
        MmsError::ParseFloatError(e)
    }
}

impl vstd::std_specs::convert::FromSpecImpl<ParseFloatError> for MmsError {
    open spec fn obeys_from_spec() -> bool {
        true
    }

    open spec fn from_spec(e: ParseFloatError) -> MmsError {
        MmsError::ParseFloatError(e)
    }
}

impl From<std::io::Error> for MmsError {
    fn from(e: std::io::Error) -> (r: MmsError) {
        MmsError::IoError(e)
    }
}

impl vstd::std_specs::convert::FromSpecImpl<std::io::Error> for MmsError {
    open spec fn obeys_from_spec() -> bool {
        true
    }

    open spec fn from_spec(e: std::io::Error) -> MmsError {
        MmsError::IoError(e)
    }
}

} // verus!
