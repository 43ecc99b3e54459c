//! The unified error type of the dataset-reading layer: parse errors and
//! file errors side by side, so callers can handle both uniformly.

use vstd::prelude::*;
use crate::parser::FIPSParserError;

verus! {

/// Declares `std::io::Error` so a value of it can be carried through; the
/// library claims nothing about it.
#[verifier::external_type_specification]
#[verifier::external_body]
pub struct ExIoError(std::io::Error);

/// Declares `std::path::PathBuf` so a value of it can be carried through;
/// the library claims nothing about it.
#[verifier::external_type_specification]
#[verifier::external_body]
pub struct ExPathBuf(std::path::PathBuf);

/// What can go wrong while reading dataset records: an I/O failure, a
/// malformed identifier string, or a data file without even a header row.
/// An empty data file is its own case, not conflated with a generic I/O
/// failure.
pub enum ASPRError {
    Io(std::io::Error),
    Parse(FIPSParserError),
    EmptyFile(std::path::PathBuf),
}

} // verus!
