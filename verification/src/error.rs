//! The failures that the binding reports.

use vstd::prelude::*;
use vstd::string::StringExecFns;

verus! {

/// Why a geometry could not be built or an operation gave no result.
#[derive(Debug)]
pub enum Error {
    /// The engine answered with its failure sentinel, or the input was
    /// refused before the engine was asked.
    InvalidGeometry,
    /// As `InvalidGeometry`, with words on what was refused.
    InvalidGeometryDetail(String),
    /// A handle that had to be present was null.
    NoConstructionFromNullPtr,
}

/// The outcome of a fallible operation of the binding.
pub type Result<T> = core::result::Result<T, Error>;

impl Error {
    /// The text that `message` gives for this failure.
    pub open spec fn message_text(&self) -> Seq<char> {
        match self {
            Error::InvalidGeometry => "Invalid geometry"@,
            Error::InvalidGeometryDetail(detail) => "Invalid geometry, "@ + detail@,
            Error::NoConstructionFromNullPtr => "impossible to build a geometry from a nullptr"@,
        }
    }

    /// A line for the user that names the failure.
    pub fn message(&self) -> (text: String)
        ensures
            text@ == self.message_text(),
    {
        match self {
            Error::InvalidGeometry => String::from_str("Invalid geometry"),
            Error::InvalidGeometryDetail(detail) => {
                String::from_str("Invalid geometry, ").concat(detail.as_str())
            },
            Error::NoConstructionFromNullPtr => {
                String::from_str("impossible to build a geometry from a nullptr")
            },
        }
    }
}

} // verus!
