//! The error taxonomy: a dataset either could not be opened or could not be
//! understood.

use vstd::prelude::*;
use vstd::std_specs::convert::FromSpecImpl;

verus! {

/// `std::io::Error`, the failure to open or read a file, as an opaque type.
#[verifier::external_type_specification]
#[verifier::external_body]
pub struct ExIoError(std::io::Error);

/// `matfile::Error`, the failure to parse a container, as an opaque type.
#[verifier::external_type_specification]
#[verifier::external_body]
pub struct ExContainerError(matfile::Error);

/// Why a dataset could not be assembled.
#[derive(Clone, Copy, Debug, PartialEq, Eq, Structural)]
pub enum EstimationError {
    /// The container file could not be opened.
    FileNotFound,
    /// The container was opened, but it is malformed, or a required field is
    /// missing, is not an array of real doubles, or has an unexpected shape.
    ParseError,
}

impl EstimationError {
    /// The human-readable name of the error kind.
    pub open spec fn message(self) -> Seq<char> {
        match self {
            EstimationError::FileNotFound => "File not found"@,
            EstimationError::ParseError => "Parse Error"@,
        }
    }

    /// Renders the error as the text that a top-level caller reports.
    pub fn to_string(&self) -> (text: String)
        ensures
            text@ == self.message(),
    {
        match self {
            EstimationError::FileNotFound => "File not found".to_owned(),
            EstimationError::ParseError => "Parse Error".to_owned(),
        }
    }
}

/// Any failure to open the container counts as a missing file.
impl From<std::io::Error> for EstimationError {
    fn from(_failure: std::io::Error) -> (kind: Self) {
        EstimationError::FileNotFound
    }
}

impl FromSpecImpl<std::io::Error> for EstimationError {
    open spec fn obeys_from_spec() -> bool {
        true
    }

    open spec fn from_spec(_failure: std::io::Error) -> Self {
        EstimationError::FileNotFound
    }
}

/// Any failure to decode the container counts as a parse error.
impl From<matfile::Error> for EstimationError {
    fn from(_failure: matfile::Error) -> (kind: Self) {
        EstimationError::ParseError
    }
}

impl FromSpecImpl<matfile::Error> for EstimationError {
    open spec fn obeys_from_spec() -> bool {
        true
    }

    open spec fn from_spec(_failure: matfile::Error) -> Self {
        EstimationError::ParseError
    }
}

} // verus!
