//! The migration of one table, and what can end it.

pub mod run;
pub mod table;

use crate::value::{driver_error_text, ValueError};
use vstd::prelude::*;
use vstd::std_specs::convert::FromSpecImpl;
use vstd::string::StringExecFns;

pub use table::TableExtractor;

verus! {

/// Why the migration of a table ended early.
#[derive(Debug)]
pub enum ExtractorError {
    /// A connection or a statement failed.
    Sqlx(sqlx::Error),
    /// A cell could not be decoded.
    ValueError(ValueError),
}

impl From<sqlx::Error> for ExtractorError {
    fn from(err: sqlx::Error) -> (e: ExtractorError) {
        ExtractorError::Sqlx(err)
    }
}

impl FromSpecImpl<sqlx::Error> for ExtractorError {
    open spec fn obeys_from_spec() -> bool {
        true
    }

    open spec fn from_spec(err: sqlx::Error) -> ExtractorError {
        ExtractorError::Sqlx(err)
    }
}

impl From<ValueError> for ExtractorError {
    fn from(err: ValueError) -> (e: ExtractorError) {
        ExtractorError::ValueError(err)
    }
}

impl FromSpecImpl<ValueError> for ExtractorError {
    open spec fn obeys_from_spec() -> bool {
        true
    }

    open spec fn from_spec(err: ValueError) -> ExtractorError {
        ExtractorError::ValueError(err)
    }
}

/// The causes of a failure, as far as the pipeline itself fixes them.
pub enum Failure {
    /// The driver reported this error for a connection or a statement.
    Driver(sqlx::Error),
    /// An event came that the pipeline was not waiting for.
    Protocol,
    /// A cell's declared type has no decoding; holds the type name.
    InvalidType(Seq<char>),
    /// The driver reported this error when it read a cell.
    Decode(sqlx::Error),
    /// A cell was not read as the type that its declared type stands for.
    Mismatch,
}

impl ExtractorError {
    /// Whether the error is the one that a failure is reported with.
    pub open spec fn reports(&self, failure: Failure) -> bool {
        match failure {
            Failure::Driver(err) => *self == ExtractorError::Sqlx(err),
            Failure::Protocol => self is Sqlx,
            Failure::InvalidType(name) => self matches ExtractorError::ValueError(
                ValueError::InvalidType(n),
            ) && n@ == name,
            Failure::Decode(err) => *self == ExtractorError::ValueError(
                ValueError::DecodeError(err),
            ),
            Failure::Mismatch => self matches ExtractorError::ValueError(
                ValueError::DecodeError(_),
            ),
        }
    }

    /// The error as one line of text: `Sqlx error: ` before the driver's
    /// own words, `Value error: ` before the text of a value error.
    pub fn message(&self) -> (text: String)
        ensures
            match self {
                ExtractorError::Sqlx(_) => "Sqlx error: "@.is_prefix_of(text@),
                ExtractorError::ValueError(ValueError::InvalidType(name)) => text@
                    == "Value error: "@ + ("Invalid type: "@ + name@),
                ExtractorError::ValueError(ValueError::DecodeError(_)) => (
                    "Value error: "@ + "Decode error: "@).is_prefix_of(text@),
            },
    {
        match self {
            ExtractorError::Sqlx(err) => {
                let mut text = String::from_str("Sqlx error: ");
                let detail = driver_error_text(err);
                text.append(detail.as_str());
                text
            },
            ExtractorError::ValueError(err) => {
                let mut text = String::from_str("Value error: ");
                let detail = err.message();
                text.append(detail.as_str());
                text
            },
        }
    }
}

} // verus!
