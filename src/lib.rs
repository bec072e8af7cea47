//! Label printing: the Datamax command language as a verified encoder, and
//! the small decisions around the host printing systems that can be made on
//! plain values.
use vstd::prelude::*;

pub mod codepage;
pub mod decimal;
pub mod driver;
pub mod ipp;
pub mod options;
pub mod status;
pub mod units;

use vstd::string::StringExecFns;

verus! {

/// The printer's state, reduced to a few common flags.
#[derive(Debug, Clone, Copy, PartialEq, Eq, Structural)]
pub enum Status {
    Idle,
    Busy,
    Stopped,
    Warn,
    Error,
}

/// Printer errors.
#[derive(Debug, Clone)]
pub enum PrintError {
    /// Error from the printing system.
    Print(String),
    /// Printer not found.
    NotFound,
    /// No default printer.
    NoDefaultPrinter,
    /// Already working on a document.
    DocumentOpen,
    /// C string conversion error.
    InteriorNulInCStr,
    /// Memory layout error.
    LayoutError,
    /// A number could not be parsed.
    ParseIntError,
}

impl PrintError {
    /// The text that describes the error to a person.
    pub open spec fn describe(&self) -> Seq<char> {
        match self {
            PrintError::Print(v) => v@,
            PrintError::NotFound => "Printer not found."@,
            PrintError::NoDefaultPrinter => "No default printer."@,
            PrintError::DocumentOpen => "Document already open."@,
            PrintError::InteriorNulInCStr => "Invalid NUL found."@,
            PrintError::LayoutError => "Can't create memory layout."@,
            PrintError::ParseIntError => "Parse int error."@,
        }
    }

    /// The text that describes the error to a person.
    pub fn message(&self) -> (r: String)
        ensures
            r@ == self.describe(),
    {
        match self {
            PrintError::Print(v) => v.clone(),
            PrintError::NotFound => String::from_str("Printer not found."),
            PrintError::NoDefaultPrinter => String::from_str("No default printer."),
            PrintError::DocumentOpen => String::from_str("Document already open."),
            PrintError::InteriorNulInCStr => String::from_str("Invalid NUL found."),
            PrintError::LayoutError => String::from_str("Can't create memory layout."),
            PrintError::ParseIntError => String::from_str("Parse int error."),
        }
    }
}

} // verus!
