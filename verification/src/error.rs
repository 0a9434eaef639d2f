//! Errors of the probe reader.

use vstd::prelude::*;

use crate::loader::goblin_error_text;

verus! {

/// An I/O error of the standard library, carried through unread.
#[verifier::external_type_specification]
#[verifier::external_body]
pub struct ExIoError(std::io::Error);

/// The text fields of a probe note.
#[derive(Clone, Copy, Debug, PartialEq, Eq, Structural)]
pub enum Field {
    /// Name of the provider.
    Provider,
    /// Name of the probe.
    Probe,
    /// Argument format.
    Arguments,
}

/// What can go wrong when an object is loaded or a probe note is decoded.
#[derive(Debug)]
pub enum UsdtError {
    /// I/O error.
    IoError(std::io::Error),
    /// Error occured when reading an object file header.
    GoblinError(goblin::error::Error),
    /// Unsupported object file format (only ELF is supported at the moment),
    /// with the name of the format that was found.
    UnsupportedObjectType(String),
    /// The note is no probe descriptor: wrong type tag or owner, or an empty
    /// provider or probe name.
    MalformedNote,
    /// The descriptor ends before the addresses or a string terminator.
    TruncatedNote,
    /// A string of the descriptor is not valid UTF-8.
    InvalidText(Field),
}

impl From<std::io::Error> for UsdtError {
    fn from(e: std::io::Error) -> (r: UsdtError)
    {
        UsdtError::IoError(e)
    }
}

impl vstd::std_specs::convert::FromSpecImpl<std::io::Error> for UsdtError {
    open spec fn obeys_from_spec() -> bool {
        true
    }

    open spec fn from_spec(e: std::io::Error) -> UsdtError {
        UsdtError::IoError(e)
    }
}

impl From<goblin::error::Error> for UsdtError {
    fn from(e: goblin::error::Error) -> (r: UsdtError)
    {
        UsdtError::GoblinError(e)
    }
}

impl vstd::std_specs::convert::FromSpecImpl<goblin::error::Error> for UsdtError {
    open spec fn obeys_from_spec() -> bool {
        true
    }

    open spec fn from_spec(e: goblin::error::Error) -> UsdtError {
        UsdtError::GoblinError(e)
    }
}

impl Field {
    /// What the field is called in a message.
    pub open spec fn spec_name(self) -> Seq<char> {
        match self {
            Field::Provider => "provider name"@,
            Field::Probe => "probe name"@,
            Field::Arguments => "argument format"@,
        }
    }

    /// What the field is called in a message.
    pub fn name(self) -> (name: &'static str)
        ensures
            name@ == self.spec_name(),
    {
        match self {
            Field::Provider => "provider name",
            Field::Probe => "probe name",
            Field::Arguments => "argument format",
        }
    }
}

/// `Display` of `std::io::Error`: what the error prints of itself. The text
/// depends on the platform, so nothing is claimed of it.
#[verifier::external_body]
fn io_error_text(e: &std::io::Error) -> String {
    format!("{}", e)
}

/// The words of this crate followed by what an error from outside prints of
/// itself.
pub fn with_detail(prefix: &str, detail: &str) -> (text: String)
    ensures
        text@ == prefix@ + detail@,
{
    String::from_str(prefix).concat(detail)
}

impl UsdtError {
    /// The error in words. For an error that comes from outside, the text is
    /// `with_detail` of the words of this crate and of what that error
    /// prints of itself, whatever that is.
    pub fn message(&self) -> (text: String)
        ensures
            match self {
                UsdtError::IoError(_) => "I/O error: "@.is_prefix_of(text@),
                UsdtError::GoblinError(_) => "Error occured when reading an object file header: "@.is_prefix_of(
                    text@,
                ),
                UsdtError::UnsupportedObjectType(kind) => text@
                    == "Unsupported object file format "@ + kind@
                    + " (only ELF is supported at the moment)."@,
                UsdtError::MalformedNote => text@ == "Malformed probe note."@,
                UsdtError::TruncatedNote => text@ == "Truncated probe note."@,
                UsdtError::InvalidText(field) => text@ == "Invalid string: "@ + field.spec_name()
                    + "."@,
            },
    {
        match self {
            UsdtError::IoError(e) => {
                let detail = io_error_text(e);
                with_detail("I/O error: ", detail.as_str())
            },
            UsdtError::GoblinError(e) => {
                let detail = goblin_error_text(e);
                with_detail("Error occured when reading an object file header: ", detail.as_str())
            },
            UsdtError::UnsupportedObjectType(kind) => String::from_str(
                "Unsupported object file format ",
            ).concat(kind.as_str()).concat(" (only ELF is supported at the moment)."),
            UsdtError::MalformedNote => String::from_str("Malformed probe note."),
            UsdtError::TruncatedNote => String::from_str("Truncated probe note."),
            UsdtError::InvalidText(field) => String::from_str("Invalid string: ").concat(
                field.name(),
            ).concat("."),
        }
    }
}

} // verus!
