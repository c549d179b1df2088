use vstd::prelude::*;

verus! {

/// Why a section could not be located or a cursor could not be moved.
#[derive(Debug, Clone, Copy, PartialEq, Eq, Structural)]
pub enum SMParserError {
    /// The container holds no stack map section.
    SectionNotFound,
    /// The container's header names another architecture, or its declared
    /// number of load commands differs from the number parsed.
    HeaderMismatch,
    /// The container's bytes could not be parsed.
    Malformed,
    /// A cursor was asked to move outside its buffer.
    Seek,
}

/// The result of the operations of this library.
pub type SMParserResult<T> = Result<T, SMParserError>;

impl SMParserError {
    /// A human-readable description of the error.
    pub fn message(&self) -> (r: &'static str)
        ensures
            *self == SMParserError::SectionNotFound ==> r@ == "Can't find stackmap section in binary"@,
            *self == SMParserError::HeaderMismatch ==> r@
                == "Unsupported architecture or inconsistent header"@,
            *self == SMParserError::Malformed ==> r@ == "Can't parse the binary"@,
            *self == SMParserError::Seek ==> r@ == "Position outside the section"@,
    {
        match self {
            SMParserError::SectionNotFound => "Can't find stackmap section in binary",
            SMParserError::HeaderMismatch => "Unsupported architecture or inconsistent header",
            SMParserError::Malformed => "Can't parse the binary",
            SMParserError::Seek => "Position outside the section",
        }
    }
}

} // verus!
