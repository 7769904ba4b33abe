use vstd::prelude::*;

verus! {

/// What went wrong while decoding API notes.
#[derive(Clone, Debug, PartialEq)]
pub enum ErrorKind {
    /// The text is not a well-formed YAML document.
    Syntax(String),
    /// A value does not have the shape that its place in the schema asks for.
    InvalidType(String),
    /// A required attribute is absent.
    MissingField(String),
    /// A name that none of an enumeration's spellings matches.
    UnknownVariant(String),
    /// Two records of one collection carry the same key.
    DuplicateEntry(String),
    /// A `Version` number outside the supported set.
    UnsupportedVersion(String),
}

/// The error type used in this crate.
#[derive(Clone, Debug, PartialEq)]
pub struct Error {
    pub kind: ErrorKind,
}

impl Error {
    pub fn new(kind: ErrorKind) -> (r: Error)
        ensures
            r.kind == kind,
    {
        Error { kind }
    }

    /// A value of the wrong shape; `what` says what was expected.
    pub fn invalid_type(what: &str) -> (r: Error)
        ensures
            r.kind matches ErrorKind::InvalidType(m) && m@ == what@,
    {
        Error { kind: ErrorKind::InvalidType(what.to_owned()) }
    }

    /// A required attribute `name` is absent.
    pub fn missing_field(name: &str) -> (r: Error)
        ensures
            r.kind matches ErrorKind::MissingField(m) && m@ == name@,
    {
        Error { kind: ErrorKind::MissingField(name.to_owned()) }
    }

    /// `name` is none of the spellings that an enumeration accepts.
    pub fn unknown_variant(name: &String) -> (r: Error)
        ensures
            r.kind matches ErrorKind::UnknownVariant(m) && m@ == name@,
    {
        Error { kind: ErrorKind::UnknownVariant(name.clone()) }
    }

    /// Two records of a collection described by `what` carry the same key.
    pub fn duplicate_entry(what: &str) -> (r: Error)
        ensures
            r.kind matches ErrorKind::DuplicateEntry(m) && m@ == what@,
    {
        Error { kind: ErrorKind::DuplicateEntry(what.to_owned()) }
    }

    /// A `Version` number, written `text`, outside the supported set.
    pub fn unsupported_version(text: &String) -> (r: Error)
        ensures
            r.kind matches ErrorKind::UnsupportedVersion(m) && m@ == text@,
    {
        Error { kind: ErrorKind::UnsupportedVersion(text.clone()) }
    }

    /// A human-readable description of the error.
    pub fn message(&self) -> (r: String)
        ensures
            r@ == self.message_text(),
    {
        match &self.kind {
            ErrorKind::Syntax(m) => m.clone(),
            ErrorKind::InvalidType(m) => m.clone(),
            ErrorKind::MissingField(m) => m.clone(),
            ErrorKind::UnknownVariant(m) => m.clone(),
            ErrorKind::DuplicateEntry(m) => m.clone(),
            ErrorKind::UnsupportedVersion(m) => m.clone(),
        }
    }

    pub open spec fn message_text(&self) -> Seq<char> {
        match self.kind {
            ErrorKind::Syntax(m) => m@,
            ErrorKind::InvalidType(m) => m@,
            ErrorKind::MissingField(m) => m@,
            ErrorKind::UnknownVariant(m) => m@,
            ErrorKind::DuplicateEntry(m) => m@,
            ErrorKind::UnsupportedVersion(m) => m@,
        }
    }
}

} // verus!
