//! The closed set of failure categories that is surfaced to the host.

use vstd::prelude::*;
use vstd::string::*;

verus! {

/// A failure of the adapter: a category and a human-readable text.
///
/// The mapping from engine failures is lossy on purpose: only the category and
/// the text survive, no structured cause.
#[derive(Debug)]
pub enum Error {
    /// The protocol engine failed internally.
    OpenMlsError(String),
    /// No persisted state exists for the group.
    InvalidState(String),
    /// No member carries the requested identity.
    MemberNotFound(String),
    /// A message decoded to a kind that the operation does not accept.
    InvalidMessageType(String),
    /// A value could not cross the host boundary.
    SerializationError(String),
    /// A buffer could not be decoded or encoded.
    CodecError(String),
    /// The storage layer refused a read or a write.
    StorageError(String),
    /// Key generation or hashing failed.
    CryptoError(String),
}

/// The category of an [`Error`], without its text.
#[derive(Debug, Clone, Copy, PartialEq, Eq, Structural)]
pub enum ErrorKind {
    OpenMls,
    InvalidState,
    MemberNotFound,
    InvalidMessageType,
    Serialization,
    Codec,
    Storage,
    Crypto,
}

/// The text that introduces each category in a rendered error.
pub open spec fn kind_prefix(kind: ErrorKind) -> Seq<char> {
    match kind {
        ErrorKind::OpenMls => "OpenMLS error: "@,
        ErrorKind::InvalidState => "Invalid state: "@,
        ErrorKind::MemberNotFound => "Member not found: "@,
        ErrorKind::InvalidMessageType => "Invalid message type: "@,
        ErrorKind::Serialization => "Serialization error: "@,
        ErrorKind::Codec => "Codec error: "@,
        ErrorKind::Storage => "Storage error: "@,
        ErrorKind::Crypto => "Crypto error: "@,
    }
}

impl Error {
    /// The category of this error.
    pub open spec fn spec_kind(&self) -> ErrorKind {
        match self {
            Error::OpenMlsError(_) => ErrorKind::OpenMls,
            Error::InvalidState(_) => ErrorKind::InvalidState,
            Error::MemberNotFound(_) => ErrorKind::MemberNotFound,
            Error::InvalidMessageType(_) => ErrorKind::InvalidMessageType,
            Error::SerializationError(_) => ErrorKind::Serialization,
            Error::CodecError(_) => ErrorKind::Codec,
            Error::StorageError(_) => ErrorKind::Storage,
            Error::CryptoError(_) => ErrorKind::Crypto,
        }
    }

    /// The descriptive text carried by this error.
    pub open spec fn spec_detail(&self) -> Seq<char> {
        match self {
            Error::OpenMlsError(s) => s@,
            Error::InvalidState(s) => s@,
            Error::MemberNotFound(s) => s@,
            Error::InvalidMessageType(s) => s@,
            Error::SerializationError(s) => s@,
            Error::CodecError(s) => s@,
            Error::StorageError(s) => s@,
            Error::CryptoError(s) => s@,
        }
    }

    /// The rendered form: the category's prefix followed by the text.
    pub open spec fn spec_rendered(&self) -> Seq<char> {
        kind_prefix(self.spec_kind()) + self.spec_detail()
    }

    /// Builds the error of category `kind` that carries `detail`.
    pub fn from_kind(kind: ErrorKind, detail: String) -> (e: Error)
        ensures
            e.spec_kind() == kind,
            e.spec_detail() == detail@,
    {
        match kind {
            ErrorKind::OpenMls => Error::OpenMlsError(detail),
            ErrorKind::InvalidState => Error::InvalidState(detail),
            ErrorKind::MemberNotFound => Error::MemberNotFound(detail),
            ErrorKind::InvalidMessageType => Error::InvalidMessageType(detail),
            ErrorKind::Serialization => Error::SerializationError(detail),
            ErrorKind::Codec => Error::CodecError(detail),
            ErrorKind::Storage => Error::StorageError(detail),
            ErrorKind::Crypto => Error::CryptoError(detail),
        }
    }

    /// The category of this error.
    pub fn kind(&self) -> (k: ErrorKind)
        ensures
            k == self.spec_kind(),
    {
        match self {
            Error::OpenMlsError(_) => ErrorKind::OpenMls,
            Error::InvalidState(_) => ErrorKind::InvalidState,
            Error::MemberNotFound(_) => ErrorKind::MemberNotFound,
            Error::InvalidMessageType(_) => ErrorKind::InvalidMessageType,
            Error::SerializationError(_) => ErrorKind::Serialization,
            Error::CodecError(_) => ErrorKind::Codec,
            Error::StorageError(_) => ErrorKind::Storage,
            Error::CryptoError(_) => ErrorKind::Crypto,
        }
    }

    /// The descriptive text carried by this error.
    pub fn detail(&self) -> (s: &String)
        ensures
            s@ == self.spec_detail(),
    {
        match self {
            Error::OpenMlsError(s) => s,
            Error::InvalidState(s) => s,
            Error::MemberNotFound(s) => s,
            Error::InvalidMessageType(s) => s,
            Error::SerializationError(s) => s,
            Error::CodecError(s) => s,
            Error::StorageError(s) => s,
            Error::CryptoError(s) => s,
        }
    }

    /// Renders the error as the host sees it: prefix, then text.
    pub fn to_string(&self) -> (s: String)
        ensures
            s@ == self.spec_rendered(),
    {
        let prefix: &str = match self {
            Error::OpenMlsError(_) => "OpenMLS error: ",
            Error::InvalidState(_) => "Invalid state: ",
            Error::MemberNotFound(_) => "Member not found: ",
            Error::InvalidMessageType(_) => "Invalid message type: ",
            Error::SerializationError(_) => "Serialization error: ",
            Error::CodecError(_) => "Codec error: ",
            Error::StorageError(_) => "Storage error: ",
            Error::CryptoError(_) => "Crypto error: ",
        };
        String::from_str(prefix).concat(self.detail().as_str())
    }
}

/// The result type of every fallible operation of this library.
pub type Result<T> = std::result::Result<T, Error>;

} // verus!
