use vstd::prelude::*;

verus! {

/// The header whose absence a parse failure reports.
#[derive(Clone, Copy, Debug, PartialEq, Eq, Structural)]
pub enum HeaderName {
    From,
    Subject,
}

/// Why a raw message could not be turned into a `MyMessage`.
#[derive(Clone, Copy, Debug, PartialEq, Eq, Structural)]
pub enum ParseError {
    /// The MIME structure of the raw bytes could not be decoded at all, or
    /// the selected body part could not be decoded to text.
    MalformedMessage,
    /// A required header is absent.
    MissingHeader(HeaderName),
    /// The `From` header value could not be parsed as an address list, or
    /// the list came back empty.
    AddressParse,
    /// The first entry of the `From` address list is not a single plain
    /// address but a group construct.
    UnsupportedAddressForm,
    /// A multipart message has no immediate `text/plain` subpart.
    NoPlainTextPart,
}

/// Why a mailbox could not be read.
#[derive(Clone, Copy, Debug, PartialEq, Eq, Structural)]
pub enum FetchError {
    /// TLS negotiation failed or the host is unreachable.
    Transport,
    /// A generic session-level protocol failure.
    Protocol,
    /// The server rejected the credentials.
    Auth,
    /// The requested folder does not exist or is inaccessible.
    Folder,
    /// A fetched message failed to parse; the whole batch fails with the
    /// first such error.
    Parse(ParseError),
}

} // verus!
