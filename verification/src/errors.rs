//! The error taxonomy: static validation failures, definitive failures
//! reported by the node's RPC interface, and the distinct timeout that ends
//! the bounded visibility wait.

use vstd::prelude::*;

verus! {

/// The first invariant an identity request broke, as reported by
/// [`crate::IdentityBuilder::validate`].  Validation stops at the first
/// violation; it does not collect several.
#[derive(Debug, Clone, Copy, PartialEq, Eq, Structural)]
pub enum ValidationError {
    /// `minimum_signatures` exceeds the number of primary addresses.
    TooManySignatures,
    /// No identity name was given, or the given name is empty.
    MissingName,
    /// No primary address was given; at least one is needed.
    MissingAddress,
    /// A content-map key is longer than 20 bytes.
    KeyTooLong,
    /// A content-map key is not valid hexadecimal.
    KeyNotHex,
    /// A content-map value is longer than 32 bytes.
    ValueTooLong,
    /// A content-map value is not valid hexadecimal.
    ValueNotHex,
}

/// What went wrong, either before any network activity (validation) or while
/// driving the registration protocol.
#[derive(Debug, PartialEq, Eq)]
pub enum ErrorKind {
    /// The node's RPC interface reported a definitive failure; the payload is
    /// the reported message.
    VrscRpcError(String),
    /// The request broke a static invariant; nothing was sent to the node.
    Validation(ValidationError),
    /// The commitment transaction did not become visible to the node's wallet
    /// within the bounded retry budget, or the caller cancelled the
    /// confirmation wait.
    Timeout,
}

/// The mathematical value of an [`ErrorKind`]: messages as character
/// sequences.
pub enum ErrorKindV {
    VrscRpcError(Seq<char>),
    Validation(ValidationError),
    Timeout,
}

impl View for ErrorKind {
    type V = ErrorKindV;

    open spec fn view(&self) -> ErrorKindV {
        match self {
            ErrorKind::VrscRpcError(m) => ErrorKindV::VrscRpcError(m@),
            ErrorKind::Validation(v) => ErrorKindV::Validation(*v),
            ErrorKind::Timeout => ErrorKindV::Timeout,
        }
    }
}

/// The error value every fallible operation of this library returns.
#[derive(Debug, PartialEq, Eq)]
pub struct IdentityError {
    pub kind: ErrorKind,
}

impl View for IdentityError {
    type V = ErrorKindV;

    open spec fn view(&self) -> ErrorKindV {
        self.kind@
    }
}

} // verus!
