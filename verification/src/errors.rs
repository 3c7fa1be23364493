//! Error kinds shared by every component of the crate.
//!
//! All mutation errors are detected before any state change, so partial
//! application never occurs; read misses are reported as an explicit
//! absent result (`None`) rather than an error kind.

use vstd::prelude::*;

verus! {

/// The error kinds a caller can receive.
///
/// Every one of them is recoverable: retry with a corrected index,
/// re-fetch current state, or reject the request upstream.
#[derive(Clone, Copy, PartialEq, Eq, Structural, Debug, Hash)]
pub enum Error {
    /// An index supplied with an append, owner or permission change is out
    /// of causal sequence; carries the expected value.
    InvalidSuccessor(u64),
    /// The expected owners index of a change does not match the current
    /// owner history length; carries the expected value.
    InvalidOwnersSuccessor(u64),
    /// The expected permissions index of a change does not match the
    /// current permission history length; carries the expected value.
    InvalidPermissionsSuccessor(u64),
    /// A requested entry does not exist.
    NoSuchEntry,
    /// The requested data variant is not held here.
    NoSuchData,
    /// A key and a signature name different schemes.
    SigningKeyTypeMismatch,
    /// Cryptographic signature verification failed.
    InvalidSignature,
    /// An encoded value could not be parsed back.
    FailedToParse,
    /// A transfer that requires prior history named an actor with no
    /// registered transfer.
    NoHistory,
    /// A transfer that expects no prior history named an actor with a
    /// registered transfer.
    UnexpectedHistory,
}

} // verus!
