//! Money requests sent to the elders of a section, and the routing and
//! authorization lookups the request envelope makes on them: each request
//! maps to a required authorization class and, for the commands, to the
//! XOR destination derived from the transfer's keys. Requests carrying a
//! consensus certificate need no extra authorization, because the
//! certificate itself carries the section's authority; balance and
//! history queries carry no destination, as they are answered locally.

use vstd::prelude::*;
use crate::errors::Error;
use crate::keys::{spec_xor_name_bytes, PublicKey};
use crate::money::Money;
use crate::transfer::{ProofOfAgreement, Transfer, TransferRegistered, ValidateTransfer};
use crate::XorName;

verus! {

/// The coarse class of a request.
#[derive(Clone, Copy, PartialEq, Eq, Structural, Debug, Hash)]
pub enum Type {
    /// A read of private state.
    PrivateGet,
    /// A transfer of money.
    Transfer,
}

/// Miscellaneous authorization classes.
#[derive(Clone, Copy, PartialEq, Eq, Structural, Debug, Hash)]
pub enum MiscAuthKind {
    /// Authority to mutate state and transfer money.
    MutAndTransferMoney,
}

/// Money-specific authorization classes.
#[derive(Clone, Copy, PartialEq, Eq, Structural, Debug, Hash)]
pub enum MoneyAuthKind {
    /// Authority to read the current balance.
    GetBalance,
    /// Authority to read the history of incoming transfers.
    GetHistory,
}

/// The authorization a request needs before it is admitted.
#[derive(Clone, Copy, PartialEq, Eq, Structural, Debug, Hash)]
pub enum AuthorisationKind {
    /// No extra authorization: the request carries its own authority.
    NotNeeded,
    /// A miscellaneous authorization class.
    Misc(MiscAuthKind),
    /// A money authorization class.
    Money(MoneyAuthKind),
}

/// The responses to money requests; each carries the outcome matching
/// its request variant.
#[derive(PartialEq, Eq, Debug)]
pub enum Response {
    /// The balance of a key.
    GetBalance(Result<Money, Error>),
    /// The transfer history of a key.
    GetHistory(Result<Vec<Transfer>, Error>),
    /// The outcome of a transfer validation.
    TransferValidation(Result<ValidateTransfer, Error>),
    /// The outcome of a transfer registration.
    TransferRegistration(Result<TransferRegistered, Error>),
    /// The outcome of a transfer propagation.
    TransferPropagation(Result<TransferRegistered, Error>),
}

/// A money request sent to the elders of a section.
#[derive(Clone, PartialEq, Eq, Debug)]
pub enum MoneyRequest {
    /// Request to validate a transfer.
    ValidateTransfer {
        /// The command to validate a transfer.
        signed_transfer: ValidateTransfer,
    },
    /// Request to register a consensused transfer.
    RegisterTransfer {
        /// The section's consensus certificate for the transfer.
        agreement: ProofOfAgreement,
    },
    /// Request to propagate a consensused transfer to the credit side.
    PropagateTransfer {
        /// The section's consensus certificate for the transfer.
        agreement: ProofOfAgreement,
    },
    /// Get the balance of a key.
    GetBalance(PublicKey),
    /// Get a key's transfers since a known version.
    GetHistory {
        /// The balance key.
        at: PublicKey,
        /// The last version of transfers known.
        since_version: usize,
    },
}

impl MoneyRequest {
    /// Returns the coarse class of this request.
    pub fn get_type(&self) -> (r: Type)
        ensures
            r == (match *self {
                MoneyRequest::GetBalance(_) => Type::PrivateGet,
                MoneyRequest::GetHistory { .. } => Type::PrivateGet,
                _ => Type::Transfer,
            }),
    {
        match self {
            MoneyRequest::GetBalance(_) => Type::PrivateGet,
            MoneyRequest::GetHistory { .. } => Type::PrivateGet,
            MoneyRequest::ValidateTransfer { .. } => Type::Transfer,
            MoneyRequest::RegisterTransfer { .. } => Type::Transfer,
            MoneyRequest::PropagateTransfer { .. } => Type::Transfer,
        }
    }

    /// Creates a response containing `error`, in the response variant
    /// corresponding to this request variant.
    pub fn error_response(&self, error: Error) -> (r: Response)
        ensures
            r == (match *self {
                MoneyRequest::GetBalance(_) => Response::GetBalance(Err(error)),
                MoneyRequest::GetHistory { .. } => Response::GetHistory(Err(error)),
                MoneyRequest::ValidateTransfer { .. } => Response::TransferValidation(Err(error)),
                MoneyRequest::RegisterTransfer { .. } => Response::TransferRegistration(
                    Err(error),
                ),
                MoneyRequest::PropagateTransfer { .. } => Response::TransferPropagation(
                    Err(error),
                ),
            }),
    {
        match self {
            MoneyRequest::GetBalance(_) => Response::GetBalance(Err(error)),
            MoneyRequest::GetHistory { .. } => Response::GetHistory(Err(error)),
            MoneyRequest::ValidateTransfer { .. } => Response::TransferValidation(Err(error)),
            MoneyRequest::RegisterTransfer { .. } => Response::TransferRegistration(Err(error)),
            MoneyRequest::PropagateTransfer { .. } => Response::TransferPropagation(Err(error)),
        }
    }

    /// Returns the authorization needed for this request. The requests
    /// carrying a consensus certificate need none: the certificate has
    /// the authority within it.
    pub fn authorisation_kind(&self) -> (r: AuthorisationKind)
        ensures
            r == (match *self {
                MoneyRequest::PropagateTransfer { .. } => AuthorisationKind::NotNeeded,
                MoneyRequest::RegisterTransfer { .. } => AuthorisationKind::NotNeeded,
                MoneyRequest::ValidateTransfer { .. } => AuthorisationKind::Misc(
                    MiscAuthKind::MutAndTransferMoney,
                ),
                MoneyRequest::GetBalance(_) => AuthorisationKind::Money(MoneyAuthKind::GetBalance),
                MoneyRequest::GetHistory { .. } => AuthorisationKind::Money(
                    MoneyAuthKind::GetHistory,
                ),
            }),
    {
        match self {
            MoneyRequest::PropagateTransfer { .. } => AuthorisationKind::NotNeeded,
            MoneyRequest::RegisterTransfer { .. } => AuthorisationKind::NotNeeded,
            MoneyRequest::ValidateTransfer { .. } => AuthorisationKind::Misc(
                MiscAuthKind::MutAndTransferMoney,
            ),
            MoneyRequest::GetBalance(_) => AuthorisationKind::Money(MoneyAuthKind::GetBalance),
            MoneyRequest::GetHistory { .. } => AuthorisationKind::Money(MoneyAuthKind::GetHistory),
        }
    }

    /// Returns the XOR destination of this request: a propagation goes to
    /// the section of the credited key, a validation or registration to
    /// the section of the debited actor, and the balance and history
    /// queries nowhere, as they are answered locally.
    pub fn dest_address(&self) -> (r: Option<XorName>)
        ensures
            (match *self {
                MoneyRequest::PropagateTransfer { agreement } => r is Some && (r->0).0@
                    == spec_xor_name_bytes(agreement.transfer_cmd.transfer.to),
                MoneyRequest::RegisterTransfer { agreement } => r is Some && (r->0).0@
                    == spec_xor_name_bytes(agreement.transfer_cmd.transfer.id.actor),
                MoneyRequest::ValidateTransfer { signed_transfer } => r is Some && (r->0).0@
                    == spec_xor_name_bytes(signed_transfer.transfer.id.actor),
                MoneyRequest::GetBalance(_) => r is None,
                MoneyRequest::GetHistory { .. } => r is None,
            }),
    {
        match self {
            MoneyRequest::PropagateTransfer { agreement } => Some(
                XorName::from_public_key(&agreement.transfer_cmd.transfer.to),
            ),
            MoneyRequest::RegisterTransfer { agreement } => Some(
                XorName::from_public_key(&agreement.transfer_cmd.transfer.id.actor),
            ),
            MoneyRequest::ValidateTransfer { signed_transfer } => Some(
                XorName::from_public_key(&signed_transfer.transfer.id.actor),
            ),
            MoneyRequest::GetBalance(_) => None,
            MoneyRequest::GetHistory { .. } => None,
        }
    }
}

} // verus!
