//! The failures the broker reports, and how a transport should class them.

use vstd::prelude::*;

verus! {

/// Every way an operation of the broker can fail.
#[derive(Clone, Copy, Debug, PartialEq, Eq, Structural)]
pub enum BrokerError {
    /// The native module of the token is not at the resolved path, or does not load.
    ModuleNotFound,
    /// No slot holds a token.
    NoTokenPresent,
    /// The token refused the session or the PIN.
    AuthFailure,
    /// No certificate object carries the identifier asked for.
    CertificateNotFound,
    /// No certificate on the token equals the encoding supplied.
    CertificateMismatch,
    /// No private key shares the identifier of the certificate.
    PrivateKeyNotFound,
    /// The key is neither RSA nor EC, or its attributes are incomplete.
    UnsupportedKeyType,
    /// The signature algorithm of the certificate has no mechanism.
    UnsupportedAlgorithm,
    /// The timestamp is not a date and time with an offset.
    MalformedTimestamp,
    /// The timestamp is more than the allowed window away from now.
    StaleRequest,
    /// The counter-signature does not parse or does not verify.
    SignatureInvalid,
    /// Nothing is pending in the slot.
    NoPendingRequest,
    /// The waiter is gone, or was superseded.
    ChannelClosed,
}

/// How a transport presents a failure to its caller.
#[derive(Clone, Copy, Debug, PartialEq, Eq, Structural)]
pub enum StatusClass {
    /// The caller sent something wrong: bad input, bad PIN, stale or forged request.
    ClientError,
    /// The module or the token is not available, or the request could not be completed.
    ServerError,
}

/// A failure with words for a person to read.
#[derive(Clone, Debug, PartialEq, Eq)]
pub struct Failure {
    /// What went wrong.
    pub kind: BrokerError,
    /// The detail, in the words of whoever noticed.
    pub detail: String,
}

impl Failure {
    /// A failure of a kind, with its detail.
    pub fn new(kind: BrokerError, detail: &str) -> (failure: Failure)
        ensures
            failure.kind == kind,
            failure.detail@ == detail@,
    {
        Failure { kind, detail: detail.to_owned() }
    }
}

impl BrokerError {
    /// The class of this failure.
    pub open spec fn spec_status_class(self) -> StatusClass {
        match self {
            BrokerError::ModuleNotFound => StatusClass::ServerError,
            BrokerError::NoTokenPresent => StatusClass::ServerError,
            BrokerError::ChannelClosed => StatusClass::ServerError,
            _ => StatusClass::ClientError,
        }
    }

    /// The class of this failure: the module and the token being unavailable,
    /// and an abandoned consent step, are the server's; all else is the caller's.
    pub fn status_class(&self) -> (class: StatusClass)
        ensures
            class == self.spec_status_class(),
    {
        match self {
            BrokerError::ModuleNotFound => StatusClass::ServerError,
            BrokerError::NoTokenPresent => StatusClass::ServerError,
            BrokerError::ChannelClosed => StatusClass::ServerError,
            _ => StatusClass::ClientError,
        }
    }
}

} // verus!
