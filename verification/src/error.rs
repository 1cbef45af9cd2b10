//! The failures a dispense request can end in, and the reply sent back.

use vstd::prelude::*;

verus! {

/// Ghost form of [`FaucetError`]: message text as a character sequence.
pub enum ErrorV {
    InvalidAddress,
    InsufficientBalance,
    AlreadyFunded,
    Upstream(Seq<char>),
    Build(Seq<char>),
    Submission(Seq<char>),
}

impl ErrorV {
    /// The HTTP status the service answers with: conditions caused by the
    /// caller map to 400, remote-node and signing failures map to 500.
    pub open spec fn status(self) -> u16 {
        match self {
            ErrorV::InvalidAddress => 400,
            ErrorV::InsufficientBalance => 400,
            ErrorV::AlreadyFunded => 400,
            ErrorV::Upstream(_) => 500,
            ErrorV::Build(_) => 500,
            ErrorV::Submission(_) => 500,
        }
    }

    /// The human-readable error text carried in the reply body.
    pub open spec fn message(self) -> Seq<char> {
        match self {
            ErrorV::InvalidAddress => "Invalid address"@,
            ErrorV::InsufficientBalance => "Insufficient balance"@,
            ErrorV::AlreadyFunded => "Receiver already has a balance greater than 0"@,
            ErrorV::Upstream(m) => m,
            ErrorV::Build(m) => m,
            ErrorV::Submission(m) => m,
        }
    }
}

/// Why a dispense request failed. The three request-caused conditions carry
/// fixed texts; the three remote ones carry the underlying error text.
pub enum FaucetError {
    InvalidAddress,
    InsufficientBalance,
    AlreadyFunded,
    UpstreamError(String),
    BuildError(String),
    SubmissionError(String),
}

impl View for FaucetError {
    type V = ErrorV;

    open spec fn view(&self) -> ErrorV {
        match self {
            FaucetError::InvalidAddress => ErrorV::InvalidAddress,
            FaucetError::InsufficientBalance => ErrorV::InsufficientBalance,
            FaucetError::AlreadyFunded => ErrorV::AlreadyFunded,
            FaucetError::UpstreamError(m) => ErrorV::Upstream(m@),
            FaucetError::BuildError(m) => ErrorV::Build(m@),
            FaucetError::SubmissionError(m) => ErrorV::Submission(m@),
        }
    }
}

impl FaucetError {
    /// The HTTP status code for this failure.
    pub fn status(&self) -> (r: u16)
        ensures
            r == self@.status(),
    {
        match self {
            FaucetError::InvalidAddress => 400,
            FaucetError::InsufficientBalance => 400,
            FaucetError::AlreadyFunded => 400,
            FaucetError::UpstreamError(_) => 500,
            FaucetError::BuildError(_) => 500,
            FaucetError::SubmissionError(_) => 500,
        }
    }

    /// The error text for the reply body.
    pub fn message(self) -> (r: String)
        ensures
            r@ == self@.message(),
    {
        match self {
            FaucetError::InvalidAddress => "Invalid address".to_owned(),
            FaucetError::InsufficientBalance => "Insufficient balance".to_owned(),
            FaucetError::AlreadyFunded => {
                "Receiver already has a balance greater than 0".to_owned()
            },
            FaucetError::UpstreamError(m) => m,
            FaucetError::BuildError(m) => m,
            FaucetError::SubmissionError(m) => m,
        }
    }
}

/// Ghost form of [`Reply`].
pub enum ReplyV {
    Success(Seq<char>),
    Failure(ErrorV),
}

impl ReplyV {
    /// The HTTP status of the reply: 200 on success, the error's own
    /// status otherwise.
    pub open spec fn status(self) -> u16 {
        match self {
            ReplyV::Success(_) => 200,
            ReplyV::Failure(e) => e.status(),
        }
    }
}

/// What the service answers a dispense request with: the submitted
/// transaction's hash, or a failure.
pub enum Reply {
    Success { transaction_hash: String },
    Failure(FaucetError),
}

impl View for Reply {
    type V = ReplyV;

    open spec fn view(&self) -> ReplyV {
        match self {
            Reply::Success { transaction_hash } => ReplyV::Success(transaction_hash@),
            Reply::Failure(e) => ReplyV::Failure(e@),
        }
    }
}

impl Reply {
    /// The HTTP status code of this reply.
    pub fn status(&self) -> (r: u16)
        ensures
            r == self@.status(),
    {
        match self {
            Reply::Success { .. } => 200,
            Reply::Failure(e) => e.status(),
        }
    }
}

} // verus!
