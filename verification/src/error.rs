//! What an operation that fails hands back.

use vstd::prelude::*;

verus! {

/// Why an operation failed.
#[derive(Clone, Copy, Debug, PartialEq, Eq, Structural)]
pub enum ErrorKind {
    /// The token or the collection's metadata that was asked for is absent.
    NotFound,
    /// A token with the identifier exists already.
    AlreadyExists,
    /// The caller does not hold the role that the operation needs.
    Unauthorized,
    /// The expiration that was given has been reached already.
    Expired,
    /// The token has no grant to the spender.
    ApprovalNotFound,
    /// The pending transfer of a role has reached its expiry.
    TransferExpired,
    /// No transfer of the role is pending.
    NoPendingTransfer,
    /// The role's record was never set.
    Uninitialized,
    /// The role's record was set before.
    AlreadyInitialized,
    /// Data of an earlier layout that the migration needs is absent.
    InvalidState,
    /// The page size that was asked for is above the cap.
    LimitExceeded,
}

/// A failure: its kind, and what it was about (a token's identifier, a
/// role's name, a spender, the name of a piece of stored data).
#[derive(Debug, PartialEq, Eq)]
pub struct ContractError {
    pub kind: ErrorKind,
    pub context: String,
}

/// What a `ContractError` stands for.
pub struct ContractErrorView {
    pub kind: ErrorKind,
    pub context: Seq<char>,
}

impl View for ContractError {
    type V = ContractErrorView;

    open spec fn view(&self) -> ContractErrorView {
        ContractErrorView { kind: self.kind, context: self.context@ }
    }
}

impl ContractError {
    /// Whether the error is of `kind` and about `context`.
    pub open spec fn is(self, kind: ErrorKind, context: Seq<char>) -> bool {
        self.kind == kind && self.context@ == context
    }

    /// The failure of `kind` about `context`.
    pub fn new(kind: ErrorKind, context: &str) -> (e: Self)
        ensures
            e.is(kind, context@),
    {
        ContractError { kind, context: context.to_owned() }
    }

    /// The name of the error's kind.
    pub fn kind_name(&self) -> (name: &'static str)
        ensures
            name@ == kind_text(self.kind),
    {
        match self.kind {
            ErrorKind::NotFound => "not found",
            ErrorKind::AlreadyExists => "already exists",
            ErrorKind::Unauthorized => "unauthorized",
            ErrorKind::Expired => "expired",
            ErrorKind::ApprovalNotFound => "approval not found",
            ErrorKind::TransferExpired => "transfer expired",
            ErrorKind::NoPendingTransfer => "no pending transfer",
            ErrorKind::Uninitialized => "uninitialized",
            ErrorKind::AlreadyInitialized => "already initialized",
            ErrorKind::InvalidState => "invalid state",
            ErrorKind::LimitExceeded => "limit exceeded",
        }
    }

    /// The error as a line of text: the name of its kind, a colon and a
    /// space, and what it is about.
    pub fn message(&self) -> (text: String)
        ensures
            text@ == kind_text(self.kind) + ": "@ + self.context@,
    {
        let mut text = self.kind_name().to_owned();
        text.append(": ");
        text.append(self.context.as_str());
        text
    }
}

/// The name of a kind of error.
pub open spec fn kind_text(kind: ErrorKind) -> Seq<char> {
    match kind {
        ErrorKind::NotFound => "not found"@,
        ErrorKind::AlreadyExists => "already exists"@,
        ErrorKind::Unauthorized => "unauthorized"@,
        ErrorKind::Expired => "expired"@,
        ErrorKind::ApprovalNotFound => "approval not found"@,
        ErrorKind::TransferExpired => "transfer expired"@,
        ErrorKind::NoPendingTransfer => "no pending transfer"@,
        ErrorKind::Uninitialized => "uninitialized"@,
        ErrorKind::AlreadyInitialized => "already initialized"@,
        ErrorKind::InvalidState => "invalid state"@,
        ErrorKind::LimitExceeded => "limit exceeded"@,
    }
}

/// Whether `r` is the failure of `kind` about `context`.
pub open spec fn fails_with<T>(r: Result<T, ContractError>, kind: ErrorKind, context: Seq<char>) -> bool {
    r matches Err(e) && e.is(kind, context)
}

} // verus!
