//! The error taxonomy of the auction engine.

use vstd::prelude::*;

verus! {

/// A failure reported by a token collaborator for a transfer it was asked to
/// perform. The auction engine never inspects the failure: it carries it back
/// to the caller unchanged, wrapped in [`Error::PSP22TokenCall`].
#[derive(Debug, Eq, PartialEq)]
pub enum TokenError {
    /// An implementation-specific failure, with its message.
    Custom(String),
    /// The paying account does not hold enough tokens.
    InsufficientBalance,
    /// The paying account has not granted a large enough allowance.
    InsufficientAllowance,
}

/// Everything an auction operation can fail with. Errors are returned, never
/// stored, and each is terminal for the call that produced it.
#[derive(Debug, Eq, PartialEq)]
pub enum Error {
    /// A nested call to a token collaborator failed; the inner cause is kept.
    PSP22TokenCall(TokenError),
    /// The computed total exceeds the ceiling the buyer specified.
    MaxPriceExceeded,
    /// The requested amount is zero or exceeds the available asset balance.
    InsufficientSupplyToken,
    /// The caller of an owner-only operation is not the auction owner.
    NotAuctionOwner,
}

impl From<TokenError> for Error {
    /// A token failure propagates as a wrapped token-call error.
    fn from(inner: TokenError) -> (r: Self) {
        Error::PSP22TokenCall(inner)
    }
}

impl vstd::std_specs::convert::FromSpecImpl<TokenError> for Error {
    open spec fn obeys_from_spec() -> bool {
        true
    }

    open spec fn from_spec(inner: TokenError) -> Self {
        Error::PSP22TokenCall(inner)
    }
}

} // verus!
