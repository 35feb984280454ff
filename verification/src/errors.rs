use vstd::prelude::*;

verus! {

/// Every way an operation of the bridge core can fail. All failures are
/// surfaced synchronously; no error is retried internally, and a failing
/// operation commits no state change at all.
#[derive(Clone, Copy, Debug, PartialEq, Eq)]
pub enum ErrorCode {
    /// Supply would rise above the configured maximum.
    ExceedsMaxSupply,
    /// The inbound message's replay token was already applied.
    NonceAlreadyUsed,
    /// A zero chain id, or a mismatch against the trusted remote.
    InvalidChainId,
    /// A zero amount.
    InvalidAmount,
    /// A default (all-zero) recipient, or a malformed remote address length.
    InvalidRecipient,
    /// A default (all-zero) sender on an inbound message.
    InvalidSender,
    /// The caller is not the configured authority.
    InvalidAuthority,
    /// Decimals above the allowed range at initialization.
    InvalidDecimals,
    /// A zero maximum supply, or one above the configured ceiling.
    InvalidMaxSupply,
    /// The supply counter would overflow its integer width.
    SupplyOverflow,
    /// More units burned than currently exist.
    SupplyUnderflow,
    /// The bounded replay registry has no room left.
    NonceRegistryFull,
}

} // verus!
