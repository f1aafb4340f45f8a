use vstd::prelude::*;

verus! {

/// Every way a creation, stake or lookup invocation can be rejected.
/// A rejected invocation leaves no partial state change behind.
#[derive(Clone, Copy, Debug, PartialEq, Eq, Structural)]
pub enum MarketError {
    /// A team name is empty after trimming whitespace.
    EmptyTeamName,
    /// A team name is longer than 32 bytes, the limit for an address seed.
    TeamNameTooLong,
    /// The market's deadline does not lie strictly in the future.
    EndTimeMustBeInFuture,
    /// The creator's registry already holds its maximum number of markets.
    RegistryFull,
    /// The supplied registry is owned by a different authority.
    RegistryAuthorityMismatch,
    /// The market's address is already listed in the registry.
    MarketAlreadyRegistered,
    /// The external match id is longer than 32 bytes.
    MatchIdTooLong,
    /// The market has already been resolved.
    MarketAlreadyResolved,
    /// The market's deadline has passed.
    MarketClosed,
    /// A stake names a side other than 1 (team a) or 2 (team b).
    InvalidSide,
    /// A stake's amount is zero, or would overflow the side's total.
    InvalidAmount,
}

impl MarketError {
    /// The human-readable message for this rejection.
    pub fn message(&self) -> (r: &'static str) {
        match self {
            MarketError::EmptyTeamName => "Team name cannot be empty",
            MarketError::TeamNameTooLong => "Team name must be <= 32 bytes when used as a PDA seed",
            MarketError::EndTimeMustBeInFuture => "End time must be in the future",
            MarketError::RegistryFull => "Registry for this authority is full",
            MarketError::RegistryAuthorityMismatch => "Registry authority mismatch",
            MarketError::MarketAlreadyRegistered => "Market pubkey already registered in this registry",
            MarketError::MatchIdTooLong => "Match ID must be <= 32 bytes (required for PDA seed)",
            MarketError::MarketAlreadyResolved => "Market has already been resolved",
            MarketError::MarketClosed => "Market is closed",
            MarketError::InvalidSide => "Invalid prediction side",
            MarketError::InvalidAmount => "Invalid prediction amount",
        }
    }
}

} // verus!
