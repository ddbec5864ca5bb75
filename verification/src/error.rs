use vstd::prelude::*;

verus! {

/// Every way a placement attempt can fail. Each failure is terminal: the
/// attempt is rejected as a whole and no record is changed.
#[derive(Clone, Copy, Debug, PartialEq, Eq, Structural)]
pub enum SolplaceError {
    /// Latitude outside [-90_000_000, 90_000_000] microdegrees.
    InvalidLatitude,
    /// Longitude outside [-180_000_000, 180_000_000] microdegrees.
    InvalidLongitude,
    /// Coordinates rejected for another reason.
    InvalidCoordinates,
    /// The supplied token mint does not match the resolved mint account.
    InvalidTokenMint,
    /// The token mint account is not initialized.
    UninitializedMint,
    /// The user placed a logo less than the cooldown period ago.
    UserOnCooldown,
    /// The logo URI is longer than the maximum allowed.
    LogoUriTooLong,
    /// The user cannot pay the placement fee.
    InsufficientFunds,
    /// The fee destination is not the configured treasury.
    InvalidTreasury,
    /// The supplied logo placement account does not match the derived key.
    InvalidLogoPlacement,
    /// The supplied cooldown account does not match the derived key.
    InvalidCooldown,
    /// The stored bytes do not match the expected record layout.
    InvalidAccount,
    /// The supplied cluster account does not match the derived key.
    InvalidCluster,
    /// The cluster is at capacity and the coordinate is new to it.
    ClusterFull,
}

impl SolplaceError {
    /// A short description of the error.
    pub fn message(&self) -> (m: &'static str)
    {
        match self {
            SolplaceError::InvalidLatitude => "Invalid coordinates: latitude must be between -90 and +90 degrees",
            SolplaceError::InvalidLongitude => "Invalid coordinates: longitude must be between -180 and +180 degrees",
            SolplaceError::InvalidCoordinates => "Invalid coordinates provided",
            SolplaceError::InvalidTokenMint => "Invalid token mint: account does not exist or is not a valid SPL token",
            SolplaceError::UninitializedMint => "Token mint is not initialized",
            SolplaceError::UserOnCooldown => "User is still on cooldown. Please wait before placing another logo",
            SolplaceError::LogoUriTooLong => "Logo URI is too long. Maximum 200 characters allowed",
            SolplaceError::InsufficientFunds => "Insufficient funds to pay placement fee",
            SolplaceError::InvalidTreasury => "Invalid treasury account",
            SolplaceError::InvalidLogoPlacement => "Invalid logo placement PDA",
            SolplaceError::InvalidCooldown => "Invalid cooldown PDA",
            SolplaceError::InvalidAccount => "Invalid account: discriminator mismatch",
            SolplaceError::InvalidCluster => "Invalid cluster PDA",
            SolplaceError::ClusterFull => "Cluster is full: no room for a new coordinate",
        }
    }
}

} // verus!
