//! A coordinate-addressed registry of token-branded placements. Participants
//! pay a fee to place a logo at a geographic coordinate, subject to a
//! per-participant cooldown and an escalating fee when a coordinate is
//! overwritten. Two storage strategies are provided: one record per
//! coordinate (flat addressing) and many coordinates batched into a spatial
//! cluster record (clustered addressing).

pub mod cell_cluster;
pub mod constants;
pub mod crypto;
pub mod error;
pub mod logo_placement;
pub mod place_logo;
pub mod place_logo_old;
pub mod user_cooldown;
