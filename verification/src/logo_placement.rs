use vstd::prelude::*;

verus! {

use crate::constants::{MAX_LATITUDE, MAX_LONGITUDE, MIN_LATITUDE, MIN_LONGITUDE};
use crate::crypto::{find_pda, pda_of, pda_view};
use crate::error::SolplaceError;
use vstd::bytes::{spec_u32_to_le_bytes, u32_to_le_bytes};
use vstd::string::StrSliceExecFns;
use vstd::utf8::encode_utf8;

/// One logo placement record per coordinate (flat strategy). Created on the
/// first placement at a coordinate, mutated in place on every later one,
/// never deleted.
#[derive(Clone, Debug)]
pub struct LogoPlacement {
    /// Coordinates in microdegrees: [lat, lng].
    pub coordinates: [i32; 2],
    /// Token contract address.
    pub token_mint: [u8; 32],
    /// Resolved logo URI.
    pub logo_uri: String,
    /// Content digest of the logo URI, for integrity verification.
    pub logo_hash: [u8; 32],
    /// Wallet address of the user that placed this logo.
    pub placed_by: [u8; 32],
    /// Unix timestamp of the placement.
    pub placed_at: i64,
    /// Number of times this coordinate has been overwritten.
    pub overwrite_count: u16,
    /// Key-derivation bump seed.
    pub bump: u8,
}

/// Space needed for a serialized record: discriminator, coordinates, mint,
/// length-prefixed URI, digest, placer, timestamp, overwrite count, bump.
pub const LOGO_PLACEMENT_SIZE: usize = 8 + 8 + 32 + 4 + 200 + 32 + 32 + 8 + 2 + 1;

/// Whether a latitude lies within the allowed range.
pub open spec fn spec_valid_latitude(lat: i32) -> bool {
    MIN_LATITUDE <= lat <= MAX_LATITUDE
}

/// Whether a longitude lies within the allowed range.
pub open spec fn spec_valid_longitude(lng: i32) -> bool {
    MIN_LONGITUDE <= lng <= MAX_LONGITUDE
}

/// Checks a coordinate pair: latitude first, then longitude.
pub fn validate_coordinates(lat: i32, lng: i32) -> (r: Result<(), SolplaceError>)
    ensures
        !spec_valid_latitude(lat) ==> r == Err::<(), SolplaceError>(SolplaceError::InvalidLatitude),
        spec_valid_latitude(lat) && !spec_valid_longitude(lng) ==> r == Err::<(), SolplaceError>(
            SolplaceError::InvalidLongitude,
        ),
        spec_valid_latitude(lat) && spec_valid_longitude(lng) ==> r == Ok::<(), SolplaceError>(()),
{
    if !(lat >= MIN_LATITUDE && lat <= MAX_LATITUDE) {
        return Err(SolplaceError::InvalidLatitude);
    }
    if !(lng >= MIN_LONGITUDE && lng <= MAX_LONGITUDE) {
        return Err(SolplaceError::InvalidLongitude);
    }
    Ok(())
}

/// The derived storage key of the placement record at a coordinate.
pub open spec fn spec_logo_placement_pda(lat: i32, lng: i32, program_id: Seq<u8>) -> Option<
    (Seq<u8>, u8),
> {
    pda_of(
        seq![
            encode_utf8("logo_placement"@),
            spec_u32_to_le_bytes(lat as u32),
            spec_u32_to_le_bytes(lng as u32),
        ],
        program_id,
    )
}

/// Derives the storage key of the placement record at a coordinate.
pub fn get_logo_placement_pda(lat: i32, lng: i32, program_id: &[u8; 32]) -> (r: Option<
    ([u8; 32], u8),
>)
    ensures
        pda_view(r) == spec_logo_placement_pda(lat, lng, program_id@),
{
    let mut seeds: Vec<Vec<u8>> = Vec::new();
    seeds.push("logo_placement".as_bytes_vec());
    seeds.push(u32_to_le_bytes(#[verifier::truncate] (lat as u32)));
    seeds.push(u32_to_le_bytes(#[verifier::truncate] (lng as u32)));
    let r = find_pda(&seeds, program_id);
    proof {
        assert(seeds.deep_view() =~~= seq![
            encode_utf8("logo_placement"@),
            spec_u32_to_le_bytes(lat as u32),
            spec_u32_to_le_bytes(lng as u32),
        ]);
    }
    r
}

/// The flat placement key is a function of the coordinates and the program
/// id alone: two derivations from identical inputs yield identical results.
pub proof fn lemma_flat_key_deterministic(
    lat: i32,
    lng: i32,
    program_id: Seq<u8>,
    r1: Option<([u8; 32], u8)>,
    r2: Option<([u8; 32], u8)>,
)
    requires
        pda_view(r1) == spec_logo_placement_pda(lat, lng, program_id),
        pda_view(r2) == spec_logo_placement_pda(lat, lng, program_id),
    ensures
        pda_view(r1) == pda_view(r2),
{
}

} // verus!
