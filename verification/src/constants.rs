use vstd::prelude::*;

verus! {

// Fee configuration
pub const BASE_PLACEMENT_FEE: u64 = 1_000_000;

pub const OVERWRITE_MULTIPLIER: u64 = 5;

pub const TREASURY_PERCENTAGE: u8 = 100;

// Rate limiting: seconds that must pass between two placements by one user
pub const COOLDOWN_PERIOD: i64 = 30;

// Coordinate constraints, in microdegrees
pub const MIN_LATITUDE: i32 = -90_000_000;

pub const MAX_LATITUDE: i32 = 90_000_000;

pub const MIN_LONGITUDE: i32 = -180_000_000;

pub const MAX_LONGITUDE: i32 = 180_000_000;

// Logo constraints
pub const MAX_LOGO_URI_LENGTH: usize = 200;

/// The fixed identity that receives every placement fee.
pub open spec fn spec_treasury_address() -> Seq<u8> {
    seq![
        41u8, 176u8, 69u8, 17u8, 200u8, 81u8, 97u8, 110u8, 99u8, 218u8, 236u8, 218u8, 216u8, 54u8,
        35u8, 147u8, 232u8, 23u8, 188u8, 12u8, 113u8, 207u8, 253u8, 245u8, 57u8, 177u8, 249u8,
        107u8, 4u8, 50u8, 73u8, 26u8,
    ]
}

/// The treasury identity as 32 raw bytes.
pub fn treasury_address() -> (t: [u8; 32])
    ensures
        t@ == spec_treasury_address(),
{
    let t: [u8; 32] = [
        41u8, 176u8, 69u8, 17u8, 200u8, 81u8, 97u8, 110u8, 99u8, 218u8, 236u8, 218u8, 216u8, 54u8,
        35u8, 147u8, 232u8, 23u8, 188u8, 12u8, 113u8, 207u8, 253u8, 245u8, 57u8, 177u8, 249u8,
        107u8, 4u8, 50u8, 73u8, 26u8,
    ];
    assert(t@ =~= spec_treasury_address());
    t
}

} // verus!
