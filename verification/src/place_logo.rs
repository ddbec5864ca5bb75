use vstd::prelude::*;

verus! {

use crate::constants::{
    spec_treasury_address, treasury_address, BASE_PLACEMENT_FEE, MAX_LOGO_URI_LENGTH,
    OVERWRITE_MULTIPLIER,
};
use crate::crypto::{hash_logo_uri, key_matches, keys_equal, sha256_of, spec_pda_bump};
use crate::error::SolplaceError;
use crate::logo_placement::{
    get_logo_placement_pda, spec_logo_placement_pda, spec_valid_latitude, spec_valid_longitude,
    validate_coordinates, LogoPlacement,
};
use crate::user_cooldown::{
    get_user_cooldown_pda, spec_cooldown_blocked, spec_user_cooldown_pda, UserCooldown,
};
use vstd::string::StrSliceExecFns;
use vstd::utf8::encode_utf8;

/// The storage keys a caller supplies for one placement attempt, and the
/// identities resolved by the host: the key of the placement record, the key
/// of the caller's cooldown record, the key of the resolved token mint
/// account, the fee destination, and the paying user.
#[derive(Clone, Debug)]
pub struct PlaceLogo {
    /// Supplied logo placement account key (derived from the coordinates).
    pub logo_placement: [u8; 32],
    /// Supplied user cooldown account key (derived from the user).
    pub user_cooldown: [u8; 32],
    /// Key of the resolved token mint account.
    pub token_mint: [u8; 32],
    /// Supplied fee destination.
    pub treasury: [u8; 32],
    /// The paying user.
    pub user: [u8; 32],
}

/// What a successful placement reports.
#[derive(Clone, Debug)]
pub struct LogoPlacedEvent {
    /// The paying user.
    pub user: [u8; 32],
    /// Latitude in microdegrees.
    pub lat: i32,
    /// Longitude in microdegrees.
    pub lng: i32,
    /// Token contract address.
    pub token_mint: [u8; 32],
    /// Resolved logo URI.
    pub logo_uri: String,
    /// The fee charged, in lamports.
    pub fee_paid: u64,
    /// Whether an occupied coordinate was overwritten.
    pub is_overwrite: bool,
    /// Unix timestamp of the placement.
    pub timestamp: i64,
}

/// Everything a successful placement attempt changes: the placement record
/// and the cooldown record to persist, and the event to emit. The host must
/// also transfer `event.fee_paid` from the user to the treasury.
#[derive(Clone, Debug)]
pub struct PlacementOutcome {
    /// The placement record to persist.
    pub logo_data: LogoPlacement,
    /// The cooldown record to persist.
    pub cooldown_data: UserCooldown,
    /// The event to emit.
    pub event: LogoPlacedEvent,
}

/// Checks the fee destination against the configured treasury and returns
/// the amount the host must transfer to it.
pub fn collect_fee(treasury: &[u8; 32], amount: u64) -> (r: Result<u64, SolplaceError>)
    ensures
        treasury@ == spec_treasury_address() ==> r == Ok::<u64, SolplaceError>(amount),
        treasury@ != spec_treasury_address() ==> r == Err::<u64, SolplaceError>(
            SolplaceError::InvalidTreasury,
        ),
{
    let expected = treasury_address();
    if !keys_equal(treasury, &expected) {
        return Err(SolplaceError::InvalidTreasury);
    }
    Ok(amount)
}

/// The first check a flat placement attempt fails, or `None` when every
/// check passes. The checks run in this order: latitude, longitude, URI
/// length, token mint, placement key, cooldown key, cooldown window, fee
/// destination.
pub open spec fn spec_place_error(
    accounts: PlaceLogo,
    program_id: Seq<u8>,
    current_timestamp: i64,
    existing_cooldown: Option<UserCooldown>,
    lat: i32,
    lng: i32,
    token_mint: Seq<u8>,
    logo_uri: Seq<char>,
) -> Option<SolplaceError> {
    if !spec_valid_latitude(lat) {
        Some(SolplaceError::InvalidLatitude)
    } else if !spec_valid_longitude(lng) {
        Some(SolplaceError::InvalidLongitude)
    } else if logo_uri.len() > MAX_LOGO_URI_LENGTH {
        Some(SolplaceError::LogoUriTooLong)
    } else if accounts.token_mint@ != token_mint {
        Some(SolplaceError::InvalidTokenMint)
    } else if !key_matches(
        accounts.logo_placement@,
        spec_logo_placement_pda(lat, lng, program_id),
    ) {
        Some(SolplaceError::InvalidLogoPlacement)
    } else if !key_matches(
        accounts.user_cooldown@,
        spec_user_cooldown_pda(accounts.user@, program_id),
    ) {
        Some(SolplaceError::InvalidCooldown)
    } else if spec_cooldown_blocked(existing_cooldown, current_timestamp) {
        Some(SolplaceError::UserOnCooldown)
    } else if accounts.treasury@ != spec_treasury_address() {
        Some(SolplaceError::InvalidTreasury)
    } else {
        None
    }
}

/// The fee a placement attempt is charged.
pub open spec fn spec_fee(is_overwrite: bool) -> u64 {
    if is_overwrite {
        (BASE_PLACEMENT_FEE * OVERWRITE_MULTIPLIER) as u64
    } else {
        BASE_PLACEMENT_FEE
    }
}

/// How the cooldown record of a successful placement relates to the one
/// before it: the timestamp is set, the count grows by one, and identity
/// fields are kept (or set, on the first placement).
pub open spec fn spec_cooldown_after(
    cooldown: UserCooldown,
    existing: Option<UserCooldown>,
    user: Seq<u8>,
    cooldown_bump: u8,
    current_timestamp: i64,
) -> bool {
    &&& cooldown.user@ == (match existing {
        Some(c) => c.user@,
        None => user,
    })
    &&& cooldown.last_placement == current_timestamp
    &&& cooldown.placement_count == (match existing {
        Some(c) => c.placement_count + 1,
        None => 1,
    })
    &&& cooldown.bump == (match existing {
        Some(c) => c.bump,
        None => cooldown_bump,
    })
}

/// What a successful flat placement produces: a record holding exactly the
/// new placement with its digest and timestamp, an overwrite counter that
/// starts at zero and grows by one on each overwrite, an updated cooldown
/// record, and an event reporting the fee.
pub open spec fn spec_flat_outcome(
    o: PlacementOutcome,
    accounts: PlaceLogo,
    program_id: Seq<u8>,
    current_timestamp: i64,
    existing_logo: Option<LogoPlacement>,
    existing_cooldown: Option<UserCooldown>,
    lat: i32,
    lng: i32,
    token_mint: Seq<u8>,
    logo_uri: Seq<char>,
) -> bool {
    let is_overwrite = existing_logo is Some;
    &&& o.logo_data.coordinates@[0] == lat
    &&& o.logo_data.coordinates@[1] == lng
    &&& o.logo_data.token_mint@ == token_mint
    &&& o.logo_data.logo_uri@ == logo_uri
    &&& o.logo_data.logo_hash@ == sha256_of(encode_utf8(logo_uri))
    &&& o.logo_data.placed_by@ == accounts.user@
    &&& o.logo_data.placed_at == current_timestamp
    &&& o.logo_data.overwrite_count == (match existing_logo {
        Some(l) => l.overwrite_count + 1,
        None => 0,
    })
    &&& o.logo_data.bump == (match existing_logo {
        Some(l) => l.bump,
        None => spec_pda_bump(spec_logo_placement_pda(lat, lng, program_id)),
    })
    &&& spec_cooldown_after(
        o.cooldown_data,
        existing_cooldown,
        accounts.user@,
        spec_pda_bump(spec_user_cooldown_pda(accounts.user@, program_id)),
        current_timestamp,
    )
    &&& o.event.user@ == accounts.user@
    &&& o.event.lat == lat
    &&& o.event.lng == lng
    &&& o.event.token_mint@ == token_mint
    &&& o.event.logo_uri@ == logo_uri
    &&& o.event.fee_paid == spec_fee(is_overwrite)
    &&& o.event.is_overwrite == is_overwrite
    &&& o.event.timestamp == current_timestamp
}

/// One flat placement attempt: validates the inputs, checks the supplied
/// keys against the derived ones, enforces the cooldown window, computes
/// the fee, and produces the records to persist and the event to emit.
/// It fails with exactly the first failing check of `spec_place_error`,
/// and succeeds whenever every check passes.
pub fn handler(
    accounts: &PlaceLogo,
    program_id: &[u8; 32],
    current_timestamp: i64,
    existing_logo: Option<LogoPlacement>,
    existing_cooldown: Option<UserCooldown>,
    lat: i32,
    lng: i32,
    token_mint: [u8; 32],
    logo_uri: String,
) -> (r: Result<PlacementOutcome, SolplaceError>)
    requires
        current_timestamp >= 0,
        existing_logo matches Some(l) ==> l.overwrite_count < u16::MAX,
        existing_cooldown matches Some(c) ==> c.placement_count < u32::MAX && c.last_placement
            >= 0,
    ensures
        match spec_place_error(
            *accounts,
            program_id@,
            current_timestamp,
            existing_cooldown,
            lat,
            lng,
            token_mint@,
            logo_uri@,
        ) {
            Some(e) => r matches Err(a) && a == e,
            None => r matches Ok(o) && spec_flat_outcome(
                o,
                *accounts,
                program_id@,
                current_timestamp,
                existing_logo,
                existing_cooldown,
                lat,
                lng,
                token_mint@,
                logo_uri@,
            ),
        },
{
    // 1. Validate coordinates
    match validate_coordinates(lat, lng) {
        Ok(()) => (),
        Err(e) => {
            return Err(e);
        },
    }
    // 2. Validate logo URI length
    if logo_uri.as_str().unicode_len() > MAX_LOGO_URI_LENGTH {
        return Err(SolplaceError::LogoUriTooLong);
    }
    // 3. Validate the token mint against the resolved account
    if !keys_equal(&accounts.token_mint, &token_mint) {
        return Err(SolplaceError::InvalidTokenMint);
    }
    // 4. Derive the logo placement key and validate the supplied account
    let (logo_placement_pda, logo_bump) = match get_logo_placement_pda(lat, lng, program_id) {
        Some(kb) => kb,
        None => {
            return Err(SolplaceError::InvalidLogoPlacement);
        },
    };
    if !keys_equal(&accounts.logo_placement, &logo_placement_pda) {
        return Err(SolplaceError::InvalidLogoPlacement);
    }
    // 5. Derive the cooldown key and validate the supplied account
    let (cooldown_pda, cooldown_bump) = match get_user_cooldown_pda(&accounts.user, program_id) {
        Some(kb) => kb,
        None => {
            return Err(SolplaceError::InvalidCooldown);
        },
    };
    if !keys_equal(&accounts.user_cooldown, &cooldown_pda) {
        return Err(SolplaceError::InvalidCooldown);
    }
    // 6. Load the existing logo placement or initialize a fresh one
    let is_overwrite = existing_logo.is_some();
    let mut logo_data = match existing_logo {
        Some(l) => l,
        None => LogoPlacement {
            coordinates: [lat, lng],
            token_mint: [0u8; 32],
            logo_uri: String::new(),
            logo_hash: [0u8; 32],
            placed_by: [0u8; 32],
            placed_at: 0,
            overwrite_count: 0,
            bump: logo_bump,
        },
    };
    // 7. Load the existing cooldown record or initialize a fresh one
    let mut cooldown_data = match existing_cooldown {
        Some(c) => c,
        None => UserCooldown {
            user: accounts.user,
            last_placement: 0,
            placement_count: 0,
            bump: cooldown_bump,
        },
    };
    // 8. Check the cooldown window; the first placement is always allowed
    if cooldown_data.last_placement != 0 {
        if cooldown_data.is_on_cooldown(current_timestamp) {
            return Err(SolplaceError::UserOnCooldown);
        }
    }
    // 9. Calculate the placement fee
    let placement_fee = if is_overwrite {
        BASE_PLACEMENT_FEE * OVERWRITE_MULTIPLIER
    } else {
        BASE_PLACEMENT_FEE
    };
    // 10. Check the fee destination; the host transfers the returned amount
    let fee_paid = match collect_fee(&accounts.treasury, placement_fee) {
        Ok(amount) => amount,
        Err(e) => {
            return Err(e);
        },
    };
    // 11. Calculate the content digest
    let logo_hash = hash_logo_uri(logo_uri.as_str());
    // 12. Update the logo placement record
    logo_data.coordinates = [lat, lng];
    logo_data.token_mint = token_mint;
    logo_data.logo_uri = logo_uri.clone();
    logo_data.logo_hash = logo_hash;
    logo_data.placed_by = accounts.user;
    logo_data.placed_at = current_timestamp;
    if is_overwrite {
        logo_data.overwrite_count = logo_data.overwrite_count + 1;
    }
    // 13. Update the cooldown record
    cooldown_data.last_placement = current_timestamp;
    cooldown_data.placement_count = cooldown_data.placement_count + 1;
    // 14. Report the placement
    let event = LogoPlacedEvent {
        user: accounts.user,
        lat,
        lng,
        token_mint,
        logo_uri,
        fee_paid,
        is_overwrite,
        timestamp: current_timestamp,
    };
    Ok(PlacementOutcome { logo_data, cooldown_data, event })
}

} // verus!
