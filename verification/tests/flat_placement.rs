use solplace::constants::treasury_address;
use solplace::crypto::hash_logo_uri;
use solplace::error::SolplaceError;
use solplace::logo_placement::{get_logo_placement_pda, LogoPlacement};
use solplace::place_logo::{collect_fee, handler, PlaceLogo};
use solplace::user_cooldown::{get_user_cooldown_pda, UserCooldown};

const PROGRAM_ID: [u8; 32] = [7u8; 32];
const USER: [u8; 32] = [9u8; 32];
const MINT: [u8; 32] = [3u8; 32];

fn flat_accounts(lat: i32, lng: i32, user: [u8; 32]) -> PlaceLogo {
    let (logo_key, _) = get_logo_placement_pda(lat, lng, &PROGRAM_ID).unwrap();
    let (cooldown_key, _) = get_user_cooldown_pda(&user, &PROGRAM_ID).unwrap();
    PlaceLogo {
        logo_placement: logo_key,
        user_cooldown: cooldown_key,
        token_mint: MINT,
        treasury: treasury_address(),
        user,
    }
}

fn place_fresh(lat: i32, lng: i32, now: i64) -> Result<solplace::place_logo::PlacementOutcome, SolplaceError> {
    let accounts = flat_accounts(lat, lng, USER);
    handler(
        &accounts,
        &PROGRAM_ID,
        now,
        None,
        None,
        lat,
        lng,
        MINT,
        String::from("https://example.com/logo.png"),
    )
}

#[test]
fn first_placement_charges_base_fee_and_zero_overwrites() {
    let outcome = place_fresh(1_000_000, 2_000_000, 1_700_000_000).unwrap();
    assert_eq!(outcome.event.fee_paid, 1_000_000);
    assert!(!outcome.event.is_overwrite);
    assert_eq!(outcome.logo_data.overwrite_count, 0);
    assert_eq!(outcome.logo_data.coordinates, [1_000_000, 2_000_000]);
    assert_eq!(outcome.logo_data.token_mint, MINT);
    assert_eq!(outcome.logo_data.placed_by, USER);
    assert_eq!(outcome.logo_data.placed_at, 1_700_000_000);
    assert_eq!(outcome.logo_data.logo_uri, "https://example.com/logo.png");
    assert_eq!(
        outcome.logo_data.logo_hash,
        hash_logo_uri("https://example.com/logo.png")
    );
    assert_eq!(outcome.cooldown_data.user, USER);
    assert_eq!(outcome.cooldown_data.last_placement, 1_700_000_000);
    assert_eq!(outcome.cooldown_data.placement_count, 1);
    assert_eq!(outcome.event.timestamp, 1_700_000_000);
    assert_eq!(outcome.event.lat, 1_000_000);
    assert_eq!(outcome.event.lng, 2_000_000);
}

#[test]
fn second_placement_at_same_coordinate_charges_five_times_base_fee() {
    let now = 1_700_000_000;
    let first = place_fresh(1_000_000, 2_000_000, now).unwrap();
    let accounts = flat_accounts(1_000_000, 2_000_000, USER);
    let second = handler(
        &accounts,
        &PROGRAM_ID,
        now + 30,
        Some(first.logo_data),
        Some(first.cooldown_data),
        1_000_000,
        2_000_000,
        MINT,
        String::from("https://example.com/other.png"),
    )
    .unwrap();
    assert_eq!(second.event.fee_paid, 5_000_000);
    assert!(second.event.is_overwrite);
    assert_eq!(second.logo_data.overwrite_count, 1);
    assert_eq!(second.logo_data.logo_uri, "https://example.com/other.png");
    assert_eq!(second.cooldown_data.placement_count, 2);
}

#[test]
fn placement_within_cooldown_window_is_rejected() {
    let now = 1_700_000_000;
    let first = place_fresh(1_000_000, 2_000_000, now).unwrap();
    let accounts = flat_accounts(5_000_000, 6_000_000, USER);
    let second = handler(
        &accounts,
        &PROGRAM_ID,
        now + 29,
        None,
        Some(first.cooldown_data),
        5_000_000,
        6_000_000,
        MINT,
        String::from("https://example.com/logo.png"),
    );
    assert_eq!(second.unwrap_err(), SolplaceError::UserOnCooldown);
}

#[test]
fn placement_at_exactly_cooldown_window_succeeds() {
    let now = 1_700_000_000;
    let first = place_fresh(1_000_000, 2_000_000, now).unwrap();
    let accounts = flat_accounts(5_000_000, 6_000_000, USER);
    let second = handler(
        &accounts,
        &PROGRAM_ID,
        now + 30,
        None,
        Some(first.cooldown_data),
        5_000_000,
        6_000_000,
        MINT,
        String::from("https://example.com/logo.png"),
    )
    .unwrap();
    assert_eq!(second.cooldown_data.placement_count, 2);
    assert_eq!(second.cooldown_data.last_placement, now + 30);
}

#[test]
fn uri_of_length_200_is_accepted() {
    let accounts = flat_accounts(1_000_000, 2_000_000, USER);
    let uri = "a".repeat(200);
    let outcome = handler(
        &accounts,
        &PROGRAM_ID,
        1_700_000_000,
        None,
        None,
        1_000_000,
        2_000_000,
        MINT,
        uri.clone(),
    )
    .unwrap();
    assert_eq!(outcome.logo_data.logo_uri, uri);
}

#[test]
fn uri_of_length_201_is_rejected() {
    let accounts = flat_accounts(1_000_000, 2_000_000, USER);
    let uri = "a".repeat(201);
    let outcome = handler(
        &accounts,
        &PROGRAM_ID,
        1_700_000_000,
        None,
        None,
        1_000_000,
        2_000_000,
        MINT,
        uri,
    );
    assert_eq!(outcome.unwrap_err(), SolplaceError::LogoUriTooLong);
}

#[test]
fn mismatched_token_mint_is_rejected() {
    let accounts = flat_accounts(1_000_000, 2_000_000, USER);
    let outcome = handler(
        &accounts,
        &PROGRAM_ID,
        1_700_000_000,
        None,
        None,
        1_000_000,
        2_000_000,
        [4u8; 32],
        String::from("https://example.com/logo.png"),
    );
    assert_eq!(outcome.unwrap_err(), SolplaceError::InvalidTokenMint);
}

#[test]
fn mismatched_logo_placement_key_is_rejected() {
    let mut accounts = flat_accounts(1_000_000, 2_000_000, USER);
    accounts.logo_placement = [0u8; 32];
    let outcome = handler(
        &accounts,
        &PROGRAM_ID,
        1_700_000_000,
        None,
        None,
        1_000_000,
        2_000_000,
        MINT,
        String::from("https://example.com/logo.png"),
    );
    assert_eq!(outcome.unwrap_err(), SolplaceError::InvalidLogoPlacement);
}

#[test]
fn mismatched_cooldown_key_is_rejected() {
    let mut accounts = flat_accounts(1_000_000, 2_000_000, USER);
    accounts.user_cooldown = [0u8; 32];
    let outcome = handler(
        &accounts,
        &PROGRAM_ID,
        1_700_000_000,
        None,
        None,
        1_000_000,
        2_000_000,
        MINT,
        String::from("https://example.com/logo.png"),
    );
    assert_eq!(outcome.unwrap_err(), SolplaceError::InvalidCooldown);
}

#[test]
fn mismatched_treasury_is_rejected() {
    let mut accounts = flat_accounts(1_000_000, 2_000_000, USER);
    accounts.treasury = [1u8; 32];
    let outcome = handler(
        &accounts,
        &PROGRAM_ID,
        1_700_000_000,
        None,
        None,
        1_000_000,
        2_000_000,
        MINT,
        String::from("https://example.com/logo.png"),
    );
    assert_eq!(outcome.unwrap_err(), SolplaceError::InvalidTreasury);
}

#[test]
fn collect_fee_passes_amount_through_for_the_treasury() {
    assert_eq!(collect_fee(&treasury_address(), 1_000_000), Ok(1_000_000));
    assert_eq!(
        collect_fee(&[1u8; 32], 1_000_000),
        Err(SolplaceError::InvalidTreasury)
    );
}

#[test]
fn flat_key_derivation_matches_known_answer() {
    let (key, bump) = get_logo_placement_pda(1_000_000, 2_000_000, &PROGRAM_ID).unwrap();
    assert_eq!(
        key,
        [
            136, 116, 199, 224, 225, 175, 32, 14, 124, 23, 11, 213, 201, 205, 56, 145, 147, 7, 25,
            110, 253, 198, 32, 21, 222, 113, 106, 31, 133, 160, 126, 121
        ]
    );
    assert_eq!(bump, 255);
}

#[test]
fn cooldown_key_derivation_matches_known_answer() {
    let (key, bump) = get_user_cooldown_pda(&USER, &PROGRAM_ID).unwrap();
    assert_eq!(
        key,
        [
            245, 186, 248, 108, 44, 148, 95, 90, 90, 87, 10, 215, 192, 205, 9, 218, 112, 0, 138,
            41, 178, 19, 162, 193, 81, 190, 26, 61, 174, 229, 156, 57
        ]
    );
    assert_eq!(bump, 254);
}

#[test]
fn flat_key_derivation_is_deterministic_and_input_sensitive() {
    let a = get_logo_placement_pda(1_000_000, 2_000_000, &PROGRAM_ID).unwrap();
    let b = get_logo_placement_pda(1_000_000, 2_000_000, &PROGRAM_ID).unwrap();
    assert_eq!(a, b);
    let c = get_logo_placement_pda(1_000_001, 2_000_000, &PROGRAM_ID).unwrap();
    assert_ne!(a.0, c.0);
    let d = get_logo_placement_pda(1_000_000, 2_000_001, &PROGRAM_ID).unwrap();
    assert_ne!(a.0, d.0);
}

#[test]
fn digest_matches_known_answer() {
    let digest = hash_logo_uri("https://example.com/logo.png");
    assert_eq!(
        digest,
        [
            173, 194, 207, 45, 188, 222, 13, 240, 161, 8, 6, 108, 95, 111, 151, 52, 83, 128, 27,
            24, 30, 127, 169, 45, 57, 37, 64, 160, 153, 241, 253, 141
        ]
    );
}

#[test]
fn digest_is_deterministic_and_input_sensitive() {
    let a = hash_logo_uri("https://example.com/logo.png");
    let b = hash_logo_uri("https://example.com/logo.png");
    assert_eq!(a, b);
    let c = hash_logo_uri("https://example.com/logo.pnh");
    assert_ne!(a, c);
}

#[test]
fn cooldown_helpers_report_the_window() {
    let cooldown = UserCooldown {
        user: USER,
        last_placement: 100,
        placement_count: 1,
        bump: 254,
    };
    assert!(cooldown.is_on_cooldown(110));
    assert!(!cooldown.is_on_cooldown(130));
    assert_eq!(cooldown.remaining_cooldown(110), 20);
    assert_eq!(cooldown.remaining_cooldown(129), 1);
    assert_eq!(cooldown.remaining_cooldown(130), 0);
    assert_eq!(cooldown.remaining_cooldown(500), 0);
}

#[test]
fn overwrite_keeps_the_stored_bump() {
    let now = 1_700_000_000;
    let first = place_fresh(1_000_000, 2_000_000, now).unwrap();
    let bump = first.logo_data.bump;
    let existing = LogoPlacement {
        bump,
        ..first.logo_data
    };
    let accounts = flat_accounts(1_000_000, 2_000_000, USER);
    let second = handler(
        &accounts,
        &PROGRAM_ID,
        now + 60,
        Some(existing),
        Some(first.cooldown_data),
        1_000_000,
        2_000_000,
        MINT,
        String::from("https://example.com/logo.png"),
    )
    .unwrap();
    assert_eq!(second.logo_data.bump, bump);
}

#[test]
fn out_of_range_latitude_fails_placement() {
    let accounts = flat_accounts(1_000_000, 2_000_000, USER);
    let near = handler(
        &accounts,
        &PROGRAM_ID,
        1_700_000_000,
        None,
        None,
        90_000_001,
        2_000_000,
        MINT,
        String::from("https://example.com/logo.png"),
    );
    assert_eq!(near.unwrap_err(), SolplaceError::InvalidLatitude);
    let far = handler(
        &accounts,
        &PROGRAM_ID,
        1_700_000_000,
        None,
        None,
        i32::MIN,
        2_000_000,
        MINT,
        String::from("https://example.com/logo.png"),
    );
    assert_eq!(far.unwrap_err(), SolplaceError::InvalidLatitude);
}

#[test]
fn out_of_range_longitude_fails_placement() {
    let accounts = flat_accounts(1_000_000, 2_000_000, USER);
    let near = handler(
        &accounts,
        &PROGRAM_ID,
        1_700_000_000,
        None,
        None,
        1_000_000,
        -180_000_001,
        MINT,
        String::from("https://example.com/logo.png"),
    );
    assert_eq!(near.unwrap_err(), SolplaceError::InvalidLongitude);
    let far = handler(
        &accounts,
        &PROGRAM_ID,
        1_700_000_000,
        None,
        None,
        1_000_000,
        i32::MAX,
        MINT,
        String::from("https://example.com/logo.png"),
    );
    assert_eq!(far.unwrap_err(), SolplaceError::InvalidLongitude);
}

#[test]
fn error_messages_name_the_failure() {
    assert_eq!(
        SolplaceError::UserOnCooldown.message(),
        "User is still on cooldown. Please wait before placing another logo"
    );
    assert_eq!(
        SolplaceError::LogoUriTooLong.message(),
        "Logo URI is too long. Maximum 200 characters allowed"
    );
}
