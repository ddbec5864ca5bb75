use vstd::prelude::*;

verus! {

use crate::cell_cluster::{
    get_cluster_bounds, get_cluster_id, get_cluster_pda, lemma_bucket_bounds,
    lemma_cluster_id_roundtrip, lemma_first_match_properties, spec_cell_matches, spec_cluster_id,
    spec_cluster_pda, spec_coords_unique, spec_first_match, CellCluster, CellData, MAX_CELLS,
};
use crate::constants::{
    spec_treasury_address, BASE_PLACEMENT_FEE, MAX_LOGO_URI_LENGTH, OVERWRITE_MULTIPLIER,
};
use crate::crypto::{hash_logo_uri, key_matches, keys_equal, sha256_of, spec_pda_bump};
use crate::error::SolplaceError;
use crate::logo_placement::{spec_valid_latitude, spec_valid_longitude, validate_coordinates};
use crate::place_logo::{collect_fee, spec_cooldown_after, spec_fee};
use crate::user_cooldown::{
    get_user_cooldown_pda, spec_cooldown_blocked, spec_user_cooldown_pda, UserCooldown,
};
use vstd::string::StrSliceExecFns;
use vstd::utf8::encode_utf8;

/// The storage keys a caller supplies for one clustered placement attempt,
/// and the identities resolved by the host.
#[derive(Clone, Debug)]
pub struct PlaceLogo {
    /// Supplied cluster account key (derived from the bucket id).
    pub cell_cluster: [u8; 32],
    /// Supplied user cooldown account key (derived from the user).
    pub user_cooldown: [u8; 32],
    /// Key of the resolved token mint account.
    pub token_mint: [u8; 32],
    /// Supplied fee destination.
    pub treasury: [u8; 32],
    /// The paying user.
    pub user: [u8; 32],
}

/// What a successful clustered placement reports.
#[derive(Clone, Debug)]
pub struct LogoPlacedEvent {
    /// The paying user.
    pub user: [u8; 32],
    /// The bucket the coordinate falls in.
    pub cluster_id: u64,
    /// Latitude in microdegrees.
    pub lat: i32,
    /// Longitude in microdegrees.
    pub lng: i32,
    /// Token contract address.
    pub token_mint: [u8; 32],
    /// Resolved logo URI.
    pub logo_uri: String,
    /// The fee charged, in lamports.
    pub fee_paid: u64,
    /// Whether an occupied coordinate was overwritten.
    pub is_overwrite: bool,
    /// Unix timestamp of the placement.
    pub timestamp: i64,
}

/// Everything a successful clustered placement changes: the cluster record
/// and the cooldown record to persist, and the event to emit. The host must
/// also transfer `event.fee_paid` from the user to the treasury.
#[derive(Clone, Debug)]
pub struct PlacementOutcome {
    /// The cluster record to persist.
    pub cluster_data: CellCluster,
    /// The cooldown record to persist.
    pub cooldown_data: UserCooldown,
    /// The event to emit.
    pub event: LogoPlacedEvent,
}

/// The fee of a clustered placement and whether it overwrites: overwriting
/// when a cell at this exact coordinate already exists in the cluster.
pub fn calculate_placement_fee(cluster: &CellCluster, lat: i32, lng: i32) -> (r: Result<
    (u64, bool),
    SolplaceError,
>)
    ensures
        ({
            let ow = spec_first_match(cluster.cells@, lat, lng) is Some;
            r == Ok::<(u64, bool), SolplaceError>((spec_fee(ow), ow))
        }),
{
    if let Some(_index) = cluster.find_cell_index(lat, lng) {
        // Overwrite of an existing cell
        let fee = BASE_PLACEMENT_FEE * OVERWRITE_MULTIPLIER;
        Ok((fee, true))
    } else {
        // New placement
        Ok((BASE_PLACEMENT_FEE, false))
    }
}

/// The cells of the cluster record an attempt starts from: the existing
/// record's, or none at all when the bucket is fresh.
pub open spec fn spec_cells_before(existing_cluster: Option<CellCluster>) -> Seq<CellData> {
    match existing_cluster {
        Some(c) => c.cells@,
        None => Seq::<CellData>::empty(),
    }
}

/// The first check a clustered placement attempt fails, or `None` when
/// every check passes. The checks run in this order: latitude, longitude,
/// URI length, token mint, cluster key, cooldown key, cooldown window, fee
/// destination, cluster capacity.
pub open spec fn spec_place_error(
    accounts: PlaceLogo,
    program_id: Seq<u8>,
    current_timestamp: i64,
    existing_cluster: Option<CellCluster>,
    existing_cooldown: Option<UserCooldown>,
    lat: i32,
    lng: i32,
    token_mint: Seq<u8>,
    logo_uri: Seq<char>,
) -> Option<SolplaceError> {
    let cells0 = spec_cells_before(existing_cluster);
    if !spec_valid_latitude(lat) {
        Some(SolplaceError::InvalidLatitude)
    } else if !spec_valid_longitude(lng) {
        Some(SolplaceError::InvalidLongitude)
    } else if logo_uri.len() > MAX_LOGO_URI_LENGTH {
        Some(SolplaceError::LogoUriTooLong)
    } else if accounts.token_mint@ != token_mint {
        Some(SolplaceError::InvalidTokenMint)
    } else if !key_matches(
        accounts.cell_cluster@,
        spec_cluster_pda(spec_cluster_id(lat, lng) as u64, program_id),
    ) {
        Some(SolplaceError::InvalidCluster)
    } else if !key_matches(
        accounts.user_cooldown@,
        spec_user_cooldown_pda(accounts.user@, program_id),
    ) {
        Some(SolplaceError::InvalidCooldown)
    } else if spec_cooldown_blocked(existing_cooldown, current_timestamp) {
        Some(SolplaceError::UserOnCooldown)
    } else if accounts.treasury@ != spec_treasury_address() {
        Some(SolplaceError::InvalidTreasury)
    } else if spec_first_match(cells0, lat, lng) is None && cells0.len() >= MAX_CELLS {
        Some(SolplaceError::ClusterFull)
    } else {
        None
    }
}

/// Whether a cell holds exactly the new placement.
pub open spec fn spec_new_cell(
    cell: CellData,
    lat: i32,
    lng: i32,
    token_mint: Seq<u8>,
    logo_uri: Seq<char>,
    placer: Seq<u8>,
    current_timestamp: i64,
    overwrite_count: int,
) -> bool {
    &&& cell.coordinates@[0] == lat
    &&& cell.coordinates@[1] == lng
    &&& cell.token_mint@ == token_mint
    &&& cell.logo_uri@ == logo_uri
    &&& cell.logo_hash@ == sha256_of(encode_utf8(logo_uri))
    &&& cell.placed_by@ == placer
    &&& cell.placed_at == current_timestamp
    &&& cell.overwrite_count == overwrite_count
}

/// What a successful clustered placement produces: a cluster whose cell at
/// this coordinate holds exactly the new placement (replaced in place on an
/// overwrite, appended otherwise), every other cell untouched, a cell count
/// that grows only on genuine insertion, an updated cooldown record, and an
/// event reporting the fee.
pub open spec fn spec_cluster_outcome(
    o: PlacementOutcome,
    accounts: PlaceLogo,
    program_id: Seq<u8>,
    current_timestamp: i64,
    existing_cluster: Option<CellCluster>,
    existing_cooldown: Option<UserCooldown>,
    lat: i32,
    lng: i32,
    token_mint: Seq<u8>,
    logo_uri: Seq<char>,
) -> bool {
    let cells0 = spec_cells_before(existing_cluster);
    let count0: int = match existing_cluster {
        Some(c) => c.cell_count as int,
        None => 0,
    };
    let is_overwrite = spec_first_match(cells0, lat, lng) is Some;
    &&& o.cluster_data.cluster_id == (match existing_cluster {
        Some(c) => c.cluster_id as int,
        None => spec_cluster_id(lat, lng),
    })
    &&& o.cluster_data.bounds@ == (match existing_cluster {
        Some(c) => c.bounds@,
        None => seq![
            (spec_bucket_of_lat(lat) * 100_000) as i32,
            ((spec_bucket_of_lat(lat) + 1) * 100_000 - 1) as i32,
            (spec_bucket_of_lng(lng) * 100_000) as i32,
            ((spec_bucket_of_lng(lng) + 1) * 100_000 - 1) as i32,
        ],
    })
    &&& o.cluster_data.bump == (match existing_cluster {
        Some(c) => c.bump,
        None => spec_pda_bump(spec_cluster_pda(spec_cluster_id(lat, lng) as u64, program_id)),
    })
    &&& o.cluster_data.last_updated == current_timestamp
    &&& (match spec_first_match(cells0, lat, lng) {
        Some(i) => {
            &&& o.cluster_data.cells@.len() == cells0.len()
            &&& spec_new_cell(
                o.cluster_data.cells@[i],
                lat,
                lng,
                token_mint,
                logo_uri,
                accounts.user@,
                current_timestamp,
                cells0[i].overwrite_count + 1,
            )
            &&& forall|j: int|
                0 <= j < cells0.len() && j != i ==> o.cluster_data.cells@[j] == cells0[j]
            &&& o.cluster_data.cell_count == count0
        },
        None => {
            &&& o.cluster_data.cells@.len() == cells0.len() + 1
            &&& spec_new_cell(
                o.cluster_data.cells@[cells0.len() as int],
                lat,
                lng,
                token_mint,
                logo_uri,
                accounts.user@,
                current_timestamp,
                0,
            )
            &&& forall|j: int| 0 <= j < cells0.len() ==> o.cluster_data.cells@[j] == cells0[j]
            &&& o.cluster_data.cell_count == count0 + 1
        },
    })
    &&& (spec_coords_unique(cells0) ==> spec_coords_unique(o.cluster_data.cells@))
    &&& spec_cooldown_after(
        o.cooldown_data,
        existing_cooldown,
        accounts.user@,
        spec_pda_bump(spec_user_cooldown_pda(accounts.user@, program_id)),
        current_timestamp,
    )
    &&& o.event.user@ == accounts.user@
    &&& o.event.cluster_id == spec_cluster_id(lat, lng)
    &&& o.event.lat == lat
    &&& o.event.lng == lng
    &&& o.event.token_mint@ == token_mint
    &&& o.event.logo_uri@ == logo_uri
    &&& o.event.fee_paid == spec_fee(is_overwrite)
    &&& o.event.is_overwrite == is_overwrite
    &&& o.event.timestamp == current_timestamp
}

/// The latitude bucket of a coordinate.
pub open spec fn spec_bucket_of_lat(lat: i32) -> int {
    crate::cell_cluster::spec_bucket(lat as int)
}

/// The longitude bucket of a coordinate.
pub open spec fn spec_bucket_of_lng(lng: i32) -> int {
    crate::cell_cluster::spec_bucket(lng as int)
}

/// One clustered placement attempt: validates the inputs, checks the
/// supplied keys against the derived ones, enforces the cooldown window and
/// the cluster capacity, computes the fee, and produces the records to
/// persist and the event to emit. It fails with exactly the first failing
/// check of `spec_place_error`, and succeeds whenever every check passes.
pub fn handler(
    accounts: &PlaceLogo,
    program_id: &[u8; 32],
    current_timestamp: i64,
    existing_cluster: Option<CellCluster>,
    existing_cooldown: Option<UserCooldown>,
    lat: i32,
    lng: i32,
    token_mint: [u8; 32],
    logo_uri: String,
) -> (r: Result<PlacementOutcome, SolplaceError>)
    requires
        current_timestamp >= 0,
        existing_cluster matches Some(c) ==> c.wf() && forall|j: int|
            0 <= j < c.cells@.len() ==> (#[trigger] c.cells@[j]).overwrite_count < u16::MAX,
        existing_cooldown matches Some(c) ==> c.placement_count < u32::MAX && c.last_placement
            >= 0,
    ensures
        match spec_place_error(
            *accounts,
            program_id@,
            current_timestamp,
            existing_cluster,
            existing_cooldown,
            lat,
            lng,
            token_mint@,
            logo_uri@,
        ) {
            Some(e) => r matches Err(a) && a == e,
            None => r matches Ok(o) && spec_cluster_outcome(
                o,
                *accounts,
                program_id@,
                current_timestamp,
                existing_cluster,
                existing_cooldown,
                lat,
                lng,
                token_mint@,
                logo_uri@,
            ),
        },
{
    // 1. Validate coordinates
    match validate_coordinates(lat, lng) {
        Ok(()) => (),
        Err(e) => {
            return Err(e);
        },
    }
    // 2. Validate logo URI length
    if logo_uri.as_str().unicode_len() > MAX_LOGO_URI_LENGTH {
        return Err(SolplaceError::LogoUriTooLong);
    }
    // 3. Validate the token mint against the resolved account
    if !keys_equal(&accounts.token_mint, &token_mint) {
        return Err(SolplaceError::InvalidTokenMint);
    }
    // 4. Derive the cluster id and key and validate the supplied account
    let cluster_id = get_cluster_id(lat, lng);
    proof {
        lemma_cluster_id_roundtrip(lat, lng);
        lemma_bucket_bounds(lat);
        lemma_bucket_bounds(lng);
    }
    let (cluster_pda, cluster_bump) = match get_cluster_pda(cluster_id, program_id) {
        Some(kb) => kb,
        None => {
            return Err(SolplaceError::InvalidCluster);
        },
    };
    if !keys_equal(&accounts.cell_cluster, &cluster_pda) {
        return Err(SolplaceError::InvalidCluster);
    }
    // 5. Derive the cooldown key and validate the supplied account
    let (cooldown_pda, cooldown_bump) = match get_user_cooldown_pda(&accounts.user, program_id) {
        Some(kb) => kb,
        None => {
            return Err(SolplaceError::InvalidCooldown);
        },
    };
    if !keys_equal(&accounts.user_cooldown, &cooldown_pda) {
        return Err(SolplaceError::InvalidCooldown);
    }
    // 6. Load the existing cluster or initialize a fresh one
    let mut cluster_data = match existing_cluster {
        Some(c) => c,
        None => {
            let bounds = get_cluster_bounds(cluster_id);
            proof {
                assert(bounds@ =~= seq![
                    (spec_bucket_of_lat(lat) * 100_000) as i32,
                    ((spec_bucket_of_lat(lat) + 1) * 100_000 - 1) as i32,
                    (spec_bucket_of_lng(lng) * 100_000) as i32,
                    ((spec_bucket_of_lng(lng) + 1) * 100_000 - 1) as i32,
                ]);
            }
            CellCluster {
                cluster_id,
                bounds,
                cell_count: 0,
                cells: Vec::new(),
                last_updated: current_timestamp,
                bump: cluster_bump,
            }
        },
    };
    // 7. Load the existing cooldown record or initialize a fresh one
    let mut cooldown_data = match existing_cooldown {
        Some(c) => c,
        None => UserCooldown {
            user: accounts.user,
            last_placement: 0,
            placement_count: 0,
            bump: cooldown_bump,
        },
    };
    // 8. Check the cooldown window; the first placement is always allowed
    if cooldown_data.last_placement != 0 {
        if cooldown_data.is_on_cooldown(current_timestamp) {
            return Err(SolplaceError::UserOnCooldown);
        }
    }
    // 9. Calculate the placement fee
    let (placement_fee, is_overwrite) = match calculate_placement_fee(&cluster_data, lat, lng) {
        Ok(t) => t,
        Err(e) => {
            return Err(e);
        },
    };
    // 10. Check the fee destination; the host transfers the returned amount
    let fee_paid = match collect_fee(&accounts.treasury, placement_fee) {
        Ok(amount) => amount,
        Err(e) => {
            return Err(e);
        },
    };
    // 11. Calculate the content digest
    let logo_hash = hash_logo_uri(logo_uri.as_str());
    // 12. Build the cell, deriving the overwrite counter from the cell that
    // currently holds this coordinate
    let overwrite_count: u16 = if is_overwrite {
        proof {
            lemma_first_match_properties(cluster_data.cells@, lat, lng);
        }
        match cluster_data.find_cell_index(lat, lng) {
            Some(index) => cluster_data.cells[index].overwrite_count + 1,
            None => 1,
        }
    } else {
        0
    };
    let cell_data = CellData {
        coordinates: [lat, lng],
        token_mint,
        logo_uri: logo_uri.clone(),
        logo_hash,
        placed_by: accounts.user,
        placed_at: current_timestamp,
        overwrite_count,
    };
    // 13. Add or update the cell in the cluster
    proof {
        assert(spec_cell_matches(cell_data, lat, lng)) by {
            assert(cell_data.coordinates@ =~= seq![lat, lng]);
        }
    }
    match cluster_data.add_or_update_cell(cell_data) {
        Ok(_) => (),
        Err(e) => {
            return Err(e);
        },
    }
    cluster_data.last_updated = current_timestamp;
    // 14. Update the cooldown record
    cooldown_data.last_placement = current_timestamp;
    cooldown_data.placement_count = cooldown_data.placement_count + 1;
    // 15. Report the placement
    let event = LogoPlacedEvent {
        user: accounts.user,
        cluster_id,
        lat,
        lng,
        token_mint,
        logo_uri,
        fee_paid,
        is_overwrite,
        timestamp: current_timestamp,
    };
    Ok(PlacementOutcome { cluster_data, cooldown_data, event })
}

} // verus!
