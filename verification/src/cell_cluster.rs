use vstd::prelude::*;

verus! {

use crate::crypto::{find_pda, pda_of, pda_view};
use crate::error::SolplaceError;
use vstd::bytes::{spec_u64_to_le_bytes, u64_to_le_bytes};
use vstd::string::StrSliceExecFns;
use vstd::utf8::encode_utf8;

/// Upper bound on the number of cells one cluster record can hold.
pub const MAX_CELLS: usize = 10;

/// Base size of a serialized cluster record: discriminator, cluster id,
/// bounds, cell count, list length, last-updated timestamp, bump.
pub const CLUSTER_BASE_SIZE: usize = 8 + 8 + 16 + 4 + 4 + 8 + 1;

/// Size of one serialized cell: coordinates, mint, length-prefixed URI,
/// digest, placer, timestamp, overwrite count.
pub const CELL_DATA_SIZE: usize = 8 + 32 + 4 + 200 + 32 + 32 + 8 + 2;

/// Largest size a serialized cluster record can reach.
pub const CLUSTER_MAX_SIZE: usize = CLUSTER_BASE_SIZE + CELL_DATA_SIZE * MAX_CELLS;

/// One placement inside a cluster record (clustered strategy).
#[derive(Clone, Debug)]
pub struct CellData {
    /// Coordinates in microdegrees: [lat, lng].
    pub coordinates: [i32; 2],
    /// Token contract address.
    pub token_mint: [u8; 32],
    /// Resolved logo URI.
    pub logo_uri: String,
    /// Content digest of the logo URI, for integrity verification.
    pub logo_hash: [u8; 32],
    /// Wallet address of the user that placed this logo.
    pub placed_by: [u8; 32],
    /// Unix timestamp of the placement.
    pub placed_at: i64,
    /// Number of times this cell has been overwritten.
    pub overwrite_count: u16,
}

/// A spatial bucket of placements (clustered strategy): a bounded ordered
/// list of cells, at most one per distinct coordinate, in placement order.
#[derive(Clone, Debug)]
pub struct CellCluster {
    /// Unique cluster identifier derived from the bucket coordinates.
    pub cluster_id: u64,
    /// Bucket bounds in microdegrees: [min_lat, max_lat, min_lng, max_lng].
    pub bounds: [i32; 4],
    /// Number of active cells.
    pub cell_count: u32,
    /// The cells, in placement order.
    pub cells: Vec<CellData>,
    /// Unix timestamp of the last update.
    pub last_updated: i64,
    /// Key-derivation bump seed.
    pub bump: u8,
}

/// Whether a cell sits at exactly this coordinate pair.
pub open spec fn spec_cell_matches(cell: CellData, lat: i32, lng: i32) -> bool {
    cell.coordinates@[0] == lat && cell.coordinates@[1] == lng
}

/// The index of the first cell at this coordinate pair, if any.
pub open spec fn spec_first_match(cells: Seq<CellData>, lat: i32, lng: i32) -> Option<int>
    decreases cells.len(),
{
    if cells.len() == 0 {
        None
    } else if spec_cell_matches(cells[0], lat, lng) {
        Some(0int)
    } else {
        match spec_first_match(cells.drop_first(), lat, lng) {
            Some(i) => Some(i + 1),
            None => None,
        }
    }
}

/// What `spec_first_match` finds: a matching cell, before which none match,
/// or the fact that no cell matches.
pub proof fn lemma_first_match_properties(cells: Seq<CellData>, lat: i32, lng: i32)
    ensures
        match spec_first_match(cells, lat, lng) {
            Some(i) => 0 <= i < cells.len() && spec_cell_matches(cells[i], lat, lng) && forall|
                j: int,
            | 0 <= j < i ==> !spec_cell_matches(cells[j], lat, lng),
            None => forall|j: int| 0 <= j < cells.len() ==> !spec_cell_matches(cells[j], lat, lng),
        },
    decreases cells.len(),
{
    if cells.len() > 0 && !spec_cell_matches(cells[0], lat, lng) {
        let rest = cells.drop_first();
        lemma_first_match_properties(rest, lat, lng);
        match spec_first_match(rest, lat, lng) {
            Some(i) => {
                assert(spec_first_match(cells, lat, lng) == Some(i + 1));
                assert(spec_cell_matches(cells[i + 1], lat, lng)) by {
                    assert(cells[i + 1] == rest[i]);
                }
                assert forall|j: int| 0 <= j < i + 1 implies !spec_cell_matches(
                    cells[j],
                    lat,
                    lng,
                ) by {
                    if j > 0 {
                        assert(cells[j] == rest[j - 1]);
                    }
                }
            },
            None => {
                assert forall|j: int| 0 <= j < cells.len() implies !spec_cell_matches(
                    cells[j],
                    lat,
                    lng,
                ) by {
                    if j > 0 {
                        assert(cells[j] == rest[j - 1]);
                    }
                }
            },
        }
    }
}

/// The first match is pinned down by any index that matches while all
/// earlier ones do not.
pub proof fn lemma_first_match_at(cells: Seq<CellData>, lat: i32, lng: i32, i: int)
    requires
        0 <= i < cells.len(),
        spec_cell_matches(cells[i], lat, lng),
        forall|j: int| 0 <= j < i ==> !spec_cell_matches(cells[j], lat, lng),
    ensures
        spec_first_match(cells, lat, lng) == Some(i),
    decreases cells.len(),
{
    if i > 0 {
        lemma_first_match_at(cells.drop_first(), lat, lng, i - 1);
    }
}

/// No matching cell means no first match.
pub proof fn lemma_first_match_none(cells: Seq<CellData>, lat: i32, lng: i32)
    requires
        forall|j: int| 0 <= j < cells.len() ==> !spec_cell_matches(cells[j], lat, lng),
    ensures
        spec_first_match(cells, lat, lng).is_none(),
{
    lemma_first_match_properties(cells, lat, lng);
    if spec_first_match(cells, lat, lng) is Some {
        assert(false);
    }
}

/// Whether every pair of distinct cells sits at distinct coordinates.
pub open spec fn spec_coords_unique(cells: Seq<CellData>) -> bool {
    forall|i: int, j: int|
        0 <= i < j < cells.len() ==> !(#[trigger] cells[i].coordinates@[0] == #[trigger] cells[j].coordinates@[0]
            && cells[i].coordinates@[1] == cells[j].coordinates@[1])
}

impl CellCluster {
    /// The structural invariant of a cluster record: the cell list is
    /// bounded by the capacity and the cell count mirrors its length.
    pub open spec fn wf(self) -> bool {
        &&& self.cells@.len() <= MAX_CELLS
        &&& self.cell_count == self.cells@.len()
    }

    /// Finds the index of the cell at this coordinate, scanning in order.
    pub fn find_cell_index(&self, lat: i32, lng: i32) -> (r: Option<usize>)
        ensures
            match r {
                Some(i) => spec_first_match(self.cells@, lat, lng) == Some(i as int),
                None => spec_first_match(self.cells@, lat, lng).is_none(),
            },
    {
        let n = self.cells.len();
        let mut i: usize = 0;
        while i < n
            invariant
                i <= n,
                n == self.cells@.len(),
                forall|j: int| 0 <= j < i ==> !spec_cell_matches(self.cells@[j], lat, lng),
            decreases n - i,
        {
            let cell = &self.cells[i];
            if cell.coordinates[0] == lat && cell.coordinates[1] == lng {
                proof {
                    lemma_first_match_at(self.cells@, lat, lng, i as int);
                }
                return Some(i);
            }
            i += 1;
        }
        proof {
            lemma_first_match_none(self.cells@, lat, lng);
        }
        None
    }

    /// Replaces the cell at the new cell's coordinate, or appends the cell
    /// when the coordinate is new to the cluster. Appending to a full
    /// cluster fails with `ClusterFull` and changes nothing. The result says
    /// whether an existing cell was overwritten. Capacity stays respected,
    /// the cell count keeps mirroring the list, and distinct coordinates
    /// stay distinct.
    pub fn add_or_update_cell(&mut self, cell_data: CellData) -> (r: Result<bool, SolplaceError>)
        requires
            old(self).wf(),
        ensures
            final(self).cluster_id == old(self).cluster_id,
            final(self).bounds@ == old(self).bounds@,
            final(self).last_updated == old(self).last_updated,
            final(self).bump == old(self).bump,
            final(self).wf(),
            spec_coords_unique(old(self).cells@) ==> spec_coords_unique(final(self).cells@),
            match spec_first_match(
                old(self).cells@,
                cell_data.coordinates@[0],
                cell_data.coordinates@[1],
            ) {
                Some(i) => r == Ok::<bool, SolplaceError>(true) && final(self).cells@ == old(
                    self,
                ).cells@.update(i, cell_data) && final(self).cell_count == old(self).cell_count,
                None => if old(self).cells@.len() < MAX_CELLS {
                    r == Ok::<bool, SolplaceError>(false) && final(self).cells@ == old(
                        self,
                    ).cells@.push(cell_data) && final(self).cell_count == old(self).cell_count + 1
                } else {
                    r == Err::<bool, SolplaceError>(SolplaceError::ClusterFull) && *final(self)
                        == *old(self)
                },
            },
    {
        let lat = cell_data.coordinates[0];
        let lng = cell_data.coordinates[1];
        proof {
            lemma_first_match_properties(self.cells@, lat, lng);
        }
        if let Some(index) = self.find_cell_index(lat, lng) {
            // Update the existing cell (overwrite)
            self.cells[index] = cell_data;
            proof {
                lemma_uniqueness_after_update(old(self).cells@, self.cells@, cell_data, index as int);
            }
            Ok(true)
        } else {
            // Add a new cell
            if !(self.cells.len() < MAX_CELLS) {
                return Err(SolplaceError::ClusterFull);
            }
            self.cells.push(cell_data);
            self.cell_count = self.cell_count + 1;
            proof {
                lemma_uniqueness_after_push(old(self).cells@, self.cells@, cell_data);
            }
            Ok(false)
        }
    }
}

/// Replacing a cell with one at the same coordinate keeps distinct
/// coordinates distinct.
proof fn lemma_uniqueness_after_update(
    cells0: Seq<CellData>,
    cells1: Seq<CellData>,
    cell_data: CellData,
    i: int,
)
    requires
        0 <= i < cells0.len(),
        spec_cell_matches(cells0[i], cell_data.coordinates@[0], cell_data.coordinates@[1]),
        cells1 == cells0.update(i, cell_data),
    ensures
        spec_coords_unique(cells0) ==> spec_coords_unique(cells1),
{
}

/// Appending a cell at a coordinate new to the list keeps distinct
/// coordinates distinct.
proof fn lemma_uniqueness_after_push(cells0: Seq<CellData>, cells1: Seq<CellData>, cell_data: CellData)
    requires
        spec_first_match(cells0, cell_data.coordinates@[0], cell_data.coordinates@[1]).is_none(),
        cells1 == cells0.push(cell_data),
    ensures
        spec_coords_unique(cells0) ==> spec_coords_unique(cells1),
{
    lemma_first_match_properties(cells0, cell_data.coordinates@[0], cell_data.coordinates@[1]);
}

/// The bucket index of one axis: the coordinate divided by 100,000 with
/// truncation toward zero.
pub open spec fn spec_bucket(x: int) -> int {
    if x >= 0 {
        x / 100_000
    } else {
        -((-x) / 100_000)
    }
}

/// A bucket index reinterpreted as an unsigned 32-bit value.
pub open spec fn spec_u32_repr(x: int) -> int {
    if x >= 0 {
        x
    } else {
        x + 0x1_0000_0000
    }
}

/// An unsigned 32-bit value reinterpreted as a signed one.
pub open spec fn spec_i32_repr(x: int) -> int {
    if x < 0x8000_0000 {
        x
    } else {
        x - 0x1_0000_0000
    }
}

/// The cluster id of a coordinate: the latitude bucket in the high 32 bits
/// and the longitude bucket in the low 32 bits.
pub open spec fn spec_cluster_id(lat: i32, lng: i32) -> int {
    spec_u32_repr(spec_bucket(lat as int)) * 0x1_0000_0000 + spec_u32_repr(spec_bucket(lng as int))
}

/// The latitude bucket encoded in a cluster id.
pub open spec fn spec_cluster_id_lat(cluster_id: u64) -> int {
    spec_i32_repr(cluster_id as int / 0x1_0000_0000)
}

/// The longitude bucket encoded in a cluster id.
pub open spec fn spec_cluster_id_lng(cluster_id: u64) -> int {
    spec_i32_repr(cluster_id as int % 0x1_0000_0000)
}

/// Divides a coordinate by 100,000, rounding toward zero.
fn div_bucket(x: i32) -> (r: i32)
    ensures
        r == spec_bucket(x as int),
{
    let wide: i64 = x as i64;
    if wide >= 0 {
        (wide / 100_000) as i32
    } else {
        let q: i64 = (-wide) / 100_000;
        (-q) as i32
    }
}

/// Computes the cluster id of a coordinate.
pub fn get_cluster_id(lat: i32, lng: i32) -> (r: u64)
    ensures
        r == spec_cluster_id(lat, lng),
{
    let cluster_lat = div_bucket(lat);
    let cluster_lng = div_bucket(lng);
    let hi: u64 = if cluster_lat >= 0 {
        cluster_lat as u64
    } else {
        ((cluster_lat as i64) + 0x1_0000_0000i64) as u64
    };
    let lo: u64 = if cluster_lng >= 0 {
        cluster_lng as u64
    } else {
        ((cluster_lng as i64) + 0x1_0000_0000i64) as u64
    };
    hi * 0x1_0000_0000u64 + lo
}

/// Decodes a cluster id and computes the bucket's bounds:
/// [min_lat, max_lat, min_lng, max_lng] in microdegrees.
pub fn get_cluster_bounds(cluster_id: u64) -> (r: [i32; 4])
    requires
        -21_474 <= spec_cluster_id_lat(cluster_id) <= 21_473,
        -21_474 <= spec_cluster_id_lng(cluster_id) <= 21_473,
    ensures
        r@.len() == 4,
        r@[0] == spec_cluster_id_lat(cluster_id) * 100_000,
        r@[1] == (spec_cluster_id_lat(cluster_id) + 1) * 100_000 - 1,
        r@[2] == spec_cluster_id_lng(cluster_id) * 100_000,
        r@[3] == (spec_cluster_id_lng(cluster_id) + 1) * 100_000 - 1,
{
    let hi: u64 = cluster_id / 0x1_0000_0000u64;
    let lo: u64 = cluster_id % 0x1_0000_0000u64;
    let cluster_lat: i32 = if hi < 0x8000_0000u64 {
        hi as i32
    } else {
        ((hi as i64) - 0x1_0000_0000i64) as i32
    };
    let cluster_lng: i32 = if lo < 0x8000_0000u64 {
        lo as i32
    } else {
        ((lo as i64) - 0x1_0000_0000i64) as i32
    };
    assert(hi as int == cluster_id as int / 0x1_0000_0000);
    assert(lo as int == cluster_id as int % 0x1_0000_0000);
    assert(cluster_lat as int == spec_cluster_id_lat(cluster_id));
    assert(cluster_lng as int == spec_cluster_id_lng(cluster_id));
    let min_lat = cluster_lat * 100_000;
    let max_lat = (cluster_lat + 1) * 100_000 - 1;
    let min_lng = cluster_lng * 100_000;
    let max_lng = (cluster_lng + 1) * 100_000 - 1;
    let r: [i32; 4] = [min_lat, max_lat, min_lng, max_lng];
    r
}

/// Encoding a coordinate's buckets into a cluster id and decoding them
/// again gives the buckets back.
pub proof fn lemma_cluster_id_roundtrip(lat: i32, lng: i32)
    ensures
        0 <= spec_cluster_id(lat, lng) < 0x1_0000_0000_0000_0000,
        spec_cluster_id_lat(spec_cluster_id(lat, lng) as u64) == spec_bucket(lat as int),
        spec_cluster_id_lng(spec_cluster_id(lat, lng) as u64) == spec_bucket(lng as int),
{
    lemma_bucket_bounds(lat);
    lemma_bucket_bounds(lng);
    let bl = spec_bucket(lat as int);
    let bg = spec_bucket(lng as int);
    let hi = spec_u32_repr(bl);
    let lo = spec_u32_repr(bg);
    assert(0 <= hi < 0x1_0000_0000);
    assert(0 <= lo < 0x1_0000_0000);
    let id = hi * 0x1_0000_0000 + lo;
    assert(0 <= id < 0x1_0000_0000_0000_0000) by (nonlinear_arith)
        requires
            0 <= hi < 0x1_0000_0000,
            0 <= lo < 0x1_0000_0000,
            id == hi * 0x1_0000_0000 + lo,
    ;
    assert(id / 0x1_0000_0000 == hi && id % 0x1_0000_0000 == lo) by (nonlinear_arith)
        requires
            0 <= hi,
            0 <= lo < 0x1_0000_0000,
            id == hi * 0x1_0000_0000 + lo,
    ;
    assert(spec_i32_repr(hi) == bl);
    assert(spec_i32_repr(lo) == bg);
}

/// A bucket index is bounded by the coordinate it came from; any signed
/// 32-bit coordinate gives a bucket in [-21,474, 21,474], and a coordinate
/// within the longitude range gives a bucket in [-1,800, 1,800].
pub proof fn lemma_bucket_bounds(x: i32)
    ensures
        -21_474 <= spec_bucket(x as int) <= 21_474,
        x >= -180_000_000 ==> spec_bucket(x as int) >= -1_800,
        x <= 180_000_000 ==> spec_bucket(x as int) <= 1_800,
{
    if x as int >= 0 {
        assert(x as int / 100_000 <= 21_474 && (x as int <= 180_000_000 ==> x as int / 100_000
            <= 1_800)) by (nonlinear_arith)
            requires
                0 <= x as int <= 0x7FFF_FFFF,
        ;
    } else {
        assert((-(x as int)) / 100_000 <= 21_474 && (-(x as int) <= 180_000_000 ==> (-(x as int))
            / 100_000 <= 1_800)) by (nonlinear_arith)
            requires
                0 < -(x as int) <= 0x8000_0000,
        ;
    }
}

/// The derived storage key of a cluster record.
pub open spec fn spec_cluster_pda(cluster_id: u64, program_id: Seq<u8>) -> Option<(Seq<u8>, u8)> {
    pda_of(seq![encode_utf8("cluster"@), spec_u64_to_le_bytes(cluster_id)], program_id)
}

/// Derives the storage key of a cluster record.
pub fn get_cluster_pda(cluster_id: u64, program_id: &[u8; 32]) -> (r: Option<([u8; 32], u8)>)
    ensures
        pda_view(r) == spec_cluster_pda(cluster_id, program_id@),
{
    let mut seeds: Vec<Vec<u8>> = Vec::new();
    seeds.push("cluster".as_bytes_vec());
    seeds.push(u64_to_le_bytes(cluster_id));
    let r = find_pda(&seeds, program_id);
    proof {
        assert(seeds.deep_view() =~~= seq![
            encode_utf8("cluster"@),
            spec_u64_to_le_bytes(cluster_id),
        ]);
    }
    r
}

} // verus!
