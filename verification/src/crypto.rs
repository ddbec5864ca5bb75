use vstd::prelude::*;

verus! {

use anchor_lang::solana_program::pubkey::Pubkey;
use vstd::utf8::encode_utf8;

/// The SHA-256 digest of a byte sequence. The digest is computed by the
/// ledger SDK; it depends on the input bytes alone, so it is left abstract
/// and only named here.
pub uninterp spec fn sha256_of(bytes: Seq<u8>) -> Seq<u8>;

/// The program-derived address for a list of seeds and a 32-byte program id:
/// `None` in the statistically improbable event that no bump seed yields a
/// valid off-curve address, else the 32-byte key together with its bump seed.
/// Computed by the ledger SDK; it depends on the arguments alone.
pub uninterp spec fn pda_of(seeds: Seq<Seq<u8>>, program_id: Seq<u8>) -> Option<(Seq<u8>, u8)>;

/// The mathematical view of an executable key-derivation result.
pub open spec fn pda_view(r: Option<([u8; 32], u8)>) -> Option<(Seq<u8>, u8)> {
    match r {
        Some(p) => Some((p.0@, p.1)),
        None => None,
    }
}

/// Whether a supplied storage key equals the derived one. A derivation that
/// found no valid address matches no supplied key.
pub open spec fn key_matches(supplied: Seq<u8>, derived: Option<(Seq<u8>, u8)>) -> bool {
    match derived {
        Some(kb) => supplied == kb.0,
        None => false,
    }
}

/// The bump seed of a derivation result, 0 when none was found.
pub open spec fn spec_pda_bump(derived: Option<(Seq<u8>, u8)>) -> u8 {
    match derived {
        Some(kb) => kb.1,
        None => 0u8,
    }
}

/// Relies on anchor_lang::solana_program::hash::hash: the SHA-256 digest of
/// the input bytes, 32 bytes long and a function of the input alone.
#[verifier::external_body]
fn sha256_digest(bytes: &[u8]) -> (r: [u8; 32])
    ensures
        r@ == sha256_of(bytes@),
        r@.len() == 32,
{
    anchor_lang::solana_program::hash::hash(bytes).to_bytes()
}

/// Relies on Pubkey::try_find_program_address: the derived address and bump
/// seed are a function of the seeds and the program id alone, and `None`
/// comes back only when no bump seed gives a valid off-curve address.
#[verifier::external_body]
pub(crate) fn find_pda(seeds: &Vec<Vec<u8>>, program_id: &[u8; 32]) -> (r: Option<([u8; 32], u8)>)
    ensures
        pda_view(r) == pda_of(seeds.deep_view(), program_id@),
{
    let seed_slices: Vec<&[u8]> = seeds.iter().map(|s| s.as_slice()).collect();
    let pid = Pubkey::new_from_array(*program_id);
    Pubkey::try_find_program_address(&seed_slices, &pid).map(|(key, bump)| (key.to_bytes(), bump))
}

/// Computes the content-integrity digest of a logo URI.
pub fn hash_logo_uri(logo_uri: &str) -> (r: [u8; 32])
    ensures
        r@ == sha256_of(encode_utf8(logo_uri@)),
{
    sha256_digest(logo_uri.as_bytes())
}

/// The content digest is deterministic: two digests of the same character
/// sequence are identical.
pub proof fn lemma_digest_deterministic(s: Seq<char>, d1: Seq<u8>, d2: Seq<u8>)
    requires
        d1 == sha256_of(encode_utf8(s)),
        d2 == sha256_of(encode_utf8(s)),
    ensures
        d1 == d2,
{
}

/// Compares two 32-byte keys.
pub fn keys_equal(a: &[u8; 32], b: &[u8; 32]) -> (r: bool)
    ensures
        r == (a@ == b@),
{
    let mut i: usize = 0;
    while i < 32
        invariant
            i <= 32,
            forall|j: int| 0 <= j < i ==> a@[j] == b@[j],
        decreases 32 - i,
    {
        if a[i] != b[i] {
            assert(a@[i as int] != b@[i as int]);
            return false;
        }
        i += 1;
    }
    assert(a@ =~= b@);
    true
}

} // verus!
