//! Address derivation: the seeds of each record kind, the derivation
//! itself, and the capability tokens that sign for derived addresses.
use crate::account::Signer;
use crate::bytes::push_bytes;
use crate::error::UniPinoNftErr;
use vstd::bytes::*;
use vstd::prelude::*;

verus! {

/// Namespace tag of platform records: `"administer"`.
pub const PLATFORM_SEED: [u8; 10] = [0x61, 0x64, 0x6d, 0x69, 0x6e, 0x69, 0x73, 0x74, 0x65, 0x72];

/// Namespace tag of user records: `"user_wallet"`.
pub const USER_SEED: [u8; 11] = [0x75, 0x73, 0x65, 0x72, 0x5f, 0x77, 0x61, 0x6c, 0x6c, 0x65, 0x74];

/// Namespace tag of metadata records: `"metadata"`.
pub const METADATA_SEED: [u8; 8] = [0x6d, 0x65, 0x74, 0x61, 0x64, 0x61, 0x74, 0x61];

pub open spec fn platform_seed() -> Seq<u8> {
    seq![0x61u8, 0x64, 0x6d, 0x69, 0x6e, 0x69, 0x73, 0x74, 0x65, 0x72]
}

pub open spec fn user_seed() -> Seq<u8> {
    seq![0x75u8, 0x73, 0x65, 0x72, 0x5f, 0x77, 0x61, 0x6c, 0x6c, 0x65, 0x74]
}

pub open spec fn metadata_seed() -> Seq<u8> {
    seq![0x6du8, 0x65, 0x74, 0x61, 0x64, 0x61, 0x74, 0x61]
}

/// Seeds of the platform record of `administrator`.
pub open spec fn platform_seeds(administrator: Seq<u8>) -> Seq<Seq<u8>> {
    seq![platform_seed(), administrator]
}

/// Seeds of the user record `user_uuid` under the platform record at
/// `platform`, whose bump is `platform_bump`.
pub open spec fn user_seeds(user_uuid: u128, platform: Seq<u8>, platform_bump: u8) -> Seq<Seq<u8>> {
    seq![user_seed(), spec_u128_to_le_bytes(user_uuid), platform, seq![platform_bump]]
}

/// Seeds of the sub-ledger entry `user_uuid` of the user record at `user`.
pub open spec fn entry_seeds(user_uuid: u128, user: Seq<u8>, token_program: Seq<u8>) -> Seq<Seq<u8>> {
    seq![spec_u128_to_le_bytes(user_uuid), user, token_program]
}

/// Seeds of the metadata record of the sub-ledger entry at `mint`.
pub open spec fn metadata_seeds(mint: Seq<u8>, token_program: Seq<u8>) -> Seq<Seq<u8>> {
    seq![metadata_seed(), mint, token_program]
}

/// The seeds a signer presents: its record's seeds followed by its bump.
pub open spec fn signer_seeds(s: Signer) -> Seq<Seq<u8>> {
    match s {
        Signer::Platform { administrator, bump } => platform_seeds(administrator@).push(seq![bump]),
        Signer::User { user_uuid, platform, platform_bump, bump } => user_seeds(
            user_uuid,
            platform@,
            platform_bump,
        ).push(seq![bump]),
        Signer::Entry { user_uuid, user, token_program, bump } => entry_seeds(
            user_uuid,
            user@,
            token_program@,
        ).push(seq![bump]),
    }
}

/// A list of seeds as values.
pub open spec fn seeds_view(v: Seq<Vec<u8>>) -> Seq<Seq<u8>> {
    v.map_values(|s: Vec<u8>| s@)
}

/// The derived address and bump that the runtime's bump search finds for
/// `seeds` under `program_id`, or none.
pub uninterp spec fn program_address(seeds: Seq<Seq<u8>>, program_id: Seq<u8>) -> Option<([u8; 32], u8)>;

/// Relies on `pinocchio::pubkey::try_find_program_address`: the first bump,
/// counting down from 255, whose address is off the curve, together with
/// that address; `None` when no bump qualifies or the seeds are out of
/// bounds. The result depends on the seeds and the program id alone. Off
/// the Solana target the search is not available and pinocchio answers
/// `None`.
#[verifier::external_body]
fn find_program_address(seeds: &Vec<Vec<u8>>, program_id: &[u8; 32]) -> (r: Option<([u8; 32], u8)>)
    ensures
        r == program_address(seeds_view(seeds@), program_id@),
{
    let refs: Vec<&[u8]> = seeds.iter().map(|s| s.as_slice()).collect();
    pinocchio::pubkey::try_find_program_address(&refs, program_id)
}

/// What `derive_address` returns for `seeds` under `program_id`.
pub open spec fn derived(seeds: Seq<Seq<u8>>, program_id: Seq<u8>) -> Result<([u8; 32], u8), UniPinoNftErr> {
    match program_address(seeds, program_id) {
        Some(found) => Ok(found),
        None => Err(UniPinoNftErr::AddressSpaceExhausted),
    }
}

/// Derives the address and bump of a record from its seeds.
pub fn derive_address(seeds: &Vec<Vec<u8>>, program_id: &[u8; 32]) -> (r: Result<([u8; 32], u8), UniPinoNftErr>)
    ensures
        r == derived(seeds_view(seeds@), program_id@),
{
    match find_program_address(seeds, program_id) {
        Some(found) => Ok(found),
        None => Err(UniPinoNftErr::AddressSpaceExhausted),
    }
}

/// Derivation is a function: the same seeds under the same program id
/// always give the same address and bump, or always fail.
pub proof fn lemma_derive_deterministic(
    seeds1: Seq<Seq<u8>>,
    seeds2: Seq<Seq<u8>>,
    program1: Seq<u8>,
    program2: Seq<u8>,
)
    requires
        seeds1 == seeds2,
        program1 == program2,
    ensures
        derived(seeds1, program1) == derived(seeds2, program2),
{
}

fn to_vec(s: &[u8]) -> (r: Vec<u8>)
    ensures
        r@ == s@,
{
    let mut out: Vec<u8> = Vec::new();
    push_bytes(&mut out, s);
    assert(out@ =~= s@);
    out
}

fn one_byte(b: u8) -> (r: Vec<u8>)
    ensures
        r@ == seq![b],
{
    let mut r: Vec<u8> = Vec::new();
    r.push(b);
    assert(r@ =~= seq![b]);
    r
}

/// Seeds of the platform record of `administrator`.
pub fn platform_seeds_of(administrator: &[u8; 32]) -> (r: Vec<Vec<u8>>)
    ensures
        seeds_view(r@) == platform_seeds(administrator@),
{
    let tag = PLATFORM_SEED;
    assert(tag@ == platform_seed());
    let r = vec![to_vec(tag.as_slice()), to_vec(administrator.as_slice())];
    assert(seeds_view(r@) =~= platform_seeds(administrator@));
    r
}

/// Seeds of the user record `user_uuid` under the platform record at
/// `platform`.
pub fn user_seeds_of(user_uuid: u128, platform: &[u8; 32], platform_bump: u8) -> (r: Vec<Vec<u8>>)
    ensures
        seeds_view(r@) == user_seeds(user_uuid, platform@, platform_bump),
{
    let tag = USER_SEED;
    assert(tag@ == user_seed());
    let r = vec![
        to_vec(tag.as_slice()),
        u128_to_le_bytes(user_uuid),
        to_vec(platform.as_slice()),
        one_byte(platform_bump),
    ];
    assert(seeds_view(r@) =~= user_seeds(user_uuid, platform@, platform_bump));
    r
}

/// Seeds of the sub-ledger entry `user_uuid` of the user record at `user`.
pub fn entry_seeds_of(user_uuid: u128, user: &[u8; 32], token_program: &[u8; 32]) -> (r: Vec<Vec<u8>>)
    ensures
        seeds_view(r@) == entry_seeds(user_uuid, user@, token_program@),
{
    let r = vec![
        u128_to_le_bytes(user_uuid),
        to_vec(user.as_slice()),
        to_vec(token_program.as_slice()),
    ];
    assert(seeds_view(r@) =~= entry_seeds(user_uuid, user@, token_program@));
    r
}

/// Seeds of the metadata record of the sub-ledger entry at `mint`.
pub fn metadata_seeds_of(mint: &[u8; 32], token_program: &[u8; 32]) -> (r: Vec<Vec<u8>>)
    ensures
        seeds_view(r@) == metadata_seeds(mint@, token_program@),
{
    let tag = METADATA_SEED;
    assert(tag@ == metadata_seed());
    let r = vec![to_vec(tag.as_slice()), to_vec(mint.as_slice()), to_vec(token_program.as_slice())];
    assert(seeds_view(r@) =~= metadata_seeds(mint@, token_program@));
    r
}

impl Signer {
    /// The seeds, bump last, that authorise a write to the derived address.
    pub fn seeds(&self) -> (r: Vec<Vec<u8>>)
        ensures
            seeds_view(r@) == signer_seeds(*self),
    {
        let mut r = match self {
            Signer::Platform { administrator, bump } => platform_seeds_of(administrator),
            Signer::User { user_uuid, platform, platform_bump, bump } => user_seeds_of(
                *user_uuid,
                platform,
                *platform_bump,
            ),
            Signer::Entry { user_uuid, user, token_program, bump } => entry_seeds_of(
                *user_uuid,
                user,
                token_program,
            ),
        };
        let bump = match self {
            Signer::Platform { bump, .. } => *bump,
            Signer::User { bump, .. } => *bump,
            Signer::Entry { bump, .. } => *bump,
        };
        let ghost before = seeds_view(r@);
        r.push(one_byte(bump));
        assert(seeds_view(r@) =~= before.push(seq![bump]));
        r
    }
}

} // verus!
