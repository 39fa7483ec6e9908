//! Deterministic address derivation: every account the keeper touches lives
//! at an address derived from fixed, domain-separated seeds and a program id.

use crate::types::{Address, KeeperError};
use vstd::bytes::{spec_u16_to_le_bytes, spec_u64_to_le_bytes, u16_to_le_bytes, u64_to_le_bytes};
use vstd::prelude::*;
use vstd::string::*;

verus! {

/// The program-derived address for the given seeds under the given program,
/// or `None` when no bump seed yields a valid address. Uninterpreted: the
/// result is a function of the seeds and program alone, pinned only by the
/// trusted wrapper below.
pub uninterp spec fn spec_derived_address(seeds: Seq<Seq<u8>>, program: Seq<u8>) -> Option<
    Seq<u8>,
>;

/// Relies on solana_sdk's Pubkey::try_find_program_address: the derived
/// address is a function of the seeds and the program id alone, every
/// address is 32 bytes, and `None` is returned exactly when no bump seed
/// yields a valid address.
#[verifier::external_body]
fn find_derived_address(seeds: &Vec<Vec<u8>>, program: &Address) -> (r: Option<Address>)
    requires
        program.wf(),
    ensures
        r is Some <==> spec_derived_address(seeds.deep_view(), program@) is Some,
        (r matches Some(a) ==> {
            &&& Some(a@) == spec_derived_address(seeds.deep_view(), program@)
            &&& a@.len() == 32
        }),
{
    let mut key = [0u8; 32];
    key.copy_from_slice(&program.bytes);
    let program_id = solana_sdk::pubkey::Pubkey::new_from_array(key);
    let seed_slices: Vec<&[u8]> = seeds.iter().map(|s| s.as_slice()).collect();
    match solana_sdk::pubkey::Pubkey::try_find_program_address(&seed_slices, &program_id) {
        Some((pda, _bump)) => Some(Address { bytes: pda.to_bytes().to_vec() }),
        None => None,
    }
}

/// Seeds of the singleton configuration account.
pub open spec fn spec_config_seeds() -> Seq<Seq<u8>> {
    seq![("config").spec_bytes()]
}

/// Seeds of a round account.
pub open spec fn spec_round_seeds(round_id: u64) -> Seq<Seq<u8>> {
    seq![("round").spec_bytes(), spec_u64_to_le_bytes(round_id)]
}

/// Seeds of a round's vault account.
pub open spec fn spec_round_vault_seeds(round_pda: Seq<u8>) -> Seq<Seq<u8>> {
    seq![("vault").spec_bytes(), round_pda]
}

/// Seeds of a group's progress account.
pub open spec fn spec_group_asset_seeds(round_pda: Seq<u8>, group_id: u64) -> Seq<Seq<u8>> {
    seq![("group_asset").spec_bytes(), round_pda, spec_u64_to_le_bytes(group_id)]
}

/// Seeds of an asset account of a group.
pub open spec fn spec_asset_seeds(group_asset_pda: Seq<u8>, asset_id: u64) -> Seq<Seq<u8>> {
    seq![("asset").spec_bytes(), group_asset_pda, spec_u64_to_le_bytes(asset_id)]
}

/// Seeds of a bet account of a round.
pub open spec fn spec_bet_seeds(round_pda: Seq<u8>, bet_id: u64) -> Seq<Seq<u8>> {
    seq![("bet").spec_bytes(), round_pda, spec_u64_to_le_bytes(bet_id)]
}

/// Seeds of an associated token account: owner, token program, mint.
pub open spec fn spec_token_account_seeds(
    owner: Seq<u8>,
    token_program: Seq<u8>,
    mint: Seq<u8>,
) -> Seq<Seq<u8>> {
    seq![owner, token_program, mint]
}

/// Seeds of a price-feed account: the shard id in two little-endian bytes,
/// then the 32-byte feed id.
pub open spec fn spec_price_feed_seeds(shard_id: u16, feed_id: Seq<u8>) -> Seq<Seq<u8>> {
    seq![spec_u16_to_le_bytes(shard_id), feed_id]
}

/// The derivation either returns the address for these seeds or reports
/// that none exists.
pub open spec fn derivation_result(
    r: Result<Address, KeeperError>,
    seeds: Seq<Seq<u8>>,
    program: Seq<u8>,
) -> bool {
    match spec_derived_address(seeds, program) {
        Some(b) => r matches Ok(a) && a@ == b && a@.len() == 32,
        None => r matches Err(e) && e is AddressDerivationFailed,
    }
}

fn finish_derivation(seeds: Vec<Vec<u8>>, program_id: &Address) -> (r: Result<
    Address,
    KeeperError,
>)
    requires
        program_id.wf(),
    ensures
        derivation_result(r, seeds.deep_view(), program_id@),
{
    match find_derived_address(&seeds, program_id) {
        Some(a) => Ok(a),
        None => Err(KeeperError::AddressDerivationFailed),
    }
}

/// Address of the program's singleton configuration account.
pub fn derive_config_pda(program_id: &Address) -> (r: Result<Address, KeeperError>)
    requires
        program_id.wf(),
    ensures
        derivation_result(r, spec_config_seeds(), program_id@),
{
    let mut seeds: Vec<Vec<u8>> = Vec::new();
    seeds.push("config".as_bytes_vec());
    proof {
        assert(seeds.deep_view() =~~= spec_config_seeds());
    }
    finish_derivation(seeds, program_id)
}

/// Address of a round account.
pub fn derive_round_pda(program_id: &Address, round_id: u64) -> (r: Result<Address, KeeperError>)
    requires
        program_id.wf(),
    ensures
        derivation_result(r, spec_round_seeds(round_id), program_id@),
{
    let mut seeds: Vec<Vec<u8>> = Vec::new();
    seeds.push("round".as_bytes_vec());
    seeds.push(u64_to_le_bytes(round_id));
    proof {
        assert(seeds.deep_view() =~~= spec_round_seeds(round_id));
    }
    finish_derivation(seeds, program_id)
}

/// Address of a round's vault account.
pub fn derive_round_vault_pda(program_id: &Address, round_pda: &Address) -> (r: Result<
    Address,
    KeeperError,
>)
    requires
        program_id.wf(),
    ensures
        derivation_result(r, spec_round_vault_seeds(round_pda@), program_id@),
{
    let mut seeds: Vec<Vec<u8>> = Vec::new();
    seeds.push("vault".as_bytes_vec());
    seeds.push(round_pda.dup().bytes);
    proof {
        assert(seeds.deep_view() =~~= spec_round_vault_seeds(round_pda@));
    }
    finish_derivation(seeds, program_id)
}

/// Address of a group's progress account.
pub fn derive_group_asset_pda(program_id: &Address, round_pda: &Address, group_id: u64) -> (r:
    Result<Address, KeeperError>)
    requires
        program_id.wf(),
    ensures
        derivation_result(r, spec_group_asset_seeds(round_pda@, group_id), program_id@),
{
    let mut seeds: Vec<Vec<u8>> = Vec::new();
    seeds.push("group_asset".as_bytes_vec());
    seeds.push(round_pda.dup().bytes);
    seeds.push(u64_to_le_bytes(group_id));
    proof {
        assert(seeds.deep_view() =~~= spec_group_asset_seeds(round_pda@, group_id));
    }
    finish_derivation(seeds, program_id)
}

/// Address of an asset account of a group.
pub fn derive_asset_pda(program_id: &Address, group_asset_pda: &Address, asset_id: u64) -> (r:
    Result<Address, KeeperError>)
    requires
        program_id.wf(),
    ensures
        derivation_result(r, spec_asset_seeds(group_asset_pda@, asset_id), program_id@),
{
    let mut seeds: Vec<Vec<u8>> = Vec::new();
    seeds.push("asset".as_bytes_vec());
    seeds.push(group_asset_pda.dup().bytes);
    seeds.push(u64_to_le_bytes(asset_id));
    proof {
        assert(seeds.deep_view() =~~= spec_asset_seeds(group_asset_pda@, asset_id));
    }
    finish_derivation(seeds, program_id)
}

/// Address of a bet account of a round.
pub fn derive_bet_pda(program_id: &Address, round_pda: &Address, bet_id: u64) -> (r: Result<
    Address,
    KeeperError,
>)
    requires
        program_id.wf(),
    ensures
        derivation_result(r, spec_bet_seeds(round_pda@, bet_id), program_id@),
{
    let mut seeds: Vec<Vec<u8>> = Vec::new();
    seeds.push("bet".as_bytes_vec());
    seeds.push(round_pda.dup().bytes);
    seeds.push(u64_to_le_bytes(bet_id));
    proof {
        assert(seeds.deep_view() =~~= spec_bet_seeds(round_pda@, bet_id));
    }
    finish_derivation(seeds, program_id)
}

/// Address of the associated token account of an owner and a mint.
pub fn derive_token_account_pda(
    token_program_id: &Address,
    associated_token_program_id: &Address,
    owner: &Address,
    mint: &Address,
) -> (r: Result<Address, KeeperError>)
    requires
        associated_token_program_id.wf(),
    ensures
        derivation_result(
            r,
            spec_token_account_seeds(owner@, token_program_id@, mint@),
            associated_token_program_id@,
        ),
{
    let mut seeds: Vec<Vec<u8>> = Vec::new();
    seeds.push(owner.dup().bytes);
    seeds.push(token_program_id.dup().bytes);
    seeds.push(mint.dup().bytes);
    proof {
        assert(seeds.deep_view() =~~= spec_token_account_seeds(
            owner@,
            token_program_id@,
            mint@,
        ));
    }
    finish_derivation(seeds, associated_token_program_id)
}

/// Address of a price-feed account under the price-oracle program, from the
/// already-decoded 32-byte feed id.
pub fn derive_price_feed_pda(
    shard_id: u16,
    feed_id: &Vec<u8>,
    push_oracle_program_id: &Address,
) -> (r: Result<Address, KeeperError>)
    requires
        push_oracle_program_id.wf(),
    ensures
        derivation_result(r, spec_price_feed_seeds(shard_id, feed_id@), push_oracle_program_id@),
{
    let mut seeds: Vec<Vec<u8>> = Vec::new();
    seeds.push(u16_to_le_bytes(shard_id));
    let mut id: Vec<u8> = Vec::new();
    let mut i: usize = 0;
    while i < feed_id.len()
        invariant
            i <= feed_id.len(),
            id@ == feed_id@.take(i as int),
        decreases feed_id.len() - i,
    {
        id.push(feed_id[i]);
        i = i + 1;
    }
    proof {
        assert(id@ =~= feed_id@);
    }
    seeds.push(id);
    proof {
        assert(seeds.deep_view() =~~= spec_price_feed_seeds(shard_id, feed_id@));
    }
    finish_derivation(seeds, push_oracle_program_id)
}

/// Addresses of the asset accounts `1..=total_assets` of a group, in id
/// order; fails if any id has no derivable address.
pub fn derive_asset_pdas(
    program_id: &Address,
    group_asset_pda: &Address,
    total_assets: u64,
) -> (r: Result<Vec<Address>, KeeperError>)
    requires
        program_id.wf(),
        total_assets <= usize::MAX,
    ensures
        (r matches Ok(v) ==> {
            &&& v@.len() == total_assets
            &&& forall|i: int|
                0 <= i < total_assets ==> Some(#[trigger] v@[i]@) == spec_derived_address(
                    spec_asset_seeds(group_asset_pda@, (i + 1) as u64),
                    program_id@,
                )
        }),
        (r matches Err(e) ==> e is AddressDerivationFailed && exists|i: int|
            0 <= i < total_assets && (#[trigger] spec_derived_address(
                spec_asset_seeds(group_asset_pda@, (i + 1) as u64),
                program_id@,
            )) is None),
{
    let n: usize = total_assets as usize;
    let mut out: Vec<Address> = Vec::new();
    let mut i: usize = 0;
    while i < n
        invariant
            program_id.wf(),
            n == total_assets,
            i <= n,
            out@.len() == i,
            forall|j: int|
                0 <= j < i ==> Some(#[trigger] out@[j]@) == spec_derived_address(
                    spec_asset_seeds(group_asset_pda@, (j + 1) as u64),
                    program_id@,
                ),
        decreases n - i,
    {
        let id: u64 = (i as u64) + 1;
        match derive_asset_pda(program_id, group_asset_pda, id) {
            Ok(a) => {
                out.push(a);
            },
            Err(e) => {
                proof {
                    assert(spec_derived_address(
                        spec_asset_seeds(group_asset_pda@, (i as int + 1) as u64),
                        program_id@,
                    ) is None);
                }
                return Err(KeeperError::AddressDerivationFailed);
            },
        }
        i = i + 1;
    }
    Ok(out)
}

/// Addresses of the bet accounts of one inclusive id range of a round, in
/// id order; fails if any id has no derivable address.
pub fn derive_bet_pdas(
    program_id: &Address,
    round_pda: &Address,
    range_start: u64,
    range_end: u64,
) -> (r: Result<Vec<Address>, KeeperError>)
    requires
        program_id.wf(),
        1 <= range_start,
        range_start <= range_end,
        range_end - range_start + 1 <= usize::MAX,
    ensures
        (r matches Ok(v) ==> {
            &&& v@.len() == range_end - range_start + 1
            &&& forall|i: int|
                0 <= i < v@.len() ==> Some(#[trigger] v@[i]@) == spec_derived_address(
                    spec_bet_seeds(round_pda@, (range_start + i) as u64),
                    program_id@,
                )
        }),
        (r matches Err(e) ==> e is AddressDerivationFailed && exists|i: int|
            0 <= i < range_end - range_start + 1 && (#[trigger] spec_derived_address(
                spec_bet_seeds(round_pda@, (range_start + i) as u64),
                program_id@,
            )) is None),
{
    let n: usize = (range_end - range_start + 1) as usize;
    let mut out: Vec<Address> = Vec::new();
    let mut i: usize = 0;
    while i < n
        invariant
            program_id.wf(),
            1 <= range_start <= range_end,
            n == range_end - range_start + 1,
            i <= n,
            out@.len() == i,
            forall|j: int|
                0 <= j < i ==> Some(#[trigger] out@[j]@) == spec_derived_address(
                    spec_bet_seeds(round_pda@, (range_start + j) as u64),
                    program_id@,
                ),
        decreases n - i,
    {
        let id: u64 = range_start + (i as u64);
        match derive_bet_pda(program_id, round_pda, id) {
            Ok(a) => {
                out.push(a);
            },
            Err(e) => {
                proof {
                    assert(spec_derived_address(
                        spec_bet_seeds(round_pda@, (range_start + i as int) as u64),
                        program_id@,
                    ) is None);
                }
                return Err(KeeperError::AddressDerivationFailed);
            },
        }
        i = i + 1;
    }
    Ok(out)
}

/// Addresses of the group progress accounts `1..=total_groups` of a round,
/// in id order; fails if any id has no derivable address.
pub fn derive_group_asset_pdas(
    program_id: &Address,
    round_pda: &Address,
    total_groups: u64,
) -> (r: Result<Vec<Address>, KeeperError>)
    requires
        program_id.wf(),
        total_groups <= usize::MAX,
    ensures
        (r matches Ok(v) ==> {
            &&& v@.len() == total_groups
            &&& forall|i: int|
                0 <= i < total_groups ==> Some(#[trigger] v@[i]@) == spec_derived_address(
                    spec_group_asset_seeds(round_pda@, (i + 1) as u64),
                    program_id@,
                )
        }),
        (r matches Err(e) ==> e is AddressDerivationFailed && exists|i: int|
            0 <= i < total_groups && (#[trigger] spec_derived_address(
                spec_group_asset_seeds(round_pda@, (i + 1) as u64),
                program_id@,
            )) is None),
{
    let n: usize = total_groups as usize;
    let mut out: Vec<Address> = Vec::new();
    let mut i: usize = 0;
    while i < n
        invariant
            program_id.wf(),
            n == total_groups,
            i <= n,
            out@.len() == i,
            forall|j: int|
                0 <= j < i ==> Some(#[trigger] out@[j]@) == spec_derived_address(
                    spec_group_asset_seeds(round_pda@, (j + 1) as u64),
                    program_id@,
                ),
        decreases n - i,
    {
        let id: u64 = (i as u64) + 1;
        match derive_group_asset_pda(program_id, round_pda, id) {
            Ok(a) => {
                out.push(a);
            },
            Err(e) => {
                proof {
                    assert(spec_derived_address(
                        spec_group_asset_seeds(round_pda@, (i as int + 1) as u64),
                        program_id@,
                    ) is None);
                }
                return Err(KeeperError::AddressDerivationFailed);
            },
        }
        i = i + 1;
    }
    Ok(out)
}

} // verus!
