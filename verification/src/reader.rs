//! Remote state reading, the decode half: validates a fetched account's
//! owner and header, then decodes its record. Batch reads are best-effort:
//! an account that is missing, foreign-owned or undecodable is dropped.

use crate::instructions::AssetRef;
use crate::pda::{spec_derived_address, spec_price_feed_seeds};
use crate::codec::{
    spec_read_asset, spec_read_config, spec_read_group_asset, spec_read_round, read_asset,
    read_config, read_group_asset, read_round,
};
use crate::types::{
    AssetAccount, AssetAccountV, ConfigAccount, GroupAssetAccount, KeeperError, RawAccount, RawAccountV,
    RoundAccount, RoundAccountV, Address,
};
use vstd::prelude::*;

verus! {

/// Every decodable account begins with this many header bytes; they are
/// discarded before the record is decoded.
pub const ACCOUNT_HEADER_LEN: usize = 8;

/// Decodes a round account fetched from the ledger: fails with
/// `OwnerMismatch` if the owner is not the expected program, with
/// `MalformedAccount` if the payload is shorter than the header, and with
/// `UndecodableAccount` if the bytes after the header are not a round
/// record.
pub fn decode_round_account(program_id: &Address, acc: &RawAccount) -> (r: Result<
    RoundAccount,
    KeeperError,
>)
    ensures
        (if acc.owner@ != program_id@ {
            r matches Err(e) && e is OwnerMismatch
        } else if acc.data@.len() < 8 {
            r matches Err(e) && e is MalformedAccount
        } else {
            match spec_read_round(acc.data@, 8) {
                Some((v, p)) => r matches Ok(rec) && rec@ == v,
                None => r matches Err(e) && e is UndecodableAccount,
            }
        }),
{
    if !acc.owner.same_as(program_id) {
        return Err(KeeperError::OwnerMismatch);
    }
    if acc.data.len() < ACCOUNT_HEADER_LEN {
        return Err(KeeperError::MalformedAccount);
    }
    match read_round(&acc.data, ACCOUNT_HEADER_LEN) {
        Some((rec, _)) => Ok(rec),
        None => Err(KeeperError::UndecodableAccount),
    }
}

/// Decodes the configuration account, with the same validation steps as
/// `decode_round_account`.
pub fn decode_config_account(program_id: &Address, acc: &RawAccount) -> (r: Result<
    ConfigAccount,
    KeeperError,
>)
    ensures
        (if acc.owner@ != program_id@ {
            r matches Err(e) && e is OwnerMismatch
        } else if acc.data@.len() < 8 {
            r matches Err(e) && e is MalformedAccount
        } else {
            match spec_read_config(acc.data@, 8) {
                Some((v, p)) => r matches Ok(rec) && rec@ == v,
                None => r matches Err(e) && e is UndecodableAccount,
            }
        }),
{
    if !acc.owner.same_as(program_id) {
        return Err(KeeperError::OwnerMismatch);
    }
    if acc.data.len() < ACCOUNT_HEADER_LEN {
        return Err(KeeperError::MalformedAccount);
    }
    match read_config(&acc.data, ACCOUNT_HEADER_LEN) {
        Some((rec, _)) => Ok(rec),
        None => Err(KeeperError::UndecodableAccount),
    }
}

/// Decodes an asset account, with the same validation steps as
/// `decode_round_account`.
pub fn decode_asset_account(program_id: &Address, acc: &RawAccount) -> (r: Result<
    AssetAccount,
    KeeperError,
>)
    ensures
        (if acc.owner@ != program_id@ {
            r matches Err(e) && e is OwnerMismatch
        } else if acc.data@.len() < 8 {
            r matches Err(e) && e is MalformedAccount
        } else {
            match spec_read_asset(acc.data@, 8) {
                Some((v, p)) => r matches Ok(rec) && rec@ == v,
                None => r matches Err(e) && e is UndecodableAccount,
            }
        }),
{
    if !acc.owner.same_as(program_id) {
        return Err(KeeperError::OwnerMismatch);
    }
    if acc.data.len() < ACCOUNT_HEADER_LEN {
        return Err(KeeperError::MalformedAccount);
    }
    match read_asset(&acc.data, ACCOUNT_HEADER_LEN) {
        Some((rec, _)) => Ok(rec),
        None => Err(KeeperError::UndecodableAccount),
    }
}

/// Decodes a group-progress account, with the same validation steps as
/// `decode_round_account`.
pub fn decode_group_asset_account(program_id: &Address, acc: &RawAccount) -> (r: Result<
    GroupAssetAccount,
    KeeperError,
>)
    ensures
        (if acc.owner@ != program_id@ {
            r matches Err(e) && e is OwnerMismatch
        } else if acc.data@.len() < 8 {
            r matches Err(e) && e is MalformedAccount
        } else {
            match spec_read_group_asset(acc.data@, 8) {
                Some((v, p)) => r matches Ok(rec) && rec == v,
                None => r matches Err(e) && e is UndecodableAccount,
            }
        }),
{
    if !acc.owner.same_as(program_id) {
        return Err(KeeperError::OwnerMismatch);
    }
    if acc.data.len() < ACCOUNT_HEADER_LEN {
        return Err(KeeperError::MalformedAccount);
    }
    match read_group_asset(&acc.data, ACCOUNT_HEADER_LEN) {
        Some((rec, _)) => Ok(rec),
        None => Err(KeeperError::UndecodableAccount),
    }
}

/// The asset record a fetched account decodes to, if it is owned by the
/// program, long enough, and decodable; `None` otherwise.
pub open spec fn spec_asset_of_raw(program: Seq<u8>, a: RawAccountV) -> Option<AssetAccountV> {
    if a.owner != program || a.data.len() < 8 {
        None
    } else {
        match spec_read_asset(a.data, 8) {
            Some((v, p)) => Some(v),
            None => None,
        }
    }
}

/// The fetched account decodes to an asset whose price-feed address
/// derives: the condition under which one slot contributes its pair.
pub open spec fn spec_asset_slot_ok(program: Seq<u8>, oracle: Seq<u8>, a: RawAccountV) -> bool {
    match spec_asset_of_raw(program, a) {
        Some(rec) => spec_derived_address(spec_price_feed_seeds(0, rec.feed_id), oracle) is Some,
        None => false,
    }
}

/// Pairs each asset account address with its price-feed address, decoded
/// from the asset's fetched record under feed shard zero: the auxiliary
/// inputs the price-capture operations carry. Succeeds exactly when every
/// fetched account decodes and its feed address derives; otherwise fails
/// with the decode error of the first bad account, or with the derivation
/// failure of its feed.
pub fn asset_refs_from_raw(
    program_id: &Address,
    push_oracle_program_id: &Address,
    asset_pdas: &Vec<Address>,
    raws: &Vec<RawAccount>,
) -> (r: Result<Vec<AssetRef>, KeeperError>)
    requires
        push_oracle_program_id.wf(),
        asset_pdas@.len() == raws@.len(),
    ensures
        (r is Ok) <==> (forall|i: int|
            0 <= i < raws@.len() ==> #[trigger] spec_asset_slot_ok(
                program_id@,
                push_oracle_program_id@,
                raws@[i]@,
            )),
        (r matches Ok(v) ==> {
            &&& v@.len() == raws@.len()
            &&& forall|i: int|
                0 <= i < v@.len() ==> {
                    &&& (#[trigger] v@[i]).asset@ == asset_pdas@[i]@
                    &&& spec_asset_of_raw(program_id@, raws@[i]@) matches Some(a) && Some(
                        v@[i].price_feed@,
                    ) == spec_derived_address(
                        spec_price_feed_seeds(0, a.feed_id),
                        push_oracle_program_id@,
                    )
                }
        }),
        (r matches Err(e) ==> (e is OwnerMismatch || e is MalformedAccount
            || e is UndecodableAccount || e is AddressDerivationFailed)),
{
    let mut out: Vec<AssetRef> = Vec::new();
    let mut i: usize = 0;
    while i < raws.len()
        invariant
            push_oracle_program_id.wf(),
            asset_pdas@.len() == raws@.len(),
            i <= raws@.len(),
            out@.len() == i,
            forall|j: int|
                0 <= j < i ==> #[trigger] spec_asset_slot_ok(
                    program_id@,
                    push_oracle_program_id@,
                    raws@[j]@,
                ),
            forall|j: int|
                0 <= j < i ==> {
                    &&& (#[trigger] out@[j]).asset@ == asset_pdas@[j]@
                    &&& spec_asset_of_raw(program_id@, raws@[j]@) matches Some(a) && Some(
                        out@[j].price_feed@,
                    ) == spec_derived_address(
                        spec_price_feed_seeds(0, a.feed_id),
                        push_oracle_program_id@,
                    )
                },
        decreases raws@.len() - i,
    {
        let asset = match decode_asset_account(program_id, &raws[i]) {
            Ok(a) => a,
            Err(e) => {
                proof {
                    assert(!spec_asset_slot_ok(
                        program_id@,
                        push_oracle_program_id@,
                        raws@[i as int]@,
                    ));
                }
                return Err(e);
            },
        };
        let feed = match crate::pda::derive_price_feed_pda(
            0,
            &asset.feed_id,
            push_oracle_program_id,
        ) {
            Ok(f) => f,
            Err(e) => {
                proof {
                    assert(!spec_asset_slot_ok(
                        program_id@,
                        push_oracle_program_id@,
                        raws@[i as int]@,
                    ));
                }
                return Err(e);
            },
        };
        out.push(AssetRef { asset: asset_pdas[i].dup(), price_feed: feed });
        i = i + 1;
    }
    Ok(out)
}

/// The round a fetched account decodes to, if it is owned by the program,
/// long enough, and decodable; `None` otherwise.
pub open spec fn spec_round_of_raw(program: Seq<u8>, a: RawAccountV) -> Option<RoundAccountV> {
    if a.owner != program || a.data.len() < 8 {
        None
    } else {
        match spec_read_round(a.data, 8) {
            Some((v, p)) => Some(v),
            None => None,
        }
    }
}

/// The rounds one fetched slot contributes: one round if it decodes,
/// nothing otherwise.
pub open spec fn spec_round_entry(program: Seq<u8>, x: Option<RawAccountV>) -> Seq<RoundAccountV> {
    match x {
        Some(a) => match spec_round_of_raw(program, a) {
            Some(v) => seq![v],
            None => Seq::empty(),
        },
        None => Seq::empty(),
    }
}

/// The rounds a batch of fetched slots decodes to, in fetch order, dropped
/// slots omitted.
pub open spec fn spec_decode_rounds(program: Seq<u8>, accs: Seq<Option<RawAccountV>>) -> Seq<
    RoundAccountV,
>
    decreases accs.len(),
{
    if accs.len() == 0 {
        Seq::empty()
    } else {
        spec_round_entry(program, accs[0]) + spec_decode_rounds(program, accs.skip(1))
    }
}

/// Appending one fetched slot appends its contribution.
proof fn lemma_decode_rounds_snoc(
    program: Seq<u8>,
    accs: Seq<Option<RawAccountV>>,
    x: Option<RawAccountV>,
)
    ensures
        spec_decode_rounds(program, accs.push(x)) == spec_decode_rounds(program, accs)
            + spec_round_entry(program, x),
    decreases accs.len(),
{
    if accs.len() == 0 {
        assert(accs.push(x)[0] == x);
        assert(accs.push(x).skip(1) =~= Seq::<Option<RawAccountV>>::empty());
        assert(spec_round_entry(program, x) + Seq::<RoundAccountV>::empty() =~= spec_round_entry(
            program,
            x,
        ));
        assert(spec_decode_rounds(program, Seq::<Option<RawAccountV>>::empty()) =~= Seq::<
            RoundAccountV,
        >::empty());
        assert(spec_decode_rounds(program, accs.push(x)) =~= spec_round_entry(program, x));
        assert(spec_decode_rounds(program, accs) + spec_round_entry(program, x)
            =~= spec_round_entry(program, x));
    } else {
        lemma_decode_rounds_snoc(program, accs.skip(1), x);
        assert(accs.push(x)[0] == accs[0]);
        assert(accs.push(x).skip(1) =~= accs.skip(1).push(x));
        assert(spec_round_entry(program, accs[0]) + (spec_decode_rounds(program, accs.skip(1))
            + spec_round_entry(program, x)) =~= (spec_round_entry(program, accs[0])
            + spec_decode_rounds(program, accs.skip(1))) + spec_round_entry(program, x));
    }
}

/// Decodes a batch of fetched round slots, best-effort per slot: a slot
/// whose account is missing, owned by another program, too short, or
/// undecodable is silently dropped; the result holds exactly the rounds
/// that decoded, in fetch order.
pub fn decode_round_accounts(program_id: &Address, accounts: &Vec<Option<RawAccount>>) -> (r: Vec<
    RoundAccount,
>)
    ensures
        r.deep_view() == spec_decode_rounds(program_id@, accounts.deep_view()),
{
    let mut out: Vec<RoundAccount> = Vec::new();
    let mut i: usize = 0;
    proof {
        assert(accounts.deep_view().take(0) =~= Seq::<Option<RawAccountV>>::empty());
        assert(out.deep_view() =~= spec_decode_rounds(
            program_id@,
            accounts.deep_view().take(0),
        ));
    }
    while i < accounts.len()
        invariant
            i <= accounts.len(),
            accounts.deep_view().len() == accounts@.len(),
            out.deep_view() == spec_decode_rounds(program_id@, accounts.deep_view().take(i as int)),
        decreases accounts.len() - i,
    {
        let ghost prefix = accounts.deep_view().take(i as int);
        let ghost slot = accounts.deep_view()[i as int];
        let ghost old_out = out.deep_view();
        match &accounts[i] {
            Some(acc) => {
                match decode_round_account(program_id, acc) {
                    Ok(rec) => {
                        let ghost recv = rec@;
                        out.push(rec);
                        proof {
                            assert(out.deep_view() =~= old_out + seq![recv]);
                            assert(spec_round_entry(program_id@, slot) =~= seq![recv]);
                        }
                    },
                    Err(_) => {
                        proof {
                            assert(spec_round_entry(program_id@, slot) =~= Seq::<
                                RoundAccountV,
                            >::empty());
                            assert(old_out + Seq::<RoundAccountV>::empty() =~= old_out);
                        }
                    },
                }
            },
            None => {
                proof {
                    assert(spec_round_entry(program_id@, slot) =~= Seq::<RoundAccountV>::empty());
                    assert(old_out + Seq::<RoundAccountV>::empty() =~= old_out);
                }
            },
        }
        proof {
            lemma_decode_rounds_snoc(program_id@, prefix, slot);
            assert(accounts.deep_view().take(i + 1 as int) =~= prefix.push(slot));
        }
        i = i + 1;
    }
    proof {
        assert(accounts.deep_view().take(accounts@.len() as int) =~= accounts.deep_view());
    }
    out
}

} // verus!
