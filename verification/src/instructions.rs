//! Operation-call builders: each assembles the instruction payload and the
//! exact account list of one remote operation. The fixed accounts come
//! first, then the operation's auxiliary inputs.

use crate::ops::{sighash_global, spec_op_id};
use crate::types::{AccountInput, Address, KeeperError, OperationCall};
use vstd::prelude::*;

verus! {

/// An asset together with its price-feed account, the auxiliary pair the
/// price-capture operations carry per asset.
#[derive(Debug)]
pub struct AssetRef {
    pub asset: Address,
    pub price_feed: Address,
}

/// The five fixed accounts of the group-phase operations: the signing
/// payer, the configuration and round accounts writable, the group
/// progress account writable, and the system program read-only.
pub open spec fn group_base_accounts(
    accounts: Seq<AccountInput>,
    payer: Seq<u8>,
    config_pda: Seq<u8>,
    round_pda: Seq<u8>,
    group_asset_pda: Seq<u8>,
    system_program: Seq<u8>,
) -> bool {
    &&& accounts.len() >= 5
    &&& accounts[0].address@ == payer && accounts[0].is_signer && accounts[0].is_writable
    &&& accounts[1].address@ == config_pda && !accounts[1].is_signer && accounts[1].is_writable
    &&& accounts[2].address@ == round_pda && !accounts[2].is_signer && accounts[2].is_writable
    &&& accounts[3].address@ == group_asset_pda && !accounts[3].is_signer
        && accounts[3].is_writable
    &&& accounts[4].address@ == system_program && !accounts[4].is_signer
        && !accounts[4].is_writable
}

/// Builds the round-start operation: payer, configuration, round, the
/// price feed (or the program id itself when no feed applies), and the
/// system program.
pub fn build_start_round_call(
    payer: &Address,
    config_pda: &Address,
    round_pda: &Address,
    gold_price_feed: Option<&Address>,
    system_program_id: &Address,
    program_id: &Address,
) -> (r: OperationCall)
    ensures
        r.program@ == program_id@,
        r.data@ == spec_op_id("start_round"@),
        r.accounts@.len() == 5,
        r.accounts@[0].address@ == payer@ && r.accounts@[0].is_signer
            && r.accounts@[0].is_writable,
        r.accounts@[1].address@ == config_pda@ && !r.accounts@[1].is_signer
            && r.accounts@[1].is_writable,
        r.accounts@[2].address@ == round_pda@ && !r.accounts@[2].is_signer
            && r.accounts@[2].is_writable,
        r.accounts@[3].address@ == (match gold_price_feed {
            Some(feed) => feed@,
            None => program_id@,
        }) && !r.accounts@[3].is_signer && !r.accounts@[3].is_writable,
        r.accounts@[4].address@ == system_program_id@ && !r.accounts@[4].is_signer
            && !r.accounts@[4].is_writable,
{
    let data = sighash_global("start_round");
    let feed: Address = match gold_price_feed {
        Some(feed) => feed.dup(),
        None => program_id.dup(),
    };
    let mut accounts: Vec<AccountInput> = Vec::new();
    accounts.push(AccountInput::writable_signer(payer.dup()));
    accounts.push(AccountInput::writable(config_pda.dup()));
    accounts.push(AccountInput::writable(round_pda.dup()));
    accounts.push(AccountInput::readonly(feed));
    accounts.push(AccountInput::readonly(system_program_id.dup()));
    OperationCall { program: program_id.dup(), data, accounts }
}

fn build_group_call(
    op_name: &str,
    payer: &Address,
    config_pda: &Address,
    round_pda: &Address,
    group_asset_pda: &Address,
    system_program_id: &Address,
    program_id: &Address,
) -> (r: OperationCall)
    ensures
        r.program@ == program_id@,
        r.data@ == spec_op_id(op_name@),
        r.accounts@.len() == 5,
        group_base_accounts(
            r.accounts@,
            payer@,
            config_pda@,
            round_pda@,
            group_asset_pda@,
            system_program_id@,
        ),
{
    let data = sighash_global(op_name);
    let mut accounts: Vec<AccountInput> = Vec::new();
    accounts.push(AccountInput::writable_signer(payer.dup()));
    accounts.push(AccountInput::writable(config_pda.dup()));
    accounts.push(AccountInput::writable(round_pda.dup()));
    accounts.push(AccountInput::writable(group_asset_pda.dup()));
    accounts.push(AccountInput::readonly(system_program_id.dup()));
    OperationCall { program: program_id.dup(), data, accounts }
}

/// Appends one writable account and one read-only account per asset: the
/// asset itself, then its price feed.
fn push_asset_pairs(accounts: &mut Vec<AccountInput>, assets: &Vec<AssetRef>)
    ensures
        final(accounts)@.len() == old(accounts)@.len() + 2 * assets@.len(),
        forall|j: int|
            0 <= j < old(accounts)@.len() ==> final(accounts)@[j] == #[trigger] old(accounts)@[j],
        forall|j: int|
            0 <= j < assets@.len() ==> {
                let a = final(accounts)@[old(accounts)@.len() + 2 * j];
                let f = final(accounts)@[old(accounts)@.len() + 2 * j + 1];
                &&& a.address@ == #[trigger] assets@[j].asset@ && !a.is_signer && a.is_writable
                &&& f.address@ == assets@[j].price_feed@ && !f.is_signer && !f.is_writable
            },
{
    let base = accounts.len();
    let mut i: usize = 0;
    while i < assets.len()
        invariant
            i <= assets@.len(),
            base == old(accounts)@.len(),
            accounts@.len() == base + 2 * i,
            forall|j: int| 0 <= j < base ==> accounts@[j] == #[trigger] old(accounts)@[j],
            forall|j: int|
                0 <= j < i ==> {
                    let a = accounts@[base + 2 * j];
                    let f = accounts@[base + 2 * j + 1];
                    &&& a.address@ == #[trigger] assets@[j].asset@ && !a.is_signer && a.is_writable
                    &&& f.address@ == assets@[j].price_feed@ && !f.is_signer && !f.is_writable
                },
        decreases assets@.len() - i,
    {
        let ghost pre = accounts@;
        accounts.push(AccountInput::writable(assets[i].asset.dup()));
        accounts.push(AccountInput::readonly(assets[i].price_feed.dup()));
        proof {
            assert forall|j: int|
                0 <= j < i + 1 implies {
                let a = accounts@[base + 2 * j];
                let f = accounts@[base + 2 * j + 1];
                &&& a.address@ == #[trigger] assets@[j].asset@ && !a.is_signer && a.is_writable
                &&& f.address@ == assets@[j].price_feed@ && !f.is_signer && !f.is_writable
            } by {
                if j < i {
                    assert(accounts@[base + 2 * j] == pre[base + 2 * j]);
                    assert(accounts@[base + 2 * j + 1] == pre[base + 2 * j + 1]);
                }
            }
        }
        i = i + 1;
    }
}

/// One auxiliary account: the given address, not signing, with the given
/// write flag.
pub open spec fn addr_entry(a: AccountInput, addr: Seq<u8>, writable: bool) -> bool {
    &&& a.address@ == addr
    &&& !a.is_signer
    &&& a.is_writable == writable
}

/// Appends one account per address, all with the same flags.
fn push_address_list(
    accounts: &mut Vec<AccountInput>,
    addresses: &Vec<Address>,
    writable: bool,
)
    ensures
        final(accounts)@.len() == old(accounts)@.len() + addresses@.len(),
        forall|j: int|
            0 <= j < old(accounts)@.len() ==> final(accounts)@[j] == #[trigger] old(accounts)@[j],
        forall|j: int|
            0 <= j < addresses@.len() ==> addr_entry(
                final(accounts)@[old(accounts)@.len() + j],
                #[trigger] addresses@[j]@,
                writable,
            ),
{
    let base = accounts.len();
    let mut i: usize = 0;
    while i < addresses.len()
        invariant
            i <= addresses@.len(),
            base == old(accounts)@.len(),
            accounts@.len() == base + i,
            forall|j: int| 0 <= j < base ==> accounts@[j] == #[trigger] old(accounts)@[j],
            forall|j: int|
                0 <= j < i ==> addr_entry(
                    accounts@[base + j],
                    #[trigger] addresses@[j]@,
                    writable,
                ),
        decreases addresses@.len() - i,
    {
        let ghost pre = accounts@;
        let entry = if writable {
            AccountInput::writable(addresses[i].dup())
        } else {
            AccountInput::readonly(addresses[i].dup())
        };
        assert(addr_entry(entry, addresses@[i as int]@, writable));
        accounts.push(entry);
        proof {
            assert forall|j: int|
                0 <= j < i + 1 implies addr_entry(
                accounts@[base + j],
                #[trigger] addresses@[j]@,
                writable,
            ) by {
                if j < i {
                    assert(accounts@[base + j] == pre[base + j]);
                } else {
                    assert(accounts@[base + j] == entry);
                }
            }
        }
        i = i + 1;
    }
}

/// Builds one group's start-price capture: the five fixed group accounts,
/// then per asset its account writable and its price feed read-only.
pub fn build_capture_start_price_call(
    payer: &Address,
    config_pda: &Address,
    round_pda: &Address,
    group_asset_pda: &Address,
    system_program_id: &Address,
    program_id: &Address,
    assets: &Vec<AssetRef>,
) -> (r: OperationCall)
    ensures
        r.program@ == program_id@,
        r.data@ == spec_op_id("capture_start_price"@),
        r.accounts@.len() == 5 + 2 * assets@.len(),
        group_base_accounts(
            r.accounts@,
            payer@,
            config_pda@,
            round_pda@,
            group_asset_pda@,
            system_program_id@,
        ),
        forall|j: int|
            0 <= j < assets@.len() ==> {
                let a = r.accounts@[5 + 2 * j];
                let f = r.accounts@[5 + 2 * j + 1];
                &&& a.address@ == #[trigger] assets@[j].asset@ && !a.is_signer && a.is_writable
                &&& f.address@ == assets@[j].price_feed@ && !f.is_signer && !f.is_writable
            },
{
    let mut call = build_group_call(
        "capture_start_price",
        payer,
        config_pda,
        round_pda,
        group_asset_pda,
        system_program_id,
        program_id,
    );
    let ghost pre = call.accounts@;
    push_asset_pairs(&mut call.accounts, assets);
    proof {
        assert(call.accounts@[0] == pre[0]);
        assert(call.accounts@[1] == pre[1]);
        assert(call.accounts@[2] == pre[2]);
        assert(call.accounts@[3] == pre[3]);
        assert(call.accounts@[4] == pre[4]);
    }
    call
}

/// Builds one group's end-price capture for one chunk of its assets: the
/// same shape as the start-price capture, under its own operation id.
pub fn build_capture_end_price_call(
    payer: &Address,
    config_pda: &Address,
    round_pda: &Address,
    group_asset_pda: &Address,
    system_program_id: &Address,
    program_id: &Address,
    assets: &Vec<AssetRef>,
) -> (r: OperationCall)
    ensures
        r.program@ == program_id@,
        r.data@ == spec_op_id("capture_end_price"@),
        r.accounts@.len() == 5 + 2 * assets@.len(),
        group_base_accounts(
            r.accounts@,
            payer@,
            config_pda@,
            round_pda@,
            group_asset_pda@,
            system_program_id@,
        ),
        forall|j: int|
            0 <= j < assets@.len() ==> {
                let a = r.accounts@[5 + 2 * j];
                let f = r.accounts@[5 + 2 * j + 1];
                &&& a.address@ == #[trigger] assets@[j].asset@ && !a.is_signer && a.is_writable
                &&& f.address@ == assets@[j].price_feed@ && !f.is_signer && !f.is_writable
            },
{
    let mut call = build_group_call(
        "capture_end_price",
        payer,
        config_pda,
        round_pda,
        group_asset_pda,
        system_program_id,
        program_id,
    );
    let ghost pre = call.accounts@;
    push_asset_pairs(&mut call.accounts, assets);
    proof {
        assert(call.accounts@[0] == pre[0]);
        assert(call.accounts@[1] == pre[1]);
        assert(call.accounts@[2] == pre[2]);
        assert(call.accounts@[3] == pre[3]);
        assert(call.accounts@[4] == pre[4]);
    }
    call
}

/// Builds one group's start-price finalization: the five fixed group
/// accounts, then every asset of the group writable.
pub fn build_finalize_start_group_assets_call(
    payer: &Address,
    config_pda: &Address,
    round_pda: &Address,
    group_asset_pda: &Address,
    system_program_id: &Address,
    program_id: &Address,
    asset_pdas: &Vec<Address>,
) -> (r: OperationCall)
    ensures
        r.program@ == program_id@,
        r.data@ == spec_op_id("finalize_start_group_asset"@),
        r.accounts@.len() == 5 + asset_pdas@.len(),
        group_base_accounts(
            r.accounts@,
            payer@,
            config_pda@,
            round_pda@,
            group_asset_pda@,
            system_program_id@,
        ),
        forall|j: int|
            0 <= j < asset_pdas@.len() ==> addr_entry(
                r.accounts@[5 + j],
                #[trigger] asset_pdas@[j]@,
                true,
            ),
{
    let mut call = build_group_call(
        "finalize_start_group_asset",
        payer,
        config_pda,
        round_pda,
        group_asset_pda,
        system_program_id,
        program_id,
    );
    let ghost pre = call.accounts@;
    push_address_list(&mut call.accounts, asset_pdas, true);
    proof {
        assert(call.accounts@[0] == pre[0]);
        assert(call.accounts@[1] == pre[1]);
        assert(call.accounts@[2] == pre[2]);
        assert(call.accounts@[3] == pre[3]);
        assert(call.accounts@[4] == pre[4]);
    }
    call
}

/// Builds the round's group finalization: payer, configuration, round and
/// the system program, then every group's progress account read-only.
pub fn build_finalize_start_groups_call(
    payer: &Address,
    config_pda: &Address,
    round_pda: &Address,
    system_program_id: &Address,
    program_id: &Address,
    group_asset_pdas: &Vec<Address>,
) -> (r: OperationCall)
    ensures
        r.program@ == program_id@,
        r.data@ == spec_op_id("finalize_start_groups"@),
        r.accounts@.len() == 4 + group_asset_pdas@.len(),
        r.accounts@[0].address@ == payer@ && r.accounts@[0].is_signer
            && r.accounts@[0].is_writable,
        r.accounts@[1].address@ == config_pda@ && !r.accounts@[1].is_signer
            && r.accounts@[1].is_writable,
        r.accounts@[2].address@ == round_pda@ && !r.accounts@[2].is_signer
            && r.accounts@[2].is_writable,
        r.accounts@[3].address@ == system_program_id@ && !r.accounts@[3].is_signer
            && !r.accounts@[3].is_writable,
        forall|j: int|
            0 <= j < group_asset_pdas@.len() ==> addr_entry(
                r.accounts@[4 + j],
                #[trigger] group_asset_pdas@[j]@,
                false,
            ),
{
    let data = sighash_global("finalize_start_groups");
    let mut accounts: Vec<AccountInput> = Vec::new();
    accounts.push(AccountInput::writable_signer(payer.dup()));
    accounts.push(AccountInput::writable(config_pda.dup()));
    accounts.push(AccountInput::writable(round_pda.dup()));
    accounts.push(AccountInput::readonly(system_program_id.dup()));
    let ghost pre = accounts@;
    push_address_list(&mut accounts, group_asset_pdas, false);
    proof {
        assert(accounts@[0] == pre[0]);
        assert(accounts@[1] == pre[1]);
        assert(accounts@[2] == pre[2]);
        assert(accounts@[3] == pre[3]);
    }
    OperationCall { program: program_id.dup(), data, accounts }
}

/// The eleven fixed accounts of the single-asset settlement.
pub open spec fn settle_base_accounts(
    accounts: Seq<AccountInput>,
    payer: Seq<u8>,
    config_pda: Seq<u8>,
    round_pda: Seq<u8>,
    round_vault: Seq<u8>,
    gold_price_feed: Seq<u8>,
    treasury: Seq<u8>,
    treasury_token_account: Seq<u8>,
    token_mint: Seq<u8>,
    token_program: Seq<u8>,
    associated_token_program: Seq<u8>,
    system_program: Seq<u8>,
) -> bool {
    &&& accounts.len() >= 11
    &&& accounts[0].address@ == payer && accounts[0].is_signer && accounts[0].is_writable
    &&& accounts[1].address@ == config_pda && !accounts[1].is_signer && accounts[1].is_writable
    &&& accounts[2].address@ == round_pda && !accounts[2].is_signer && accounts[2].is_writable
    &&& accounts[3].address@ == round_vault && !accounts[3].is_signer && accounts[3].is_writable
    &&& accounts[4].address@ == gold_price_feed && !accounts[4].is_signer
        && !accounts[4].is_writable
    &&& accounts[5].address@ == treasury && !accounts[5].is_signer && !accounts[5].is_writable
    &&& accounts[6].address@ == treasury_token_account && !accounts[6].is_signer
        && accounts[6].is_writable
    &&& accounts[7].address@ == token_mint && !accounts[7].is_signer && !accounts[7].is_writable
    &&& accounts[8].address@ == token_program && !accounts[8].is_signer
        && !accounts[8].is_writable
    &&& accounts[9].address@ == associated_token_program && !accounts[9].is_signer
        && !accounts[9].is_writable
    &&& accounts[10].address@ == system_program && !accounts[10].is_signer
        && !accounts[10].is_writable
}

/// Builds one single-asset settlement operation: the eleven fixed
/// accounts, then one chunk's bet accounts writable. A round with no bets
/// settles with an empty bet list.
pub fn build_settle_single_call(
    payer: &Address,
    config_pda: &Address,
    round_pda: &Address,
    round_vault: &Address,
    gold_price_feed: &Address,
    treasury: &Address,
    treasury_token_account: &Address,
    token_mint: &Address,
    token_program_id: &Address,
    associated_token_program_id: &Address,
    system_program_id: &Address,
    program_id: &Address,
    bet_pdas: &Vec<Address>,
) -> (r: OperationCall)
    ensures
        r.program@ == program_id@,
        r.data@ == spec_op_id("settle_single_round"@),
        r.accounts@.len() == 11 + bet_pdas@.len(),
        settle_base_accounts(
            r.accounts@,
            payer@,
            config_pda@,
            round_pda@,
            round_vault@,
            gold_price_feed@,
            treasury@,
            treasury_token_account@,
            token_mint@,
            token_program_id@,
            associated_token_program_id@,
            system_program_id@,
        ),
        forall|j: int|
            0 <= j < bet_pdas@.len() ==> addr_entry(
                r.accounts@[11 + j],
                #[trigger] bet_pdas@[j]@,
                true,
            ),
{
    let data = sighash_global("settle_single_round");
    let mut accounts: Vec<AccountInput> = Vec::new();
    accounts.push(AccountInput::writable_signer(payer.dup()));
    accounts.push(AccountInput::writable(config_pda.dup()));
    accounts.push(AccountInput::writable(round_pda.dup()));
    accounts.push(AccountInput::writable(round_vault.dup()));
    accounts.push(AccountInput::readonly(gold_price_feed.dup()));
    accounts.push(AccountInput::readonly(treasury.dup()));
    accounts.push(AccountInput::writable(treasury_token_account.dup()));
    accounts.push(AccountInput::readonly(token_mint.dup()));
    accounts.push(AccountInput::readonly(token_program_id.dup()));
    accounts.push(AccountInput::readonly(associated_token_program_id.dup()));
    accounts.push(AccountInput::readonly(system_program_id.dup()));
    let ghost pre = accounts@;
    push_address_list(&mut accounts, bet_pdas, true);
    proof {
        assert(accounts@[0] == pre[0]);
        assert(accounts@[1] == pre[1]);
        assert(accounts@[2] == pre[2]);
        assert(accounts@[3] == pre[3]);
        assert(accounts@[4] == pre[4]);
        assert(accounts@[5] == pre[5]);
        assert(accounts@[6] == pre[6]);
        assert(accounts@[7] == pre[7]);
        assert(accounts@[8] == pre[8]);
        assert(accounts@[9] == pre[9]);
        assert(accounts@[10] == pre[10]);
    }
    OperationCall { program: program_id.dup(), data, accounts }
}

/// The group-round settlement is not implemented: it fails at once with a
/// condition that is never retried and never mistaken for a transient
/// failure.
pub fn settle_group_round() -> (r: Result<OperationCall, KeeperError>)
    ensures
        r matches Err(e) && e is NotImplemented,
{
    Err(KeeperError::NotImplemented)
}

} // verus!
