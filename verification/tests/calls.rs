use keeper::instructions::{
    build_capture_end_price_call, build_capture_start_price_call, build_finalize_start_group_assets_call,
    build_finalize_start_groups_call, build_settle_single_call, build_start_round_call, AssetRef,
};
use keeper::ops::sighash_global;
use keeper::reader::asset_refs_from_raw;
use keeper::types::{Address, RawAccount};

fn addr(b: u8) -> Address {
    Address::new(vec![b; 32])
}

#[test]
fn start_round_call_carries_five_accounts_in_order() {
    let call = build_start_round_call(&addr(1), &addr(2), &addr(3), Some(&addr(4)), &addr(5), &addr(6));
    assert_eq!(call.program.bytes, vec![6u8; 32]);
    assert_eq!(call.data, sighash_global("start_round"));
    assert_eq!(call.accounts.len(), 5);
    assert_eq!(call.accounts[0].address.bytes, vec![1u8; 32]);
    assert!(call.accounts[0].is_signer && call.accounts[0].is_writable);
    assert_eq!(call.accounts[1].address.bytes, vec![2u8; 32]);
    assert_eq!(call.accounts[2].address.bytes, vec![3u8; 32]);
    assert_eq!(call.accounts[3].address.bytes, vec![4u8; 32]);
    assert!(!call.accounts[3].is_writable);
    assert_eq!(call.accounts[4].address.bytes, vec![5u8; 32]);
}

#[test]
fn start_round_without_a_feed_uses_the_program_id() {
    let call = build_start_round_call(&addr(1), &addr(2), &addr(3), None, &addr(5), &addr(6));
    assert_eq!(call.accounts[3].address.bytes, vec![6u8; 32]);
}

#[test]
fn capture_calls_pair_each_asset_with_its_feed() {
    let assets = vec![
        AssetRef { asset: addr(10), price_feed: addr(11) },
        AssetRef { asset: addr(12), price_feed: addr(13) },
    ];
    let call = build_capture_start_price_call(
        &addr(1), &addr(2), &addr(3), &addr(4), &addr(5), &addr(6), &assets,
    );
    assert_eq!(call.data, sighash_global("capture_start_price"));
    assert_eq!(call.accounts.len(), 9);
    assert_eq!(call.accounts[5].address.bytes, vec![10u8; 32]);
    assert!(call.accounts[5].is_writable);
    assert_eq!(call.accounts[6].address.bytes, vec![11u8; 32]);
    assert!(!call.accounts[6].is_writable);
    assert_eq!(call.accounts[7].address.bytes, vec![12u8; 32]);
    assert_eq!(call.accounts[8].address.bytes, vec![13u8; 32]);

    let end = build_capture_end_price_call(
        &addr(1), &addr(2), &addr(3), &addr(4), &addr(5), &addr(6), &assets,
    );
    assert_eq!(end.data, sighash_global("capture_end_price"));
    assert_eq!(end.accounts.len(), 9);
}

#[test]
fn finalize_calls_carry_their_lists() {
    let asset_pdas = vec![addr(10), addr(11), addr(12)];
    let call = build_finalize_start_group_assets_call(
        &addr(1), &addr(2), &addr(3), &addr(4), &addr(5), &addr(6), &asset_pdas,
    );
    assert_eq!(call.data, sighash_global("finalize_start_group_asset"));
    assert_eq!(call.accounts.len(), 8);
    for (k, a) in asset_pdas.iter().enumerate() {
        assert_eq!(call.accounts[5 + k].address.bytes, a.bytes);
        assert!(call.accounts[5 + k].is_writable);
    }

    let group_pdas = vec![addr(20), addr(21)];
    let call = build_finalize_start_groups_call(
        &addr(1), &addr(2), &addr(3), &addr(5), &addr(6), &group_pdas,
    );
    assert_eq!(call.data, sighash_global("finalize_start_groups"));
    assert_eq!(call.accounts.len(), 6);
    assert_eq!(call.accounts[4].address.bytes, vec![20u8; 32]);
    assert!(!call.accounts[4].is_writable);
    assert_eq!(call.accounts[5].address.bytes, vec![21u8; 32]);
}

#[test]
fn settle_call_carries_eleven_fixed_accounts_then_bets() {
    let bets = vec![addr(30), addr(31)];
    let call = build_settle_single_call(
        &addr(1), &addr(2), &addr(3), &addr(4), &addr(5), &addr(6), &addr(7), &addr(8), &addr(9),
        &addr(10), &addr(11), &addr(12), &bets,
    );
    assert_eq!(call.program.bytes, vec![12u8; 32]);
    assert_eq!(call.data, sighash_global("settle_single_round"));
    assert_eq!(call.accounts.len(), 13);
    for k in 0..11 {
        assert_eq!(call.accounts[k].address.bytes, vec![(k + 1) as u8; 32]);
    }
    assert_eq!(call.accounts[11].address.bytes, vec![30u8; 32]);
    assert!(call.accounts[11].is_writable);
    assert_eq!(call.accounts[12].address.bytes, vec![31u8; 32]);
}

fn encode_asset(feed_id: [u8; 32]) -> Vec<u8> {
    let mut d: Vec<u8> = vec![0; 8];
    d.extend_from_slice(&1u64.to_le_bytes()); // id
    d.extend_from_slice(&[2u8; 32]); // group
    d.extend_from_slice(&[3u8; 32]); // round
    d.extend_from_slice(&feed_id);
    d.extend_from_slice(b"GOLDUSD\0"); // symbol, eight bytes
    d.push(0); // start price: absent
    d.push(0); // final price: absent
    d.push(0); // growth rate: absent
    d.extend_from_slice(&7i64.to_le_bytes()); // created at
    d.push(0); // started price at: absent
    d.push(0); // finalized at: absent
    d.push(255); // bump
    d
}

#[test]
fn asset_refs_pair_addresses_with_decoded_feeds() {
    let program = addr(7);
    let oracle = addr(9);
    let feed_id = [0x42u8; 32];
    let raws = vec![RawAccount { owner: addr(7), data: encode_asset(feed_id) }];
    let asset_pdas = vec![addr(50)];
    let refs = asset_refs_from_raw(&program, &oracle, &asset_pdas, &raws).unwrap();
    assert_eq!(refs.len(), 1);
    assert_eq!(refs[0].asset.bytes, vec![50u8; 32]);
    let expected = solana_sdk::pubkey::Pubkey::find_program_address(
        &[&0u16.to_le_bytes(), &feed_id],
        &solana_sdk::pubkey::Pubkey::new_from_array([9u8; 32]),
    )
    .0;
    assert_eq!(refs[0].price_feed.bytes, expected.to_bytes().to_vec());
}

#[test]
fn asset_refs_propagate_the_first_decode_error() {
    let program = addr(7);
    let oracle = addr(9);
    let raws = vec![RawAccount { owner: addr(8), data: encode_asset([0u8; 32]) }];
    let asset_pdas = vec![addr(50)];
    assert!(matches!(
        asset_refs_from_raw(&program, &oracle, &asset_pdas, &raws),
        Err(keeper::types::KeeperError::OwnerMismatch)
    ));
}
