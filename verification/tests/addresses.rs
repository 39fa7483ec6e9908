use keeper::feed::{get_price_feed_account, hex_decode};
use keeper::ops::sighash_global;
use keeper::pda::{
    derive_asset_pda, derive_asset_pdas, derive_bet_pda, derive_bet_pdas, derive_config_pda,
    derive_group_asset_pda, derive_group_asset_pdas, derive_round_pda, derive_round_vault_pda,
    derive_token_account_pda,
};
use keeper::types::{Address, KeeperError};
use sha2::Digest;
use solana_sdk::pubkey::Pubkey;

fn addr(b: u8) -> Address {
    Address::new(vec![b; 32])
}

fn pk(b: u8) -> Pubkey {
    Pubkey::new_from_array([b; 32])
}

#[test]
fn round_address_matches_the_ledger_derivation() {
    let got = derive_round_pda(&addr(7), 5).unwrap();
    let expected = Pubkey::find_program_address(&[b"round", &5u64.to_le_bytes()], &pk(7)).0;
    assert_eq!(got.bytes, expected.to_bytes().to_vec());
}

#[test]
fn config_address_matches_the_ledger_derivation() {
    let got = derive_config_pda(&addr(7)).unwrap();
    let expected = Pubkey::find_program_address(&[b"config"], &pk(7)).0;
    assert_eq!(got.bytes, expected.to_bytes().to_vec());
}

#[test]
fn vault_group_asset_and_bet_addresses_match() {
    let round = derive_round_pda(&addr(7), 1).unwrap();
    let round_pk = Pubkey::new_from_array(round.bytes.clone().try_into().unwrap());

    let vault = derive_round_vault_pda(&addr(7), &round).unwrap();
    let expected = Pubkey::find_program_address(&[b"vault", round_pk.as_ref()], &pk(7)).0;
    assert_eq!(vault.bytes, expected.to_bytes().to_vec());

    let group = derive_group_asset_pda(&addr(7), &round, 3).unwrap();
    let expected = Pubkey::find_program_address(
        &[b"group_asset", round_pk.as_ref(), &3u64.to_le_bytes()],
        &pk(7),
    )
    .0;
    assert_eq!(group.bytes, expected.to_bytes().to_vec());

    let group_pk = Pubkey::new_from_array(group.bytes.clone().try_into().unwrap());
    let asset = derive_asset_pda(&addr(7), &group, 2).unwrap();
    let expected =
        Pubkey::find_program_address(&[b"asset", group_pk.as_ref(), &2u64.to_le_bytes()], &pk(7)).0;
    assert_eq!(asset.bytes, expected.to_bytes().to_vec());

    let bet = derive_bet_pda(&addr(7), &round, 9).unwrap();
    let expected =
        Pubkey::find_program_address(&[b"bet", round_pk.as_ref(), &9u64.to_le_bytes()], &pk(7)).0;
    assert_eq!(bet.bytes, expected.to_bytes().to_vec());
}

#[test]
fn token_account_address_matches() {
    let got = derive_token_account_pda(&addr(1), &addr(2), &addr(3), &addr(4)).unwrap();
    let expected = Pubkey::find_program_address(
        &[pk(3).as_ref(), pk(1).as_ref(), pk(4).as_ref()],
        &pk(2),
    )
    .0;
    assert_eq!(got.bytes, expected.to_bytes().to_vec());
}

#[test]
fn address_lists_derive_every_id_in_order() {
    let round = derive_round_pda(&addr(7), 1).unwrap();
    let group = derive_group_asset_pda(&addr(7), &round, 1).unwrap();

    let assets = derive_asset_pdas(&addr(7), &group, 3).unwrap();
    assert_eq!(assets.len(), 3);
    for (i, a) in assets.iter().enumerate() {
        let one = derive_asset_pda(&addr(7), &group, (i as u64) + 1).unwrap();
        assert_eq!(a.bytes, one.bytes);
    }

    let bets = derive_bet_pdas(&addr(7), &round, 5, 7).unwrap();
    assert_eq!(bets.len(), 3);
    for (i, b) in bets.iter().enumerate() {
        let one = derive_bet_pda(&addr(7), &round, 5 + i as u64).unwrap();
        assert_eq!(b.bytes, one.bytes);
    }

    let groups = derive_group_asset_pdas(&addr(7), &round, 2).unwrap();
    assert_eq!(groups.len(), 2);
    for (i, g) in groups.iter().enumerate() {
        let one = derive_group_asset_pda(&addr(7), &round, (i as u64) + 1).unwrap();
        assert_eq!(g.bytes, one.bytes);
    }
}

#[test]
fn operation_identifier_matches_an_independent_digest() {
    let id = sighash_global("start_round");
    let mut h = sha2::Sha256::new();
    h.update(b"global:start_round");
    let digest = h.finalize();
    assert_eq!(id, digest[..8].to_vec());
}

#[test]
fn operation_identifiers_are_deterministic_and_distinct() {
    // The same name yields the same identifier on every computation.
    assert_eq!(sighash_global("start_round"), sighash_global("start_round"));
    // Identifiers of the catalog's distinct names are pairwise distinct.
    let names = [
        "start_round",
        "capture_start_price",
        "finalize_start_group_asset",
        "finalize_start_groups",
        "settle_single_round",
        "capture_end_price",
        "settle_group_round",
    ];
    let ids: Vec<Vec<u8>> = names.iter().map(|n| sighash_global(n)).collect();
    for i in 0..ids.len() {
        assert_eq!(ids[i].len(), 8);
        for j in 0..i {
            assert_ne!(ids[i], ids[j]);
        }
    }
}

#[test]
fn hex_decoding_round_trips_and_rejects() {
    assert_eq!(hex_decode("00ff10Ab").unwrap(), vec![0x00, 0xff, 0x10, 0xab]);
    assert_eq!(hex_decode("").unwrap(), Vec::<u8>::new());
    assert!(hex_decode("abc").is_none()); // odd length
    assert!(hex_decode("zz").is_none()); // not a digit
}

#[test]
fn price_feed_address_matches_and_strips_the_prefix() {
    let feed_bytes = [0x1Au8; 32];
    let mut hex = String::from("0x");
    for b in feed_bytes.iter() {
        hex.push_str(&format!("{:02x}", b));
    }
    let got = get_price_feed_account(0, &hex, &addr(9)).unwrap();
    let expected =
        Pubkey::find_program_address(&[&0u16.to_le_bytes(), &feed_bytes], &pk(9)).0;
    assert_eq!(got.bytes, expected.to_bytes().to_vec());

    // The same id without the prefix names the same account.
    let got2 = get_price_feed_account(0, &hex[2..], &addr(9)).unwrap();
    assert_eq!(got2.bytes, got.bytes);
}

#[test]
fn keypair_material_must_be_sixty_four_bytes() {
    let data: Vec<u8> = (0u8..64).collect();
    let seed = keeper::wallet::keypair_seed_from_bytes(&data).unwrap();
    assert_eq!(seed, (0u8..32).collect::<Vec<u8>>());
    assert!(matches!(
        keeper::wallet::keypair_seed_from_bytes(&vec![0u8; 63]),
        Err(KeeperError::InvalidKeypair)
    ));
    assert!(matches!(
        keeper::wallet::keypair_seed_from_bytes(&vec![0u8; 65]),
        Err(KeeperError::InvalidKeypair)
    ));
}

#[test]
fn price_feed_rejects_bad_ids() {
    assert!(matches!(
        get_price_feed_account(0, "0x1234", &addr(9)),
        Err(KeeperError::InvalidFeedId)
    ));
    assert!(matches!(
        get_price_feed_account(0, "not-hex", &addr(9)),
        Err(KeeperError::InvalidFeedId)
    ));
}
