use keeper::reader::{
    decode_config_account, decode_group_asset_account, decode_round_account, decode_round_accounts,
};
use keeper::types::{Address, KeeperError, MarketType, ProgramStatus, RawAccount, RoundStatus};

fn push_opt_u64(out: &mut Vec<u8>, v: Option<u64>) {
    match v {
        Some(x) => {
            out.push(1);
            out.extend_from_slice(&x.to_le_bytes());
        }
        None => out.push(0),
    }
}

fn push_opt_i64(out: &mut Vec<u8>, v: Option<i64>) {
    match v {
        Some(x) => {
            out.push(1);
            out.extend_from_slice(&x.to_le_bytes());
        }
        None => out.push(0),
    }
}

/// The byte layout of a round record, after the 8-byte header.
#[allow(clippy::too_many_arguments)]
fn encode_round(
    id: u64,
    start_time: i64,
    end_time: i64,
    market_tag: u8,
    status_tag: u8,
    total_bets: u64,
    winner_group_ids: &[u64],
    total_groups: u64,
    captured_start_groups: u64,
) -> Vec<u8> {
    let mut d: Vec<u8> = vec![0xAA; 8]; // discarded header
    d.extend_from_slice(&id.to_le_bytes());
    d.extend_from_slice(&start_time.to_le_bytes());
    d.extend_from_slice(&end_time.to_le_bytes());
    d.extend_from_slice(&77i64.to_le_bytes()); // bet cutoff time
    d.extend_from_slice(&[5u8; 32]); // vault
    d.push(255); // vault bump
    d.push(market_tag);
    d.push(status_tag);
    push_opt_u64(&mut d, Some(1234)); // start price
    push_opt_u64(&mut d, None); // final price
    d.extend_from_slice(&10u64.to_le_bytes()); // total pool
    d.extend_from_slice(&total_bets.to_le_bytes());
    d.extend_from_slice(&11u64.to_le_bytes()); // total fee collected
    d.extend_from_slice(&12u64.to_le_bytes()); // total reward pool
    d.extend_from_slice(&13u64.to_le_bytes()); // winners weight
    d.extend_from_slice(&14u64.to_le_bytes()); // settled bets
    d.extend_from_slice(&15u64.to_le_bytes()); // cancelled bets
    d.extend_from_slice(&(winner_group_ids.len() as u32).to_le_bytes());
    for w in winner_group_ids {
        d.extend_from_slice(&w.to_le_bytes());
    }
    d.extend_from_slice(&total_groups.to_le_bytes());
    d.extend_from_slice(&captured_start_groups.to_le_bytes());
    d.extend_from_slice(&16u64.to_le_bytes()); // captured end groups
    d.extend_from_slice(&99i64.to_le_bytes()); // created at
    push_opt_i64(&mut d, Some(-3)); // settled at
    d.push(250); // bump
    d
}

fn program() -> Address {
    Address::new(vec![7u8; 32])
}

#[test]
fn round_record_decodes_field_for_field() {
    let data = encode_round(42, -100, 2000, 1, 3, 250, &[2, 5], 4, 3);
    let acc = RawAccount { owner: program(), data };
    let r = decode_round_account(&program(), &acc).unwrap();
    assert_eq!(r.id, 42);
    assert_eq!(r.start_time, -100);
    assert_eq!(r.end_time, 2000);
    assert_eq!(r.bet_cutoff_time, 77);
    assert_eq!(r.vault.bytes, vec![5u8; 32]);
    assert_eq!(r.vault_bump, 255);
    assert_eq!(r.market_type, MarketType::GroupBattle);
    assert_eq!(r.status, RoundStatus::PendingSettlement);
    assert_eq!(r.start_price, Some(1234));
    assert_eq!(r.final_price, None);
    assert_eq!(r.total_pool, 10);
    assert_eq!(r.total_bets, 250);
    assert_eq!(r.winner_group_ids, vec![2, 5]);
    assert_eq!(r.total_groups, 4);
    assert_eq!(r.captured_start_groups, 3);
    assert_eq!(r.captured_end_groups, 16);
    assert_eq!(r.created_at, 99);
    assert_eq!(r.settled_at, Some(-3));
    assert_eq!(r.bump, 250);
}

#[test]
fn round_decode_rejects_bad_accounts() {
    let good = encode_round(1, 0, 0, 0, 0, 0, &[], 0, 0);
    let foreign = RawAccount { owner: Address::new(vec![8u8; 32]), data: good.clone() };
    assert!(matches!(
        decode_round_account(&program(), &foreign),
        Err(KeeperError::OwnerMismatch)
    ));
    let short = RawAccount { owner: program(), data: vec![1, 2, 3] };
    assert!(matches!(
        decode_round_account(&program(), &short),
        Err(KeeperError::MalformedAccount)
    ));
    let mut bad_tag = good.clone();
    // the market-type tag sits after id, three times, the cutoff, the
    // vault and its bump: 8 + 8 + 8 + 8 + 8 + 32 + 1
    bad_tag[8 + 8 + 8 + 8 + 8 + 32 + 1] = 9;
    let undecodable = RawAccount { owner: program(), data: bad_tag };
    assert!(matches!(
        decode_round_account(&program(), &undecodable),
        Err(KeeperError::UndecodableAccount)
    ));
    let truncated = RawAccount { owner: program(), data: good[..40].to_vec() };
    assert!(matches!(
        decode_round_account(&program(), &truncated),
        Err(KeeperError::UndecodableAccount)
    ));
}

#[test]
fn batch_decode_drops_bad_slots_silently() {
    let good1 = encode_round(1, 0, 0, 0, 0, 0, &[], 0, 0);
    let good2 = encode_round(2, 0, 0, 0, 1, 9, &[], 0, 0);
    let slots = vec![
        Some(RawAccount { owner: program(), data: good1 }),
        None,
        Some(RawAccount { owner: Address::new(vec![1u8; 32]), data: good2.clone() }),
        Some(RawAccount { owner: program(), data: vec![0; 4] }),
        Some(RawAccount { owner: program(), data: good2 }),
    ];
    let rounds = decode_round_accounts(&program(), &slots);
    assert_eq!(rounds.len(), 2);
    assert_eq!(rounds[0].id, 1);
    assert_eq!(rounds[1].id, 2);
    assert_eq!(rounds[1].status, RoundStatus::Active);
}

#[test]
fn group_progress_decodes_its_four_counters() {
    let mut d: Vec<u8> = vec![0; 8];
    d.extend_from_slice(&4u64.to_le_bytes());
    d.extend_from_slice(&3u64.to_le_bytes());
    d.extend_from_slice(&2u64.to_le_bytes());
    d.extend_from_slice(&1u64.to_le_bytes());
    let acc = RawAccount { owner: program(), data: d };
    let g = decode_group_asset_account(&program(), &acc).unwrap();
    assert_eq!(g.total_assets, 4);
    assert_eq!(g.captured_start_price_assets, 3);
    assert_eq!(g.finalized_start_price_assets, 2);
    assert_eq!(g.captured_end_price_assets, 1);
}

#[test]
fn config_record_decodes_field_for_field() {
    let mut d: Vec<u8> = vec![0; 8];
    d.extend_from_slice(&[1u8; 32]); // admin
    d.extend_from_slice(&2u32.to_le_bytes()); // two keeper authorities
    d.extend_from_slice(&[2u8; 32]);
    d.extend_from_slice(&[3u8; 32]);
    d.extend_from_slice(&[4u8; 32]); // token mint
    d.extend_from_slice(&[5u8; 32]); // treasury
    d.extend_from_slice(&[6u8; 32]); // single-asset feed id
    d.extend_from_slice(&60u64.to_le_bytes()); // max price update age
    d.extend_from_slice(&250u16.to_le_bytes()); // single-asset fee bps
    d.extend_from_slice(&300u16.to_le_bytes()); // group-battle fee bps
    d.extend_from_slice(&1000u64.to_le_bytes()); // min bet
    d.extend_from_slice(&(-30i64).to_le_bytes()); // bet cutoff window
    d.extend_from_slice(&100u16.to_le_bytes()); // min time factor
    d.extend_from_slice(&200u16.to_le_bytes()); // max time factor
    d.extend_from_slice(&150u16.to_le_bytes()); // default direction factor
    d.push(1); // status: paused
    d.extend_from_slice(&77u64.to_le_bytes()); // current round counter
    d.push(3); // version
    d.push(254); // bump
    let acc = RawAccount { owner: program(), data: d };
    let c = decode_config_account(&program(), &acc).unwrap();
    assert_eq!(c.admin.bytes, vec![1u8; 32]);
    assert_eq!(c.keeper_authorities.len(), 2);
    assert_eq!(c.keeper_authorities[0].bytes, vec![2u8; 32]);
    assert_eq!(c.keeper_authorities[1].bytes, vec![3u8; 32]);
    assert_eq!(c.token_mint.bytes, vec![4u8; 32]);
    assert_eq!(c.treasury.bytes, vec![5u8; 32]);
    assert_eq!(c.single_asset_feed_id, vec![6u8; 32]);
    assert_eq!(c.max_price_update_age_secs, 60);
    assert_eq!(c.fee_single_asset_bps, 250);
    assert_eq!(c.fee_group_battle_bps, 300);
    assert_eq!(c.min_bet_amount, 1000);
    assert_eq!(c.bet_cutoff_window_secs, -30);
    assert_eq!(c.min_time_factor_bps, 100);
    assert_eq!(c.max_time_factor_bps, 200);
    assert_eq!(c.default_direction_factor_bps, 150);
    assert_eq!(c.status, ProgramStatus::Paused);
    assert_eq!(c.current_round_counter, 77);
    assert_eq!(c.version, 3);
    assert_eq!(c.bump, 254);
}

#[test]
fn trailing_bytes_after_a_record_are_ignored() {
    let mut data = encode_round(9, 0, 0, 0, 0, 0, &[], 0, 0);
    data.extend_from_slice(&[1, 2, 3, 4]);
    let acc = RawAccount { owner: program(), data };
    let r = decode_round_account(&program(), &acc).unwrap();
    assert_eq!(r.id, 9);
}
