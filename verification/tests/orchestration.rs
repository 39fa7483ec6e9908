use keeper::orchestrator::{
    capture_end_price, capture_start_price, finalize_start_group_assets, finalize_start_groups,
    needs_end_capture, needs_start_capture, needs_start_finalize, round_due_for_settle,
    round_due_for_start, round_scan_batches, settle_group, settle_single_round, start_group_round,
    KeeperOp,
};
use keeper::planner::ChunkRange;
use keeper::types::{
    Address, GroupAssetAccount, KeeperError, MarketType, RoundAccount, RoundStatus,
};

fn round(market_type: MarketType, status: RoundStatus) -> RoundAccount {
    RoundAccount {
        id: 1,
        start_time: 100,
        end_time: 200,
        bet_cutoff_time: 150,
        vault: Address::new(vec![9u8; 32]),
        vault_bump: 255,
        market_type,
        status,
        start_price: None,
        final_price: None,
        total_pool: 0,
        total_bets: 0,
        total_fee_collected: 0,
        total_reward_pool: 0,
        winners_weight: 0,
        settled_bets: 0,
        cancelled_bets: 0,
        winner_group_ids: vec![],
        total_groups: 0,
        captured_start_groups: 0,
        captured_end_groups: 0,
        created_at: 0,
        settled_at: None,
        bump: 254,
    }
}

fn group(total: u64, captured_start: u64, finalized_start: u64, captured_end: u64) -> GroupAssetAccount {
    GroupAssetAccount {
        total_assets: total,
        captured_start_price_assets: captured_start,
        finalized_start_price_assets: finalized_start,
        captured_end_price_assets: captured_end,
    }
}

#[test]
fn group_battle_start_sequence_end_to_end() {
    // Group 1 fully captured and finalized; group 2 untouched: the start
    // sequence holds exactly four operations and never touches group 1.
    let mut r = round(MarketType::GroupBattle, RoundStatus::Scheduled);
    r.total_groups = 2;
    let groups = vec![group(3, 3, 3, 0), group(2, 0, 0, 0)];
    let ops = start_group_round(&r, &groups);
    assert_eq!(
        ops,
        vec![
            KeeperOp::CaptureStartPrice { group_id: 2 },
            KeeperOp::FinalizeStartGroupAssets { group_id: 2 },
            KeeperOp::FinalizeStartGroups,
            KeeperOp::StartRound,
        ]
    );
}

#[test]
fn group_battle_start_is_idempotent_when_groups_captured() {
    let mut r = round(MarketType::GroupBattle, RoundStatus::Scheduled);
    r.total_groups = 2;
    r.captured_start_groups = 2;
    let groups = vec![group(3, 3, 3, 0), group(2, 2, 2, 0)];
    let ops = start_group_round(&r, &groups);
    assert_eq!(ops, vec![KeeperOp::StartRound]);
}

#[test]
fn capture_skips_complete_and_empty_groups() {
    let mut r = round(MarketType::GroupBattle, RoundStatus::Scheduled);
    r.total_groups = 3;
    let groups = vec![group(3, 3, 0, 0), group(0, 0, 0, 0), group(4, 1, 0, 0)];
    let ops = capture_start_price(&r, &groups).unwrap();
    assert_eq!(ops, vec![KeeperOp::CaptureStartPrice { group_id: 3 }]);
}

#[test]
fn finalize_skips_uncaptured_groups() {
    let mut r = round(MarketType::GroupBattle, RoundStatus::Scheduled);
    r.total_groups = 3;
    // group 1 captured but not finalized; group 2 not captured; group 3 done.
    let groups = vec![group(3, 3, 0, 0), group(4, 2, 0, 0), group(2, 2, 2, 0)];
    let ops = finalize_start_group_assets(&r, &groups).unwrap();
    assert_eq!(ops, vec![KeeperOp::FinalizeStartGroupAssets { group_id: 1 }]);
}

#[test]
fn group_operations_reject_wrong_market_type() {
    let r = round(MarketType::SingleAsset, RoundStatus::Scheduled);
    let groups: Vec<GroupAssetAccount> = vec![];
    assert!(matches!(
        capture_start_price(&r, &groups),
        Err(KeeperError::WrongMarketType)
    ));
    assert!(matches!(
        finalize_start_group_assets(&r, &groups),
        Err(KeeperError::WrongMarketType)
    ));
    assert!(matches!(
        finalize_start_groups(&r),
        Err(KeeperError::WrongMarketType)
    ));
    assert!(matches!(
        capture_end_price(&r, &groups, 10),
        Err(KeeperError::WrongMarketType)
    ));
}

#[test]
fn group_operations_require_a_group() {
    let r = round(MarketType::GroupBattle, RoundStatus::Scheduled);
    let groups: Vec<GroupAssetAccount> = vec![];
    assert!(matches!(capture_start_price(&r, &groups), Err(KeeperError::NoGroups)));
    assert!(matches!(finalize_start_groups(&r), Err(KeeperError::NoGroups)));
}

#[test]
fn finalize_groups_rejects_already_finalized() {
    let mut r = round(MarketType::GroupBattle, RoundStatus::Scheduled);
    r.total_groups = 2;
    r.captured_start_groups = 2;
    assert!(matches!(
        finalize_start_groups(&r),
        Err(KeeperError::GroupsAlreadyFinalized)
    ));
    r.captured_start_groups = 1;
    assert_eq!(finalize_start_groups(&r).unwrap(), KeeperOp::FinalizeStartGroups);
}

#[test]
fn single_asset_settles_in_three_chunks() {
    let mut r = round(MarketType::SingleAsset, RoundStatus::Active);
    r.total_bets = 250;
    let ops = settle_single_round(&r, 100);
    assert_eq!(
        ops,
        vec![
            KeeperOp::SettleSingleChunk { range: ChunkRange { start: 1, end: 100 } },
            KeeperOp::SettleSingleChunk { range: ChunkRange { start: 101, end: 200 } },
            KeeperOp::SettleSingleChunk { range: ChunkRange { start: 201, end: 250 } },
        ]
    );
}

#[test]
fn single_asset_with_no_bets_settles_directly() {
    let r = round(MarketType::SingleAsset, RoundStatus::Active);
    let ops = settle_single_round(&r, 100);
    assert_eq!(ops, vec![KeeperOp::SettleSingleDirect]);
}

#[test]
fn group_settle_captures_in_chunks_then_fails_fast() {
    let mut r = round(MarketType::GroupBattle, RoundStatus::Active);
    r.total_groups = 2;
    // group 1 already captured; group 2 has five assets, two auxiliary
    // inputs each, capacity 4: two assets per chunk, three chunks.
    let groups = vec![group(3, 0, 0, 3), group(5, 0, 0, 0)];
    let ops = settle_group(&r, &groups, 4).unwrap();
    assert_eq!(
        ops,
        vec![
            KeeperOp::CaptureEndPriceChunk { group_id: 2, range: ChunkRange { start: 1, end: 2 } },
            KeeperOp::CaptureEndPriceChunk { group_id: 2, range: ChunkRange { start: 3, end: 4 } },
            KeeperOp::CaptureEndPriceChunk { group_id: 2, range: ChunkRange { start: 5, end: 5 } },
            KeeperOp::SettleGroupRound,
        ]
    );
}

#[test]
fn settle_group_round_is_not_implemented() {
    assert!(matches!(
        keeper::instructions::settle_group_round(),
        Err(KeeperError::NotImplemented)
    ));
}

#[test]
fn skip_rules_follow_the_counters() {
    assert!(!needs_start_capture(&group(0, 0, 0, 0)));
    assert!(needs_start_capture(&group(3, 2, 0, 0)));
    assert!(!needs_start_capture(&group(3, 3, 0, 0)));
    assert!(!needs_start_finalize(&group(3, 2, 0, 0)));
    assert!(needs_start_finalize(&group(3, 3, 2, 0)));
    assert!(!needs_start_finalize(&group(3, 3, 3, 0)));
    assert!(needs_end_capture(&group(3, 3, 3, 1)));
    assert!(!needs_end_capture(&group(3, 3, 3, 3)));
}

#[test]
fn due_filters_check_status_and_time() {
    let r = round(MarketType::SingleAsset, RoundStatus::Scheduled);
    assert!(round_due_for_start(&r, 100));
    assert!(!round_due_for_start(&r, 99));
    assert!(!round_due_for_settle(&r, 1000));
    let r = round(MarketType::SingleAsset, RoundStatus::Active);
    assert!(!round_due_for_start(&r, 1000));
    assert!(round_due_for_settle(&r, 200));
    assert!(!round_due_for_settle(&r, 199));
    let r = round(MarketType::SingleAsset, RoundStatus::PendingSettlement);
    assert!(round_due_for_settle(&r, 201));
    let r = round(MarketType::SingleAsset, RoundStatus::Ended);
    assert!(!round_due_for_settle(&r, 1000));
}

#[test]
fn scan_batches_cover_the_counter() {
    let batches = round_scan_batches(250);
    assert_eq!(
        batches,
        vec![
            ChunkRange { start: 1, end: 100 },
            ChunkRange { start: 101, end: 200 },
            ChunkRange { start: 201, end: 250 },
        ]
    );
    assert!(round_scan_batches(0).is_empty());
}
