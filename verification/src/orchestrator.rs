//! Phase orchestrators: resumable state machines that decide, from the
//! progress counters read off the ledger, which remote operations a round
//! still needs. The orchestrator holds no state of its own between ticks;
//! every decision is recomputed from the counters, which is what makes a
//! crashed or repeated pass harmless.

use crate::planner::{plan, spec_plan, ChunkRange};
use crate::types::{GroupAssetAccount, KeeperError, MarketType, RoundAccount, RoundStatus};
use vstd::prelude::*;

verus! {

/// One remote operation the orchestrator decides to issue. Group ids are
/// one-based; ranges are inclusive chunks of one-based item ids.
#[derive(Clone, Copy, Debug, PartialEq, Eq, Structural)]
pub enum KeeperOp {
    /// Capture the start price of every asset of this group.
    CaptureStartPrice { group_id: u64 },
    /// Finalize the start prices of every asset of this group.
    FinalizeStartGroupAssets { group_id: u64 },
    /// Finalize the round's groups, all of them as auxiliary input.
    FinalizeStartGroups,
    /// Start the round.
    StartRound,
    /// Settle a single-asset round that has no bets.
    SettleSingleDirect,
    /// Settle one chunk of a single-asset round's bets.
    SettleSingleChunk { range: ChunkRange },
    /// Capture the end price of one chunk of a group's assets.
    CaptureEndPriceChunk { group_id: u64, range: ChunkRange },
    /// Settle a group round; this path is not implemented and fails fast.
    SettleGroupRound,
}

/// A group still needs its start prices captured: it has assets and the
/// capture counter has not reached the asset count.
pub open spec fn spec_needs_start_capture(g: GroupAssetAccount) -> bool {
    g.total_assets >= 1 && g.captured_start_price_assets != g.total_assets
}

/// A group is ready for, and still needs, start-price finalization: it has
/// assets, every asset's start price is captured, and the finalize counter
/// has not reached the asset count.
pub open spec fn spec_needs_start_finalize(g: GroupAssetAccount) -> bool {
    g.total_assets >= 1 && g.captured_start_price_assets == g.total_assets
        && g.finalized_start_price_assets != g.total_assets
}

/// A group still needs its end prices captured.
pub open spec fn spec_needs_end_capture(g: GroupAssetAccount) -> bool {
    g.total_assets >= 1 && g.captured_end_price_assets != g.total_assets
}

/// The resumability oracle for the start-capture step.
pub fn needs_start_capture(g: &GroupAssetAccount) -> (r: bool)
    ensures
        r == spec_needs_start_capture(*g),
{
    g.total_assets >= 1 && g.captured_start_price_assets != g.total_assets
}

/// The resumability oracle for the start-finalize step.
pub fn needs_start_finalize(g: &GroupAssetAccount) -> (r: bool)
    ensures
        r == spec_needs_start_finalize(*g),
{
    g.total_assets >= 1 && g.captured_start_price_assets == g.total_assets
        && g.finalized_start_price_assets != g.total_assets
}

/// The resumability oracle for the end-capture step.
pub fn needs_end_capture(g: &GroupAssetAccount) -> (r: bool)
    ensures
        r == spec_needs_end_capture(*g),
{
    g.total_assets >= 1 && g.captured_end_price_assets != g.total_assets
}

/// The start-capture operations of the groups, one per group that needs
/// capturing, in ascending group id from `gid`.
pub open spec fn spec_capture_start_ops(groups: Seq<GroupAssetAccount>, gid: int) -> Seq<KeeperOp>
    decreases groups.len(),
{
    if groups.len() == 0 {
        Seq::empty()
    } else {
        (if spec_needs_start_capture(groups[0]) {
            seq![KeeperOp::CaptureStartPrice { group_id: gid as u64 }]
        } else {
            Seq::empty()
        }) + spec_capture_start_ops(groups.skip(1), gid + 1)
    }
}

/// The start-finalize operations of the groups, one per group that needs
/// finalizing, in ascending group id from `gid`.
pub open spec fn spec_finalize_start_ops(groups: Seq<GroupAssetAccount>, gid: int) -> Seq<KeeperOp>
    decreases groups.len(),
{
    if groups.len() == 0 {
        Seq::empty()
    } else {
        (if spec_needs_start_finalize(groups[0]) {
            seq![KeeperOp::FinalizeStartGroupAssets { group_id: gid as u64 }]
        } else {
            Seq::empty()
        }) + spec_finalize_start_ops(groups.skip(1), gid + 1)
    }
}

/// Decides the start-price captures of a group-battle round: one capture
/// operation per group that has assets and is not already fully captured,
/// in ascending group order. Fails fast, before any remote call, on a
/// wrong market type or a round with no groups.
pub fn capture_start_price(round: &RoundAccount, groups: &Vec<GroupAssetAccount>) -> (r: Result<
    Vec<KeeperOp>,
    KeeperError,
>)
    requires
        groups@.len() == round.total_groups,
    ensures
        !(round.market_type is GroupBattle) ==> (r matches Err(e) && e is WrongMarketType),
        round.market_type is GroupBattle && round.total_groups < 1 ==> (r matches Err(e)
            && e is NoGroups),
        round.market_type is GroupBattle && round.total_groups >= 1 ==> (r matches Ok(ops)
            && ops@ == spec_capture_start_ops(groups@, 1)),
{
    if !matches!(round.market_type, MarketType::GroupBattle) {
        return Err(KeeperError::WrongMarketType);
    }
    if round.total_groups < 1 {
        return Err(KeeperError::NoGroups);
    }
    let mut ops: Vec<KeeperOp> = Vec::new();
    let mut i: usize = 0;
    proof {
        assert(groups@.skip(0) =~= groups@);
        assert(Seq::<KeeperOp>::empty() + spec_capture_start_ops(groups@, 1)
            =~= spec_capture_start_ops(groups@, 1));
    }
    while i < groups.len()
        invariant
            i <= groups@.len(),
            groups@.len() <= u64::MAX,
            spec_capture_start_ops(groups@, 1) == ops@ + spec_capture_start_ops(
                groups@.skip(i as int),
                1 + i as int,
            ),
        decreases groups@.len() - i,
    {
        let ghost old_ops = ops@;
        let gid: u64 = (i as u64) + 1;
        if needs_start_capture(&groups[i]) {
            ops.push(KeeperOp::CaptureStartPrice { group_id: gid });
        }
        proof {
            assert(groups@.skip(i as int)[0] == groups@[i as int]);
            assert(groups@.skip(i as int).skip(1) =~= groups@.skip(i + 1));
            if spec_needs_start_capture(groups@[i as int]) {
                assert(old_ops + (seq![KeeperOp::CaptureStartPrice { group_id: gid }]
                    + spec_capture_start_ops(groups@.skip(i + 1), 2 + i as int)) =~= ops@
                    + spec_capture_start_ops(groups@.skip(i + 1), 2 + i as int));
            } else {
                assert(old_ops + (Seq::<KeeperOp>::empty() + spec_capture_start_ops(
                    groups@.skip(i + 1),
                    2 + i as int,
                )) =~= ops@ + spec_capture_start_ops(groups@.skip(i + 1), 2 + i as int));
            }
        }
        i = i + 1;
    }
    proof {
        assert(spec_capture_start_ops(groups@.skip(groups@.len() as int), 1 + groups@.len() as int)
            =~= Seq::<KeeperOp>::empty());
        assert(ops@ + Seq::<KeeperOp>::empty() =~= ops@);
    }
    Ok(ops)
}

/// Decides the start-price finalizations of a group-battle round: one
/// finalize operation per group that has assets, is fully captured, and is
/// not already fully finalized, in ascending group order. Fails fast on a
/// wrong market type or a round with no groups.
pub fn finalize_start_group_assets(round: &RoundAccount, groups: &Vec<GroupAssetAccount>) -> (r:
    Result<Vec<KeeperOp>, KeeperError>)
    requires
        groups@.len() == round.total_groups,
    ensures
        !(round.market_type is GroupBattle) ==> (r matches Err(e) && e is WrongMarketType),
        round.market_type is GroupBattle && round.total_groups < 1 ==> (r matches Err(e)
            && e is NoGroups),
        round.market_type is GroupBattle && round.total_groups >= 1 ==> (r matches Ok(ops)
            && ops@ == spec_finalize_start_ops(groups@, 1)),
{
    if !matches!(round.market_type, MarketType::GroupBattle) {
        return Err(KeeperError::WrongMarketType);
    }
    if round.total_groups < 1 {
        return Err(KeeperError::NoGroups);
    }
    let mut ops: Vec<KeeperOp> = Vec::new();
    let mut i: usize = 0;
    proof {
        assert(groups@.skip(0) =~= groups@);
        assert(Seq::<KeeperOp>::empty() + spec_finalize_start_ops(groups@, 1)
            =~= spec_finalize_start_ops(groups@, 1));
    }
    while i < groups.len()
        invariant
            i <= groups@.len(),
            groups@.len() <= u64::MAX,
            spec_finalize_start_ops(groups@, 1) == ops@ + spec_finalize_start_ops(
                groups@.skip(i as int),
                1 + i as int,
            ),
        decreases groups@.len() - i,
    {
        let ghost old_ops = ops@;
        let gid: u64 = (i as u64) + 1;
        if needs_start_finalize(&groups[i]) {
            ops.push(KeeperOp::FinalizeStartGroupAssets { group_id: gid });
        }
        proof {
            assert(groups@.skip(i as int)[0] == groups@[i as int]);
            assert(groups@.skip(i as int).skip(1) =~= groups@.skip(i + 1));
            if spec_needs_start_finalize(groups@[i as int]) {
                assert(old_ops + (seq![KeeperOp::FinalizeStartGroupAssets { group_id: gid }]
                    + spec_finalize_start_ops(groups@.skip(i + 1), 2 + i as int)) =~= ops@
                    + spec_finalize_start_ops(groups@.skip(i + 1), 2 + i as int));
            } else {
                assert(old_ops + (Seq::<KeeperOp>::empty() + spec_finalize_start_ops(
                    groups@.skip(i + 1),
                    2 + i as int,
                )) =~= ops@ + spec_finalize_start_ops(groups@.skip(i + 1), 2 + i as int));
            }
        }
        i = i + 1;
    }
    proof {
        assert(spec_finalize_start_ops(groups@.skip(groups@.len() as int), 1 + groups@.len() as int)
            =~= Seq::<KeeperOp>::empty());
        assert(ops@ + Seq::<KeeperOp>::empty() =~= ops@);
    }
    Ok(ops)
}

/// Decides the round-level group finalization. Fails fast on a wrong
/// market type, a round with no groups, or a round whose groups are
/// already finalized.
pub fn finalize_start_groups(round: &RoundAccount) -> (r: Result<KeeperOp, KeeperError>)
    ensures
        !(round.market_type is GroupBattle) ==> (r matches Err(e) && e is WrongMarketType),
        round.market_type is GroupBattle && round.total_groups < 1 ==> (r matches Err(e)
            && e is NoGroups),
        round.market_type is GroupBattle && round.total_groups >= 1
            && round.captured_start_groups == round.total_groups ==> (r matches Err(e)
            && e is GroupsAlreadyFinalized),
        round.market_type is GroupBattle && round.total_groups >= 1
            && round.captured_start_groups != round.total_groups ==> (r matches Ok(op) && op
            == KeeperOp::FinalizeStartGroups),
{
    if !matches!(round.market_type, MarketType::GroupBattle) {
        return Err(KeeperError::WrongMarketType);
    }
    if round.total_groups < 1 {
        return Err(KeeperError::NoGroups);
    }
    if round.captured_start_groups == round.total_groups {
        return Err(KeeperError::GroupsAlreadyFinalized);
    }
    Ok(KeeperOp::FinalizeStartGroups)
}

/// A group's counters after its start-capture operation succeeds: the
/// capture counter reaches the asset count; a group without assets is
/// untouched.
pub open spec fn spec_after_start_capture(g: GroupAssetAccount) -> GroupAssetAccount {
    if g.total_assets >= 1 {
        GroupAssetAccount {
            total_assets: g.total_assets,
            captured_start_price_assets: g.total_assets,
            finalized_start_price_assets: g.finalized_start_price_assets,
            captured_end_price_assets: g.captured_end_price_assets,
        }
    } else {
        g
    }
}

/// The whole start sequence of a group-battle round, assuming each issued
/// operation succeeds: the captures still needed, then the finalizations
/// still needed once those captures have landed, then the round-level
/// group finalization, then the round start. A round whose group count is
/// already captured proceeds directly to the round start.
pub open spec fn spec_start_group_ops(
    captured_start_groups: u64,
    total_groups: u64,
    groups: Seq<GroupAssetAccount>,
) -> Seq<KeeperOp> {
    if captured_start_groups < total_groups {
        spec_capture_start_ops(groups, 1) + spec_finalize_start_ops(
            groups.map_values(|g: GroupAssetAccount| spec_after_start_capture(g)),
            1,
        ) + seq![KeeperOp::FinalizeStartGroups, KeeperOp::StartRound]
    } else {
        seq![KeeperOp::StartRound]
    }
}

/// Decides the whole start sequence of a group-battle round from one read
/// of its progress counters.
pub fn start_group_round(round: &RoundAccount, groups: &Vec<GroupAssetAccount>) -> (r: Vec<
    KeeperOp,
>)
    requires
        round.market_type is GroupBattle,
        groups@.len() == round.total_groups,
    ensures
        r@ == spec_start_group_ops(round.captured_start_groups, round.total_groups, groups@),
{
    if round.captured_start_groups >= round.total_groups {
        let mut ops: Vec<KeeperOp> = Vec::new();
        ops.push(KeeperOp::StartRound);
        proof {
            assert(ops@ =~= seq![KeeperOp::StartRound]);
        }
        return ops;
    }
    let mut ops = match capture_start_price(round, groups) {
        Ok(ops) => ops,
        Err(_) => vstd::pervasive::unreached(),
    };
    let mut advanced: Vec<GroupAssetAccount> = Vec::new();
    let mut i: usize = 0;
    while i < groups.len()
        invariant
            i <= groups@.len(),
            advanced@.len() == i,
            forall|j: int|
                0 <= j < i ==> advanced@[j] == spec_after_start_capture(#[trigger] groups@[j]),
        decreases groups@.len() - i,
    {
        let g = groups[i];
        let adv = if g.total_assets >= 1 {
            GroupAssetAccount {
                total_assets: g.total_assets,
                captured_start_price_assets: g.total_assets,
                finalized_start_price_assets: g.finalized_start_price_assets,
                captured_end_price_assets: g.captured_end_price_assets,
            }
        } else {
            g
        };
        advanced.push(adv);
        i = i + 1;
    }
    proof {
        assert(advanced@ =~= groups@.map_values(
            |g: GroupAssetAccount| spec_after_start_capture(g),
        ));
    }
    let finalize_ops = match finalize_start_group_assets(round, &advanced) {
        Ok(ops) => ops,
        Err(_) => vstd::pervasive::unreached(),
    };
    let ghost before_append = ops@;
    let mut finalize_ops = finalize_ops;
    ops.append(&mut finalize_ops);
    ops.push(KeeperOp::FinalizeStartGroups);
    ops.push(KeeperOp::StartRound);
    proof {
        assert(ops@ =~= spec_start_group_ops(
            round.captured_start_groups,
            round.total_groups,
            groups@,
        ));
    }
    ops
}

/// If every group of the round is already fully captured and finalized,
/// the start phase issues no capture and no finalize operation: the whole
/// group-battle start sequence, even for a round whose group count is not
/// yet captured, holds nothing before the round-level steps.
pub proof fn lemma_start_phase_idempotent(groups: Seq<GroupAssetAccount>, gid: int)
    requires
        forall|i: int|
            0 <= i < groups.len() ==> (#[trigger] groups[i]).captured_start_price_assets
                == groups[i].total_assets && groups[i].finalized_start_price_assets
                == groups[i].total_assets,
    ensures
        spec_capture_start_ops(groups, gid) == Seq::<KeeperOp>::empty(),
        spec_finalize_start_ops(groups, gid) == Seq::<KeeperOp>::empty(),
    decreases groups.len(),
{
    if groups.len() == 0 {
    } else {
        assert(groups[0] == groups.skip(0)[0]);
        lemma_start_phase_idempotent(groups.skip(1), gid + 1);
        assert(spec_capture_start_ops(groups, gid) =~= Seq::<KeeperOp>::empty());
        assert(spec_finalize_start_ops(groups, gid) =~= Seq::<KeeperOp>::empty());
    }
}

/// Idempotency of the whole start phase: on a round whose every group is
/// already fully captured and finalized, the start sequence issues zero
/// capture and zero finalize-assets operations — it proceeds directly to
/// the round-level steps, and when the group count is itself already
/// captured, directly to the round start.
pub proof fn lemma_start_sequence_idempotent(
    captured_start_groups: u64,
    total_groups: u64,
    groups: Seq<GroupAssetAccount>,
)
    requires
        forall|i: int|
            0 <= i < groups.len() ==> (#[trigger] groups[i]).captured_start_price_assets
                == groups[i].total_assets && groups[i].finalized_start_price_assets
                == groups[i].total_assets,
    ensures
        spec_start_group_ops(captured_start_groups, total_groups, groups) == (if
        captured_start_groups < total_groups {
            seq![KeeperOp::FinalizeStartGroups, KeeperOp::StartRound]
        } else {
            seq![KeeperOp::StartRound]
        }),
{
    if captured_start_groups < total_groups {
        let advanced = groups.map_values(|g: GroupAssetAccount| spec_after_start_capture(g));
        lemma_start_phase_idempotent(groups, 1);
        assert forall|i: int|
            0 <= i < advanced.len() implies (#[trigger] advanced[i]).captured_start_price_assets
            == advanced[i].total_assets && advanced[i].finalized_start_price_assets
            == advanced[i].total_assets by {
            assert(advanced[i] == spec_after_start_capture(groups[i]));
        }
        lemma_start_phase_idempotent(advanced, 1);
        assert(spec_start_group_ops(captured_start_groups, total_groups, groups) =~= seq![
            KeeperOp::FinalizeStartGroups,
            KeeperOp::StartRound,
        ]);
    }
}

/// The settle operations of a single-asset round: one direct settlement
/// when it has no bets, otherwise one chunked settlement per planner chunk
/// of `[1, total_bets]`, one bet per capacity unit.
pub open spec fn spec_settle_single_ops(total_bets: u64, capacity: u64) -> Seq<KeeperOp> {
    if total_bets == 0 {
        seq![KeeperOp::SettleSingleDirect]
    } else {
        spec_plan(total_bets as int, 1, capacity as int).map_values(
            |c: ChunkRange| KeeperOp::SettleSingleChunk { range: c },
        )
    }
}

/// Decides the settlement of a single-asset round.
pub fn settle_single_round(round: &RoundAccount, capacity: u64) -> (r: Vec<KeeperOp>)
    requires
        capacity >= 1,
    ensures
        r@ == spec_settle_single_ops(round.total_bets, capacity),
{
    let mut ops: Vec<KeeperOp> = Vec::new();
    if round.total_bets == 0 {
        ops.push(KeeperOp::SettleSingleDirect);
        proof {
            assert(ops@ =~= spec_settle_single_ops(round.total_bets, capacity));
        }
        return ops;
    }
    let chunks = plan(round.total_bets, 1, capacity);
    let mut i: usize = 0;
    while i < chunks.len()
        invariant
            i <= chunks@.len(),
            ops@.len() == i,
            forall|j: int|
                0 <= j < i ==> ops@[j] == (KeeperOp::SettleSingleChunk {
                    range: #[trigger] chunks@[j],
                }),
        decreases chunks@.len() - i,
    {
        ops.push(KeeperOp::SettleSingleChunk { range: chunks[i] });
        i = i + 1;
    }
    proof {
        assert(ops@ =~= spec_settle_single_ops(round.total_bets, capacity));
    }
    ops
}

/// The end-price captures one group contributes: nothing when it is
/// skipped, otherwise one operation per planner chunk of its assets, two
/// auxiliary inputs per asset.
pub open spec fn spec_group_end_block(g: GroupAssetAccount, gid: u64, capacity: u64) -> Seq<
    KeeperOp,
> {
    if spec_needs_end_capture(g) {
        spec_plan(g.total_assets as int, 2, capacity as int).map_values(
            |c: ChunkRange| KeeperOp::CaptureEndPriceChunk { group_id: gid, range: c },
        )
    } else {
        Seq::empty()
    }
}

/// The end-price captures of the groups: per group that still needs them,
/// one operation per planner chunk of its assets, two auxiliary inputs per
/// asset; in ascending group order from `gid`.
pub open spec fn spec_capture_end_ops(
    groups: Seq<GroupAssetAccount>,
    gid: int,
    capacity: u64,
) -> Seq<KeeperOp>
    decreases groups.len(),
{
    if groups.len() == 0 {
        Seq::empty()
    } else {
        spec_group_end_block(groups[0], gid as u64, capacity) + spec_capture_end_ops(
            groups.skip(1),
            gid + 1,
            capacity,
        )
    }
}

/// The operation is an end-price capture of a group whose id lies in
/// `[lo, hi)`.
pub open spec fn op_is_end_capture_in(op: KeeperOp, lo: int, hi: int) -> bool {
    match op {
        KeeperOp::CaptureEndPriceChunk { group_id, range } => lo <= group_id < hi,
        _ => false,
    }
}

/// Every operation of an end-capture sequence is an end-capture chunk of
/// a group in the id window the sequence covers.
proof fn lemma_capture_end_ops_gids(groups: Seq<GroupAssetAccount>, gid0: int, capacity: u64)
    requires
        1 <= gid0,
        gid0 + groups.len() <= u64::MAX + 1,
    ensures
        forall|j: int|
            0 <= j < spec_capture_end_ops(groups, gid0, capacity).len() ==> op_is_end_capture_in(
                #[trigger] spec_capture_end_ops(groups, gid0, capacity)[j],
                gid0,
                gid0 + groups.len(),
            ),
    decreases groups.len(),
{
    if groups.len() == 0 {
    } else {
        lemma_capture_end_ops_gids(groups.skip(1), gid0 + 1, capacity);
        let block = spec_group_end_block(groups[0], gid0 as u64, capacity);
        let rest = spec_capture_end_ops(groups.skip(1), gid0 + 1, capacity);
        let whole = spec_capture_end_ops(groups, gid0, capacity);
        assert(whole == block + rest);
        assert forall|j: int|
            0 <= j < whole.len() implies op_is_end_capture_in(
            #[trigger] whole[j],
            gid0,
            gid0 + groups.len(),
        ) by {
            if j < block.len() {
                assert(whole[j] == block[j]);
                assert(op_is_end_capture_in(block[j], gid0, gid0 + 1));
            } else {
                assert(whole[j] == rest[j - block.len()]);
                assert(op_is_end_capture_in(
                    rest[j - block.len()],
                    gid0 + 1,
                    gid0 + 1 + groups.skip(1).len(),
                ));
            }
        }
    }
}

/// The end-price capture operations of exactly this group, in order, out
/// of an operation sequence.
pub open spec fn spec_ops_of_group(ops: Seq<KeeperOp>, gid: u64) -> Seq<KeeperOp>
    decreases ops.len(),
{
    if ops.len() == 0 {
        Seq::empty()
    } else {
        (if op_is_end_capture_in(ops[0], gid as int, gid as int + 1) {
            seq![ops[0]]
        } else {
            Seq::empty()
        }) + spec_ops_of_group(ops.skip(1), gid)
    }
}

/// Projecting a group's operations distributes over concatenation.
proof fn lemma_ops_of_group_distributes(a: Seq<KeeperOp>, b: Seq<KeeperOp>, gid: u64)
    ensures
        spec_ops_of_group(a + b, gid) == spec_ops_of_group(a, gid) + spec_ops_of_group(b, gid),
    decreases a.len(),
{
    if a.len() == 0 {
        assert(a + b =~= b);
        assert(spec_ops_of_group(a, gid) =~= Seq::<KeeperOp>::empty());
        assert(Seq::<KeeperOp>::empty() + spec_ops_of_group(b, gid) =~= spec_ops_of_group(
            b,
            gid,
        ));
    } else {
        lemma_ops_of_group_distributes(a.skip(1), b, gid);
        assert((a + b)[0] == a[0]);
        assert((a + b).skip(1) =~= a.skip(1) + b);
        let head = (if op_is_end_capture_in(a[0], gid as int, gid as int + 1) {
            seq![a[0]]
        } else {
            Seq::<KeeperOp>::empty()
        });
        assert(head + (spec_ops_of_group(a.skip(1), gid) + spec_ops_of_group(b, gid)) =~= (head
            + spec_ops_of_group(a.skip(1), gid)) + spec_ops_of_group(b, gid));
    }
}

/// A sequence all of whose operations belong to the group projects to
/// itself.
proof fn lemma_ops_of_group_retains_all(ops: Seq<KeeperOp>, gid: u64)
    requires
        forall|i: int|
            0 <= i < ops.len() ==> op_is_end_capture_in(
                #[trigger] ops[i],
                gid as int,
                gid as int + 1,
            ),
    ensures
        spec_ops_of_group(ops, gid) == ops,
    decreases ops.len(),
{
    if ops.len() != 0 {
        assert forall|i: int|
            0 <= i < ops.skip(1).len() implies op_is_end_capture_in(
            #[trigger] ops.skip(1)[i],
            gid as int,
            gid as int + 1,
        ) by {
            assert(ops.skip(1)[i] == ops[i + 1]);
        }
        lemma_ops_of_group_retains_all(ops.skip(1), gid);
        assert(seq![ops[0]] + ops.skip(1) =~= ops);
    }
}

/// A sequence none of whose operations belongs to the group projects to
/// nothing.
proof fn lemma_ops_of_group_drops_all(ops: Seq<KeeperOp>, gid: u64)
    requires
        forall|i: int|
            0 <= i < ops.len() ==> !op_is_end_capture_in(
                #[trigger] ops[i],
                gid as int,
                gid as int + 1,
            ),
    ensures
        spec_ops_of_group(ops, gid) == Seq::<KeeperOp>::empty(),
    decreases ops.len(),
{
    if ops.len() != 0 {
        assert forall|i: int|
            0 <= i < ops.skip(1).len() implies !op_is_end_capture_in(
            #[trigger] ops.skip(1)[i],
            gid as int,
            gid as int + 1,
        ) by {
            assert(ops.skip(1)[i] == ops[i + 1]);
        }
        lemma_ops_of_group_drops_all(ops.skip(1), gid);
        assert(Seq::<KeeperOp>::empty() + Seq::<KeeperOp>::empty() =~= Seq::<KeeperOp>::empty());
    }
}

/// Within one round's end-capture sequence, the operations of any one
/// group are exactly the planner's chunks of that group's assets, at two
/// auxiliary inputs per asset — so the planner's chunk law (contiguity,
/// ordering, non-overlap, the size bound, exact union of the group's
/// asset ids) holds per group across the whole sequence, however many
/// groups the round has.
pub proof fn lemma_capture_end_ops_per_group(
    groups: Seq<GroupAssetAccount>,
    gid0: int,
    capacity: u64,
    k: int,
)
    requires
        1 <= gid0,
        0 <= k < groups.len(),
        gid0 + groups.len() <= u64::MAX + 1,
    ensures
        spec_ops_of_group(spec_capture_end_ops(groups, gid0, capacity), (gid0 + k) as u64)
            == spec_group_end_block(groups[k], (gid0 + k) as u64, capacity),
    decreases groups.len(),
{
    let gid = (gid0 + k) as u64;
    let block = spec_group_end_block(groups[0], gid0 as u64, capacity);
    let rest = spec_capture_end_ops(groups.skip(1), gid0 + 1, capacity);
    assert(spec_capture_end_ops(groups, gid0, capacity) == block + rest);
    lemma_ops_of_group_distributes(block, rest, gid);
    if k == 0 {
        assert forall|i: int|
            0 <= i < block.len() implies op_is_end_capture_in(
            #[trigger] block[i],
            gid as int,
            gid as int + 1,
        ) by {
            assert(spec_needs_end_capture(groups[0]));
            assert(block[i] == (KeeperOp::CaptureEndPriceChunk {
                group_id: gid,
                range: spec_plan(groups[0].total_assets as int, 2, capacity as int)[i],
            }));
        }
        lemma_ops_of_group_retains_all(block, gid);
        lemma_capture_end_ops_gids(groups.skip(1), gid0 + 1, capacity);
        assert forall|i: int|
            0 <= i < rest.len() implies !op_is_end_capture_in(
            #[trigger] rest[i],
            gid as int,
            gid as int + 1,
        ) by {
            assert(op_is_end_capture_in(rest[i], gid0 + 1, gid0 + 1 + groups.skip(1).len()));
        }
        lemma_ops_of_group_drops_all(rest, gid);
        assert(block + Seq::<KeeperOp>::empty() =~= block);
    } else {
        assert forall|i: int|
            0 <= i < block.len() implies !op_is_end_capture_in(
            #[trigger] block[i],
            gid as int,
            gid as int + 1,
        ) by {
            assert(spec_needs_end_capture(groups[0]));
            assert(block[i] == (KeeperOp::CaptureEndPriceChunk {
                group_id: gid0 as u64,
                range: spec_plan(groups[0].total_assets as int, 2, capacity as int)[i],
            }));
        }
        lemma_ops_of_group_drops_all(block, gid);
        lemma_capture_end_ops_per_group(groups.skip(1), gid0 + 1, capacity, k - 1);
        assert(groups.skip(1)[k - 1] == groups[k]);
        assert(((gid0 + 1) + (k - 1)) as u64 == gid);
        assert(Seq::<KeeperOp>::empty() + spec_ops_of_group(rest, gid) =~= spec_ops_of_group(
            rest,
            gid,
        ));
    }
}

/// Decides the end-price captures of a group-battle round, chunking each
/// group's assets to the capacity limit at two auxiliary inputs per asset.
/// Fails fast on a wrong market type or a round with no groups.
pub fn capture_end_price(
    round: &RoundAccount,
    groups: &Vec<GroupAssetAccount>,
    capacity: u64,
) -> (r: Result<Vec<KeeperOp>, KeeperError>)
    requires
        capacity >= 1,
        groups@.len() == round.total_groups,
    ensures
        !(round.market_type is GroupBattle) ==> (r matches Err(e) && e is WrongMarketType),
        round.market_type is GroupBattle && round.total_groups < 1 ==> (r matches Err(e)
            && e is NoGroups),
        round.market_type is GroupBattle && round.total_groups >= 1 ==> (r matches Ok(ops)
            && ops@ == spec_capture_end_ops(groups@, 1, capacity)),
{
    if !matches!(round.market_type, MarketType::GroupBattle) {
        return Err(KeeperError::WrongMarketType);
    }
    if round.total_groups < 1 {
        return Err(KeeperError::NoGroups);
    }
    let mut ops: Vec<KeeperOp> = Vec::new();
    let mut i: usize = 0;
    proof {
        assert(groups@.skip(0) =~= groups@);
        assert(Seq::<KeeperOp>::empty() + spec_capture_end_ops(groups@, 1, capacity)
            =~= spec_capture_end_ops(groups@, 1, capacity));
    }
    while i < groups.len()
        invariant
            capacity >= 1,
            i <= groups@.len(),
            groups@.len() <= u64::MAX,
            spec_capture_end_ops(groups@, 1, capacity) == ops@ + spec_capture_end_ops(
                groups@.skip(i as int),
                1 + i as int,
                capacity,
            ),
        decreases groups@.len() - i,
    {
        let ghost old_ops = ops@;
        let gid: u64 = (i as u64) + 1;
        let ghost group_part = (if spec_needs_end_capture(groups@[i as int]) {
            spec_plan(groups@[i as int].total_assets as int, 2, capacity as int).map_values(
                |c: ChunkRange| KeeperOp::CaptureEndPriceChunk { group_id: gid, range: c },
            )
        } else {
            Seq::<KeeperOp>::empty()
        });
        if needs_end_capture(&groups[i]) {
            let chunks = plan(groups[i].total_assets, 2, capacity);
            let mut k: usize = 0;
            while k < chunks.len()
                invariant
                    k <= chunks@.len(),
                    chunks@ == spec_plan(groups@[i as int].total_assets as int, 2, capacity as int),
                    spec_needs_end_capture(groups@[i as int]),
                    group_part == chunks@.map_values(
                        |c: ChunkRange| KeeperOp::CaptureEndPriceChunk {
                            group_id: gid,
                            range: c,
                        },
                    ),
                    ops@.len() == old_ops.len() + k,
                    forall|j: int| 0 <= j < old_ops.len() ==> ops@[j] == #[trigger] old_ops[j],
                    forall|j: int|
                        0 <= j < k ==> ops@[old_ops.len() + j] == #[trigger] group_part[j],
                decreases chunks@.len() - k,
            {
                ops.push(KeeperOp::CaptureEndPriceChunk { group_id: gid, range: chunks[k] });
                k = k + 1;
            }
            proof {
                assert(ops@ =~= old_ops + group_part);
            }
        } else {
            proof {
                assert(ops@ =~= old_ops + group_part);
            }
        }
        proof {
            assert(groups@.skip(i as int)[0] == groups@[i as int]);
            assert(groups@.skip(i as int).skip(1) =~= groups@.skip(i + 1));
            assert(old_ops + (group_part + spec_capture_end_ops(
                groups@.skip(i + 1),
                2 + i as int,
                capacity,
            )) =~= (old_ops + group_part) + spec_capture_end_ops(
                groups@.skip(i + 1),
                2 + i as int,
                capacity,
            ));
        }
        i = i + 1;
    }
    proof {
        assert(spec_capture_end_ops(
            groups@.skip(groups@.len() as int),
            1 + groups@.len() as int,
            capacity,
        ) =~= Seq::<KeeperOp>::empty());
        assert(ops@ + Seq::<KeeperOp>::empty() =~= ops@);
    }
    Ok(ops)
}

/// Decides the settlement of a group-battle round: the end-price captures
/// still needed, then the group settlement itself, which is not
/// implemented and will fail fast when executed. Fails fast on a wrong
/// market type or a round with no groups.
pub fn settle_group(
    round: &RoundAccount,
    groups: &Vec<GroupAssetAccount>,
    capacity: u64,
) -> (r: Result<Vec<KeeperOp>, KeeperError>)
    requires
        capacity >= 1,
        groups@.len() == round.total_groups,
    ensures
        !(round.market_type is GroupBattle) ==> (r matches Err(e) && e is WrongMarketType),
        round.market_type is GroupBattle && round.total_groups < 1 ==> (r matches Err(e)
            && e is NoGroups),
        round.market_type is GroupBattle && round.total_groups >= 1 ==> (r matches Ok(ops)
            && ops@ == spec_capture_end_ops(groups@, 1, capacity) + seq![
                KeeperOp::SettleGroupRound,
            ]),
{
    let mut ops = match capture_end_price(round, groups, capacity) {
        Ok(ops) => ops,
        Err(e) => {
            return Err(e);
        },
    };
    let ghost captured = ops@;
    ops.push(KeeperOp::SettleGroupRound);
    proof {
        assert(ops@ =~= captured + seq![KeeperOp::SettleGroupRound]);
    }
    Ok(ops)
}

/// A round is due for the start phase: scheduled, and its start time has
/// passed.
pub fn round_due_for_start(round: &RoundAccount, now: i64) -> (r: bool)
    ensures
        r == (round.status is Scheduled && round.start_time <= now),
{
    matches!(round.status, RoundStatus::Scheduled) && round.start_time <= now
}

/// A round is due for the settle phase: active or pending settlement, and
/// its end time has passed.
pub fn round_due_for_settle(round: &RoundAccount, now: i64) -> (r: bool)
    ensures
        r == ((round.status is Active || round.status is PendingSettlement) && round.end_time
            <= now),
{
    matches!(round.status, RoundStatus::Active | RoundStatus::PendingSettlement)
        && round.end_time <= now
}

/// How many round ids one scan batch fetches.
pub const ROUND_SCAN_BATCH: u64 = 100;

/// The id batches a tick scans: the range `[1, current_round_counter]` in
/// contiguous batches of at most `ROUND_SCAN_BATCH` ids.
pub fn round_scan_batches(current_round_counter: u64) -> (r: Vec<ChunkRange>)
    ensures
        r@ == spec_plan(current_round_counter as int, 1, ROUND_SCAN_BATCH as int),
{
    plan(current_round_counter, 1, ROUND_SCAN_BATCH)
}

} // verus!
