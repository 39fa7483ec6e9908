//! Domain records mirrored from the ledger program's account state, the
//! keeper's own value types, and the error taxonomy.

use vstd::prelude::*;

verus! {

/// A 32-byte ledger address, held as plain bytes.
#[derive(Debug)]
pub struct Address {
    pub bytes: Vec<u8>,
}

impl View for Address {
    type V = Seq<u8>;

    open spec fn view(&self) -> Seq<u8> {
        self.bytes@
    }
}

impl DeepView for Address {
    type V = Seq<u8>;

    open spec fn deep_view(&self) -> Seq<u8> {
        self@
    }
}

impl Address {
    /// A well-formed address holds exactly 32 bytes.
    pub open spec fn wf(&self) -> bool {
        self@.len() == 32
    }

    pub fn new(bytes: Vec<u8>) -> (r: Address)
        ensures
            r@ == bytes@,
    {
        Address { bytes }
    }

    /// An independent copy of the address.
    pub fn dup(&self) -> (r: Address)
        ensures
            r@ == self@,
    {
        let mut bytes: Vec<u8> = Vec::new();
        let mut i: usize = 0;
        while i < self.bytes.len()
            invariant
                i <= self.bytes.len(),
                bytes@ == self.bytes@.take(i as int),
            decreases self.bytes.len() - i,
    {
            bytes.push(self.bytes[i]);
            i = i + 1;
        }
        proof {
            assert(bytes@ =~= self@);
        }
        Address { bytes }
    }

    /// Byte-for-byte equality of two addresses.
    pub fn same_as(&self, other: &Address) -> (r: bool)
        ensures
            r == (self@ =~= other@),
    {
        if self.bytes.len() != other.bytes.len() {
            return false;
        }
        let mut i: usize = 0;
        while i < self.bytes.len()
            invariant
                i <= self.bytes.len(),
                self.bytes.len() == other.bytes.len(),
                forall|j: int| 0 <= j < i ==> self@[j] == other@[j],
            decreases self.bytes.len() - i,
        {
            if self.bytes[i] != other.bytes[i] {
                return false;
            }
            i = i + 1;
        }
        true
    }
}

/// Operational status of the ledger program's singleton configuration.
#[derive(Clone, Copy, Debug, PartialEq, Eq, Structural)]
pub enum ProgramStatus {
    Active,
    Paused,
    EmergencyPaused,
}

/// Which market variant a round runs.
#[derive(Clone, Copy, Debug, PartialEq, Eq, Structural)]
pub enum MarketType {
    SingleAsset,
    GroupBattle,
}

/// Lifecycle status of a round; transitions are monotonic along
/// Scheduled, Active, PendingSettlement, Ended, with Cancelling as a side
/// branch.
#[derive(Clone, Copy, Debug, PartialEq, Eq, Structural)]
pub enum RoundStatus {
    Scheduled,
    Active,
    Cancelling,
    PendingSettlement,
    Ended,
}

/// Direction a bet takes on a price move.
#[derive(Clone, Copy, Debug, PartialEq, Eq, Structural)]
pub enum BetDirection {
    Up,
    Down,
    PercentageChangeBps(i16),
}

/// Settlement outcome of a bet.
#[derive(Clone, Copy, Debug, PartialEq, Eq, Structural)]
pub enum BetStatus {
    Pending,
    Won,
    Lost,
    Draw,
}

/// Mathematical image of a round account: addresses as byte sequences,
/// lists as sequences.
pub ghost struct RoundAccountV {
    pub id: u64,
    pub start_time: i64,
    pub end_time: i64,
    pub bet_cutoff_time: i64,
    pub vault: Seq<u8>,
    pub vault_bump: u8,
    pub market_type: MarketType,
    pub status: RoundStatus,
    pub start_price: Option<u64>,
    pub final_price: Option<u64>,
    pub total_pool: u64,
    pub total_bets: u64,
    pub total_fee_collected: u64,
    pub total_reward_pool: u64,
    pub winners_weight: u64,
    pub settled_bets: u64,
    pub cancelled_bets: u64,
    pub winner_group_ids: Seq<u64>,
    pub total_groups: u64,
    pub captured_start_groups: u64,
    pub captured_end_groups: u64,
    pub created_at: i64,
    pub settled_at: Option<i64>,
    pub bump: u8,
}

/// A round account as the ledger program stores it.
#[derive(Debug)]
pub struct RoundAccount {
    pub id: u64,
    pub start_time: i64,
    pub end_time: i64,
    pub bet_cutoff_time: i64,
    pub vault: Address,
    pub vault_bump: u8,
    pub market_type: MarketType,
    pub status: RoundStatus,
    pub start_price: Option<u64>,
    pub final_price: Option<u64>,
    pub total_pool: u64,
    pub total_bets: u64,
    pub total_fee_collected: u64,
    pub total_reward_pool: u64,
    pub winners_weight: u64,
    pub settled_bets: u64,
    pub cancelled_bets: u64,
    pub winner_group_ids: Vec<u64>,
    pub total_groups: u64,
    pub captured_start_groups: u64,
    pub captured_end_groups: u64,
    pub created_at: i64,
    pub settled_at: Option<i64>,
    pub bump: u8,
}

impl View for RoundAccount {
    type V = RoundAccountV;

    open spec fn view(&self) -> RoundAccountV {
        RoundAccountV {
            id: self.id,
            start_time: self.start_time,
            end_time: self.end_time,
            bet_cutoff_time: self.bet_cutoff_time,
            vault: self.vault@,
            vault_bump: self.vault_bump,
            market_type: self.market_type,
            status: self.status,
            start_price: self.start_price,
            final_price: self.final_price,
            total_pool: self.total_pool,
            total_bets: self.total_bets,
            total_fee_collected: self.total_fee_collected,
            total_reward_pool: self.total_reward_pool,
            winners_weight: self.winners_weight,
            settled_bets: self.settled_bets,
            cancelled_bets: self.cancelled_bets,
            winner_group_ids: self.winner_group_ids@,
            total_groups: self.total_groups,
            captured_start_groups: self.captured_start_groups,
            captured_end_groups: self.captured_end_groups,
            created_at: self.created_at,
            settled_at: self.settled_at,
            bump: self.bump,
        }
    }
}

impl DeepView for RoundAccount {
    type V = RoundAccountV;

    open spec fn deep_view(&self) -> RoundAccountV {
        self@
    }
}

/// Mathematical image of the configuration account.
pub ghost struct ConfigAccountV {
    pub admin: Seq<u8>,
    pub keeper_authorities: Seq<Seq<u8>>,
    pub token_mint: Seq<u8>,
    pub treasury: Seq<u8>,
    pub single_asset_feed_id: Seq<u8>,
    pub max_price_update_age_secs: u64,
    pub fee_single_asset_bps: u16,
    pub fee_group_battle_bps: u16,
    pub min_bet_amount: u64,
    pub bet_cutoff_window_secs: i64,
    pub min_time_factor_bps: u16,
    pub max_time_factor_bps: u16,
    pub default_direction_factor_bps: u16,
    pub status: ProgramStatus,
    pub current_round_counter: u64,
    pub version: u8,
    pub bump: u8,
}

/// The ledger program's singleton configuration account.
#[derive(Debug)]
pub struct ConfigAccount {
    pub admin: Address,
    pub keeper_authorities: Vec<Address>,
    pub token_mint: Address,
    pub treasury: Address,
    pub single_asset_feed_id: Vec<u8>,
    pub max_price_update_age_secs: u64,
    pub fee_single_asset_bps: u16,
    pub fee_group_battle_bps: u16,
    pub min_bet_amount: u64,
    pub bet_cutoff_window_secs: i64,
    pub min_time_factor_bps: u16,
    pub max_time_factor_bps: u16,
    pub default_direction_factor_bps: u16,
    pub status: ProgramStatus,
    pub current_round_counter: u64,
    pub version: u8,
    pub bump: u8,
}

impl View for ConfigAccount {
    type V = ConfigAccountV;

    open spec fn view(&self) -> ConfigAccountV {
        ConfigAccountV {
            admin: self.admin@,
            keeper_authorities: self.keeper_authorities.deep_view(),
            token_mint: self.token_mint@,
            treasury: self.treasury@,
            single_asset_feed_id: self.single_asset_feed_id@,
            max_price_update_age_secs: self.max_price_update_age_secs,
            fee_single_asset_bps: self.fee_single_asset_bps,
            fee_group_battle_bps: self.fee_group_battle_bps,
            min_bet_amount: self.min_bet_amount,
            bet_cutoff_window_secs: self.bet_cutoff_window_secs,
            min_time_factor_bps: self.min_time_factor_bps,
            max_time_factor_bps: self.max_time_factor_bps,
            default_direction_factor_bps: self.default_direction_factor_bps,
            status: self.status,
            current_round_counter: self.current_round_counter,
            version: self.version,
            bump: self.bump,
        }
    }
}

/// Per-group progress counters of a group-battle round.
#[derive(Clone, Copy, Debug, PartialEq, Eq, Structural)]
pub struct GroupAssetAccount {
    pub total_assets: u64,
    pub captured_start_price_assets: u64,
    pub finalized_start_price_assets: u64,
    pub captured_end_price_assets: u64,
}

impl GroupAssetAccount {
    /// The program's invariant: every progress counter is bounded by the
    /// group's asset count.
    pub open spec fn wf(&self) -> bool {
        &&& self.captured_start_price_assets <= self.total_assets
        &&& self.finalized_start_price_assets <= self.total_assets
        &&& self.captured_end_price_assets <= self.total_assets
    }
}

/// Mathematical image of an asset account.
pub ghost struct AssetAccountV {
    pub id: u64,
    pub group: Seq<u8>,
    pub round: Seq<u8>,
    pub feed_id: Seq<u8>,
    pub symbol: Seq<u8>,
    pub start_price: Option<u64>,
    pub final_price: Option<u64>,
    pub growth_rate_bps: Option<i64>,
    pub created_at: i64,
    pub started_price_at: Option<i64>,
    pub finalized_at: Option<i64>,
    pub bump: u8,
}

/// An asset account of a group, as the ledger program stores it.
#[derive(Debug)]
pub struct AssetAccount {
    pub id: u64,
    pub group: Address,
    pub round: Address,
    pub feed_id: Vec<u8>,
    pub symbol: Vec<u8>,
    pub start_price: Option<u64>,
    pub final_price: Option<u64>,
    pub growth_rate_bps: Option<i64>,
    pub created_at: i64,
    pub started_price_at: Option<i64>,
    pub finalized_at: Option<i64>,
    pub bump: u8,
}

impl View for AssetAccount {
    type V = AssetAccountV;

    open spec fn view(&self) -> AssetAccountV {
        AssetAccountV {
            id: self.id,
            group: self.group@,
            round: self.round@,
            feed_id: self.feed_id@,
            symbol: self.symbol@,
            start_price: self.start_price,
            final_price: self.final_price,
            growth_rate_bps: self.growth_rate_bps,
            created_at: self.created_at,
            started_price_at: self.started_price_at,
            finalized_at: self.finalized_at,
            bump: self.bump,
        }
    }
}

/// Mathematical image of a raw account: owner and payload as byte sequences.
pub ghost struct RawAccountV {
    pub owner: Seq<u8>,
    pub data: Seq<u8>,
}

/// A raw account as fetched from the ledger: its owning program and its
/// payload bytes.
#[derive(Debug)]
pub struct RawAccount {
    pub owner: Address,
    pub data: Vec<u8>,
}

impl View for RawAccount {
    type V = RawAccountV;

    open spec fn view(&self) -> RawAccountV {
        RawAccountV { owner: self.owner@, data: self.data@ }
    }
}

impl DeepView for RawAccount {
    type V = RawAccountV;

    open spec fn deep_view(&self) -> RawAccountV {
        self@
    }
}

/// One account an operation touches, with its access flags.
#[derive(Debug)]
pub struct AccountInput {
    pub address: Address,
    pub is_signer: bool,
    pub is_writable: bool,
}

impl AccountInput {
    /// A writable account that also signs.
    pub fn writable_signer(address: Address) -> (r: AccountInput)
        ensures
            r.address@ == address@,
            r.is_signer,
            r.is_writable,
    {
        AccountInput { address, is_signer: true, is_writable: true }
    }

    /// A writable, non-signing account.
    pub fn writable(address: Address) -> (r: AccountInput)
        ensures
            r.address@ == address@,
            !r.is_signer,
            r.is_writable,
    {
        AccountInput { address, is_signer: false, is_writable: true }
    }

    /// A read-only, non-signing account.
    pub fn readonly(address: Address) -> (r: AccountInput)
        ensures
            r.address@ == address@,
            !r.is_signer,
            !r.is_writable,
    {
        AccountInput { address, is_signer: false, is_writable: false }
    }
}

/// One remote operation, ready to be wrapped in a transaction: the program
/// to invoke, the instruction payload, and the accounts it touches.
#[derive(Debug)]
pub struct OperationCall {
    pub program: Address,
    pub data: Vec<u8>,
    pub accounts: Vec<AccountInput>,
}

/// The keeper's error taxonomy.
#[derive(Clone, Debug)]
pub enum KeeperError {
    /// An operation was asked of a round whose market type does not support
    /// it; failed fast, before any remote call.
    WrongMarketType,
    /// A group operation was asked of a round with no groups; failed fast.
    NoGroups,
    /// The start groups of the round were already finalized.
    GroupsAlreadyFinalized,
    /// The requested path exists in the catalog but is not implemented;
    /// never retried and never confused with a transient failure.
    NotImplemented,
    /// Every submission attempt failed; carries the last error seen.
    RetriesExhausted { last_error: Option<String> },
    /// An account's owning program differs from the expected program.
    OwnerMismatch,
    /// An account's payload is shorter than the fixed header.
    MalformedAccount,
    /// An account's payload did not decode into the expected record.
    UndecodableAccount,
    /// A price-feed identifier was not 32 bytes of hexadecimal.
    InvalidFeedId,
    /// A keypair file did not hold exactly 64 bytes.
    InvalidKeypair,
    /// No program-derived address exists for the requested seeds.
    AddressDerivationFailed,
}

} // verus!
