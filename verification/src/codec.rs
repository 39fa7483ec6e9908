//! Account payload decoding. Every decodable account is a fixed 8-byte
//! header followed by the type-specific record: little-endian integers,
//! one-byte option tags, one-byte enum tags, and length-prefixed lists.
//! The spec-level readers below are the ground truth; each executable
//! reader is proved to return exactly what its spec reader says.

use crate::types::{
    AssetAccount, AssetAccountV, ConfigAccount, ConfigAccountV, GroupAssetAccount, MarketType,
    ProgramStatus, RoundAccount, RoundAccountV, RoundStatus, Address,
};
use vstd::bytes::{
    spec_u16_from_le_bytes, spec_u32_from_le_bytes, spec_u64_from_le_bytes, u16_from_le_bytes,
    u32_from_le_bytes, u64_from_le_bytes,
};
use vstd::prelude::*;

verus! {

/// The executable reader returned exactly what the spec reader says.
pub open spec fn reads_as<T>(r: Option<(T, usize)>, s: Option<(T, int)>) -> bool {
    match s {
        Some((v, p)) => r matches Some(x) && x.0 == v && x.1 == p,
        None => r is None,
    }
}

pub open spec fn spec_read_u8(d: Seq<u8>, pos: int) -> Option<(u8, int)> {
    if 0 <= pos && pos + 1 <= d.len() {
        Some((d[pos], pos + 1))
    } else {
        None
    }
}

pub fn read_u8(d: &Vec<u8>, pos: usize) -> (r: Option<(u8, usize)>)
    ensures
        reads_as(r, spec_read_u8(d@, pos as int)),
{
    if pos < d.len() {
        Some((d[pos], pos + 1))
    } else {
        None
    }
}

pub open spec fn spec_read_u16(d: Seq<u8>, pos: int) -> Option<(u16, int)> {
    if 0 <= pos && pos + 2 <= d.len() {
        Some((spec_u16_from_le_bytes(d.subrange(pos, pos + 2)), pos + 2))
    } else {
        None
    }
}

pub fn read_u16(d: &Vec<u8>, pos: usize) -> (r: Option<(u16, usize)>)
    ensures
        reads_as(r, spec_read_u16(d@, pos as int)),
{
    if pos <= d.len() && d.len() - pos >= 2 {
        let v = u16_from_le_bytes(&d.as_slice()[pos..pos + 2]);
        Some((v, pos + 2))
    } else {
        None
    }
}

pub open spec fn spec_read_u32(d: Seq<u8>, pos: int) -> Option<(u32, int)> {
    if 0 <= pos && pos + 4 <= d.len() {
        Some((spec_u32_from_le_bytes(d.subrange(pos, pos + 4)), pos + 4))
    } else {
        None
    }
}

pub fn read_u32(d: &Vec<u8>, pos: usize) -> (r: Option<(u32, usize)>)
    ensures
        reads_as(r, spec_read_u32(d@, pos as int)),
{
    if pos <= d.len() && d.len() - pos >= 4 {
        let v = u32_from_le_bytes(&d.as_slice()[pos..pos + 4]);
        Some((v, pos + 4))
    } else {
        None
    }
}

pub open spec fn spec_read_u64(d: Seq<u8>, pos: int) -> Option<(u64, int)> {
    if 0 <= pos && pos + 8 <= d.len() {
        Some((spec_u64_from_le_bytes(d.subrange(pos, pos + 8)), pos + 8))
    } else {
        None
    }
}

pub fn read_u64(d: &Vec<u8>, pos: usize) -> (r: Option<(u64, usize)>)
    ensures
        reads_as(r, spec_read_u64(d@, pos as int)),
{
    if pos <= d.len() && d.len() - pos >= 8 {
        let v = u64_from_le_bytes(&d.as_slice()[pos..pos + 8]);
        Some((v, pos + 8))
    } else {
        None
    }
}

/// A signed quantity is stored as its 8 little-endian two's-complement bytes.
pub open spec fn spec_read_i64(d: Seq<u8>, pos: int) -> Option<(i64, int)> {
    match spec_read_u64(d, pos) {
        Some((v, p)) => Some((v as i64, p)),
        None => None,
    }
}

pub fn read_i64(d: &Vec<u8>, pos: usize) -> (r: Option<(i64, usize)>)
    ensures
        reads_as(r, spec_read_i64(d@, pos as int)),
{
    match read_u64(d, pos) {
        Some((v, p)) => Some((v as i64, p)),
        None => None,
    }
}

pub open spec fn spec_read_bytes(d: Seq<u8>, pos: int, n: int) -> Option<(Seq<u8>, int)> {
    if 0 <= pos && 0 <= n && pos + n <= d.len() {
        Some((d.subrange(pos, pos + n), pos + n))
    } else {
        None
    }
}

pub fn read_bytes(d: &Vec<u8>, pos: usize, n: usize) -> (r: Option<(Vec<u8>, usize)>)
    ensures
        (match spec_read_bytes(d@, pos as int, n as int) {
            Some((v, p)) => r matches Some(x) && x.0@ == v && x.1 == p,
            None => r is None,
        }),
{
    if pos <= d.len() && d.len() - pos >= n {
        let mut out: Vec<u8> = Vec::new();
        let mut i: usize = 0;
        while i < n
            invariant
                i <= n,
                pos + n <= d.len(),
                out@ == d@.subrange(pos as int, pos + i as int),
            decreases n - i,
        {
            out.push(d[pos + i]);
            proof {
                assert(out@ =~= d@.subrange(pos as int, pos + i + 1 as int));
            }
            i = i + 1;
        }
        Some((out, pos + n))
    } else {
        None
    }
}

/// An address is stored as 32 raw bytes.
pub open spec fn spec_read_address(d: Seq<u8>, pos: int) -> Option<(Seq<u8>, int)> {
    spec_read_bytes(d, pos, 32)
}

pub fn read_address(d: &Vec<u8>, pos: usize) -> (r: Option<(Address, usize)>)
    ensures
        (match spec_read_address(d@, pos as int) {
            Some((v, p)) => r matches Some(x) && x.0@ == v && x.1 == p,
            None => r is None,
        }),
{
    match read_bytes(d, pos, 32) {
        Some((bytes, p)) => Some((Address::new(bytes), p)),
        None => None,
    }
}

/// An optional quantity is a one-byte tag, 0 for absent and 1 for present,
/// followed by the value when present; any other tag is a decode error.
pub open spec fn spec_read_opt_u64(d: Seq<u8>, pos: int) -> Option<(Option<u64>, int)> {
    match spec_read_u8(d, pos) {
        Some((tag, p)) => if tag == 0 {
            Some((None, p))
        } else if tag == 1 {
            match spec_read_u64(d, p) {
                Some((v, q)) => Some((Some(v), q)),
                None => None,
            }
        } else {
            None
        },
        None => None,
    }
}

pub fn read_opt_u64(d: &Vec<u8>, pos: usize) -> (r: Option<(Option<u64>, usize)>)
    ensures
        reads_as(r, spec_read_opt_u64(d@, pos as int)),
{
    match read_u8(d, pos) {
        Some((tag, p)) => if tag == 0 {
            Some((None, p))
        } else if tag == 1 {
            match read_u64(d, p) {
                Some((v, q)) => Some((Some(v), q)),
                None => None,
            }
        } else {
            None
        },
        None => None,
    }
}

pub open spec fn spec_read_opt_i64(d: Seq<u8>, pos: int) -> Option<(Option<i64>, int)> {
    match spec_read_u8(d, pos) {
        Some((tag, p)) => if tag == 0 {
            Some((None, p))
        } else if tag == 1 {
            match spec_read_i64(d, p) {
                Some((v, q)) => Some((Some(v), q)),
                None => None,
            }
        } else {
            None
        },
        None => None,
    }
}

pub fn read_opt_i64(d: &Vec<u8>, pos: usize) -> (r: Option<(Option<i64>, usize)>)
    ensures
        reads_as(r, spec_read_opt_i64(d@, pos as int)),
{
    match read_u8(d, pos) {
        Some((tag, p)) => if tag == 0 {
            Some((None, p))
        } else if tag == 1 {
            match read_i64(d, p) {
                Some((v, q)) => Some((Some(v), q)),
                None => None,
            }
        } else {
            None
        },
        None => None,
    }
}

/// `n` consecutive unsigned 64-bit items.
pub open spec fn spec_read_u64_items(d: Seq<u8>, pos: int, n: int) -> Option<(Seq<u64>, int)>
    decreases n,
{
    if n <= 0 {
        Some((Seq::empty(), pos))
    } else {
        match spec_read_u64(d, pos) {
            Some((v, p)) => match spec_read_u64_items(d, p, n - 1) {
                Some((rest, q)) => Some((seq![v] + rest, q)),
                None => None,
            },
            None => None,
        }
    }
}

/// A list of ids is a 32-bit count followed by that many items.
pub open spec fn spec_read_vec_u64(d: Seq<u8>, pos: int) -> Option<(Seq<u64>, int)> {
    match spec_read_u32(d, pos) {
        Some((n, p)) => spec_read_u64_items(d, p, n as int),
        None => None,
    }
}

pub fn read_vec_u64(d: &Vec<u8>, pos: usize) -> (r: Option<(Vec<u64>, usize)>)
    ensures
        (match spec_read_vec_u64(d@, pos as int) {
            Some((v, p)) => r matches Some(x) && x.0@ == v && x.1 == p,
            None => r is None,
        }),
{
    let (n, start) = match read_u32(d, pos) {
        Some(x) => x,
        None => {
            return None;
        },
    };
    let n: usize = n as usize;
    let mut out: Vec<u64> = Vec::new();
    let mut cur: usize = start;
    let mut i: usize = 0;
    proof {
        match spec_read_u64_items(d@, start as int, n as int) {
            Some((rest, q)) => {
                assert(Seq::<u64>::empty() + rest =~= rest);
            },
            None => {},
        }
    }
    while i < n
        invariant
            i <= n,
            out@.len() == i,
            (match spec_read_u32(d@, pos as int) {
                Some((m, s)) => m as int == n as int && s == start as int,
                None => false,
            }),
            (match spec_read_u64_items(d@, cur as int, (n - i) as int) {
                Some((rest, q)) => spec_read_u64_items(d@, start as int, n as int) == Some(
                    (out@ + rest, q),
                ),
                None => spec_read_u64_items(d@, start as int, n as int) is None,
            }),
        decreases n - i,
    {
        let (v, p) = match read_u64(d, cur) {
            Some(x) => x,
            None => {
                return None;
            },
        };
        let ghost old_out = out@;
        out.push(v);
        proof {
            match spec_read_u64_items(d@, p as int, (n - i - 1) as int) {
                Some((rest, q)) => {
                    assert(old_out + (seq![v] + rest) =~= out@ + rest);
                },
                None => {},
            }
        }
        cur = p;
        i = i + 1;
    }
    proof {
        assert(spec_read_u64_items(d@, cur as int, 0) == Some((Seq::<u64>::empty(), cur as int)));
        assert(out@ + Seq::<u64>::empty() =~= out@);
    }
    Some((out, cur))
}

/// `n` consecutive 32-byte addresses.
pub open spec fn spec_read_address_items(d: Seq<u8>, pos: int, n: int) -> Option<
    (Seq<Seq<u8>>, int),
>
    decreases n,
{
    if n <= 0 {
        Some((Seq::empty(), pos))
    } else {
        match spec_read_address(d, pos) {
            Some((v, p)) => match spec_read_address_items(d, p, n - 1) {
                Some((rest, q)) => Some((seq![v] + rest, q)),
                None => None,
            },
            None => None,
        }
    }
}

/// A list of addresses is a 32-bit count followed by that many addresses.
pub open spec fn spec_read_vec_address(d: Seq<u8>, pos: int) -> Option<(Seq<Seq<u8>>, int)> {
    match spec_read_u32(d, pos) {
        Some((n, p)) => spec_read_address_items(d, p, n as int),
        None => None,
    }
}

pub fn read_vec_address(d: &Vec<u8>, pos: usize) -> (r: Option<(Vec<Address>, usize)>)
    ensures
        (match spec_read_vec_address(d@, pos as int) {
            Some((v, p)) => r matches Some(x) && x.0.deep_view() == v && x.1 == p,
            None => r is None,
        }),
{
    let (n, start) = match read_u32(d, pos) {
        Some(x) => x,
        None => {
            return None;
        },
    };
    let n: usize = n as usize;
    let mut out: Vec<Address> = Vec::new();
    let mut cur: usize = start;
    let mut i: usize = 0;
    proof {
        assert(out.deep_view() =~= Seq::<Seq<u8>>::empty());
        match spec_read_address_items(d@, start as int, n as int) {
            Some((rest, q)) => {
                assert(Seq::<Seq<u8>>::empty() + rest =~= rest);
            },
            None => {},
        }
    }
    while i < n
        invariant
            i <= n,
            out@.len() == i,
            (match spec_read_u32(d@, pos as int) {
                Some((m, s)) => m as int == n as int && s == start as int,
                None => false,
            }),
            (match spec_read_address_items(d@, cur as int, (n - i) as int) {
                Some((rest, q)) => spec_read_address_items(d@, start as int, n as int) == Some(
                    (out.deep_view() + rest, q),
                ),
                None => spec_read_address_items(d@, start as int, n as int) is None,
            }),
        decreases n - i,
    {
        let (v, p) = match read_address(d, cur) {
            Some(x) => x,
            None => {
                return None;
            },
        };
        let ghost old_out = out.deep_view();
        let ghost vv = v@;
        out.push(v);
        proof {
            assert(out.deep_view() =~= old_out + seq![vv]);
            match spec_read_address_items(d@, p as int, (n - i - 1) as int) {
                Some((rest, q)) => {
                    assert(old_out + (seq![vv] + rest) =~= out.deep_view() + rest);
                },
                None => {},
            }
        }
        cur = p;
        i = i + 1;
    }
    proof {
        assert(spec_read_address_items(d@, cur as int, 0) == Some(
            (Seq::<Seq<u8>>::empty(), cur as int),
        ));
        assert(out.deep_view() + Seq::<Seq<u8>>::empty() =~= out.deep_view());
    }
    Some((out, cur))
}

/// A market type is a one-byte tag in declaration order.
pub open spec fn spec_read_market_type(d: Seq<u8>, pos: int) -> Option<(MarketType, int)> {
    match spec_read_u8(d, pos) {
        Some((tag, p)) => if tag == 0 {
            Some((MarketType::SingleAsset, p))
        } else if tag == 1 {
            Some((MarketType::GroupBattle, p))
        } else {
            None
        },
        None => None,
    }
}

pub fn read_market_type(d: &Vec<u8>, pos: usize) -> (r: Option<(MarketType, usize)>)
    ensures
        reads_as(r, spec_read_market_type(d@, pos as int)),
{
    match read_u8(d, pos) {
        Some((tag, p)) => if tag == 0 {
            Some((MarketType::SingleAsset, p))
        } else if tag == 1 {
            Some((MarketType::GroupBattle, p))
        } else {
            None
        },
        None => None,
    }
}

/// A round status is a one-byte tag in declaration order.
pub open spec fn spec_read_round_status(d: Seq<u8>, pos: int) -> Option<(RoundStatus, int)> {
    match spec_read_u8(d, pos) {
        Some((tag, p)) => if tag == 0 {
            Some((RoundStatus::Scheduled, p))
        } else if tag == 1 {
            Some((RoundStatus::Active, p))
        } else if tag == 2 {
            Some((RoundStatus::Cancelling, p))
        } else if tag == 3 {
            Some((RoundStatus::PendingSettlement, p))
        } else if tag == 4 {
            Some((RoundStatus::Ended, p))
        } else {
            None
        },
        None => None,
    }
}

pub fn read_round_status(d: &Vec<u8>, pos: usize) -> (r: Option<(RoundStatus, usize)>)
    ensures
        reads_as(r, spec_read_round_status(d@, pos as int)),
{
    match read_u8(d, pos) {
        Some((tag, p)) => if tag == 0 {
            Some((RoundStatus::Scheduled, p))
        } else if tag == 1 {
            Some((RoundStatus::Active, p))
        } else if tag == 2 {
            Some((RoundStatus::Cancelling, p))
        } else if tag == 3 {
            Some((RoundStatus::PendingSettlement, p))
        } else if tag == 4 {
            Some((RoundStatus::Ended, p))
        } else {
            None
        },
        None => None,
    }
}

/// A program status is a one-byte tag in declaration order.
pub open spec fn spec_read_program_status(d: Seq<u8>, pos: int) -> Option<(ProgramStatus, int)> {
    match spec_read_u8(d, pos) {
        Some((tag, p)) => if tag == 0 {
            Some((ProgramStatus::Active, p))
        } else if tag == 1 {
            Some((ProgramStatus::Paused, p))
        } else if tag == 2 {
            Some((ProgramStatus::EmergencyPaused, p))
        } else {
            None
        },
        None => None,
    }
}

pub fn read_program_status(d: &Vec<u8>, pos: usize) -> (r: Option<(ProgramStatus, usize)>)
    ensures
        reads_as(r, spec_read_program_status(d@, pos as int)),
{
    match read_u8(d, pos) {
        Some((tag, p)) => if tag == 0 {
            Some((ProgramStatus::Active, p))
        } else if tag == 1 {
            Some((ProgramStatus::Paused, p))
        } else if tag == 2 {
            Some((ProgramStatus::EmergencyPaused, p))
        } else {
            None
        },
        None => None,
    }
}

/// A round record, field after field in the ledger program's layout.
pub open spec fn spec_read_round(d: Seq<u8>, pos: int) -> Option<(RoundAccountV, int)> {
    match spec_read_u64(d, pos) {
        None => None,
        Some((id, pos)) => match spec_read_i64(d, pos) {
            None => None,
            Some((start_time, pos)) => match spec_read_i64(d, pos) {
                None => None,
                Some((end_time, pos)) => match spec_read_i64(d, pos) {
                    None => None,
                    Some((bet_cutoff_time, pos)) => match spec_read_address(d, pos) {
                        None => None,
                        Some((vault, pos)) => match spec_read_u8(d, pos) {
                            None => None,
                            Some((vault_bump, pos)) => match spec_read_market_type(d, pos) {
                                None => None,
                                Some((market_type, pos)) => match spec_read_round_status(d, pos) {
                                    None => None,
                                    Some((status, pos)) => spec_read_round_tail(
                                        d,
                                        pos,
                                        id,
                                        start_time,
                                        end_time,
                                        bet_cutoff_time,
                                        vault,
                                        vault_bump,
                                        market_type,
                                        status,
                                    ),
                                },
                            },
                        },
                    },
                },
            },
        },
    }
}

/// The remaining fields of a round record, after the status field.
pub open spec fn spec_read_round_tail(
    d: Seq<u8>,
    pos: int,
    id: u64,
    start_time: i64,
    end_time: i64,
    bet_cutoff_time: i64,
    vault: Seq<u8>,
    vault_bump: u8,
    market_type: MarketType,
    status: RoundStatus,
) -> Option<(RoundAccountV, int)> {
    match spec_read_opt_u64(d, pos) {
        None => None,
        Some((start_price, pos)) => match spec_read_opt_u64(d, pos) {
            None => None,
            Some((final_price, pos)) => match spec_read_u64(d, pos) {
                None => None,
                Some((total_pool, pos)) => match spec_read_u64(d, pos) {
                    None => None,
                    Some((total_bets, pos)) => match spec_read_u64(d, pos) {
                        None => None,
                        Some((total_fee_collected, pos)) => match spec_read_u64(d, pos) {
                            None => None,
                            Some((total_reward_pool, pos)) => match spec_read_u64(d, pos) {
                                None => None,
                                Some((winners_weight, pos)) => match spec_read_u64(d, pos) {
                                    None => None,
                                    Some((settled_bets, pos)) => match spec_read_u64(d, pos) {
                                        None => None,
                                        Some((cancelled_bets, pos)) => match spec_read_vec_u64(
                                            d,
                                            pos,
                                        ) {
                                            None => None,
                                            Some((winner_group_ids, pos)) => match spec_read_u64(
                                                d,
                                                pos,
                                            ) {
                                                None => None,
                                                Some((total_groups, pos)) => match spec_read_u64(
                                                    d,
                                                    pos,
                                                ) {
                                                    None => None,
                                                    Some(
                                                        (captured_start_groups, pos),
                                                    ) => match spec_read_u64(d, pos) {
                                                        None => None,
                                                        Some(
                                                            (captured_end_groups, pos),
                                                        ) => match spec_read_i64(d, pos) {
                                                            None => None,
                                                            Some(
                                                                (created_at, pos),
                                                            ) => match spec_read_opt_i64(d, pos) {
                                                                None => None,
                                                                Some(
                                                                    (settled_at, pos),
                                                                ) => match spec_read_u8(d, pos) {
                                                                    None => None,
                                                                    Some((bump, pos)) => Some(
                                                                        (
                                                                            RoundAccountV {
                                                                                id,
                                                                                start_time,
                                                                                end_time,
                                                                                bet_cutoff_time,
                                                                                vault,
                                                                                vault_bump,
                                                                                market_type,
                                                                                status,
                                                                                start_price,
                                                                                final_price,
                                                                                total_pool,
                                                                                total_bets,
                                                                                total_fee_collected,
                                                                                total_reward_pool,
                                                                                winners_weight,
                                                                                settled_bets,
                                                                                cancelled_bets,
                                                                                winner_group_ids,
                                                                                total_groups,
                                                                                captured_start_groups,
                                                                                captured_end_groups,
                                                                                created_at,
                                                                                settled_at,
                                                                                bump,
                                                                            },
                                                                            pos,
                                                                        ),
                                                                    ),
                                                                },
                                                            },
                                                        },
                                                    },
                                                },
                                            },
                                        },
                                    },
                                },
                            },
                        },
                    },
                },
            },
        },
    }
}

/// A configuration record, field after field in the ledger program's layout.
pub open spec fn spec_read_config(d: Seq<u8>, pos: int) -> Option<(ConfigAccountV, int)> {
    match spec_read_address(d, pos) {
        None => None,
        Some((admin, pos)) => match spec_read_vec_address(d, pos) {
            None => None,
            Some((keeper_authorities, pos)) => match spec_read_address(d, pos) {
                None => None,
                Some((token_mint, pos)) => match spec_read_address(d, pos) {
                    None => None,
                    Some((treasury, pos)) => match spec_read_bytes(d, pos, 32) {
                        None => None,
                        Some((single_asset_feed_id, pos)) => match spec_read_u64(d, pos) {
                            None => None,
                            Some((max_price_update_age_secs, pos)) => spec_read_config_tail(
                                d,
                                pos,
                                admin,
                                keeper_authorities,
                                token_mint,
                                treasury,
                                single_asset_feed_id,
                                max_price_update_age_secs,
                            ),
                        },
                    },
                },
            },
        },
    }
}

/// The remaining fields of a configuration record.
pub open spec fn spec_read_config_tail(
    d: Seq<u8>,
    pos: int,
    admin: Seq<u8>,
    keeper_authorities: Seq<Seq<u8>>,
    token_mint: Seq<u8>,
    treasury: Seq<u8>,
    single_asset_feed_id: Seq<u8>,
    max_price_update_age_secs: u64,
) -> Option<(ConfigAccountV, int)> {
    match spec_read_u16(d, pos) {
        None => None,
        Some((fee_single_asset_bps, pos)) => match spec_read_u16(d, pos) {
            None => None,
            Some((fee_group_battle_bps, pos)) => match spec_read_u64(d, pos) {
                None => None,
                Some((min_bet_amount, pos)) => match spec_read_i64(d, pos) {
                    None => None,
                    Some((bet_cutoff_window_secs, pos)) => match spec_read_u16(d, pos) {
                        None => None,
                        Some((min_time_factor_bps, pos)) => match spec_read_u16(d, pos) {
                            None => None,
                            Some((max_time_factor_bps, pos)) => match spec_read_u16(d, pos) {
                                None => None,
                                Some(
                                    (default_direction_factor_bps, pos),
                                ) => match spec_read_program_status(d, pos) {
                                    None => None,
                                    Some((status, pos)) => match spec_read_u64(d, pos) {
                                        None => None,
                                        Some(
                                            (current_round_counter, pos),
                                        ) => match spec_read_u8(d, pos) {
                                            None => None,
                                            Some((version, pos)) => match spec_read_u8(d, pos) {
                                                None => None,
                                                Some((bump, pos)) => Some(
                                                    (
                                                        ConfigAccountV {
                                                            admin,
                                                            keeper_authorities,
                                                            token_mint,
                                                            treasury,
                                                            single_asset_feed_id,
                                                            max_price_update_age_secs,
                                                            fee_single_asset_bps,
                                                            fee_group_battle_bps,
                                                            min_bet_amount,
                                                            bet_cutoff_window_secs,
                                                            min_time_factor_bps,
                                                            max_time_factor_bps,
                                                            default_direction_factor_bps,
                                                            status,
                                                            current_round_counter,
                                                            version,
                                                            bump,
                                                        },
                                                        pos,
                                                    ),
                                                ),
                                            },
                                        },
                                    },
                                },
                            },
                        },
                    },
                },
            },
        },
    }
}

/// Decodes a configuration record, returning exactly what
/// `spec_read_config` says.
pub fn read_config(d: &Vec<u8>, pos: usize) -> (r: Option<(ConfigAccount, usize)>)
    ensures
        (match spec_read_config(d@, pos as int) {
            Some((v, p)) => r matches Some(x) && x.0@ == v && x.1 == p,
            None => r is None,
        }),
{
    let (admin, pos) = match read_address(d, pos) {
        Some(x) => x,
        None => {
            return None;
        },
    };
    let (keeper_authorities, pos) = match read_vec_address(d, pos) {
        Some(x) => x,
        None => {
            return None;
        },
    };
    let (token_mint, pos) = match read_address(d, pos) {
        Some(x) => x,
        None => {
            return None;
        },
    };
    let (treasury, pos) = match read_address(d, pos) {
        Some(x) => x,
        None => {
            return None;
        },
    };
    let (single_asset_feed_id, pos) = match read_bytes(d, pos, 32) {
        Some(x) => x,
        None => {
            return None;
        },
    };
    let (max_price_update_age_secs, pos) = match read_u64(d, pos) {
        Some(x) => x,
        None => {
            return None;
        },
    };
    let (fee_single_asset_bps, pos) = match read_u16(d, pos) {
        Some(x) => x,
        None => {
            return None;
        },
    };
    let (fee_group_battle_bps, pos) = match read_u16(d, pos) {
        Some(x) => x,
        None => {
            return None;
        },
    };
    let (min_bet_amount, pos) = match read_u64(d, pos) {
        Some(x) => x,
        None => {
            return None;
        },
    };
    let (bet_cutoff_window_secs, pos) = match read_i64(d, pos) {
        Some(x) => x,
        None => {
            return None;
        },
    };
    let (min_time_factor_bps, pos) = match read_u16(d, pos) {
        Some(x) => x,
        None => {
            return None;
        },
    };
    let (max_time_factor_bps, pos) = match read_u16(d, pos) {
        Some(x) => x,
        None => {
            return None;
        },
    };
    let (default_direction_factor_bps, pos) = match read_u16(d, pos) {
        Some(x) => x,
        None => {
            return None;
        },
    };
    let (status, pos) = match read_program_status(d, pos) {
        Some(x) => x,
        None => {
            return None;
        },
    };
    let (current_round_counter, pos) = match read_u64(d, pos) {
        Some(x) => x,
        None => {
            return None;
        },
    };
    let (version, pos) = match read_u8(d, pos) {
        Some(x) => x,
        None => {
            return None;
        },
    };
    let (bump, pos) = match read_u8(d, pos) {
        Some(x) => x,
        None => {
            return None;
        },
    };
    Some(
        (
            ConfigAccount {
                admin,
                keeper_authorities,
                token_mint,
                treasury,
                single_asset_feed_id,
                max_price_update_age_secs,
                fee_single_asset_bps,
                fee_group_battle_bps,
                min_bet_amount,
                bet_cutoff_window_secs,
                min_time_factor_bps,
                max_time_factor_bps,
                default_direction_factor_bps,
                status,
                current_round_counter,
                version,
                bump,
            },
            pos,
        ),
    )
}

/// An asset record, field after field in the ledger program's layout.
pub open spec fn spec_read_asset(d: Seq<u8>, pos: int) -> Option<(AssetAccountV, int)> {
    match spec_read_u64(d, pos) {
        None => None,
        Some((id, pos)) => match spec_read_address(d, pos) {
            None => None,
            Some((group, pos)) => match spec_read_address(d, pos) {
                None => None,
                Some((round, pos)) => match spec_read_bytes(d, pos, 32) {
                    None => None,
                    Some((feed_id, pos)) => match spec_read_bytes(d, pos, 8) {
                        None => None,
                        Some((symbol, pos)) => match spec_read_opt_u64(d, pos) {
                            None => None,
                            Some((start_price, pos)) => match spec_read_opt_u64(d, pos) {
                                None => None,
                                Some((final_price, pos)) => match spec_read_opt_i64(d, pos) {
                                    None => None,
                                    Some((growth_rate_bps, pos)) => match spec_read_i64(d, pos) {
                                        None => None,
                                        Some((created_at, pos)) => match spec_read_opt_i64(
                                            d,
                                            pos,
                                        ) {
                                            None => None,
                                            Some(
                                                (started_price_at, pos),
                                            ) => match spec_read_opt_i64(d, pos) {
                                                None => None,
                                                Some(
                                                    (finalized_at, pos),
                                                ) => match spec_read_u8(d, pos) {
                                                    None => None,
                                                    Some((bump, pos)) => Some(
                                                        (
                                                            AssetAccountV {
                                                                id,
                                                                group,
                                                                round,
                                                                feed_id,
                                                                symbol,
                                                                start_price,
                                                                final_price,
                                                                growth_rate_bps,
                                                                created_at,
                                                                started_price_at,
                                                                finalized_at,
                                                                bump,
                                                            },
                                                            pos,
                                                        ),
                                                    ),
                                                },
                                            },
                                        },
                                    },
                                },
                            },
                        },
                    },
                },
            },
        },
    }
}

/// Decodes an asset record, returning exactly what `spec_read_asset` says.
pub fn read_asset(d: &Vec<u8>, pos: usize) -> (r: Option<(AssetAccount, usize)>)
    ensures
        (match spec_read_asset(d@, pos as int) {
            Some((v, p)) => r matches Some(x) && x.0@ == v && x.1 == p,
            None => r is None,
        }),
{
    let (id, pos) = match read_u64(d, pos) {
        Some(x) => x,
        None => {
            return None;
        },
    };
    let (group, pos) = match read_address(d, pos) {
        Some(x) => x,
        None => {
            return None;
        },
    };
    let (round, pos) = match read_address(d, pos) {
        Some(x) => x,
        None => {
            return None;
        },
    };
    let (feed_id, pos) = match read_bytes(d, pos, 32) {
        Some(x) => x,
        None => {
            return None;
        },
    };
    let (symbol, pos) = match read_bytes(d, pos, 8) {
        Some(x) => x,
        None => {
            return None;
        },
    };
    let (start_price, pos) = match read_opt_u64(d, pos) {
        Some(x) => x,
        None => {
            return None;
        },
    };
    let (final_price, pos) = match read_opt_u64(d, pos) {
        Some(x) => x,
        None => {
            return None;
        },
    };
    let (growth_rate_bps, pos) = match read_opt_i64(d, pos) {
        Some(x) => x,
        None => {
            return None;
        },
    };
    let (created_at, pos) = match read_i64(d, pos) {
        Some(x) => x,
        None => {
            return None;
        },
    };
    let (started_price_at, pos) = match read_opt_i64(d, pos) {
        Some(x) => x,
        None => {
            return None;
        },
    };
    let (finalized_at, pos) = match read_opt_i64(d, pos) {
        Some(x) => x,
        None => {
            return None;
        },
    };
    let (bump, pos) = match read_u8(d, pos) {
        Some(x) => x,
        None => {
            return None;
        },
    };
    Some(
        (
            AssetAccount {
                id,
                group,
                round,
                feed_id,
                symbol,
                start_price,
                final_price,
                growth_rate_bps,
                created_at,
                started_price_at,
                finalized_at,
                bump,
            },
            pos,
        ),
    )
}

/// A group-progress record: the group's asset count and its three progress
/// counters.
pub open spec fn spec_read_group_asset(d: Seq<u8>, pos: int) -> Option<(GroupAssetAccount, int)> {
    match spec_read_u64(d, pos) {
        None => None,
        Some((total_assets, pos)) => match spec_read_u64(d, pos) {
            None => None,
            Some((captured_start_price_assets, pos)) => match spec_read_u64(d, pos) {
                None => None,
                Some((finalized_start_price_assets, pos)) => match spec_read_u64(d, pos) {
                    None => None,
                    Some((captured_end_price_assets, pos)) => Some(
                        (
                            GroupAssetAccount {
                                total_assets,
                                captured_start_price_assets,
                                finalized_start_price_assets,
                                captured_end_price_assets,
                            },
                            pos,
                        ),
                    ),
                },
            },
        },
    }
}

/// Decodes a group-progress record, returning exactly what
/// `spec_read_group_asset` says.
pub fn read_group_asset(d: &Vec<u8>, pos: usize) -> (r: Option<(GroupAssetAccount, usize)>)
    ensures
        reads_as(r, spec_read_group_asset(d@, pos as int)),
{
    let (total_assets, pos) = match read_u64(d, pos) {
        Some(x) => x,
        None => {
            return None;
        },
    };
    let (captured_start_price_assets, pos) = match read_u64(d, pos) {
        Some(x) => x,
        None => {
            return None;
        },
    };
    let (finalized_start_price_assets, pos) = match read_u64(d, pos) {
        Some(x) => x,
        None => {
            return None;
        },
    };
    let (captured_end_price_assets, pos) = match read_u64(d, pos) {
        Some(x) => x,
        None => {
            return None;
        },
    };
    Some(
        (
            GroupAssetAccount {
                total_assets,
                captured_start_price_assets,
                finalized_start_price_assets,
                captured_end_price_assets,
            },
            pos,
        ),
    )
}

/// The encoding of an unsigned 64-bit quantity: its 8 little-endian bytes.
pub open spec fn enc_u64(v: u64) -> Seq<u8> {
    vstd::bytes::spec_u64_to_le_bytes(v)
}

/// The encoding of a signed 64-bit quantity: its two's-complement bits,
/// little-endian.
pub open spec fn enc_i64(v: i64) -> Seq<u8> {
    enc_u64(v as u64)
}

/// The encoding of a group-progress record: its four counters in order.
pub open spec fn enc_group_asset(g: GroupAssetAccount) -> Seq<u8> {
    enc_u64(g.total_assets) + enc_u64(g.captured_start_price_assets) + enc_u64(
        g.finalized_start_price_assets,
    ) + enc_u64(g.captured_end_price_assets)
}

/// Reading an unsigned 64-bit quantity off its own encoding returns it.
pub proof fn lemma_read_u64_enc(d: Seq<u8>, pos: int, v: u64)
    requires
        0 <= pos,
        pos + 8 <= d.len(),
        d.subrange(pos, pos + 8) == enc_u64(v),
    ensures
        spec_read_u64(d, pos) == Some((v, pos + 8)),
{
    vstd::bytes::lemma_auto_spec_u64_to_from_le_bytes();
}

/// Reading a signed 64-bit quantity off its own encoding returns it.
pub proof fn lemma_read_i64_enc(d: Seq<u8>, pos: int, v: i64)
    requires
        0 <= pos,
        pos + 8 <= d.len(),
        d.subrange(pos, pos + 8) == enc_i64(v),
    ensures
        spec_read_i64(d, pos) == Some((v, pos + 8)),
{
    lemma_read_u64_enc(d, pos, v as u64);
    assert((v as u64) as i64 == v) by (bit_vector);
}

/// Splitting a read off a concatenation laid down in the data: the first
/// piece sits at `pos`, the second right after it.
pub proof fn lemma_split_enc(d: Seq<u8>, pos: int, a: Seq<u8>, b: Seq<u8>)
    requires
        0 <= pos,
        pos + a.len() + b.len() <= d.len(),
        d.subrange(pos, pos + a.len() + b.len()) == a + b,
    ensures
        d.subrange(pos, pos + a.len()) == a,
        d.subrange(pos + a.len(), pos + a.len() + b.len()) == b,
{
    assert forall|i: int| 0 <= i < a.len() implies d.subrange(pos, pos + a.len())[i] == a[i] by {
        assert(d.subrange(pos, pos + a.len() + b.len())[i] == (a + b)[i]);
    }
    assert(d.subrange(pos, pos + a.len()) =~= a);
    assert forall|i: int|
        0 <= i < b.len() implies d.subrange(pos + a.len(), pos + a.len() + b.len())[i] == b[i] by {
        assert(d.subrange(pos, pos + a.len() + b.len())[a.len() + i] == (a + b)[a.len() + i]);
        assert(d.subrange(pos, pos + a.len() + b.len())[a.len() + i] == d[pos + a.len() + i]);
        assert((a + b)[a.len() + i] == b[i]);
        assert(d.subrange(pos + a.len(), pos + a.len() + b.len())[i] == d[pos + a.len() + i]);
    }
    assert(d.subrange(pos + a.len(), pos + a.len() + b.len()) =~= b);
}

/// The codec reads back exactly what the group-progress encoding lays
/// down, wherever it sits in an account's payload.
pub proof fn lemma_group_asset_roundtrip(d: Seq<u8>, pos: int, g: GroupAssetAccount)
    requires
        0 <= pos,
        pos + 32 <= d.len(),
        d.subrange(pos, pos + 32) == enc_group_asset(g),
    ensures
        spec_read_group_asset(d, pos) == Some((g, pos + 32)),
{
    let e1 = enc_u64(g.total_assets);
    let e2 = enc_u64(g.captured_start_price_assets);
    let e3 = enc_u64(g.finalized_start_price_assets);
    let e4 = enc_u64(g.captured_end_price_assets);
    vstd::bytes::lemma_auto_spec_u64_to_from_le_bytes();
    assert(e1.len() == 8 && e2.len() == 8 && e3.len() == 8 && e4.len() == 8);
    assert(d.subrange(pos, pos + 32) == e1 + (e2 + (e3 + e4))) by {
        assert(e1 + e2 + e3 + e4 =~= e1 + (e2 + (e3 + e4)));
    }
    lemma_split_enc(d, pos, e1, e2 + (e3 + e4));
    lemma_split_enc(d, pos + 8, e2, e3 + e4);
    lemma_split_enc(d, pos + 16, e3, e4);
    lemma_read_u64_enc(d, pos, g.total_assets);
    lemma_read_u64_enc(d, pos + 8, g.captured_start_price_assets);
    lemma_read_u64_enc(d, pos + 16, g.finalized_start_price_assets);
    lemma_read_u64_enc(d, pos + 24, g.captured_end_price_assets);
}

/// The encoding of one byte: itself.
pub open spec fn enc_u8(v: u8) -> Seq<u8> {
    seq![v]
}

/// The encoding of an unsigned 32-bit quantity: its 4 little-endian bytes.
pub open spec fn enc_u32(v: u32) -> Seq<u8> {
    vstd::bytes::spec_u32_to_le_bytes(v)
}

/// The encoding of an optional unsigned quantity: a zero byte when absent,
/// a one byte and the value when present.
pub open spec fn enc_opt_u64(v: Option<u64>) -> Seq<u8> {
    match v {
        None => seq![0u8],
        Some(x) => seq![1u8] + enc_u64(x),
    }
}

/// The encoding of an optional signed quantity.
pub open spec fn enc_opt_i64(v: Option<i64>) -> Seq<u8> {
    match v {
        None => seq![0u8],
        Some(x) => seq![1u8] + enc_i64(x),
    }
}

/// The encoding of a market type: its tag byte.
pub open spec fn enc_market_type(m: MarketType) -> Seq<u8> {
    match m {
        MarketType::SingleAsset => seq![0u8],
        MarketType::GroupBattle => seq![1u8],
    }
}

/// The encoding of a round status: its tag byte.
pub open spec fn enc_round_status(s: RoundStatus) -> Seq<u8> {
    match s {
        RoundStatus::Scheduled => seq![0u8],
        RoundStatus::Active => seq![1u8],
        RoundStatus::Cancelling => seq![2u8],
        RoundStatus::PendingSettlement => seq![3u8],
        RoundStatus::Ended => seq![4u8],
    }
}

/// The encoding of consecutive unsigned 64-bit items.
pub open spec fn enc_u64_items(s: Seq<u64>) -> Seq<u8>
    decreases s.len(),
{
    if s.len() == 0 {
        Seq::empty()
    } else {
        enc_u64(s[0]) + enc_u64_items(s.skip(1))
    }
}

/// The encoding of a list of ids: a 32-bit count, then the items.
pub open spec fn enc_vec_u64(s: Seq<u64>) -> Seq<u8>
    recommends
        s.len() <= u32::MAX,
{
    enc_u32(s.len() as u32) + enc_u64_items(s)
}

/// The encoding of a round record's leading fields, through the status.
pub open spec fn enc_round_head(r: RoundAccountV) -> Seq<u8>
    recommends
        r.vault.len() == 32,
{
    enc_u64(r.id) + enc_i64(r.start_time) + enc_i64(r.end_time) + enc_i64(r.bet_cutoff_time)
        + r.vault + enc_u8(r.vault_bump) + enc_market_type(r.market_type) + enc_round_status(
        r.status,
    )
}

/// The encoding of a round record's remaining fields, after the status.
pub open spec fn enc_round_tail(r: RoundAccountV) -> Seq<u8>
    recommends
        r.winner_group_ids.len() <= u32::MAX,
{
    enc_opt_u64(r.start_price) + enc_opt_u64(r.final_price) + enc_u64(r.total_pool) + enc_u64(
        r.total_bets,
    ) + enc_u64(r.total_fee_collected) + enc_u64(r.total_reward_pool) + enc_u64(r.winners_weight)
        + enc_u64(r.settled_bets) + enc_u64(r.cancelled_bets) + enc_vec_u64(r.winner_group_ids)
        + enc_u64(r.total_groups) + enc_u64(r.captured_start_groups) + enc_u64(
        r.captured_end_groups,
    ) + enc_i64(r.created_at) + enc_opt_i64(r.settled_at) + enc_u8(r.bump)
}

/// The encoding of a round record: its fields in layout order.
pub open spec fn enc_round(r: RoundAccountV) -> Seq<u8>
    recommends
        r.vault.len() == 32,
        r.winner_group_ids.len() <= u32::MAX,
{
    enc_round_head(r) + enc_round_tail(r)
}

/// Reading one byte off its own encoding returns it.
pub proof fn lemma_read_u8_enc(d: Seq<u8>, pos: int, v: u8)
    requires
        0 <= pos,
        pos + 1 <= d.len(),
        d.subrange(pos, pos + 1) == enc_u8(v),
    ensures
        spec_read_u8(d, pos) == Some((v, pos + 1)),
{
    assert(d.subrange(pos, pos + 1)[0] == d[pos]);
}

/// Reading an unsigned 32-bit quantity off its own encoding returns it.
pub proof fn lemma_read_u32_enc(d: Seq<u8>, pos: int, v: u32)
    requires
        0 <= pos,
        pos + 4 <= d.len(),
        d.subrange(pos, pos + 4) == enc_u32(v),
    ensures
        spec_read_u32(d, pos) == Some((v, pos + 4)),
{
    vstd::bytes::lemma_auto_spec_u32_to_from_le_bytes();
    assert(vstd::bytes::spec_u32_to_le_bytes(v).len() == 4);
}

/// Reading an optional unsigned quantity off its own encoding returns it.
pub proof fn lemma_read_opt_u64_enc(d: Seq<u8>, pos: int, v: Option<u64>)
    requires
        0 <= pos,
        pos + enc_opt_u64(v).len() <= d.len(),
        d.subrange(pos, pos + enc_opt_u64(v).len()) == enc_opt_u64(v),
    ensures
        spec_read_opt_u64(d, pos) == Some((v, pos + enc_opt_u64(v).len())),
{
    vstd::bytes::lemma_auto_spec_u64_to_from_le_bytes();
    match v {
        None => {
            assert(d.subrange(pos, pos + 1)[0] == d[pos]);
        },
        Some(x) => {
            lemma_split_enc(d, pos, seq![1u8], enc_u64(x));
            assert(d.subrange(pos, pos + 1)[0] == d[pos]);
            lemma_read_u64_enc(d, pos + 1, x);
        },
    }
}

/// Reading an optional signed quantity off its own encoding returns it.
pub proof fn lemma_read_opt_i64_enc(d: Seq<u8>, pos: int, v: Option<i64>)
    requires
        0 <= pos,
        pos + enc_opt_i64(v).len() <= d.len(),
        d.subrange(pos, pos + enc_opt_i64(v).len()) == enc_opt_i64(v),
    ensures
        spec_read_opt_i64(d, pos) == Some((v, pos + enc_opt_i64(v).len())),
{
    vstd::bytes::lemma_auto_spec_u64_to_from_le_bytes();
    match v {
        None => {
            assert(d.subrange(pos, pos + 1)[0] == d[pos]);
        },
        Some(x) => {
            lemma_split_enc(d, pos, seq![1u8], enc_i64(x));
            assert(d.subrange(pos, pos + 1)[0] == d[pos]);
            lemma_read_i64_enc(d, pos + 1, x);
        },
    }
}

/// Reading a market type off its own encoding returns it.
pub proof fn lemma_read_market_type_enc(d: Seq<u8>, pos: int, m: MarketType)
    requires
        0 <= pos,
        pos + 1 <= d.len(),
        d.subrange(pos, pos + 1) == enc_market_type(m),
    ensures
        spec_read_market_type(d, pos) == Some((m, pos + 1)),
{
    assert(d.subrange(pos, pos + 1)[0] == d[pos]);
}

/// Reading a round status off its own encoding returns it.
pub proof fn lemma_read_round_status_enc(d: Seq<u8>, pos: int, s: RoundStatus)
    requires
        0 <= pos,
        pos + 1 <= d.len(),
        d.subrange(pos, pos + 1) == enc_round_status(s),
    ensures
        spec_read_round_status(d, pos) == Some((s, pos + 1)),
{
    assert(d.subrange(pos, pos + 1)[0] == d[pos]);
}

/// The items' encoding is eight bytes per item.
pub proof fn lemma_enc_u64_items_len(s: Seq<u64>)
    ensures
        enc_u64_items(s).len() == 8 * s.len(),
    decreases s.len(),
{
    vstd::bytes::lemma_auto_spec_u64_to_from_le_bytes();
    if s.len() > 0 {
        lemma_enc_u64_items_len(s.skip(1));
    }
}

/// Reading `n` items off their own encoding returns them.
pub proof fn lemma_read_u64_items_enc(d: Seq<u8>, pos: int, s: Seq<u64>)
    requires
        0 <= pos,
        pos + 8 * s.len() <= d.len(),
        d.subrange(pos, pos + 8 * s.len()) == enc_u64_items(s),
    ensures
        spec_read_u64_items(d, pos, s.len() as int) == Some((s, pos + 8 * s.len())),
    decreases s.len(),
{
    lemma_enc_u64_items_len(s);
    if s.len() == 0 {
        assert(s =~= Seq::<u64>::empty());
    } else {
        lemma_enc_u64_items_len(s.skip(1));
        lemma_split_enc(d, pos, enc_u64(s[0]), enc_u64_items(s.skip(1)));
        lemma_read_u64_enc(d, pos, s[0]);
        lemma_read_u64_items_enc(d, pos + 8, s.skip(1));
        assert(seq![s[0]] + s.skip(1) =~= s);
    }
}

/// Reading a list of ids off its own encoding returns it.
pub proof fn lemma_read_vec_u64_enc(d: Seq<u8>, pos: int, s: Seq<u64>)
    requires
        0 <= pos,
        s.len() <= u32::MAX,
        pos + enc_vec_u64(s).len() <= d.len(),
        d.subrange(pos, pos + enc_vec_u64(s).len()) == enc_vec_u64(s),
    ensures
        spec_read_vec_u64(d, pos) == Some((s, pos + enc_vec_u64(s).len())),
{
    vstd::bytes::lemma_auto_spec_u32_to_from_le_bytes();
    assert(enc_u32(s.len() as u32).len() == 4);
    lemma_enc_u64_items_len(s);
    lemma_split_enc(d, pos, enc_u32(s.len() as u32), enc_u64_items(s));
    lemma_read_u32_enc(d, pos, s.len() as u32);
    lemma_read_u64_items_enc(d, pos + 4, s);
}

/// The codec reads back exactly the round a round encoding lays down,
/// wherever it sits in an account's payload: the spec reader and the
/// record encoding agree on every well-formed record.
/// The encoding of an unsigned 16-bit quantity: its 2 little-endian bytes.
pub open spec fn enc_u16(v: u16) -> Seq<u8> {
    vstd::bytes::spec_u16_to_le_bytes(v)
}

/// Reading an unsigned 16-bit quantity off its own encoding returns it.
pub proof fn lemma_read_u16_enc(d: Seq<u8>, pos: int, v: u16)
    requires
        0 <= pos,
        pos + 2 <= d.len(),
        d.subrange(pos, pos + 2) == enc_u16(v),
    ensures
        spec_read_u16(d, pos) == Some((v, pos + 2)),
{
    vstd::bytes::lemma_auto_spec_u16_to_from_le_bytes();
    assert(vstd::bytes::spec_u16_to_le_bytes(v).len() == 2);
}

/// The encoding of a program status: its tag byte.
pub open spec fn enc_program_status(s: ProgramStatus) -> Seq<u8> {
    match s {
        ProgramStatus::Active => seq![0u8],
        ProgramStatus::Paused => seq![1u8],
        ProgramStatus::EmergencyPaused => seq![2u8],
    }
}

/// Reading a program status off its own encoding returns it.
pub proof fn lemma_read_program_status_enc(d: Seq<u8>, pos: int, s: ProgramStatus)
    requires
        0 <= pos,
        pos + 1 <= d.len(),
        d.subrange(pos, pos + 1) == enc_program_status(s),
    ensures
        spec_read_program_status(d, pos) == Some((s, pos + 1)),
{
    assert(d.subrange(pos, pos + 1)[0] == d[pos]);
}

/// The encoding of an asset record: its fields in layout order.
pub open spec fn enc_asset(a: AssetAccountV) -> Seq<u8>
    recommends
        a.group.len() == 32,
        a.round.len() == 32,
        a.feed_id.len() == 32,
        a.symbol.len() == 8,
{
    enc_u64(a.id) + a.group + a.round + a.feed_id + a.symbol + enc_opt_u64(a.start_price)
        + enc_opt_u64(a.final_price) + enc_opt_i64(a.growth_rate_bps) + enc_i64(a.created_at)
        + enc_opt_i64(a.started_price_at) + enc_opt_i64(a.finalized_at) + enc_u8(a.bump)
}

/// The codec reads back exactly the asset an asset encoding lays down.
#[verifier::rlimit(100)]
pub proof fn lemma_asset_roundtrip(d: Seq<u8>, pos: int, a: AssetAccountV)
    requires
        0 <= pos,
        a.group.len() == 32,
        a.round.len() == 32,
        a.feed_id.len() == 32,
        a.symbol.len() == 8,
        pos + enc_asset(a).len() <= d.len(),
        d.subrange(pos, pos + enc_asset(a).len()) == enc_asset(a),
    ensures
        spec_read_asset(d, pos) == Some((a, pos + enc_asset(a).len())),
{
    vstd::bytes::lemma_auto_spec_u64_to_from_le_bytes();
    let e1 = enc_u64(a.id);
    let e2 = a.group;
    let e3 = a.round;
    let e4 = a.feed_id;
    let e5 = a.symbol;
    let e6 = enc_opt_u64(a.start_price);
    let e7 = enc_opt_u64(a.final_price);
    let e8 = enc_opt_i64(a.growth_rate_bps);
    let e9 = enc_i64(a.created_at);
    let e10 = enc_opt_i64(a.started_price_at);
    let e11 = enc_opt_i64(a.finalized_at);
    let e12 = enc_u8(a.bump);
    let t12 = e12;
    let t11 = e11 + t12;
    let t10 = e10 + t11;
    let t9 = e9 + t10;
    let t8 = e8 + t9;
    let t7 = e7 + t8;
    let t6 = e6 + t7;
    let t5 = e5 + t6;
    let t4 = e4 + t5;
    let t3 = e3 + t4;
    let t2 = e2 + t3;
    let t1 = e1 + t2;
    assert(enc_asset(a) =~= t1);
    let p1 = pos;
    lemma_split_enc(d, p1, e1, t2);
    lemma_read_u64_enc(d, p1, a.id);
    let p2 = p1 + 8;
    lemma_split_enc(d, p2, e2, t3);
    assert(spec_read_address(d, p2) == Some((a.group, p2 + 32)));
    let p3 = p2 + 32;
    lemma_split_enc(d, p3, e3, t4);
    assert(spec_read_address(d, p3) == Some((a.round, p3 + 32)));
    let p4 = p3 + 32;
    lemma_split_enc(d, p4, e4, t5);
    assert(spec_read_bytes(d, p4, 32) == Some((a.feed_id, p4 + 32)));
    let p5 = p4 + 32;
    lemma_split_enc(d, p5, e5, t6);
    assert(spec_read_bytes(d, p5, 8) == Some((a.symbol, p5 + 8)));
    let p6 = p5 + 8;
    lemma_split_enc(d, p6, e6, t7);
    lemma_read_opt_u64_enc(d, p6, a.start_price);
    let p7 = p6 + e6.len();
    lemma_split_enc(d, p7, e7, t8);
    lemma_read_opt_u64_enc(d, p7, a.final_price);
    let p8 = p7 + e7.len();
    lemma_split_enc(d, p8, e8, t9);
    lemma_read_opt_i64_enc(d, p8, a.growth_rate_bps);
    let p9 = p8 + e8.len();
    lemma_split_enc(d, p9, e9, t10);
    lemma_read_i64_enc(d, p9, a.created_at);
    let p10 = p9 + 8;
    lemma_split_enc(d, p10, e10, t11);
    lemma_read_opt_i64_enc(d, p10, a.started_price_at);
    let p11 = p10 + e10.len();
    lemma_split_enc(d, p11, e11, t12);
    lemma_read_opt_i64_enc(d, p11, a.finalized_at);
    let p12 = p11 + e11.len();
    lemma_read_u8_enc(d, p12, a.bump);
}

/// The encoding of consecutive 32-byte addresses.
pub open spec fn enc_address_items(s: Seq<Seq<u8>>) -> Seq<u8>
    recommends
        forall|i: int| 0 <= i < s.len() ==> (#[trigger] s[i]).len() == 32,
    decreases s.len(),
{
    if s.len() == 0 {
        Seq::empty()
    } else {
        s[0] + enc_address_items(s.skip(1))
    }
}

/// The encoding of a list of addresses: a 32-bit count, then the items.
pub open spec fn enc_vec_address(s: Seq<Seq<u8>>) -> Seq<u8>
    recommends
        s.len() <= u32::MAX,
        forall|i: int| 0 <= i < s.len() ==> (#[trigger] s[i]).len() == 32,
{
    enc_u32(s.len() as u32) + enc_address_items(s)
}

/// The address items' encoding is 32 bytes per item.
pub proof fn lemma_enc_address_items_len(s: Seq<Seq<u8>>)
    requires
        forall|i: int| 0 <= i < s.len() ==> (#[trigger] s[i]).len() == 32,
    ensures
        enc_address_items(s).len() == 32 * s.len(),
    decreases s.len(),
{
    if s.len() > 0 {
        assert(forall|i: int|
            0 <= i < s.skip(1).len() ==> (#[trigger] s.skip(1)[i]).len() == 32 && s.skip(1)[i]
                == s[i + 1]);
        lemma_enc_address_items_len(s.skip(1));
    }
}

/// Reading `n` addresses off their own encoding returns them.
pub proof fn lemma_read_address_items_enc(d: Seq<u8>, pos: int, s: Seq<Seq<u8>>)
    requires
        0 <= pos,
        forall|i: int| 0 <= i < s.len() ==> (#[trigger] s[i]).len() == 32,
        pos + 32 * s.len() <= d.len(),
        d.subrange(pos, pos + 32 * s.len()) == enc_address_items(s),
    ensures
        spec_read_address_items(d, pos, s.len() as int) == Some((s, pos + 32 * s.len())),
    decreases s.len(),
{
    lemma_enc_address_items_len(s);
    if s.len() == 0 {
        assert(s =~= Seq::<Seq<u8>>::empty());
    } else {
        assert(forall|i: int|
            0 <= i < s.skip(1).len() ==> (#[trigger] s.skip(1)[i]).len() == 32 && s.skip(1)[i]
                == s[i + 1]);
        lemma_enc_address_items_len(s.skip(1));
        lemma_split_enc(d, pos, s[0], enc_address_items(s.skip(1)));
        assert(spec_read_address(d, pos) == Some((s[0], pos + 32)));
        lemma_read_address_items_enc(d, pos + 32, s.skip(1));
        assert(seq![s[0]] + s.skip(1) =~= s);
    }
}

/// Reading a list of addresses off its own encoding returns it.
pub proof fn lemma_read_vec_address_enc(d: Seq<u8>, pos: int, s: Seq<Seq<u8>>)
    requires
        0 <= pos,
        s.len() <= u32::MAX,
        forall|i: int| 0 <= i < s.len() ==> (#[trigger] s[i]).len() == 32,
        pos + enc_vec_address(s).len() <= d.len(),
        d.subrange(pos, pos + enc_vec_address(s).len()) == enc_vec_address(s),
    ensures
        spec_read_vec_address(d, pos) == Some((s, pos + enc_vec_address(s).len())),
{
    vstd::bytes::lemma_auto_spec_u32_to_from_le_bytes();
    assert(enc_u32(s.len() as u32).len() == 4);
    lemma_enc_address_items_len(s);
    lemma_split_enc(d, pos, enc_u32(s.len() as u32), enc_address_items(s));
    lemma_read_u32_enc(d, pos, s.len() as u32);
    lemma_read_address_items_enc(d, pos + 4, s);
}

/// The encoding of a configuration record's leading fields, through the
/// price-update age bound.
pub open spec fn enc_config_head(c: ConfigAccountV) -> Seq<u8>
    recommends
        c.admin.len() == 32,
        c.keeper_authorities.len() <= u32::MAX,
        forall|i: int|
            0 <= i < c.keeper_authorities.len() ==> (#[trigger] c.keeper_authorities[i]).len()
                == 32,
        c.token_mint.len() == 32,
        c.treasury.len() == 32,
        c.single_asset_feed_id.len() == 32,
{
    c.admin + enc_vec_address(c.keeper_authorities) + c.token_mint + c.treasury
        + c.single_asset_feed_id + enc_u64(c.max_price_update_age_secs)
}

/// The encoding of a configuration record's remaining fields.
pub open spec fn enc_config_tail(c: ConfigAccountV) -> Seq<u8> {
    enc_u16(c.fee_single_asset_bps) + enc_u16(c.fee_group_battle_bps) + enc_u64(c.min_bet_amount)
        + enc_i64(c.bet_cutoff_window_secs) + enc_u16(c.min_time_factor_bps) + enc_u16(
        c.max_time_factor_bps,
    ) + enc_u16(c.default_direction_factor_bps) + enc_program_status(c.status) + enc_u64(
        c.current_round_counter,
    ) + enc_u8(c.version) + enc_u8(c.bump)
}

/// The encoding of a configuration record: its fields in layout order.
pub open spec fn enc_config(c: ConfigAccountV) -> Seq<u8> {
    enc_config_head(c) + enc_config_tail(c)
}

/// The remaining configuration fields read back exactly what the tail
/// encoding lays down.
#[verifier::rlimit(100)]
pub proof fn lemma_config_tail_roundtrip(d: Seq<u8>, pos: int, c: ConfigAccountV)
    requires
        0 <= pos,
        pos + enc_config_tail(c).len() <= d.len(),
        d.subrange(pos, pos + enc_config_tail(c).len()) == enc_config_tail(c),
    ensures
        spec_read_config_tail(
            d,
            pos,
            c.admin,
            c.keeper_authorities,
            c.token_mint,
            c.treasury,
            c.single_asset_feed_id,
            c.max_price_update_age_secs,
        ) == Some((c, pos + enc_config_tail(c).len())),
{
    vstd::bytes::lemma_auto_spec_u64_to_from_le_bytes();
    vstd::bytes::lemma_auto_spec_u16_to_from_le_bytes();
    let e7 = enc_u16(c.fee_single_asset_bps);
    let e8 = enc_u16(c.fee_group_battle_bps);
    let e9 = enc_u64(c.min_bet_amount);
    let e10 = enc_i64(c.bet_cutoff_window_secs);
    let e11 = enc_u16(c.min_time_factor_bps);
    let e12 = enc_u16(c.max_time_factor_bps);
    let e13 = enc_u16(c.default_direction_factor_bps);
    let e14 = enc_program_status(c.status);
    let e15 = enc_u64(c.current_round_counter);
    let e16 = enc_u8(c.version);
    let e17 = enc_u8(c.bump);
    assert(e7.len() == 2 && e8.len() == 2 && e11.len() == 2 && e12.len() == 2 && e13.len() == 2);
    let t17 = e17;
    let t16 = e16 + t17;
    let t15 = e15 + t16;
    let t14 = e14 + t15;
    let t13 = e13 + t14;
    let t12 = e12 + t13;
    let t11 = e11 + t12;
    let t10 = e10 + t11;
    let t9 = e9 + t10;
    let t8 = e8 + t9;
    let t7 = e7 + t8;
    assert(enc_config_tail(c) =~= t7);
    let p7 = pos;
    lemma_split_enc(d, p7, e7, t8);
    lemma_read_u16_enc(d, p7, c.fee_single_asset_bps);
    let p8 = p7 + 2;
    lemma_split_enc(d, p8, e8, t9);
    lemma_read_u16_enc(d, p8, c.fee_group_battle_bps);
    let p9 = p8 + 2;
    lemma_split_enc(d, p9, e9, t10);
    lemma_read_u64_enc(d, p9, c.min_bet_amount);
    let p10 = p9 + 8;
    lemma_split_enc(d, p10, e10, t11);
    lemma_read_i64_enc(d, p10, c.bet_cutoff_window_secs);
    let p11 = p10 + 8;
    lemma_split_enc(d, p11, e11, t12);
    lemma_read_u16_enc(d, p11, c.min_time_factor_bps);
    let p12 = p11 + 2;
    lemma_split_enc(d, p12, e12, t13);
    lemma_read_u16_enc(d, p12, c.max_time_factor_bps);
    let p13 = p12 + 2;
    lemma_split_enc(d, p13, e13, t14);
    lemma_read_u16_enc(d, p13, c.default_direction_factor_bps);
    let p14 = p13 + 2;
    lemma_split_enc(d, p14, e14, t15);
    lemma_read_program_status_enc(d, p14, c.status);
    let p15 = p14 + 1;
    lemma_split_enc(d, p15, e15, t16);
    lemma_read_u64_enc(d, p15, c.current_round_counter);
    let p16 = p15 + 8;
    lemma_split_enc(d, p16, e16, t17);
    lemma_read_u8_enc(d, p16, c.version);
    let p17 = p16 + 1;
    lemma_read_u8_enc(d, p17, c.bump);
}

/// The codec reads back exactly the configuration a configuration encoding
/// lays down.
#[verifier::rlimit(100)]
pub proof fn lemma_config_roundtrip(d: Seq<u8>, pos: int, c: ConfigAccountV)
    requires
        0 <= pos,
        c.admin.len() == 32,
        c.keeper_authorities.len() <= u32::MAX,
        forall|i: int|
            0 <= i < c.keeper_authorities.len() ==> (#[trigger] c.keeper_authorities[i]).len()
                == 32,
        c.token_mint.len() == 32,
        c.treasury.len() == 32,
        c.single_asset_feed_id.len() == 32,
        pos + enc_config(c).len() <= d.len(),
        d.subrange(pos, pos + enc_config(c).len()) == enc_config(c),
    ensures
        spec_read_config(d, pos) == Some((c, pos + enc_config(c).len())),
{
    vstd::bytes::lemma_auto_spec_u64_to_from_le_bytes();
    vstd::bytes::lemma_auto_spec_u32_to_from_le_bytes();
    lemma_enc_address_items_len(c.keeper_authorities);
    let e1 = c.admin;
    let e2 = enc_vec_address(c.keeper_authorities);
    let e3 = c.token_mint;
    let e4 = c.treasury;
    let e5 = c.single_asset_feed_id;
    let e6 = enc_u64(c.max_price_update_age_secs);
    let tail = enc_config_tail(c);
    let t6 = e6 + tail;
    let t5 = e5 + t6;
    let t4 = e4 + t5;
    let t3 = e3 + t4;
    let t2 = e2 + t3;
    let t1 = e1 + t2;
    assert(enc_config(c) =~= t1);
    let p1 = pos;
    lemma_split_enc(d, p1, e1, t2);
    assert(spec_read_address(d, p1) == Some((c.admin, p1 + 32)));
    let p2 = p1 + 32;
    lemma_split_enc(d, p2, e2, t3);
    lemma_read_vec_address_enc(d, p2, c.keeper_authorities);
    let p3 = p2 + e2.len();
    lemma_split_enc(d, p3, e3, t4);
    assert(spec_read_address(d, p3) == Some((c.token_mint, p3 + 32)));
    let p4 = p3 + 32;
    lemma_split_enc(d, p4, e4, t5);
    assert(spec_read_address(d, p4) == Some((c.treasury, p4 + 32)));
    let p5 = p4 + 32;
    lemma_split_enc(d, p5, e5, t6);
    assert(spec_read_bytes(d, p5, 32) == Some((c.single_asset_feed_id, p5 + 32)));
    let p6 = p5 + 32;
    lemma_split_enc(d, p6, e6, tail);
    lemma_read_u64_enc(d, p6, c.max_price_update_age_secs);
    let p7 = p6 + 8;
    lemma_config_tail_roundtrip(d, p7, c);
}

/// The remaining fields read back exactly what the tail encoding lays
/// down, completing the record with the already-read leading fields.
#[verifier::rlimit(100)]
pub proof fn lemma_round_tail_roundtrip(d: Seq<u8>, pos: int, r: RoundAccountV)
    requires
        0 <= pos,
        r.winner_group_ids.len() <= u32::MAX,
        pos + enc_round_tail(r).len() <= d.len(),
        d.subrange(pos, pos + enc_round_tail(r).len()) == enc_round_tail(r),
    ensures
        spec_read_round_tail(
            d,
            pos,
            r.id,
            r.start_time,
            r.end_time,
            r.bet_cutoff_time,
            r.vault,
            r.vault_bump,
            r.market_type,
            r.status,
        ) == Some((r, pos + enc_round_tail(r).len())),
{
    vstd::bytes::lemma_auto_spec_u64_to_from_le_bytes();
    vstd::bytes::lemma_auto_spec_u32_to_from_le_bytes();
    lemma_enc_u64_items_len(r.winner_group_ids);
    let e9 = enc_opt_u64(r.start_price);
    let e10 = enc_opt_u64(r.final_price);
    let e11 = enc_u64(r.total_pool);
    let e12 = enc_u64(r.total_bets);
    let e13 = enc_u64(r.total_fee_collected);
    let e14 = enc_u64(r.total_reward_pool);
    let e15 = enc_u64(r.winners_weight);
    let e16 = enc_u64(r.settled_bets);
    let e17 = enc_u64(r.cancelled_bets);
    let e18 = enc_vec_u64(r.winner_group_ids);
    let e19 = enc_u64(r.total_groups);
    let e20 = enc_u64(r.captured_start_groups);
    let e21 = enc_u64(r.captured_end_groups);
    let e22 = enc_i64(r.created_at);
    let e23 = enc_opt_i64(r.settled_at);
    let e24 = enc_u8(r.bump);
    let t24 = e24;
    let t23 = e23 + t24;
    let t22 = e22 + t23;
    let t21 = e21 + t22;
    let t20 = e20 + t21;
    let t19 = e19 + t20;
    let t18 = e18 + t19;
    let t17 = e17 + t18;
    let t16 = e16 + t17;
    let t15 = e15 + t16;
    let t14 = e14 + t15;
    let t13 = e13 + t14;
    let t12 = e12 + t13;
    let t11 = e11 + t12;
    let t10 = e10 + t11;
    let t9 = e9 + t10;
    assert(enc_round_tail(r) =~= t9);
    let p9 = pos;
    lemma_split_enc(d, p9, e9, t10);
    lemma_read_opt_u64_enc(d, p9, r.start_price);
    let p10 = p9 + e9.len();
    lemma_split_enc(d, p10, e10, t11);
    lemma_read_opt_u64_enc(d, p10, r.final_price);
    let p11 = p10 + e10.len();
    lemma_split_enc(d, p11, e11, t12);
    lemma_read_u64_enc(d, p11, r.total_pool);
    let p12 = p11 + 8;
    lemma_split_enc(d, p12, e12, t13);
    lemma_read_u64_enc(d, p12, r.total_bets);
    let p13 = p12 + 8;
    lemma_split_enc(d, p13, e13, t14);
    lemma_read_u64_enc(d, p13, r.total_fee_collected);
    let p14 = p13 + 8;
    lemma_split_enc(d, p14, e14, t15);
    lemma_read_u64_enc(d, p14, r.total_reward_pool);
    let p15 = p14 + 8;
    lemma_split_enc(d, p15, e15, t16);
    lemma_read_u64_enc(d, p15, r.winners_weight);
    let p16 = p15 + 8;
    lemma_split_enc(d, p16, e16, t17);
    lemma_read_u64_enc(d, p16, r.settled_bets);
    let p17 = p16 + 8;
    lemma_split_enc(d, p17, e17, t18);
    lemma_read_u64_enc(d, p17, r.cancelled_bets);
    let p18 = p17 + 8;
    lemma_split_enc(d, p18, e18, t19);
    lemma_read_vec_u64_enc(d, p18, r.winner_group_ids);
    let p19 = p18 + e18.len();
    lemma_split_enc(d, p19, e19, t20);
    lemma_read_u64_enc(d, p19, r.total_groups);
    let p20 = p19 + 8;
    lemma_split_enc(d, p20, e20, t21);
    lemma_read_u64_enc(d, p20, r.captured_start_groups);
    let p21 = p20 + 8;
    lemma_split_enc(d, p21, e21, t22);
    lemma_read_u64_enc(d, p21, r.captured_end_groups);
    let p22 = p21 + 8;
    lemma_split_enc(d, p22, e22, t23);
    lemma_read_i64_enc(d, p22, r.created_at);
    let p23 = p22 + 8;
    lemma_split_enc(d, p23, e23, t24);
    lemma_read_opt_i64_enc(d, p23, r.settled_at);
    let p24 = p23 + e23.len();
    lemma_read_u8_enc(d, p24, r.bump);
}

/// The codec reads back exactly the round a round encoding lays down,
/// wherever it sits in an account's payload: the spec reader and the
/// record encoding agree on every well-formed record.
#[verifier::rlimit(100)]
pub proof fn lemma_round_roundtrip(d: Seq<u8>, pos: int, r: RoundAccountV)
    requires
        0 <= pos,
        r.vault.len() == 32,
        r.winner_group_ids.len() <= u32::MAX,
        pos + enc_round(r).len() <= d.len(),
        d.subrange(pos, pos + enc_round(r).len()) == enc_round(r),
    ensures
        spec_read_round(d, pos) == Some((r, pos + enc_round(r).len())),
{
    vstd::bytes::lemma_auto_spec_u64_to_from_le_bytes();
    let e1 = enc_u64(r.id);
    let e2 = enc_i64(r.start_time);
    let e3 = enc_i64(r.end_time);
    let e4 = enc_i64(r.bet_cutoff_time);
    let e5 = r.vault;
    let e6 = enc_u8(r.vault_bump);
    let e7 = enc_market_type(r.market_type);
    let e8 = enc_round_status(r.status);
    let tail = enc_round_tail(r);
    let t8 = e8 + tail;
    let t7 = e7 + t8;
    let t6 = e6 + t7;
    let t5 = e5 + t6;
    let t4 = e4 + t5;
    let t3 = e3 + t4;
    let t2 = e2 + t3;
    let t1 = e1 + t2;
    assert(enc_round(r) =~= t1);
    let p1 = pos;
    lemma_split_enc(d, p1, e1, t2);
    lemma_read_u64_enc(d, p1, r.id);
    let p2 = p1 + 8;
    lemma_split_enc(d, p2, e2, t3);
    lemma_read_i64_enc(d, p2, r.start_time);
    let p3 = p2 + 8;
    lemma_split_enc(d, p3, e3, t4);
    lemma_read_i64_enc(d, p3, r.end_time);
    let p4 = p3 + 8;
    lemma_split_enc(d, p4, e4, t5);
    lemma_read_i64_enc(d, p4, r.bet_cutoff_time);
    let p5 = p4 + 8;
    lemma_split_enc(d, p5, e5, t6);
    assert(spec_read_address(d, p5) == Some((r.vault, p5 + 32)));
    let p6 = p5 + 32;
    lemma_split_enc(d, p6, e6, t7);
    lemma_read_u8_enc(d, p6, r.vault_bump);
    let p7 = p6 + 1;
    lemma_split_enc(d, p7, e7, t8);
    lemma_read_market_type_enc(d, p7, r.market_type);
    let p8 = p7 + 1;
    lemma_split_enc(d, p8, e8, tail);
    lemma_read_round_status_enc(d, p8, r.status);
    let p9 = p8 + 1;
    lemma_round_tail_roundtrip(d, p9, r);
}

/// Decodes a round record, returning exactly what `spec_read_round` says.
pub fn read_round(d: &Vec<u8>, pos: usize) -> (r: Option<(RoundAccount, usize)>)
    ensures
        (match spec_read_round(d@, pos as int) {
            Some((v, p)) => r matches Some(x) && x.0@ == v && x.1 == p,
            None => r is None,
        }),
{
    let (id, pos) = match read_u64(d, pos) {
        Some(x) => x,
        None => {
            return None;
        },
    };
    let (start_time, pos) = match read_i64(d, pos) {
        Some(x) => x,
        None => {
            return None;
        },
    };
    let (end_time, pos) = match read_i64(d, pos) {
        Some(x) => x,
        None => {
            return None;
        },
    };
    let (bet_cutoff_time, pos) = match read_i64(d, pos) {
        Some(x) => x,
        None => {
            return None;
        },
    };
    let (vault, pos) = match read_address(d, pos) {
        Some(x) => x,
        None => {
            return None;
        },
    };
    let (vault_bump, pos) = match read_u8(d, pos) {
        Some(x) => x,
        None => {
            return None;
        },
    };
    let (market_type, pos) = match read_market_type(d, pos) {
        Some(x) => x,
        None => {
            return None;
        },
    };
    let (status, pos) = match read_round_status(d, pos) {
        Some(x) => x,
        None => {
            return None;
        },
    };
    let (start_price, pos) = match read_opt_u64(d, pos) {
        Some(x) => x,
        None => {
            return None;
        },
    };
    let (final_price, pos) = match read_opt_u64(d, pos) {
        Some(x) => x,
        None => {
            return None;
        },
    };
    let (total_pool, pos) = match read_u64(d, pos) {
        Some(x) => x,
        None => {
            return None;
        },
    };
    let (total_bets, pos) = match read_u64(d, pos) {
        Some(x) => x,
        None => {
            return None;
        },
    };
    let (total_fee_collected, pos) = match read_u64(d, pos) {
        Some(x) => x,
        None => {
            return None;
        },
    };
    let (total_reward_pool, pos) = match read_u64(d, pos) {
        Some(x) => x,
        None => {
            return None;
        },
    };
    let (winners_weight, pos) = match read_u64(d, pos) {
        Some(x) => x,
        None => {
            return None;
        },
    };
    let (settled_bets, pos) = match read_u64(d, pos) {
        Some(x) => x,
        None => {
            return None;
        },
    };
    let (cancelled_bets, pos) = match read_u64(d, pos) {
        Some(x) => x,
        None => {
            return None;
        },
    };
    let (winner_group_ids, pos) = match read_vec_u64(d, pos) {
        Some(x) => x,
        None => {
            return None;
        },
    };
    let (total_groups, pos) = match read_u64(d, pos) {
        Some(x) => x,
        None => {
            return None;
        },
    };
    let (captured_start_groups, pos) = match read_u64(d, pos) {
        Some(x) => x,
        None => {
            return None;
        },
    };
    let (captured_end_groups, pos) = match read_u64(d, pos) {
        Some(x) => x,
        None => {
            return None;
        },
    };
    let (created_at, pos) = match read_i64(d, pos) {
        Some(x) => x,
        None => {
            return None;
        },
    };
    let (settled_at, pos) = match read_opt_i64(d, pos) {
        Some(x) => x,
        None => {
            return None;
        },
    };
    let (bump, pos) = match read_u8(d, pos) {
        Some(x) => x,
        None => {
            return None;
        },
    };
    Some(
        (
            RoundAccount {
                id,
                start_time,
                end_time,
                bet_cutoff_time,
                vault,
                vault_bump,
                market_type,
                status,
                start_price,
                final_price,
                total_pool,
                total_bets,
                total_fee_collected,
                total_reward_pool,
                winners_weight,
                settled_bets,
                cancelled_bets,
                winner_group_ids,
                total_groups,
                captured_start_groups,
                captured_end_groups,
                created_at,
                settled_at,
                bump,
            },
            pos,
        ),
    )
}

} // verus!
