//! Price-feed identifiers: a feed id arrives as a hexadecimal string,
//! optionally `0x`-prefixed, and must name exactly 32 bytes; the feed's
//! account address is derived from the shard id and those bytes.

use crate::pda::{derivation_result, derive_price_feed_pda, spec_price_feed_seeds};
use crate::types::{Address, KeeperError};
use vstd::prelude::*;
use vstd::string::*;

verus! {

/// The value of one hexadecimal digit, upper or lower case.
pub open spec fn spec_hex_digit(c: char) -> Option<u8> {
    if '0' <= c && c <= '9' {
        Some(((c as u32) - 48) as u8)
    } else if 'a' <= c && c <= 'f' {
        Some(((c as u32) - 87) as u8)
    } else if 'A' <= c && c <= 'F' {
        Some(((c as u32) - 55) as u8)
    } else {
        None
    }
}

/// The bytes a hexadecimal string names: two digits per byte, high digit
/// first; `None` on an odd length or a non-digit.
pub open spec fn spec_hex_decode(s: Seq<char>) -> Option<Seq<u8>>
    decreases s.len(),
{
    if s.len() % 2 != 0 {
        None
    } else if s.len() == 0 {
        Some(Seq::empty())
    } else {
        match (spec_hex_digit(s[0]), spec_hex_digit(s[1])) {
            (Some(h), Some(l)) => match spec_hex_decode(s.skip(2)) {
                Some(rest) => Some(seq![(h * 16 + l) as u8] + rest),
                None => None,
            },
            _ => None,
        }
    }
}

fn hex_digit(c: char) -> (r: Option<u8>)
    ensures
        r == spec_hex_digit(c),
{
    if '0' <= c && c <= '9' {
        Some(((c as u32) - 48) as u8)
    } else if 'a' <= c && c <= 'f' {
        Some(((c as u32) - 87) as u8)
    } else if 'A' <= c && c <= 'F' {
        Some(((c as u32) - 55) as u8)
    } else {
        None
    }
}

/// Decodes a hexadecimal string into its bytes, exactly as
/// `spec_hex_decode` says.
pub fn hex_decode(s: &str) -> (r: Option<Vec<u8>>)
    ensures
        (match spec_hex_decode(s@) {
            Some(v) => r matches Some(x) && x@ == v,
            None => r is None,
        }),
{
    let len = s.unicode_len();
    if len % 2 != 0 {
        return None;
    }
    let mut out: Vec<u8> = Vec::new();
    let mut i: usize = 0;
    proof {
        assert(s@.skip(0) =~= s@);
        match spec_hex_decode(s@) {
            Some(v) => {
                assert(Seq::<u8>::empty() + v =~= v);
            },
            None => {},
        }
    }
    while i < len
        invariant
            i <= len,
            i % 2 == 0,
            len % 2 == 0,
            len == s@.len(),
            out@.len() == i / 2,
            (match spec_hex_decode(s@.skip(i as int)) {
                Some(rest) => spec_hex_decode(s@) == Some(out@ + rest),
                None => spec_hex_decode(s@) is None,
            }),
        decreases len - i,
    {
        let h = match hex_digit(s.get_char(i)) {
            Some(v) => v,
            None => {
                return None;
            },
        };
        let l = match hex_digit(s.get_char(i + 1)) {
            Some(v) => v,
            None => {
                return None;
            },
        };
        let ghost old_out = out@;
        out.push(h * 16 + l);
        proof {
            assert(s@.skip(i as int)[0] == s@[i as int]);
            assert(s@.skip(i as int)[1] == s@[i + 1]);
            assert(s@.skip(i as int).skip(2) =~= s@.skip(i + 2));
            match spec_hex_decode(s@.skip(i + 2)) {
                Some(rest) => {
                    assert(old_out + (seq![(h * 16 + l) as u8] + rest) =~= out@ + rest);
                },
                None => {},
            }
        }
        i = i + 2;
    }
    proof {
        assert(s@.skip(len as int) =~= Seq::<char>::empty());
        assert(spec_hex_decode(Seq::<char>::empty()) == Some(Seq::<u8>::empty()));
        assert(out@ + Seq::<u8>::empty() =~= out@);
    }
    Some(out)
}

/// A feed id with a `0x` prefix means the same as one without it.
pub open spec fn spec_strip_0x(s: Seq<char>) -> Seq<char> {
    if s.len() >= 2 && s[0] == '0' && s[1] == 'x' {
        s.skip(2)
    } else {
        s
    }
}

/// Resolves a price-feed account address: strips an optional `0x` prefix,
/// decodes the hexadecimal feed id, rejects anything but exactly 32 bytes
/// with `InvalidFeedId`, and derives the address from the shard id and the
/// feed bytes under the price-oracle program.
pub fn get_price_feed_account(
    shard_id: u16,
    feed_id: &str,
    push_oracle_program_id: &Address,
) -> (r: Result<Address, KeeperError>)
    requires
        push_oracle_program_id.wf(),
    ensures
        (match spec_hex_decode(spec_strip_0x(feed_id@)) {
            Some(b) => {
                if b.len() == 32 {
                    derivation_result(
                        r,
                        spec_price_feed_seeds(shard_id, b),
                        push_oracle_program_id@,
                    )
                } else {
                    r matches Err(e) && e is InvalidFeedId
                }
            },
            None => r matches Err(e) && e is InvalidFeedId,
        }),
{
    let len = feed_id.unicode_len();
    let stripped: &str = if len >= 2 && feed_id.get_char(0) == '0' && feed_id.get_char(1) == 'x' {
        let s = feed_id.substring_char(2, len);
        proof {
            assert(s@ =~= spec_strip_0x(feed_id@));
        }
        s
    } else {
        feed_id
    };
    let bytes = match hex_decode(stripped) {
        Some(b) => b,
        None => {
            return Err(KeeperError::InvalidFeedId);
        },
    };
    if bytes.len() != 32 {
        return Err(KeeperError::InvalidFeedId);
    }
    derive_price_feed_pda(shard_id, &bytes, push_oracle_program_id)
}

} // verus!
