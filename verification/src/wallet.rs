//! Keypair material validation: a keypair file holds 64 bytes, of which
//! the first 32 are the secret seed.

use crate::types::KeeperError;
use vstd::prelude::*;

verus! {

/// Validates keypair bytes and extracts the 32-byte secret seed: exactly
/// 64 bytes are accepted, and the seed is their first half.
pub fn keypair_seed_from_bytes(data: &Vec<u8>) -> (r: Result<Vec<u8>, KeeperError>)
    ensures
        data@.len() == 64 <==> r is Ok,
        (r matches Ok(seed) ==> seed@ == data@.take(32)),
        (r matches Err(e) ==> e is InvalidKeypair),
{
    if data.len() != 64 {
        return Err(KeeperError::InvalidKeypair);
    }
    let mut seed: Vec<u8> = Vec::new();
    let mut i: usize = 0;
    while i < 32
        invariant
            i <= 32,
            data@.len() == 64,
            seed@ == data@.take(i as int),
        decreases 32 - i,
    {
        seed.push(data[i]);
        i = i + 1;
    }
    Ok(seed)
}

} // verus!
