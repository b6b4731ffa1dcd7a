//! The rule on the creators of an asset: their shares of a royalty are given
//! in percent and make up the whole.

use vstd::prelude::*;
use crate::errors::NFTError;

verus! {

/// The sum of the shares.
pub open spec fn total_share(shares: Seq<u8>) -> nat
    decreases shares.len(),
{
    if shares.len() == 0 {
        0
    } else {
        total_share(shares.drop_last()) + shares.last() as nat
    }
}

/// Accepts the shares of the creators of an asset where they add up to
/// exactly 100 percent, and refuses them as invalid metadata where they do
/// not. The sum is taken without wrapping, however many creators there are.
pub fn check_creator_shares(shares: &Vec<u8>) -> (r: Result<(), NFTError>)
    ensures
        total_share(shares@) == 100 ==> r is Ok,
        total_share(shares@) != 100 ==> r == Err::<(), NFTError>(NFTError::InvalidMetadata),
{
    let mut total: u64 = 0;
    let mut i: usize = 0;
    while i < shares.len()
        invariant
            i <= shares.len(),
            total_share(shares@.take(i as int)) > 100 ==> total > 100,
            total_share(shares@.take(i as int)) <= 100 ==> total == total_share(
                shares@.take(i as int),
            ),
            total <= 100 + 255,
        decreases shares.len() - i,
    {
        proof {
            assert(shares@.take(i + 1).drop_last() =~= shares@.take(i as int));
        }
        if total <= 100 {
            total = total + shares[i] as u64;
        }
        i += 1;
    }
    proof {
        assert(shares@.take(i as int) =~= shares@);
    }
    if total == 100 {
        Ok(())
    } else {
        Err(NFTError::InvalidMetadata)
    }
}

} // verus!
