//! Public scalar system configuration.

use vstd::prelude::*;
use vstd::arithmetic::power2::{lemma2_to64, lemma_pow2_strictly_increases, lemma_pow2_unfold, pow2};
use crate::abi::HYPER_NATIVE_STATUS_OK;
use crate::os::error::Error;
use crate::os::status::{CallResult, Status};

verus! {

/// The value a configuration query answers.
pub open spec fn config_answer(result: CallResult) -> Result<u64, Error> {
    if result.status != HYPER_NATIVE_STATUS_OK {
        Err(Error::Status(Status(result.status)))
    } else if result.value1 != 0 {
        Err(Error::InvalidResponse)
    } else {
        Ok(result.value0)
    }
}

/// Settles one configuration query; an unknown key reports the kernel's
/// unsupported status.
pub fn config(result: CallResult) -> (r: Result<u64, Error>)
    ensures
        r == config_answer(result),
{
    let checked = Status::from_raw(result.status).into_result();
    if let Err(e) = checked {
        return Err(e);
    }
    if result.value1 != 0 {
        return Err(Error::InvalidResponse);
    }
    Ok(result.value0)
}

/// Whether `n` is a power of two.
pub open spec fn is_power_of_two(n: u64) -> bool {
    exists|k: nat| pow2(k) == n
}

/// A page size is a power of two of at least sixteen bytes that leaves half
/// the address space addressable.
pub open spec fn page_size_valid(size: u64) -> bool {
    is_power_of_two(size) && 16 <= size && size <= usize::MAX / 2
}

fn power_of_two(n: u64) -> (r: bool)
    requires
        16 <= n <= usize::MAX / 2,
    ensures
        r == is_power_of_two(n),
{
    proof {
        lemma2_to64();
    }
    let mut p: u64 = 1;
    let ghost mut k: nat = 0;
    while p < n
        invariant
            16 <= n <= usize::MAX / 2,
            p == pow2(k),
            p >= 1,
            forall|j: nat| j < k ==> #[trigger] pow2(j) < n,
        decreases 2 * n - p,
    {
        proof {
            lemma_pow2_unfold(k + 1);
        }
        p = p * 2;
        proof {
            k = k + 1;
        }
    }
    if p == n {
        return true;
    }
    proof {
        assert forall|j: nat| pow2(j) != n by {
            if j > k {
                lemma_pow2_strictly_increases(k, j);
            }
        }
    }
    false
}

/// The Native mapping granule, from the answer to the page-size
/// configuration query.
pub fn page_size(result: CallResult) -> (r: Result<u64, Error>)
    ensures
        r == match config_answer(result) {
            Err(e) => Err(e),
            Ok(size) => if page_size_valid(size) {
                Ok::<u64, Error>(size)
            } else {
                Err(Error::InvalidResponse)
            },
        },
{
    let size = match config(result) {
        Ok(size) => size,
        Err(e) => {
            return Err(e);
        },
    };
    if size < 16 || size > (usize::MAX / 2) as u64 {
        return Err(Error::InvalidResponse);
    }
    if !power_of_two(size) {
        return Err(Error::InvalidResponse);
    }
    Ok(size)
}

} // verus!
