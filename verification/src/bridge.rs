use vstd::prelude::*;

use crate::errors::AllocError;
use crate::strategies::copy_vec;
use crate::tensor::{decode, Tensor};
use crate::traits::{AllocationStrategy, HostObject};

verus! {

/// The coerce-to-default rule for the advisory minimum: a host-side value
/// that could be read is taken as is, and every soft failure of the read
/// falls back to 1.
pub fn min_observations_or_default(read: Option<usize>) -> (n: usize)
    ensures
        n == (match read {
            Some(v) => v,
            None => 1usize,
        }),
{
    match read {
        Some(v) => v,
        None => 1,
    }
}

/// Whether two shapes are the same, dimension for dimension.
pub fn shapes_equal(a: &Vec<usize>, b: &Vec<usize>) -> (r: bool)
    ensures
        r <==> a@ == b@,
{
    if a.len() != b.len() {
        return false;
    }
    let mut i: usize = 0;
    while i < a.len()
        invariant
            a@.len() == b@.len(),
            0 <= i <= a@.len(),
            forall|j: int| 0 <= j < i ==> a@[j] == b@[j],
        decreases a@.len() - i,
    {
        if a[i] != b[i] {
            return false;
        }
        i = i + 1;
    }
    proof {
        assert(a@ =~= b@);
    }
    true
}

/// Makes an opaque host-side strategy object satisfy the native strategy
/// contract.  The adapter borrows the host object per call, forwards
/// prediction through the array boundary in both directions, and re-validates
/// whatever the host hands back: a result that is not a rectangular array of
/// the input's shape is a conversion error, and a host-side failure
/// propagates verbatim — only the advisory minimum is soft (see
/// `min_observations_or_default`).
pub struct HostBridgedStrategy<H> {
    pub host: H,
}

impl<H> HostBridgedStrategy<H> {
    pub fn new(host: H) -> (s: Self)
        ensures
            s.host == host,
    {
        HostBridgedStrategy { host }
    }
}

impl<T: Copy, H: HostObject<T>> AllocationStrategy<T> for HostBridgedStrategy<H> {
    fn min_observations(&self) -> usize {
        min_observations_or_default(self.host.read_min_observations())
    }

    fn predict(&self, input: &Tensor<T>) -> (r: Result<Tensor<T>, AllocError>) {
        if input.rank() == 0 || input.asset_len() == 0 {
            return Err(AllocError::Shape);
        }
        let data = copy_vec(&input.data);
        let shape = copy_vec(&input.shape);
        match self.host.call_predict(data, shape) {
            Err(e) => Err(e),
            Ok((out_data, out_shape)) => match decode(out_data, out_shape) {
                Err(e) => Err(e),
                Ok(out) => {
                    if shapes_equal(&out.shape, &input.shape) {
                        Ok(out)
                    } else {
                        Err(AllocError::Conversion)
                    }
                },
            },
        }
    }
}

} // verus!
