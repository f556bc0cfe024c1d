use vstd::prelude::*;

use core::marker::PhantomData;
use crate::errors::AllocError;
use crate::tensor::{decode, dim_product, encode, ArrayModel};
use crate::traits::AllocationStrategy;

verus! {

/// The native dispatcher: owns exactly one strategy (native or host-bridged)
/// and exposes the one uniform call surface.  Immutable after construction;
/// every prediction crosses the array boundary here, whatever kind of
/// strategy is held.
pub struct NativeAllocator<T, S> {
    pub strategy: S,
    pub value_marker: PhantomData<T>,
}

impl<T, S: AllocationStrategy<T>> NativeAllocator<T, S> {
    pub fn new(strategy: S) -> (a: Self)
        ensures
            a.strategy == strategy,
    {
        NativeAllocator { strategy, value_marker: PhantomData }
    }

    /// The held strategy's advisory minimum, delegated unchanged.
    pub fn min_observations(&self) -> usize {
        self.strategy.min_observations()
    }

    /// Decode the caller's buffer/shape pair, let the held strategy predict,
    /// and encode the result.  A successful call hands back a buffer of the
    /// input's length under the input's shape, exactly; a pair that is not a
    /// rectangular array is a conversion error; a rank-0 input or an empty
    /// asset axis is a shape error.
    pub fn predict(&self, data: Vec<T>, shape: Vec<usize>) -> (r: Result<
        (Vec<T>, Vec<usize>),
        AllocError,
    >)
        ensures
            dim_product(shape@) != data@.len() ==> (r matches Err(e) && e is Conversion),
            r matches Ok(out) ==> out.1@ == shape@ && out.0@.len() == data@.len(),
            r is Ok ==> dim_product(shape@) == data@.len() && (ArrayModel {
                data: data@,
                shape: shape@,
            }).predictable(),
            (dim_product(shape@) == data@.len() && !(ArrayModel {
                data: data@,
                shape: shape@,
            }).predictable()) ==> (r matches Err(e) && e is Shape),
    {
        let input = match decode(data, shape) {
            Ok(t) => t,
            Err(e) => {
                return Err(e);
            },
        };
        match self.strategy.predict(&input) {
            Ok(out) => {
                let encoded = encode(out);
                Ok(encoded)
            },
            Err(e) => Err(e),
        }
    }

    /// The call-syntax alias of `predict`: the dispatcher invoked directly
    /// behaves identically to an explicit `predict` call.
    pub fn call(&self, data: Vec<T>, shape: Vec<usize>) -> (r: Result<
        (Vec<T>, Vec<usize>),
        AllocError,
    >)
        ensures
            dim_product(shape@) != data@.len() ==> (r matches Err(e) && e is Conversion),
            r matches Ok(out) ==> out.1@ == shape@ && out.0@.len() == data@.len(),
            r is Ok ==> dim_product(shape@) == data@.len() && (ArrayModel {
                data: data@,
                shape: shape@,
            }).predictable(),
            (dim_product(shape@) == data@.len() && !(ArrayModel {
                data: data@,
                shape: shape@,
            }).predictable()) ==> (r matches Err(e) && e is Shape),
    {
        self.predict(data, shape)
    }
}

} // verus!
