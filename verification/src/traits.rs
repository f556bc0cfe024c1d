use vstd::prelude::*;

use crate::errors::AllocError;
use crate::tensor::Tensor;

verus! {

/// The scalar operations a weight computation needs.  The library's logic is
/// written against this capability set so that the numeric carrier (in
/// practice a double-precision value, supplied by the embedding side) stays
/// outside the verified core.  No contract here is relied on by any proof:
/// an implementation is plain, unverified code.
pub trait WeightValue: Sized + Copy {
    /// The additive identity, the starting point of a row sum.
    fn zero_value() -> Self;

    /// The sum of two values.
    fn plus(self, other: Self) -> Self;

    /// This value divided by `denom`.
    fn divided_by(self, denom: Self) -> Self;

    /// The reciprocal of a positive count: the equal weight `1 / count`.
    fn one_over(count: usize) -> Self
        requires
            count >= 1,
    ;

    /// Whether the value is strictly positive, the guard that keeps a row sum
    /// usable as a divisor.
    fn is_positive(&self) -> bool;
}

/// A sequentially advancing stream of draws from `[0, 1)`.  One stream is
/// created per prediction call, keyed by the strategy's seed when one is set
/// and by an entropy source otherwise; nothing is assumed about the values it
/// yields.
pub trait DrawSource<T>: Sized {
    /// A fresh stream: deterministic for `Some(seed)`, from entropy for
    /// `None`.
    fn from_seed_opt(seed: Option<u64>) -> Self;

    /// The next draw of the stream, advancing its state.
    fn next_value(&mut self) -> T;
}

/// The statically-typed face of an opaque host-side strategy object: an
/// interface object with two named entry points, implemented by the embedding
/// side.  Nothing is assumed of the host's behaviour; the adapter around it
/// (`crate::bridge::HostBridgedStrategy`) re-validates everything that comes
/// back.
pub trait HostObject<T> {
    /// Read the host object's advisory `min_observations` attribute.  `None`
    /// stands for every soft failure: a missing attribute, a value of the
    /// wrong type, or a host-side error during the read.
    fn read_min_observations(&self) -> Option<usize>;

    /// Invoke the host object's prediction entry point with an encoded array
    /// and hand back the encoded result.  A host-side failure (missing
    /// method, raised error) is a hard `HostCall` error.
    fn call_predict(&self, data: Vec<T>, shape: Vec<usize>) -> Result<
        (Vec<T>, Vec<usize>),
        AllocError,
    >;
}

/// The strategy contract: a minimum-observation requirement and a prediction
/// from array to array.
///
/// Every implementation must honor the shape contract: a successful
/// prediction has exactly the input's shape (and hence a well-formed buffer
/// of the input's length), succeeds only on inputs of rank at least 1 with a
/// non-empty asset axis, and reports a shape error on every other input.
pub trait AllocationStrategy<T> {
    /// The minimum batch-axis length the strategy wants before a prediction
    /// is meaningful.  Purely advisory: `predict` does not enforce it, the
    /// caller may.
    fn min_observations(&self) -> usize;

    /// Predict allocation weights for `input`.
    fn predict(&self, input: &Tensor<T>) -> (r: Result<Tensor<T>, AllocError>)
        requires
            input@.wf(),
        ensures
            r matches Ok(out) ==> out@.wf() && out@.shape == input@.shape,
            r is Ok ==> input@.predictable(),
            !input@.predictable() ==> (r matches Err(e) && e is Shape),
    ;
}

} // verus!
