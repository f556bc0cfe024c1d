use vstd::prelude::*;

use core::marker::PhantomData;
use crate::errors::AllocError;
use crate::tensor::{lemma_dim_product_rank1, lemma_dim_product_rank2, Tensor};
use crate::traits::{AllocationStrategy, DrawSource, WeightValue};

verus! {

/// A vector of `count` copies of `value`.
pub fn filled_vec<T: Copy>(count: usize, value: T) -> (r: Vec<T>)
    ensures
        r@.len() == count,
        forall|i: int| 0 <= i < count ==> r@[i] == value,
{
    let mut r: Vec<T> = Vec::new();
    let mut i: usize = 0;
    while i < count
        invariant
            0 <= i <= count,
            r@.len() == i,
            forall|j: int| 0 <= j < i ==> r@[j] == value,
        decreases count - i,
    {
        r.push(value);
        i = i + 1;
    }
    r
}

/// A fresh vector holding the same values.
pub fn copy_vec<T: Copy>(v: &Vec<T>) -> (r: Vec<T>)
    ensures
        r@ == v@,
{
    let mut r: Vec<T> = Vec::new();
    let mut i: usize = 0;
    while i < v.len()
        invariant
            0 <= i <= v@.len(),
            r@ == v@.take(i as int),
        decreases v@.len() - i,
    {
        r.push(v[i]);
        proof {
            assert(v@.take(i + 1).drop_last() =~= v@.take(i as int));
            assert(r@ =~= v@.take(i + 1));
        }
        i = i + 1;
    }
    proof {
        assert(v@.take(v@.len() as int) =~= v@);
    }
    r
}

/// An array of `input`'s shape whose every position holds `value`: the
/// verified remainder of an equal-weight prediction once the scalar
/// `1 / n_assets` has been produced.
pub fn uniform_like<T: Copy>(input: &Tensor<T>, value: T) -> (out: Tensor<T>)
    requires
        input@.wf(),
    ensures
        out@.wf(),
        out@.shape == input@.shape,
        out@.data.len() == input@.data.len(),
        forall|i: int| 0 <= i < out@.data.len() ==> out@.data[i] == value,
{
    let data = filled_vec(input.data.len(), value);
    let shape = copy_vec(&input.shape);
    Tensor { data, shape }
}

/// One draw per asset, taken in order from the shared stream.
pub fn draw_row<T, R: DrawSource<T>>(source: &mut R, count: usize) -> (r: Vec<T>)
    ensures
        r@.len() == count,
{
    let mut r: Vec<T> = Vec::new();
    let mut i: usize = 0;
    while i < count
        invariant
            0 <= i <= count,
            r@.len() == i,
        decreases count - i,
    {
        let value = source.next_value();
        r.push(value);
        i = i + 1;
    }
    r
}

/// Turn one row of draws into weights: divide each draw by the row's sum when
/// that sum is strictly positive, and fall back to the equal weight
/// `1 / count` for every asset when it is not (the all-zero-draws edge case).
pub fn normalize_row<T: WeightValue>(draws: &Vec<T>, count: usize) -> (r: Vec<T>)
    requires
        draws@.len() == count,
        count >= 1,
    ensures
        r@.len() == count,
{
    let mut sum = T::zero_value();
    let mut i: usize = 0;
    while i < count
        invariant
            0 <= i <= count,
            draws@.len() == count,
        decreases count - i,
    {
        sum = sum.plus(draws[i]);
        i = i + 1;
    }
    if sum.is_positive() {
        let mut r: Vec<T> = Vec::new();
        let mut k: usize = 0;
        while k < count
            invariant
                0 <= k <= count,
                draws@.len() == count,
                r@.len() == k,
            decreases count - k,
        {
            r.push(draws[k].divided_by(sum));
            k = k + 1;
        }
        r
    } else {
        filled_vec(count, T::one_over(count))
    }
}

/// The reference strategy that assigns every asset the same weight,
/// `1 / n_assets`.  Deterministic and stateless; parameterized only by the
/// advisory `min_observations`.
pub struct EqualWeightStrategy {
    pub min_observations: usize,
}

impl EqualWeightStrategy {
    pub fn new() -> (s: Self)
        ensures
            s.min_observations == 1,
    {
        EqualWeightStrategy { min_observations: 1 }
    }
}

impl<T: WeightValue> AllocationStrategy<T> for EqualWeightStrategy {
    fn min_observations(&self) -> usize {
        self.min_observations
    }

    /// Every position of the output receives `1 / n_assets`, whatever the
    /// input's rank.
    fn predict(&self, input: &Tensor<T>) -> (r: Result<Tensor<T>, AllocError>)
        ensures
            r is Ok <==> input@.predictable(),
            r matches Ok(out) ==> forall|i: int, j: int|
                0 <= i < out@.data.len() && 0 <= j < out@.data.len() ==> out@.data[i]
                    == out@.data[j],
    {
        if input.rank() == 0 || input.asset_len() == 0 {
            return Err(AllocError::Shape);
        }
        let weight = T::one_over(input.asset_len());
        Ok(uniform_like(input, weight))
    }
}

/// The reference strategy that assigns pseudo-random weights.  Per
/// observation it draws one value per asset from a single sequentially
/// advancing stream, then normalizes the row to sum 1, falling back to equal
/// weights when the row's draws summed to zero.  The stream is created anew
/// on every call: deterministic when `seed` is set, from entropy otherwise.
pub struct RandomWeightStrategy<R> {
    pub min_observations: usize,
    pub seed: Option<u64>,
    pub source_marker: PhantomData<R>,
}

impl<R> RandomWeightStrategy<R> {
    pub fn new() -> (s: Self)
        ensures
            s.min_observations == 1,
            s.seed is None,
    {
        RandomWeightStrategy { min_observations: 1, seed: None, source_marker: PhantomData }
    }
}

impl<T: WeightValue, R: DrawSource<T>> AllocationStrategy<T> for RandomWeightStrategy<R> {
    fn min_observations(&self) -> usize {
        self.min_observations
    }

    /// Supports rank-1 (one observation) and rank-2 (batched) inputs; a
    /// higher rank is reported as a shape error.
    fn predict(&self, input: &Tensor<T>) -> (r: Result<Tensor<T>, AllocError>)
        ensures
            r is Ok <==> (input@.predictable() && input@.rank() <= 2),
    {
        let rank: usize = input.rank();
        if rank == 0 || input.asset_len() == 0 {
            return Err(AllocError::Shape);
        }
        if rank == 1 {
            let n_assets: usize = input.asset_len();
            proof {
                lemma_dim_product_rank1(input@.shape);
            }
            let mut source = R::from_seed_opt(self.seed);
            let draws = draw_row(&mut source, n_assets);
            let weights = normalize_row(&draws, n_assets);
            let shape = copy_vec(&input.shape);
            return Ok(Tensor { data: weights, shape });
        }
        if rank == 2 {
            let n_obs: usize = input.shape[0];
            let n_assets: usize = input.shape[1];
            proof {
                lemma_dim_product_rank2(input@.shape);
            }
            let mut source = R::from_seed_opt(self.seed);
            let mut data: Vec<T> = Vec::new();
            let mut o: usize = 0;
            while o < n_obs
                invariant
                    0 <= o <= n_obs,
                    n_assets >= 1,
                    data@.len() == o * n_assets,
                decreases n_obs - o,
            {
                let draws = draw_row(&mut source, n_assets);
                let mut weights = normalize_row(&draws, n_assets);
                data.append(&mut weights);
                proof {
                    assert((o + 1) * n_assets == o * n_assets + n_assets) by (nonlinear_arith);
                }
                o = o + 1;
            }
            let shape = copy_vec(&input.shape);
            return Ok(Tensor { data, shape });
        }
        Err(AllocError::Shape)
    }
}

} // verus!
