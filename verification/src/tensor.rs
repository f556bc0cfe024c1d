use vstd::prelude::*;

use crate::errors::AllocError;

verus! {

/// Mathematical product of a shape's dimension sizes.  The empty shape (a
/// rank-0 array) has product 1: it holds exactly one scalar.
pub open spec fn dim_product(shape: Seq<usize>) -> int
    decreases shape.len(),
{
    if shape.len() == 0 {
        1
    } else {
        dim_product(shape.drop_last()) * (shape.last() as int)
    }
}

pub proof fn lemma_dim_product_nonneg(shape: Seq<usize>)
    ensures
        dim_product(shape) >= 0,
    decreases shape.len(),
{
    if shape.len() > 0 {
        lemma_dim_product_nonneg(shape.drop_last());
        assert(dim_product(shape) >= 0) by (nonlinear_arith)
            requires
                dim_product(shape) == dim_product(shape.drop_last()) * (shape.last() as int),
                dim_product(shape.drop_last()) >= 0,
        ;
    }
}

/// A shape with a zero dimension describes an empty buffer.
pub proof fn lemma_dim_product_zero(shape: Seq<usize>, j: int)
    requires
        0 <= j < shape.len(),
        shape[j] == 0,
    ensures
        dim_product(shape) == 0,
    decreases shape.len(),
{
    if j < shape.len() - 1 {
        lemma_dim_product_zero(shape.drop_last(), j);
        assert(dim_product(shape) == 0) by (nonlinear_arith)
            requires
                dim_product(shape) == dim_product(shape.drop_last()) * (shape.last() as int),
                dim_product(shape.drop_last()) == 0,
        ;
    } else {
        assert(shape.last() == 0);
        assert(dim_product(shape) == 0) by (nonlinear_arith)
            requires
                dim_product(shape) == dim_product(shape.drop_last()) * (shape.last() as int),
                shape.last() == 0,
        ;
    }
}

/// With every remaining dimension positive, a prefix's product never exceeds
/// the whole shape's product.
pub proof fn lemma_dim_product_prefix_bound(shape: Seq<usize>, i: int)
    requires
        0 <= i <= shape.len(),
        forall|j: int| 0 <= j < shape.len() ==> shape[j] >= 1,
    ensures
        dim_product(shape.take(i)) <= dim_product(shape),
    decreases shape.len() - i,
{
    if i == shape.len() {
        assert(shape.take(i) =~= shape);
    } else {
        lemma_dim_product_prefix_bound(shape, i + 1);
        assert(shape.take(i + 1).drop_last() =~= shape.take(i));
        lemma_dim_product_nonneg(shape.take(i));
        assert(dim_product(shape.take(i)) <= dim_product(shape.take(i + 1))) by (nonlinear_arith)
            requires
                dim_product(shape.take(i + 1)) == dim_product(shape.take(i)) * (shape[i] as int),
                dim_product(shape.take(i)) >= 0,
                shape[i] >= 1,
        ;
    }
}

pub proof fn lemma_dim_product_rank1(shape: Seq<usize>)
    requires
        shape.len() == 1,
    ensures
        dim_product(shape) == shape[0],
{
    assert(dim_product(Seq::<usize>::empty()) == 1);
    assert(shape.drop_last() =~= Seq::<usize>::empty());
}

pub proof fn lemma_dim_product_rank2(shape: Seq<usize>)
    requires
        shape.len() == 2,
    ensures
        dim_product(shape) == shape[0] * shape[1],
{
    let s1 = shape.drop_last();
    assert(dim_product(Seq::<usize>::empty()) == 1);
    assert(s1.drop_last() =~= Seq::<usize>::empty());
    assert(s1.last() == shape[0]);
    assert(dim_product(s1) == shape[0]);
    assert(dim_product(shape) == dim_product(s1) * (shape[1] as int));
}

/// The mathematical content of a tensor: its flat row-major buffer and its
/// shape.
pub ghost struct ArrayModel<T> {
    pub data: Seq<T>,
    pub shape: Seq<usize>,
}

impl<T> ArrayModel<T> {
    /// The array invariant: the buffer holds exactly one value per position of
    /// the shape.
    pub open spec fn wf(self) -> bool {
        dim_product(self.shape) == self.data.len()
    }

    pub open spec fn rank(self) -> nat {
        self.shape.len()
    }

    /// Length of the asset axis: dimension 0 of a rank-1 array, dimension 1 of
    /// a batched array.
    pub open spec fn asset_len(self) -> usize {
        if self.shape.len() == 0 {
            0
        } else if self.shape.len() == 1 {
            self.shape[0]
        } else {
            self.shape[1]
        }
    }

    /// An array a strategy can predict on: rank at least 1 and a non-empty
    /// asset axis.
    pub open spec fn predictable(self) -> bool {
        self.rank() >= 1 && self.asset_len() > 0
    }
}

/// An N-dimensional, contiguous, row-major array: a flat buffer plus a shape.
pub struct Tensor<T> {
    pub data: Vec<T>,
    pub shape: Vec<usize>,
}

impl<T> View for Tensor<T> {
    type V = ArrayModel<T>;

    open spec fn view(&self) -> ArrayModel<T> {
        ArrayModel { data: self.data@, shape: self.shape@ }
    }
}

impl<T> Tensor<T> {
    pub fn rank(&self) -> (n: usize)
        ensures
            n == self@.rank(),
    {
        self.shape.len()
    }

    pub fn asset_len(&self) -> (n: usize)
        ensures
            n == self@.asset_len(),
    {
        if self.shape.len() == 0 {
            0
        } else if self.shape.len() == 1 {
            self.shape[0]
        } else {
            self.shape[1]
        }
    }
}

/// What decoding a buffer/shape pair yields: the array itself when the pair is
/// rectangular, nothing otherwise.
pub open spec fn decode_spec<T>(data: Seq<T>, shape: Seq<usize>) -> Option<ArrayModel<T>> {
    if dim_product(shape) == data.len() {
        Some(ArrayModel { data, shape })
    } else {
        None
    }
}

/// What encoding an array yields: its buffer and shape, verbatim.
pub open spec fn encode_spec<T>(m: ArrayModel<T>) -> (Seq<T>, Seq<usize>) {
    (m.data, m.shape)
}

/// Round-trip fidelity: any buffer/shape pair that decoding accepts is handed
/// back verbatim by encoding the decoded array.
pub proof fn lemma_round_trip<T>(data: Seq<T>, shape: Seq<usize>)
    requires
        dim_product(shape) == data.len(),
    ensures
        decode_spec(data, shape) matches Some(m) && encode_spec(m) == (data, shape),
{
}

/// Encoding loses nothing: a well-formed array re-decodes to itself.
pub proof fn lemma_encode_then_decode<T>(m: ArrayModel<T>)
    requires
        m.wf(),
    ensures
        decode_spec(m.data, m.shape) == Some(m),
{
}

/// Product of the dimensions, or `None` when it exceeds `usize::MAX`.
pub fn checked_dim_product(shape: &Vec<usize>) -> (r: Option<usize>)
    ensures
        r matches Some(p) ==> p == dim_product(shape@),
        r is None ==> dim_product(shape@) > usize::MAX,
{
    let n: usize = shape.len();
    let mut i: usize = 0;
    while i < n
        invariant
            0 <= i <= n,
            n == shape@.len(),
            forall|j: int| 0 <= j < i ==> shape@[j] >= 1,
        decreases n - i,
    {
        if shape[i] == 0 {
            proof {
                lemma_dim_product_zero(shape@, i as int);
            }
            return Some(0);
        }
        i = i + 1;
    }
    let mut acc: usize = 1;
    let mut k: usize = 0;
    while k < n
        invariant
            0 <= k <= n,
            n == shape@.len(),
            forall|j: int| 0 <= j < n ==> shape@[j] >= 1,
            acc == dim_product(shape@.take(k as int)),
        decreases n - k,
    {
        proof {
            assert(shape@.take(k + 1).drop_last() =~= shape@.take(k as int));
            assert(shape@.take(k + 1).last() == shape@[k as int]);
        }
        match acc.checked_mul(shape[k]) {
            Some(next) => {
                acc = next;
            },
            None => {
                proof {
                    lemma_dim_product_prefix_bound(shape@, k + 1);
                }
                return None;
            },
        }
        k = k + 1;
    }
    proof {
        assert(shape@.take(n as int) =~= shape@);
    }
    Some(acc)
}

/// Coerce a flat buffer and a shape into an array.  Fails with a conversion
/// error exactly when the pair is not rectangular: the buffer's length must
/// equal the product of the dimensions.
pub fn decode<T>(data: Vec<T>, shape: Vec<usize>) -> (r: Result<Tensor<T>, AllocError>)
    ensures
        r is Ok <==> dim_product(shape@) == data@.len(),
        r matches Ok(t) ==> t@.wf() && decode_spec(data@, shape@) == Some(t@),
        r matches Err(e) ==> e is Conversion,
{
    match checked_dim_product(&shape) {
        Some(p) => {
            if p == data.len() {
                Ok(Tensor { data, shape })
            } else {
                Err(AllocError::Conversion)
            }
        },
        None => {
            let len: usize = data.len();
            proof {
                assert(len <= usize::MAX);
            }
            Err(AllocError::Conversion)
        },
    }
}

/// Take an array apart into its flat buffer and its shape, verbatim.
pub fn encode<T>(t: Tensor<T>) -> (r: (Vec<T>, Vec<usize>))
    ensures
        (r.0@, r.1@) == encode_spec(t@),
{
    (t.data, t.shape)
}

} // verus!
