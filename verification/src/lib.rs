//! A pluggable allocation-strategy library: strategies turn a batch of asset
//! observations into portfolio weight vectors, behind one uniform dispatch
//! surface.  The array boundary (`tensor`), the strategy contract and its
//! capability traits (`traits`), the reference strategies (`strategies`),
//! the host-bridged adapter (`bridge`) and the dispatcher (`allocator`) are
//! all verified; the numeric carrier and the embedding runtime stay outside,
//! behind the ensures-free capability traits.

pub mod allocator;
pub mod bridge;
pub mod errors;
pub mod strategies;
pub mod tensor;
pub mod traits;
