use vstd::prelude::*;

verus! {

/// The errors a prediction call or a boundary conversion can raise.
///
/// A failed read of a host object's advisory `min_observations` attribute is
/// deliberately not an error: that one case is downgraded to the default value
/// instead (see `crate::bridge::min_observations_or_default`).
#[derive(Debug, PartialEq, Eq)]
pub enum AllocError {
    /// A buffer/shape pair does not describe a rectangular array, or a
    /// host-bridged strategy returned a value that cannot be coerced back.
    Conversion,
    /// The input has rank zero or an asset axis of length zero, or a strategy
    /// does not support the input's rank.
    Shape,
    /// The wrapped host object's prediction entry point failed; the host-side
    /// message is carried verbatim.
    HostCall { message: String },
}

} // verus!
