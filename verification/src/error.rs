//! The ways in which a request on a shape, a view or a dispatcher is refused.

use vstd::prelude::*;

verus! {

/// The three families of refusals. Each one is detected from the arguments
/// alone, before any work is asked of the device.
#[derive(Copy, Clone, PartialEq, Eq, Structural, Debug, Hash)]
pub enum ErrorKind {
    /// Operand extents are incompatible with the requested operation.
    ShapeMismatch,
    /// The memory layout of an operand is not one the operation can serve.
    UnsupportedLayout,
    /// The request reaches outside the elements that its source addresses.
    BoundsViolation,
}

/// Why a request was refused.
#[derive(Copy, Clone, PartialEq, Eq, Structural, Debug, Hash)]
pub enum TensorError {
    /// Operand extents do not fit together: the two that were held against
    /// each other, in the order of the statement that they break.
    DimensionMismatch { left: u32, right: u32 },
    /// The axis indices are not a bijection on the four axes.
    InvalidPermutation,
    /// More than four extents were given.
    TooManyAxes,
    /// Fewer than two extents were given where rows and columns trade places.
    TooFewAxes,
    /// The tensor is not a vector under its ordering.
    NotAVector,
    /// Fewer host elements were provided than the shape holds.
    NotEnoughData,
    /// An operand that must be contiguous, or have a unit-stride leading
    /// axis, does not.
    NonContiguous,
    /// Both leading extents are 1 and nothing tells rows from columns.
    AmbiguousOrdering,
    /// An extent or a stride is not a multiple of the packing width.
    Misaligned,
    /// The combination of transpositions has no kernel.
    Unimplemented,
    /// A slice or a range reaches past the end of its source.
    OutOfBounds,
    /// The tensor has to grow and no buffer was given for it.
    MissingBuffer,
    /// An element count, an offset or a stride does not fit its integer type.
    Overflow,
}

impl TensorError {
    /// The family this refusal belongs to.
    pub open spec fn spec_kind(self) -> ErrorKind {
        match self {
            TensorError::DimensionMismatch { .. } => ErrorKind::ShapeMismatch,
            TensorError::InvalidPermutation => ErrorKind::ShapeMismatch,
            TensorError::TooManyAxes => ErrorKind::ShapeMismatch,
            TensorError::TooFewAxes => ErrorKind::ShapeMismatch,
            TensorError::NotAVector => ErrorKind::ShapeMismatch,
            TensorError::NotEnoughData => ErrorKind::ShapeMismatch,
            TensorError::NonContiguous => ErrorKind::UnsupportedLayout,
            TensorError::AmbiguousOrdering => ErrorKind::UnsupportedLayout,
            TensorError::Misaligned => ErrorKind::UnsupportedLayout,
            TensorError::Unimplemented => ErrorKind::UnsupportedLayout,
            TensorError::OutOfBounds => ErrorKind::BoundsViolation,
            TensorError::MissingBuffer => ErrorKind::BoundsViolation,
            TensorError::Overflow => ErrorKind::BoundsViolation,
        }
    }

    /// The family this refusal belongs to.
    #[verifier::when_used_as_spec(spec_kind)]
    pub fn kind(self) -> (k: ErrorKind)
        ensures
            k == self.spec_kind(),
    {
        match self {
            TensorError::DimensionMismatch { .. } => ErrorKind::ShapeMismatch,
            TensorError::InvalidPermutation => ErrorKind::ShapeMismatch,
            TensorError::TooManyAxes => ErrorKind::ShapeMismatch,
            TensorError::TooFewAxes => ErrorKind::ShapeMismatch,
            TensorError::NotAVector => ErrorKind::ShapeMismatch,
            TensorError::NotEnoughData => ErrorKind::ShapeMismatch,
            TensorError::NonContiguous => ErrorKind::UnsupportedLayout,
            TensorError::AmbiguousOrdering => ErrorKind::UnsupportedLayout,
            TensorError::Misaligned => ErrorKind::UnsupportedLayout,
            TensorError::Unimplemented => ErrorKind::UnsupportedLayout,
            TensorError::OutOfBounds => ErrorKind::BoundsViolation,
            TensorError::MissingBuffer => ErrorKind::BoundsViolation,
            TensorError::Overflow => ErrorKind::BoundsViolation,
        }
    }
}

} // verus!
