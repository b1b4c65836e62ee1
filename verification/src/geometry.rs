//! Kernels for small matrices.

use vstd::prelude::*;

verus! {

/// Names the module of kernels that invert small matrices.
#[derive(Copy, Clone, PartialEq, Eq, Structural, Debug, Default, Hash)]
pub struct WgInv;

} // verus!
