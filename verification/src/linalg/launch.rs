//! What a dispatcher hands to the device: a kernel, its arguments, and the
//! number of invocations.

use vstd::prelude::*;

use crate::error::TensorError;
use crate::shapes::ViewShape;

verus! {

/// The refusal for two extents that have to be equal, if they are not.
pub open spec fn spec_mismatch(left: u32, right: u32) -> Option<TensorError> {
    if left == right {
        None
    } else {
        Some(TensorError::DimensionMismatch { left, right })
    }
}

/// The refusal for a shape `a` that `b` cannot be repeated to fill, if it
/// cannot: it names the extents of `a` and of `b` along the first axis where
/// the one is no multiple of the other.
pub open spec fn spec_unfit(a: ViewShape, b: ViewShape) -> Option<TensorError> {
    match a.spec_first_unfit_axis(b) {
        Some(axis) => Some(
            TensorError::DimensionMismatch { left: a.size[axis], right: b.size[axis] },
        ),
        None => None,
    }
}

/// The refusal for a shape `a` that `b` cannot be repeated to fill, if it
/// cannot.
pub fn unfit(a: &ViewShape, b: ViewShape) -> (r: Option<TensorError>)
    ensures
        r == spec_unfit(*a, b),
{
    match a.first_unfit_axis(b) {
        Some(axis) => Some(
            TensorError::DimensionMismatch { left: a.size[axis], right: b.size[axis] },
        ),
        None => None,
    }
}

/// How many invocations of a kernel to launch.
#[derive(Copy, Clone, PartialEq, Eq, Debug, Hash)]
pub enum Workload {
    /// This many workgroups along each axis.
    Workgroups([u32; 3]),
    /// This many threads along each axis, in as many workgroups as it takes.
    Threads([u32; 3]),
    /// This many threads along the first axis, or as many as the device can
    /// launch at once if that is less: the kernel has to cover the rest.
    CappedThreads(u32),
}

/// One kernel launch, ready to be recorded: the kernel, the arguments to bind
/// to it, and the number of invocations.
pub struct KernelLaunch<'k, K, A> {
    /// The kernel to launch.
    pub kernel: &'k K,
    /// Its arguments.
    pub args: A,
    /// How many invocations to launch.
    pub workload: Workload,
}

/// The quotient of `a` by `b`, rounded up.
pub open spec fn spec_div_ceil(a: int, b: int) -> int
    recommends
        b > 0,
{
    (a + b - 1) / b
}

/// The quotient of `a` by `b`, rounded up.
pub fn div_ceil(a: u32, b: u32) -> (r: u32)
    requires
        b > 0,
    ensures
        r == spec_div_ceil(a as int, b as int),
{
    let q = a / b;
    let r = a % b;
    proof {
        let ai = a as int;
        let bi = b as int;
        assert((ai + bi - 1) / bi == if ai % bi == 0 {
            ai / bi
        } else {
            ai / bi + 1
        }) by (nonlinear_arith)
            requires
                ai >= 0,
                bi > 0,
        ;
        assert(q <= a) by (nonlinear_arith)
            requires
                q == a / b,
                b > 0,
        ;
        assert(r != 0 ==> q < a) by (nonlinear_arith)
            requires
                q == a / b,
                r == a % b,
                b > 0,
        ;
    }
    if r == 0 {
        q
    } else {
        q + 1
    }
}

} // verus!
