//! Reducing a tensor to a single value.

use vstd::prelude::*;

use crate::linalg::launch::{KernelLaunch, Workload};
use crate::shapes::ViewShape;
use crate::tensor_view::GpuTensorView;

verus! {

/// Names the reductions.
#[derive(Copy, Clone, PartialEq, Eq, Structural, Debug)]
#[non_exhaustive]
pub enum ReduceVariant {
    /// The least element.
    Min,
    /// The greatest element.
    Max,
    /// The sum of the elements.
    Sum,
    /// The product of the elements.
    Prod,
    /// The sum of the squares of the elements.
    SqNorm,
}

/// The kernels of the reductions. `K` is the type of a kernel.
pub struct Reduce<K> {
    /// The sum of the elements.
    pub reduce_sum: K,
    /// The product of the elements.
    pub reduce_product: K,
    /// The least element.
    pub reduce_min: K,
    /// The greatest element.
    pub reduce_max: K,
    /// The sum of the squares of the elements.
    pub reduce_sqnorm: K,
}

/// The arguments of a reduction kernel.
pub struct ReduceArgs<'a, B> {
    /// The shape of the input.
    pub shape: ViewShape,
    /// The whole buffer of the input.
    pub input: &'a B,
    /// The whole buffer of the result, a single value.
    pub output: &'a B,
}

impl<K> Reduce<K> {
    /// The kernel that `variant` names.
    pub open spec fn spec_kernel(&self, variant: ReduceVariant) -> &K {
        match variant {
            ReduceVariant::Min => &self.reduce_min,
            ReduceVariant::Max => &self.reduce_max,
            ReduceVariant::Sum => &self.reduce_sum,
            ReduceVariant::Prod => &self.reduce_product,
            ReduceVariant::SqNorm => &self.reduce_sqnorm,
        }
    }

    /// The kernel that `variant` names.
    pub fn kernel(&self, variant: ReduceVariant) -> (r: &K)
        ensures
            r == self.spec_kernel(variant),
    {
        match variant {
            ReduceVariant::Min => &self.reduce_min,
            ReduceVariant::Max => &self.reduce_max,
            ReduceVariant::Sum => &self.reduce_sum,
            ReduceVariant::Prod => &self.reduce_product,
            ReduceVariant::SqNorm => &self.reduce_sqnorm,
        }
    }

    /// The launch that reduces `input` to the single value of `output`: one
    /// workgroup, whose threads cover the input between them.
    pub fn launch<'a, B>(
        &self,
        variant: ReduceVariant,
        input: GpuTensorView<'a, B>,
        output: GpuTensorView<'a, B>,
    ) -> (r: KernelLaunch<'_, K, ReduceArgs<'a, B>>)
        ensures
            r.kernel == self.spec_kernel(variant),
            r.args.shape == input.spec_layout().shape,
            r.args.input == input.spec_buffer(),
            r.args.output == output.spec_buffer(),
            r.workload == Workload::Workgroups([1u32, 1u32, 1u32]),
    {
        KernelLaunch {
            kernel: self.kernel(variant),
            args: ReduceArgs {
                shape: input.shape(),
                input: input.raw_buffer(),
                output: output.raw_buffer(),
            },
            workload: Workload::Workgroups([1, 1, 1]),
        }
    }
}

} // verus!
