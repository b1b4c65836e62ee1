//! Filling a tensor with as many copies of another as it takes.

use vstd::prelude::*;

use crate::error::TensorError;
use crate::linalg::launch::{spec_unfit, unfit, KernelLaunch, Workload};
use crate::shapes::ViewShape;
use crate::tensor_view::{BufferSlice, GpuTensorView};

verus! {

/// The kernel that repeats a tensor. `K` is the type of a kernel.
pub struct Repeat<K> {
    /// Copies the source into the destination as often as it takes to fill
    /// it. Each extent of the destination must be a multiple of that of the
    /// source.
    pub repeat: K,
}

/// The arguments of the kernel.
pub struct RepeatArgs<'a, B> {
    /// The tensor that is repeated.
    pub source: BufferSlice<'a, B>,
    /// The tensor that is filled.
    pub result: BufferSlice<'a, B>,
    /// The shape of the source.
    pub shape_source: ViewShape,
    /// The shape of the destination.
    pub shape_result: ViewShape,
}

impl<K> Repeat<K> {
    /// What [`Repeat::launch`] answers.
    pub open spec fn spec_launch<'a, B>(
        &self,
        destination: GpuTensorView<'a, B>,
        source: GpuTensorView<'a, B>,
    ) -> Result<KernelLaunch<'_, K, RepeatArgs<'a, B>>, TensorError> {
        let shape_result = destination.spec_layout().shape;
        let shape_source = source.spec_layout().shape;
        if spec_unfit(shape_result, shape_source) is Some {
            Err(spec_unfit(shape_result, shape_source)->0)
        } else {
            Ok(
                KernelLaunch {
                    kernel: &self.repeat,
                    args: RepeatArgs {
                        source: source.spec_buffer_slice(),
                        result: destination.spec_buffer_slice(),
                        shape_source,
                        shape_result,
                    },
                    workload: Workload::Threads([shape_result.spec_len() as u32, 1, 1]),
                },
            )
        }
    }

    /// The launch that fills `destination` with copies of `source`: one
    /// thread for each element of the destination.
    ///
    /// Refused unless each extent of the destination is a multiple of that
    /// of the source.
    pub fn try_launch<'a, B>(
        &self,
        destination: GpuTensorView<'a, B>,
        source: GpuTensorView<'a, B>,
    ) -> (r: Result<KernelLaunch<'_, K, RepeatArgs<'a, B>>, TensorError>)
        requires
            destination.wf(),
        ensures
            r == self.spec_launch(destination, source),
    {
        let result_shape = destination.shape();
        let source_shape = source.shape();
        if let Some(e) = unfit(&result_shape, source_shape) {
            return Err(e);
        }
        Ok(
            KernelLaunch {
                kernel: &self.repeat,
                args: RepeatArgs {
                    source: source.buffer(),
                    result: destination.buffer(),
                    shape_source: source_shape,
                    shape_result: result_shape,
                },
                workload: Workload::Threads([destination.len() as u32, 1, 1]),
            },
        )
    }
}

impl<K> Repeat<K> {
    /// The launch that fills `destination` with copies of `source`: one
    /// thread for each element of the destination.
    ///
    /// Each extent of the destination has to be a multiple of that of the
    /// source, which [`Repeat::try_launch`] tests.
    pub fn launch<'a, B>(
        &self,
        destination: GpuTensorView<'a, B>,
        source: GpuTensorView<'a, B>,
    ) -> (r: KernelLaunch<'_, K, RepeatArgs<'a, B>>)
        requires
            destination.wf(),
            destination.spec_layout().shape.spec_is_multiple_of(source.spec_layout().shape),
        ensures
            self.spec_launch(destination, source) == Ok::<
                KernelLaunch<'_, K, RepeatArgs<'a, B>>,
                TensorError,
            >(r),
    {
        self.try_launch(destination, source).unwrap()
    }
}

} // verus!
