//! Copying a tensor of any layout into a packed one.

use vstd::prelude::*;

use crate::error::TensorError;
use crate::linalg::launch::{KernelLaunch, Workload};
use crate::shapes::{MatrixOrdering, ViewShape};
use crate::tensor_view::{BufferSlice, GpuTensorView};

verus! {

/// The kernels that pack a tensor. `K` is the type of a kernel.
pub struct Contiguous<K> {
    /// Copies a tensor into a packed row-major one.
    pub contiguous_row_major: K,
    /// Copies a tensor into a packed column-major one.
    pub contiguous_col_major: K,
}

/// The arguments of the kernels.
pub struct ContiguousArgs<'a, B> {
    /// The tensor that is read.
    pub tensor: BufferSlice<'a, B>,
    /// The packed tensor that is written.
    pub out: BufferSlice<'a, B>,
    /// The shape of the tensor that is read.
    pub shape: ViewShape,
}

impl<K> Contiguous<K> {
    /// The kernel that writes a tensor packed under `ordering`.
    pub open spec fn spec_kernel(&self, ordering: MatrixOrdering) -> &K {
        match ordering {
            MatrixOrdering::ColumnMajor => &self.contiguous_col_major,
            MatrixOrdering::RowMajor => &self.contiguous_row_major,
        }
    }

    /// What [`Contiguous::launch`] answers.
    pub open spec fn spec_launch<'a, B>(
        &self,
        out: GpuTensorView<'a, B>,
        tensor: GpuTensorView<'a, B>,
    ) -> Result<KernelLaunch<'_, K, ContiguousArgs<'a, B>>, TensorError> {
        let shape = tensor.spec_layout().shape;
        let out_shape = out.spec_layout().shape;
        if shape.spec_len() != out_shape.spec_len() {
            Err(
                TensorError::DimensionMismatch {
                    left: shape.spec_len() as u32,
                    right: out_shape.spec_len() as u32,
                },
            )
        } else {
            match out_shape.spec_is_contiguous() {
                None => Err(TensorError::NonContiguous),
                Some(ordering) => Ok(
                    KernelLaunch {
                        kernel: self.spec_kernel(ordering),
                        args: ContiguousArgs {
                            tensor: tensor.spec_buffer_slice(),
                            out: out.spec_buffer_slice(),
                            shape,
                        },
                        workload: Workload::CappedThreads(shape.spec_len() as u32),
                    },
                ),
            }
        }
    }

    /// The launch that copies `tensor`, of any layout, into `out`, which is
    /// packed: one thread for each element. The kernel is the one for the
    /// ordering that `out` is packed under.
    ///
    /// Refused when the two views do not have the same number of elements,
    /// with the two numbers, and when `out` is not contiguous.
    pub fn try_launch<'a, B>(
        &self,
        out: GpuTensorView<'a, B>,
        tensor: GpuTensorView<'a, B>,
    ) -> (r: Result<KernelLaunch<'_, K, ContiguousArgs<'a, B>>, TensorError>)
        requires
            out.wf(),
            tensor.wf(),
        ensures
            r == self.spec_launch(out, tensor),
    {
        let tensor_shape = tensor.shape();
        let count = tensor.len();
        let room = out.len();
        if count != room {
            return Err(TensorError::DimensionMismatch { left: count as u32, right: room as u32 });
        }
        let kernel = match out.is_contiguous() {
            Some(MatrixOrdering::ColumnMajor) => &self.contiguous_col_major,
            Some(MatrixOrdering::RowMajor) => &self.contiguous_row_major,
            None => {
                return Err(TensorError::NonContiguous);
            },
        };
        Ok(
            KernelLaunch {
                kernel,
                args: ContiguousArgs { tensor: tensor.buffer(), out: out.buffer(), shape: tensor_shape },
                workload: Workload::CappedThreads(count as u32),
            },
        )
    }
}

impl<K> Contiguous<K> {
    /// The launch that copies `tensor`, of any layout, into `out`, which is
    /// packed: one thread for each element. The kernel is the one for the
    /// ordering that `out` is packed under.
    ///
    /// The two views have to have the same number of elements, and `out` has
    /// to be contiguous. [`Contiguous::try_launch`] tests both.
    pub fn launch<'a, B>(
        &self,
        out: GpuTensorView<'a, B>,
        tensor: GpuTensorView<'a, B>,
    ) -> (r: KernelLaunch<'_, K, ContiguousArgs<'a, B>>)
        requires
            out.wf(),
            tensor.wf(),
            tensor.spec_layout().shape.spec_len() == out.spec_layout().shape.spec_len(),
            out.spec_layout().shape.spec_is_contiguous() is Some,
        ensures
            self.spec_launch(out, tensor) == Ok::<
                KernelLaunch<'_, K, ContiguousArgs<'a, B>>,
                TensorError,
            >(r),
    {
        self.try_launch(out, tensor).unwrap()
    }
}

} // verus!
