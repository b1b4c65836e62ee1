//! In-place operations between two tensors: `a += b`, `a -= b`, `a *= b`,
//! `a /= b`, and the copy `a = b`.
//!
//! The extents of `a` must be multiples of those of `b`: `b` is repeated as
//! often as it takes to cover `a`.

use vstd::prelude::*;

use crate::error::TensorError;
use crate::linalg::launch::{spec_unfit, unfit, KernelLaunch, Workload};
use crate::shapes::ViewShape;
use crate::tensor_view::{BufferSlice, GpuTensorView};

verus! {

/// Names the in-place operations.
#[derive(Copy, Clone, PartialEq, Eq, Structural, Debug)]
#[non_exhaustive]
pub enum OpAssignVariant {
    /// `a += b`
    Add,
    /// `a -= b`
    Sub,
    /// `a *= b`
    Mul,
    /// `a /= b`
    Div,
    /// `a = b`
    Copy,
}

/// The kernels of the in-place operations. `K` is the type of a kernel.
pub struct OpAssign<K> {
    /// `a += b`
    pub add: K,
    /// `a -= b`
    pub sub: K,
    /// `a *= b`
    pub mul: K,
    /// `a /= b`
    pub div: K,
    /// `a = b`
    pub copy: K,
    /// `a = b`, where the kernel is told at which element of each buffer to
    /// start.
    pub copy_with_offsets: K,
}

/// Where a copy starts, in elements: read by the kernel from a buffer, for
/// devices on which a view cannot start at every element.
#[derive(Copy, Clone, PartialEq, Eq, Debug)]
pub struct BinOpOffsets {
    /// The index of the first element written in the destination.
    pub a: u32,
    /// The index of the first element read in the source.
    pub b: u32,
    /// Padding that the layout of the device asks for. Its value is not
    /// read.
    pub padding: [u32; 2],
}

/// The arguments of an in-place kernel.
pub struct BinOpArgs<'a, B, O> {
    /// The shape of the operand that is read and written.
    pub shape_a: ViewShape,
    /// The shape of the operand that is read.
    pub shape_b: ViewShape,
    /// The operand that is read and written.
    pub a: BufferSlice<'a, B>,
    /// The operand that is read.
    pub b: BufferSlice<'a, B>,
    /// The offsets of a copy that is told where to start.
    pub offsets: Option<BufferSlice<'a, O>>,
}

impl<K> OpAssign<K> {
    /// The kernel that `variant` names.
    pub open spec fn spec_kernel(&self, variant: OpAssignVariant) -> &K {
        match variant {
            OpAssignVariant::Add => &self.add,
            OpAssignVariant::Copy => &self.copy,
            OpAssignVariant::Div => &self.div,
            OpAssignVariant::Mul => &self.mul,
            OpAssignVariant::Sub => &self.sub,
        }
    }

    /// The launch of `kernel` on `a` and `b`: one thread for each element of
    /// `a`. Refused unless each extent of `a` is a multiple of that of `b`.
    pub open spec fn spec_launch<'a, 'k, B, O>(
        kernel: &'k K,
        a: GpuTensorView<'a, B>,
        b: GpuTensorView<'a, B>,
        offsets: Option<BufferSlice<'a, O>>,
    ) -> Result<KernelLaunch<'k, K, BinOpArgs<'a, B, O>>, TensorError> {
        let shape_a = a.spec_layout().shape;
        let shape_b = b.spec_layout().shape;
        if spec_unfit(shape_a, shape_b) is Some {
            Err(spec_unfit(shape_a, shape_b)->0)
        } else {
            Ok(
                KernelLaunch {
                    kernel,
                    args: BinOpArgs {
                        shape_a,
                        shape_b,
                        a: a.spec_buffer_slice(),
                        b: b.spec_buffer_slice(),
                        offsets,
                    },
                    workload: Workload::CappedThreads(shape_a.spec_len() as u32),
                },
            )
        }
    }

    /// The kernel that `variant` names.
    pub fn kernel(&self, variant: OpAssignVariant) -> (r: &K)
        ensures
            r == self.spec_kernel(variant),
    {
        match variant {
            OpAssignVariant::Add => &self.add,
            OpAssignVariant::Copy => &self.copy,
            OpAssignVariant::Div => &self.div,
            OpAssignVariant::Mul => &self.mul,
            OpAssignVariant::Sub => &self.sub,
        }
    }

    /// The launch of `kernel` on `a` and `b`, with the offsets buffer that
    /// goes with it, if any.
    fn launch_kernel<'a, 'k, B, O>(
        kernel: &'k K,
        a: GpuTensorView<'a, B>,
        b: GpuTensorView<'a, B>,
        offsets: Option<BufferSlice<'a, O>>,
    ) -> (r: Result<KernelLaunch<'k, K, BinOpArgs<'a, B, O>>, TensorError>)
        requires
            a.wf(),
        ensures
            r == Self::spec_launch(kernel, a, b, offsets),
    {
        let shape_a = a.shape();
        let shape_b = b.shape();
        if let Some(e) = unfit(&shape_a, shape_b) {
            return Err(e);
        }
        Ok(
            KernelLaunch {
                kernel,
                args: BinOpArgs { shape_a, shape_b, a: a.buffer(), b: b.buffer(), offsets },
                workload: Workload::CappedThreads(a.len() as u32),
            },
        )
    }

    /// The launch of the operation `variant`, which reads and writes `a` and
    /// reads `b`: one thread for each element of `a`.
    ///
    /// Refused unless each extent of `a` is a multiple of that of `b`.
    pub fn try_launch<'a, B>(
        &self,
        variant: OpAssignVariant,
        a: GpuTensorView<'a, B>,
        b: GpuTensorView<'a, B>,
    ) -> (r: Result<KernelLaunch<'_, K, BinOpArgs<'a, B, BinOpOffsets>>, TensorError>)
        requires
            a.wf(),
        ensures
            r == Self::spec_launch(self.spec_kernel(variant), a, b, None::<BufferSlice<'a, BinOpOffsets>>),
    {
        Self::launch_kernel(self.kernel(variant), a, b, None)
    }

    /// The launch of the copy of `b` into `a` that reads from the buffer of
    /// `offsets` at which element of each to start.
    ///
    /// This is for an offset that the device cannot give to a view: it asks
    /// for offsets aligned to more than one element.
    pub fn try_launch_copy_with_offsets<'a, B, O>(
        &self,
        offsets: GpuTensorView<'a, O>,
        a: GpuTensorView<'a, B>,
        b: GpuTensorView<'a, B>,
    ) -> (r: Result<KernelLaunch<'_, K, BinOpArgs<'a, B, O>>, TensorError>)
        requires
            a.wf(),
        ensures
            r == Self::spec_launch(
                &self.copy_with_offsets,
                a,
                b,
                Some(offsets.spec_buffer_slice()),
            ),
    {
        Self::launch_kernel(&self.copy_with_offsets, a, b, Some(offsets.buffer()))
    }
}

impl<K> OpAssign<K> {
    /// The launch of the operation `variant`, which reads and writes `a` and
    /// reads `b`: one thread for each element of `a`.
    ///
    /// Each extent of `a` has to be a multiple of that of `b`, which
    /// [`OpAssign::try_launch`] tests.
    pub fn launch<'a, B>(
        &self,
        variant: OpAssignVariant,
        a: GpuTensorView<'a, B>,
        b: GpuTensorView<'a, B>,
    ) -> (r: KernelLaunch<'_, K, BinOpArgs<'a, B, BinOpOffsets>>)
        requires
            a.wf(),
            a.spec_layout().shape.spec_is_multiple_of(b.spec_layout().shape),
        ensures
            Self::spec_launch(
                self.spec_kernel(variant),
                a,
                b,
                None::<BufferSlice<'a, BinOpOffsets>>,
            ) == Ok::<KernelLaunch<'_, K, BinOpArgs<'a, B, BinOpOffsets>>, TensorError>(r),
    {
        self.try_launch(variant, a, b).unwrap()
    }

    /// The launch of the copy of `b` into `a` that reads from the buffer of
    /// `offsets` at which element of each to start. This is for an offset
    /// that the device cannot give to a view: it asks for offsets aligned to
    /// more than one element.
    ///
    /// Each extent of `a` has to be a multiple of that of `b`, which
    /// [`OpAssign::try_launch_copy_with_offsets`] tests.
    pub fn launch_copy_with_offsets<'a, B, O>(
        &self,
        offsets: GpuTensorView<'a, O>,
        a: GpuTensorView<'a, B>,
        b: GpuTensorView<'a, B>,
    ) -> (r: KernelLaunch<'_, K, BinOpArgs<'a, B, O>>)
        requires
            a.wf(),
            a.spec_layout().shape.spec_is_multiple_of(b.spec_layout().shape),
        ensures
            Self::spec_launch(
                &self.copy_with_offsets,
                a,
                b,
                Some(offsets.spec_buffer_slice()),
            ) == Ok::<KernelLaunch<'_, K, BinOpArgs<'a, B, O>>, TensorError>(r),
    {
        self.try_launch_copy_with_offsets(offsets, a, b).unwrap()
    }
}

} // verus!
