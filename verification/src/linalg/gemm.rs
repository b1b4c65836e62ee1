//! The product of two matrices.

use vstd::prelude::*;

use crate::error::TensorError;
use crate::linalg::launch::{div_ceil, spec_div_ceil, spec_mismatch, KernelLaunch, Workload};
use crate::shapes::ViewShape;
use crate::tensor_view::{BufferSlice, GpuTensorView};

verus! {

/// The kernels of the matrix product. `K` is the type of a kernel.
pub struct Gemm<K> {
    /// `matrix1 * matrix2`.
    pub gemm: K,
    /// `matrix1 * matrix2`, reduced within a workgroup.
    pub gemm_fast: K,
    /// `transpose(matrix1) * matrix2`.
    pub gemm_tr: K,
    /// `transpose(matrix1) * matrix2`, reduced within a workgroup.
    pub gemm_tr_fast: K,
}

/// Names the kernels of [`Gemm`].
#[derive(Copy, Clone, PartialEq, Eq, Structural, Debug, Hash)]
pub enum GemmVariant {
    /// `matrix1 * matrix2`.
    Gemm,
    /// `matrix1 * matrix2`, reduced within a workgroup.
    GemmFast,
    /// `transpose(matrix1) * matrix2`.
    GemmTr,
    /// `transpose(matrix1) * matrix2`, reduced within a workgroup.
    GemmTrFast,
}

impl GemmVariant {
    /// Whether the first operand is transposed.
    pub open spec fn is_transposed(self) -> bool {
        self == GemmVariant::GemmTr || self == GemmVariant::GemmTrFast
    }

    /// Whether the kernel reduces within a workgroup.
    pub open spec fn is_fast(self) -> bool {
        self == GemmVariant::GemmFast || self == GemmVariant::GemmTrFast
    }
}

/// The arguments of a matrix product kernel: the three buffers, and the
/// shape that the kernel reads for each, in elements packed four by four.
pub struct GemmArgs<'a, B> {
    /// The first operand.
    pub m1: BufferSlice<'a, B>,
    /// The second operand.
    pub m2: BufferSlice<'a, B>,
    /// The result.
    pub out: BufferSlice<'a, B>,
    /// The shape of the first operand.
    pub shape_m1: ViewShape,
    /// The shape of the second operand.
    pub shape_m2: ViewShape,
    /// The shape of the result.
    pub shape_out: ViewShape,
}

/// A dense product `C = op(A) * B` of column-major matrices that fill their
/// buffers, as a vendor primitive takes it.
#[derive(Copy, Clone, PartialEq, Eq, Structural, Debug, Hash)]
pub struct DenseProduct {
    /// Whether `A` is transposed.
    pub transpose_a: bool,
    /// The number of rows of `op(A)` and of `C`.
    pub m: u32,
    /// The number of columns of `B` and of `C`.
    pub n: u32,
    /// The number of columns of `op(A)` and of rows of `B`.
    pub k: u32,
    /// The leading dimension of `A`.
    pub lda: u32,
    /// The leading dimension of `B`.
    pub ldb: u32,
    /// The leading dimension of `C`.
    pub ldc: u32,
}

/// The launch of a matrix product, and the vendor primitive that may stand
/// in for it.
pub struct GemmDispatch<'a, 'k, K, B> {
    /// The launch of the kernel.
    pub launch: KernelLaunch<'k, K, GemmArgs<'a, B>>,
    /// The same product as a vendor primitive takes it, if each of the three
    /// views is the whole of its buffer. A device that has such a primitive,
    /// and was told to use it, may run it in place of the kernel.
    pub dense: Option<DenseProduct>,
}

/// The first two extents that break `out = m1 * m2`, or `out = tr(m1) * m2`
/// for the transposed variants, if any do: the columns of the first operand
/// against the rows of the second; its rows against those of the result; the
/// columns of the result against those of the second operand; the matrices
/// of the result against those of each operand.
pub open spec fn gemm_mismatch(
    out: ViewShape,
    m1: ViewShape,
    m2: ViewShape,
    variant: GemmVariant,
) -> Option<TensorError> {
    let rows = if variant.is_transposed() {
        m1.size[1]
    } else {
        m1.size[0]
    };
    let cols = if variant.is_transposed() {
        m1.size[0]
    } else {
        m1.size[1]
    };
    if spec_mismatch(cols, m2.size[0]) is Some {
        spec_mismatch(cols, m2.size[0])
    } else if spec_mismatch(rows, out.size[0]) is Some {
        spec_mismatch(rows, out.size[0])
    } else if spec_mismatch(out.size[1], m2.size[1]) is Some {
        spec_mismatch(out.size[1], m2.size[1])
    } else if spec_mismatch(out.size[2], m1.size[2]) is Some {
        spec_mismatch(out.size[2], m1.size[2])
    } else {
        spec_mismatch(out.size[2], m2.size[2])
    }
}

/// The number of workgroups for a result of `rows` rows: each thread of a
/// plain kernel writes four rows, each workgroup of a reducing kernel writes
/// four rows.
pub open spec fn gemm_groups(variant: GemmVariant, rows: u32) -> int {
    if variant.is_fast() {
        spec_div_ceil(rows as int, 4)
    } else {
        spec_div_ceil(rows as int, 64)
    }
}

impl<K> Gemm<K> {
    /// The kernel that `variant` names.
    pub open spec fn spec_kernel(&self, variant: GemmVariant) -> &K {
        match variant {
            GemmVariant::Gemm => &self.gemm,
            GemmVariant::GemmFast => &self.gemm_fast,
            GemmVariant::GemmTr => &self.gemm_tr,
            GemmVariant::GemmTrFast => &self.gemm_tr_fast,
        }
    }

    /// What [`Gemm::dispatch_generic`] answers.
    ///
    /// Refused when the extents do not fit, with the two that do not, and
    /// when one of the shapes, the result first, cannot be packed four
    /// elements at a time.
    pub open spec fn spec_dispatch<'a, B>(
        &self,
        out: GpuTensorView<'a, B>,
        m1: GpuTensorView<'a, B>,
        m2: GpuTensorView<'a, B>,
        variant: GemmVariant,
    ) -> Result<GemmDispatch<'a, '_, K, B>, TensorError> {
        let shape_out = out.spec_layout().shape;
        let shape_m1 = m1.spec_layout().shape;
        let shape_m2 = m2.spec_layout().shape;
        if gemm_mismatch(shape_out, shape_m1, shape_m2, variant) is Some {
            Err(gemm_mismatch(shape_out, shape_m1, shape_m2, variant)->0)
        } else {
            match shape_out.spec_try_f32_to_vec4() {
                Err(e) => Err(e),
                Ok(packed_out) => match shape_m1.spec_try_f32_to_vec4() {
                    Err(e) => Err(e),
                    Ok(packed_m1) => match shape_m2.spec_try_f32_to_vec4() {
                        Err(e) => Err(e),
                        Ok(packed_m2) => Ok(
                            GemmDispatch {
                                launch: KernelLaunch {
                                    kernel: self.spec_kernel(variant),
                                    args: GemmArgs {
                                        m1: m1.spec_buffer_slice(),
                                        m2: m2.spec_buffer_slice(),
                                        out: out.spec_buffer_slice(),
                                        shape_m1: packed_m1,
                                        shape_m2: packed_m2,
                                        shape_out: packed_out,
                                    },
                                    workload: Workload::Workgroups(
                                        [gemm_groups(variant, shape_out.size[0]) as u32, 1, 1],
                                    ),
                                },
                                dense: if out.spec_layout().spec_is_entire_tensor() is Some
                                    && m1.spec_layout().spec_is_entire_tensor() is Some
                                    && m2.spec_layout().spec_is_entire_tensor() is Some {
                                    Some(
                                        DenseProduct {
                                            transpose_a: variant.is_transposed(),
                                            m: shape_out.size[0],
                                            n: shape_out.size[1],
                                            k: shape_m2.size[0],
                                            lda: shape_m1.size[0],
                                            ldb: shape_m2.size[0],
                                            ldc: shape_out.size[0],
                                        },
                                    )
                                } else {
                                    None
                                },
                            },
                        ),
                    },
                },
            }
        }
    }

    /// The kernel that `variant` names.
    pub fn kernel(&self, variant: GemmVariant) -> (r: &K)
        ensures
            r == self.spec_kernel(variant),
    {
        match variant {
            GemmVariant::Gemm => &self.gemm,
            GemmVariant::GemmFast => &self.gemm_fast,
            GemmVariant::GemmTr => &self.gemm_tr,
            GemmVariant::GemmTrFast => &self.gemm_tr_fast,
        }
    }

    /// The launch that computes `out = m1 * m2`.
    pub fn try_dispatch<'a, B>(
        &self,
        out: GpuTensorView<'a, B>,
        m1: GpuTensorView<'a, B>,
        m2: GpuTensorView<'a, B>,
    ) -> (r: Result<GemmDispatch<'a, '_, K, B>, TensorError>)
        requires
            out.wf(),
            m1.wf(),
            m2.wf(),
        ensures
            r == self.spec_dispatch(out, m1, m2, GemmVariant::Gemm),
    {
        self.try_dispatch_generic(out, m1, m2, GemmVariant::Gemm)
    }

    /// The launch that computes `out = tr(m1) * m2`.
    pub fn try_dispatch_tr<'a, B>(
        &self,
        out: GpuTensorView<'a, B>,
        m1: GpuTensorView<'a, B>,
        m2: GpuTensorView<'a, B>,
    ) -> (r: Result<GemmDispatch<'a, '_, K, B>, TensorError>)
        requires
            out.wf(),
            m1.wf(),
            m2.wf(),
        ensures
            r == self.spec_dispatch(out, m1, m2, GemmVariant::GemmTr),
    {
        self.try_dispatch_generic(out, m1, m2, GemmVariant::GemmTr)
    }

    /// The launch of the kernel that `variant` names, for the product of
    /// `m1`, transposed or not as the kernel has it, and `m2`, into `out`.
    ///
    /// The kernels read four elements at a time: each of the three shapes
    /// must allow it. Refused when the extents do not fit, and when a shape
    /// cannot be packed.
    pub fn try_dispatch_generic<'a, B>(
        &self,
        out: GpuTensorView<'a, B>,
        m1: GpuTensorView<'a, B>,
        m2: GpuTensorView<'a, B>,
        variant: GemmVariant,
    ) -> (r: Result<GemmDispatch<'a, '_, K, B>, TensorError>)
        requires
            out.wf(),
            m1.wf(),
            m2.wf(),
        ensures
            r == self.spec_dispatch(out, m1, m2, variant),
    {
        let shape_out = out.shape();
        let shape_m1 = m1.shape();
        let shape_m2 = m2.shape();
        let out_rows = shape_out.size[0];
        let out_cols = shape_out.size[1];
        let out_mats = shape_out.size[2];
        let transposed = match variant {
            GemmVariant::Gemm | GemmVariant::GemmFast => false,
            GemmVariant::GemmTr | GemmVariant::GemmTrFast => true,
        };
        let (m_rows, m_cols) = if transposed {
            (shape_m1.size[1], shape_m1.size[0])
        } else {
            (shape_m1.size[0], shape_m1.size[1])
        };
        if m_cols != shape_m2.size[0] {
            return Err(TensorError::DimensionMismatch { left: m_cols, right: shape_m2.size[0] });
        }
        if m_rows != out_rows {
            return Err(TensorError::DimensionMismatch { left: m_rows, right: out_rows });
        }
        if out_cols != shape_m2.size[1] {
            return Err(TensorError::DimensionMismatch { left: out_cols, right: shape_m2.size[1] });
        }
        if out_mats != shape_m1.size[2] {
            return Err(TensorError::DimensionMismatch { left: out_mats, right: shape_m1.size[2] });
        }
        if out_mats != shape_m2.size[2] {
            return Err(TensorError::DimensionMismatch { left: out_mats, right: shape_m2.size[2] });
        }
        let aligned_shape_out = match shape_out.try_f32_to_vec4() {
            Ok(s) => s,
            Err(e) => {
                return Err(e);
            },
        };
        let aligned_shape_m1 = match shape_m1.try_f32_to_vec4() {
            Ok(s) => s,
            Err(e) => {
                return Err(e);
            },
        };
        let aligned_shape_m2 = match shape_m2.try_f32_to_vec4() {
            Ok(s) => s,
            Err(e) => {
                return Err(e);
            },
        };
        let n = match variant {
            GemmVariant::Gemm | GemmVariant::GemmTr => div_ceil(out_rows, 64),
            GemmVariant::GemmFast | GemmVariant::GemmTrFast => div_ceil(out_rows, 4),
        };
        let dense = if out.is_entire_tensor().is_some() && m1.is_entire_tensor().is_some()
            && m2.is_entire_tensor().is_some() {
            Some(
                DenseProduct {
                    transpose_a: transposed,
                    m: m_rows,
                    n: out_cols,
                    k: m_cols,
                    lda: shape_m1.size[0],
                    ldb: shape_m2.size[0],
                    ldc: out_rows,
                },
            )
        } else {
            None
        };
        Ok(
            GemmDispatch {
                launch: KernelLaunch {
                    kernel: self.kernel(variant),
                    args: GemmArgs {
                        m1: m1.buffer(),
                        m2: m2.buffer(),
                        out: out.buffer(),
                        shape_m1: aligned_shape_m1,
                        shape_m2: aligned_shape_m2,
                        shape_out: aligned_shape_out,
                    },
                    workload: Workload::Workgroups([n, 1, 1]),
                },
                dense,
            },
        )
    }
}

impl<K> Gemm<K> {
    /// The launch that computes `out = m1 * m2`, under the conditions of
    /// [`Gemm::dispatch_generic`].
    pub fn dispatch<'a, B>(
        &self,
        out: GpuTensorView<'a, B>,
        m1: GpuTensorView<'a, B>,
        m2: GpuTensorView<'a, B>,
    ) -> (r: GemmDispatch<'a, '_, K, B>)
        requires
            out.wf(),
            m1.wf(),
            m2.wf(),
            gemm_mismatch(
                out.spec_layout().shape,
                m1.spec_layout().shape,
                m2.spec_layout().shape,
                GemmVariant::Gemm,
            ) is None,
            self.spec_dispatch(out, m1, m2, GemmVariant::Gemm) is Ok,
        ensures
            self.spec_dispatch(out, m1, m2, GemmVariant::Gemm) == Ok::<
                GemmDispatch<'a, '_, K, B>,
                TensorError,
            >(r),
    {
        self.try_dispatch(out, m1, m2).unwrap()
    }

    /// The launch that computes `out = tr(m1) * m2`, under the conditions of
    /// [`Gemm::dispatch_generic`].
    pub fn dispatch_tr<'a, B>(
        &self,
        out: GpuTensorView<'a, B>,
        m1: GpuTensorView<'a, B>,
        m2: GpuTensorView<'a, B>,
    ) -> (r: GemmDispatch<'a, '_, K, B>)
        requires
            out.wf(),
            m1.wf(),
            m2.wf(),
            gemm_mismatch(
                out.spec_layout().shape,
                m1.spec_layout().shape,
                m2.spec_layout().shape,
                GemmVariant::GemmTr,
            ) is None,
            self.spec_dispatch(out, m1, m2, GemmVariant::GemmTr) is Ok,
        ensures
            self.spec_dispatch(out, m1, m2, GemmVariant::GemmTr) == Ok::<
                GemmDispatch<'a, '_, K, B>,
                TensorError,
            >(r),
    {
        self.try_dispatch_tr(out, m1, m2).unwrap()
    }

    /// The launch of the kernel that `variant` names, for the product of
    /// `m1`, transposed or not as the kernel has it, and `m2`, into `out`.
    ///
    /// The extents have to fit. The kernels read four elements at a time:
    /// each of the three shapes has to allow it.
    /// [`Gemm::try_dispatch_generic`] tests all of it.
    pub fn dispatch_generic<'a, B>(
        &self,
        out: GpuTensorView<'a, B>,
        m1: GpuTensorView<'a, B>,
        m2: GpuTensorView<'a, B>,
        variant: GemmVariant,
    ) -> (r: GemmDispatch<'a, '_, K, B>)
        requires
            out.wf(),
            m1.wf(),
            m2.wf(),
            gemm_mismatch(
                out.spec_layout().shape,
                m1.spec_layout().shape,
                m2.spec_layout().shape,
                variant,
            ) is None,
            self.spec_dispatch(out, m1, m2, variant) is Ok,
        ensures
            self.spec_dispatch(out, m1, m2, variant) == Ok::<
                GemmDispatch<'a, '_, K, B>,
                TensorError,
            >(r),
    {
        self.try_dispatch_generic(out, m1, m2, variant).unwrap()
    }
}

} // verus!
