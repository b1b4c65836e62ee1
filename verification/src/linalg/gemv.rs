//! The product of a matrix and a vector, or of two matrices taken column by
//! column.
//!
//! The kernels write a column-major result. A row-major result is served by
//! the same kernels through `tr(A * B) = tr(B) * tr(A)`: the operands trade
//! places and both are transposed. A row-major operand is the transpose of
//! the column-major matrix that lies in the same memory, so its ordering is
//! folded into its mode as one more transposition.

use vstd::prelude::*;

use crate::error::TensorError;
use crate::linalg::launch::{div_ceil, spec_div_ceil, spec_mismatch, KernelLaunch, Workload};
use crate::shapes::{MatrixOrdering, ViewShape};
use crate::tensor_view::{BufferSlice, GpuTensorView};

verus! {

/// Whether an operand of a product is taken as it is, or transposed.
#[derive(Copy, Clone, PartialEq, Eq, Structural, Debug)]
pub enum MatrixMode {
    /// The operand is taken as it is.
    Normal,
    /// The operand is transposed.
    Transposed,
}

impl MatrixMode {
    /// The other mode.
    pub open spec fn flipped(self) -> MatrixMode {
        match self {
            MatrixMode::Normal => MatrixMode::Transposed,
            MatrixMode::Transposed => MatrixMode::Normal,
        }
    }

    /// The other mode if `flip` is set, this one if not.
    pub open spec fn flipped_if(self, flip: bool) -> MatrixMode {
        if flip {
            self.flipped()
        } else {
            self
        }
    }

    /// Flips between the two modes.
    pub fn transpose(&mut self)
        ensures
            *final(self) == old(self).flipped(),
    {
        match self {
            MatrixMode::Normal => *self = MatrixMode::Transposed,
            MatrixMode::Transposed => *self = MatrixMode::Normal,
        }
    }
}

/// Short for [`MatrixMode::Normal`].
pub const N: MatrixMode = MatrixMode::Normal;

/// Short for [`MatrixMode::Transposed`].
pub const T: MatrixMode = MatrixMode::Transposed;

/// The rows and columns of the one result that is never read four elements
/// at a time. This is a tuning choice, and no rule of the product: another
/// value keeps every law of this module.
pub const UNPACKED_RESULT: [u32; 2] = [256, 256];

/// The number of threads of a workgroup of the matrix-vector kernels.
pub const WORKGROUP_SIZE: u32 = 32;

/// The kernels of the matrix-vector product. `K` is the type of a kernel.
pub struct Gemv<K> {
    /// `matrix * vector`, four rows at a time.
    pub gemv: K,
    /// `matrix * vector`, one element at a time.
    pub gemv_naive: K,
    /// `matrix * vector`, one workgroup to a row.
    pub gemv_fast: K,
    /// `transpose(matrix) * vector`, four rows at a time.
    pub gemv_tr: K,
    /// `transpose(matrix) * vector`, one workgroup to a row.
    pub gemv_tr_fast: K,
    /// `transpose(matrix) * vector`, one element at a time.
    pub gemv_tr_naive: K,
}

/// Names the kernels of [`Gemv`].
#[derive(Copy, Clone, PartialEq, Eq, Structural, Debug, Hash)]
pub enum GemvVariant {
    /// `matrix * vector`, four rows at a time.
    Gemv,
    /// `matrix * vector`, one workgroup to a row.
    GemvFast,
    /// `matrix * vector`, one element at a time.
    GemvNaive,
    /// `transpose(matrix) * vector`, four rows at a time.
    GemvTr,
    /// `transpose(matrix) * vector`, one workgroup to a row.
    GemvTrFast,
    /// `transpose(matrix) * vector`, one element at a time.
    GemvTrNaive,
}

/// The arguments of a matrix-vector kernel: the operands in the order of the
/// kernel, and the shape that the kernel reads for each.
pub struct GemvArgs<'a, B> {
    /// The matrix operand.
    pub m: BufferSlice<'a, B>,
    /// The vector operand.
    pub v: BufferSlice<'a, B>,
    /// The result.
    pub out: BufferSlice<'a, B>,
    /// The shape of the matrix operand.
    pub shape_m: ViewShape,
    /// The shape of the vector operand.
    pub shape_v: ViewShape,
    /// The shape of the result.
    pub shape_out: ViewShape,
}

/// What is decided from the shapes alone: the kernel, the shapes it reads,
/// and the number of workgroups.
pub struct GemvPlan {
    /// The kernel.
    pub variant: GemvVariant,
    /// Whether the operands trade places.
    pub swapped: bool,
    /// The shape of the matrix operand of the kernel.
    pub shape_m: ViewShape,
    /// The shape of the vector operand of the kernel.
    pub shape_v: ViewShape,
    /// The shape of the result.
    pub shape_out: ViewShape,
    /// The number of workgroups.
    pub workload: Workload,
}

/// Whether the columns of the shape have unit stride, and its rows do not.
pub open spec fn is_row_major(shape: ViewShape) -> bool {
    shape.spec_ordering() == Some(MatrixOrdering::RowMajor)
}

/// The shape of the column-major matrix that lies in the same memory: the
/// transpose of a row-major shape, the shape itself otherwise.
pub open spec fn column_major(shape: ViewShape) -> ViewShape {
    if is_row_major(shape) {
        shape.spec_transpose()
    } else {
        shape
    }
}

/// The shape of the operand as the product reads it.
pub open spec fn in_mode(shape: ViewShape, mode: MatrixMode) -> ViewShape {
    if mode == MatrixMode::Transposed {
        shape.spec_transpose()
    } else {
        shape
    }
}

/// Whether the kernels read four elements at a time: the leading extent of
/// each column-major operand is a multiple of 4, and the result is not of
/// the extents [`UNPACKED_RESULT`].
pub open spec fn uses_vec4(out: ViewShape, m: ViewShape, v: ViewShape) -> bool {
    &&& !(out.size[0] == UNPACKED_RESULT[0] && out.size[1] == UNPACKED_RESULT[1])
    &&& v.size[0] % 4 == 0
    &&& m.size[0] % 4 == 0
    &&& out.size[0] % 4 == 0
}

/// The kernel for a matrix operand in `mode`.
pub open spec fn gemv_variant(mode: MatrixMode, vec4: bool, leading: u32) -> GemvVariant {
    match mode {
        MatrixMode::Transposed => if vec4 && leading as int % (WORKGROUP_SIZE * 4) == 0 {
            GemvVariant::GemvTrFast
        } else if vec4 {
            GemvVariant::GemvTr
        } else {
            GemvVariant::GemvTrNaive
        },
        MatrixMode::Normal => if vec4 {
            GemvVariant::Gemv
        } else {
            GemvVariant::GemvNaive
        },
    }
}

/// The number of workgroups along the rows of a result of `rows` rows: one
/// to a row for the kernels that reduce within a workgroup, one to a
/// workgroup of threads for the others.
pub open spec fn gemv_groups(variant: GemvVariant, rows: u32) -> int {
    match variant {
        GemvVariant::GemvFast | GemvVariant::GemvTrFast => rows as int,
        _ => spec_div_ceil(rows as int, WORKGROUP_SIZE as int),
    }
}

/// The shape that a kernel reads for a column-major operand.
pub open spec fn kernel_shape(shape: ViewShape, vec4: bool) -> Result<ViewShape, TensorError> {
    if vec4 {
        shape.spec_try_f32_to_vec4()
    } else {
        Ok(shape)
    }
}

/// The mode of the matrix operand of the kernel.
pub open spec fn kernel_m_mode(
    out: ViewShape,
    m: ViewShape,
    v: ViewShape,
    m_mode: MatrixMode,
    v_mode: MatrixMode,
) -> MatrixMode {
    if is_row_major(out) {
        v_mode.flipped().flipped_if(is_row_major(v))
    } else {
        m_mode.flipped_if(is_row_major(m))
    }
}

/// The mode of the vector operand of the kernel.
pub open spec fn kernel_v_mode(
    out: ViewShape,
    m: ViewShape,
    v: ViewShape,
    m_mode: MatrixMode,
    v_mode: MatrixMode,
) -> MatrixMode {
    if is_row_major(out) {
        m_mode.flipped().flipped_if(is_row_major(m))
    } else {
        v_mode.flipped_if(is_row_major(v))
    }
}

/// Whether the extents fit `out = m * v`, each operand read in its mode.
pub open spec fn gemv_extents_match(
    out: ViewShape,
    m: ViewShape,
    v: ViewShape,
    m_mode: MatrixMode,
    v_mode: MatrixMode,
) -> bool {
    &&& in_mode(m, m_mode).size[1] == in_mode(v, v_mode).size[0]
    &&& out.size[0] == in_mode(m, m_mode).size[0]
    &&& out.size[1] == in_mode(v, v_mode).size[1]
}

/// The first two extents that break `out = m * v`, each operand read in its
/// mode, if any do: the columns of `m` against the rows of `v`; the rows of
/// the result against those of `m`; its columns against those of `v`.
pub open spec fn gemv_mismatch(
    out: ViewShape,
    m: ViewShape,
    v: ViewShape,
    m_mode: MatrixMode,
    v_mode: MatrixMode,
) -> Option<TensorError> {
    let math_m = in_mode(m, m_mode);
    let math_v = in_mode(v, v_mode);
    if spec_mismatch(math_m.size[1], math_v.size[0]) is Some {
        spec_mismatch(math_m.size[1], math_v.size[0])
    } else if spec_mismatch(out.size[0], math_m.size[0]) is Some {
        spec_mismatch(out.size[0], math_m.size[0])
    } else {
        spec_mismatch(out.size[1], math_v.size[1])
    }
}

/// What is decided for `out = m * v`, each operand read in its mode.
///
/// Refused when an operand has no unit-stride leading axis; when the vector
/// operand of the kernel would have to be transposed; when the extents do
/// not fit; and when four elements are read at a time and a stride does not
/// allow it.
pub open spec fn spec_gemv_plan(
    out: ViewShape,
    m: ViewShape,
    v: ViewShape,
    m_mode: MatrixMode,
    v_mode: MatrixMode,
) -> Result<GemvPlan, TensorError> {
    let swapped = is_row_major(out);
    let cm_out = column_major(out);
    let cm_m = column_major(
        if swapped {
            v
        } else {
            m
        },
    );
    let cm_v = column_major(
        if swapped {
            m
        } else {
            v
        },
    );
    let vec4 = uses_vec4(cm_out, cm_m, cm_v);
    let variant = gemv_variant(kernel_m_mode(out, m, v, m_mode, v_mode), vec4, cm_m.size[0]);
    if out.spec_ordering() is None || m.spec_ordering() is None || v.spec_ordering() is None {
        Err(TensorError::NonContiguous)
    } else if kernel_v_mode(out, m, v, m_mode, v_mode) == MatrixMode::Transposed {
        Err(TensorError::Unimplemented)
    } else if gemv_mismatch(out, m, v, m_mode, v_mode) is Some {
        Err(gemv_mismatch(out, m, v, m_mode, v_mode)->0)
    } else {
        match kernel_shape(cm_out, vec4) {
            Err(e) => Err(e),
            Ok(shape_out) => match kernel_shape(cm_m, vec4) {
                Err(e) => Err(e),
                Ok(shape_m) => match kernel_shape(cm_v, vec4) {
                    Err(e) => Err(e),
                    Ok(shape_v) => Ok(
                        GemvPlan {
                            variant,
                            swapped,
                            shape_m,
                            shape_v,
                            shape_out,
                            workload: Workload::Workgroups(
                                [
                                    gemv_groups(variant, shape_out.size[0]) as u32,
                                    cm_out.size[1],
                                    cm_out.size[2],
                                ],
                            ),
                        },
                    ),
                },
            },
        }
    }
}

/// Decides the kernel, the shapes and the number of workgroups for
/// `out = m * v`, from the shapes of the three views and the modes of the
/// operands.
pub fn try_plan_gemv(
    out: ViewShape,
    m: ViewShape,
    v: ViewShape,
    m_mode: MatrixMode,
    v_mode: MatrixMode,
) -> (r: Result<GemvPlan, TensorError>)
    ensures
        r == spec_gemv_plan(out, m, v, m_mode, v_mode),
{
    let math_shape_m = m.maybe_transpose(m_mode == MatrixMode::Transposed);
    let math_shape_v = v.maybe_transpose(v_mode == MatrixMode::Transposed);
    let ordering_out = match out.ordering() {
        Some(o) => o,
        None => {
            return Err(TensorError::NonContiguous);
        },
    };
    let mut ordering_m = match m.ordering() {
        Some(o) => o,
        None => {
            return Err(TensorError::NonContiguous);
        },
    };
    let mut ordering_v = match v.ordering() {
        Some(o) => o,
        None => {
            return Err(TensorError::NonContiguous);
        },
    };
    let mut kernel_m = m;
    let mut kernel_v = v;
    let mut m_mode = m_mode;
    let mut v_mode = v_mode;
    let swapped = ordering_out == MatrixOrdering::RowMajor;
    if swapped {
        let ordering = ordering_m;
        ordering_m = ordering_v;
        ordering_v = ordering;
        kernel_m = v;
        kernel_v = m;
        let mode = m_mode;
        m_mode = v_mode;
        v_mode = mode;
        m_mode.transpose();
        v_mode.transpose();
    }
    if ordering_m == MatrixOrdering::RowMajor {
        m_mode.transpose();
    }
    if ordering_v == MatrixOrdering::RowMajor {
        v_mode.transpose();
    }
    if v_mode == MatrixMode::Transposed {
        return Err(TensorError::Unimplemented);
    }
    let col_maj_shape_out = out.maybe_transpose(ordering_out == MatrixOrdering::RowMajor);
    let col_maj_shape_m = kernel_m.maybe_transpose(ordering_m == MatrixOrdering::RowMajor);
    let col_maj_shape_v = kernel_v.maybe_transpose(ordering_v == MatrixOrdering::RowMajor);
    if math_shape_m.size[1] != math_shape_v.size[0] {
        return Err(
            TensorError::DimensionMismatch {
                left: math_shape_m.size[1],
                right: math_shape_v.size[0],
            },
        );
    }
    if out.size[0] != math_shape_m.size[0] {
        return Err(
            TensorError::DimensionMismatch { left: out.size[0], right: math_shape_m.size[0] },
        );
    }
    if out.size[1] != math_shape_v.size[1] {
        return Err(
            TensorError::DimensionMismatch { left: out.size[1], right: math_shape_v.size[1] },
        );
    }
    // The kernels need rows of unit stride; column-major operands have them.
    assert(col_maj_shape_v.stride[0] == 1);
    assert(col_maj_shape_m.stride[0] == 1);
    assert(col_maj_shape_out.stride[0] == 1);
    let use_float4 = !(col_maj_shape_out.size[0] == UNPACKED_RESULT[0]
        && col_maj_shape_out.size[1] == UNPACKED_RESULT[1])
        && col_maj_shape_v.size[0] % 4 == 0 && col_maj_shape_m.size[0] % 4 == 0
        && col_maj_shape_out.size[0] % 4 == 0;
    let aligned_shape_out = if use_float4 {
        match col_maj_shape_out.try_f32_to_vec4() {
            Ok(s) => s,
            Err(e) => {
                return Err(e);
            },
        }
    } else {
        col_maj_shape_out
    };
    let aligned_shape_m = if use_float4 {
        match col_maj_shape_m.try_f32_to_vec4() {
            Ok(s) => s,
            Err(e) => {
                return Err(e);
            },
        }
    } else {
        col_maj_shape_m
    };
    let aligned_shape_v = if use_float4 {
        match col_maj_shape_v.try_f32_to_vec4() {
            Ok(s) => s,
            Err(e) => {
                return Err(e);
            },
        }
    } else {
        col_maj_shape_v
    };
    let variant = match m_mode {
        MatrixMode::Transposed => {
            if use_float4 && col_maj_shape_m.size[0] % (WORKGROUP_SIZE * 4) == 0 {
                GemvVariant::GemvTrFast
            } else if use_float4 {
                GemvVariant::GemvTr
            } else {
                GemvVariant::GemvTrNaive
            }
        },
        MatrixMode::Normal => {
            if use_float4 {
                GemvVariant::Gemv
            } else {
                GemvVariant::GemvNaive
            }
        },
    };
    let n = match variant {
        GemvVariant::GemvFast | GemvVariant::GemvTrFast => aligned_shape_out.size[0],
        _ => div_ceil(aligned_shape_out.size[0], WORKGROUP_SIZE),
    };
    Ok(
        GemvPlan {
            variant,
            swapped,
            shape_m: aligned_shape_m,
            shape_v: aligned_shape_v,
            shape_out: aligned_shape_out,
            workload: Workload::Workgroups([n, col_maj_shape_out.size[1], col_maj_shape_out.size[2]]),
        },
    )
}

/// The matrix operand of the kernel: the second operand where the operands
/// trade places, the first one otherwise.
pub open spec fn kernel_m(out: ViewShape, m: ViewShape, v: ViewShape) -> ViewShape {
    if is_row_major(out) {
        v
    } else {
        m
    }
}

/// The vector operand of the kernel.
pub open spec fn kernel_v(out: ViewShape, m: ViewShape, v: ViewShape) -> ViewShape {
    if is_row_major(out) {
        m
    } else {
        v
    }
}

/// Exchanging and transposing the operands keeps the product well formed:
/// where a launch is decided for `out = m * v`, the kernel reads its vector
/// operand as it is, and the extents of the column-major matrices that it
/// finds in memory fit the product it computes. The kernel is a transposing
/// one exactly when its matrix operand is to be transposed.
pub proof fn lemma_gemv_kernel_extents(
    out: ViewShape,
    m: ViewShape,
    v: ViewShape,
    m_mode: MatrixMode,
    v_mode: MatrixMode,
)
    requires
        spec_gemv_plan(out, m, v, m_mode, v_mode) is Ok,
    ensures
        kernel_v_mode(out, m, v, m_mode, v_mode) == MatrixMode::Normal,
        gemv_extents_match(
            column_major(out),
            column_major(kernel_m(out, m, v)),
            column_major(kernel_v(out, m, v)),
            kernel_m_mode(out, m, v, m_mode, v_mode),
            MatrixMode::Normal,
        ),
        column_major(out).stride[0] == 1,
        column_major(kernel_m(out, m, v)).stride[0] == 1,
        column_major(kernel_v(out, m, v)).stride[0] == 1,
        (kernel_m_mode(out, m, v, m_mode, v_mode) == MatrixMode::Transposed) <==> (
        spec_gemv_plan(out, m, v, m_mode, v_mode)->Ok_0.variant == GemvVariant::GemvTr
            || spec_gemv_plan(out, m, v, m_mode, v_mode)->Ok_0.variant == GemvVariant::GemvTrFast
            || spec_gemv_plan(out, m, v, m_mode, v_mode)->Ok_0.variant
            == GemvVariant::GemvTrNaive),
{
}

/// Where four elements are read at a time, each shape that the kernel reads
/// has a fourth of the rows of its operand, exactly.
pub proof fn lemma_gemv_packed_rows(
    out: ViewShape,
    m: ViewShape,
    v: ViewShape,
    m_mode: MatrixMode,
    v_mode: MatrixMode,
)
    requires
        spec_gemv_plan(out, m, v, m_mode, v_mode) is Ok,
        uses_vec4(
            column_major(out),
            column_major(kernel_m(out, m, v)),
            column_major(kernel_v(out, m, v)),
        ),
    ensures
        spec_gemv_plan(out, m, v, m_mode, v_mode)->Ok_0.shape_out.size[0] * 4 == column_major(
            out,
        ).size[0],
        spec_gemv_plan(out, m, v, m_mode, v_mode)->Ok_0.shape_m.size[0] * 4 == column_major(
            kernel_m(out, m, v),
        ).size[0],
        spec_gemv_plan(out, m, v, m_mode, v_mode)->Ok_0.shape_v.size[0] * 4 == column_major(
            kernel_v(out, m, v),
        ).size[0],
{
}

impl<K> Gemv<K> {
    /// The kernel that `variant` names.
    pub open spec fn spec_kernel(&self, variant: GemvVariant) -> &K {
        match variant {
            GemvVariant::Gemv => &self.gemv,
            GemvVariant::GemvFast => &self.gemv_fast,
            GemvVariant::GemvNaive => &self.gemv_naive,
            GemvVariant::GemvTr => &self.gemv_tr,
            GemvVariant::GemvTrFast => &self.gemv_tr_fast,
            GemvVariant::GemvTrNaive => &self.gemv_tr_naive,
        }
    }

    /// The launch for `out = m * v`, each operand read in its mode: what the
    /// shapes decide, with the operands bound in the order of the kernel.
    pub open spec fn spec_dispatch<'a, B>(
        &self,
        out: GpuTensorView<'a, B>,
        m: GpuTensorView<'a, B>,
        v: GpuTensorView<'a, B>,
        m_mode: MatrixMode,
        v_mode: MatrixMode,
    ) -> Result<KernelLaunch<'_, K, GemvArgs<'a, B>>, TensorError> {
        match spec_gemv_plan(
            out.spec_layout().shape,
            m.spec_layout().shape,
            v.spec_layout().shape,
            m_mode,
            v_mode,
        ) {
            Ok(plan) => Ok(
                KernelLaunch {
                    kernel: self.spec_kernel(plan.variant),
                    args: GemvArgs {
                        m: if plan.swapped {
                            v.spec_buffer_slice()
                        } else {
                            m.spec_buffer_slice()
                        },
                        v: if plan.swapped {
                            m.spec_buffer_slice()
                        } else {
                            v.spec_buffer_slice()
                        },
                        out: out.spec_buffer_slice(),
                        shape_m: plan.shape_m,
                        shape_v: plan.shape_v,
                        shape_out: plan.shape_out,
                    },
                    workload: plan.workload,
                },
            ),
            Err(e) => Err(e),
        }
    }

    /// The kernel that `variant` names.
    pub fn kernel(&self, variant: GemvVariant) -> (r: &K)
        ensures
            r == self.spec_kernel(variant),
    {
        match variant {
            GemvVariant::Gemv => &self.gemv,
            GemvVariant::GemvFast => &self.gemv_fast,
            GemvVariant::GemvNaive => &self.gemv_naive,
            GemvVariant::GemvTr => &self.gemv_tr,
            GemvVariant::GemvTrFast => &self.gemv_tr_fast,
            GemvVariant::GemvTrNaive => &self.gemv_tr_naive,
        }
    }

    /// The launch that computes `out = m * v`.
    pub fn try_dispatch<'a, B>(
        &self,
        out: GpuTensorView<'a, B>,
        m: GpuTensorView<'a, B>,
        v: GpuTensorView<'a, B>,
    ) -> (r: Result<KernelLaunch<'_, K, GemvArgs<'a, B>>, TensorError>)
        ensures
            r == self.spec_dispatch(out, m, v, MatrixMode::Normal, MatrixMode::Normal),
    {
        self.try_dispatch_generic(out, m, v, N, N)
    }

    /// The launch that computes `out = tr(m) * v`.
    pub fn try_dispatch_tr<'a, B>(
        &self,
        out: GpuTensorView<'a, B>,
        m: GpuTensorView<'a, B>,
        v: GpuTensorView<'a, B>,
    ) -> (r: Result<KernelLaunch<'_, K, GemvArgs<'a, B>>, TensorError>)
        ensures
            r == self.spec_dispatch(out, m, v, MatrixMode::Transposed, MatrixMode::Normal),
    {
        self.try_dispatch_generic(out, m, v, T, N)
    }

    /// The launch that computes `out = m * v`, each operand read in its
    /// mode.
    ///
    /// Refused when an operand has no unit-stride leading axis; when the
    /// vector operand of the kernel would have to be transposed, for which
    /// there is no kernel; when the extents do not fit; and when four
    /// elements are read at a time and a stride does not allow it.
    pub fn try_dispatch_generic<'a, B>(
        &self,
        out: GpuTensorView<'a, B>,
        m: GpuTensorView<'a, B>,
        v: GpuTensorView<'a, B>,
        m_mode: MatrixMode,
        v_mode: MatrixMode,
    ) -> (r: Result<KernelLaunch<'_, K, GemvArgs<'a, B>>, TensorError>)
        ensures
            r == self.spec_dispatch(out, m, v, m_mode, v_mode),
    {
        match try_plan_gemv(out.shape(), m.shape(), v.shape(), m_mode, v_mode) {
            Ok(plan) => {
                let (kernel_m, kernel_v) = if plan.swapped {
                    (v, m)
                } else {
                    (m, v)
                };
                Ok(
                    KernelLaunch {
                        kernel: self.kernel(plan.variant),
                        args: GemvArgs {
                            m: kernel_m.buffer(),
                            v: kernel_v.buffer(),
                            out: out.buffer(),
                            shape_m: plan.shape_m,
                            shape_v: plan.shape_v,
                            shape_out: plan.shape_out,
                        },
                        workload: plan.workload,
                    },
                )
            },
            Err(e) => Err(e),
        }
    }
}

/// Decides the kernel, the shapes and the number of workgroups for
/// `out = m * v`, from the shapes of the three views and the modes of the
/// operands.
///
/// Each shape has to have a unit stride along rows or columns; the kernel
/// must not have to transpose its vector operand; the extents have to fit;
/// and where four elements are read at a time the strides have to allow it.
/// [`try_plan_gemv`] tests all of it.
pub fn plan_gemv(
    out: ViewShape,
    m: ViewShape,
    v: ViewShape,
    m_mode: MatrixMode,
    v_mode: MatrixMode,
) -> (r: GemvPlan)
    requires
        out.spec_ordering() is Some,
        m.spec_ordering() is Some,
        v.spec_ordering() is Some,
        kernel_v_mode(out, m, v, m_mode, v_mode) == MatrixMode::Normal,
        gemv_mismatch(out, m, v, m_mode, v_mode) is None,
        spec_gemv_plan(out, m, v, m_mode, v_mode) is Ok,
    ensures
        spec_gemv_plan(out, m, v, m_mode, v_mode) == Ok::<GemvPlan, TensorError>(r),
{
    try_plan_gemv(out, m, v, m_mode, v_mode).unwrap()
}

impl<K> Gemv<K> {
    /// Whether a product can be launched: each shape has a unit stride along
    /// rows or columns, the kernel does not have to transpose its vector
    /// operand, the extents fit, and where four elements are read at a time
    /// the strides allow it.
    pub open spec fn can_dispatch(
        out: ViewShape,
        m: ViewShape,
        v: ViewShape,
        m_mode: MatrixMode,
        v_mode: MatrixMode,
    ) -> bool {
        &&& out.spec_ordering() is Some
        &&& m.spec_ordering() is Some
        &&& v.spec_ordering() is Some
        &&& kernel_v_mode(out, m, v, m_mode, v_mode) == MatrixMode::Normal
        &&& gemv_mismatch(out, m, v, m_mode, v_mode) is None
        &&& spec_gemv_plan(out, m, v, m_mode, v_mode) is Ok
    }

    /// The launch that computes `out = m * v`, under the conditions of
    /// [`Gemv::dispatch_generic`].
    pub fn dispatch<'a, B>(
        &self,
        out: GpuTensorView<'a, B>,
        m: GpuTensorView<'a, B>,
        v: GpuTensorView<'a, B>,
    ) -> (r: KernelLaunch<'_, K, GemvArgs<'a, B>>)
        requires
            Self::can_dispatch(
                out.spec_layout().shape,
                m.spec_layout().shape,
                v.spec_layout().shape,
                MatrixMode::Normal,
                MatrixMode::Normal,
            ),
        ensures
            self.spec_dispatch(out, m, v, MatrixMode::Normal, MatrixMode::Normal) == Ok::<
                KernelLaunch<'_, K, GemvArgs<'a, B>>,
                TensorError,
            >(r),
    {
        self.try_dispatch(out, m, v).unwrap()
    }

    /// The launch that computes `out = tr(m) * v`, under the conditions of
    /// [`Gemv::dispatch_generic`].
    pub fn dispatch_tr<'a, B>(
        &self,
        out: GpuTensorView<'a, B>,
        m: GpuTensorView<'a, B>,
        v: GpuTensorView<'a, B>,
    ) -> (r: KernelLaunch<'_, K, GemvArgs<'a, B>>)
        requires
            Self::can_dispatch(
                out.spec_layout().shape,
                m.spec_layout().shape,
                v.spec_layout().shape,
                MatrixMode::Transposed,
                MatrixMode::Normal,
            ),
        ensures
            self.spec_dispatch(out, m, v, MatrixMode::Transposed, MatrixMode::Normal) == Ok::<
                KernelLaunch<'_, K, GemvArgs<'a, B>>,
                TensorError,
            >(r),
    {
        self.try_dispatch_tr(out, m, v).unwrap()
    }

    /// The launch that computes `out = m * v`, each operand read in its
    /// mode.
    ///
    /// Each operand has to have a unit stride along rows or columns; the
    /// kernel must not have to transpose its vector operand, for which there
    /// is no kernel; the extents have to fit; and where four elements are
    /// read at a time the strides have to allow it.
    /// [`Gemv::try_dispatch_generic`] tests all of it.
    pub fn dispatch_generic<'a, B>(
        &self,
        out: GpuTensorView<'a, B>,
        m: GpuTensorView<'a, B>,
        v: GpuTensorView<'a, B>,
        m_mode: MatrixMode,
        v_mode: MatrixMode,
    ) -> (r: KernelLaunch<'_, K, GemvArgs<'a, B>>)
        requires
            Self::can_dispatch(
                out.spec_layout().shape,
                m.spec_layout().shape,
                v.spec_layout().shape,
                m_mode,
                v_mode,
            ),
        ensures
            self.spec_dispatch(out, m, v, m_mode, v_mode) == Ok::<
                KernelLaunch<'_, K, GemvArgs<'a, B>>,
                TensorError,
            >(r),
    {
        self.try_dispatch_generic(out, m, v, m_mode, v_mode).unwrap()
    }
}

} // verus!
