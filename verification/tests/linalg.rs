use stensor::error::TensorError;
use stensor::linalg::gemm::DenseProduct;
use stensor::linalg::gemv::{try_plan_gemv, WORKGROUP_SIZE};
use stensor::linalg::launch::div_ceil;
use stensor::shapes::{MatrixOrdering, ViewShape};
use stensor::tensor::{BufferRequest, GpuTensor, TensorBuilder};
use stensor::usage::{BufferUsages, STORAGE};
use stensor::{
    BinOpOffsets, Contiguous, Gemm, GemmVariant, Gemv, GemvVariant, MatrixMode, OpAssign,
    OpAssignVariant, Reduce, ReduceVariant, Repeat, Workload, N, T,
};

/// A buffer that is told apart by a number.
type Buffer = u32;

fn tensor(id: u32, shape: [u32; 4], ordering: MatrixOrdering) -> GpuTensor<Buffer> {
    TensorBuilder::tensor(shape, BufferUsages::from_bits(STORAGE))
        .ordering(ordering)
        .build_uninit(|_: BufferRequest| Ok::<Buffer, ()>(id))
        .ok()
        .unwrap()
}

fn matrix(id: u32, rows: u32, cols: u32) -> GpuTensor<Buffer> {
    tensor(id, [rows, cols, 1, 1], MatrixOrdering::ColumnMajor)
}

fn vector(id: u32, len: u32) -> GpuTensor<Buffer> {
    tensor(id, [len, 1, 1, 1], MatrixOrdering::ColumnMajor)
}

fn column_major(size: [u32; 4]) -> ViewShape {
    ViewShape::contiguous(size, MatrixOrdering::ColumnMajor)
}

fn gemm() -> Gemm<&'static str> {
    Gemm { gemm: "gemm", gemm_fast: "gemm_fast", gemm_tr: "gemm_tr", gemm_tr_fast: "gemm_tr_fast" }
}

fn gemv() -> Gemv<&'static str> {
    Gemv {
        gemv: "gemv",
        gemv_naive: "gemv_naive",
        gemv_fast: "gemv_fast",
        gemv_tr: "gemv_tr",
        gemv_tr_fast: "gemv_tr_fast",
        gemv_tr_naive: "gemv_tr_naive",
    }
}

fn op_assign() -> OpAssign<&'static str> {
    OpAssign {
        add: "add",
        sub: "sub",
        mul: "mul",
        div: "div",
        copy: "copy",
        copy_with_offsets: "copy_with_offsets",
    }
}

#[test]
fn div_ceil_rounds_up() {
    assert_eq!(div_ceil(0, 4), 0);
    assert_eq!(div_ceil(1, 4), 1);
    assert_eq!(div_ceil(4, 4), 1);
    assert_eq!(div_ceil(5, 4), 2);
    assert_eq!(div_ceil(256, 64), 4);
    assert_eq!(div_ceil(257, 64), 5);
    assert_eq!(div_ceil(u32::MAX, 1), u32::MAX);
    assert_eq!(div_ceil(u32::MAX, 2), 0x8000_0000);
    assert_eq!(div_ceil(u32::MAX, u32::MAX), 1);
    assert_eq!(div_ceil(7, u32::MAX), 1);
}

#[test]
fn matrix_mode_flips() {
    let mut mode = N;
    mode.transpose();
    assert_eq!(mode, T);
    mode.transpose();
    assert_eq!(mode, MatrixMode::Normal);
    assert_eq!(T, MatrixMode::Transposed);
}

#[test]
fn gemm_of_square_matrices_with_every_kernel() {
    let (out, m1, m2) = (matrix(0, 256, 256), matrix(1, 256, 256), matrix(2, 256, 256));
    let kernels = gemm();
    let packed = ViewShape { size: [64, 256, 1, 1], stride: [1, 64, 16384, 16384] };
    let cases = [
        (GemmVariant::Gemm, "gemm", 4, false),
        (GemmVariant::GemmTr, "gemm_tr", 4, true),
        (GemmVariant::GemmFast, "gemm_fast", 64, false),
        (GemmVariant::GemmTrFast, "gemm_tr_fast", 64, true),
    ];
    for (variant, kernel, groups, transposed) in cases {
        let d = kernels
            .try_dispatch_generic(out.as_view(), m1.as_view(), m2.as_view(), variant)
            .unwrap();
        assert_eq!(*d.launch.kernel, kernel);
        assert_eq!(d.launch.workload, Workload::Workgroups([groups, 1, 1]));
        assert_eq!(d.launch.args.shape_out, packed);
        assert_eq!(d.launch.args.shape_m1, packed);
        assert_eq!(d.launch.args.shape_m2, packed);
        assert_eq!((*d.launch.args.out.buffer, d.launch.args.out.start), (0, 0));
        assert_eq!((*d.launch.args.m1.buffer, d.launch.args.m1.start), (1, 0));
        assert_eq!((*d.launch.args.m2.buffer, d.launch.args.m2.start), (2, 0));
        assert_eq!(
            d.dense,
            Some(DenseProduct {
                transpose_a: transposed,
                m: 256,
                n: 256,
                k: 256,
                lda: 256,
                ldb: 256,
                ldc: 256,
            })
        );
    }
}

#[test]
fn gemm_of_rectangular_matrices() {
    let (out, m1, m2) = (matrix(0, 8, 12), matrix(1, 8, 4), matrix(2, 4, 12));
    let kernels = gemm();
    let d = kernels.try_dispatch(out.as_view(), m1.as_view(), m2.as_view()).unwrap();
    assert_eq!(*d.launch.kernel, "gemm");
    assert_eq!(d.launch.workload, Workload::Workgroups([1, 1, 1]));
    assert_eq!(d.launch.args.shape_out.size, [2, 12, 1, 1]);
    assert_eq!(d.launch.args.shape_m1.size, [2, 4, 1, 1]);
    assert_eq!(d.launch.args.shape_m2.size, [1, 12, 1, 1]);
    assert_eq!(
        d.dense,
        Some(DenseProduct { transpose_a: false, m: 8, n: 12, k: 4, lda: 8, ldb: 4, ldc: 8 })
    );
    // The transposed product wants the first operand the other way round.
    assert_eq!(
        kernels.try_dispatch_tr(out.as_view(), m1.as_view(), m2.as_view()).err(),
        Some(TensorError::DimensionMismatch { left: 8, right: 4 })
    );
    let m1t = matrix(3, 4, 8);
    let d = kernels.try_dispatch_tr(out.as_view(), m1t.as_view(), m2.as_view()).unwrap();
    assert_eq!(*d.launch.kernel, "gemm_tr");
    assert_eq!(
        d.dense,
        Some(DenseProduct { transpose_a: true, m: 8, n: 12, k: 4, lda: 4, ldb: 4, ldc: 8 })
    );
}

#[test]
fn gemm_workgroup_counts() {
    let kernels = gemm();
    for (rows, plain, fast) in [(4, 1, 1), (64, 1, 16), (68, 2, 17), (128, 2, 32), (132, 3, 33)] {
        let (out, m1, m2) = (matrix(0, rows, 4), matrix(1, rows, 4), matrix(2, 4, 4));
        let d = kernels
            .try_dispatch_generic(out.as_view(), m1.as_view(), m2.as_view(), GemmVariant::Gemm)
            .unwrap();
        assert_eq!(d.launch.workload, Workload::Workgroups([plain, 1, 1]));
        let d = kernels
            .try_dispatch_generic(out.as_view(), m1.as_view(), m2.as_view(), GemmVariant::GemmFast)
            .unwrap();
        assert_eq!(d.launch.workload, Workload::Workgroups([fast, 1, 1]));
    }
}

#[test]
fn gemm_refuses_extents_that_do_not_fit() {
    let kernels = gemm();
    let fits = |out: [u32; 2], m1: [u32; 2], m2: [u32; 2]| {
        let (o, a, b) = (matrix(0, out[0], out[1]), matrix(1, m1[0], m1[1]), matrix(2, m2[0], m2[1]));
        kernels.try_dispatch(o.as_view(), a.as_view(), b.as_view()).err()
    };
    assert_eq!(fits([8, 12], [8, 4], [4, 12]), None);
    assert_eq!(fits([8, 12], [8, 8], [4, 12]), Some(TensorError::DimensionMismatch { left: 8, right: 4 }));
    assert_eq!(fits([4, 12], [8, 4], [4, 12]), Some(TensorError::DimensionMismatch { left: 8, right: 4 }));
    assert_eq!(fits([8, 8], [8, 4], [4, 12]), Some(TensorError::DimensionMismatch { left: 8, right: 12 }));
    // The first pair that does not fit is named.
    assert_eq!(fits([5, 7], [8, 3], [4, 12]), Some(TensorError::DimensionMismatch { left: 3, right: 4 }));
    // Batches must agree.
    let out = tensor(0, [8, 12, 2, 1], MatrixOrdering::ColumnMajor);
    let m1 = tensor(1, [8, 4, 2, 1], MatrixOrdering::ColumnMajor);
    let m2 = tensor(2, [4, 12, 3, 1], MatrixOrdering::ColumnMajor);
    assert_eq!(
        kernels.try_dispatch(out.as_view(), m1.as_view(), m2.as_view()).err(),
        Some(TensorError::DimensionMismatch { left: 2, right: 3 })
    );
    let m1 = tensor(1, [8, 4, 5, 1], MatrixOrdering::ColumnMajor);
    assert_eq!(
        kernels.try_dispatch(out.as_view(), m1.as_view(), m2.as_view()).err(),
        Some(TensorError::DimensionMismatch { left: 2, right: 5 })
    );
    let m1 = tensor(1, [8, 4, 2, 1], MatrixOrdering::ColumnMajor);
    let m2 = tensor(2, [4, 12, 2, 1], MatrixOrdering::ColumnMajor);
    assert!(kernels.try_dispatch(out.as_view(), m1.as_view(), m2.as_view()).is_ok());
}

#[test]
fn gemm_refuses_shapes_that_cannot_be_packed() {
    let kernels = gemm();
    let (out, m1, m2) = (matrix(0, 6, 4), matrix(1, 6, 4), matrix(2, 4, 4));
    assert_eq!(
        kernels.try_dispatch(out.as_view(), m1.as_view(), m2.as_view()).err(),
        Some(TensorError::Misaligned)
    );
    let (out, m1, m2) = (matrix(0, 8, 4), matrix(1, 8, 2), matrix(2, 2, 4));
    assert_eq!(
        kernels.try_dispatch(out.as_view(), m1.as_view(), m2.as_view()).err(),
        Some(TensorError::Misaligned)
    );
    let (out, m1, m2) = (matrix(0, 8, 4), matrix(1, 8, 4), matrix(2, 4, 4));
    let strided = m2.try_view(0, [4, 2], [Some(2), Some(8)]).unwrap();
    let narrow = matrix(3, 8, 2);
    assert_eq!(
        kernels.try_dispatch(narrow.as_view(), m1.as_view(), strided).err(),
        Some(TensorError::NonContiguous)
    );
    assert!(kernels.try_dispatch(out.as_view(), m1.as_view(), m2.as_view()).is_ok());
}

#[test]
fn gemm_offers_the_dense_product_for_whole_buffers_only() {
    let kernels = gemm();
    let (out, m1, m2) = (matrix(0, 8, 8), matrix(1, 8, 8), matrix(2, 8, 8));
    let big = tensor(3, [8, 8, 2, 1], MatrixOrdering::ColumnMajor);
    let d = kernels.try_dispatch(out.as_view(), m1.as_view(), m2.as_view()).unwrap();
    assert!(d.dense.is_some());
    let part = big.as_view().try_matrix(1).unwrap();
    let d = kernels.try_dispatch(out.as_view(), part, m2.as_view()).unwrap();
    assert_eq!(d.dense, None);
    assert_eq!((*d.launch.args.m1.buffer, d.launch.args.m1.start), (3, 64));
    let d = kernels.try_dispatch(part, m1.as_view(), m2.as_view()).unwrap();
    assert_eq!(d.dense, None);
    let d = kernels.try_dispatch(out.as_view(), m1.as_view(), part).unwrap();
    assert_eq!(d.dense, None);
}

#[test]
fn gemv_of_column_major_operands() {
    let (out, m, v) = (vector(0, 8), matrix(1, 8, 12), vector(2, 12));
    let kernels = gemv();
    let l = kernels.try_dispatch(out.as_view(), m.as_view(), v.as_view()).unwrap();
    assert_eq!(*l.kernel, "gemv");
    assert_eq!(l.workload, Workload::Workgroups([1, 1, 1]));
    assert_eq!(l.args.shape_out, ViewShape { size: [2, 1, 1, 1], stride: [1, 2, 2, 2] });
    assert_eq!(l.args.shape_m, ViewShape { size: [2, 12, 1, 1], stride: [1, 2, 24, 24] });
    assert_eq!(l.args.shape_v, ViewShape { size: [3, 1, 1, 1], stride: [1, 3, 3, 3] });
    assert_eq!((*l.args.out.buffer, *l.args.m.buffer, *l.args.v.buffer), (0, 1, 2));
}

#[test]
fn gemv_without_packing() {
    let (out, m, v) = (vector(0, 5), matrix(1, 5, 7), vector(2, 7));
    let kernels = gemv();
    let l = kernels.try_dispatch(out.as_view(), m.as_view(), v.as_view()).unwrap();
    assert_eq!(*l.kernel, "gemv_naive");
    assert_eq!(l.workload, Workload::Workgroups([1, 1, 1]));
    assert_eq!(l.args.shape_out, out.as_view().shape());
    assert_eq!(l.args.shape_m, m.as_view().shape());
    assert_eq!(l.args.shape_v, v.as_view().shape());
    // One operand that is not aligned is enough.
    let (out, m, v) = (vector(0, 8), matrix(1, 8, 7), vector(2, 7));
    let l = kernels.try_dispatch(out.as_view(), m.as_view(), v.as_view()).unwrap();
    assert_eq!(*l.kernel, "gemv_naive");
    assert_eq!(l.args.shape_m, m.as_view().shape());
}

#[test]
fn gemv_transposed_kernels() {
    let kernels = gemv();
    // Reduced within a workgroup: the leading extent is a multiple of 128.
    let (out, m, v) = (vector(0, 8), matrix(1, 128, 8), vector(2, 128));
    let l = kernels.try_dispatch_tr(out.as_view(), m.as_view(), v.as_view()).unwrap();
    assert_eq!(*l.kernel, "gemv_tr_fast");
    assert_eq!(l.workload, Workload::Workgroups([2, 1, 1]));
    assert_eq!(l.args.shape_m.size, [32, 8, 1, 1]);
    // Packed, not reduced.
    let (out, m, v) = (vector(0, 8), matrix(1, 12, 8), vector(2, 12));
    let l = kernels.try_dispatch_tr(out.as_view(), m.as_view(), v.as_view()).unwrap();
    assert_eq!(*l.kernel, "gemv_tr");
    assert_eq!(l.workload, Workload::Workgroups([1, 1, 1]));
    // Not packed.
    let (out, m, v) = (vector(0, 5), matrix(1, 6, 5), vector(2, 6));
    let l = kernels.try_dispatch_tr(out.as_view(), m.as_view(), v.as_view()).unwrap();
    assert_eq!(*l.kernel, "gemv_tr_naive");
    assert_eq!(l.workload, Workload::Workgroups([1, 1, 1]));
}

#[test]
fn gemv_workgroup_counts() {
    let kernels = gemv();
    // 1024 rows, packed by four: 256 rows for the kernel, 32 to a workgroup.
    let (out, m, v) = (vector(0, 1024), matrix(1, 1024, 4), vector(2, 4));
    let l = kernels.try_dispatch(out.as_view(), m.as_view(), v.as_view()).unwrap();
    assert_eq!(l.workload, Workload::Workgroups([8, 1, 1]));
    // 1023 rows, not packed.
    let (out, m, v) = (vector(0, 1023), matrix(1, 1023, 4), vector(2, 4));
    let l = kernels.try_dispatch(out.as_view(), m.as_view(), v.as_view()).unwrap();
    assert_eq!(l.workload, Workload::Workgroups([32, 1, 1]));
    // One workgroup to a packed row.
    let (out, m, v) = (vector(0, 1024), matrix(1, 256, 1024), vector(2, 256));
    let l = kernels.try_dispatch_tr(out.as_view(), m.as_view(), v.as_view()).unwrap();
    assert_eq!(*l.kernel, "gemv_tr_fast");
    assert_eq!(l.workload, Workload::Workgroups([256, 1, 1]));
    assert_eq!(WORKGROUP_SIZE, 32);
}

#[test]
fn gemv_of_matrices_takes_columns_and_batches_from_the_result() {
    let kernels = gemv();
    let out = tensor(0, [8, 5, 3, 1], MatrixOrdering::ColumnMajor);
    let m = tensor(1, [8, 4, 3, 1], MatrixOrdering::ColumnMajor);
    let v = tensor(2, [4, 5, 3, 1], MatrixOrdering::ColumnMajor);
    let l = kernels.try_dispatch(out.as_view(), m.as_view(), v.as_view()).unwrap();
    assert_eq!(*l.kernel, "gemv");
    assert_eq!(l.workload, Workload::Workgroups([1, 5, 3]));
}

#[test]
fn gemv_does_not_pack_a_256_by_256_result() {
    let kernels = gemv();
    let (out, m, v) = (matrix(0, 256, 256), matrix(1, 256, 256), matrix(2, 256, 256));
    let l = kernels.try_dispatch(out.as_view(), m.as_view(), v.as_view()).unwrap();
    assert_eq!(*l.kernel, "gemv_naive");
    assert_eq!(l.workload, Workload::Workgroups([8, 256, 1]));
    assert_eq!(l.args.shape_out, out.as_view().shape());
    let l = kernels.try_dispatch_tr(out.as_view(), m.as_view(), v.as_view()).unwrap();
    assert_eq!(*l.kernel, "gemv_tr_naive");
    // A vector of 256 is packed.
    let (out, v) = (vector(0, 256), vector(2, 256));
    let l = kernels.try_dispatch(out.as_view(), m.as_view(), v.as_view()).unwrap();
    assert_eq!(*l.kernel, "gemv");
    assert_eq!(l.workload, Workload::Workgroups([2, 1, 1]));
    let l = kernels.try_dispatch_tr(out.as_view(), m.as_view(), v.as_view()).unwrap();
    assert_eq!(*l.kernel, "gemv_tr_fast");
    assert_eq!(l.workload, Workload::Workgroups([64, 1, 1]));
}

#[test]
fn gemv_folds_the_ordering_of_the_matrix_into_its_mode() {
    let kernels = gemv();
    // A row-major 8 by 12 matrix is the transpose of a column-major 12 by 8.
    let m = tensor(1, [8, 12, 1, 1], MatrixOrdering::RowMajor);
    let (out, v) = (vector(0, 8), vector(2, 12));
    let l = kernels.try_dispatch(out.as_view(), m.as_view(), v.as_view()).unwrap();
    assert_eq!(*l.kernel, "gemv_tr");
    assert_eq!(l.args.shape_m, ViewShape { size: [3, 8, 1, 1], stride: [1, 3, 24, 24] });
    // Transposed twice is not transposed.
    let (out, v) = (vector(0, 12), vector(2, 8));
    let l = kernels.try_dispatch_tr(out.as_view(), m.as_view(), v.as_view()).unwrap();
    assert_eq!(*l.kernel, "gemv");
    assert_eq!(l.args.shape_m, ViewShape { size: [3, 8, 1, 1], stride: [1, 3, 24, 24] });
    // A transposed view is as good as a row-major tensor.
    let cm = matrix(3, 12, 8);
    let (out, v) = (vector(0, 8), vector(2, 12));
    let l = kernels.try_dispatch(out.as_view(), cm.as_view().transposed(), v.as_view()).unwrap();
    assert_eq!(*l.kernel, "gemv_tr");
    assert_eq!(*l.args.m.buffer, 3);
}

#[test]
fn gemv_with_a_row_major_result_swaps_the_operands() {
    let kernels = gemv();
    // out (1 x 8, row-major) = tr(m) * v, with m a column of 8 and v 8 x 8.
    let out = tensor(0, [1, 8, 1, 1], MatrixOrdering::RowMajor);
    let m = vector(1, 8);
    let v = matrix(2, 8, 8);
    let l = kernels.try_dispatch_tr(out.as_view(), m.as_view(), v.as_view()).unwrap();
    // The kernel computes tr(out) = tr(v) * m.
    assert_eq!(*l.kernel, "gemv_tr");
    assert_eq!((*l.args.m.buffer, *l.args.v.buffer, *l.args.out.buffer), (2, 1, 0));
    assert_eq!(l.args.shape_out, ViewShape { size: [2, 1, 1, 1], stride: [1, 2, 2, 2] });
    assert_eq!(l.args.shape_m, ViewShape { size: [2, 8, 1, 1], stride: [1, 2, 16, 16] });
    assert_eq!(l.args.shape_v, ViewShape { size: [2, 1, 1, 1], stride: [1, 2, 2, 2] });
    assert_eq!(l.workload, Workload::Workgroups([1, 1, 1]));
    let plan = try_plan_gemv(out.as_view().shape(), m.as_view().shape(), v.as_view().shape(), T, N)
        .ok()
        .unwrap();
    assert!(plan.swapped);
    assert_eq!(plan.variant, GemvVariant::GemvTr);
    // out = m * v, with m a row of 8: the kernel would have to transpose its
    // vector operand.
    let row = tensor(3, [1, 8, 1, 1], MatrixOrdering::ColumnMajor);
    assert_eq!(
        kernels.try_dispatch(out.as_view(), row.as_view(), v.as_view()).err(),
        Some(TensorError::Unimplemented)
    );
}

#[test]
fn gemv_with_a_row_major_column_as_result_swaps_nothing() {
    let kernels = gemv();
    // The rows of a single column have unit stride under either ordering.
    let out = tensor(0, [8, 1, 1, 1], MatrixOrdering::RowMajor);
    let (m, v) = (matrix(1, 8, 12), vector(2, 12));
    let l = kernels.try_dispatch(out.as_view(), m.as_view(), v.as_view()).unwrap();
    assert_eq!(*l.kernel, "gemv");
    assert_eq!((*l.args.m.buffer, *l.args.v.buffer, *l.args.out.buffer), (1, 2, 0));
    let wide = matrix(3, 12, 8);
    let l = kernels.try_dispatch_tr(out.as_view(), wide.as_view(), v.as_view());
    assert_eq!(*l.unwrap().kernel, "gemv_tr");
}

#[test]
fn gemv_refuses_a_transposed_vector() {
    let kernels = gemv();
    let (out, m, v) = (vector(0, 8), matrix(1, 8, 12), vector(2, 12));
    assert_eq!(
        kernels.try_dispatch_generic(out.as_view(), m.as_view(), v.as_view(), N, T).err(),
        Some(TensorError::Unimplemented)
    );
    assert_eq!(
        kernels.try_dispatch_generic(out.as_view(), m.as_view(), v.as_view(), T, T).err(),
        Some(TensorError::Unimplemented)
    );
    // A row-major vector operand that is read transposed is a column-major
    // one read as it is.
    let row = tensor(3, [1, 12, 1, 1], MatrixOrdering::RowMajor);
    let l = kernels.try_dispatch_generic(out.as_view(), m.as_view(), row.as_view(), N, T).unwrap();
    assert_eq!(*l.kernel, "gemv");
    assert_eq!(l.args.shape_v, ViewShape { size: [3, 1, 1, 1], stride: [1, 3, 3, 3] });
}

#[test]
fn gemv_refuses_extents_that_do_not_fit() {
    let kernels = gemv();
    let fits = |out: u32, m: [u32; 2], v: u32, mode: MatrixMode| {
        let (o, a, b) = (vector(0, out), matrix(1, m[0], m[1]), vector(2, v));
        kernels.try_dispatch_generic(o.as_view(), a.as_view(), b.as_view(), mode, N).err()
    };
    assert_eq!(fits(8, [8, 12], 12, N), None);
    assert_eq!(fits(8, [8, 12], 8, N), Some(TensorError::DimensionMismatch { left: 12, right: 8 }));
    assert_eq!(fits(12, [8, 12], 12, N), Some(TensorError::DimensionMismatch { left: 12, right: 8 }));
    assert_eq!(fits(12, [8, 12], 8, T), None);
    assert_eq!(fits(8, [8, 12], 12, T), Some(TensorError::DimensionMismatch { left: 8, right: 12 }));
    let (out, m, v) = (matrix(0, 8, 2), matrix(1, 8, 12), vector(2, 12));
    assert_eq!(
        kernels.try_dispatch(out.as_view(), m.as_view(), v.as_view()).err(),
        Some(TensorError::DimensionMismatch { left: 2, right: 1 })
    );
}

#[test]
fn gemv_refuses_operands_without_a_unit_stride() {
    let kernels = gemv();
    let (out, m, v) = (vector(0, 8), matrix(1, 16, 24), vector(2, 12));
    let strided = m.try_view(0, [8, 12], [Some(2), Some(32)]).unwrap();
    assert_eq!(
        kernels.try_dispatch(out.as_view(), strided, v.as_view()).err(),
        Some(TensorError::NonContiguous)
    );
    assert_eq!(
        kernels.try_dispatch(strided, m.as_view(), v.as_view()).err(),
        Some(TensorError::NonContiguous)
    );
    assert_eq!(
        kernels.try_dispatch(out.as_view(), m.as_view(), strided).err(),
        Some(TensorError::NonContiguous)
    );
}

#[test]
fn gemv_refuses_strides_that_cannot_be_packed() {
    let kernels = gemv();
    let (out, m, v) = (vector(0, 8), matrix(1, 10, 12), vector(2, 12));
    // Eight rows out of ten: the columns are ten elements apart.
    let part = m.try_view(0, [8, 12], [Some(1), Some(10)]).unwrap();
    assert_eq!(
        kernels.try_dispatch(out.as_view(), part, v.as_view()).err(),
        Some(TensorError::Misaligned)
    );
    let plan = try_plan_gemv(
        column_major([8, 1, 1, 1]),
        ViewShape { size: [8, 12, 1, 1], stride: [1, 12, 96, 96] },
        column_major([12, 1, 1, 1]),
        N,
        N,
    );
    assert!(plan.is_ok());
}

#[test]
fn op_assign_launches_one_thread_to_an_element() {
    let kernels = op_assign();
    let (a, b) = (vector(0, 1757), vector(1, 1757));
    let cases = [
        (OpAssignVariant::Add, "add"),
        (OpAssignVariant::Sub, "sub"),
        (OpAssignVariant::Mul, "mul"),
        (OpAssignVariant::Div, "div"),
        (OpAssignVariant::Copy, "copy"),
    ];
    for (variant, kernel) in cases {
        let l = kernels.try_launch(variant, a.as_view(), b.as_view()).unwrap();
        assert_eq!(*l.kernel, kernel);
        assert_eq!(l.workload, Workload::CappedThreads(1757));
        assert_eq!(l.args.shape_a, a.as_view().shape());
        assert_eq!(l.args.shape_b, b.as_view().shape());
        assert_eq!((*l.args.a.buffer, *l.args.b.buffer), (0, 1));
        assert!(l.args.offsets.is_none());
        assert_eq!(*kernels.kernel(variant), kernel);
    }
}

#[test]
fn op_assign_repeats_the_second_operand() {
    let kernels = op_assign();
    let a = tensor(0, [8, 6, 2, 1], MatrixOrdering::ColumnMajor);
    let b = tensor(1, [4, 3, 1, 1], MatrixOrdering::ColumnMajor);
    let l = kernels.try_launch(OpAssignVariant::Add, a.as_view(), b.as_view()).unwrap();
    assert_eq!(l.workload, Workload::CappedThreads(96));
    assert_eq!(
        kernels.try_launch(OpAssignVariant::Add, b.as_view(), a.as_view()).err(),
        Some(TensorError::DimensionMismatch { left: 4, right: 8 })
    );
    let c = tensor(2, [3, 3, 1, 1], MatrixOrdering::ColumnMajor);
    assert_eq!(
        kernels.try_launch(OpAssignVariant::Copy, a.as_view(), c.as_view()).err(),
        Some(TensorError::DimensionMismatch { left: 8, right: 3 })
    );
    // The extents along the first axis that does not fit are named.
    let (six, four) = (matrix(3, 6, 4), matrix(4, 4, 2));
    assert_eq!(
        kernels.try_launch(OpAssignVariant::Add, six.as_view(), four.as_view()).err(),
        Some(TensorError::DimensionMismatch { left: 6, right: 4 })
    );
    let wide = matrix(5, 8, 5);
    assert_eq!(
        kernels.try_launch(OpAssignVariant::Add, wide.as_view(), four.as_view()).err(),
        Some(TensorError::DimensionMismatch { left: 5, right: 2 })
    );
}

#[test]
fn op_assign_on_slices_binds_their_offsets() {
    let kernels = op_assign();
    let (a, b) = (matrix(0, 8, 8), matrix(1, 8, 8));
    let l = kernels
        .try_launch(OpAssignVariant::Mul, a.try_column(3).unwrap(), b.try_column(5).unwrap())
        .unwrap();
    assert_eq!((l.args.a.start, l.args.b.start), (24, 40));
    assert_eq!(l.workload, Workload::CappedThreads(8));
}

#[test]
fn copy_with_offsets_binds_the_offsets_buffer() {
    let kernels = op_assign();
    let (a, b) = (vector(0, 64), vector(1, 32));
    let offsets: GpuTensor<BinOpOffsets> = GpuTensor::scalar(
        BufferUsages::from_bits(STORAGE),
        |_: BufferRequest| Ok::<_, ()>(BinOpOffsets { a: 8, b: 4, padding: [0, 0] }),
    )
    .ok()
    .unwrap();
    let l = kernels
        .try_launch_copy_with_offsets(offsets.as_view(), a.as_view(), b.as_view())
        .unwrap();
    assert_eq!(*l.kernel, "copy_with_offsets");
    assert_eq!(l.workload, Workload::CappedThreads(64));
    let bound = l.args.offsets.unwrap();
    assert_eq!((bound.buffer.a, bound.buffer.b, bound.start), (8, 4, 0));
    let c = vector(2, 48);
    assert_eq!(
        kernels.try_launch_copy_with_offsets(offsets.as_view(), a.as_view(), c.as_view()).err(),
        Some(TensorError::DimensionMismatch { left: 64, right: 48 })
    );
}

#[test]
fn repeat_launches_one_thread_to_an_element_of_the_destination() {
    let kernels = Repeat { repeat: "repeat" };
    let (dst, src) = (matrix(0, 8, 4), matrix(1, 4, 2));
    let l = kernels.try_launch(dst.as_view(), src.as_view()).unwrap();
    assert_eq!(*l.kernel, "repeat");
    assert_eq!(l.workload, Workload::Threads([32, 1, 1]));
    assert_eq!((*l.args.result.buffer, *l.args.source.buffer), (0, 1));
    assert_eq!(l.args.shape_result, dst.as_view().shape());
    assert_eq!(l.args.shape_source, src.as_view().shape());
    assert_eq!(
        kernels.try_launch(src.as_view(), dst.as_view()).err(),
        Some(TensorError::DimensionMismatch { left: 4, right: 8 })
    );
}

#[test]
fn contiguous_picks_the_kernel_from_the_destination() {
    let kernels = Contiguous { contiguous_row_major: "row", contiguous_col_major: "col" };
    let tensor_ = matrix(1, 256, 128);
    let out = matrix(0, 128, 256);
    let l = kernels.try_launch(out.as_view(), tensor_.as_view().transposed()).unwrap();
    assert_eq!(*l.kernel, "col");
    assert_eq!(l.workload, Workload::CappedThreads(32768));
    assert_eq!(l.args.shape, ViewShape { size: [128, 256, 1, 1], stride: [256, 1, 32768, 32768] });
    assert_eq!((*l.args.out.buffer, *l.args.tensor.buffer), (0, 1));
    let out = tensor(2, [128, 256, 1, 1], MatrixOrdering::RowMajor);
    let l = kernels.try_launch(out.as_view(), tensor_.as_view().transposed()).unwrap();
    assert_eq!(*l.kernel, "row");
}

#[test]
fn contiguous_takes_any_extents_with_as_many_elements() {
    let kernels = Contiguous { contiguous_row_major: "row", contiguous_col_major: "col" };
    let (out, tensor_) = (matrix(0, 3, 2), matrix(1, 2, 3));
    let l = kernels.try_launch(out.as_view(), tensor_.as_view()).unwrap();
    assert_eq!(*l.kernel, "col");
    assert_eq!(l.workload, Workload::CappedThreads(6));
    assert_eq!(l.args.shape, tensor_.as_view().shape());
    let (out, tensor_) = (matrix(0, 128, 256), matrix(1, 256, 128));
    let l = kernels.try_launch(out.as_view(), tensor_.as_view()).unwrap();
    assert_eq!(l.workload, Workload::CappedThreads(32768));
    // A packed row-major column is a destination like any other.
    let column = tensor(2, [6, 1, 1, 1], MatrixOrdering::RowMajor);
    let l = kernels.try_launch(column.as_view(), tensor_.as_view().try_rows(0, 2).unwrap().try_columns(0, 3).unwrap());
    assert_eq!(*l.unwrap().kernel, "row");
}

#[test]
fn contiguous_refusals() {
    let kernels = Contiguous { contiguous_row_major: "row", contiguous_col_major: "col" };
    let (out, tensor_) = (matrix(0, 128, 256), matrix(1, 256, 127));
    assert_eq!(
        kernels.try_launch(out.as_view(), tensor_.as_view()).err(),
        Some(TensorError::DimensionMismatch { left: 32512, right: 32768 })
    );
    let tensor_ = matrix(1, 256, 128);
    let big = matrix(2, 130, 256);
    let part = big.try_rows(0, 128).unwrap();
    assert_eq!(
        kernels.try_launch(part, tensor_.as_view().transposed()).err(),
        Some(TensorError::NonContiguous)
    );
    // The source may have any layout.
    assert!(kernels.try_launch(out.as_view(), part).is_ok());
}

#[test]
fn reduce_launches_a_single_workgroup() {
    let kernels = Reduce {
        reduce_sum: "sum",
        reduce_product: "product",
        reduce_min: "min",
        reduce_max: "max",
        reduce_sqnorm: "sqnorm",
    };
    let (v, out) = (vector(1, 345), vector(0, 1));
    let cases = [
        (ReduceVariant::Min, "min"),
        (ReduceVariant::Max, "max"),
        (ReduceVariant::Sum, "sum"),
        (ReduceVariant::Prod, "product"),
        (ReduceVariant::SqNorm, "sqnorm"),
    ];
    for (variant, kernel) in cases {
        let l = kernels.launch(variant, v.as_view(), out.as_view());
        assert_eq!(*l.kernel, kernel);
        assert_eq!(l.workload, Workload::Workgroups([1, 1, 1]));
        assert_eq!(l.args.shape, v.as_view().shape());
        assert_eq!((*l.args.input, *l.args.output), (1, 0));
        assert_eq!(*kernels.kernel(variant), kernel);
    }
}

#[test]
fn kernels_by_name() {
    let kernels = gemm();
    assert_eq!(*kernels.kernel(GemmVariant::Gemm), "gemm");
    assert_eq!(*kernels.kernel(GemmVariant::GemmFast), "gemm_fast");
    assert_eq!(*kernels.kernel(GemmVariant::GemmTr), "gemm_tr");
    assert_eq!(*kernels.kernel(GemmVariant::GemmTrFast), "gemm_tr_fast");
    let kernels = gemv();
    assert_eq!(*kernels.kernel(GemvVariant::Gemv), "gemv");
    assert_eq!(*kernels.kernel(GemvVariant::GemvFast), "gemv_fast");
    assert_eq!(*kernels.kernel(GemvVariant::GemvNaive), "gemv_naive");
    assert_eq!(*kernels.kernel(GemvVariant::GemvTr), "gemv_tr");
    assert_eq!(*kernels.kernel(GemvVariant::GemvTrFast), "gemv_tr_fast");
    assert_eq!(*kernels.kernel(GemvVariant::GemvTrNaive), "gemv_tr_naive");
}
