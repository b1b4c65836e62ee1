use stensor::linalg::gemv::GemvArgs;
use stensor::shapes::MatrixOrdering;
use stensor::tensor::{BufferRequest, GpuTensor, GpuTensorView, TensorBuilder};
use stensor::usage::{BufferUsages, STORAGE};
use stensor::{Gemv, KernelLaunch, MatrixMode, Workload, N, T};

type Buffer = Vec<i64>;

fn tensor(rows: u32, cols: u32, ordering: MatrixOrdering, seed: i64) -> GpuTensor<Buffer> {
    let fill = |request: BufferRequest| {
        Ok::<Buffer, ()>((0..request.len as i64).map(|k| (k * 7 + seed) % 11 - 5).collect())
    };
    TensorBuilder::matrix(rows, cols, BufferUsages::from_bits(STORAGE))
        .ordering(ordering)
        .build_uninit(fill)
        .ok()
        .unwrap()
}

/// The element at row `i` and column `j` of a view.
fn at(view: &GpuTensorView<Buffer>, i: u32, j: u32) -> i64 {
    let shape = view.shape();
    view.raw_buffer()[(view.offset() + i * shape.stride[0] + j * shape.stride[1]) as usize]
}

/// The element at row `i` and column `j` of a view read in `mode`.
fn read(view: &GpuTensorView<Buffer>, mode: MatrixMode, i: u32, j: u32) -> i64 {
    match mode {
        MatrixMode::Normal => at(view, i, j),
        MatrixMode::Transposed => at(view, j, i),
    }
}

/// Does what the kernels do, on the shapes they are given: the product of
/// the matrix operand, transposed by the kernels that say so, and of the
/// vector operand, written through the shape of the result.
fn run(launch: &KernelLaunch<&'static str, GemvArgs<Buffer>>, out_len: usize) -> Vec<Option<i64>> {
    let args = &launch.args;
    let transposed = launch.kernel.starts_with("gemv_tr");
    let (sm, sv, so) = (args.shape_m, args.shape_v, args.shape_out);
    let mut out = vec![None; out_len];
    for i in 0..so.size[0] {
        for j in 0..so.size[1] {
            let mut sum = 0;
            for k in 0..sv.size[0] {
                let (row, col) = if transposed { (k, i) } else { (i, k) };
                let x = args.m.buffer[args.m.start + (row * sm.stride[0] + col * sm.stride[1]) as usize];
                let y = args.v.buffer[args.v.start + (k * sv.stride[0] + j * sv.stride[1]) as usize];
                sum += x * y;
            }
            out[args.out.start + (i * so.stride[0] + j * so.stride[1]) as usize] = Some(sum);
        }
    }
    out
}

/// Launches `out = m * v` and holds what the kernel writes against the
/// product computed entry by entry.
fn check(
    out: GpuTensorView<Buffer>,
    m: GpuTensorView<Buffer>,
    v: GpuTensorView<Buffer>,
    m_mode: MatrixMode,
    v_mode: MatrixMode,
) -> &'static str {
    let kernels = Gemv {
        gemv: "gemv",
        gemv_naive: "gemv_naive",
        gemv_fast: "gemv_fast",
        gemv_tr: "gemv_tr",
        gemv_tr_fast: "gemv_tr_fast",
        gemv_tr_naive: "gemv_tr_naive",
    };
    let launch = kernels.try_dispatch_generic(out, m, v, m_mode, v_mode).unwrap();
    assert!(launch.kernel.ends_with("naive"), "the shapes of this test are not packed");
    assert!(matches!(launch.workload, Workload::Workgroups(_)));
    let written = run(&launch, out.raw_buffer().len());
    let inner = match m_mode {
        MatrixMode::Normal => m.shape().size[1],
        MatrixMode::Transposed => m.shape().size[0],
    };
    let shape = out.shape();
    let mut entries = 0;
    for i in 0..shape.size[0] {
        for j in 0..shape.size[1] {
            let wanted: i64 = (0..inner).map(|k| read(&m, m_mode, i, k) * read(&v, v_mode, k, j)).sum();
            let place = (out.offset() + i * shape.stride[0] + j * shape.stride[1]) as usize;
            assert_eq!(written[place], Some(wanted));
            entries += 1;
        }
    }
    assert_eq!(written.iter().filter(|e| e.is_some()).count(), entries);
    *launch.kernel
}

#[test]
fn column_major_product() {
    let (out, m, v) = (
        tensor(5, 1, MatrixOrdering::ColumnMajor, 1),
        tensor(5, 7, MatrixOrdering::ColumnMajor, 2),
        tensor(7, 1, MatrixOrdering::ColumnMajor, 3),
    );
    assert_eq!(check(out.as_view(), m.as_view(), v.as_view(), N, N), "gemv_naive");
}

#[test]
fn column_major_transposed_product() {
    let (out, m, v) = (
        tensor(5, 3, MatrixOrdering::ColumnMajor, 1),
        tensor(7, 5, MatrixOrdering::ColumnMajor, 2),
        tensor(7, 3, MatrixOrdering::ColumnMajor, 3),
    );
    assert_eq!(check(out.as_view(), m.as_view(), v.as_view(), T, N), "gemv_tr_naive");
}

#[test]
fn row_major_matrix_operand() {
    let (out, m, v) = (
        tensor(5, 3, MatrixOrdering::ColumnMajor, 1),
        tensor(5, 7, MatrixOrdering::RowMajor, 2),
        tensor(7, 3, MatrixOrdering::ColumnMajor, 3),
    );
    assert_eq!(check(out.as_view(), m.as_view(), v.as_view(), N, N), "gemv_tr_naive");
    let m = tensor(7, 5, MatrixOrdering::RowMajor, 4);
    assert_eq!(check(out.as_view(), m.as_view(), v.as_view(), T, N), "gemv_naive");
}

#[test]
fn row_major_second_operand_read_transposed() {
    let (out, m, v) = (
        tensor(5, 3, MatrixOrdering::ColumnMajor, 1),
        tensor(5, 7, MatrixOrdering::ColumnMajor, 2),
        tensor(3, 7, MatrixOrdering::RowMajor, 3),
    );
    assert_eq!(check(out.as_view(), m.as_view(), v.as_view(), N, T), "gemv_naive");
}

#[test]
fn row_major_result_with_column_major_operands() {
    // out = tr(m) * v: the kernel computes tr(out) = tr(v) * m.
    let (out, m, v) = (
        tensor(3, 5, MatrixOrdering::RowMajor, 1),
        tensor(7, 3, MatrixOrdering::ColumnMajor, 2),
        tensor(7, 5, MatrixOrdering::ColumnMajor, 3),
    );
    assert_eq!(check(out.as_view(), m.as_view(), v.as_view(), T, N), "gemv_tr_naive");
}

#[test]
fn row_major_result_with_row_major_operands() {
    // Everything is the transpose of what lies in memory: tr(out) = tr(v) * tr(m),
    // and tr(v), tr(m) are the column-major matrices that are there.
    let (out, m, v) = (
        tensor(3, 5, MatrixOrdering::RowMajor, 1),
        tensor(3, 7, MatrixOrdering::RowMajor, 2),
        tensor(7, 5, MatrixOrdering::RowMajor, 3),
    );
    assert_eq!(check(out.as_view(), m.as_view(), v.as_view(), N, N), "gemv_naive");
}

#[test]
fn row_major_result_vector() {
    let (out, m, v) = (
        tensor(1, 5, MatrixOrdering::RowMajor, 1),
        tensor(7, 1, MatrixOrdering::ColumnMajor, 2),
        tensor(7, 5, MatrixOrdering::ColumnMajor, 3),
    );
    assert_eq!(check(out.as_view(), m.as_view(), v.as_view(), T, N), "gemv_tr_naive");
}

#[test]
fn product_into_a_slice_of_the_result() {
    let (out, m, v) = (
        tensor(9, 6, MatrixOrdering::ColumnMajor, 1),
        tensor(5, 7, MatrixOrdering::ColumnMajor, 2),
        tensor(9, 9, MatrixOrdering::ColumnMajor, 3),
    );
    let out = out.as_view().try_rows(2, 5).unwrap().try_columns(1, 3).unwrap();
    let v = v.as_view().try_rows(1, 7).unwrap().try_columns(4, 3).unwrap();
    assert_eq!(check(out, m.as_view(), v, N, N), "gemv_naive");
}
