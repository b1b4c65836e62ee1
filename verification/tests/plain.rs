use stensor::shapes::{MatrixOrdering, ViewShape};
use stensor::tensor::{BufferRequest, GpuTensor, RangeBound, TensorBuilder};
use stensor::usage::{BufferUsages, STORAGE};
use stensor::linalg::gemv::plan_gemv;
use stensor::{
    Contiguous, Gemm, GemmVariant, Gemv, GemvVariant, OpAssign, OpAssignVariant, Repeat, Workload,
    N, T,
};

fn tensor(id: u32, shape: [u32; 4], ordering: MatrixOrdering) -> GpuTensor<u32> {
    TensorBuilder::tensor(shape, BufferUsages::from_bits(STORAGE))
        .ordering(ordering)
        .build_uninit(|_: BufferRequest| Ok::<u32, ()>(id))
        .ok()
        .unwrap()
}

fn matrix(id: u32, rows: u32, cols: u32) -> GpuTensor<u32> {
    tensor(id, [rows, cols, 1, 1], MatrixOrdering::ColumnMajor)
}

fn column_major(size: [u32; 4]) -> ViewShape {
    ViewShape::contiguous(size, MatrixOrdering::ColumnMajor)
}

#[test]
fn shapes_give_plain_values_on_requests_that_hold() {
    let s = column_major([3, 4, 5, 6]);
    assert_eq!(s.permute([2, 0, 1, 3]), s.try_permute([2, 0, 1, 3]).unwrap());
    assert_eq!(s.permute([2, 0, 1, 3]).size, [4, 5, 3, 6]);
    assert_eq!(s.permute([1, 0, 2, 3]), s.transpose());
    assert_eq!(s.permute_ggml([0, 2, 1, 3]).size, [5, 4, 3, 6]);
    assert_eq!(s.view([6, 60], [None, None]).stride, [1, 6, 360, 360]);
    assert_eq!(s.view([6, 60], [Some(2), None]).stride, [2, 12, 720, 720]);
    let size = [6, 10, 2, 3];
    assert_eq!(s.view_padded(size, [None, Some(100), None, Some(7)]).stride, [1, 100, 1000, 7]);
    let ambiguous = column_major([1, 1, 6, 1]);
    assert_eq!(
        ambiguous.view([2, 3], [None, Some(1)]),
        ViewShape { size: [2, 3, 1, 1], stride: [3, 1, 6, 6] }
    );
    let packed = column_major([8, 4, 1, 1]).f32_to_vec4();
    assert_eq!(packed, ViewShape { size: [2, 4, 1, 1], stride: [1, 2, 8, 8] });
}

#[test]
fn views_give_plain_values_on_requests_that_hold() {
    let t = tensor(7, [4, 3, 2, 1], MatrixOrdering::ColumnMajor);
    let v = t.as_view();
    assert_eq!((v.matrix(1).shape().size, v.matrix(1).offset()), ([4, 3, 1, 1], 12));
    assert_eq!((v.rows(1, 3).shape().size, v.rows(1, 3).offset()), ([3, 3, 2, 1], 1));
    assert_eq!((v.row(3).shape().size, v.row(3).offset()), ([1, 3, 2, 1], 3));
    assert_eq!((v.columns(1, 2).shape().size, v.columns(1, 2).offset()), ([4, 2, 2, 1], 4));
    assert_eq!((v.column(2).shape().size, v.column(2).offset()), ([4, 1, 2, 1], 8));
    assert_eq!(v.permute([1, 0, 2, 3]).shape(), v.transposed().shape());
    assert_eq!(v.permute_ggml([1, 0, 2, 3]).shape(), v.transposed().shape());
    assert_eq!(v.reshape([6, 4]).shape().stride, [1, 6, 24, 24]);
    assert_eq!(v.reshape_ggml([4, 6]).shape().size, [6, 4, 1, 1]);
    assert_eq!(
        v.reshape_with_ordering([6, 4], MatrixOrdering::RowMajor).shape().stride,
        [4, 1, 24, 24]
    );
    assert_eq!(
        v.reshape_ggml_with_ordering([4, 6], MatrixOrdering::RowMajor).shape().stride,
        [4, 1, 24, 24]
    );
    let w = v.view(4, [5, 2, 2], [None, None, None]);
    assert_eq!((w.shape().size, w.shape().stride, w.offset()), ([5, 2, 2, 1], [1, 5, 10, 20], 4));
    let w = v.view_ggml(4, [2, 5, 2], [None, None, None]);
    assert_eq!((w.shape().size, w.offset(), *w.raw_buffer()), ([5, 2, 2, 1], 4, 7));
    assert_eq!(t.column(2).offset(), 8);
    assert_eq!(t.columns(0, 3).shape().size, [4, 3, 2, 1]);
    assert_eq!(t.row(3).offset(), 3);
    assert_eq!(t.rows(0, 4).shape().size, [4, 3, 2, 1]);
    assert_eq!(t.permute([1, 0, 2, 3]).shape().size, [3, 4, 2, 1]);
    assert_eq!(t.permute_ggml([0, 1, 2, 3]).shape().size, [4, 3, 2, 1]);
    assert_eq!(t.reshape([24]).shape().size, [24, 1, 1, 1]);
    assert_eq!(t.reshape_ggml([1, 24]).shape().size, [24, 1, 1, 1]);
    assert_eq!(t.view(20, [4], [None]).offset(), 20);
    assert_eq!(t.view_ggml(20, [1, 4], [None, None]).shape().size, [4, 1, 1, 1]);
}

#[test]
fn exclusive_views_give_plain_values_on_requests_that_hold() {
    let mut t = tensor(7, [4, 3, 2, 1], MatrixOrdering::ColumnMajor);
    let mut v = t.as_view_mut();
    assert_eq!(v.matrix(1).offset(), 12);
    assert_eq!(v.rows(1, 3).shape().size, [3, 3, 2, 1]);
    assert_eq!(v.row(3).offset(), 3);
    assert_eq!(v.columns(1, 2).offset(), 4);
    assert_eq!(v.column(2).offset(), 8);
    assert_eq!(v.permute([1, 0, 2, 3]).shape().size, [3, 4, 2, 1]);
    assert_eq!(v.reshape([6, 4]).shape().size, [6, 4, 1, 1]);
    let mut part = v.view(4, [20], [None]);
    assert_eq!(part.offset(), 4);
    assert_eq!(part.reshape([20]).offset(), 4);
    assert_eq!(part.reshape([4, 5]).shape().stride, [1, 4, 20, 20]);
}

#[test]
fn what_was_built_is_well_formed() {
    let mut t = tensor(7, [4, 3, 2, 1], MatrixOrdering::ColumnMajor);
    assert!(t.is_well_formed());
    assert!(t.as_view().is_well_formed());
    assert!(t.as_view().layout().is_well_formed());
    assert!(t.as_view().rows(1, 2).transposed().is_well_formed());
    assert!(t.as_view_mut().is_well_formed());
    let wide = stensor::layout::ViewLayout {
        shape: ViewShape { size: [65536, 65536, 1, 1], stride: [1, 1, 1, 1] },
        offset: 0,
        buffer_len: 0,
    };
    assert!(!wide.is_well_formed());
}

#[test]
fn vectors_give_plain_plans_on_requests_that_hold() {
    let mut t = tensor(7, [5, 1, 1, 1], MatrixOrdering::ColumnMajor);
    let plan = t.append(3);
    assert_eq!(Ok(plan), t.try_append(3));
    assert_eq!(plan.grow.map(|request| request.len), Some(8));
    assert_eq!((plan.kept, plan.write_offset, plan.new_len), (5, 5, 8));
    assert_eq!(t.append_encased(0).grow, None);
    assert_eq!(t.try_commit_append(3, Some(9)), Ok(Some(7)));
    let plan = t.shift_remove(RangeBound::Included(2), RangeBound::Excluded(4));
    assert_eq!(Ok(plan), t.try_shift_remove(RangeBound::Included(2), RangeBound::Excluded(4)));
    assert_eq!(plan.removed, 2);
    assert_eq!(plan.shift.map(|shift| shift.save.len), Some(4));
    let plan = t.shift_remove_encased(RangeBound::Included(9), RangeBound::Excluded(3));
    assert_eq!((plan.removed, plan.shift), (0, None));
    assert_eq!(t.commit_remove(RangeBound::Included(2), RangeBound::Excluded(4)), 2);
    assert_eq!((t.len(), t.capacity()), (6, 8));
    assert_eq!(t.commit_append(2, None), None);
    assert_eq!(t.commit_append(1, Some(3)), Some(9));
    assert_eq!((t.len(), t.capacity(), *t.buffer()), (9, 16, 3));
}

#[test]
fn dispatchers_give_plain_launches_on_requests_that_hold() {
    let (out, m1, m2) = (matrix(0, 8, 12), matrix(1, 8, 4), matrix(2, 4, 12));
    let kernels = Gemm { gemm: "a", gemm_fast: "b", gemm_tr: "c", gemm_tr_fast: "d" };
    let d = kernels.dispatch(out.as_view(), m1.as_view(), m2.as_view());
    assert_eq!((*d.launch.kernel, d.launch.workload), ("a", Workload::Workgroups([1, 1, 1])));
    let d = kernels.dispatch_generic(out.as_view(), m1.as_view(), m2.as_view(), GemmVariant::GemmFast);
    assert_eq!((*d.launch.kernel, d.launch.workload), ("b", Workload::Workgroups([2, 1, 1])));
    let m1t = matrix(3, 4, 8);
    let d = kernels.dispatch_tr(out.as_view(), m1t.as_view(), m2.as_view());
    assert_eq!(*d.launch.kernel, "c");

    let kernels = Gemv {
        gemv: "gemv",
        gemv_naive: "gemv_naive",
        gemv_fast: "gemv_fast",
        gemv_tr: "gemv_tr",
        gemv_tr_fast: "gemv_tr_fast",
        gemv_tr_naive: "gemv_tr_naive",
    };
    let (y, m, x) = (matrix(0, 8, 1), matrix(1, 8, 12), matrix(2, 12, 1));
    assert_eq!(*kernels.dispatch(y.as_view(), m.as_view(), x.as_view()).kernel, "gemv");
    let mt = matrix(3, 12, 8);
    assert_eq!(*kernels.dispatch_tr(y.as_view(), mt.as_view(), x.as_view()).kernel, "gemv_tr");
    let l = kernels.dispatch_generic(y.as_view(), mt.as_view(), x.as_view(), T, N);
    assert_eq!(l.workload, Workload::Workgroups([1, 1, 1]));
    let plan = plan_gemv(y.as_view().shape(), m.as_view().shape(), x.as_view().shape(), N, N);
    assert_eq!((plan.variant, plan.swapped), (GemvVariant::Gemv, false));

    let kernels = OpAssign { add: 1, sub: 2, mul: 3, div: 4, copy: 5, copy_with_offsets: 6 };
    let (a, b) = (matrix(0, 8, 6), matrix(1, 4, 3));
    let l = kernels.launch(OpAssignVariant::Div, a.as_view(), b.as_view());
    assert_eq!((*l.kernel, l.workload), (4, Workload::CappedThreads(48)));
    let l = kernels.launch_copy_with_offsets(b.as_view(), a.as_view(), b.as_view());
    assert_eq!((*l.kernel, l.args.offsets.map(|o| *o.buffer)), (6, Some(1)));

    let kernels = Repeat { repeat: 9 };
    let l = kernels.launch(a.as_view(), b.as_view());
    assert_eq!((*l.kernel, l.workload), (9, Workload::Threads([48, 1, 1])));

    let kernels = Contiguous { contiguous_row_major: "row", contiguous_col_major: "col" };
    let out = matrix(2, 6, 8);
    let l = kernels.launch(out.as_view(), a.as_view().transposed());
    assert_eq!((*l.kernel, l.workload), ("col", Workload::CappedThreads(48)));
}
