use stensor::error::TensorError;
use stensor::shapes::{MatrixOrdering, ViewShape};
use stensor::tensor::{BufferRequest, GpuTensor, GpuTensorView, TensorBuilder};
use stensor::usage::{BufferUsages, STORAGE};

fn allocate(request: BufferRequest) -> Result<usize, ()> {
    Ok(request.len)
}

fn tensor(shape: [u32; 4], ordering: MatrixOrdering) -> GpuTensor<usize> {
    TensorBuilder::tensor(shape, BufferUsages::from_bits(STORAGE))
        .ordering(ordering)
        .build_uninit(allocate)
        .ok()
        .unwrap()
}

fn column_major(shape: [u32; 4]) -> GpuTensor<usize> {
    tensor(shape, MatrixOrdering::ColumnMajor)
}

fn parts<'a>(v: Result<GpuTensorView<'a, usize>, TensorError>) -> ([u32; 4], [u32; 4], u32) {
    let v = v.unwrap();
    (v.shape().size, v.shape().stride, v.offset())
}

fn error<'a>(v: Result<GpuTensorView<'a, usize>, TensorError>) -> TensorError {
    match v {
        Ok(_) => panic!("not refused"),
        Err(e) => e,
    }
}

#[test]
fn rows_of_a_matrix() {
    let t = column_major([5, 3, 1, 1]);
    assert_eq!(parts(t.try_rows(1, 2)), ([2, 3, 1, 1], [1, 5, 15, 15], 1));
    assert_eq!(parts(t.try_rows(0, 4)), ([4, 3, 1, 1], [1, 5, 15, 15], 0));
    assert_eq!(parts(t.try_rows(0, 5)), ([5, 3, 1, 1], [1, 5, 15, 15], 0));
    assert_eq!(parts(t.try_rows(3, 2)), ([2, 3, 1, 1], [1, 5, 15, 15], 3));
    assert_eq!(parts(t.try_row(3)), ([1, 3, 1, 1], [1, 5, 15, 15], 3));
    assert_eq!(parts(t.try_row(4)), ([1, 3, 1, 1], [1, 5, 15, 15], 4));
    assert_eq!(parts(t.try_rows(5, 0)), ([0, 3, 1, 1], [1, 5, 15, 15], 5));
    assert_eq!(parts(t.try_rows(2, 0)), ([0, 3, 1, 1], [1, 5, 15, 15], 2));
    let r = tensor([5, 3, 1, 1], MatrixOrdering::RowMajor);
    assert_eq!(parts(r.try_rows(1, 2)), ([2, 3, 1, 1], [3, 1, 15, 15], 3));
}

#[test]
fn rows_stop_at_the_last_one() {
    let t = column_major([5, 3, 1, 1]);
    assert_eq!(error(t.try_rows(0, 6)), TensorError::OutOfBounds);
    assert_eq!(error(t.try_rows(4, 2)), TensorError::OutOfBounds);
    assert_eq!(error(t.try_row(5)), TensorError::OutOfBounds);
    assert_eq!(error(t.try_rows(6, 0)), TensorError::OutOfBounds);
    assert_eq!(error(t.try_rows(u32::MAX, 1)), TensorError::OutOfBounds);
    assert_eq!(error(t.try_rows(1, u32::MAX)), TensorError::OutOfBounds);
}

#[test]
fn columns_of_a_matrix() {
    let t = column_major([5, 3, 1, 1]);
    assert_eq!(parts(t.try_columns(1, 1)), ([5, 1, 1, 1], [1, 5, 15, 15], 5));
    assert_eq!(parts(t.try_column(0)), ([5, 1, 1, 1], [1, 5, 15, 15], 0));
    assert_eq!(parts(t.try_column(1)), ([5, 1, 1, 1], [1, 5, 15, 15], 5));
    assert_eq!(parts(t.try_column(2)), ([5, 1, 1, 1], [1, 5, 15, 15], 10));
    assert_eq!(parts(t.try_columns(1, 2)), ([5, 2, 1, 1], [1, 5, 15, 15], 5));
    assert_eq!(parts(t.try_columns(0, 3)), ([5, 3, 1, 1], [1, 5, 15, 15], 0));
    assert_eq!(error(t.try_column(3)), TensorError::OutOfBounds);
    assert_eq!(error(t.try_columns(1, 3)), TensorError::OutOfBounds);
    assert_eq!(error(t.try_columns(0, 4)), TensorError::OutOfBounds);
    let v = t.as_view();
    assert_eq!(parts(v.try_columns(0, 2)), ([5, 2, 1, 1], [1, 5, 15, 15], 0));
    assert_eq!(parts(v.try_column(1)), ([5, 1, 1, 1], [1, 5, 15, 15], 5));
    assert_eq!(parts(v.try_rows(1, 3)), ([3, 3, 1, 1], [1, 5, 15, 15], 1));
    assert_eq!(parts(v.try_row(0)), ([1, 3, 1, 1], [1, 5, 15, 15], 0));
}

#[test]
fn slices_of_slices_add_their_offsets() {
    let t = column_major([6, 6, 1, 1]);
    let inner = t.try_rows(1, 4).unwrap().try_columns(2, 3).unwrap();
    assert_eq!(inner.shape().size, [4, 3, 1, 1]);
    assert_eq!(inner.offset(), 1 + 2 * 6);
    assert_eq!(inner.buffer().start, 13);
    assert_eq!(*inner.buffer().buffer, 36);
    assert_eq!(inner.len(), 12);
}

#[test]
fn matrix_of_a_tensor() {
    let t = column_major([2, 3, 4, 2]);
    let v = t.as_view();
    assert_eq!(parts(v.try_matrix(0)), ([2, 3, 1, 2], [1, 2, 6, 24], 0));
    assert_eq!(parts(v.try_matrix(2)), ([2, 3, 1, 2], [1, 2, 6, 24], 12));
    assert_eq!(parts(v.try_matrix(3)), ([2, 3, 1, 2], [1, 2, 6, 24], 18));
    assert_eq!(error(v.try_matrix(4)), TensorError::OutOfBounds);
    assert_eq!(parts(v.try_matrix(3).unwrap().try_matrix(0)), ([2, 3, 1, 2], [1, 2, 6, 24], 18));
    assert_eq!(error(v.try_matrix(3).unwrap().try_matrix(1)), TensorError::OutOfBounds);
}

#[test]
fn offsets_that_do_not_fit_are_refused() {
    let t = column_major([4, 1, 1, 1]);
    let narrow = t.try_view(0, [2, 2], [None, None]).unwrap();
    assert_eq!(error(narrow.try_columns(0, 1).unwrap().try_column(1)), TensorError::OutOfBounds);
    let wide = t
        .try_view(0, [1, 4, 1, 1], [Some(1), Some(u32::MAX), Some(1), Some(1)])
        .unwrap();
    assert_eq!(parts(wide.try_column(1)), ([1, 1, 1, 1], [1, u32::MAX, 1, 1], u32::MAX));
    assert_eq!(error(wide.try_column(2)), TensorError::Overflow);
    assert_eq!(error(wide.try_column(4)), TensorError::OutOfBounds);
    let tall = t
        .try_view(0, [4, 1, 1, 1], [Some(u32::MAX), Some(1), Some(1), Some(1)])
        .unwrap();
    assert_eq!(parts(tall.try_row(1)), ([1, 1, 1, 1], [u32::MAX, 1, 1, 1], u32::MAX));
    assert_eq!(error(tall.try_row(2)), TensorError::Overflow);
    let deep = t
        .try_view(0, [1, 1, 4, 1], [Some(1), Some(1), Some(u32::MAX), Some(1)])
        .unwrap();
    assert_eq!(error(deep.try_matrix(2)), TensorError::Overflow);
    assert_eq!(parts(deep.try_matrix(1)), ([1, 1, 1, 1], [1, 1, u32::MAX, 1], u32::MAX));
    assert_eq!(error(t.try_view(1, [2], [None]).unwrap().try_view(u32::MAX, [0], [None])), TensorError::OutOfBounds);
}

#[test]
fn transposed_and_permuted_views_keep_the_offset() {
    let t = column_major([2, 3, 4, 1]);
    let m = t.as_view().try_matrix(1).unwrap();
    let tr = m.transposed();
    assert_eq!((tr.shape().size, tr.shape().stride, tr.offset()), ([3, 2, 1, 1], [2, 1, 6, 24], 6));
    assert_eq!(parts(m.try_permute([1, 0, 2, 3])), ([3, 2, 1, 1], [2, 1, 6, 24], 6));
    assert_eq!(parts(t.try_permute([2, 0, 1, 3])), ([3, 4, 2, 1], [2, 6, 1, 24], 0));
    assert_eq!(parts(t.try_permute_ggml([0, 2, 1, 3])), ([4, 3, 2, 1], [6, 2, 1, 24], 0));
    assert_eq!(parts(t.as_view().try_permute_ggml([1, 0, 2, 3])), ([3, 2, 4, 1], [2, 1, 6, 24], 0));
    assert_eq!(error(t.try_permute([0, 0, 1, 2])), TensorError::InvalidPermutation);
    assert_eq!(error(t.try_permute_ggml([0, 1, 2, 5])), TensorError::InvalidPermutation);
    assert_eq!(error(m.try_permute([3, 3, 3, 3])), TensorError::InvalidPermutation);
}

#[test]
fn view_into_a_vector() {
    let t = column_major([6, 1, 1, 1]);
    assert_eq!(parts(t.try_view(2, [2, 2], [None, None])), ([2, 2, 1, 1], [1, 2, 4, 4], 2));
    assert_eq!(parts(t.try_view(0, [6], [None])), ([6, 1, 1, 1], [1, 6, 6, 6], 0));
    assert_eq!(parts(t.try_view(6, [0], [None])), ([0, 1, 1, 1], [1, 0, 0, 0], 6));
    assert_eq!(error(t.try_view(3, [2, 2], [None, None])), TensorError::OutOfBounds);
    assert_eq!(error(t.try_view(0, [7], [None])), TensorError::OutOfBounds);
    assert_eq!(error(t.try_view(u32::MAX, [1], [None])), TensorError::OutOfBounds);
    assert_eq!(
        error(t.try_view(0, [65536, 65536, 65536, 65536], [None, None, None, None])),
        TensorError::OutOfBounds
    );
    assert_eq!(
        error(t.try_view(0, [1, 1, 1, 1, 1], [None, None, None, None, None])),
        TensorError::TooManyAxes
    );
}

#[test]
fn view_needs_a_contiguous_source() {
    let t = column_major([4, 4, 1, 1]);
    let part = t.try_rows(0, 2).unwrap();
    assert_eq!(error(part.try_view(0, [4], [None])), TensorError::NonContiguous);
    assert_eq!(error(part.try_reshape([4])), TensorError::NonContiguous);
    assert_eq!(
        error(part.try_reshape_with_ordering([4], MatrixOrdering::ColumnMajor)),
        TensorError::NonContiguous
    );
}

#[test]
fn view_of_a_view_counts_from_the_inner_offset() {
    let t = column_major([10, 1, 1, 1]);
    let inner = t.try_view(4, [6], [None]).unwrap();
    assert_eq!(inner.offset(), 4);
    // The elements of the inner view are held against its own count only.
    assert_eq!(parts(inner.try_view(3, [3], [None])), ([3, 1, 1, 1], [1, 3, 3, 3], 7));
    assert_eq!(error(inner.try_view(4, [3], [None])), TensorError::OutOfBounds);
}

#[test]
fn exclusive_view_is_bounded_like_a_shared_one() {
    let mut t = column_major([10, 1, 1, 1]);
    let mut whole = t.as_view_mut();
    let mut inner = whole.try_view(4, [6], [None]).unwrap();
    assert_eq!(inner.offset(), 4);
    assert_eq!(inner.shape().size, [6, 1, 1, 1]);
    {
        let fits = inner.try_view(3, [3], [None]).unwrap();
        assert_eq!((fits.offset(), fits.shape().size), (7, [3, 1, 1, 1]));
    }
    {
        let same = inner.try_reshape([6]).unwrap();
        assert_eq!((same.offset(), same.shape().size), (4, [6, 1, 1, 1]));
    }
    {
        let folded = inner.try_reshape([3, 2]).unwrap();
        assert_eq!((folded.offset(), folded.shape().size), (4, [3, 2, 1, 1]));
    }
    assert!(matches!(inner.try_view(4, [3], [None]), Err(TensorError::OutOfBounds)));
    assert!(matches!(inner.try_reshape([7]), Err(TensorError::OutOfBounds)));
}

#[test]
fn exclusive_views_navigate_like_shared_ones() {
    let mut t = column_major([4, 3, 2, 1]);
    let mut v = t.as_view_mut();
    {
        let m = v.try_matrix(1).unwrap();
        assert_eq!((m.shape().size, m.offset()), ([4, 3, 1, 1], 12));
    }
    assert!(matches!(v.try_matrix(2), Err(TensorError::OutOfBounds)));
    {
        let r = v.try_rows(1, 2).unwrap();
        assert_eq!((r.shape().size, r.offset()), ([2, 3, 2, 1], 1));
    }
    {
        let r = v.try_row(2).unwrap();
        assert_eq!((r.shape().size, r.offset()), ([1, 3, 2, 1], 2));
    }
    assert!(matches!(v.try_row(4), Err(TensorError::OutOfBounds)));
    {
        let c = v.try_columns(0, 2).unwrap();
        assert_eq!((c.shape().size, c.offset()), ([4, 2, 2, 1], 0));
    }
    {
        let c = v.try_column(1).unwrap();
        assert_eq!((c.shape().size, c.offset()), ([4, 1, 2, 1], 4));
    }
    assert!(matches!(v.try_column(3), Err(TensorError::OutOfBounds)));
    {
        let tr = v.transposed();
        assert_eq!((tr.shape().size, tr.shape().stride), ([3, 4, 2, 1], [4, 1, 12, 24]));
    }
    {
        let p = v.try_permute([2, 1, 0, 3]).unwrap();
        assert_eq!((p.shape().size, p.shape().stride), ([2, 3, 4, 1], [12, 4, 1, 24]));
    }
    assert!(matches!(v.try_permute([2, 2, 0, 3]), Err(TensorError::InvalidPermutation)));
    {
        let r = v.try_reshape([6, 4]).unwrap();
        assert_eq!((r.shape().size, r.shape().stride), ([6, 4, 1, 1], [1, 6, 24, 24]));
    }
    {
        let w = v.try_view(4, [5, 2, 2], [None, None, None]).unwrap();
        assert_eq!((w.shape().size, w.shape().stride, w.offset()), ([5, 2, 2, 1], [1, 5, 10, 20], 4));
    }
    assert!(matches!(
        v.try_view(0, [1, 1, 1, 1, 1], [None, None, None, None, None]),
        Err(TensorError::TooManyAxes)
    ));
    assert!(matches!(v.try_reshape([1, 1, 1, 1, 1]), Err(TensorError::TooManyAxes)));
    assert_eq!(v.shape().size, [4, 3, 2, 1]);
}

#[test]
fn reshape_keeps_the_ordering() {
    let t = column_major([6, 4, 1, 1]);
    assert_eq!(parts(t.try_reshape([8, 3])), ([8, 3, 1, 1], [1, 8, 24, 24], 0));
    assert_eq!(parts(t.as_view().try_reshape([8, 3])), ([8, 3, 1, 1], [1, 8, 24, 24], 0));
    assert_eq!(parts(t.as_view().try_reshape([2, 3, 2, 2])), ([2, 3, 2, 2], [1, 2, 6, 12], 0));
    let r = tensor([6, 4, 1, 1], MatrixOrdering::RowMajor);
    assert_eq!(parts(r.try_reshape([8, 3])), ([8, 3, 1, 1], [3, 1, 24, 24], 0));
    assert_eq!(parts(r.as_view().try_reshape([8, 3])), ([8, 3, 1, 1], [3, 1, 24, 24], 0));
    assert_eq!(error(t.try_reshape([5, 5])), TensorError::OutOfBounds);
    assert_eq!(error(t.try_reshape([1, 1, 1, 1, 1])), TensorError::TooManyAxes);
    assert_eq!(error(t.as_view().try_reshape([1, 1, 1, 1, 1])), TensorError::TooManyAxes);
}

#[test]
fn reshape_with_ordering_settles_a_scalar_like_source() {
    let t = column_major([1, 1, 6, 1]);
    assert_eq!(error(t.as_view().try_reshape([2, 3])), TensorError::AmbiguousOrdering);
    assert_eq!(
        parts(t.as_view().try_reshape_with_ordering([2, 3], MatrixOrdering::RowMajor)),
        ([2, 3, 1, 1], [3, 1, 6, 6], 0)
    );
    assert_eq!(
        parts(t.as_view().try_reshape_with_ordering([2, 3], MatrixOrdering::ColumnMajor)),
        ([2, 3, 1, 1], [1, 2, 6, 6], 0)
    );
    // The tensor knows its ordering.
    assert_eq!(parts(t.try_reshape([2, 3])), ([2, 3, 1, 1], [1, 2, 6, 6], 0));
    assert_eq!(
        error(t.as_view().try_reshape_with_ordering([65536, 65536], MatrixOrdering::RowMajor)),
        TensorError::Overflow
    );
    assert_eq!(
        error(t.as_view().try_reshape_with_ordering([1, 1, 1, 1, 1], MatrixOrdering::RowMajor)),
        TensorError::TooManyAxes
    );
    assert_eq!(
        error(t.as_view().try_reshape_with_ordering([7], MatrixOrdering::RowMajor)),
        TensorError::OutOfBounds
    );
}

#[test]
fn ggml_requests_trade_rows_and_columns() {
    let t = tensor([4, 6, 1, 1], MatrixOrdering::RowMajor);
    assert_eq!(parts(t.try_reshape_ggml([3, 8])), ([8, 3, 1, 1], [3, 1, 24, 24], 0));
    assert_eq!(parts(t.as_view().try_reshape_ggml([3, 8])), ([8, 3, 1, 1], [3, 1, 24, 24], 0));
    assert_eq!(
        parts(t.as_view().try_reshape_ggml_with_ordering([3, 8, 1], MatrixOrdering::ColumnMajor)),
        ([8, 3, 1, 1], [1, 8, 24, 24], 0)
    );
    assert_eq!(
        parts(t.try_view_ggml(4, [5, 2, 2], [Some(1), None, None])),
        ([2, 5, 2, 1], [5, 1, 10, 20], 4)
    );
    assert_eq!(
        parts(t.as_view().try_view_ggml(0, [3, 8], [None, Some(4)])),
        ([8, 3, 1, 1], [4, 1, 32, 32], 0)
    );
    assert_eq!(error(t.try_reshape_ggml([24])), TensorError::TooFewAxes);
    assert_eq!(error(t.as_view().try_reshape_ggml([24])), TensorError::TooFewAxes);
    assert_eq!(error(t.as_view().try_reshape_ggml::<0>([])), TensorError::TooFewAxes);
    assert_eq!(
        error(t.as_view().try_reshape_ggml_with_ordering([24], MatrixOrdering::RowMajor)),
        TensorError::TooFewAxes
    );
    assert_eq!(error(t.try_view_ggml(0, [24], [None])), TensorError::TooFewAxes);
    assert_eq!(error(t.as_view().try_view_ggml(0, [24], [None])), TensorError::TooFewAxes);
}

#[test]
fn ggml_reshape_reads_a_scalar_like_source_as_row_major() {
    let t = column_major([1, 1, 6, 1]);
    assert_eq!(parts(t.as_view().try_reshape_ggml([3, 2])), ([2, 3, 1, 1], [3, 1, 6, 6], 0));
}

#[test]
fn a_view_request_with_all_strides() {
    let t = column_major([3, 4, 5, 6]);
    let shape = ViewShape { size: [2, 2, 2, 2], stride: [7, 11, 13, 17] };
    let v = t
        .try_view(100, shape.size, [Some(7), Some(11), Some(13), Some(17)])
        .unwrap();
    assert_eq!((v.shape(), v.offset()), (shape, 100));
}
