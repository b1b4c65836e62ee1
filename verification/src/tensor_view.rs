//! Views over the buffer of a tensor.
//!
//! A view borrows the buffer of a tensor and addresses some of its elements
//! through a [`ViewLayout`]. Every operation on a view gives another view of
//! the same buffer.

use vstd::prelude::*;

use crate::error::TensorError;
use crate::layout::ViewLayout;
use crate::shapes::{
    from_ggml_permutation, is_permutation, pad_sizes, pad_strides, padded_sizes, padded_strides,
    product_of, sizes_of, MatrixOrdering, ViewShape, GGML_IDS,
};

verus! {

/// The sequence `s` with its two leading entries exchanged.
pub open spec fn swapped_leading<T>(s: Seq<T>) -> Seq<T>
    recommends
        s.len() >= 2,
{
    s.update(0, s[1]).update(1, s[0])
}

/// The extents `shape` with the two leading ones exchanged.
fn swap_sizes<const DIM2: usize>(shape: [u32; DIM2]) -> (r: [u32; DIM2])
    requires
        DIM2 >= 2,
    ensures
        r@ == swapped_leading(shape@),
{
    let mut r = shape;
    r[0] = shape[1];
    r[1] = shape[0];
    assert(r@ =~= swapped_leading(shape@));
    r
}

/// The strides `stride` with the two leading ones exchanged.
fn swap_strides<const DIM2: usize>(stride: [Option<u32>; DIM2]) -> (r: [Option<u32>; DIM2])
    requires
        DIM2 >= 2,
    ensures
        r@ == swapped_leading(stride@),
{
    let mut r = stride;
    r[0] = stride[1];
    r[1] = stride[0];
    assert(r@ =~= swapped_leading(stride@));
    r
}

/// What a view request of up to four extents asks of a layout.
pub open spec fn spec_view_request(
    layout: ViewLayout,
    offset: u32,
    shape: Seq<u32>,
    stride: Seq<Option<u32>>,
) -> Result<ViewLayout, TensorError> {
    if shape.len() > 4 {
        Err(TensorError::TooManyAxes)
    } else {
        layout.spec_view(offset, padded_sizes(shape), padded_strides(stride))
    }
}

/// What a reshape under a given ordering asks of a layout.
pub open spec fn spec_reshape_request(
    layout: ViewLayout,
    shape: Seq<u32>,
    ordering: MatrixOrdering,
) -> Result<ViewLayout, TensorError> {
    if shape.len() > 4 {
        Err(TensorError::TooManyAxes)
    } else {
        let p = padded_sizes(shape);
        layout.spec_reshape_with_ordering(
            [p[0] as u32, p[1] as u32, p[2] as u32, p[3] as u32],
            ordering)
    }
}

/// What a reshape in GGML axis order asks of a layout: rows and columns trade
/// places, and a layout whose two leading extents are 1 is read as row-major.
pub open spec fn spec_reshape_ggml_request(layout: ViewLayout, shape: Seq<u32>) -> Result<
    ViewLayout,
    TensorError,
> {
    if shape.len() < 2 {
        Err(TensorError::TooFewAxes)
    } else if layout.shape.size[0] == 1 && layout.shape.size[1] == 1 {
        spec_reshape_request(layout, swapped_leading(shape), MatrixOrdering::RowMajor)
    } else {
        spec_view_request(
            layout,
            0,
            swapped_leading(shape),
            Seq::new(shape.len(), |i: int| None::<u32>))
    }
}

/// A shared view over the buffer of a tensor.
pub struct GpuTensorView<'a, B> {
    layout: ViewLayout,
    buffer: &'a B,
}

/// An exclusive view over the buffer of a tensor.
pub struct GpuTensorViewMut<'a, B> {
    layout: ViewLayout,
    buffer: &'a mut B,
}

/// The part of a buffer that a view starts at.
pub struct BufferSlice<'a, B> {
    /// The whole buffer.
    pub buffer: &'a B,
    /// The index of the first element of the slice.
    pub start: usize,
}

impl<'a, B> Clone for GpuTensorView<'a, B> {
    fn clone(&self) -> (r: Self)
        ensures
            r == *self,
    {
        GpuTensorView { layout: self.layout, buffer: self.buffer }
    }
}

impl<'a, B> Copy for GpuTensorView<'a, B> {

}

impl<'a, B> GpuTensorView<'a, B> {
    /// The layout of the view.
    pub closed spec fn spec_layout(&self) -> ViewLayout {
        self.layout
    }

    /// The buffer that the view borrows.
    pub closed spec fn spec_buffer(&self) -> &'a B {
        self.buffer
    }

    /// Whether the view is well formed: its layout is.
    pub open spec fn wf(&self) -> bool {
        self.spec_layout().wf()
    }

    /// The buffer of the view, from the first element of the view on.
    pub open spec fn spec_buffer_slice(&self) -> BufferSlice<'a, B> {
        BufferSlice { buffer: self.spec_buffer(), start: self.spec_layout().offset as usize }
    }

    /// Whether `r` is the answer to a request that asks `wanted` of the
    /// layout of this view: the same refusal, or a view of the same buffer
    /// with the layout that was asked.
    pub open spec fn answers(
        &self,
        r: Result<GpuTensorView<'a, B>, TensorError>,
        wanted: Result<ViewLayout, TensorError>,
    ) -> bool {
        match wanted {
            Ok(layout) => r matches Ok(v) && v.spec_layout() == layout && v.spec_buffer() == self.spec_buffer(),
            Err(e) => r == Err::<GpuTensorView<'a, B>, TensorError>(e),
        }
    }

    /// A view of `buffer` with the layout `layout`.
    pub(crate) fn from_parts(layout: ViewLayout, buffer: &'a B) -> (r: Self)
        ensures
            r.spec_layout() == layout,
            r.spec_buffer() == buffer,
    {
        GpuTensorView { layout, buffer }
    }

    /// A view of the same buffer with the layout that was computed, if one
    /// was.
    fn derive(&self, layout: Result<ViewLayout, TensorError>) -> (r: Result<
        GpuTensorView<'a, B>,
        TensorError,
    >)
        ensures
            self.answers(r, layout),
    {
        match layout {
            Ok(layout) => Ok(GpuTensorView { layout, buffer: self.buffer }),
            Err(e) => Err(e),
        }
    }

    /// The layout of the view.
    pub fn layout(&self) -> (r: ViewLayout)
        ensures
            r == self.spec_layout(),
    {
        self.layout
    }

    /// The ordering of the view, if rows or columns have unit stride.
    pub fn ordering(&self) -> (r: Option<MatrixOrdering>)
        ensures
            r == self.spec_layout().shape.spec_ordering(),
    {
        self.layout.ordering()
    }

    /// The ordering under which the view is packed in memory, if any.
    pub fn is_contiguous(&self) -> (r: Option<MatrixOrdering>)
        ensures
            r == self.spec_layout().shape.spec_is_contiguous(),
    {
        self.layout.is_contiguous()
    }

    /// Whether the view is the whole of its buffer: as many elements, from
    /// the first one on, packed. The ordering it is packed under, if so.
    pub fn is_entire_tensor(&self) -> (r: Option<MatrixOrdering>)
        requires
            self.wf(),
        ensures
            r == self.spec_layout().spec_is_entire_tensor(),
    {
        self.layout.is_entire_tensor()
    }

    /// The shape of the view.
    pub fn shape(&self) -> (r: ViewShape)
        ensures
            r == self.spec_layout().shape,
    {
        self.layout.shape
    }

    /// The index, in the buffer, of the first element of the view.
    pub fn offset(&self) -> (r: u32)
        ensures
            r == self.spec_layout().offset,
    {
        self.layout.offset
    }

    /// The buffer of the view, from the first element of the view on.
    pub fn buffer(&self) -> (r: BufferSlice<'a, B>)
        ensures
            r == self.spec_buffer_slice(),
    {
        BufferSlice { buffer: self.buffer, start: self.layout.offset as usize }
    }

    /// The whole buffer of the view.
    pub fn raw_buffer(&self) -> (r: &'a B)
        ensures
            r == self.spec_buffer(),
    {
        self.buffer
    }

    /// Whether the view has no element.
    pub fn is_empty(&self) -> (r: bool)
        ensures
            r == (self.spec_layout().shape.spec_len() == 0),
    {
        self.layout.is_empty()
    }

    /// The number of elements of the view.
    pub fn len(&self) -> (r: u64)
        requires
            self.wf(),
        ensures
            r == self.spec_layout().shape.spec_len(),
    {
        self.layout.len()
    }

    /// The extent of the view along axis `i`.
    pub fn size(&self, i: usize) -> (r: u32)
        requires
            i < 4,
        ensures
            r == self.spec_layout().shape.size[i as int],
    {
        self.layout.shape.size[i]
    }

    /// The extent of the view along axis `i`, counted in GGML axis order.
    pub fn size_ggml(&self, i: usize) -> (r: u32)
        requires
            i < 4,
        ensures
            r == self.spec_layout().shape.size[GGML_IDS[i as int] as int],
    {
        self.layout.shape.size[GGML_IDS[i]]
    }

    /// The stride of the view along axis `i`.
    pub fn stride(&self, i: usize) -> (r: u32)
        requires
            i < 4,
        ensures
            r == self.spec_layout().shape.stride[i as int],
    {
        self.layout.shape.stride[i]
    }

    /// The stride of the view along axis `i`, counted in GGML axis order.
    pub fn stride_ggml(&self, i: usize) -> (r: u32)
        requires
            i < 4,
        ensures
            r == self.spec_layout().shape.stride[GGML_IDS[i as int] as int],
    {
        self.layout.shape.stride[GGML_IDS[i]]
    }

    /// The view with rows and columns exchanged.
    pub fn transposed(&self) -> (r: Self)
        requires
            self.wf(),
        ensures
            r.wf(),
            r.spec_layout() == self.spec_layout().with_shape(self.spec_layout().shape.spec_transpose()),
            r.spec_buffer() == self.spec_buffer(),
    {
        GpuTensorView { layout: self.layout.transposed(), buffer: self.buffer }
    }

    /// The view with axis `k` moved to `permutations[k]`. Refused unless the
    /// positions are a bijection on the four axes.
    pub fn try_permute(&self, permutations: [usize; 4]) -> (r: Result<Self, TensorError>)
        requires
            self.wf(),
        ensures
            self.answers(r, self.spec_layout().spec_permute(permutations)),
            r matches Ok(v) ==> v.wf(),
    {
        self.derive(self.layout.try_permute(permutations))
    }

    /// The same, with the permutation given in GGML axis order.
    pub fn try_permute_ggml(&self, permutations: [usize; 4]) -> (r: Result<Self, TensorError>)
        requires
            self.wf(),
        ensures
            is_permutation(permutations) ==> self.answers(
                r,
                self.spec_layout().spec_permute(from_ggml_permutation(permutations)),
            ),
            !is_permutation(permutations) ==> r == Err::<Self, TensorError>(
                TensorError::InvalidPermutation,
            ),
            r matches Ok(v) ==> v.wf(),
    {
        self.derive(self.layout.try_permute_ggml(permutations))
    }

    /// A packed view of `shape` under `ordering` over the elements of this
    /// view. This settles the ordering where both leading extents of this
    /// view are 1.
    pub fn try_reshape_with_ordering<const DIM2: usize>(
        &self,
        shape: [u32; DIM2],
        ordering: MatrixOrdering,
    ) -> (r: Result<Self, TensorError>)
        requires
            self.wf(),
        ensures
            self.answers(r, spec_reshape_request(self.spec_layout(), shape@, ordering)),
            r matches Ok(v) ==> v.wf(),
    {
        if DIM2 > 4 {
            return Err(TensorError::TooManyAxes);
        }
        let size = pad_sizes(&shape);
        proof {
            let p = padded_sizes(shape@);
            assert(size =~= [p[0] as u32, p[1] as u32, p[2] as u32, p[3] as u32]);
        }
        self.derive(self.layout.try_reshape_with_ordering(size, ordering))
    }

    /// A view of `shape` over the elements of this view, in the ordering of
    /// this view.
    pub fn try_reshape<const DIM2: usize>(&self, shape: [u32; DIM2]) -> (r: Result<Self, TensorError>)
        requires
            self.wf(),
        ensures
            self.answers(
                r,
                spec_view_request(
                    self.spec_layout(),
                    0,
                    shape@,
                    Seq::new(shape@.len(), |i: int| None::<u32>)),
            ),
            r matches Ok(v) ==> v.wf(),
    {
        if DIM2 > 4 {
            return Err(TensorError::TooManyAxes);
        }
        let stride: [Option<u32>; 4] = [None, None, None, None];
        assert(stride@ =~= padded_strides(Seq::new(shape@.len(), |i: int| None::<u32>)));
        self.derive(self.layout.try_view(0, pad_sizes(&shape), stride))
    }

    /// The same as [`GpuTensorView::reshape`], with the extents given in
    /// GGML axis order. A view whose two leading extents are 1 is read as
    /// row-major.
    pub fn try_reshape_ggml<const DIM2: usize>(&self, shape: [u32; DIM2]) -> (r: Result<
        Self,
        TensorError,
    >)
        requires
            self.wf(),
        ensures
            self.answers(r, spec_reshape_ggml_request(self.spec_layout(), shape@)),
            r matches Ok(v) ==> v.wf(),
    {
        if DIM2 < 2 {
            return Err(TensorError::TooFewAxes);
        }
        let shape = swap_sizes(shape);
        if self.layout.shape.size[0] == 1 && self.layout.shape.size[1] == 1 {
            self.try_reshape_with_ordering(shape, MatrixOrdering::RowMajor)
        } else {
            self.try_reshape(shape)
        }
    }

    /// The same as [`GpuTensorView::reshape_with_ordering`], with the extents
    /// given in GGML axis order.
    pub fn try_reshape_ggml_with_ordering<const DIM2: usize>(
        &self,
        shape: [u32; DIM2],
        ordering: MatrixOrdering,
    ) -> (r: Result<Self, TensorError>)
        requires
            self.wf(),
        ensures
            shape@.len() < 2 ==> r == Err::<Self, TensorError>(TensorError::TooFewAxes),
            shape@.len() >= 2 ==> self.answers(
                r,
                spec_reshape_request(self.spec_layout(), swapped_leading(shape@), ordering),
            ),
            r matches Ok(v) ==> v.wf(),
    {
        if DIM2 < 2 {
            return Err(TensorError::TooFewAxes);
        }
        self.try_reshape_with_ordering(swap_sizes(shape), ordering)
    }

    /// A view of `shape`, with the strides `stride`, that starts `offset`
    /// elements into this view. Extents that are not given are 1; a stride
    /// that is not given is what a packed layout has there.
    ///
    /// Refused when more than four extents are given; when the new view,
    /// with the offset before it, has more elements than this one; when an
    /// offset or a stride does not fit in 32 bits; when this view is not
    /// contiguous; and when both leading extents of this view are 1 and the
    /// strides do not settle the ordering.
    pub fn try_view<const DIM2: usize>(
        &self,
        offset: u32,
        shape: [u32; DIM2],
        stride: [Option<u32>; DIM2],
    ) -> (r: Result<Self, TensorError>)
        requires
            self.wf(),
        ensures
            self.answers(r, spec_view_request(self.spec_layout(), offset, shape@, stride@)),
            r matches Ok(v) ==> v.wf(),
    {
        if DIM2 > 4 {
            return Err(TensorError::TooManyAxes);
        }
        self.derive(self.layout.try_view(offset, pad_sizes(&shape), pad_strides(&stride)))
    }

    /// The same as [`GpuTensorView::view`], with extents and strides given in
    /// GGML axis order.
    pub fn try_view_ggml<const DIM2: usize>(
        &self,
        offset: u32,
        shape: [u32; DIM2],
        stride: [Option<u32>; DIM2],
    ) -> (r: Result<Self, TensorError>)
        requires
            self.wf(),
        ensures
            shape@.len() < 2 ==> r == Err::<Self, TensorError>(TensorError::TooFewAxes),
            shape@.len() >= 2 ==> self.answers(
                r,
                spec_view_request(
                    self.spec_layout(),
                    offset,
                    swapped_leading(shape@),
                    swapped_leading(stride@)),
            ),
            r matches Ok(v) ==> v.wf(),
    {
        if DIM2 < 2 {
            return Err(TensorError::TooFewAxes);
        }
        self.try_view(offset, swap_sizes(shape), swap_strides(stride))
    }

    /// The view of the matrix with index `matrix_id` along the third axis.
    pub fn try_matrix(&self, matrix_id: u32) -> (r: Result<Self, TensorError>)
        requires
            self.wf(),
        ensures
            self.answers(r, self.spec_layout().spec_matrix(matrix_id)),
            r matches Ok(v) ==> v.wf(),
    {
        self.derive(self.layout.try_matrix(matrix_id))
    }

    /// The view of `new_ncols` columns from `first_col` on. Refused when
    /// `first_col + new_ncols` is more than the number of columns.
    pub fn try_columns(&self, first_col: u32, new_ncols: u32) -> (r: Result<Self, TensorError>)
        requires
            self.wf(),
        ensures
            self.answers(r, self.spec_layout().spec_slice(1, first_col, new_ncols)),
            r matches Ok(v) ==> v.wf(),
    {
        self.derive(self.layout.try_slice(1, first_col, new_ncols))
    }

    /// The view of the column `col`.
    pub fn try_column(&self, col: u32) -> (r: Result<Self, TensorError>)
        requires
            self.wf(),
        ensures
            self.answers(r, self.spec_layout().spec_slice(1, col, 1)),
            r matches Ok(v) ==> v.wf(),
    {
        self.try_columns(col, 1)
    }

    /// The view of `new_nrows` rows from `first_row` on. Refused when
    /// `first_row + new_nrows` is more than the number of rows.
    pub fn try_rows(&self, first_row: u32, new_nrows: u32) -> (r: Result<Self, TensorError>)
        requires
            self.wf(),
        ensures
            self.answers(r, self.spec_layout().spec_slice(0, first_row, new_nrows)),
            r matches Ok(v) ==> v.wf(),
    {
        self.derive(self.layout.try_slice(0, first_row, new_nrows))
    }

    /// The view of the row `row`.
    pub fn try_row(&self, row: u32) -> (r: Result<Self, TensorError>)
        requires
            self.wf(),
        ensures
            self.answers(r, self.spec_layout().spec_slice(0, row, 1)),
            r matches Ok(v) ==> v.wf(),
    {
        self.try_rows(row, 1)
    }
}

impl<'a, B> GpuTensorViewMut<'a, B> {
    /// The layout of the view.
    pub closed spec fn spec_layout(&self) -> ViewLayout {
        self.layout
    }

    /// The buffer that the view borrows.
    pub closed spec fn spec_buffer(&self) -> B {
        *self.buffer
    }

    /// The borrow that the view holds: what is written through it is
    /// written to the buffer of the tensor.
    pub closed spec fn spec_borrow(&self) -> &'a mut B {
        self.buffer
    }

    /// Whether the view is well formed: its layout is.
    pub open spec fn wf(&self) -> bool {
        self.spec_layout().wf()
    }

    /// Whether `r` is the answer to a request that asks `wanted` of the
    /// layout of this view: the same refusal, or a view of the same buffer
    /// with the layout that was asked.
    pub open spec fn answers(
        &self,
        r: Result<GpuTensorViewMut<'_, B>, TensorError>,
        wanted: Result<ViewLayout, TensorError>,
    ) -> bool {
        match wanted {
            Ok(layout) => r matches Ok(v) && v.spec_layout() == layout && v.spec_buffer()
                == self.spec_buffer(),
            Err(e) => r matches Err(f) && f == e,
        }
    }

    /// An exclusive view of `buffer` with the layout `layout`.
    pub(crate) fn from_parts(layout: ViewLayout, buffer: &'a mut B) -> (r: Self)
        ensures
            r.spec_layout() == layout,
            r.spec_buffer() == *old(buffer),
            *final(buffer) == *final(r.spec_borrow()),
    {
        GpuTensorViewMut { layout, buffer }
    }

    /// An exclusive view of the same buffer with the layout that was
    /// computed, if one was.
    fn derive(&mut self, layout: Result<ViewLayout, TensorError>) -> (r: Result<
        GpuTensorViewMut<'_, B>,
        TensorError,
    >)
        ensures
            old(self).answers(r, layout),
            final(self).spec_layout() == old(self).spec_layout(),
            r matches Ok(v) ==> final(self).spec_buffer() == *final(v.spec_borrow()),
            r is Err ==> final(self).spec_buffer() == old(self).spec_buffer(),
    {
        match layout {
            Ok(layout) => Ok(GpuTensorViewMut { layout, buffer: self.buffer }),
            Err(e) => Err(e),
        }
    }

    /// A shared view of the same elements.
    pub fn as_ref(&self) -> (r: GpuTensorView<'_, B>)
        ensures
            r.spec_layout() == self.spec_layout(),
            *r.spec_buffer() == self.spec_buffer(),
    {
        GpuTensorView::from_parts(self.layout, &*self.buffer)
    }

    /// The layout of the view.
    pub fn layout(&self) -> (r: ViewLayout)
        ensures
            r == self.spec_layout(),
    {
        self.layout
    }

    /// The ordering under which the view is packed in memory, if any.
    pub fn is_contiguous(&self) -> (r: Option<MatrixOrdering>)
        ensures
            r == self.spec_layout().shape.spec_is_contiguous(),
    {
        self.layout.is_contiguous()
    }

    /// Whether the view is the whole of its buffer: as many elements, from
    /// the first one on, packed. The ordering it is packed under, if so.
    pub fn is_entire_tensor(&self) -> (r: Option<MatrixOrdering>)
        requires
            self.wf(),
        ensures
            r == self.spec_layout().spec_is_entire_tensor(),
    {
        self.layout.is_entire_tensor()
    }

    /// The shape of the view.
    pub fn shape(&self) -> (r: ViewShape)
        ensures
            r == self.spec_layout().shape,
    {
        self.layout.shape
    }

    /// The index, in the buffer, of the first element of the view.
    pub fn offset(&self) -> (r: u32)
        ensures
            r == self.spec_layout().offset,
    {
        self.layout.offset
    }

    /// The whole buffer of the view.
    pub fn raw_buffer(&mut self) -> (r: &mut B)
        ensures
            *r == old(self).spec_buffer(),
            final(self).spec_layout() == old(self).spec_layout(),
            final(self).spec_buffer() == *final(r),
    {
        self.buffer
    }

    /// Whether the view has no element.
    pub fn is_empty(&self) -> (r: bool)
        ensures
            r == (self.spec_layout().shape.spec_len() == 0),
    {
        self.layout.is_empty()
    }

    /// The number of elements of the view.
    pub fn len(&self) -> (r: u64)
        requires
            self.wf(),
        ensures
            r == self.spec_layout().shape.spec_len(),
    {
        self.layout.len()
    }

    /// The view with rows and columns exchanged.
    pub fn transposed(&mut self) -> (r: GpuTensorViewMut<'_, B>)
        requires
            old(self).wf(),
        ensures
            r.wf(),
            r.spec_layout() == old(self).spec_layout().with_shape(
                old(self).spec_layout().shape.spec_transpose(),
            ),
            r.spec_buffer() == old(self).spec_buffer(),
            final(self).spec_layout() == old(self).spec_layout(),
            final(self).spec_buffer() == *final(r.spec_borrow()),
    {
        GpuTensorViewMut { layout: self.layout.transposed(), buffer: self.buffer }
    }

    /// The view with axis `k` moved to `permutations[k]`. Refused unless the
    /// positions are a bijection on the four axes.
    pub fn try_permute(&mut self, permutations: [usize; 4]) -> (r: Result<
        GpuTensorViewMut<'_, B>,
        TensorError,
    >)
        requires
            old(self).wf(),
        ensures
            old(self).answers(r, old(self).spec_layout().spec_permute(permutations)),
            r matches Ok(v) ==> v.wf(),
            final(self).spec_layout() == old(self).spec_layout(),
            r matches Ok(v) ==> final(self).spec_buffer() == *final(v.spec_borrow()),
            r is Err ==> final(self).spec_buffer() == old(self).spec_buffer(),
    {
        let layout = self.layout.try_permute(permutations);
        self.derive(layout)
    }

    /// A view of `shape` over the elements of this view, in the ordering of
    /// this view.
    pub fn try_reshape<const DIM2: usize>(&mut self, shape: [u32; DIM2]) -> (r: Result<
        GpuTensorViewMut<'_, B>,
        TensorError,
    >)
        requires
            old(self).wf(),
        ensures
            old(self).answers(
                r,
                spec_view_request(
                    old(self).spec_layout(),
                    0,
                    shape@,
                    Seq::new(shape@.len(), |i: int| None::<u32>)),
            ),
            r matches Ok(v) ==> v.wf(),
            final(self).spec_layout() == old(self).spec_layout(),
            r matches Ok(v) ==> final(self).spec_buffer() == *final(v.spec_borrow()),
            r is Err ==> final(self).spec_buffer() == old(self).spec_buffer(),
    {
        if DIM2 > 4 {
            return Err(TensorError::TooManyAxes);
        }
        let stride: [Option<u32>; 4] = [None, None, None, None];
        assert(stride@ =~= padded_strides(Seq::new(shape@.len(), |i: int| None::<u32>)));
        let layout = self.layout.try_view(0, pad_sizes(&shape), stride);
        self.derive(layout)
    }

    /// A view of `shape`, with the strides `stride`, that starts `offset`
    /// elements into this view. Extents that are not given are 1; a stride
    /// that is not given is what a packed layout has there.
    ///
    /// Refused as [`GpuTensorView::view`] refuses.
    pub fn try_view<const DIM2: usize>(
        &mut self,
        offset: u32,
        shape: [u32; DIM2],
        stride: [Option<u32>; DIM2],
    ) -> (r: Result<GpuTensorViewMut<'_, B>, TensorError>)
        requires
            old(self).wf(),
        ensures
            old(self).answers(
                r,
                spec_view_request(old(self).spec_layout(), offset, shape@, stride@),
            ),
            r matches Ok(v) ==> v.wf(),
            final(self).spec_layout() == old(self).spec_layout(),
            r matches Ok(v) ==> final(self).spec_buffer() == *final(v.spec_borrow()),
            r is Err ==> final(self).spec_buffer() == old(self).spec_buffer(),
    {
        if DIM2 > 4 {
            return Err(TensorError::TooManyAxes);
        }
        let layout = self.layout.try_view(offset, pad_sizes(&shape), pad_strides(&stride));
        self.derive(layout)
    }

    /// The view of the matrix with index `matrix_id` along the third axis.
    pub fn try_matrix(&mut self, matrix_id: u32) -> (r: Result<GpuTensorViewMut<'_, B>, TensorError>)
        requires
            old(self).wf(),
        ensures
            old(self).answers(r, old(self).spec_layout().spec_matrix(matrix_id)),
            r matches Ok(v) ==> v.wf(),
            final(self).spec_layout() == old(self).spec_layout(),
            r matches Ok(v) ==> final(self).spec_buffer() == *final(v.spec_borrow()),
            r is Err ==> final(self).spec_buffer() == old(self).spec_buffer(),
    {
        let layout = self.layout.try_matrix(matrix_id);
        self.derive(layout)
    }

    /// The view of `new_ncols` columns from `first_col` on. Refused when
    /// `first_col + new_ncols` is more than the number of columns.
    pub fn try_columns(&mut self, first_col: u32, new_ncols: u32) -> (r: Result<
        GpuTensorViewMut<'_, B>,
        TensorError,
    >)
        requires
            old(self).wf(),
        ensures
            old(self).answers(r, old(self).spec_layout().spec_slice(1, first_col, new_ncols)),
            r matches Ok(v) ==> v.wf(),
            final(self).spec_layout() == old(self).spec_layout(),
            r matches Ok(v) ==> final(self).spec_buffer() == *final(v.spec_borrow()),
            r is Err ==> final(self).spec_buffer() == old(self).spec_buffer(),
    {
        let layout = self.layout.try_slice(1, first_col, new_ncols);
        self.derive(layout)
    }

    /// The view of the column `col`.
    pub fn try_column(&mut self, col: u32) -> (r: Result<GpuTensorViewMut<'_, B>, TensorError>)
        requires
            old(self).wf(),
        ensures
            old(self).answers(r, old(self).spec_layout().spec_slice(1, col, 1)),
            r matches Ok(v) ==> v.wf(),
            final(self).spec_layout() == old(self).spec_layout(),
            r matches Ok(v) ==> final(self).spec_buffer() == *final(v.spec_borrow()),
            r is Err ==> final(self).spec_buffer() == old(self).spec_buffer(),
    {
        self.try_columns(col, 1)
    }

    /// The view of `new_nrows` rows from `first_row` on. Refused when
    /// `first_row + new_nrows` is more than the number of rows.
    pub fn try_rows(&mut self, first_row: u32, new_nrows: u32) -> (r: Result<
        GpuTensorViewMut<'_, B>,
        TensorError,
    >)
        requires
            old(self).wf(),
        ensures
            old(self).answers(r, old(self).spec_layout().spec_slice(0, first_row, new_nrows)),
            r matches Ok(v) ==> v.wf(),
            final(self).spec_layout() == old(self).spec_layout(),
            r matches Ok(v) ==> final(self).spec_buffer() == *final(v.spec_borrow()),
            r is Err ==> final(self).spec_buffer() == old(self).spec_buffer(),
    {
        let layout = self.layout.try_slice(0, first_row, new_nrows);
        self.derive(layout)
    }

    /// The view of the row `row`.
    pub fn try_row(&mut self, row: u32) -> (r: Result<GpuTensorViewMut<'_, B>, TensorError>)
        requires
            old(self).wf(),
        ensures
            old(self).answers(r, old(self).spec_layout().spec_slice(0, row, 1)),
            r matches Ok(v) ==> v.wf(),
            final(self).spec_layout() == old(self).spec_layout(),
            r matches Ok(v) ==> final(self).spec_buffer() == *final(v.spec_borrow()),
            r is Err ==> final(self).spec_buffer() == old(self).spec_buffer(),
    {
        self.try_rows(row, 1)
    }
}

impl<'a, B> GpuTensorView<'a, B> {
    /// The view with axis `k` moved to `permutations[k]`. The positions have to
    /// be a bijection on the four axes. [`GpuTensorView::try_permute`] tests all of it.
    pub fn permute(
        &self,
        permutations: [usize; 4],
    ) -> (r: Self)
        requires
            self.wf(),
            is_permutation(permutations),
            self.spec_layout().spec_permute(permutations) is Ok,
        ensures
            self.spec_layout().spec_permute(permutations) == Ok::<ViewLayout, TensorError>(r.spec_layout()),
            r.spec_buffer() == self.spec_buffer(),
            r.wf(),
    {
        self.try_permute(permutations).unwrap()
    }

    /// The same as `permute`, with the permutation given in GGML axis order. [`GpuTensorView::try_permute_ggml`] tests all of it.
    pub fn permute_ggml(
        &self,
        permutations: [usize; 4],
    ) -> (r: Self)
        requires
            self.wf(),
            is_permutation(permutations),
            self.spec_layout().spec_permute(from_ggml_permutation(permutations)) is Ok,
        ensures
            self.spec_layout().spec_permute(from_ggml_permutation(permutations)) == Ok::<ViewLayout, TensorError>(r.spec_layout()),
            r.spec_buffer() == self.spec_buffer(),
            r.wf(),
    {
        self.try_permute_ggml(permutations).unwrap()
    }

    /// A packed view of `shape` under `ordering` over the elements of this
    /// view. This settles the ordering where both leading extents of this
    /// view are 1. At most four extents can be given; the new view must not
    /// have more elements than this one, which has to be contiguous. [`GpuTensorView::try_reshape_with_ordering`] tests all of it.
    pub fn reshape_with_ordering<const DIM2: usize>(
        &self,
        shape: [u32; DIM2],
        ordering: MatrixOrdering,
    ) -> (r: Self)
        requires
            self.wf(),
            DIM2 <= 4,
            spec_reshape_request(self.spec_layout(), shape@, ordering) is Ok,
        ensures
            spec_reshape_request(self.spec_layout(), shape@, ordering) == Ok::<ViewLayout, TensorError>(r.spec_layout()),
            r.spec_buffer() == self.spec_buffer(),
            r.wf(),
    {
        self.try_reshape_with_ordering(shape, ordering).unwrap()
    }

    /// A view of `shape` over the elements of this view, in the ordering of
    /// this view. At most four extents can be given; the new view must not
    /// have more elements than this one, which has to be contiguous, with
    /// leading extents that are not both 1. [`GpuTensorView::try_reshape`] tests all of it.
    pub fn reshape<const DIM2: usize>(
        &self,
        shape: [u32; DIM2],
    ) -> (r: Self)
        requires
            self.wf(),
            DIM2 <= 4,
            spec_view_request(self.spec_layout(), 0, shape@, Seq::new(shape@.len(), |i: int| None::<u32>)) is Ok,
        ensures
            spec_view_request(self.spec_layout(), 0, shape@, Seq::new(shape@.len(), |i: int| None::<u32>)) == Ok::<ViewLayout, TensorError>(r.spec_layout()),
            r.spec_buffer() == self.spec_buffer(),
            r.wf(),
    {
        self.try_reshape(shape).unwrap()
    }

    /// The same as `reshape`, with the extents given in GGML axis order, two
    /// of them at least. A view whose two leading extents are 1 is read as
    /// row-major. [`GpuTensorView::try_reshape_ggml`] tests all of it.
    pub fn reshape_ggml<const DIM2: usize>(
        &self,
        shape: [u32; DIM2],
    ) -> (r: Self)
        requires
            self.wf(),
            2 <= DIM2 <= 4,
            spec_reshape_ggml_request(self.spec_layout(), shape@) is Ok,
        ensures
            spec_reshape_ggml_request(self.spec_layout(), shape@) == Ok::<ViewLayout, TensorError>(r.spec_layout()),
            r.spec_buffer() == self.spec_buffer(),
            r.wf(),
    {
        self.try_reshape_ggml(shape).unwrap()
    }

    /// The same as `reshape_with_ordering`, with the extents given in GGML
    /// axis order, two of them at least. [`GpuTensorView::try_reshape_ggml_with_ordering`] tests all of it.
    pub fn reshape_ggml_with_ordering<const DIM2: usize>(
        &self,
        shape: [u32; DIM2],
        ordering: MatrixOrdering,
    ) -> (r: Self)
        requires
            self.wf(),
            2 <= DIM2 <= 4,
            spec_reshape_request(self.spec_layout(), swapped_leading(shape@), ordering) is Ok,
        ensures
            spec_reshape_request(self.spec_layout(), swapped_leading(shape@), ordering) == Ok::<ViewLayout, TensorError>(r.spec_layout()),
            r.spec_buffer() == self.spec_buffer(),
            r.wf(),
    {
        self.try_reshape_ggml_with_ordering(shape, ordering).unwrap()
    }

    /// A view of `shape`, with the strides `stride`, that starts `offset`
    /// elements into this view. Extents that are not given are 1; a stride
    /// that is not given is what a packed layout has there.
    ///
    /// At most four extents can be given. The new view, with the offset
    /// before it, must not have more elements than this one. This view has to
    /// be contiguous; where both its leading extents are 1 the strides have
    /// to settle the ordering; offsets and strides have to fit in 32 bits. [`GpuTensorView::try_view`] tests all of it.
    pub fn view<const DIM2: usize>(
        &self,
        offset: u32,
        shape: [u32; DIM2],
        stride: [Option<u32>; DIM2],
    ) -> (r: Self)
        requires
            self.wf(),
            DIM2 <= 4,
            product_of(padded_sizes(shape@)) + offset <= self.spec_layout().shape.spec_len(),
            spec_view_request(self.spec_layout(), offset, shape@, stride@) is Ok,
        ensures
            spec_view_request(self.spec_layout(), offset, shape@, stride@) == Ok::<ViewLayout, TensorError>(r.spec_layout()),
            r.spec_buffer() == self.spec_buffer(),
            r.wf(),
    {
        self.try_view(offset, shape, stride).unwrap()
    }

    /// The same as `view`, with extents and strides given in GGML axis order,
    /// two of each at least. [`GpuTensorView::try_view_ggml`] tests all of it.
    pub fn view_ggml<const DIM2: usize>(
        &self,
        offset: u32,
        shape: [u32; DIM2],
        stride: [Option<u32>; DIM2],
    ) -> (r: Self)
        requires
            self.wf(),
            2 <= DIM2 <= 4,
            spec_view_request(self.spec_layout(), offset, swapped_leading(shape@), swapped_leading(stride@)) is Ok,
        ensures
            spec_view_request(self.spec_layout(), offset, swapped_leading(shape@), swapped_leading(stride@)) == Ok::<ViewLayout, TensorError>(r.spec_layout()),
            r.spec_buffer() == self.spec_buffer(),
            r.wf(),
    {
        self.try_view_ggml(offset, shape, stride).unwrap()
    }

    /// The view of the matrix with index `matrix_id` along the third axis,
    /// which has to be there; its offset has to fit in 32 bits. [`GpuTensorView::try_matrix`] tests all of it.
    pub fn matrix(
        &self,
        matrix_id: u32,
    ) -> (r: Self)
        requires
            self.wf(),
            matrix_id < self.spec_layout().shape.size[2],
            self.spec_layout().spec_matrix(matrix_id) is Ok,
        ensures
            self.spec_layout().spec_matrix(matrix_id) == Ok::<ViewLayout, TensorError>(r.spec_layout()),
            r.spec_buffer() == self.spec_buffer(),
            r.wf(),
    {
        self.try_matrix(matrix_id).unwrap()
    }

    /// The view of `new_ncols` columns from `first_col` on, which have to be
    /// columns of this view; its offset has to fit in 32 bits. [`GpuTensorView::try_columns`] tests all of it.
    pub fn columns(
        &self,
        first_col: u32,
        new_ncols: u32,
    ) -> (r: Self)
        requires
            self.wf(),
            first_col + new_ncols <= self.spec_layout().shape.size[1],
            self.spec_layout().spec_slice(1, first_col, new_ncols) is Ok,
        ensures
            self.spec_layout().spec_slice(1, first_col, new_ncols) == Ok::<ViewLayout, TensorError>(r.spec_layout()),
            r.spec_buffer() == self.spec_buffer(),
            r.wf(),
    {
        self.try_columns(first_col, new_ncols).unwrap()
    }

    /// The view of the column `col`, which has to be a column of this view;
    /// its offset has to fit in 32 bits. [`GpuTensorView::try_column`] tests all of it.
    pub fn column(
        &self,
        col: u32,
    ) -> (r: Self)
        requires
            self.wf(),
            col < self.spec_layout().shape.size[1],
            self.spec_layout().spec_slice(1, col, 1) is Ok,
        ensures
            self.spec_layout().spec_slice(1, col, 1) == Ok::<ViewLayout, TensorError>(r.spec_layout()),
            r.spec_buffer() == self.spec_buffer(),
            r.wf(),
    {
        self.try_column(col).unwrap()
    }

    /// The view of `new_nrows` rows from `first_row` on, which have to be rows
    /// of this view; its offset has to fit in 32 bits. [`GpuTensorView::try_rows`] tests all of it.
    pub fn rows(
        &self,
        first_row: u32,
        new_nrows: u32,
    ) -> (r: Self)
        requires
            self.wf(),
            first_row + new_nrows <= self.spec_layout().shape.size[0],
            self.spec_layout().spec_slice(0, first_row, new_nrows) is Ok,
        ensures
            self.spec_layout().spec_slice(0, first_row, new_nrows) == Ok::<ViewLayout, TensorError>(r.spec_layout()),
            r.spec_buffer() == self.spec_buffer(),
            r.wf(),
    {
        self.try_rows(first_row, new_nrows).unwrap()
    }

    /// The view of the row `row`, which has to be a row of this view; its
    /// offset has to fit in 32 bits. [`GpuTensorView::try_row`] tests all of it.
    pub fn row(
        &self,
        row: u32,
    ) -> (r: Self)
        requires
            self.wf(),
            row < self.spec_layout().shape.size[0],
            self.spec_layout().spec_slice(0, row, 1) is Ok,
        ensures
            self.spec_layout().spec_slice(0, row, 1) == Ok::<ViewLayout, TensorError>(r.spec_layout()),
            r.spec_buffer() == self.spec_buffer(),
            r.wf(),
    {
        self.try_row(row).unwrap()
    }
}

impl<'a, B> GpuTensorViewMut<'a, B> {
    /// The view with axis `k` moved to `permutations[k]`. The positions have to
    /// be a bijection on the four axes. [`GpuTensorViewMut::try_permute`] tests all of it.
    pub fn permute(
        &mut self,
        permutations: [usize; 4],
    ) -> (r: GpuTensorViewMut<'_, B>)
        requires
            old(self).wf(),
            is_permutation(permutations),
            old(self).spec_layout().spec_permute(permutations) is Ok,
        ensures
            old(self).spec_layout().spec_permute(permutations) == Ok::<ViewLayout, TensorError>(r.spec_layout()),
            r.spec_buffer() == old(self).spec_buffer(),
            r.wf(),
            final(self).spec_layout() == old(self).spec_layout(),
            final(self).spec_buffer() == *final(r.spec_borrow()),
    {
        self.try_permute(permutations).unwrap()
    }

    /// A view of `shape` over the elements of this view, in the ordering of
    /// this view. At most four extents can be given; the new view must not
    /// have more elements than this one, which has to be contiguous, with
    /// leading extents that are not both 1. [`GpuTensorViewMut::try_reshape`] tests all of it.
    pub fn reshape<const DIM2: usize>(
        &mut self,
        shape: [u32; DIM2],
    ) -> (r: GpuTensorViewMut<'_, B>)
        requires
            old(self).wf(),
            DIM2 <= 4,
            spec_view_request(old(self).spec_layout(), 0, shape@, Seq::new(shape@.len(), |i: int| None::<u32>)) is Ok,
        ensures
            spec_view_request(old(self).spec_layout(), 0, shape@, Seq::new(shape@.len(), |i: int| None::<u32>)) == Ok::<ViewLayout, TensorError>(r.spec_layout()),
            r.spec_buffer() == old(self).spec_buffer(),
            r.wf(),
            final(self).spec_layout() == old(self).spec_layout(),
            final(self).spec_buffer() == *final(r.spec_borrow()),
    {
        self.try_reshape(shape).unwrap()
    }

    /// A view of `shape`, with the strides `stride`, that starts `offset`
    /// elements into this view. Extents that are not given are 1; a stride
    /// that is not given is what a packed layout has there.
    ///
    /// At most four extents can be given. The new view, with the offset
    /// before it, must not have more elements than this one. This view has to
    /// be contiguous; where both its leading extents are 1 the strides have
    /// to settle the ordering; offsets and strides have to fit in 32 bits. [`GpuTensorViewMut::try_view`] tests all of it.
    pub fn view<const DIM2: usize>(
        &mut self,
        offset: u32,
        shape: [u32; DIM2],
        stride: [Option<u32>; DIM2],
    ) -> (r: GpuTensorViewMut<'_, B>)
        requires
            old(self).wf(),
            DIM2 <= 4,
            product_of(padded_sizes(shape@)) + offset <= old(self).spec_layout().shape.spec_len(),
            spec_view_request(old(self).spec_layout(), offset, shape@, stride@) is Ok,
        ensures
            spec_view_request(old(self).spec_layout(), offset, shape@, stride@) == Ok::<ViewLayout, TensorError>(r.spec_layout()),
            r.spec_buffer() == old(self).spec_buffer(),
            r.wf(),
            final(self).spec_layout() == old(self).spec_layout(),
            final(self).spec_buffer() == *final(r.spec_borrow()),
    {
        self.try_view(offset, shape, stride).unwrap()
    }

    /// The view of the matrix with index `matrix_id` along the third axis,
    /// which has to be there; its offset has to fit in 32 bits. [`GpuTensorViewMut::try_matrix`] tests all of it.
    pub fn matrix(
        &mut self,
        matrix_id: u32,
    ) -> (r: GpuTensorViewMut<'_, B>)
        requires
            old(self).wf(),
            matrix_id < old(self).spec_layout().shape.size[2],
            old(self).spec_layout().spec_matrix(matrix_id) is Ok,
        ensures
            old(self).spec_layout().spec_matrix(matrix_id) == Ok::<ViewLayout, TensorError>(r.spec_layout()),
            r.spec_buffer() == old(self).spec_buffer(),
            r.wf(),
            final(self).spec_layout() == old(self).spec_layout(),
            final(self).spec_buffer() == *final(r.spec_borrow()),
    {
        self.try_matrix(matrix_id).unwrap()
    }

    /// The view of `new_ncols` columns from `first_col` on, which have to be
    /// columns of this view; its offset has to fit in 32 bits. [`GpuTensorViewMut::try_columns`] tests all of it.
    pub fn columns(
        &mut self,
        first_col: u32,
        new_ncols: u32,
    ) -> (r: GpuTensorViewMut<'_, B>)
        requires
            old(self).wf(),
            first_col + new_ncols <= old(self).spec_layout().shape.size[1],
            old(self).spec_layout().spec_slice(1, first_col, new_ncols) is Ok,
        ensures
            old(self).spec_layout().spec_slice(1, first_col, new_ncols) == Ok::<ViewLayout, TensorError>(r.spec_layout()),
            r.spec_buffer() == old(self).spec_buffer(),
            r.wf(),
            final(self).spec_layout() == old(self).spec_layout(),
            final(self).spec_buffer() == *final(r.spec_borrow()),
    {
        self.try_columns(first_col, new_ncols).unwrap()
    }

    /// The view of the column `col`, which has to be a column of this view;
    /// its offset has to fit in 32 bits. [`GpuTensorViewMut::try_column`] tests all of it.
    pub fn column(
        &mut self,
        col: u32,
    ) -> (r: GpuTensorViewMut<'_, B>)
        requires
            old(self).wf(),
            col < old(self).spec_layout().shape.size[1],
            old(self).spec_layout().spec_slice(1, col, 1) is Ok,
        ensures
            old(self).spec_layout().spec_slice(1, col, 1) == Ok::<ViewLayout, TensorError>(r.spec_layout()),
            r.spec_buffer() == old(self).spec_buffer(),
            r.wf(),
            final(self).spec_layout() == old(self).spec_layout(),
            final(self).spec_buffer() == *final(r.spec_borrow()),
    {
        self.try_column(col).unwrap()
    }

    /// The view of `new_nrows` rows from `first_row` on, which have to be rows
    /// of this view; its offset has to fit in 32 bits. [`GpuTensorViewMut::try_rows`] tests all of it.
    pub fn rows(
        &mut self,
        first_row: u32,
        new_nrows: u32,
    ) -> (r: GpuTensorViewMut<'_, B>)
        requires
            old(self).wf(),
            first_row + new_nrows <= old(self).spec_layout().shape.size[0],
            old(self).spec_layout().spec_slice(0, first_row, new_nrows) is Ok,
        ensures
            old(self).spec_layout().spec_slice(0, first_row, new_nrows) == Ok::<ViewLayout, TensorError>(r.spec_layout()),
            r.spec_buffer() == old(self).spec_buffer(),
            r.wf(),
            final(self).spec_layout() == old(self).spec_layout(),
            final(self).spec_buffer() == *final(r.spec_borrow()),
    {
        self.try_rows(first_row, new_nrows).unwrap()
    }

    /// The view of the row `row`, which has to be a row of this view; its
    /// offset has to fit in 32 bits. [`GpuTensorViewMut::try_row`] tests all of it.
    pub fn row(
        &mut self,
        row: u32,
    ) -> (r: GpuTensorViewMut<'_, B>)
        requires
            old(self).wf(),
            row < old(self).spec_layout().shape.size[0],
            old(self).spec_layout().spec_slice(0, row, 1) is Ok,
        ensures
            old(self).spec_layout().spec_slice(0, row, 1) == Ok::<ViewLayout, TensorError>(r.spec_layout()),
            r.spec_buffer() == old(self).spec_buffer(),
            r.wf(),
            final(self).spec_layout() == old(self).spec_layout(),
            final(self).spec_buffer() == *final(r.spec_borrow()),
    {
        self.try_row(row).unwrap()
    }
}

impl<'a, B> GpuTensorView<'a, B> {
    /// Whether the view is well formed, as every view is that comes from a
    /// tensor.
    pub fn is_well_formed(&self) -> (r: bool)
        ensures
            r == self.wf(),
    {
        self.layout.is_well_formed()
    }
}

impl<'a, B> GpuTensorViewMut<'a, B> {
    /// Whether the view is well formed, as every view is that comes from a
    /// tensor.
    pub fn is_well_formed(&self) -> (r: bool)
        ensures
            r == self.wf(),
    {
        self.layout.is_well_formed()
    }
}

} // verus!
