//! Where the elements of a view lie in its buffer.
//!
//! A layout is what a view knows besides the buffer itself: its shape, the
//! offset of its first element, and the number of elements of the buffer.
//! Slicing, reshaping and permuting a view only compute a new layout; no
//! element moves.

use vstd::prelude::*;

use crate::error::TensorError;
use crate::shapes::{
    element_count, element_count_at_most, is_permutation, from_ggml_permutation, max_u32,
    product_of, sizes_of, MatrixOrdering, ViewShape,
};

verus! {

/// The layout of a view: shape, offset of the first element, and length of
/// the buffer, the last two counted in elements.
#[derive(Copy, Clone, Debug)]
pub struct ViewLayout {
    /// Extents and strides of the view.
    pub shape: ViewShape,
    /// Index, in the buffer, of the first element of the view.
    pub offset: u32,
    /// Number of elements that the buffer holds.
    pub buffer_len: usize,
}

/// A product of four naturals does not grow when its factors do not.
pub proof fn lemma_product_monotone(a: int, b: int, c: int, d: int, w: int, x: int, y: int, z: int)
    requires
        0 <= w <= a,
        0 <= x <= b,
        0 <= y <= c,
        0 <= z <= d,
    ensures
        0 <= w * x * y * z <= a * b * c * d,
{
    assert(0 <= w * x <= a * b) by (nonlinear_arith)
        requires
            0 <= w <= a,
            0 <= x <= b,
    ;
    let wx = w * x;
    let ab = a * b;
    assert(0 <= wx * y <= ab * c) by (nonlinear_arith)
        requires
            0 <= wx <= ab,
            0 <= y <= c,
    ;
    let wxy = wx * y;
    let abc = ab * c;
    assert(0 <= wxy * z <= abc * d) by (nonlinear_arith)
        requires
            0 <= wxy <= abc,
            0 <= z <= d,
    ;
}

/// Whether a tensor with the extents `size` can be packed with 32-bit
/// strides and a 32-bit element count.
pub open spec fn extents_fit(size: [u32; 4]) -> bool {
    &&& size[0] * size[1] <= max_u32()
    &&& size[0] * size[1] * size[2] <= max_u32()
    &&& size[0] * size[1] * size[2] * size[3] <= max_u32()
}

/// Whether a tensor with the extents `size` can be packed with 32-bit
/// strides and a 32-bit element count.
pub fn check_extents(size: &[u32; 4]) -> (r: bool)
    ensures
        r == extents_fit(*size),
{
    let a: u64 = size[0] as u64;
    let b: u64 = size[1] as u64;
    let c: u64 = size[2] as u64;
    let d: u64 = size[3] as u64;
    assert(a * b <= 0xffff_ffff * 0xffff_ffff) by (nonlinear_arith)
        requires
            a <= 0xffff_ffff,
            b <= 0xffff_ffff,
    ;
    let ab: u64 = a * b;
    if ab > 0xffff_ffff {
        return false;
    }
    assert(ab * c <= 0xffff_ffff * 0xffff_ffff) by (nonlinear_arith)
        requires
            ab <= 0xffff_ffff,
            c <= 0xffff_ffff,
    ;
    let abc: u64 = ab * c;
    if abc > 0xffff_ffff {
        return false;
    }
    assert(abc * d <= 0xffff_ffff * 0xffff_ffff) by (nonlinear_arith)
        requires
            abc <= 0xffff_ffff,
            d <= 0xffff_ffff,
    ;
    abc * d <= 0xffff_ffff
}

/// The extents `size` with `count` in place of the extent along `axis`.
pub open spec fn with_extent(size: [u32; 4], axis: int, count: u32) -> [u32; 4] {
    [
        if axis == 0 {
            count
        } else {
            size[0]
        },
        if axis == 1 {
            count
        } else {
            size[1]
        },
        if axis == 2 {
            count
        } else {
            size[2]
        },
        if axis == 3 {
            count
        } else {
            size[3]
        },
    ]
}

/// The strides of a packed layout of `size` under `ordering`, each one given.
pub open spec fn packed_strides(size: [u32; 4], ordering: MatrixOrdering) -> Seq<Option<u32>> {
    let lead = ordering.unit_axis();
    let plane = (size[0] * size[1]) as u32;
    let cube = (size[0] * size[1] * size[2]) as u32;
    if lead == 0 {
        seq![Some(1u32), Some(size[0]), Some(plane), Some(cube)]
    } else {
        seq![Some(size[1]), Some(1u32), Some(plane), Some(cube)]
    }
}

impl ViewLayout {
    /// Whether the layout is well formed: the number of elements of the view
    /// fits in 32 bits.
    pub open spec fn wf(self) -> bool {
        self.shape.spec_len() <= max_u32()
    }

    /// The layout with another shape over the same buffer, at the same
    /// offset.
    pub open spec fn with_shape(self, shape: ViewShape) -> ViewLayout {
        ViewLayout { shape, ..self }
    }

    /// Whether the view is the whole of its buffer: as many elements, from
    /// the first one on, packed. The ordering it is packed under, if so.
    pub open spec fn spec_is_entire_tensor(self) -> Option<MatrixOrdering> {
        if self.buffer_len == self.shape.spec_len() && self.offset == 0 {
            self.shape.spec_is_contiguous()
        } else {
            None
        }
    }

    /// The layout with axis `k` moved to `p[k]`.
    pub open spec fn spec_permute(self, p: [usize; 4]) -> Result<ViewLayout, TensorError> {
        if is_permutation(p) {
            Ok(self.with_shape(self.shape.spec_permute(p)))
        } else {
            Err(TensorError::InvalidPermutation)
        }
    }

    /// The layout of `count` consecutive indices along `axis`, from `first`
    /// on.
    pub open spec fn spec_slice(self, axis: int, first: u32, count: u32) -> Result<
        ViewLayout,
        TensorError,
    >
        recommends
            0 <= axis < 4,
    {
        if first + count > self.shape.size[axis] {
            Err(TensorError::OutOfBounds)
        } else if self.offset + self.shape.stride[axis] * first > max_u32() {
            Err(TensorError::Overflow)
        } else {
            Ok(
                ViewLayout {
                    shape: ViewShape {
                        size: with_extent(self.shape.size, axis, count),
                        stride: self.shape.stride,
                    },
                    offset: (self.offset + self.shape.stride[axis] * first) as u32,
                    buffer_len: self.buffer_len,
                },
            )
        }
    }

    /// The layout of the matrix with index `matrix_id` along the third axis.
    pub open spec fn spec_matrix(self, matrix_id: u32) -> Result<ViewLayout, TensorError> {
        if matrix_id >= self.shape.size[2] {
            Err(TensorError::OutOfBounds)
        } else if self.offset + self.shape.stride[2] * matrix_id > max_u32() {
            Err(TensorError::Overflow)
        } else {
            Ok(
                ViewLayout {
                    shape: ViewShape {
                        size: with_extent(self.shape.size, 2, 1),
                        stride: self.shape.stride,
                    },
                    offset: (self.offset + self.shape.stride[2] * matrix_id) as u32,
                    buffer_len: self.buffer_len,
                },
            )
        }
    }

    /// The layout of a view of `size`, with the strides `stride`, that starts
    /// `offset` elements into this one. The elements of the new view, and the
    /// offset before them, must not be more than the elements of this view.
    pub open spec fn spec_view(
        self,
        offset: u32,
        size: Seq<int>,
        stride: Seq<Option<u32>>,
    ) -> Result<ViewLayout, TensorError>
        recommends
            size.len() == 4,
            stride.len() == 4,
    {
        if product_of(size) + offset > self.shape.spec_len() {
            Err(TensorError::OutOfBounds)
        } else if self.offset + offset > max_u32() {
            Err(TensorError::Overflow)
        } else {
            match self.shape.spec_view_padded(size, stride) {
                Ok(shape) => Ok(
                    ViewLayout {
                        shape,
                        offset: (self.offset + offset) as u32,
                        buffer_len: self.buffer_len,
                    },
                ),
                Err(e) => Err(e),
            }
        }
    }

    /// The layout of a view of `size`, packed under `ordering`, over the
    /// elements of this one.
    pub open spec fn spec_reshape_with_ordering(
        self,
        size: [u32; 4],
        ordering: MatrixOrdering,
    ) -> Result<ViewLayout, TensorError> {
        if size[0] * size[1] > max_u32() || size[0] * size[1] * size[2] > max_u32() {
            Err(TensorError::Overflow)
        } else {
            self.spec_view(0, sizes_of(size), packed_strides(size, ordering))
        }
    }

    /// The layout of the whole of a buffer of `buffer_len` elements, seen as
    /// a packed tensor of `size` under `ordering`.
    pub fn whole(size: [u32; 4], ordering: MatrixOrdering, buffer_len: usize) -> (r: ViewLayout)
        requires
            extents_fit(size),
        ensures
            r.wf(),
            r.shape == ViewShape::spec_contiguous(size, ordering),
            r.shape.size == size,
            r.shape.is_packed(ordering),
            r.offset == 0,
            r.buffer_len == buffer_len,
    {
        ViewLayout { shape: ViewShape::contiguous(size, ordering), offset: 0, buffer_len }
    }

    /// The ordering seen from the strides of the view.
    pub fn ordering(&self) -> (r: Option<MatrixOrdering>)
        ensures
            r == self.shape.spec_ordering(),
    {
        self.shape.ordering()
    }

    /// The ordering under which the view is packed, if any.
    pub fn is_contiguous(&self) -> (r: Option<MatrixOrdering>)
        ensures
            r == self.shape.spec_is_contiguous(),
    {
        self.shape.is_contiguous()
    }

    /// Whether the view is the whole of its buffer, and if so the ordering
    /// it is packed under.
    pub fn is_entire_tensor(&self) -> (r: Option<MatrixOrdering>)
        requires
            self.wf(),
        ensures
            r == self.spec_is_entire_tensor(),
    {
        if self.buffer_len as u64 == self.len() && self.offset == 0 {
            self.is_contiguous()
        } else {
            None
        }
    }

    /// The number of elements of the view.
    pub fn len(&self) -> (r: u64)
        requires
            self.wf(),
        ensures
            r == self.shape.spec_len(),
    {
        self.shape.len()
    }

    /// Whether the view has no element.
    pub fn is_empty(&self) -> (r: bool)
        ensures
            r == (self.shape.spec_len() == 0),
    {
        self.shape.is_empty()
    }

    /// The layout with rows and columns exchanged.
    pub fn transposed(&self) -> (r: ViewLayout)
        requires
            self.wf(),
        ensures
            r.wf(),
            r == self.with_shape(self.shape.spec_transpose()),
    {
        let r = ViewLayout {
            shape: self.shape.transpose(),
            offset: self.offset,
            buffer_len: self.buffer_len,
        };
        proof {
            let a = self.shape.size[0] as int;
            let b = self.shape.size[1] as int;
            let c = self.shape.size[2] as int;
            let d = self.shape.size[3] as int;
            assert(b * a * c * d == a * b * c * d) by (nonlinear_arith);
        }
        r
    }

    /// The layout with axis `k` moved to `permutations[k]`.
    pub fn try_permute(&self, permutations: [usize; 4]) -> (r: Result<ViewLayout, TensorError>)
        requires
            self.wf(),
        ensures
            r == self.spec_permute(permutations),
            r matches Ok(l) ==> l.wf(),
    {
        match self.shape.try_permute(permutations) {
            Ok(shape) => {
                proof {
                    crate::shape_laws::lemma_permute_keeps_len(self.shape, permutations);
                }
                Ok(ViewLayout { shape, offset: self.offset, buffer_len: self.buffer_len })
            },
            Err(e) => Err(e),
        }
    }

    /// The same, with the permutation given in GGML axis order.
    pub fn try_permute_ggml(&self, permutations: [usize; 4]) -> (r: Result<ViewLayout, TensorError>)
        requires
            self.wf(),
        ensures
            is_permutation(permutations) ==> r == self.spec_permute(
                from_ggml_permutation(permutations),
            ),
            !is_permutation(permutations) ==> r == Err::<ViewLayout, TensorError>(
                TensorError::InvalidPermutation,
            ),
            r matches Ok(l) ==> l.wf(),
    {
        match self.shape.try_permute_ggml(permutations) {
            Ok(shape) => {
                proof {
                    let mapped = from_ggml_permutation(permutations);
                    assert(is_permutation(mapped));
                    crate::shape_laws::lemma_permute_keeps_len(self.shape, mapped);
                }
                Ok(ViewLayout { shape, offset: self.offset, buffer_len: self.buffer_len })
            },
            Err(e) => Err(e),
        }
    }

    /// The layout of a view of `size`, with the strides `stride`, that starts
    /// `offset` elements into this one.
    ///
    /// Refused with [`TensorError::OutOfBounds`] when the new view, with the
    /// offset before it, has more elements than this one; with
    /// [`TensorError::Overflow`] when an offset or a stride does not fit in
    /// 32 bits; and as [`ViewShape::view_padded`] refuses.
    pub fn try_view(&self, offset: u32, size: [u32; 4], stride: [Option<u32>; 4]) -> (r: Result<
        ViewLayout,
        TensorError,
    >)
        requires
            self.wf(),
        ensures
            r == self.spec_view(offset, sizes_of(size), stride@),
            r matches Ok(l) ==> l.wf(),
    {
        let available: u32 = self.len() as u32;
        let total: u64 = self.offset as u64 + offset as u64;
        if offset > available {
            proof {
                crate::shapes::lemma_product_zero(
                    size[0] as int,
                    size[1] as int,
                    size[2] as int,
                    size[3] as int,
                );
            }
            return Err(TensorError::OutOfBounds);
        }
        if !element_count_at_most(&size, available - offset) {
            return Err(TensorError::OutOfBounds);
        }
        if total > 0xffff_ffff {
            return Err(TensorError::Overflow);
        }
        match self.shape.try_view_padded(size, stride) {
            Ok(shape) => {
                assert(shape.size =~= size);
                Ok(ViewLayout { shape, offset: total as u32, buffer_len: self.buffer_len })
            },
            Err(e) => Err(e),
        }
    }

    /// The layout of a view of `size`, packed under `ordering`, over the
    /// elements of this one.
    pub fn try_reshape_with_ordering(&self, size: [u32; 4], ordering: MatrixOrdering) -> (r: Result<
        ViewLayout,
        TensorError,
    >)
        requires
            self.wf(),
        ensures
            r == self.spec_reshape_with_ordering(size, ordering),
            r matches Ok(l) ==> l.wf() && l.shape.size == size && l.shape.is_packed(ordering),
    {
        let a: u64 = size[0] as u64;
        let b: u64 = size[1] as u64;
        let c: u64 = size[2] as u64;
        assert(a * b <= 0xffff_ffff * 0xffff_ffff) by (nonlinear_arith)
            requires
                a <= 0xffff_ffff,
                b <= 0xffff_ffff,
        ;
        let ab: u64 = a * b;
        if ab > 0xffff_ffff {
            return Err(TensorError::Overflow);
        }
        assert(ab * c <= 0xffff_ffff * 0xffff_ffff) by (nonlinear_arith)
            requires
                ab <= 0xffff_ffff,
                c <= 0xffff_ffff,
        ;
        if ab * c > 0xffff_ffff {
            return Err(TensorError::Overflow);
        }
        let packed = ViewShape::contiguous(size, ordering);
        let stride: [Option<u32>; 4] = [
            Some(packed.stride[0]),
            Some(packed.stride[1]),
            Some(packed.stride[2]),
            Some(packed.stride[3]),
        ];
        assert(stride@ =~= packed_strides(size, ordering));
        let r = self.try_view(0, size, stride);
        proof {
            if r is Ok {
                let l = r->Ok_0;
                assert(l.shape.size =~= size);
                assert(l.shape.stride =~= packed.stride);
            }
        }
        r
    }

    /// The layout of `count` consecutive indices along `axis`, from `first`
    /// on.
    ///
    /// Refused with [`TensorError::OutOfBounds`] when `first + count` is
    /// more than the extent along `axis`, and with [`TensorError::Overflow`]
    /// when the offset of the slice does not fit in 32 bits.
    pub fn try_slice(&self, axis: usize, first: u32, count: u32) -> (r: Result<ViewLayout, TensorError>)
        requires
            self.wf(),
            axis < 4,
        ensures
            r == self.spec_slice(axis as int, first, count),
            r matches Ok(l) ==> l.wf(),
    {
        if first as u64 + count as u64 > self.shape.size[axis] as u64 {
            return Err(TensorError::OutOfBounds);
        }
        let stride = self.shape.stride[axis];
        assert(stride * first <= 0xffff_ffff * 0xffff_ffff) by (nonlinear_arith)
            requires
                stride <= 0xffff_ffff,
                first <= 0xffff_ffff,
        ;
        let offset: u64 = self.offset as u64 + stride as u64 * first as u64;
        if offset > 0xffff_ffff {
            return Err(TensorError::Overflow);
        }
        let mut size = self.shape.size;
        size[axis] = count;
        assert(size =~= with_extent(self.shape.size, axis as int, count));
        proof {
            let s = self.shape.size;
            lemma_product_monotone(
                s[0] as int,
                s[1] as int,
                s[2] as int,
                s[3] as int,
                size[0] as int,
                size[1] as int,
                size[2] as int,
                size[3] as int,
            );
        }
        Ok(
            ViewLayout {
                shape: ViewShape { size, stride: self.shape.stride },
                offset: offset as u32,
                buffer_len: self.buffer_len,
            },
        )
    }

    /// The layout of the matrix with index `matrix_id` along the third axis.
    ///
    /// Refused with [`TensorError::OutOfBounds`] when there is no such
    /// matrix, and with [`TensorError::Overflow`] when its offset does not
    /// fit in 32 bits.
    pub fn try_matrix(&self, matrix_id: u32) -> (r: Result<ViewLayout, TensorError>)
        requires
            self.wf(),
        ensures
            r == self.spec_matrix(matrix_id),
            r matches Ok(l) ==> l.wf(),
    {
        if matrix_id >= self.shape.size[2] {
            return Err(TensorError::OutOfBounds);
        }
        let stride = self.shape.stride[2];
        assert(stride * matrix_id <= 0xffff_ffff * 0xffff_ffff) by (nonlinear_arith)
            requires
                stride <= 0xffff_ffff,
                matrix_id <= 0xffff_ffff,
        ;
        let offset: u64 = self.offset as u64 + stride as u64 * matrix_id as u64;
        if offset > 0xffff_ffff {
            return Err(TensorError::Overflow);
        }
        let mut size = self.shape.size;
        size[2] = 1;
        assert(size =~= with_extent(self.shape.size, 2, 1));
        proof {
            let s = self.shape.size;
            lemma_product_monotone(
                s[0] as int,
                s[1] as int,
                s[2] as int,
                s[3] as int,
                size[0] as int,
                size[1] as int,
                size[2] as int,
                size[3] as int,
            );
        }
        Ok(
            ViewLayout {
                shape: ViewShape { size, stride: self.shape.stride },
                offset: offset as u32,
                buffer_len: self.buffer_len,
            },
        )
    }
}

impl ViewLayout {
    /// The layout with axis `k` moved to `permutations[k]`. The positions
    /// have to be a bijection on the axes, which [`ViewLayout::try_permute`]
    /// tests.
    pub fn permute(&self, permutations: [usize; 4]) -> (r: ViewLayout)
        requires
            self.wf(),
            is_permutation(permutations),
        ensures
            r == self.with_shape(self.shape.spec_permute(permutations)),
            r.wf(),
    {
        self.try_permute(permutations).unwrap()
    }

    /// The same, with the permutation given in GGML axis order.
    pub fn permute_ggml(&self, permutations: [usize; 4]) -> (r: ViewLayout)
        requires
            self.wf(),
            is_permutation(permutations),
        ensures
            r == self.with_shape(self.shape.spec_permute(from_ggml_permutation(permutations))),
            r.wf(),
    {
        self.try_permute_ggml(permutations).unwrap()
    }

    /// The layout of a view of `size`, with the strides `stride`, that starts
    /// `offset` elements into this one.
    ///
    /// The new view, with the offset before it, must not have more elements
    /// than this one; this one has to be contiguous, and its ordering
    /// settled; offsets and strides have to fit in 32 bits.
    /// [`ViewLayout::try_view`] tests all of it.
    pub fn view(&self, offset: u32, size: [u32; 4], stride: [Option<u32>; 4]) -> (r: ViewLayout)
        requires
            self.wf(),
            product_of(sizes_of(size)) + offset <= self.shape.spec_len(),
            self.spec_view(offset, sizes_of(size), stride@) is Ok,
        ensures
            self.spec_view(offset, sizes_of(size), stride@) == Ok::<ViewLayout, TensorError>(r),
            r.wf(),
    {
        self.try_view(offset, size, stride).unwrap()
    }

    /// The layout of a view of `size`, packed under `ordering`, over the
    /// elements of this one, under the conditions of [`ViewLayout::view`],
    /// which [`ViewLayout::try_reshape_with_ordering`] tests.
    pub fn reshape_with_ordering(&self, size: [u32; 4], ordering: MatrixOrdering) -> (r: ViewLayout)
        requires
            self.wf(),
            self.spec_reshape_with_ordering(size, ordering) is Ok,
        ensures
            self.spec_reshape_with_ordering(size, ordering) == Ok::<ViewLayout, TensorError>(r),
            r.wf(),
            r.shape.size == size,
            r.shape.is_packed(ordering),
    {
        self.try_reshape_with_ordering(size, ordering).unwrap()
    }

    /// The layout of `count` consecutive indices along `axis`, from `first`
    /// on. The slice has to end within the extent along `axis`, and its
    /// offset has to fit in 32 bits; [`ViewLayout::try_slice`] tests both.
    pub fn slice(&self, axis: usize, first: u32, count: u32) -> (r: ViewLayout)
        requires
            self.wf(),
            axis < 4,
            first + count <= self.shape.size[axis as int],
            self.offset + self.shape.stride[axis as int] * first <= max_u32(),
        ensures
            self.spec_slice(axis as int, first, count) == Ok::<ViewLayout, TensorError>(r),
            r.wf(),
    {
        self.try_slice(axis, first, count).unwrap()
    }

    /// The layout of the matrix with index `matrix_id` along the third axis.
    /// There has to be such a matrix, and its offset has to fit in 32 bits;
    /// [`ViewLayout::try_matrix`] tests both.
    pub fn matrix(&self, matrix_id: u32) -> (r: ViewLayout)
        requires
            self.wf(),
            matrix_id < self.shape.size[2],
            self.offset + self.shape.stride[2] * matrix_id <= max_u32(),
        ensures
            self.spec_matrix(matrix_id) == Ok::<ViewLayout, TensorError>(r),
            r.wf(),
    {
        self.try_matrix(matrix_id).unwrap()
    }
}

impl ViewLayout {
    /// Whether the layout is well formed: the number of elements of the
    /// view fits in 32 bits.
    pub fn is_well_formed(&self) -> (r: bool)
        ensures
            r == self.wf(),
    {
        element_count_at_most(&self.shape.size, 0xffff_ffff)
    }
}

} // verus!
