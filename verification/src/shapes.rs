//! Tensor shapes: extents and strides of a view over a device buffer.

use vstd::prelude::*;

use crate::error::TensorError;
pub use crate::shape_cache::{ShapeUpload, ViewShapeBuffers};

verus! {

/// Index remapping between this crate's axis order (rows first) and the
/// GGML axis order (columns first).
pub const GGML_IDS: [usize; 4] = [1, 0, 2, 3];

/// Same as [`GGML_IDS`], as 32-bit values.
pub const GGML_IDS_U32: [u32; 4] = [1, 0, 2, 3];

/// Which of the two leading axes has unit stride.
#[derive(Copy, Clone, PartialEq, Eq, Structural, Debug, Hash)]
pub enum MatrixOrdering {
    /// Consecutive elements of a column are adjacent in memory.
    ColumnMajor,
    /// Consecutive elements of a row are adjacent in memory.
    RowMajor,
}

impl MatrixOrdering {
    /// The ordering of the transposed matrix.
    pub open spec fn spec_transpose(self) -> MatrixOrdering {
        match self {
            MatrixOrdering::ColumnMajor => MatrixOrdering::RowMajor,
            MatrixOrdering::RowMajor => MatrixOrdering::ColumnMajor,
        }
    }

    /// Flips between row-major and column-major.
    #[verifier::when_used_as_spec(spec_transpose)]
    pub fn transpose(self) -> (r: MatrixOrdering)
        ensures
            r == self.spec_transpose(),
    {
        match self {
            MatrixOrdering::ColumnMajor => MatrixOrdering::RowMajor,
            MatrixOrdering::RowMajor => MatrixOrdering::ColumnMajor,
        }
    }

    /// The leading axis that has unit stride under this ordering.
    pub open spec fn unit_axis(self) -> int {
        match self {
            MatrixOrdering::ColumnMajor => 0,
            MatrixOrdering::RowMajor => 1,
        }
    }
}

impl Default for MatrixOrdering {
    fn default() -> (r: MatrixOrdering)
        ensures
            r == MatrixOrdering::ColumnMajor,
    {
        MatrixOrdering::ColumnMajor
    }
}

/// The shape of a view over a tensor: extents and strides along four axes
/// (rows, columns, matrices, cubes), both counted in elements.
#[derive(Copy, Clone, Eq, Debug, Hash)]
pub struct ViewShape {
    /// Number of rows, columns, matrices and cubes.
    pub size: [u32; 4],
    /// Distance, in elements, between consecutive indices along each axis.
    pub stride: [u32; 4],
}

impl PartialEq for ViewShape {
    fn eq(&self, other: &ViewShape) -> (r: bool) {
        let r = self.size[0] == other.size[0] && self.size[1] == other.size[1]
            && self.size[2] == other.size[2] && self.size[3] == other.size[3]
            && self.stride[0] == other.stride[0] && self.stride[1] == other.stride[1]
            && self.stride[2] == other.stride[2] && self.stride[3] == other.stride[3];
        proof {
            if r {
                assert(self.size =~= other.size);
                assert(self.stride =~= other.stride);
            }
        }
        r
    }
}

impl vstd::std_specs::cmp::PartialEqSpecImpl for ViewShape {
    open spec fn obeys_eq_spec() -> bool {
        true
    }

    open spec fn eq_spec(&self, other: &ViewShape) -> bool {
        *self == *other
    }
}

/// The largest value of a 32-bit extent or stride.
pub open spec fn max_u32() -> int {
    0xffff_ffff
}

/// Whether `a` is an integer multiple of `b`, which is not zero.
pub open spec fn is_multiple(a: int, b: int) -> bool {
    b != 0 && a % b == 0
}

/// Whether no extent of the shape is zero.
pub open spec fn has_no_zero_extent(shape: ViewShape) -> bool {
    forall|k: int| 0 <= k < 4 ==> #[trigger] shape.size[k] != 0
}

/// Whether the four indices are a bijection on the axes 0, 1, 2, 3.
pub open spec fn is_permutation(p: [usize; 4]) -> bool {
    &&& p[0] < 4 && p[1] < 4 && p[2] < 4 && p[3] < 4
    &&& p[0] != p[1] && p[0] != p[2] && p[0] != p[3]
    &&& p[1] != p[2] && p[1] != p[3]
    &&& p[2] != p[3]
}

/// The axis that the permutation `p` sends to `axis`.
pub open spec fn source_axis(p: [usize; 4], axis: int) -> int {
    if p[0] == axis {
        0
    } else if p[1] == axis {
        1
    } else if p[2] == axis {
        2
    } else {
        3
    }
}

/// Whether `q` undoes `p`: axis `k` goes to `p[k]`, and `q` brings it back.
pub open spec fn is_inverse_permutation(p: [usize; 4], q: [usize; 4]) -> bool {
    &&& is_permutation(p)
    &&& q[p[0] as int] == 0
    &&& q[p[1] as int] == 1
    &&& q[p[2] as int] == 2
    &&& q[p[3] as int] == 3
}

/// A permutation given in GGML axis order, rewritten in this crate's order:
/// the two leading entries trade places and every index goes through
/// [`GGML_IDS`].
pub open spec fn from_ggml_permutation(p: [usize; 4]) -> [usize; 4] {
    [GGML_IDS[p[1] as int], GGML_IDS[p[0] as int], GGML_IDS[p[2] as int], GGML_IDS[p[3] as int]]
}

/// The four extents of `size`, as integers.
pub open spec fn sizes_of(size: [u32; 4]) -> Seq<int> {
    seq![size[0] as int, size[1] as int, size[2] as int, size[3] as int]
}

/// The number of elements of a tensor with the extents `size`.
pub open spec fn product_of(size: Seq<int>) -> int
    recommends
        size.len() == 4,
{
    size[0] * size[1] * size[2] * size[3]
}

/// The extents of a view request, padded with 1 up to four axes.
pub open spec fn padded_sizes(shape: Seq<u32>) -> Seq<int> {
    Seq::new(
        4,
        |k: int|
            if k < shape.len() {
                shape[k] as int
            } else {
                1
            },
    )
}

/// The strides of a view request, padded with "not given" up to four axes.
pub open spec fn padded_strides(stride: Seq<Option<u32>>) -> Seq<Option<u32>> {
    Seq::new(
        4,
        |k: int|
            if k < stride.len() {
                stride[k]
            } else {
                None
            },
    )
}

/// The stride of an axis: as given, or else what a packed layout has after an
/// axis of `extent` elements at distance `previous`.
pub open spec fn stride_after(given: Option<u32>, previous: int, extent: int) -> int {
    match given {
        Some(s) => s as int,
        None => previous * extent,
    }
}

/// The four strides of a view: each one as given, or else what a packed layout
/// under `ordering` has on top of the strides before it.
pub open spec fn resolved_strides(
    ordering: MatrixOrdering,
    size: Seq<int>,
    given: Seq<Option<u32>>,
) -> Seq<int> {
    let lead = ordering.unit_axis();
    let next = 1 - lead;
    let first = stride_after(given[lead], 1, 1);
    let second = stride_after(given[next], first, size[lead]);
    let third = stride_after(given[2], second, size[next]);
    let fourth = stride_after(given[3], third, size[2]);
    if lead == 0 {
        seq![first, second, third, fourth]
    } else {
        seq![second, first, third, fourth]
    }
}

/// Whether each of the four strides fits in 32 bits.
pub open spec fn strides_fit(strides: Seq<int>) -> bool {
    strides[0] <= max_u32() && strides[1] <= max_u32() && strides[2] <= max_u32() && strides[3]
        <= max_u32()
}

impl ViewShape {
    /// The number of elements that the shape addresses: the product of its
    /// extents.
    pub open spec fn spec_len(self) -> nat {
        (self.size[0] * self.size[1] * self.size[2] * self.size[3]) as nat
    }

    /// Whether the strides are those of a fully packed layout under
    /// `ordering`.
    pub open spec fn is_packed(self, ordering: MatrixOrdering) -> bool {
        &&& self.stride[ordering.unit_axis()] == 1
        &&& self.stride[1 - ordering.unit_axis()] == self.size[ordering.unit_axis()]
        &&& self.stride[2] == self.size[0] * self.size[1]
        &&& self.stride[3] == self.size[0] * self.size[1] * self.size[2]
    }

    /// The ordering seen from the strides: column-major when rows have unit
    /// stride, else row-major when columns have.
    pub open spec fn spec_ordering(self) -> Option<MatrixOrdering> {
        if self.stride[0] == 1 {
            Some(MatrixOrdering::ColumnMajor)
        } else if self.stride[1] == 1 {
            Some(MatrixOrdering::RowMajor)
        } else {
            None
        }
    }

    /// The ordering under which the shape is fully packed, if any. A single
    /// element per matrix is packed under both orderings, and is found
    /// column-major.
    pub open spec fn spec_is_contiguous(self) -> Option<MatrixOrdering> {
        if self.is_packed(MatrixOrdering::ColumnMajor) {
            Some(MatrixOrdering::ColumnMajor)
        } else if self.is_packed(MatrixOrdering::RowMajor) {
            Some(MatrixOrdering::RowMajor)
        } else {
            None
        }
    }

    /// The first axis along which the extent of `self` is no multiple of
    /// that of `of`, if there is one.
    pub open spec fn spec_first_unfit_axis(self, of: ViewShape) -> Option<int> {
        if !is_multiple(self.size[0] as int, of.size[0] as int) {
            Some(0int)
        } else if !is_multiple(self.size[1] as int, of.size[1] as int) {
            Some(1int)
        } else if !is_multiple(self.size[2] as int, of.size[2] as int) {
            Some(2int)
        } else if !is_multiple(self.size[3] as int, of.size[3] as int) {
            Some(3int)
        } else {
            None
        }
    }

    /// The fully packed shape with the extents `size` under `ordering`.
    pub open spec fn spec_contiguous(size: [u32; 4], ordering: MatrixOrdering) -> ViewShape {
        let plane = (size[0] * size[1]) as u32;
        let cube = (size[0] * size[1] * size[2]) as u32;
        ViewShape {
            size,
            stride: match ordering {
                MatrixOrdering::ColumnMajor => [1, size[0], plane, cube],
                MatrixOrdering::RowMajor => [size[1], 1, plane, cube],
            },
        }
    }

    /// The shape with rows and columns exchanged.
    pub open spec fn spec_transpose(self) -> ViewShape {
        ViewShape {
            size: [self.size[1], self.size[0], self.size[2], self.size[3]],
            stride: [self.stride[1], self.stride[0], self.stride[2], self.stride[3]],
        }
    }

    /// The shape whose axis `p[k]` is axis `k` of `self`.
    pub open spec fn spec_permute(self, p: [usize; 4]) -> ViewShape {
        ViewShape {
            size: [
                self.size[source_axis(p, 0)],
                self.size[source_axis(p, 1)],
                self.size[source_axis(p, 2)],
                self.size[source_axis(p, 3)],
            ],
            stride: [
                self.stride[source_axis(p, 0)],
                self.stride[source_axis(p, 1)],
                self.stride[source_axis(p, 2)],
                self.stride[source_axis(p, 3)],
            ],
        }
    }

    /// Whether every extent of `self` is an integer multiple of the same
    /// extent of `of`.
    pub open spec fn spec_is_multiple_of(self, of: ViewShape) -> bool {
        forall|k: int| 0 <= k < 4 ==> is_multiple(self.size[k] as int, #[trigger] of.size[k] as int)
    }

    /// The ordering that a view request on this packed shape follows: the one
    /// the shape is packed under, unless both leading extents are 1 and a
    /// given unit stride names the other one.
    pub open spec fn view_ordering(self, given: Seq<Option<u32>>) -> MatrixOrdering
        recommends
            self.spec_is_contiguous() is Some,
            given.len() == 4,
    {
        if self.size[0] == 1 && self.size[1] == 1 {
            if given[0] == Some(1u32) {
                MatrixOrdering::ColumnMajor
            } else if given[1] == Some(1u32) {
                MatrixOrdering::RowMajor
            } else {
                self.spec_is_contiguous()->0
            }
        } else {
            self.spec_is_contiguous()->0
        }
    }

    /// Whether a view request on this shape leaves rows and columns
    /// undecided: both leading extents are 1, no given stride is 1, and one of
    /// the two leading strides is not given.
    pub open spec fn view_is_ambiguous(self, given: Seq<Option<u32>>) -> bool
        recommends
            given.len() == 4,
    {
        &&& self.size[0] == 1 && self.size[1] == 1
        &&& given[0] != Some(1u32) && given[1] != Some(1u32)
        &&& (given[0] is None || given[1] is None)
    }

    /// What a view request answers once its extents and strides are padded
    /// to four axes: `size` holds the extents, `given` the strides.
    pub open spec fn spec_view_padded(self, size: Seq<int>, given: Seq<Option<u32>>) -> Result<
        ViewShape,
        TensorError,
    >
        recommends
            size.len() == 4,
            given.len() == 4,
    {
        let strides = resolved_strides(self.view_ordering(given), size, given);
        if self.spec_is_contiguous() is None {
            Err(TensorError::NonContiguous)
        } else if self.view_is_ambiguous(given) {
            Err(TensorError::AmbiguousOrdering)
        } else if !strides_fit(strides) {
            Err(TensorError::Overflow)
        } else {
            Ok(
                ViewShape {
                    size: [size[0] as u32, size[1] as u32, size[2] as u32, size[3] as u32],
                    stride: [
                        strides[0] as u32,
                        strides[1] as u32,
                        strides[2] as u32,
                        strides[3] as u32,
                    ],
                },
            )
        }
    }

    /// What [`ViewShape::view`] answers to a request for the extents `shape`
    /// with the strides `stride`.
    pub open spec fn spec_view(self, shape: Seq<u32>, stride: Seq<Option<u32>>) -> Result<
        ViewShape,
        TensorError,
    >
        recommends
            shape.len() == stride.len(),
    {
        if shape.len() > 4 {
            Err(TensorError::TooManyAxes)
        } else {
            self.spec_view_padded(padded_sizes(shape), padded_strides(stride))
        }
    }

    /// The leading axis along which four elements are packed into one: the
    /// rows if they have unit stride, else the columns.
    pub open spec fn packing_axis(self) -> int {
        if self.stride[0] == 1 {
            0
        } else {
            1
        }
    }

    /// Whether the shape can be packed four elements at a time: the extent
    /// along the packing axis is a multiple of 4, and each stride is 1 or a
    /// multiple of 4.
    pub open spec fn is_vec4_aligned(self) -> bool {
        &&& self.size[self.packing_axis()] % 4 == 0
        &&& forall|k: int|
            0 <= k < 4 ==> (#[trigger] self.stride[k] == 1 || self.stride[k] % 4 == 0)
    }

    /// The shape of the same view over elements packed four by four.
    pub open spec fn spec_f32_to_vec4(self) -> ViewShape {
        let axis = self.packing_axis();
        ViewShape {
            size: [
                if axis == 0 {
                    (self.size[0] / 4) as u32
                } else {
                    self.size[0]
                },
                if axis == 1 {
                    (self.size[1] / 4) as u32
                } else {
                    self.size[1]
                },
                self.size[2],
                self.size[3],
            ],
            stride: [
                ((self.stride[0] + 3) / 4) as u32,
                ((self.stride[1] + 3) / 4) as u32,
                ((self.stride[2] + 3) / 4) as u32,
                ((self.stride[3] + 3) / 4) as u32,
            ],
        }
    }

    /// What [`ViewShape::f32_to_vec4`] answers: the packed shape, or why
    /// there is none.
    pub open spec fn spec_try_f32_to_vec4(self) -> Result<ViewShape, TensorError> {
        if self.spec_ordering() is None {
            Err(TensorError::NonContiguous)
        } else if !self.is_vec4_aligned() {
            Err(TensorError::Misaligned)
        } else {
            Ok(self.spec_f32_to_vec4())
        }
    }

    /// The fully packed shape with the extents `size` under `ordering`.
    ///
    /// The strides of the two trailing axes are products of extents; they have
    /// to fit in 32 bits.
    pub fn contiguous(size: [u32; 4], ordering: MatrixOrdering) -> (r: ViewShape)
        requires
            size[0] * size[1] <= u32::MAX,
            size[0] * size[1] * size[2] <= u32::MAX,
        ensures
            r == ViewShape::spec_contiguous(size, ordering),
            r.size == size,
            r.is_packed(ordering),
    {
        let stride = match ordering {
            MatrixOrdering::ColumnMajor => {
                [1, size[0], size[0] * size[1], size[0] * size[1] * size[2]]
            },
            MatrixOrdering::RowMajor => {
                [size[1], 1, size[0] * size[1], size[0] * size[1] * size[2]]
            },
        };
        assert(stride =~= ViewShape::spec_contiguous(size, ordering).stride);
        ViewShape { size, stride }
    }

    /// Exchanges rows and columns.
    pub fn transpose(&self) -> (r: ViewShape)
        ensures
            r == self.spec_transpose(),
    {
        let r = ViewShape {
            size: [self.size[1], self.size[0], self.size[2], self.size[3]],
            stride: [self.stride[1], self.stride[0], self.stride[2], self.stride[3]],
        };
        assert(r.size =~= self.spec_transpose().size);
        assert(r.stride =~= self.spec_transpose().stride);
        r
    }

    /// The transposed shape if `transpose` is set, the shape itself if not.
    pub fn maybe_transpose(&self, transpose: bool) -> (r: ViewShape)
        ensures
            r == if transpose {
                self.spec_transpose()
            } else {
                *self
            },
    {
        if transpose {
            self.transpose()
        } else {
            *self
        }
    }

    /// Permutes the axes, with the permutation given in GGML axis order.
    pub fn try_permute_ggml(&self, permutations: [usize; 4]) -> (r: Result<ViewShape, TensorError>)
        ensures
            is_permutation(permutations) ==> r == Ok::<ViewShape, TensorError>(
                self.spec_permute(from_ggml_permutation(permutations)),
            ),
            !is_permutation(permutations) ==> r == Err::<ViewShape, TensorError>(
                TensorError::InvalidPermutation,
            ),
    {
        if permutations[0] > 3 || permutations[1] > 3 || permutations[2] > 3 || permutations[3]
            > 3 {
            return Err(TensorError::InvalidPermutation);
        }
        let mapped = [
            GGML_IDS[permutations[1]],
            GGML_IDS[permutations[0]],
            GGML_IDS[permutations[2]],
            GGML_IDS[permutations[3]],
        ];
        assert(mapped =~= from_ggml_permutation(permutations));
        assert(is_permutation(mapped) <==> is_permutation(permutations));
        self.try_permute(mapped)
    }

    /// Moves axis `k` to position `permutations[k]`, for each of the four
    /// axes. Refused unless the positions are a bijection on the axes.
    pub fn try_permute(&self, permutations: [usize; 4]) -> (r: Result<ViewShape, TensorError>)
        ensures
            is_permutation(permutations) ==> r == Ok::<ViewShape, TensorError>(
                self.spec_permute(permutations),
            ),
            !is_permutation(permutations) ==> r == Err::<ViewShape, TensorError>(
                TensorError::InvalidPermutation,
            ),
            r matches Ok(s) ==> forall|k: int|
                0 <= k < 4 ==> s.size[permutations[k] as int] == self.size[k]
                    && s.stride[permutations[k] as int] == self.stride[k],
    {
        let p = permutations;
        if p[0] > 3 || p[1] > 3 || p[2] > 3 || p[3] > 3 {
            return Err(TensorError::InvalidPermutation);
        }
        if p[0] == p[1] || p[0] == p[2] || p[0] == p[3] || p[1] == p[2] || p[1] == p[3] || p[2]
            == p[3] {
            return Err(TensorError::InvalidPermutation);
        }
        let mut size: [u32; 4] = [0, 0, 0, 0];
        let mut stride: [u32; 4] = [0, 0, 0, 0];
        size[p[0]] = self.size[0];
        size[p[1]] = self.size[1];
        size[p[2]] = self.size[2];
        size[p[3]] = self.size[3];
        stride[p[0]] = self.stride[0];
        stride[p[1]] = self.stride[1];
        stride[p[2]] = self.stride[2];
        stride[p[3]] = self.stride[3];
        let r = ViewShape { size, stride };
        assert(r.size =~= self.spec_permute(p).size);
        assert(r.stride =~= self.spec_permute(p).stride);
        Ok(r)
    }

    /// Detects the ordering from the strides: whether consecutive elements of
    /// a column, or of a row, are adjacent in memory.
    pub fn ordering(&self) -> (r: Option<MatrixOrdering>)
        ensures
            r == self.spec_ordering(),
    {
        if self.stride[0] == 1 {
            Some(MatrixOrdering::ColumnMajor)
        } else if self.stride[1] == 1 {
            Some(MatrixOrdering::RowMajor)
        } else {
            None
        }
    }

    /// The ordering under which the shape is fully packed in memory, if there
    /// is one.
    pub fn is_contiguous(&self) -> (r: Option<MatrixOrdering>)
        ensures
            r == self.spec_is_contiguous(),
    {
        let nrows: u64 = self.size[0] as u64;
        let ncols: u64 = self.size[1] as u64;
        let nmats: u64 = self.size[2] as u64;
        assert(nrows * ncols <= 0xffff_ffff * 0xffff_ffff) by (nonlinear_arith)
            requires
                nrows <= 0xffff_ffff,
                ncols <= 0xffff_ffff,
        ;
        let plane: u64 = nrows * ncols;
        if self.stride[2] as u64 != plane {
            return None;
        }
        assert(plane * nmats <= 0xffff_ffff * 0xffff_ffff) by (nonlinear_arith)
            requires
                plane <= 0xffff_ffff,
                nmats <= 0xffff_ffff,
        ;
        if self.stride[3] as u64 != plane * nmats {
            return None;
        }
        if self.stride[0] == 1 && self.stride[1] as u64 == nrows {
            Some(MatrixOrdering::ColumnMajor)
        } else if self.stride[1] == 1 && self.stride[0] as u64 == ncols {
            Some(MatrixOrdering::RowMajor)
        } else {
            None
        }
    }

    /// The first axis along which the extent of `self` is no multiple of
    /// that of `of`, if there is one. An extent of `of` that is zero has no
    /// multiple.
    pub fn first_unfit_axis(&self, of: ViewShape) -> (r: Option<usize>)
        ensures
            match r {
                Some(axis) => self.spec_first_unfit_axis(of) == Some(axis as int),
                None => self.spec_first_unfit_axis(of) is None,
            },
            r matches Some(axis) ==> axis < 4,
            r is None <==> self.spec_is_multiple_of(of),
    {
        let mut k: usize = 0;
        while k < 4
            invariant
                k <= 4,
                forall|j: int|
                    0 <= j < k ==> is_multiple(self.size[j] as int, #[trigger] of.size[j] as int),
            decreases 4 - k,
        {
            if of.size[k] == 0 || self.size[k] % of.size[k] != 0 {
                assert(!is_multiple(self.size[k as int] as int, of.size[k as int] as int));
                return Some(k);
            }
            k += 1;
        }
        None
    }

    /// Whether each extent of `self` is an integer multiple of the same
    /// extent of `of`, so that `of` can be repeated to fill `self`. No extent
    /// of `of` may be zero.
    pub fn is_multiple_of(&self, of: ViewShape) -> (r: bool)
        requires
            has_no_zero_extent(of),
        ensures
            r == self.spec_is_multiple_of(of),
            r == (forall|k: int| 0 <= k < 4 ==> self.size[k] as int % #[trigger] of.size[k] as int == 0),
    {
        let mut k: usize = 0;
        while k < 4
            invariant
                k <= 4,
                has_no_zero_extent(of),
                forall|j: int|
                    0 <= j < k ==> self.size[j] as int % #[trigger] of.size[j] as int == 0,
            decreases 4 - k,
        {
            assert(of.size[k as int] != 0);
            if self.size[k] % of.size[k] != 0 {
                assert(!is_multiple(self.size[k as int] as int, of.size[k as int] as int));
                return false;
            }
            k += 1;
        }
        assert forall|j: int| 0 <= j < 4 implies is_multiple(
            self.size[j] as int,
            #[trigger] of.size[j] as int,
        ) by {
            assert(of.size[j] != 0);
        }
        true
    }

    /// Reinterprets this packed shape with new extents, at most four of them;
    /// extents that are not given are 1. A stride that is not given is what a
    /// packed layout has there, under the ordering of this shape.
    ///
    /// Refused when more than four extents are given, when this shape is not
    /// contiguous, when both leading extents of this shape are 1 and the
    /// strides do not settle the ordering, and when a stride does not fit in
    /// 32 bits.
    pub fn try_view<const DIM2: usize>(&self, shape: [u32; DIM2], stride: [Option<u32>; DIM2]) -> (r:
        Result<ViewShape, TensorError>)
        ensures
            r == self.spec_view(shape@, stride@),
    {
        if DIM2 > 4 {
            return Err(TensorError::TooManyAxes);
        }
        self.try_view_padded(pad_sizes(&shape), pad_strides(&stride))
    }

    /// The view request of [`ViewShape::view`] with all four extents and
    /// strides written out.
    pub fn try_view_padded(&self, size: [u32; 4], stride: [Option<u32>; 4]) -> (r: Result<
        ViewShape,
        TensorError,
    >)
        ensures
            r == self.spec_view_padded(sizes_of(size), stride@),
    {
        let mut ordering = match self.is_contiguous() {
            Some(ordering) => ordering,
            None => {
                return Err(TensorError::NonContiguous);
            },
        };
        if self.size[0] == 1 && self.size[1] == 1 {
            if is_some_one(stride[0]) {
                ordering = MatrixOrdering::ColumnMajor;
            } else if is_some_one(stride[1]) {
                ordering = MatrixOrdering::RowMajor;
            } else if stride[0].is_none() || stride[1].is_none() {
                return Err(TensorError::AmbiguousOrdering);
            }
        }
        assert(ordering == self.view_ordering(stride@));
        assert(!self.view_is_ambiguous(stride@));
        match resolve_strides(ordering, size, stride) {
            Some(strides) => {
                let r = ViewShape { size, stride: strides };
                proof {
                    let want = self.spec_view_padded(sizes_of(size), stride@);
                    assert(r.size =~= want->Ok_0.size);
                    assert(r.stride =~= want->Ok_0.stride);
                }
                Ok(r)
            },
            None => Err(TensorError::Overflow),
        }
    }

    /// The shape of the same view when its buffer is read four elements at a
    /// time along the unit-stride axis.
    ///
    /// Refused with [`TensorError::NonContiguous`] when neither rows nor
    /// columns have unit stride, and with [`TensorError::Misaligned`] when the
    /// extent along the unit-stride axis is not a multiple of 4 or a stride is
    /// neither 1 nor a multiple of 4.
    pub fn try_f32_to_vec4(self) -> (r: Result<ViewShape, TensorError>)
        ensures
            r == self.spec_try_f32_to_vec4(),
            r matches Ok(s) ==> s.size[self.packing_axis()] * 4 == self.size[self.packing_axis()],
    {
        let dim: usize = if self.stride[0] == 1 {
            0
        } else if self.stride[1] == 1 {
            1
        } else {
            return Err(TensorError::NonContiguous);
        };
        if self.size[dim] % 4 != 0 {
            return Err(TensorError::Misaligned);
        }
        let mut new_stride: [u32; 4] = [0, 0, 0, 0];
        let mut k: usize = 0;
        while k < 4
            invariant
                k <= 4,
                self.spec_ordering() is Some,
                forall|j: int|
                    0 <= j < k ==> (#[trigger] self.stride[j] == 1 || self.stride[j] % 4 == 0),
                forall|j: int| 0 <= j < k ==> new_stride[j] == (self.stride[j] + 3) / 4,
            decreases 4 - k,
        {
            let s = self.stride[k];
            if !(s == 1 || s % 4 == 0) {
                return Err(TensorError::Misaligned);
            }
            new_stride[k] = if s == 1 {
                1
            } else {
                s / 4
            };
            k += 1;
        }
        let mut new_size = self.size;
        new_size[dim] = self.size[dim] / 4;
        let r = ViewShape { size: new_size, stride: new_stride };
        assert(r.size =~= self.spec_f32_to_vec4().size);
        assert(r.stride =~= self.spec_f32_to_vec4().stride);
        Ok(r)
    }

    /// Whether the shape addresses no element.
    pub fn is_empty(&self) -> (r: bool)
        ensures
            r == (self.spec_len() == 0),
    {
        let r = self.size[0] == 0 || self.size[1] == 0 || self.size[2] == 0 || self.size[3] == 0;
        proof {
            lemma_product_zero(
                self.size[0] as int,
                self.size[1] as int,
                self.size[2] as int,
                self.size[3] as int,
            );
        }
        r
    }

    /// The number of elements of the shape: the product of its extents, which
    /// has to fit in 64 bits.
    pub fn len(&self) -> (r: u64)
        requires
            self.spec_len() <= u64::MAX,
        ensures
            r == self.spec_len(),
    {
        element_count(&self.size)
    }
}

/// The extents `shape`, padded with 1 up to four axes.
pub fn pad_sizes<const DIM2: usize>(shape: &[u32; DIM2]) -> (r: [u32; 4])
    requires
        DIM2 <= 4,
    ensures
        sizes_of(r) == padded_sizes(shape@),
{
    let mut size: [u32; 4] = [1, 1, 1, 1];
    if DIM2 > 0 {
        size[0] = shape[0];
    }
    if DIM2 > 1 {
        size[1] = shape[1];
    }
    if DIM2 > 2 {
        size[2] = shape[2];
    }
    if DIM2 > 3 {
        size[3] = shape[3];
    }
    assert(sizes_of(size) =~= padded_sizes(shape@));
    size
}

/// The strides `stride`, padded with "not given" up to four axes.
pub fn pad_strides<const DIM2: usize>(stride: &[Option<u32>; DIM2]) -> (r: [Option<u32>; 4])
    requires
        DIM2 <= 4,
    ensures
        r@ == padded_strides(stride@),
{
    let mut strd: [Option<u32>; 4] = [None, None, None, None];
    if DIM2 > 0 {
        strd[0] = stride[0];
    }
    if DIM2 > 1 {
        strd[1] = stride[1];
    }
    if DIM2 > 2 {
        strd[2] = stride[2];
    }
    if DIM2 > 3 {
        strd[3] = stride[3];
    }
    assert(strd@ =~= padded_strides(stride@));
    strd
}

/// The number of elements of a tensor with the extents `size`: their product,
/// which has to fit in 64 bits.
pub fn element_count(size: &[u32; 4]) -> (r: u64)
    requires
        product_of(sizes_of(*size)) <= u64::MAX,
    ensures
        r == product_of(sizes_of(*size)),
{
    let a: u64 = size[0] as u64;
    let b: u64 = size[1] as u64;
    let c: u64 = size[2] as u64;
    let d: u64 = size[3] as u64;
    proof {
        lemma_product_zero(a as int, b as int, c as int, d as int);
    }
    if a == 0 || b == 0 || c == 0 || d == 0 {
        return 0;
    }
    proof {
        lemma_product_grows(a as int, b as int, c as int, d as int);
    }
    a * b * c * d
}

/// Whether the number of elements of a tensor with the extents `size` is at
/// most `bound`.
pub fn element_count_at_most(size: &[u32; 4], bound: u32) -> (r: bool)
    ensures
        r == (product_of(sizes_of(*size)) <= bound),
{
    let a: u64 = size[0] as u64;
    let b: u64 = size[1] as u64;
    let c: u64 = size[2] as u64;
    let d: u64 = size[3] as u64;
    proof {
        lemma_product_zero(a as int, b as int, c as int, d as int);
    }
    if a == 0 || b == 0 || c == 0 || d == 0 {
        return true;
    }
    proof {
        lemma_product_grows(a as int, b as int, c as int, d as int);
    }
    assert(a * b <= 0xffff_ffff * 0xffff_ffff) by (nonlinear_arith)
        requires
            a <= 0xffff_ffff,
            b <= 0xffff_ffff,
    ;
    let ab: u64 = a * b;
    if ab > bound as u64 {
        return false;
    }
    assert(ab * c <= 0xffff_ffff * 0xffff_ffff) by (nonlinear_arith)
        requires
            ab <= 0xffff_ffff,
            c <= 0xffff_ffff,
    ;
    let abc: u64 = ab * c;
    if abc > bound as u64 {
        return false;
    }
    assert(abc * d <= 0xffff_ffff * 0xffff_ffff) by (nonlinear_arith)
        requires
            abc <= 0xffff_ffff,
            d <= 0xffff_ffff,
    ;
    abc * d <= bound as u64
}

/// Whether a stride is given and is 1.
fn is_some_one(stride: Option<u32>) -> (r: bool)
    ensures
        r == (stride == Some(1u32)),
{
    match stride {
        Some(s) => s == 1,
        None => false,
    }
}

/// The stride of an axis, as given or as a packed layout has it, if it fits in
/// 32 bits.
fn pick_stride(given: Option<u32>, previous: u32, extent: u32) -> (r: Option<u32>)
    ensures
        stride_after(given, previous as int, extent as int) <= max_u32() ==> r == Some(
            stride_after(given, previous as int, extent as int) as u32,
        ),
        stride_after(given, previous as int, extent as int) > max_u32() ==> r is None,
{
    match given {
        Some(s) => Some(s),
        None => {
            assert(previous * extent <= 0xffff_ffff * 0xffff_ffff) by (nonlinear_arith)
                requires
                    previous <= 0xffff_ffff,
                    extent <= 0xffff_ffff,
            ;
            let wide: u64 = previous as u64 * extent as u64;
            if wide > 0xffff_ffff {
                None
            } else {
                Some(wide as u32)
            }
        },
    }
}

/// The four strides of a view under `ordering`, if each fits in 32 bits.
fn resolve_strides(ordering: MatrixOrdering, size: [u32; 4], given: [Option<u32>; 4]) -> (r:
    Option<[u32; 4]>)
    ensures
        match r {
            Some(strides) => {
                let wanted = resolved_strides(ordering, sizes_of(size), given@);
                &&& strides_fit(wanted)
                &&& strides[0] == wanted[0]
                &&& strides[1] == wanted[1]
                &&& strides[2] == wanted[2]
                &&& strides[3] == wanted[3]
            },
            None => !strides_fit(resolved_strides(ordering, sizes_of(size), given@)),
        },
{
    let (lead, next): (usize, usize) = match ordering {
        MatrixOrdering::ColumnMajor => (0, 1),
        MatrixOrdering::RowMajor => (1, 0),
    };
    let first = match pick_stride(given[lead], 1, 1) {
        Some(s) => s,
        None => {
            return None;
        },
    };
    let second = match pick_stride(given[next], first, size[lead]) {
        Some(s) => s,
        None => {
            return None;
        },
    };
    let third = match pick_stride(given[2], second, size[next]) {
        Some(s) => s,
        None => {
            return None;
        },
    };
    let fourth = match pick_stride(given[3], third, size[2]) {
        Some(s) => s,
        None => {
            return None;
        },
    };
    match ordering {
        MatrixOrdering::ColumnMajor => Some([first, second, third, fourth]),
        MatrixOrdering::RowMajor => Some([second, first, third, fourth]),
    }
}

/// A product of four naturals is zero exactly when one of them is.
pub proof fn lemma_product_zero(a: int, b: int, c: int, d: int)
    requires
        0 <= a,
        0 <= b,
        0 <= c,
        0 <= d,
    ensures
        (a * b * c * d == 0) <==> (a == 0 || b == 0 || c == 0 || d == 0),
        0 <= a * b * c * d,
{
    assert((a * b * c * d == 0) <==> (a == 0 || b == 0 || c == 0 || d == 0)) by (nonlinear_arith)
        requires
            0 <= a,
            0 <= b,
            0 <= c,
            0 <= d,
    ;
    assert(0 <= a * b * c * d) by (nonlinear_arith)
        requires
            0 <= a,
            0 <= b,
            0 <= c,
            0 <= d,
    ;
}

/// The partial products of four positive numbers do not exceed the whole.
pub proof fn lemma_product_grows(a: int, b: int, c: int, d: int)
    requires
        1 <= a,
        1 <= b,
        1 <= c,
        1 <= d,
    ensures
        a * b <= a * b * c,
        a * b * c <= a * b * c * d,
{
    assert(a * b <= a * b * c) by (nonlinear_arith)
        requires
            1 <= a,
            1 <= b,
            1 <= c,
    ;
    assert(a * b * c <= a * b * c * d) by (nonlinear_arith)
        requires
            1 <= a,
            1 <= b,
            1 <= c,
            1 <= d,
    ;
}

impl ViewShape {
    /// Moves axis `k` to position `permutations[k]`, for each of the four
    /// axes. The positions have to be a bijection on the axes, which
    /// [`ViewShape::try_permute`] tests.
    pub fn permute(&self, permutations: [usize; 4]) -> (r: ViewShape)
        requires
            is_permutation(permutations),
        ensures
            r == self.spec_permute(permutations),
            forall|k: int|
                0 <= k < 4 ==> r.size[permutations[k] as int] == self.size[k]
                    && r.stride[permutations[k] as int] == self.stride[k],
    {
        self.try_permute(permutations).unwrap()
    }

    /// Permutes the axes, with the permutation given in GGML axis order. The
    /// positions have to be a bijection on the axes, which
    /// [`ViewShape::try_permute_ggml`] tests.
    pub fn permute_ggml(&self, permutations: [usize; 4]) -> (r: ViewShape)
        requires
            is_permutation(permutations),
        ensures
            r == self.spec_permute(from_ggml_permutation(permutations)),
    {
        self.try_permute_ggml(permutations).unwrap()
    }

    /// Reinterprets this packed shape with new extents, at most four of them;
    /// extents that are not given are 1. A stride that is not given is what a
    /// packed layout has there, under the ordering of this shape.
    ///
    /// This shape has to be contiguous; where both its leading extents are 1
    /// the strides have to settle the ordering; and each stride has to fit
    /// in 32 bits. [`ViewShape::try_view`] tests all of it.
    pub fn view<const DIM2: usize>(&self, shape: [u32; DIM2], stride: [Option<u32>; DIM2]) -> (r:
        ViewShape)
        requires
            DIM2 <= 4,
            self.spec_is_contiguous() is Some,
            !self.view_is_ambiguous(padded_strides(stride@)),
            self.spec_view(shape@, stride@) is Ok,
        ensures
            self.spec_view(shape@, stride@) == Ok::<ViewShape, TensorError>(r),
    {
        self.try_view(shape, stride).unwrap()
    }

    /// The view request of [`ViewShape::view`] with all four extents and
    /// strides written out, under the same conditions, which
    /// [`ViewShape::try_view_padded`] tests.
    pub fn view_padded(&self, size: [u32; 4], stride: [Option<u32>; 4]) -> (r: ViewShape)
        requires
            self.spec_is_contiguous() is Some,
            !self.view_is_ambiguous(stride@),
            self.spec_view_padded(sizes_of(size), stride@) is Ok,
        ensures
            self.spec_view_padded(sizes_of(size), stride@) == Ok::<ViewShape, TensorError>(r),
    {
        self.try_view_padded(size, stride).unwrap()
    }

    /// The shape of the same view when its buffer is read four elements at a
    /// time along the unit-stride axis.
    ///
    /// Rows or columns have to have unit stride, the extent along that axis
    /// has to be a multiple of 4, and each stride has to be 1 or a multiple
    /// of 4. [`ViewShape::try_f32_to_vec4`] tests all of it.
    pub fn f32_to_vec4(self) -> (r: ViewShape)
        requires
            self.spec_ordering() is Some,
            self.is_vec4_aligned(),
        ensures
            r == self.spec_f32_to_vec4(),
            r.size[self.packing_axis()] * 4 == self.size[self.packing_axis()],
    {
        self.try_f32_to_vec4().unwrap()
    }
}

} // verus!
