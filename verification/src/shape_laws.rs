//! Laws of the shape algebra.

use vstd::prelude::*;

use crate::shapes::{
    is_inverse_permutation, is_permutation, sizes_of, strides_fit, MatrixOrdering, ViewShape,
};

verus! {

/// Transposing twice gives the shape back.
pub proof fn lemma_transpose_transpose(s: ViewShape)
    ensures
        s.spec_transpose().spec_transpose() == s,
{
    let t = s.spec_transpose().spec_transpose();
    assert(t.size =~= s.size);
    assert(t.stride =~= s.stride);
}

/// Transposing is the permutation that exchanges the two leading axes.
pub proof fn lemma_transpose_is_permutation(s: ViewShape, p: [usize; 4])
    requires
        p[0] == 1,
        p[1] == 0,
        p[2] == 2,
        p[3] == 3,
    ensures
        is_permutation(p),
        s.spec_permute(p) == s.spec_transpose(),
{
    assert(s.spec_permute(p).size =~= s.spec_transpose().size);
    assert(s.spec_permute(p).stride =~= s.spec_transpose().stride);
}

/// A permutation followed by its inverse gives the shape back.
pub proof fn lemma_permute_inverse(s: ViewShape, p: [usize; 4], q: [usize; 4])
    requires
        is_inverse_permutation(p, q),
    ensures
        is_permutation(q),
        s.spec_permute(p).spec_permute(q) == s,
{
    let t = s.spec_permute(p).spec_permute(q);
    assert(t.size =~= s.size);
    assert(t.stride =~= s.stride);
}

/// A product of four numbers does not depend on their order.
proof fn lemma_product_order(a: int, b: int, c: int, d: int)
    ensures
        a * b * d * c == a * b * c * d,
        a * c * b * d == a * b * c * d,
        a * c * d * b == a * b * c * d,
        a * d * b * c == a * b * c * d,
        a * d * c * b == a * b * c * d,
        b * a * c * d == a * b * c * d,
        b * a * d * c == a * b * c * d,
        b * c * a * d == a * b * c * d,
        b * c * d * a == a * b * c * d,
        b * d * a * c == a * b * c * d,
        b * d * c * a == a * b * c * d,
        c * a * b * d == a * b * c * d,
        c * a * d * b == a * b * c * d,
        c * b * a * d == a * b * c * d,
        c * b * d * a == a * b * c * d,
        c * d * a * b == a * b * c * d,
        c * d * b * a == a * b * c * d,
        d * a * b * c == a * b * c * d,
        d * a * c * b == a * b * c * d,
        d * b * a * c == a * b * c * d,
        d * b * c * a == a * b * c * d,
        d * c * a * b == a * b * c * d,
        d * c * b * a == a * b * c * d,
{
    assert(a * b * d * c == a * b * c * d) by (nonlinear_arith);
    assert(a * c * b * d == a * b * c * d) by (nonlinear_arith);
    assert(a * c * d * b == a * b * c * d) by (nonlinear_arith);
    assert(a * d * b * c == a * b * c * d) by (nonlinear_arith);
    assert(a * d * c * b == a * b * c * d) by (nonlinear_arith);
    assert(b * a * c * d == a * b * c * d) by (nonlinear_arith);
    assert(b * a * d * c == a * b * c * d) by (nonlinear_arith);
    assert(b * c * a * d == a * b * c * d) by (nonlinear_arith);
    assert(b * c * d * a == a * b * c * d) by (nonlinear_arith);
    assert(b * d * a * c == a * b * c * d) by (nonlinear_arith);
    assert(b * d * c * a == a * b * c * d) by (nonlinear_arith);
    assert(c * a * b * d == a * b * c * d) by (nonlinear_arith);
    assert(c * a * d * b == a * b * c * d) by (nonlinear_arith);
    assert(c * b * a * d == a * b * c * d) by (nonlinear_arith);
    assert(c * b * d * a == a * b * c * d) by (nonlinear_arith);
    assert(c * d * a * b == a * b * c * d) by (nonlinear_arith);
    assert(c * d * b * a == a * b * c * d) by (nonlinear_arith);
    assert(d * a * b * c == a * b * c * d) by (nonlinear_arith);
    assert(d * a * c * b == a * b * c * d) by (nonlinear_arith);
    assert(d * b * a * c == a * b * c * d) by (nonlinear_arith);
    assert(d * b * c * a == a * b * c * d) by (nonlinear_arith);
    assert(d * c * a * b == a * b * c * d) by (nonlinear_arith);
    assert(d * c * b * a == a * b * c * d) by (nonlinear_arith);
}

/// A permutation keeps the number of elements.
pub proof fn lemma_permute_keeps_len(s: ViewShape, p: [usize; 4])
    requires
        is_permutation(p),
    ensures
        s.spec_permute(p).spec_len() == s.spec_len(),
{
    lemma_product_order(s.size[0] as int, s.size[1] as int, s.size[2] as int, s.size[3] as int);
}

/// A shape that is packed under an ordering is found contiguous under it.
/// The one exception is a shape of one row and one column: it is packed
/// under both orderings, and found column-major.
pub proof fn lemma_packed_is_contiguous(s: ViewShape, ordering: MatrixOrdering)
    requires
        s.is_packed(ordering),
        ordering == MatrixOrdering::RowMajor ==> !(s.size[0] == 1 && s.size[1] == 1),
    ensures
        s.spec_is_contiguous() == Some(ordering),
{
}

/// A packed shape is found contiguous, whatever the ordering it was packed
/// under.
pub proof fn lemma_packed_is_found(s: ViewShape, ordering: MatrixOrdering)
    requires
        s.is_packed(ordering),
    ensures
        s.spec_is_contiguous() is Some,
{
}

/// A shape found contiguous under an ordering is packed under it.
pub proof fn lemma_contiguous_is_packed(s: ViewShape)
    ensures
        s.spec_is_contiguous() matches Some(ordering) ==> s.is_packed(ordering),
{
}

/// A shape whose strides are packed under neither ordering is not contiguous.
pub proof fn lemma_unpacked_is_not_contiguous(s: ViewShape)
    requires
        !s.is_packed(MatrixOrdering::ColumnMajor),
        !s.is_packed(MatrixOrdering::RowMajor),
    ensures
        s.spec_is_contiguous() is None,
{
}

/// The transpose of a shape packed under an ordering is packed under the
/// other ordering.
pub proof fn lemma_transpose_packed(s: ViewShape, ordering: MatrixOrdering)
    requires
        s.is_packed(ordering),
    ensures
        s.spec_transpose().is_packed(ordering.spec_transpose()),
{
    let a = s.size[0] as int;
    let b = s.size[1] as int;
    let c = s.size[2] as int;
    assert(b * a == a * b) by (nonlinear_arith);
    assert(b * a * c == a * b * c) by (nonlinear_arith);
}

/// Packing four elements into one divides the extent along the unit-stride
/// axis by four, exactly, and leaves the other extents as they are.
pub proof fn lemma_vec4_extents(s: ViewShape)
    requires
        s.spec_ordering() is Some,
        s.is_vec4_aligned(),
    ensures
        s.spec_f32_to_vec4().size[s.packing_axis()] * 4 == s.size[s.packing_axis()],
        forall|k: int|
            0 <= k < 4 && k != s.packing_axis() ==> s.spec_f32_to_vec4().size[k] == s.size[k],
        s.spec_f32_to_vec4().stride[s.packing_axis()] == 1,
{
}

/// Where the extents of `a` are multiples of those of `b`, `b` covers `a` a
/// whole number of times along each axis: an axis of `a` that has an index
/// is not empty in `b`, each index of `a` wraps to an index of `b`, and the
/// extent of `a` is that of `b` times the number of repetitions.
pub proof fn lemma_multiple_wraps(a: ViewShape, b: ViewShape, axis: int, index: int)
    requires
        a.spec_is_multiple_of(b),
        0 <= axis < 4,
        0 <= index < a.size[axis],
    ensures
        b.size[axis] > 0,
        0 <= index % (b.size[axis] as int) < b.size[axis],
        (a.size[axis] / b.size[axis]) * b.size[axis] == a.size[axis],
{
    let x = a.size[axis] as int;
    let y = b.size[axis] as int;
    assert(crate::shapes::is_multiple(x, y));
    assert((x / y) * y == x) by (nonlinear_arith)
        requires
            y > 0,
            x % y == 0,
    ;
}

/// A view of a contiguous shape that gives no stride is packed under the
/// ordering of that shape, and is found contiguous. Where both leading
/// extents of the shape are 1 the request is refused, as nothing tells its
/// ordering.
pub proof fn lemma_view_is_packed(s: ViewShape, size: [u32; 4], given: Seq<Option<u32>>)
    requires
        s.spec_is_contiguous() is Some,
        !(s.size[0] == 1 && s.size[1] == 1),
        given.len() == 4,
        forall|k: int| 0 <= k < 4 ==> given[k] is None,
        s.spec_view_padded(sizes_of(size), given) is Ok,
    ensures
        s.spec_view_padded(sizes_of(size), given) == Ok::<ViewShape, crate::error::TensorError>(
            ViewShape::spec_contiguous(size, s.spec_is_contiguous()->0),
        ),
        s.spec_view_padded(sizes_of(size), given)->Ok_0.is_packed(s.spec_is_contiguous()->0),
        s.spec_view_padded(sizes_of(size), given)->Ok_0.spec_is_contiguous() is Some,
{
    let ordering = s.spec_is_contiguous()->0;
    let v = s.spec_view_padded(sizes_of(size), given)->Ok_0;
    let strides = crate::shapes::resolved_strides(ordering, sizes_of(size), given);
    assert(strides_fit(strides));
    let a = size[0] as int;
    let b = size[1] as int;
    let c = size[2] as int;
    assert(1 * 1 == 1 && 1 * a == a && 1 * b == b && b * a == a * b) by (nonlinear_arith);
    let w = ViewShape::spec_contiguous(size, ordering);
    assert(v.size =~= w.size);
    assert(v.stride =~= w.stride);
}

} // verus!
