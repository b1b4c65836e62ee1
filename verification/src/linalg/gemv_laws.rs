//! What the kernel of a matrix-vector launch computes, entry by entry.
//!
//! The kernels are taken to do what their names say on the column-major
//! matrices that they find in memory. The laws below hold the launch that
//! the dispatcher decides against the product that the caller asked for.
//! Elements are integers here: the laws rest on nothing but the order of the
//! factors of a product being free.

use vstd::prelude::*;

use crate::linalg::gemv::{
    column_major, in_mode, is_row_major, kernel_m, kernel_m_mode, kernel_v, spec_gemv_plan,
    MatrixMode,
};
use crate::shapes::ViewShape;

verus! {

/// A buffer and the offset of the first element of a view in it.
pub ghost struct Operand {
    /// The elements of the buffer.
    pub buffer: Seq<int>,
    /// The index of the first element of the view.
    pub offset: int,
}

/// The index, in the buffer, of the element at row `i` and column `j` of a
/// view of `shape` that starts at `offset`.
pub open spec fn address(offset: int, shape: ViewShape, i: int, j: int) -> int {
    offset + i * shape.stride[0] + j * shape.stride[1]
}

/// The element at row `i` and column `j` of the matrix that `shape` lays
/// over the operand, read as `mode` says.
pub open spec fn entry(operand: Operand, shape: ViewShape, mode: MatrixMode, i: int, j: int) -> int {
    if mode == MatrixMode::Transposed {
        operand.buffer[address(operand.offset, shape, j, i)]
    } else {
        operand.buffer[address(operand.offset, shape, i, j)]
    }
}

/// The sum of `a(k) * b(k)` over the `n` first indices `k`.
pub open spec fn dot(a: spec_fn(int) -> int, b: spec_fn(int) -> int, n: int) -> int
    decreases n,
{
    if n <= 0 {
        0
    } else {
        dot(a, b, n - 1) + a(n - 1) * b(n - 1)
    }
}

/// The entry at row `i` and column `j` of the product `x * y`, each operand
/// read in its mode, with `inner` terms.
pub open spec fn product_entry(
    x: Operand,
    x_shape: ViewShape,
    x_mode: MatrixMode,
    y: Operand,
    y_shape: ViewShape,
    y_mode: MatrixMode,
    inner: int,
    i: int,
    j: int,
) -> int {
    dot(|k: int| entry(x, x_shape, x_mode, i, k), |k: int| entry(y, y_shape, y_mode, k, j), inner)
}

/// The entry that the caller asks for at row `i` and column `j` of
/// `out = m * v`.
pub open spec fn wanted_entry(
    m: Operand,
    m_shape: ViewShape,
    m_mode: MatrixMode,
    v: Operand,
    v_shape: ViewShape,
    v_mode: MatrixMode,
    i: int,
    j: int,
) -> int {
    product_entry(
        m,
        m_shape,
        m_mode,
        v,
        v_shape,
        v_mode,
        in_mode(m_shape, m_mode).size[1] as int,
        i,
        j,
    )
}

/// The entry that the kernel of the launch writes at row `i` and column `j`
/// of the column-major result: the product of its matrix operand, read in
/// the mode of the kernel, and of its vector operand, read as it is, each
/// as the column-major matrix that lies in its memory.
pub open spec fn kernel_entry(
    out_shape: ViewShape,
    m: Operand,
    m_shape: ViewShape,
    m_mode: MatrixMode,
    v: Operand,
    v_shape: ViewShape,
    v_mode: MatrixMode,
    i: int,
    j: int,
) -> int {
    let swapped = is_row_major(out_shape);
    let cm_v = column_major(kernel_v(out_shape, m_shape, v_shape));
    product_entry(
        if swapped {
            v
        } else {
            m
        },
        column_major(kernel_m(out_shape, m_shape, v_shape)),
        kernel_m_mode(out_shape, m_shape, v_shape, m_mode, v_mode),
        if swapped {
            m
        } else {
            v
        },
        cm_v,
        MatrixMode::Normal,
        cm_v.size[0] as int,
        i,
        j,
    )
}

/// Two sums of products with the same terms are equal.
pub proof fn lemma_dot_same_terms(
    a: spec_fn(int) -> int,
    b: spec_fn(int) -> int,
    c: spec_fn(int) -> int,
    d: spec_fn(int) -> int,
    n: int,
)
    requires
        forall|k: int| 0 <= k < n ==> #[trigger] a(k) * b(k) == c(k) * d(k),
    ensures
        dot(a, b, n) == dot(c, d, n),
    decreases n,
{
    if n > 0 {
        lemma_dot_same_terms(a, b, c, d, n - 1);
        assert(a(n - 1) * b(n - 1) == c(n - 1) * d(n - 1));
    }
}

/// Where a launch is decided for `out = m * v`, the kernel writes the
/// product that was asked for: the entry of the result at row `i` and
/// column `j` is at row `j` and column `i` of the column-major result where
/// the operands trade places, at row `i` and column `j` otherwise; it is at
/// the same place in memory; and the kernel writes there the entry that was
/// asked for.
pub proof fn lemma_gemv_computes_the_product(
    out_offset: int,
    out_shape: ViewShape,
    m: Operand,
    m_shape: ViewShape,
    m_mode: MatrixMode,
    v: Operand,
    v_shape: ViewShape,
    v_mode: MatrixMode,
    i: int,
    j: int,
)
    requires
        spec_gemv_plan(out_shape, m_shape, v_shape, m_mode, v_mode) is Ok,
    ensures
        is_row_major(out_shape) ==> address(out_offset, column_major(out_shape), j, i) == address(
            out_offset,
            out_shape,
            i,
            j,
        ) && kernel_entry(out_shape, m, m_shape, m_mode, v, v_shape, v_mode, j, i) == wanted_entry(
            m,
            m_shape,
            m_mode,
            v,
            v_shape,
            v_mode,
            i,
            j,
        ),
        !is_row_major(out_shape) ==> address(out_offset, column_major(out_shape), i, j) == address(
            out_offset,
            out_shape,
            i,
            j,
        ) && kernel_entry(out_shape, m, m_shape, m_mode, v, v_shape, v_mode, i, j) == wanted_entry(
            m,
            m_shape,
            m_mode,
            v,
            v_shape,
            v_mode,
            i,
            j,
        ),
{
    crate::linalg::gemv::lemma_gemv_kernel_extents(out_shape, m_shape, v_shape, m_mode, v_mode);
    let swapped = is_row_major(out_shape);
    let km_shape = column_major(kernel_m(out_shape, m_shape, v_shape));
    let kv_shape = column_major(kernel_v(out_shape, m_shape, v_shape));
    let km_mode = kernel_m_mode(out_shape, m_shape, v_shape, m_mode, v_mode);
    let inner = in_mode(m_shape, m_mode).size[1] as int;
    assert(kv_shape.size[0] == inner);
    let wa = |k: int| entry(m, m_shape, m_mode, i, k);
    let wb = |k: int| entry(v, v_shape, v_mode, k, j);
    if swapped {
        let ka = |k: int| entry(v, km_shape, km_mode, j, k);
        let kb = |k: int| entry(m, kv_shape, MatrixMode::Normal, k, i);
        assert forall|k: int| 0 <= k < inner implies #[trigger] ka(k) * kb(k) == wa(k) * wb(k) by {
            assert(ka(k) == wb(k));
            assert(kb(k) == wa(k));
            let x = wa(k);
            let y = wb(k);
            assert(y * x == x * y) by (nonlinear_arith);
        }
        lemma_dot_same_terms(ka, kb, wa, wb, inner);
    } else {
        let ka = |k: int| entry(m, km_shape, km_mode, i, k);
        let kb = |k: int| entry(v, kv_shape, MatrixMode::Normal, k, j);
        assert forall|k: int| 0 <= k < inner implies #[trigger] ka(k) * kb(k) == wa(k) * wb(k) by {
            assert(ka(k) == wa(k));
            assert(kb(k) == wb(k));
        }
        lemma_dot_same_terms(ka, kb, wa, wb, inner);
    }
}

} // verus!
