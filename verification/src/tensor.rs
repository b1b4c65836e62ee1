//! Tensors that own a device buffer, and how they are built.
//!
//! The library never talks to the device. Where a buffer has to be
//! allocated, the caller provides the allocation as a function from a
//! [`BufferRequest`] to a buffer or a device error; it is called only once
//! the request has passed every check.

use vstd::pervasive::unreached;
use vstd::prelude::*;

use crate::error::TensorError;
use crate::layout::{check_extents, extents_fit, ViewLayout};
use crate::shapes::{
    padded_sizes,
    element_count, from_ggml_permutation, is_permutation, product_of, sizes_of, MatrixOrdering,
    ViewShape, GGML_IDS,
};
pub use crate::tensor_resize::{AppendPlan, RangeBound, RemovePlan, Shift};
use crate::tensor_view::{spec_reshape_request, spec_view_request, swapped_leading};
pub use crate::tensor_view::{BufferSlice, GpuTensorView, GpuTensorViewMut};
use crate::usage::BufferUsages;

verus! {

/// How the elements lie in a device buffer.
#[derive(Copy, Clone, PartialEq, Eq, Structural, Debug, Hash)]
pub enum ElementEncoding {
    /// As in host memory, one after the other.
    Plain,
    /// Padded and aligned as the layout rules of the device ask.
    Encased,
}

/// A buffer that the device is asked to allocate.
#[derive(Copy, Clone, PartialEq, Eq, Structural, Debug, Hash)]
pub struct BufferRequest {
    /// The number of elements of the buffer.
    pub len: usize,
    /// What the buffer will be used for.
    pub usage: BufferUsages,
    /// How its elements are laid out.
    pub encoding: ElementEncoding,
    /// Whether the buffer is filled from host data when it is allocated. A
    /// buffer that is not must be written before it is read.
    pub initialized: bool,
}

/// Why no buffer came out of a request.
#[derive(Debug)]
pub enum AllocError<E> {
    /// The request was refused before the device was asked.
    Refused(TensorError),
    /// The device was asked and failed.
    Device(E),
}

/// A copy between two buffers that the device is asked to queue, in elements.
#[derive(Copy, Clone, PartialEq, Eq, Structural, Debug, Hash)]
pub struct BufferCopy {
    /// The index of the first element read in the source.
    pub source_offset: usize,
    /// The index of the first element written in the target.
    pub target_offset: usize,
    /// The number of elements copied.
    pub len: usize,
}

/// The buffer to allocate for a tensor of `shape`: as many elements as the
/// host provides, where it provides some, else as many as the tensor has.
pub open spec fn build_request(
    shape: [u32; 4],
    usage: BufferUsages,
    encoding: ElementEncoding,
    data_len: Option<usize>,
) -> BufferRequest {
    BufferRequest {
        len: match data_len {
            Some(n) => n,
            None => product_of(sizes_of(shape)) as usize,
        },
        usage,
        encoding,
        initialized: data_len is Some,
    }
}

/// Why a tensor of `shape` cannot be built, if it cannot: its strides or its
/// element count do not fit in 32 bits, or the host provides too few
/// elements.
pub open spec fn build_refusal(shape: [u32; 4], data_len: Option<usize>) -> Option<TensorError> {
    if !extents_fit(shape) {
        Some(TensorError::Overflow)
    } else if data_len matches Some(n) && n < product_of(sizes_of(shape)) {
        Some(TensorError::NotEnoughData)
    } else {
        None
    }
}

/// Whether `r` is what building a tensor gives: the refusal, if there is
/// one; else the device error, if the allocation `alloc` failed on the
/// request; else a tensor that owns the buffer that `alloc` returned for it.
pub open spec fn built<B, E, F: FnOnce(BufferRequest) -> Result<B, E>>(
    shape: [u32; 4],
    ordering: MatrixOrdering,
    usage: BufferUsages,
    encoding: ElementEncoding,
    data_len: Option<usize>,
    alloc: F,
    r: Result<GpuTensor<B>, AllocError<E>>,
) -> bool {
    let request = build_request(shape, usage, encoding, data_len);
    match build_refusal(shape, data_len) {
        Some(e) => r matches Err(AllocError::Refused(f)) && f == e,
        None => match r {
            Ok(tensor) => {
                &&& alloc.ensures((request,), Ok(tensor.spec_buffer()))
                &&& tensor.wf()
                &&& tensor.spec_shape() == shape
                &&& tensor.spec_ordering() == ordering
                &&& tensor.spec_usage() == usage
                &&& tensor.spec_encoding() == encoding
                &&& tensor.spec_capacity() == request.len
            },
            Err(AllocError::Device(e)) => alloc.ensures((request,), Err(e)),
            Err(AllocError::Refused(_)) => false,
        },
    }
}

/// Whether `r` is what building a tensor that is not refused gives: the
/// device error, if the allocation `alloc` failed on the request; else a
/// tensor that owns the buffer that `alloc` returned for it.
pub open spec fn allocated<B, E, F: FnOnce(BufferRequest) -> Result<B, E>>(
    shape: [u32; 4],
    ordering: MatrixOrdering,
    usage: BufferUsages,
    encoding: ElementEncoding,
    data_len: Option<usize>,
    alloc: F,
    r: Result<GpuTensor<B>, E>,
) -> bool {
    let request = build_request(shape, usage, encoding, data_len);
    match r {
        Ok(tensor) => {
            &&& alloc.ensures((request,), Ok(tensor.spec_buffer()))
            &&& tensor.wf()
            &&& tensor.spec_shape() == shape
            &&& tensor.spec_ordering() == ordering
            &&& tensor.spec_usage() == usage
            &&& tensor.spec_encoding() == encoding
            &&& tensor.spec_capacity() == request.len
        },
        Err(e) => alloc.ensures((request,), Err(e)),
    }
}

/// Whether a tensor of `shape` can be built and the allocation `alloc` can
/// be called with the request for it.
pub open spec fn can_allocate<B, E, F: FnOnce(BufferRequest) -> Result<B, E>>(
    shape: [u32; 4],
    usage: BufferUsages,
    encoding: ElementEncoding,
    data_len: Option<usize>,
    alloc: F,
) -> bool {
    &&& build_refusal(shape, data_len) is None
    &&& alloc.requires((build_request(shape, usage, encoding, data_len),))
}

/// The tensor that was built, or the error of the device, where the request
/// was not refused.
fn allowed<B, E>(r: Result<GpuTensor<B>, AllocError<E>>) -> (out: Result<GpuTensor<B>, E>)
    requires
        !(r matches Err(AllocError::Refused(_))),
    ensures
        match r {
            Ok(tensor) => out == Ok::<GpuTensor<B>, E>(tensor),
            Err(AllocError::Device(e)) => out == Err::<GpuTensor<B>, E>(e),
            Err(AllocError::Refused(_)) => false,
        },
{
    match r {
        Ok(tensor) => Ok(tensor),
        Err(AllocError::Device(e)) => Err(e),
        Err(AllocError::Refused(_)) => unreached(),
    }
}

/// Whether the allocation `alloc` can be called with the request for a tensor
/// of `shape`, in case that request is made.
pub open spec fn can_build<B, E, F: FnOnce(BufferRequest) -> Result<B, E>>(
    shape: [u32; 4],
    usage: BufferUsages,
    encoding: ElementEncoding,
    data_len: Option<usize>,
    alloc: F,
) -> bool {
    build_refusal(shape, data_len) is None ==> alloc.requires(
        (build_request(shape, usage, encoding, data_len),),
    )
}

/// Collects what a tensor is made of, then builds it.
pub struct TensorBuilder {
    shape: [u32; 4],
    usage: BufferUsages,
    ordering: MatrixOrdering,
    label: Option<String>,
}

impl TensorBuilder {
    /// The extents of the tensor to build.
    pub closed spec fn spec_shape(&self) -> [u32; 4] {
        self.shape
    }

    /// The usages of its buffer.
    pub closed spec fn spec_usage(&self) -> BufferUsages {
        self.usage
    }

    /// Its ordering.
    pub closed spec fn spec_ordering(&self) -> MatrixOrdering {
        self.ordering
    }

    /// Its label, if it has one.
    pub closed spec fn spec_label(&self) -> Option<String> {
        self.label
    }

    /// Starts a tensor with a single element.
    pub fn scalar(usage: BufferUsages) -> (r: Self)
        ensures
            r.spec_shape() == [1u32, 1u32, 1u32, 1u32],
            r.spec_usage() == usage,
            r.spec_ordering() == MatrixOrdering::ColumnMajor,
            r.spec_label() is None,
    {
        Self::tensor([1, 1, 1, 1], usage)
    }

    /// Starts a vector of `dim` elements.
    pub fn vector(dim: u32, usage: BufferUsages) -> (r: Self)
        ensures
            r.spec_shape() == [dim, 1u32, 1u32, 1u32],
            r.spec_usage() == usage,
            r.spec_ordering() == MatrixOrdering::ColumnMajor,
            r.spec_label() is None,
    {
        Self::tensor([dim, 1, 1, 1], usage)
    }

    /// Starts a matrix of `nrows` rows and `ncols` columns.
    pub fn matrix(nrows: u32, ncols: u32, usage: BufferUsages) -> (r: Self)
        ensures
            r.spec_shape() == [nrows, ncols, 1u32, 1u32],
            r.spec_usage() == usage,
            r.spec_ordering() == MatrixOrdering::ColumnMajor,
            r.spec_label() is None,
    {
        Self::tensor([nrows, ncols, 1, 1], usage)
    }

    /// Starts a tensor of `shape`: column-major, without a label.
    pub fn tensor(shape: [u32; 4], usage: BufferUsages) -> (r: Self)
        ensures
            r.spec_shape() == shape,
            r.spec_usage() == usage,
            r.spec_ordering() == MatrixOrdering::ColumnMajor,
            r.spec_label() is None,
    {
        TensorBuilder { shape, usage, ordering: MatrixOrdering::ColumnMajor, label: None }
    }

    /// The number of elements of the tensor, which has to fit in 64 bits.
    pub fn len(&self) -> (r: u64)
        requires
            product_of(sizes_of(self.spec_shape())) <= u64::MAX,
        ensures
            r == product_of(sizes_of(self.spec_shape())),
    {
        element_count(&self.shape)
    }

    /// Why the tensor cannot be built, if it cannot, from `data_len` elements
    /// of the host where it is filled from some: its strides or its element
    /// count do not fit in 32 bits, or the host provides too few elements.
    pub fn refusal(&self, data_len: Option<usize>) -> (r: Option<TensorError>)
        ensures
            r == build_refusal(self.spec_shape(), data_len),
    {
        if !check_extents(&self.shape) {
            return Some(TensorError::Overflow);
        }
        match data_len {
            Some(n) => {
                if (n as u64) < element_count(&self.shape) {
                    Some(TensorError::NotEnoughData)
                } else {
                    None
                }
            },
            None => None,
        }
    }

    /// Sets the ordering of the tensor.
    pub fn ordering(self, ordering: MatrixOrdering) -> (r: Self)
        ensures
            r.spec_ordering() == ordering,
            r.spec_shape() == self.spec_shape(),
            r.spec_usage() == self.spec_usage(),
            r.spec_label() == self.spec_label(),
    {
        let mut r = self;
        r.ordering = ordering;
        r
    }

    /// Sets the label of the tensor.
    pub fn label(self, label: String) -> (r: Self)
        ensures
            r.spec_label() == Some(label),
            r.spec_shape() == self.spec_shape(),
            r.spec_usage() == self.spec_usage(),
            r.spec_ordering() == self.spec_ordering(),
    {
        let mut r = self;
        r.label = Some(label);
        r
    }

    /// Checks the request, asks `alloc` for the buffer, and wraps it.
    fn build<B, E, F: FnOnce(BufferRequest) -> Result<B, E>>(
        self,
        encoding: ElementEncoding,
        data_len: Option<usize>,
        alloc: F,
    ) -> (r: Result<GpuTensor<B>, AllocError<E>>)
        requires
            can_build(self.spec_shape(), self.spec_usage(), encoding, data_len, alloc),
        ensures
            built(
                self.spec_shape(),
                self.spec_ordering(),
                self.spec_usage(),
                encoding,
                data_len,
                alloc,
                r,
            ),
    {
        if !check_extents(&self.shape) {
            return Err(AllocError::Refused(TensorError::Overflow));
        }
        let count: u64 = element_count(&self.shape);
        let (len, initialized): (usize, bool) = match data_len {
            Some(n) => {
                if (n as u64) < count {
                    return Err(AllocError::Refused(TensorError::NotEnoughData));
                }
                (n, true)
            },
            None => (count as usize, false),
        };
        let request = BufferRequest { len, usage: self.usage, encoding, initialized };
        match alloc(request) {
            Ok(buffer) => Ok(
                GpuTensor {
                    shape: self.shape,
                    buffer,
                    capacity: len,
                    usage: self.usage,
                    encoding,
                    ordering: self.ordering,
                },
            ),
            Err(e) => Err(AllocError::Device(e)),
        }
    }

    /// Builds the tensor over a buffer that `alloc` allocates and nothing has
    /// written yet: it must be written before it is read.
    pub fn try_build_uninit<B, E, F: FnOnce(BufferRequest) -> Result<B, E>>(self, alloc: F) -> (r:
        Result<GpuTensor<B>, AllocError<E>>)
        requires
            can_build(
                self.spec_shape(),
                self.spec_usage(),
                ElementEncoding::Plain,
                None,
                alloc,
            ),
        ensures
            built(
                self.spec_shape(),
                self.spec_ordering(),
                self.spec_usage(),
                ElementEncoding::Plain,
                None,
                alloc,
                r,
            ),
    {
        self.build(ElementEncoding::Plain, None, alloc)
    }

    /// The same as [`TensorBuilder::build_uninit`], for elements in the
    /// layout of the device.
    pub fn try_build_uninit_encased<B, E, F: FnOnce(BufferRequest) -> Result<B, E>>(
        self,
        alloc: F,
    ) -> (r: Result<GpuTensor<B>, AllocError<E>>)
        requires
            can_build(
                self.spec_shape(),
                self.spec_usage(),
                ElementEncoding::Encased,
                None,
                alloc,
            ),
        ensures
            built(
                self.spec_shape(),
                self.spec_ordering(),
                self.spec_usage(),
                ElementEncoding::Encased,
                None,
                alloc,
                r,
            ),
    {
        self.build(ElementEncoding::Encased, None, alloc)
    }

    /// Builds the tensor over a buffer that `alloc` allocates and fills with
    /// `data_len` elements of the host, which must be at least as many as
    /// the tensor has.
    pub fn try_build_init<B, E, F: FnOnce(BufferRequest) -> Result<B, E>>(
        self,
        data_len: usize,
        alloc: F,
    ) -> (r: Result<GpuTensor<B>, AllocError<E>>)
        requires
            can_build(
                self.spec_shape(),
                self.spec_usage(),
                ElementEncoding::Plain,
                Some(data_len),
                alloc,
            ),
        ensures
            built(
                self.spec_shape(),
                self.spec_ordering(),
                self.spec_usage(),
                ElementEncoding::Plain,
                Some(data_len),
                alloc,
                r,
            ),
    {
        self.build(ElementEncoding::Plain, Some(data_len), alloc)
    }

    /// The same as [`TensorBuilder::build_init`], for elements in the layout
    /// of the device.
    pub fn try_build_encased<B, E, F: FnOnce(BufferRequest) -> Result<B, E>>(
        self,
        data_len: usize,
        alloc: F,
    ) -> (r: Result<GpuTensor<B>, AllocError<E>>)
        requires
            can_build(
                self.spec_shape(),
                self.spec_usage(),
                ElementEncoding::Encased,
                Some(data_len),
                alloc,
            ),
        ensures
            built(
                self.spec_shape(),
                self.spec_ordering(),
                self.spec_usage(),
                ElementEncoding::Encased,
                Some(data_len),
                alloc,
                r,
            ),
    {
        self.build(ElementEncoding::Encased, Some(data_len), alloc)
    }
}

/// A tensor that owns its buffer on the device. `B` is the type of the
/// buffer; the library moves it and lends it, and never looks inside.
pub struct GpuTensor<B> {
    pub(crate) shape: [u32; 4],
    pub(crate) buffer: B,
    pub(crate) capacity: usize,
    pub(crate) usage: BufferUsages,
    pub(crate) encoding: ElementEncoding,
    pub(crate) ordering: MatrixOrdering,
}

/// A vector on the device.
pub type GpuVector<B> = GpuTensor<B>;

/// A matrix on the device.
pub type GpuMatrix<B> = GpuTensor<B>;

/// A single value on the device.
pub type GpuScalar<B> = GpuTensor<B>;

/// The number of extents of `shape` that are more than 1.
pub open spec fn spec_order(shape: [u32; 4]) -> int {
    (if shape[0] > 1 {
        1int
    } else {
        0int
    }) + (if shape[1] > 1 {
        1int
    } else {
        0int
    }) + (if shape[2] > 1 {
        1int
    } else {
        0int
    }) + (if shape[3] > 1 {
        1int
    } else {
        0int
    })
}

impl<B> GpuTensor<B> {
    /// The extents of the tensor.
    pub closed spec fn spec_shape(&self) -> [u32; 4] {
        self.shape
    }

    /// The buffer of the tensor.
    pub closed spec fn spec_buffer(&self) -> B {
        self.buffer
    }

    /// The number of elements that the buffer holds.
    pub closed spec fn spec_capacity(&self) -> usize {
        self.capacity
    }

    /// What the buffer was allocated for.
    pub closed spec fn spec_usage(&self) -> BufferUsages {
        self.usage
    }

    /// How the elements are laid out in the buffer.
    pub closed spec fn spec_encoding(&self) -> ElementEncoding {
        self.encoding
    }

    /// The ordering of the tensor.
    pub closed spec fn spec_ordering(&self) -> MatrixOrdering {
        self.ordering
    }

    /// What the accessors above stand for, for the rest of the crate.
    pub(crate) proof fn lemma_fields(&self)
        ensures
            self.spec_shape() == self.shape,
            self.spec_buffer() == self.buffer,
            self.spec_capacity() == self.capacity,
            self.spec_usage() == self.usage,
            self.spec_encoding() == self.encoding,
            self.spec_ordering() == self.ordering,
    {
    }

    /// The number of elements of the tensor.
    pub open spec fn spec_len(&self) -> int {
        product_of(sizes_of(self.spec_shape()))
    }

    /// Whether the tensor is well formed: its strides and its element count
    /// fit in 32 bits, and its buffer holds all its elements.
    pub open spec fn wf(&self) -> bool {
        &&& extents_fit(self.spec_shape())
        &&& self.spec_len() <= self.spec_capacity()
    }

    /// The layout of the view of the whole tensor: packed under its
    /// ordering, from the first element of the buffer on.
    pub open spec fn layout(&self) -> ViewLayout {
        ViewLayout {
            shape: ViewShape::spec_contiguous(self.spec_shape(), self.spec_ordering()),
            offset: 0,
            buffer_len: self.spec_capacity(),
        }
    }

    /// Whether `r` is the answer to a request that asks `wanted` of the
    /// layout of the whole tensor: the same refusal, or a view of the buffer
    /// of the tensor with the layout that was asked.
    pub open spec fn views(
        &self,
        r: Result<GpuTensorView<'_, B>, TensorError>,
        wanted: Result<ViewLayout, TensorError>,
    ) -> bool {
        match wanted {
            Ok(layout) => r matches Ok(v) && v.spec_layout() == layout && *v.spec_buffer()
                == self.spec_buffer() && v.wf(),
            Err(e) => r matches Err(f) && f == e,
        }
    }

    /// The axis along which the tensor is a vector, if it is one: the unit
    /// axis of its ordering, provided every other extent is 1.
    pub open spec fn vector_axis(&self) -> Option<int> {
        let axis = self.spec_ordering().unit_axis();
        let shape = self.spec_shape();
        if shape[1 - axis] == 1 && shape[2] == 1 && shape[3] == 1 {
            Some(axis)
        } else {
            None
        }
    }

    /// The ordering of the tensor.
    pub fn ordering(&self) -> (r: MatrixOrdering)
        ensures
            r == self.spec_ordering(),
    {
        self.ordering
    }

    /// The tensor, transposed: rows and columns trade their extents, and the
    /// ordering flips, so that no element moves.
    pub fn transposed(self) -> (r: Self)
        requires
            self.wf(),
        ensures
            r.wf(),
            r.spec_shape() == [
                self.spec_shape()[1],
                self.spec_shape()[0],
                self.spec_shape()[2],
                self.spec_shape()[3],
            ],
            r.spec_ordering() == self.spec_ordering().spec_transpose(),
            r.spec_buffer() == self.spec_buffer(),
            r.spec_capacity() == self.spec_capacity(),
            r.spec_usage() == self.spec_usage(),
            r.spec_encoding() == self.spec_encoding(),
    {
        let mut r = self;
        r.transpose();
        r
    }

    /// Transposes the tensor in place.
    pub fn transpose(&mut self)
        requires
            old(self).wf(),
        ensures
            final(self).wf(),
            final(self).spec_shape() == [
                old(self).spec_shape()[1],
                old(self).spec_shape()[0],
                old(self).spec_shape()[2],
                old(self).spec_shape()[3],
            ],
            final(self).spec_ordering() == old(self).spec_ordering().spec_transpose(),
            final(self).spec_buffer() == old(self).spec_buffer(),
            final(self).spec_capacity() == old(self).spec_capacity(),
            final(self).spec_usage() == old(self).spec_usage(),
            final(self).spec_encoding() == old(self).spec_encoding(),
    {
        let rows = self.shape[0];
        let cols = self.shape[1];
        proof {
            let a = rows as int;
            let b = cols as int;
            let c = self.shape[2] as int;
            let d = self.shape[3] as int;
            assert(b * a == a * b) by (nonlinear_arith);
            assert(b * a * c == a * b * c) by (nonlinear_arith);
            assert(b * a * c * d == a * b * c * d) by (nonlinear_arith);
        }
        self.shape[0] = cols;
        self.shape[1] = rows;
        self.ordering = self.ordering.transpose();
    }

    /// Whether the tensor has no element.
    pub fn is_empty(&self) -> (r: bool)
        requires
            self.wf(),
        ensures
            r == (self.spec_len() == 0),
    {
        self.len() == 0
    }

    /// The number of elements of the tensor.
    pub fn len(&self) -> (r: u64)
        requires
            self.wf(),
        ensures
            r == self.spec_len(),
    {
        element_count(&self.shape)
    }

    /// The number of elements that the tensor can hold before its buffer has
    /// to grow.
    pub fn capacity(&self) -> (r: u64)
        ensures
            r == self.spec_capacity(),
    {
        self.capacity as u64
    }

    /// The same as [`GpuTensor::capacity`], for a buffer whose elements are
    /// in the layout of the device.
    pub fn capacity_encased(&self) -> (r: u64)
        ensures
            r == self.spec_capacity(),
    {
        self.capacity as u64
    }

    /// The order of the tensor: the number of its extents that are more than
    /// 1.
    pub fn order(&self) -> (r: u8)
        ensures
            r == spec_order(self.spec_shape()),
    {
        let mut r: u8 = 0;
        if self.shape[0] > 1 {
            r += 1;
        }
        if self.shape[1] > 1 {
            r += 1;
        }
        if self.shape[2] > 1 {
            r += 1;
        }
        if self.shape[3] > 1 {
            r += 1;
        }
        r
    }

    /// The extent of the tensor along axis `i`.
    pub fn size(&self, i: usize) -> (r: u32)
        requires
            i < 4,
        ensures
            r == self.spec_shape()[i as int],
    {
        self.shape[i]
    }

    /// The extent of the tensor along axis `i`, counted in GGML axis order.
    pub fn size_ggml(&self, i: usize) -> (r: u32)
        requires
            i < 4,
        ensures
            r == self.spec_shape()[GGML_IDS[i as int] as int],
    {
        self.size(GGML_IDS[i])
    }

    /// The stride of the tensor along axis `i`.
    pub fn stride(&self, i: usize) -> (r: u32)
        requires
            self.wf(),
            i < 4,
        ensures
            r == self.layout().shape.stride[i as int],
    {
        self.as_view().stride(i)
    }

    /// The stride of the tensor along axis `i`, counted in GGML axis order.
    pub fn stride_ggml(&self, i: usize) -> (r: u32)
        requires
            self.wf(),
            i < 4,
        ensures
            r == self.layout().shape.stride[GGML_IDS[i as int] as int],
    {
        self.stride(GGML_IDS[i])
    }

    /// The size in bytes of the elements of the tensor, each of type `T`.
    /// The size has to fit in 64 bits.
    pub fn bytes_len<T>(&self) -> (r: u64)
        requires
            self.wf(),
            vstd::layout::size_of::<T>() * self.spec_len() <= u64::MAX,
        ensures
            r == vstd::layout::size_of::<T>() * self.spec_len(),
    {
        let each: u64 = core::mem::size_of::<T>() as u64;
        let count: u64 = self.len();
        each * count
    }

    /// The copy that fills the tensor from `source`: as many elements as the
    /// tensor has, from the first element of the view on, to the start of
    /// the buffer of the tensor.
    pub fn copy_from_view(&self, source: GpuTensorView<'_, B>) -> (r: BufferCopy)
        requires
            self.wf(),
        ensures
            r == (BufferCopy {
                source_offset: source.spec_layout().offset as usize,
                target_offset: 0,
                len: self.spec_len() as usize,
            }),
    {
        BufferCopy {
            source_offset: source.offset() as usize,
            target_offset: 0,
            len: self.len() as usize,
        }
    }

    /// The same as [`GpuTensor::copy_from_view`], for elements in the layout
    /// of the device.
    pub fn copy_from_view_encased(&self, source: GpuTensorView<'_, B>) -> (r: BufferCopy)
        requires
            self.wf(),
        ensures
            r == (BufferCopy {
                source_offset: source.spec_layout().offset as usize,
                target_offset: 0,
                len: self.spec_len() as usize,
            }),
    {
        self.copy_from_view(source)
    }

    /// The extents of the tensor: rows, columns, matrices, cubes.
    pub fn shape(&self) -> (r: [u32; 4])
        ensures
            r == self.spec_shape(),
    {
        self.shape
    }

    /// What the buffer of the tensor was allocated for.
    pub fn usage(&self) -> (r: BufferUsages)
        ensures
            r == self.spec_usage(),
    {
        self.usage
    }

    /// How the elements are laid out in the buffer.
    pub fn encoding(&self) -> (r: ElementEncoding)
        ensures
            r == self.spec_encoding(),
    {
        self.encoding
    }

    /// The buffer of the tensor.
    pub fn buffer(&self) -> (r: &B)
        ensures
            *r == self.spec_buffer(),
    {
        &self.buffer
    }

    /// The buffer of the tensor, to write to.
    pub fn buffer_mut(&mut self) -> (r: &mut B)
        ensures
            *r == old(self).spec_buffer(),
            final(self).spec_buffer() == *final(r),
            final(self).spec_shape() == old(self).spec_shape(),
            final(self).spec_ordering() == old(self).spec_ordering(),
            final(self).spec_capacity() == old(self).spec_capacity(),
            final(self).spec_usage() == old(self).spec_usage(),
            final(self).spec_encoding() == old(self).spec_encoding(),
    {
        &mut self.buffer
    }

    /// Gives up the tensor for its buffer.
    pub fn into_inner(self) -> (r: B)
        ensures
            r == self.spec_buffer(),
    {
        self.buffer
    }

    /// The view of the whole tensor.
    pub fn as_view(&self) -> (r: GpuTensorView<'_, B>)
        requires
            self.wf(),
        ensures
            r.wf(),
            r.spec_layout() == self.layout(),
            *r.spec_buffer() == self.spec_buffer(),
    {
        GpuTensorView::from_parts(
            ViewLayout::whole(self.shape, self.ordering, self.capacity),
            &self.buffer,
        )
    }

    /// The exclusive view of the whole tensor.
    pub fn as_view_mut(&mut self) -> (r: GpuTensorViewMut<'_, B>)
        requires
            old(self).wf(),
        ensures
            r.wf(),
            r.spec_layout() == old(self).layout(),
            r.spec_buffer() == old(self).spec_buffer(),
            final(self).spec_buffer() == *final(r.spec_borrow()),
            final(self).spec_shape() == old(self).spec_shape(),
            final(self).spec_ordering() == old(self).spec_ordering(),
            final(self).spec_capacity() == old(self).spec_capacity(),
            final(self).spec_usage() == old(self).spec_usage(),
            final(self).spec_encoding() == old(self).spec_encoding(),
    {
        let layout = ViewLayout::whole(self.shape, self.ordering, self.capacity);
        GpuTensorViewMut::from_parts(layout, &mut self.buffer)
    }

    /// The axis along which the tensor is a vector. Refused unless every
    /// extent but the one along the unit axis of its ordering is 1.
    pub(crate) fn try_vector_dim(&self) -> (r: Result<usize, TensorError>)
        ensures
            match self.vector_axis() {
                Some(axis) => r matches Ok(dim) && dim == axis,
                None => r matches Err(e) && e == TensorError::NotAVector,
            },
    {
        let (dim, other): (usize, usize) = match self.ordering {
            MatrixOrdering::RowMajor => (1, 0),
            MatrixOrdering::ColumnMajor => (0, 1),
        };
        if self.shape[other] == 1 && self.shape[2] == 1 && self.shape[3] == 1 {
            Ok(dim)
        } else {
            Err(TensorError::NotAVector)
        }
    }

    /// A packed view of `shape`, under the ordering of the tensor, over its
    /// elements.
    pub fn try_reshape<const DIM2: usize>(&self, shape: [u32; DIM2]) -> (r: Result<
        GpuTensorView<'_, B>,
        TensorError,
    >)
        requires
            self.wf(),
        ensures
            self.views(
                r,
                spec_reshape_request(self.layout(), shape@, self.spec_ordering()),
            ),
    {
        self.as_view().try_reshape_with_ordering(shape, self.ordering)
    }

    /// The same as [`GpuTensor::reshape`], with the extents given in GGML
    /// axis order.
    pub fn try_reshape_ggml<const DIM2: usize>(&self, shape: [u32; DIM2]) -> (r: Result<
        GpuTensorView<'_, B>,
        TensorError,
    >)
        requires
            self.wf(),
        ensures
            shape@.len() < 2 ==> (r matches Err(e) && e == TensorError::TooFewAxes),
            shape@.len() >= 2 ==> self.views(
                r,
                spec_reshape_request(
                    self.layout(),
                    swapped_leading(shape@),
                    self.spec_ordering()),
            ),
    {
        self.as_view().try_reshape_ggml_with_ordering(shape, self.ordering)
    }

    /// The view of the tensor with axis `k` moved to `permutations[k]`.
    pub fn try_permute(&self, permutations: [usize; 4]) -> (r: Result<
        GpuTensorView<'_, B>,
        TensorError,
    >)
        requires
            self.wf(),
        ensures
            self.views(r, self.layout().spec_permute(permutations)),
    {
        self.as_view().try_permute(permutations)
    }

    /// The same, with the permutation given in GGML axis order.
    pub fn try_permute_ggml(&self, permutations: [usize; 4]) -> (r: Result<
        GpuTensorView<'_, B>,
        TensorError,
    >)
        requires
            self.wf(),
        ensures
            is_permutation(permutations) ==> self.views(
                r,
                self.layout().spec_permute(from_ggml_permutation(permutations)),
            ),
            !is_permutation(permutations) ==> (r matches Err(e) && e
                == TensorError::InvalidPermutation),
    {
        self.as_view().try_permute_ggml(permutations)
    }

    /// A view of `shape`, with the strides `stride`, that starts `offset`
    /// elements into the tensor. See [`GpuTensorView::view`].
    pub fn try_view<const DIM2: usize>(
        &self,
        offset: u32,
        shape: [u32; DIM2],
        stride: [Option<u32>; DIM2],
    ) -> (r: Result<GpuTensorView<'_, B>, TensorError>)
        requires
            self.wf(),
        ensures
            self.views(r, spec_view_request(self.layout(), offset, shape@, stride@)),
    {
        self.as_view().try_view(offset, shape, stride)
    }

    /// The same as [`GpuTensor::view`], with extents and strides given in
    /// GGML axis order.
    pub fn try_view_ggml<const DIM2: usize>(
        &self,
        offset: u32,
        shape: [u32; DIM2],
        stride: [Option<u32>; DIM2],
    ) -> (r: Result<GpuTensorView<'_, B>, TensorError>)
        requires
            self.wf(),
        ensures
            shape@.len() < 2 ==> (r matches Err(e) && e == TensorError::TooFewAxes),
            shape@.len() >= 2 ==> self.views(
                r,
                spec_view_request(
                    self.layout(),
                    offset,
                    swapped_leading(shape@),
                    swapped_leading(stride@)),
            ),
    {
        self.as_view().try_view_ggml(offset, shape, stride)
    }

    /// The view of the column `i`.
    pub fn try_column(&self, i: u32) -> (r: Result<GpuTensorView<'_, B>, TensorError>)
        requires
            self.wf(),
        ensures
            self.views(r, self.layout().spec_slice(1, i, 1)),
    {
        self.as_view().try_column(i)
    }

    /// The view of `ncols` columns from `first_col` on.
    pub fn try_columns(&self, first_col: u32, ncols: u32) -> (r: Result<
        GpuTensorView<'_, B>,
        TensorError,
    >)
        requires
            self.wf(),
        ensures
            self.views(r, self.layout().spec_slice(1, first_col, ncols)),
    {
        self.as_view().try_columns(first_col, ncols)
    }

    /// The view of the row `i`.
    pub fn try_row(&self, i: u32) -> (r: Result<GpuTensorView<'_, B>, TensorError>)
        requires
            self.wf(),
        ensures
            self.views(r, self.layout().spec_slice(0, i, 1)),
    {
        self.as_view().try_row(i)
    }

    /// The view of `nrows` rows from `first_row` on.
    pub fn try_rows(&self, first_row: u32, nrows: u32) -> (r: Result<
        GpuTensorView<'_, B>,
        TensorError,
    >)
        requires
            self.wf(),
        ensures
            self.views(r, self.layout().spec_slice(0, first_row, nrows)),
    {
        self.as_view().try_rows(first_row, nrows)
    }
}

impl<B> GpuTensor<B> {
    /// A matrix of `nrows` rows and `ncols` columns over a buffer that nothing
    /// has written yet: it must be written before it is read.
    pub fn try_matrix_uninit<E, F: FnOnce(BufferRequest) -> Result<B, E>>(
        nrows: u32,
        ncols: u32,
        usage: BufferUsages,
        alloc: F,
    ) -> (r: Result<Self, AllocError<E>>)
        requires
            can_build([nrows, ncols, 1u32, 1u32], usage, ElementEncoding::Plain, None, alloc),
        ensures
            built([nrows, ncols, 1u32, 1u32], MatrixOrdering::ColumnMajor, usage, ElementEncoding::Plain, None, alloc, r),
    {
        TensorBuilder::matrix(nrows, ncols, usage).try_build_uninit(alloc)
    }

    /// A column-major matrix of `nrows` rows and `ncols` columns, filled with
    /// `data_len` elements of the host.
    pub fn try_matrix<E, F: FnOnce(BufferRequest) -> Result<B, E>>(
        nrows: u32,
        ncols: u32,
        data_len: usize,
        usage: BufferUsages,
        alloc: F,
    ) -> (r: Result<Self, AllocError<E>>)
        requires
            can_build([nrows, ncols, 1u32, 1u32], usage, ElementEncoding::Plain, Some(data_len), alloc),
        ensures
            built([nrows, ncols, 1u32, 1u32], MatrixOrdering::ColumnMajor, usage, ElementEncoding::Plain, Some(data_len), alloc, r),
    {
        TensorBuilder::matrix(nrows, ncols, usage).try_build_init(data_len, alloc)
    }

    /// A matrix of `nrows` rows and `ncols` columns under `ordering`, filled
    /// with `data_len` elements of the host.
    pub fn try_matrix_with_ordering<E, F: FnOnce(BufferRequest) -> Result<B, E>>(
        nrows: u32,
        ncols: u32,
        data_len: usize,
        ordering: MatrixOrdering,
        usage: BufferUsages,
        alloc: F,
    ) -> (r: Result<Self, AllocError<E>>)
        requires
            can_build([nrows, ncols, 1u32, 1u32], usage, ElementEncoding::Plain, Some(data_len), alloc),
        ensures
            built([nrows, ncols, 1u32, 1u32], ordering, usage, ElementEncoding::Plain, Some(data_len), alloc, r),
    {
        TensorBuilder::matrix(nrows, ncols, usage).ordering(ordering).try_build_init(data_len, alloc)
    }

    /// A vector of `len` elements over a buffer that nothing has written yet:
    /// it must be written before it is read.
    pub fn try_vector_uninit<E, F: FnOnce(BufferRequest) -> Result<B, E>>(
        len: u32,
        usage: BufferUsages,
        alloc: F,
    ) -> (r: Result<Self, AllocError<E>>)
        requires
            can_build([len, 1u32, 1u32, 1u32], usage, ElementEncoding::Plain, None, alloc),
        ensures
            built([len, 1u32, 1u32, 1u32], MatrixOrdering::ColumnMajor, usage, ElementEncoding::Plain, None, alloc, r),
    {
        TensorBuilder::vector(len, usage).try_build_uninit(alloc)
    }

    /// A vector filled with the `data_len` elements of the host. Its extent
    /// is `data_len` held to 32 bits.
    pub fn try_vector<E, F: FnOnce(BufferRequest) -> Result<B, E>>(
        data_len: usize,
        usage: BufferUsages,
        alloc: F,
    ) -> (r: Result<Self, AllocError<E>>)
        requires
            can_build([data_len as u32, 1u32, 1u32, 1u32], usage, ElementEncoding::Plain, Some(data_len), alloc),
        ensures
            built([data_len as u32, 1u32, 1u32, 1u32], MatrixOrdering::ColumnMajor, usage, ElementEncoding::Plain, Some(data_len), alloc, r),
    {
        TensorBuilder::vector(data_len as u32, usage).try_build_init(data_len, alloc)
    }

    /// The same as [`GpuTensor::vector_uninit`], for elements in the layout
    /// of the device.
    pub fn try_vector_uninit_encased<E, F: FnOnce(BufferRequest) -> Result<B, E>>(
        len: u32,
        usage: BufferUsages,
        alloc: F,
    ) -> (r: Result<Self, AllocError<E>>)
        requires
            can_build([len, 1u32, 1u32, 1u32], usage, ElementEncoding::Encased, None, alloc),
        ensures
            built([len, 1u32, 1u32, 1u32], MatrixOrdering::ColumnMajor, usage, ElementEncoding::Encased, None, alloc, r),
    {
        TensorBuilder::vector(len, usage).try_build_uninit_encased(alloc)
    }

    /// The same as [`GpuTensor::vector`], for elements in the layout of the
    /// device.
    pub fn try_vector_encased<E, F: FnOnce(BufferRequest) -> Result<B, E>>(
        data_len: usize,
        usage: BufferUsages,
        alloc: F,
    ) -> (r: Result<Self, AllocError<E>>)
        requires
            can_build([data_len as u32, 1u32, 1u32, 1u32], usage, ElementEncoding::Encased, Some(data_len), alloc),
        ensures
            built([data_len as u32, 1u32, 1u32, 1u32], MatrixOrdering::ColumnMajor, usage, ElementEncoding::Encased, Some(data_len), alloc, r),
    {
        TensorBuilder::vector(data_len as u32, usage).try_build_encased(data_len, alloc)
    }

    /// A single element over a buffer that nothing has written yet: it must
    /// be written before it is read.
    pub fn try_scalar_uninit<E, F: FnOnce(BufferRequest) -> Result<B, E>>(
        usage: BufferUsages,
        alloc: F,
    ) -> (r: Result<Self, AllocError<E>>)
        requires
            can_build([1u32, 1u32, 1u32, 1u32], usage, ElementEncoding::Plain, None, alloc),
        ensures
            built([1u32, 1u32, 1u32, 1u32], MatrixOrdering::ColumnMajor, usage, ElementEncoding::Plain, None, alloc, r),
    {
        TensorBuilder::scalar(usage).try_build_uninit(alloc)
    }

    /// The same as [`GpuTensor::scalar_uninit`], for an element in the layout
    /// of the device.
    pub fn try_scalar_uninit_encased<E, F: FnOnce(BufferRequest) -> Result<B, E>>(
        usage: BufferUsages,
        alloc: F,
    ) -> (r: Result<Self, AllocError<E>>)
        requires
            can_build([1u32, 1u32, 1u32, 1u32], usage, ElementEncoding::Encased, None, alloc),
        ensures
            built([1u32, 1u32, 1u32, 1u32], MatrixOrdering::ColumnMajor, usage, ElementEncoding::Encased, None, alloc, r),
    {
        TensorBuilder::scalar(usage).try_build_uninit_encased(alloc)
    }

    /// A single element, filled with one element of the host.
    pub fn try_scalar<E, F: FnOnce(BufferRequest) -> Result<B, E>>(
        usage: BufferUsages,
        alloc: F,
    ) -> (r: Result<Self, AllocError<E>>)
        requires
            can_build([1u32, 1u32, 1u32, 1u32], usage, ElementEncoding::Plain, Some(1usize), alloc),
        ensures
            built([1u32, 1u32, 1u32, 1u32], MatrixOrdering::ColumnMajor, usage, ElementEncoding::Plain, Some(1usize), alloc, r),
    {
        TensorBuilder::scalar(usage).try_build_init(1, alloc)
    }

    /// The same as [`GpuTensor::scalar`], for an element in the layout of the
    /// device.
    pub fn try_scalar_encased<E, F: FnOnce(BufferRequest) -> Result<B, E>>(
        usage: BufferUsages,
        alloc: F,
    ) -> (r: Result<Self, AllocError<E>>)
        requires
            can_build([1u32, 1u32, 1u32, 1u32], usage, ElementEncoding::Encased, Some(1usize), alloc),
        ensures
            built([1u32, 1u32, 1u32, 1u32], MatrixOrdering::ColumnMajor, usage, ElementEncoding::Encased, Some(1usize), alloc, r),
    {
        TensorBuilder::scalar(usage).try_build_encased(1, alloc)
    }
}

impl<B> GpuTensor<B> {
    /// The view with axis `k` moved to `permutations[k]`. The positions have to
    /// be a bijection on the four axes. [`GpuTensor::try_permute`] tests all of it.
    pub fn permute(
        &self,
        permutations: [usize; 4],
    ) -> (r: GpuTensorView<'_, B>)
        requires
            self.wf(),
            is_permutation(permutations),
            self.layout().spec_permute(permutations) is Ok,
        ensures
            self.layout().spec_permute(permutations) == Ok::<ViewLayout, TensorError>(r.spec_layout()),
            *r.spec_buffer() == self.spec_buffer(),
            r.wf(),
    {
        self.try_permute(permutations).unwrap()
    }

    /// The same as `permute`, with the permutation given in GGML axis order. [`GpuTensor::try_permute_ggml`] tests all of it.
    pub fn permute_ggml(
        &self,
        permutations: [usize; 4],
    ) -> (r: GpuTensorView<'_, B>)
        requires
            self.wf(),
            is_permutation(permutations),
            self.layout().spec_permute(from_ggml_permutation(permutations)) is Ok,
        ensures
            self.layout().spec_permute(from_ggml_permutation(permutations)) == Ok::<ViewLayout, TensorError>(r.spec_layout()),
            *r.spec_buffer() == self.spec_buffer(),
            r.wf(),
    {
        self.try_permute_ggml(permutations).unwrap()
    }

    /// A view of `shape` over the elements of the tensor, in the ordering of
    /// the tensor. At most four extents can be given; the new view must not
    /// have more elements than the tensor, which has to be contiguous, with
    /// leading extents that are not both 1. [`GpuTensor::try_reshape`] tests all of it.
    pub fn reshape<const DIM2: usize>(
        &self,
        shape: [u32; DIM2],
    ) -> (r: GpuTensorView<'_, B>)
        requires
            self.wf(),
            DIM2 <= 4,
            spec_reshape_request(self.layout(), shape@, self.spec_ordering()) is Ok,
        ensures
            spec_reshape_request(self.layout(), shape@, self.spec_ordering()) == Ok::<ViewLayout, TensorError>(r.spec_layout()),
            *r.spec_buffer() == self.spec_buffer(),
            r.wf(),
    {
        self.try_reshape(shape).unwrap()
    }

    /// The same as `reshape`, with the extents given in GGML axis order, two
    /// of them at least. A view whose two leading extents are 1 is read as
    /// row-major. [`GpuTensor::try_reshape_ggml`] tests all of it.
    pub fn reshape_ggml<const DIM2: usize>(
        &self,
        shape: [u32; DIM2],
    ) -> (r: GpuTensorView<'_, B>)
        requires
            self.wf(),
            2 <= DIM2 <= 4,
            spec_reshape_request(self.layout(), swapped_leading(shape@), self.spec_ordering()) is Ok,
        ensures
            spec_reshape_request(self.layout(), swapped_leading(shape@), self.spec_ordering()) == Ok::<ViewLayout, TensorError>(r.spec_layout()),
            *r.spec_buffer() == self.spec_buffer(),
            r.wf(),
    {
        self.try_reshape_ggml(shape).unwrap()
    }

    /// A view of `shape`, with the strides `stride`, that starts `offset`
    /// elements into the tensor. Extents that are not given are 1; a stride
    /// that is not given is what a packed layout has there.
    ///
    /// At most four extents can be given. The new view, with the offset
    /// before it, must not have more elements than the tensor. The tensor has to
    /// be contiguous; where both its leading extents are 1 the strides have
    /// to settle the ordering; offsets and strides have to fit in 32 bits. [`GpuTensor::try_view`] tests all of it.
    pub fn view<const DIM2: usize>(
        &self,
        offset: u32,
        shape: [u32; DIM2],
        stride: [Option<u32>; DIM2],
    ) -> (r: GpuTensorView<'_, B>)
        requires
            self.wf(),
            DIM2 <= 4,
            product_of(padded_sizes(shape@)) + offset <= self.layout().shape.spec_len(),
            spec_view_request(self.layout(), offset, shape@, stride@) is Ok,
        ensures
            spec_view_request(self.layout(), offset, shape@, stride@) == Ok::<ViewLayout, TensorError>(r.spec_layout()),
            *r.spec_buffer() == self.spec_buffer(),
            r.wf(),
    {
        self.try_view(offset, shape, stride).unwrap()
    }

    /// The same as `view`, with extents and strides given in GGML axis order,
    /// two of each at least. [`GpuTensor::try_view_ggml`] tests all of it.
    pub fn view_ggml<const DIM2: usize>(
        &self,
        offset: u32,
        shape: [u32; DIM2],
        stride: [Option<u32>; DIM2],
    ) -> (r: GpuTensorView<'_, B>)
        requires
            self.wf(),
            2 <= DIM2 <= 4,
            spec_view_request(self.layout(), offset, swapped_leading(shape@), swapped_leading(stride@)) is Ok,
        ensures
            spec_view_request(self.layout(), offset, swapped_leading(shape@), swapped_leading(stride@)) == Ok::<ViewLayout, TensorError>(r.spec_layout()),
            *r.spec_buffer() == self.spec_buffer(),
            r.wf(),
    {
        self.try_view_ggml(offset, shape, stride).unwrap()
    }

    /// The view of `new_ncols` columns from `first_col` on, which have to be
    /// columns of the tensor; its offset has to fit in 32 bits. [`GpuTensor::try_columns`] tests all of it.
    pub fn columns(
        &self,
        first_col: u32,
        new_ncols: u32,
    ) -> (r: GpuTensorView<'_, B>)
        requires
            self.wf(),
            first_col + new_ncols <= self.layout().shape.size[1],
            self.layout().spec_slice(1, first_col, new_ncols) is Ok,
        ensures
            self.layout().spec_slice(1, first_col, new_ncols) == Ok::<ViewLayout, TensorError>(r.spec_layout()),
            *r.spec_buffer() == self.spec_buffer(),
            r.wf(),
    {
        self.try_columns(first_col, new_ncols).unwrap()
    }

    /// The view of the column `col`, which has to be a column of the tensor;
    /// its offset has to fit in 32 bits. [`GpuTensor::try_column`] tests all of it.
    pub fn column(
        &self,
        col: u32,
    ) -> (r: GpuTensorView<'_, B>)
        requires
            self.wf(),
            col < self.layout().shape.size[1],
            self.layout().spec_slice(1, col, 1) is Ok,
        ensures
            self.layout().spec_slice(1, col, 1) == Ok::<ViewLayout, TensorError>(r.spec_layout()),
            *r.spec_buffer() == self.spec_buffer(),
            r.wf(),
    {
        self.try_column(col).unwrap()
    }

    /// The view of `new_nrows` rows from `first_row` on, which have to be rows
    /// of the tensor; its offset has to fit in 32 bits. [`GpuTensor::try_rows`] tests all of it.
    pub fn rows(
        &self,
        first_row: u32,
        new_nrows: u32,
    ) -> (r: GpuTensorView<'_, B>)
        requires
            self.wf(),
            first_row + new_nrows <= self.layout().shape.size[0],
            self.layout().spec_slice(0, first_row, new_nrows) is Ok,
        ensures
            self.layout().spec_slice(0, first_row, new_nrows) == Ok::<ViewLayout, TensorError>(r.spec_layout()),
            *r.spec_buffer() == self.spec_buffer(),
            r.wf(),
    {
        self.try_rows(first_row, new_nrows).unwrap()
    }

    /// The view of the row `row`, which has to be a row of the tensor; its
    /// offset has to fit in 32 bits. [`GpuTensor::try_row`] tests all of it.
    pub fn row(
        &self,
        row: u32,
    ) -> (r: GpuTensorView<'_, B>)
        requires
            self.wf(),
            row < self.layout().shape.size[0],
            self.layout().spec_slice(0, row, 1) is Ok,
        ensures
            self.layout().spec_slice(0, row, 1) == Ok::<ViewLayout, TensorError>(r.spec_layout()),
            *r.spec_buffer() == self.spec_buffer(),
            r.wf(),
    {
        self.try_row(row).unwrap()
    }
}

impl<B> GpuTensor<B> {
    /// The axis along which the tensor is a vector, which it has to be:
    /// every extent but the one along the unit axis of its ordering is 1.
    pub(crate) fn vector_dim(&self) -> (r: usize)
        requires
            self.vector_axis() is Some,
        ensures
            self.vector_axis() == Some(r as int),
    {
        self.try_vector_dim().unwrap()
    }
}

impl TensorBuilder {
    /// Builds the tensor over a buffer that `alloc` allocates and nothing has
    /// written yet: it must be written before it is read. The strides and
    /// the element count of the tensor have to fit in 32 bits,
    /// which [`TensorBuilder::refusal`] tests.
    pub fn build_uninit<B, E, F: FnOnce(BufferRequest) -> Result<B, E>>(
        self,
        alloc: F,
    ) -> (r: Result<GpuTensor<B>, E>)
        requires
            can_allocate(self.spec_shape(), self.spec_usage(), ElementEncoding::Plain, None, alloc),
        ensures
            allocated(self.spec_shape(), self.spec_ordering(), self.spec_usage(), ElementEncoding::Plain, None, alloc, r),
    {
        allowed(self.try_build_uninit(alloc))
    }

    /// The same as [`TensorBuilder::build_uninit`], for elements in the
    /// layout of the device.
    pub fn build_uninit_encased<B, E, F: FnOnce(BufferRequest) -> Result<B, E>>(
        self,
        alloc: F,
    ) -> (r: Result<GpuTensor<B>, E>)
        requires
            can_allocate(self.spec_shape(), self.spec_usage(), ElementEncoding::Encased, None, alloc),
        ensures
            allocated(self.spec_shape(), self.spec_ordering(), self.spec_usage(), ElementEncoding::Encased, None, alloc, r),
    {
        allowed(self.try_build_uninit_encased(alloc))
    }

    /// Builds the tensor over a buffer that `alloc` allocates and fills with
    /// `data_len` elements of the host, which have to be at least as many as
    /// the tensor has. The strides and
    /// the element count of the tensor have to fit in 32 bits.
    /// [`TensorBuilder::refusal`] tests both.
    pub fn build_init<B, E, F: FnOnce(BufferRequest) -> Result<B, E>>(
        self,
        data_len: usize,
        alloc: F,
    ) -> (r: Result<GpuTensor<B>, E>)
        requires
            can_allocate(self.spec_shape(), self.spec_usage(), ElementEncoding::Plain, Some(data_len), alloc),
        ensures
            allocated(self.spec_shape(), self.spec_ordering(), self.spec_usage(), ElementEncoding::Plain, Some(data_len), alloc, r),
    {
        allowed(self.try_build_init(data_len, alloc))
    }

    /// The same as [`TensorBuilder::build_init`], for elements in the layout
    /// of the device.
    pub fn build_encased<B, E, F: FnOnce(BufferRequest) -> Result<B, E>>(
        self,
        data_len: usize,
        alloc: F,
    ) -> (r: Result<GpuTensor<B>, E>)
        requires
            can_allocate(self.spec_shape(), self.spec_usage(), ElementEncoding::Encased, Some(data_len), alloc),
        ensures
            allocated(self.spec_shape(), self.spec_ordering(), self.spec_usage(), ElementEncoding::Encased, Some(data_len), alloc, r),
    {
        allowed(self.try_build_encased(data_len, alloc))
    }
}

impl<B> GpuTensor<B> {
    /// A matrix of `nrows` rows and `ncols` columns over a buffer that nothing
    /// has written yet: it must be written before it is read. The request has to pass
    /// [`TensorBuilder::refusal`].
    pub fn matrix_uninit<E, F: FnOnce(BufferRequest) -> Result<B, E>>(
        nrows: u32,
        ncols: u32,
        usage: BufferUsages,
        alloc: F,
    ) -> (r: Result<Self, E>)
        requires
            can_allocate([nrows, ncols, 1u32, 1u32], usage, ElementEncoding::Plain, None, alloc),
        ensures
            allocated([nrows, ncols, 1u32, 1u32], MatrixOrdering::ColumnMajor, usage, ElementEncoding::Plain, None, alloc, r),
    {
        allowed(Self::try_matrix_uninit(nrows, ncols, usage, alloc))
    }

    /// A column-major matrix of `nrows` rows and `ncols` columns, filled with
    /// `data_len` elements of the host. The request has to pass
    /// [`TensorBuilder::refusal`].
    pub fn matrix<E, F: FnOnce(BufferRequest) -> Result<B, E>>(
        nrows: u32,
        ncols: u32,
        data_len: usize,
        usage: BufferUsages,
        alloc: F,
    ) -> (r: Result<Self, E>)
        requires
            can_allocate([nrows, ncols, 1u32, 1u32], usage, ElementEncoding::Plain, Some(data_len), alloc),
        ensures
            allocated([nrows, ncols, 1u32, 1u32], MatrixOrdering::ColumnMajor, usage, ElementEncoding::Plain, Some(data_len), alloc, r),
    {
        allowed(Self::try_matrix(nrows, ncols, data_len, usage, alloc))
    }

    /// A matrix of `nrows` rows and `ncols` columns under `ordering`, filled
    /// with `data_len` elements of the host. The request has to pass
    /// [`TensorBuilder::refusal`].
    pub fn matrix_with_ordering<E, F: FnOnce(BufferRequest) -> Result<B, E>>(
        nrows: u32,
        ncols: u32,
        data_len: usize,
        ordering: MatrixOrdering,
        usage: BufferUsages,
        alloc: F,
    ) -> (r: Result<Self, E>)
        requires
            can_allocate([nrows, ncols, 1u32, 1u32], usage, ElementEncoding::Plain, Some(data_len), alloc),
        ensures
            allocated([nrows, ncols, 1u32, 1u32], ordering, usage, ElementEncoding::Plain, Some(data_len), alloc, r),
    {
        allowed(Self::try_matrix_with_ordering(nrows, ncols, data_len, ordering, usage, alloc))
    }

    /// A vector of `len` elements over a buffer that nothing has written yet:
    /// it must be written before it is read. The request has to pass
    /// [`TensorBuilder::refusal`].
    pub fn vector_uninit<E, F: FnOnce(BufferRequest) -> Result<B, E>>(
        len: u32,
        usage: BufferUsages,
        alloc: F,
    ) -> (r: Result<Self, E>)
        requires
            can_allocate([len, 1u32, 1u32, 1u32], usage, ElementEncoding::Plain, None, alloc),
        ensures
            allocated([len, 1u32, 1u32, 1u32], MatrixOrdering::ColumnMajor, usage, ElementEncoding::Plain, None, alloc, r),
    {
        allowed(Self::try_vector_uninit(len, usage, alloc))
    }

    /// A vector filled with the `data_len` elements of the host. Its extent
    /// is `data_len` held to 32 bits. The request has to pass
    /// [`TensorBuilder::refusal`].
    pub fn vector<E, F: FnOnce(BufferRequest) -> Result<B, E>>(
        data_len: usize,
        usage: BufferUsages,
        alloc: F,
    ) -> (r: Result<Self, E>)
        requires
            can_allocate([data_len as u32, 1u32, 1u32, 1u32], usage, ElementEncoding::Plain, Some(data_len), alloc),
        ensures
            allocated([data_len as u32, 1u32, 1u32, 1u32], MatrixOrdering::ColumnMajor, usage, ElementEncoding::Plain, Some(data_len), alloc, r),
    {
        allowed(Self::try_vector(data_len, usage, alloc))
    }

    /// The same as [`GpuTensor::vector_uninit`], for elements in the layout
    /// of the device.
    pub fn vector_uninit_encased<E, F: FnOnce(BufferRequest) -> Result<B, E>>(
        len: u32,
        usage: BufferUsages,
        alloc: F,
    ) -> (r: Result<Self, E>)
        requires
            can_allocate([len, 1u32, 1u32, 1u32], usage, ElementEncoding::Encased, None, alloc),
        ensures
            allocated([len, 1u32, 1u32, 1u32], MatrixOrdering::ColumnMajor, usage, ElementEncoding::Encased, None, alloc, r),
    {
        allowed(Self::try_vector_uninit_encased(len, usage, alloc))
    }

    /// The same as [`GpuTensor::vector`], for elements in the layout of the
    /// device.
    pub fn vector_encased<E, F: FnOnce(BufferRequest) -> Result<B, E>>(
        data_len: usize,
        usage: BufferUsages,
        alloc: F,
    ) -> (r: Result<Self, E>)
        requires
            can_allocate([data_len as u32, 1u32, 1u32, 1u32], usage, ElementEncoding::Encased, Some(data_len), alloc),
        ensures
            allocated([data_len as u32, 1u32, 1u32, 1u32], MatrixOrdering::ColumnMajor, usage, ElementEncoding::Encased, Some(data_len), alloc, r),
    {
        allowed(Self::try_vector_encased(data_len, usage, alloc))
    }

    /// A single element over a buffer that nothing has written yet: it must
    /// be written before it is read.
    pub fn scalar_uninit<E, F: FnOnce(BufferRequest) -> Result<B, E>>(
        usage: BufferUsages,
        alloc: F,
    ) -> (r: Result<Self, E>)
        requires
            can_allocate([1u32, 1u32, 1u32, 1u32], usage, ElementEncoding::Plain, None, alloc),
        ensures
            allocated([1u32, 1u32, 1u32, 1u32], MatrixOrdering::ColumnMajor, usage, ElementEncoding::Plain, None, alloc, r),
    {
        allowed(Self::try_scalar_uninit(usage, alloc))
    }

    /// The same as [`GpuTensor::scalar_uninit`], for an element in the layout
    /// of the device.
    pub fn scalar_uninit_encased<E, F: FnOnce(BufferRequest) -> Result<B, E>>(
        usage: BufferUsages,
        alloc: F,
    ) -> (r: Result<Self, E>)
        requires
            can_allocate([1u32, 1u32, 1u32, 1u32], usage, ElementEncoding::Encased, None, alloc),
        ensures
            allocated([1u32, 1u32, 1u32, 1u32], MatrixOrdering::ColumnMajor, usage, ElementEncoding::Encased, None, alloc, r),
    {
        allowed(Self::try_scalar_uninit_encased(usage, alloc))
    }

    /// A single element, filled with one element of the host.
    pub fn scalar<E, F: FnOnce(BufferRequest) -> Result<B, E>>(
        usage: BufferUsages,
        alloc: F,
    ) -> (r: Result<Self, E>)
        requires
            can_allocate([1u32, 1u32, 1u32, 1u32], usage, ElementEncoding::Plain, Some(1usize), alloc),
        ensures
            allocated([1u32, 1u32, 1u32, 1u32], MatrixOrdering::ColumnMajor, usage, ElementEncoding::Plain, Some(1usize), alloc, r),
    {
        allowed(Self::try_scalar(usage, alloc))
    }

    /// The same as [`GpuTensor::scalar`], for an element in the layout of the
    /// device.
    pub fn scalar_encased<E, F: FnOnce(BufferRequest) -> Result<B, E>>(
        usage: BufferUsages,
        alloc: F,
    ) -> (r: Result<Self, E>)
        requires
            can_allocate([1u32, 1u32, 1u32, 1u32], usage, ElementEncoding::Encased, Some(1usize), alloc),
        ensures
            allocated([1u32, 1u32, 1u32, 1u32], MatrixOrdering::ColumnMajor, usage, ElementEncoding::Encased, Some(1usize), alloc, r),
    {
        allowed(Self::try_scalar_encased(usage, alloc))
    }
}

impl<B> GpuTensor<B> {
    /// Whether the tensor is well formed, as every tensor is that was built
    /// here.
    pub fn is_well_formed(&self) -> (r: bool)
        ensures
            r == self.wf(),
    {
        check_extents(&self.shape) && element_count(&self.shape) <= self.capacity as u64
    }
}

} // verus!
