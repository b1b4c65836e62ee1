//! Growing and shrinking a vector on the device.
//!
//! Appending to a vector and removing a range from it go in two steps. The
//! first answers with the work that the device has to do on its buffers, and
//! leaves the tensor as it is. The second is for when that work is done: it
//! gives the tensor its new length, and its new buffer if it has one. What
//! the work does to the elements is stated here as well, over the contents
//! of the buffers as sequences.

use vstd::prelude::*;

use crate::error::TensorError;
use crate::layout::with_extent;
use crate::layout::extents_fit;
use crate::tensor::{BufferCopy, BufferRequest, GpuTensor};
use crate::usage::{BufferUsages, COPY_DST, COPY_SRC, STORAGE};

verus! {

/// One end of a range of indices.
#[derive(Copy, Clone, PartialEq, Eq, Structural, Debug, Hash)]
pub enum RangeBound {
    /// The range reaches this index, and holds it.
    Included(usize),
    /// The range reaches this index, and does not hold it.
    Excluded(usize),
    /// The range reaches the end of the vector on this side.
    Unbounded,
}

/// Whether `n` is a power of two.
pub open spec fn is_power_of_two(n: int) -> bool
    decreases n,
{
    if n <= 0 {
        false
    } else if n == 1 {
        true
    } else {
        n % 2 == 0 && is_power_of_two(n / 2)
    }
}

/// The smallest power of two that is at least `n`.
pub open spec fn spec_next_power_of_two(n: int) -> int
    decreases n,
{
    if n <= 1 {
        1
    } else {
        2 * spec_next_power_of_two((n + 1) / 2)
    }
}

/// [`spec_next_power_of_two`] is a power of two, is at least `n`, and no
/// smaller power of two is: its half is less than `n`.
pub proof fn lemma_next_power_of_two(n: int)
    ensures
        is_power_of_two(spec_next_power_of_two(n)),
        spec_next_power_of_two(n) >= n,
        spec_next_power_of_two(n) >= 1,
        n >= 2 ==> spec_next_power_of_two(n) / 2 < n,
    decreases n,
{
    if n > 1 {
        lemma_next_power_of_two((n + 1) / 2);
    }
}

/// The smallest power of two that is at least `n`.
pub fn next_power_of_two(n: u32) -> (r: u32)
    requires
        n <= 0x8000_0000,
    ensures
        r == spec_next_power_of_two(n as int),
    decreases n,
{
    if n <= 1 {
        1
    } else {
        let half = (n - 1) / 2 + 1;
        assert(half == (n + 1) / 2);
        proof {
            lemma_next_power_of_two(half as int);
        }
        2 * next_power_of_two(half)
    }
}

/// The first index of a range that starts at `bound`.
pub open spec fn range_start(bound: RangeBound) -> int {
    match bound {
        RangeBound::Included(i) => i as int,
        RangeBound::Excluded(i) => i + 1,
        RangeBound::Unbounded => 0,
    }
}

/// The index after the last one of a range that ends at `bound`, in a vector
/// of `len` elements.
pub open spec fn range_end(bound: RangeBound, len: int) -> int {
    match bound {
        RangeBound::Included(i) => i + 1,
        RangeBound::Excluded(i) => i as int,
        RangeBound::Unbounded => len,
    }
}

/// The buffer `target` after `len` elements were copied into it, from
/// `source_offset` in `source` to `target_offset`.
pub open spec fn copied<T>(
    target: Seq<T>,
    target_offset: int,
    source: Seq<T>,
    source_offset: int,
    len: int,
) -> Seq<T> {
    Seq::new(
        target.len(),
        |i: int|
            if target_offset <= i < target_offset + len {
                source[source_offset + i - target_offset]
            } else {
                target[i]
            },
    )
}

/// What the device has to do to append elements to a vector.
#[derive(Copy, Clone, PartialEq, Eq, Debug)]
pub struct AppendPlan {
    /// The buffer to allocate, if the tensor has to grow. The first `kept`
    /// elements of the buffer of the tensor are to be copied to its start.
    pub grow: Option<BufferRequest>,
    /// The number of elements that the vector has.
    pub kept: usize,
    /// The index at which the new elements are to be written, in the new
    /// buffer if there is one, else in the buffer of the tensor.
    pub write_offset: u64,
    /// The number of elements of the vector once they are appended.
    pub new_len: u32,
}

impl AppendPlan {
    /// The contents of the buffer that the tensor gets once the device has
    /// done its part: `before` is what the buffer of the tensor held,
    /// `fresh` what the new buffer held when it was allocated, `data` the
    /// elements to append.
    pub open spec fn contents_after<T>(self, before: Seq<T>, fresh: Seq<T>, data: Seq<T>) -> Seq<
        T,
    > {
        let base = if self.grow is Some {
            copied(fresh, 0, before, 0, self.kept as int)
        } else {
            before
        };
        copied(base, self.write_offset as int, data, 0, data.len() as int)
    }
}

/// The two copies that close the gap of a removed range.
#[derive(Copy, Clone, PartialEq, Eq, Structural, Debug, Hash)]
pub struct Shift {
    /// The staging buffer to allocate.
    pub staging: BufferRequest,
    /// The first copy: the elements after the range, from the tensor to the
    /// staging buffer.
    pub save: BufferCopy,
    /// The second copy: the same elements, from the staging buffer to the
    /// tensor, where the range started.
    pub restore: BufferCopy,
}

/// What the device has to do to remove a range from a vector.
#[derive(Copy, Clone, PartialEq, Eq, Debug, Hash)]
pub struct RemovePlan {
    /// The number of elements that are removed.
    pub removed: usize,
    /// The copies to queue, if elements follow the range.
    pub shift: Option<Shift>,
}

impl RemovePlan {
    /// The contents of the buffer of the tensor once the device has done its
    /// part: `before` is what the buffer held, `staging` what the staging
    /// buffer held when it was allocated.
    pub open spec fn contents_after<T>(self, before: Seq<T>, staging: Seq<T>) -> Seq<T> {
        match self.shift {
            Some(shift) => copied(
                before,
                shift.restore.target_offset as int,
                copied(
                    staging,
                    shift.save.target_offset as int,
                    before,
                    shift.save.source_offset as int,
                    shift.save.len as int,
                ),
                shift.restore.source_offset as int,
                shift.restore.len as int,
            ),
            None => before,
        }
    }
}

/// The usages of a staging buffer.
pub open spec fn staging_usage() -> BufferUsages {
    BufferUsages { bits: STORAGE | COPY_DST | COPY_SRC }
}

/// Whether `shape` is that of a vector along `axis`: every other extent is 1.
pub open spec fn is_vector_along(shape: [u32; 4], axis: int) -> bool {
    &&& (axis == 0 || axis == 1)
    &&& shape[1 - axis] == 1
    &&& shape[2] == 1
    &&& shape[3] == 1
}

/// The products of the extents of a vector are its extent along its axis.
pub proof fn lemma_vector_extents(shape: [u32; 4], axis: int)
    requires
        is_vector_along(shape, axis),
    ensures
        shape[0] * shape[1] == shape[axis],
        shape[0] * shape[1] * shape[2] == shape[axis],
        shape[0] * shape[1] * shape[2] * shape[3] == shape[axis],
        extents_fit(shape),
{
    let a = shape[0] as int;
    let b = shape[1] as int;
    assert(a * 1 == a && 1 * b == b && a * 1 * 1 == a && 1 * b * 1 == b && a * 1 * 1 * 1 == a && 1
        * b * 1 * 1 == b) by (nonlinear_arith);
}

impl<B> GpuTensor<B> {
    /// Whether appending `count` elements makes the buffer grow: it does
    /// when the new length exceeds the capacity.
    pub open spec fn append_grows(&self, count: usize) -> bool {
        self.spec_len() + count > self.spec_capacity()
    }

    /// Why `count` elements cannot be appended, if they cannot: the tensor
    /// is not a vector, or the new length, or the capacity to grow to, does
    /// not fit in 32 bits.
    pub open spec fn append_refusal(&self, count: usize) -> Option<TensorError> {
        if self.vector_axis() is None {
            Some(TensorError::NotAVector)
        } else if self.spec_len() + count > 0xffff_ffff {
            Some(TensorError::Overflow)
        } else if self.append_grows(count) && self.spec_len() + count > 0x8000_0000 {
            Some(TensorError::Overflow)
        } else {
            None
        }
    }

    /// The buffer to allocate when the tensor grows by `count` elements: the
    /// next power of two of the new length, for the usages of the tensor and
    /// as the destination of a copy.
    pub open spec fn growth_request(&self, count: usize) -> BufferRequest {
        BufferRequest {
            len: spec_next_power_of_two(self.spec_len() + count) as usize,
            usage: BufferUsages { bits: self.spec_usage().bits | COPY_DST },
            encoding: self.spec_encoding(),
            initialized: false,
        }
    }

    /// What appending `count` elements asks of the device, or why they
    /// cannot be appended.
    pub open spec fn spec_append(&self, count: usize) -> Result<AppendPlan, TensorError> {
        match self.append_refusal(count) {
            Some(e) => Err(e),
            None => Ok(
                AppendPlan {
                    grow: if self.append_grows(count) {
                        Some(self.growth_request(count))
                    } else {
                        None
                    },
                    kept: self.spec_len() as usize,
                    write_offset: self.spec_len() as u64,
                    new_len: (self.spec_len() + count) as u32,
                },
            ),
        }
    }

    /// Whether this tensor and `after` differ by their shape alone, which
    /// has `len` along the axis of the vector in `after`.
    pub open spec fn resized_to(&self, after: GpuTensor<B>, len: int) -> bool {
        &&& self.vector_axis() matches Some(axis)
        &&& 0 <= len <= 0xffff_ffff
        &&& after.spec_shape() == with_extent(self.spec_shape(), axis, len as u32)
        &&& after.spec_ordering() == self.spec_ordering()
        &&& after.spec_encoding() == self.spec_encoding()
    }

    /// Whether `r` and `after` are what is left once `count` elements were
    /// appended, `fresh` being the buffer that was allocated for it, if one
    /// was.
    ///
    /// Where the elements cannot be appended, or the tensor has to grow and
    /// no buffer is given, the tensor is as it was. Else it is `count`
    /// elements longer. Where it had to grow it owns the new buffer and hands
    /// back the one it had; where it had not, it hands back the buffer that
    /// was given, if one was.
    pub open spec fn append_committed(
        &self,
        count: usize,
        fresh: Option<B>,
        r: Result<Option<B>, TensorError>,
        after: GpuTensor<B>,
    ) -> bool {
        match self.spec_append(count) {
            Err(e) => r == Err::<Option<B>, TensorError>(e) && after == *self,
            Ok(plan) => match plan.grow {
                Some(request) => match fresh {
                    Some(buffer) => {
                        &&& r == Ok::<Option<B>, TensorError>(Some(self.spec_buffer()))
                        &&& self.resized_to(after, plan.new_len as int)
                        &&& after.spec_buffer() == buffer
                        &&& after.spec_capacity() == request.len
                        &&& after.spec_usage() == request.usage
                    },
                    None => r == Err::<Option<B>, TensorError>(TensorError::MissingBuffer)
                        && after == *self,
                },
                None => {
                    &&& r == Ok::<Option<B>, TensorError>(fresh)
                    &&& self.resized_to(after, plan.new_len as int)
                    &&& after.spec_buffer() == self.spec_buffer()
                    &&& after.spec_capacity() == self.spec_capacity()
                    &&& after.spec_usage() == self.spec_usage()
                },
            },
        }
    }

    /// What removing the range from `start` to `end` asks of the device, or
    /// why it cannot be removed. An empty range asks for nothing; a range
    /// that reaches the end of the vector asks for no copy.
    pub open spec fn spec_shift_remove(&self, start: RangeBound, end: RangeBound) -> Result<
        RemovePlan,
        TensorError,
    > {
        let len = self.spec_len();
        let first = range_start(start);
        let last = range_end(end, len);
        let moved = (len - last) as usize;
        if self.vector_axis() is None {
            Err(TensorError::NotAVector)
        } else if last <= first {
            Ok(RemovePlan { removed: 0, shift: None })
        } else if last > len {
            Err(TensorError::OutOfBounds)
        } else {
            Ok(
                RemovePlan {
                    removed: (last - first) as usize,
                    shift: if moved > 0 {
                        Some(
                            Shift {
                                staging: BufferRequest {
                                    len: moved,
                                    usage: staging_usage(),
                                    encoding: self.spec_encoding(),
                                    initialized: false,
                                },
                                save: BufferCopy {
                                    source_offset: last as usize,
                                    target_offset: 0,
                                    len: moved,
                                },
                                restore: BufferCopy {
                                    source_offset: 0,
                                    target_offset: first as usize,
                                    len: moved,
                                },
                            },
                        )
                    } else {
                        None
                    },
                },
            )
        }
    }

    /// Whether `r` and `after` are what is left once the range from `start`
    /// to `end` was removed: the number of elements that were removed, and a
    /// tensor that is shorter by as many, or the refusal and the tensor as it
    /// was.
    pub open spec fn remove_committed(
        &self,
        start: RangeBound,
        end: RangeBound,
        r: Result<usize, TensorError>,
        after: GpuTensor<B>,
    ) -> bool {
        match self.spec_shift_remove(start, end) {
            Err(e) => r == Err::<usize, TensorError>(e) && after == *self,
            Ok(plan) => {
                &&& r == Ok::<usize, TensorError>(plan.removed)
                &&& self.resized_to(after, self.spec_len() - plan.removed)
                &&& after.spec_buffer() == self.spec_buffer()
                &&& after.spec_capacity() == self.spec_capacity()
                &&& after.spec_usage() == self.spec_usage()
            },
        }
    }

    /// What the device has to do to append `count` elements to the tensor,
    /// which must be a vector: every extent is 1 but the one along the unit
    /// axis of its ordering. The tensor stays as it is until
    /// [`GpuTensor::commit_append`].
    ///
    /// If the new length exceeds the capacity, a buffer of the next power of
    /// two of the new length is to be allocated, and the elements of the
    /// vector copied to it. In any case the new elements are to be written
    /// after them.
    pub fn try_append(&self, count: usize) -> (r: Result<AppendPlan, TensorError>)
        requires
            self.wf(),
        ensures
            r == self.spec_append(count),
    {
        proof {
            self.lemma_fields();
        }
        let dim = match self.try_vector_dim() {
            Ok(dim) => dim,
            Err(e) => {
                return Err(e);
            },
        };
        proof {
            lemma_vector_extents(self.shape, dim as int);
        }
        let curr_len: u32 = self.shape[dim];
        if count > (0xffff_ffff - curr_len) as usize {
            return Err(TensorError::Overflow);
        }
        let new_len: u32 = curr_len + count as u32;
        let grow = if new_len as u64 > self.capacity as u64 {
            if new_len > 0x8000_0000 {
                return Err(TensorError::Overflow);
            }
            Some(
                BufferRequest {
                    len: next_power_of_two(new_len) as usize,
                    usage: BufferUsages::from_bits(self.usage.bits() | COPY_DST),
                    encoding: self.encoding,
                    initialized: false,
                },
            )
        } else {
            None
        };
        Ok(AppendPlan { grow, kept: curr_len as usize, write_offset: curr_len as u64, new_len })
    }

    /// The same as [`GpuTensor::append`]: the encoding of the tensor goes
    /// with the request for a new buffer.
    pub fn try_append_encased(&self, count: usize) -> (r: Result<AppendPlan, TensorError>)
        requires
            self.wf(),
        ensures
            r == self.spec_append(count),
    {
        self.try_append(count)
    }

    /// Makes the tensor `count` elements longer, once the device has done
    /// what [`GpuTensor::append`] asked: `fresh` is the buffer that was
    /// allocated, where one was asked for. Hands back the buffer that the
    /// tensor does not keep.
    ///
    /// Refused as [`GpuTensor::append`] refuses, and with
    /// [`TensorError::MissingBuffer`] where the tensor has to grow and
    /// `fresh` is `None`. A tensor that is refused stays as it was.
    pub fn try_commit_append(&mut self, count: usize, fresh: Option<B>) -> (r: Result<
        Option<B>,
        TensorError,
    >)
        requires
            old(self).wf(),
        ensures
            final(self).wf(),
            old(self).append_committed(count, fresh, r, *final(self)),
    {
        proof {
            self.lemma_fields();
        }
        let plan = match self.try_append(count) {
            Ok(plan) => plan,
            Err(e) => {
                return Err(e);
            },
        };
        let dim = self.vector_dim();
        let handed_back = match plan.grow {
            Some(request) => match fresh {
                Some(buffer) => {
                    let mut buffer = buffer;
                    core::mem::swap(&mut self.buffer, &mut buffer);
                    self.capacity = request.len;
                    self.usage = request.usage;
                    proof {
                        lemma_next_power_of_two(plan.new_len as int);
                    }
                    Some(buffer)
                },
                None => {
                    return Err(TensorError::MissingBuffer);
                },
            },
            None => fresh,
        };
        self.shape[dim] = plan.new_len;
        proof {
            self.lemma_fields();
            assert(self.shape =~= with_extent(old(self).shape, dim as int, plan.new_len));
            lemma_vector_extents(old(self).shape, dim as int);
            lemma_vector_extents(self.shape, dim as int);
        }
        Ok(handed_back)
    }

    /// What the device has to do to remove the elements from `start` to
    /// `end` from the tensor, which must be a vector. The elements after the
    /// range take their place: the device has to copy them to a staging
    /// buffer and back. The tensor stays as it is until
    /// [`GpuTensor::commit_remove`].
    ///
    /// An empty range removes nothing. A range that reaches past the end of
    /// the vector is refused.
    pub fn try_shift_remove(&self, start: RangeBound, end: RangeBound) -> (r: Result<
        RemovePlan,
        TensorError,
    >)
        requires
            self.wf(),
        ensures
            r == self.spec_shift_remove(start, end),
    {
        proof {
            self.lemma_fields();
        }
        let dim = match self.try_vector_dim() {
            Ok(dim) => dim,
            Err(e) => {
                return Err(e);
            },
        };
        proof {
            lemma_vector_extents(self.shape, dim as int);
        }
        let curr_len: usize = self.shape[dim] as usize;
        let empty = RemovePlan { removed: 0, shift: None };
        let first: usize = match start {
            RangeBound::Included(i) => i,
            RangeBound::Excluded(i) => {
                if i == usize::MAX {
                    return Ok(empty);
                }
                i + 1
            },
            RangeBound::Unbounded => 0,
        };
        let last: usize = match end {
            RangeBound::Included(i) => {
                if i == usize::MAX {
                    return Err(TensorError::OutOfBounds);
                }
                i + 1
            },
            RangeBound::Excluded(i) => i,
            RangeBound::Unbounded => curr_len,
        };
        if last <= first {
            return Ok(empty);
        }
        if last > curr_len {
            return Err(TensorError::OutOfBounds);
        }
        let moved: usize = curr_len - last;
        let shift = if moved > 0 {
            Some(
                Shift {
                    staging: BufferRequest {
                        len: moved,
                        usage: BufferUsages::from_bits(STORAGE | COPY_DST | COPY_SRC),
                        encoding: self.encoding,
                        initialized: false,
                    },
                    save: BufferCopy { source_offset: last, target_offset: 0, len: moved },
                    restore: BufferCopy { source_offset: 0, target_offset: first, len: moved },
                },
            )
        } else {
            None
        };
        Ok(RemovePlan { removed: last - first, shift })
    }

    /// The same as [`GpuTensor::shift_remove`]: the encoding of the tensor
    /// goes with the request for a staging buffer.
    pub fn try_shift_remove_encased(&self, start: RangeBound, end: RangeBound) -> (r: Result<
        RemovePlan,
        TensorError,
    >)
        requires
            self.wf(),
        ensures
            r == self.spec_shift_remove(start, end),
    {
        self.try_shift_remove(start, end)
    }

    /// Makes the tensor shorter by the range from `start` to `end`, once the
    /// device has done what [`GpuTensor::shift_remove`] asked. Gives the
    /// number of elements that were removed. The capacity stays as it is.
    ///
    /// Refused as [`GpuTensor::shift_remove`] refuses; a tensor that is
    /// refused stays as it was.
    pub fn try_commit_remove(&mut self, start: RangeBound, end: RangeBound) -> (r: Result<
        usize,
        TensorError,
    >)
        requires
            old(self).wf(),
        ensures
            final(self).wf(),
            old(self).remove_committed(start, end, r, *final(self)),
    {
        proof {
            self.lemma_fields();
        }
        let plan = match self.try_shift_remove(start, end) {
            Ok(plan) => plan,
            Err(e) => {
                return Err(e);
            },
        };
        let dim = self.vector_dim();
        proof {
            lemma_vector_extents(self.shape, dim as int);
        }
        let new_len: u32 = (self.shape[dim] as usize - plan.removed) as u32;
        self.shape[dim] = new_len;
        proof {
            self.lemma_fields();
            assert(self.shape =~= with_extent(old(self).shape, dim as int, new_len));
            lemma_vector_extents(self.shape, dim as int);
        }
        Ok(plan.removed)
    }
}

/// The length of a vector is its extent along its axis.
pub proof fn lemma_vector_len<B>(tensor: GpuTensor<B>)
    requires
        tensor.vector_axis() is Some,
    ensures
        tensor.spec_len() == tensor.spec_shape()[tensor.vector_axis()->0],
{
    lemma_vector_extents(tensor.spec_shape(), tensor.vector_axis()->0);
}

/// A vector that was resized to `len` elements is a vector of `len`
/// elements.
pub proof fn lemma_resized_len<B>(before: GpuTensor<B>, after: GpuTensor<B>, len: int)
    requires
        before.resized_to(after, len),
    ensures
        after.vector_axis() == before.vector_axis(),
        after.spec_len() == len,
{
    lemma_vector_extents(after.spec_shape(), before.vector_axis()->0);
}

/// Appending `count` elements makes the vector exactly `count` elements
/// longer and keeps every element it had: once the device has done its part
/// and the tensor has its new length, its buffer holds the old elements,
/// then the new ones, and all of them lie within its capacity. The buffer
/// grows only where the new length exceeds the capacity.
pub proof fn lemma_append_keeps_prefix<B, T>(
    before: GpuTensor<B>,
    after: GpuTensor<B>,
    count: usize,
    fresh: Option<B>,
    r: Result<Option<B>, TensorError>,
    contents: Seq<T>,
    allocated: Seq<T>,
    data: Seq<T>,
)
    requires
        before.wf(),
        before.append_committed(count, fresh, r, after),
        r is Ok,
        contents.len() == before.spec_capacity(),
        allocated.len() == after.spec_capacity(),
        data.len() == count,
    ensures
        before.spec_append(count) is Ok,
        after.spec_len() == before.spec_len() + count,
        after.spec_len() <= after.spec_capacity(),
        before.spec_len() + count <= before.spec_capacity() ==> after.spec_capacity()
            == before.spec_capacity() && after.spec_buffer() == before.spec_buffer(),
        before.spec_append(count)->Ok_0.contents_after(contents, allocated, data).len()
            == after.spec_capacity(),
        before.spec_append(count)->Ok_0.contents_after(contents, allocated, data).subrange(
            0,
            before.spec_len(),
        ) == contents.subrange(0, before.spec_len()),
        before.spec_append(count)->Ok_0.contents_after(contents, allocated, data).subrange(
            before.spec_len(),
            after.spec_len(),
        ) == data,
{
    let plan = before.spec_append(count)->Ok_0;
    let len = before.spec_len();
    lemma_resized_len(before, after, len + count);
    lemma_next_power_of_two(len + count);
    let result = plan.contents_after(contents, allocated, data);
    assert(result.subrange(0, len) =~= contents.subrange(0, len));
    assert(result.subrange(len, len + count) =~= data);
}

/// Removing an empty range removes nothing, asks nothing of the device, and
/// leaves the tensor as it was.
pub proof fn lemma_remove_empty_range<B>(
    before: GpuTensor<B>,
    after: GpuTensor<B>,
    start: RangeBound,
    end: RangeBound,
    r: Result<usize, TensorError>,
)
    requires
        before.wf(),
        before.vector_axis() is Some,
        range_end(end, before.spec_len()) <= range_start(start),
        before.remove_committed(start, end, r, after),
    ensures
        before.spec_shift_remove(start, end) == Ok::<RemovePlan, TensorError>(
            RemovePlan { removed: 0, shift: None },
        ),
        r == Ok::<usize, TensorError>(0),
        after.spec_shape() == before.spec_shape(),
        after.spec_len() == before.spec_len(),
        after.spec_buffer() == before.spec_buffer(),
        after.spec_capacity() == before.spec_capacity(),
{
    lemma_vector_len(before);
    assert(after.spec_shape() =~= before.spec_shape());
}

/// Removing a range that is not empty removes exactly its elements and
/// closes the gap: once the device has done its part and the tensor has its
/// new length, the elements before the range are where they were, and the
/// elements after it follow them.
pub proof fn lemma_remove_closes_gap<B, T>(
    before: GpuTensor<B>,
    after: GpuTensor<B>,
    start: RangeBound,
    end: RangeBound,
    r: Result<usize, TensorError>,
    contents: Seq<T>,
    staging: Seq<T>,
)
    requires
        before.wf(),
        range_start(start) < range_end(end, before.spec_len()),
        before.remove_committed(start, end, r, after),
        r is Ok,
        contents.len() == before.spec_capacity(),
        before.spec_shift_remove(start, end)->Ok_0.shift matches Some(shift) ==> staging.len()
            == shift.staging.len,
    ensures
        r == Ok::<usize, TensorError>(
            (range_end(end, before.spec_len()) - range_start(start)) as usize,
        ),
        after.spec_len() == before.spec_len() - (range_end(end, before.spec_len()) - range_start(
            start,
        )),
        after.spec_capacity() == before.spec_capacity(),
        before.spec_shift_remove(start, end)->Ok_0.contents_after(contents, staging).subrange(
            0,
            range_start(start),
        ) == contents.subrange(0, range_start(start)),
        before.spec_shift_remove(start, end)->Ok_0.contents_after(contents, staging).subrange(
            range_start(start),
            after.spec_len(),
        ) == contents.subrange(range_end(end, before.spec_len()), before.spec_len()),
{
    let plan = before.spec_shift_remove(start, end)->Ok_0;
    let len = before.spec_len();
    let first = range_start(start);
    let last = range_end(end, len);
    lemma_resized_len(before, after, len - plan.removed);
    let result = plan.contents_after(contents, staging);
    assert(result.subrange(0, first) =~= contents.subrange(0, first));
    assert(result.subrange(first, len - (last - first)) =~= contents.subrange(last, len));
}

impl<B> GpuTensor<B> {
    /// What the device has to do to append `count` elements to the tensor.
    /// The tensor stays as it is until [`GpuTensor::commit_append`].
    ///
    /// The tensor has to be a vector: every extent is 1 but the one along
    /// the unit axis of its ordering. The new length, and the capacity to
    /// grow to, have to fit in 32 bits. [`GpuTensor::try_append`] tests all
    /// of it.
    ///
    /// If the new length exceeds the capacity, a buffer of the next power of
    /// two of the new length is to be allocated, and the elements of the
    /// vector copied to it. In any case the new elements are to be written
    /// after them.
    pub fn append(&self, count: usize) -> (r: AppendPlan)
        requires
            self.wf(),
            self.vector_axis() is Some,
            self.append_refusal(count) is None,
        ensures
            self.spec_append(count) == Ok::<AppendPlan, TensorError>(r),
    {
        self.try_append(count).unwrap()
    }

    /// The same as [`GpuTensor::append`]: the encoding of the tensor goes
    /// with the request for a new buffer.
    pub fn append_encased(&self, count: usize) -> (r: AppendPlan)
        requires
            self.wf(),
            self.vector_axis() is Some,
            self.append_refusal(count) is None,
        ensures
            self.spec_append(count) == Ok::<AppendPlan, TensorError>(r),
    {
        self.try_append(count).unwrap()
    }

    /// What the device has to do to remove the elements from `start` to
    /// `end` from the tensor. The elements after the range take their place:
    /// the device has to copy them to a staging buffer and back. The tensor
    /// stays as it is until [`GpuTensor::commit_remove`].
    ///
    /// The tensor has to be a vector, and a range that is not empty has to
    /// end within it. [`GpuTensor::try_shift_remove`] tests both. An empty
    /// range removes nothing.
    pub fn shift_remove(&self, start: RangeBound, end: RangeBound) -> (r: RemovePlan)
        requires
            self.wf(),
            self.vector_axis() is Some,
            range_start(start) < range_end(end, self.spec_len()) ==> range_end(
                end,
                self.spec_len(),
            ) <= self.spec_len(),
        ensures
            self.spec_shift_remove(start, end) == Ok::<RemovePlan, TensorError>(r),
    {
        self.try_shift_remove(start, end).unwrap()
    }

    /// The same as [`GpuTensor::shift_remove`]: the encoding of the tensor
    /// goes with the request for a staging buffer.
    pub fn shift_remove_encased(&self, start: RangeBound, end: RangeBound) -> (r: RemovePlan)
        requires
            self.wf(),
            self.vector_axis() is Some,
            range_start(start) < range_end(end, self.spec_len()) ==> range_end(
                end,
                self.spec_len(),
            ) <= self.spec_len(),
        ensures
            self.spec_shift_remove(start, end) == Ok::<RemovePlan, TensorError>(r),
    {
        self.try_shift_remove(start, end).unwrap()
    }
}

impl<B> GpuTensor<B> {
    /// Makes the tensor `count` elements longer, once the device has done
    /// what [`GpuTensor::append`] asked: `fresh` is the buffer that was
    /// allocated, where one was asked for. Hands back the buffer that the
    /// tensor does not keep.
    ///
    /// The elements have to be such as [`GpuTensor::append`] takes, and a
    /// buffer has to be given where the tensor has to grow.
    /// [`GpuTensor::try_commit_append`] tests both.
    pub fn commit_append(&mut self, count: usize, fresh: Option<B>) -> (r: Option<B>)
        requires
            old(self).wf(),
            old(self).vector_axis() is Some,
            old(self).append_refusal(count) is None,
            old(self).append_grows(count) ==> fresh is Some,
        ensures
            final(self).wf(),
            old(self).append_committed(count, fresh, Ok(r), *final(self)),
    {
        self.try_commit_append(count, fresh).unwrap()
    }

    /// Makes the tensor shorter by the range from `start` to `end`, once the
    /// device has done what [`GpuTensor::shift_remove`] asked. Gives the
    /// number of elements that were removed. The capacity stays as it is.
    ///
    /// The range has to be such as [`GpuTensor::shift_remove`] takes, which
    /// [`GpuTensor::try_commit_remove`] tests.
    pub fn commit_remove(&mut self, start: RangeBound, end: RangeBound) -> (r: usize)
        requires
            old(self).wf(),
            old(self).vector_axis() is Some,
            range_start(start) < range_end(end, old(self).spec_len()) ==> range_end(
                end,
                old(self).spec_len(),
            ) <= old(self).spec_len(),
        ensures
            final(self).wf(),
            old(self).remove_committed(start, end, Ok(r), *final(self)),
    {
        self.try_commit_remove(start, end).unwrap()
    }
}

} // verus!
