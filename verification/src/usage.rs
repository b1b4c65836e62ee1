//! What a device buffer may be used for.

use vstd::prelude::*;

verus! {

/// The buffer can be mapped for reading by the host.
pub const MAP_READ: u32 = 0x1;

/// The buffer can be mapped for writing by the host.
pub const MAP_WRITE: u32 = 0x2;

/// The buffer can be the source of a copy.
pub const COPY_SRC: u32 = 0x4;

/// The buffer can be the destination of a copy or of a host write.
pub const COPY_DST: u32 = 0x8;

/// The buffer can hold indices.
pub const INDEX: u32 = 0x10;

/// The buffer can hold vertices.
pub const VERTEX: u32 = 0x20;

/// The buffer can be bound as a uniform.
pub const UNIFORM: u32 = 0x40;

/// The buffer can be bound as storage.
pub const STORAGE: u32 = 0x80;

/// The buffer can hold the arguments of an indirect dispatch.
pub const INDIRECT: u32 = 0x100;

/// The buffer can receive the results of queries.
pub const QUERY_RESOLVE: u32 = 0x200;

/// A set of buffer usages, one bit for each.
#[derive(Copy, Clone, PartialEq, Eq, Structural, Debug, Hash)]
pub struct BufferUsages {
    /// The usages, as the union of their bits.
    pub bits: u32,
}

impl BufferUsages {
    /// The set with exactly the usages whose bits are set in `bits`.
    pub fn from_bits(bits: u32) -> (r: BufferUsages)
        ensures
            r.bits == bits,
    {
        BufferUsages { bits }
    }

    /// The bits of the usages in the set.
    pub fn bits(&self) -> (r: u32)
        ensures
            r == self.bits,
    {
        self.bits
    }

    /// The usages that are in `self` or in `other`.
    pub fn union(self, other: BufferUsages) -> (r: BufferUsages)
        ensures
            r.bits == self.bits | other.bits,
    {
        BufferUsages { bits: self.bits | other.bits }
    }

    /// Whether every usage of `other` is in `self`.
    pub fn contains(&self, other: BufferUsages) -> (r: bool)
        ensures
            r == (self.bits & other.bits == other.bits),
    {
        self.bits & other.bits == other.bits
    }
}

} // verus!
