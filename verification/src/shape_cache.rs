//! A cache of the device buffers that hold shapes for the kernels.
//!
//! A kernel reads the shape of each of its operands from a small device
//! buffer. The cache keeps one such buffer per shape, in two pools: a
//! persistent one, and a temporary one whose buffers are recycled when it is
//! cleared. The cache never talks to the device: it answers what the device
//! has to do before a shape is available, and takes back the buffer once that
//! is done.

use vstd::prelude::*;

use crate::shapes::ViewShape;
use crate::usage::{BufferUsages, COPY_DST, STORAGE, UNIFORM};

verus! {

/// What the device has to do before a shape can be read by a kernel.
pub enum ShapeUpload<H> {
    /// Nothing: a buffer with this shape is cached already.
    Cached,
    /// Write the shape into this buffer, taken from the recycled ones, and
    /// store it in the temporary pool.
    Rewrite { buffer: H },
    /// Allocate a buffer initialized with the shape, for these usages, and
    /// store it in the pool that was asked.
    Allocate { usage: BufferUsages },
}

/// The contents of a [`ViewShapeBuffers`].
pub ghost struct ShapeCacheView<H> {
    /// The buffers of the persistent pool, by shape.
    pub persistent: Map<ViewShape, H>,
    /// The buffers of the temporary pool, by shape.
    pub temporary: Map<ViewShape, H>,
    /// The buffers that wait to be written again, last recycled last.
    pub recycled: Seq<H>,
}

/// The usages of a buffer of the persistent pool.
pub open spec fn persistent_usage() -> BufferUsages {
    BufferUsages { bits: UNIFORM | STORAGE }
}

/// The usages of a buffer of the temporary pool.
pub open spec fn temporary_usage() -> BufferUsages {
    BufferUsages { bits: UNIFORM | COPY_DST | STORAGE }
}

impl<H> ShapeCacheView<H> {
    /// Whether one of the two pools has a buffer for `shape`.
    pub open spec fn contains(self, shape: ViewShape) -> bool {
        self.persistent.contains_key(shape) || self.temporary.contains_key(shape)
    }

    /// The buffer for `shape`; the temporary pool comes first.
    pub open spec fn get(self, shape: ViewShape) -> Option<H> {
        if self.temporary.contains_key(shape) {
            Some(self.temporary[shape])
        } else if self.persistent.contains_key(shape) {
            Some(self.persistent[shape])
        } else {
            None
        }
    }

    /// What is asked of the device when `shape` is wanted in the persistent
    /// pool.
    pub open spec fn insert_request(self, shape: ViewShape) -> ShapeUpload<H> {
        if self.contains(shape) {
            ShapeUpload::Cached
        } else {
            ShapeUpload::Allocate { usage: persistent_usage() }
        }
    }

    /// What is asked of the device when `shape` is wanted in the temporary
    /// pool: a recycled buffer is written again before a new one is allocated.
    pub open spec fn put_tmp_request(self, shape: ViewShape) -> ShapeUpload<H> {
        if self.contains(shape) {
            ShapeUpload::Cached
        } else if self.recycled.len() > 0 {
            ShapeUpload::Rewrite { buffer: self.recycled.last() }
        } else {
            ShapeUpload::Allocate { usage: temporary_usage() }
        }
    }

    /// The cache once `shape` was asked for in the temporary pool: the
    /// recycled buffer that is handed out has left it.
    pub open spec fn after_put_tmp(self, shape: ViewShape) -> ShapeCacheView<H> {
        if !self.contains(shape) && self.recycled.len() > 0 {
            ShapeCacheView { recycled: self.recycled.drop_last(), ..self }
        } else {
            self
        }
    }

    /// The cache once `buffer` was offered to the persistent pool for `shape`:
    /// a shape that is cached keeps the buffer it has.
    pub open spec fn after_store(self, shape: ViewShape, buffer: H) -> ShapeCacheView<H> {
        if self.contains(shape) {
            self
        } else {
            ShapeCacheView { persistent: self.persistent.insert(shape, buffer), ..self }
        }
    }

    /// The cache once `buffer` was offered to the temporary pool for `shape`:
    /// a shape that is cached keeps the buffer it has.
    pub open spec fn after_store_tmp(self, shape: ViewShape, buffer: H) -> ShapeCacheView<H> {
        if self.contains(shape) {
            self
        } else {
            ShapeCacheView { temporary: self.temporary.insert(shape, buffer), ..self }
        }
    }

    /// Whether `after` is this cache with its temporary pool cleared: the
    /// persistent pool is as before, the temporary pool is empty, and each of
    /// its buffers was added to the recycled ones, once, in the order
    /// `order` of their shapes.
    pub open spec fn cleared_in_order(
        self,
        after: ShapeCacheView<H>,
        order: Seq<ViewShape>,
    ) -> bool {
        &&& order.no_duplicates()
        &&& forall|shape: ViewShape| order.contains(shape) <==> self.temporary.contains_key(shape)
        &&& after.persistent == self.persistent
        &&& after.temporary == Map::<ViewShape, H>::empty()
        &&& after.recycled == self.recycled + Seq::new(
            order.len(),
            |i: int| self.temporary[order[i]],
        )
    }

    /// Whether `after` is this cache with its temporary pool cleared, the
    /// buffers recycled in some order.
    pub open spec fn cleared(self, after: ShapeCacheView<H>) -> bool {
        exists|order: Seq<ViewShape>| self.cleared_in_order(after, order)
    }
}

/// Whether `entries` has an entry for `key`.
spec fn has_key<H>(entries: Seq<(ViewShape, H)>, key: ViewShape) -> bool {
    exists|i: int| 0 <= i < entries.len() && (#[trigger] entries[i]).0 == key
}

/// The place of an entry for `key` in `entries`.
spec fn position<H>(entries: Seq<(ViewShape, H)>, key: ViewShape) -> int {
    choose|i: int| 0 <= i < entries.len() && (#[trigger] entries[i]).0 == key
}

/// Whether no two entries have the same key.
spec fn distinct_keys<H>(entries: Seq<(ViewShape, H)>) -> bool {
    forall|i: int, j: int|
        0 <= i < j < entries.len() ==> (#[trigger] entries[i]).0 != (#[trigger] entries[j]).0
}

/// The map from each key of `entries` to the buffer it comes with.
spec fn entries_map<H>(entries: Seq<(ViewShape, H)>) -> Map<ViewShape, H> {
    Map::new(|key: ViewShape| has_key(entries, key), |key: ViewShape| entries[position(entries, key)].1)
}

/// Where no two entries have the same key, the map sends the key of each
/// entry to the buffer of that entry.
proof fn lemma_entry_lookup<H>(entries: Seq<(ViewShape, H)>, i: int)
    requires
        distinct_keys(entries),
        0 <= i < entries.len(),
    ensures
        has_key(entries, entries[i].0),
        entries_map(entries).contains_key(entries[i].0),
        entries_map(entries)[entries[i].0] == entries[i].1,
{
    let key = entries[i].0;
    assert(has_key(entries, key));
    let at = position(entries, key);
    assert(0 <= at < entries.len() && entries[at].0 == key);
    if at < i {
        assert(entries[at].0 != entries[i].0);
    } else if i < at {
        assert(entries[i].0 != entries[at].0);
    }
}

/// An entry with a new key, added at the end, is an insertion in the map.
proof fn lemma_entry_push<H>(entries: Seq<(ViewShape, H)>, key: ViewShape, buffer: H)
    requires
        distinct_keys(entries),
        !has_key(entries, key),
    ensures
        distinct_keys(entries.push((key, buffer))),
        entries_map(entries.push((key, buffer))) == entries_map(entries).insert(key, buffer),
{
    let pushed = entries.push((key, buffer));
    assert forall|i: int, j: int| 0 <= i < j < pushed.len() implies (#[trigger] pushed[i]).0 != (
    #[trigger] pushed[j]).0 by {
        if j < entries.len() {
            assert(entries[i].0 != entries[j].0);
        } else {
            assert(entries[i].0 == pushed[i].0);
        }
    }
    assert forall|k: ViewShape| has_key(pushed, k) <==> (k == key || has_key(entries, k)) by {
        if has_key(pushed, k) {
            let i = position(pushed, k);
            if i < entries.len() {
                assert(entries[i].0 == k);
            }
        }
        if k == key {
            assert(pushed[entries.len() as int].0 == k);
        }
        if has_key(entries, k) {
            let i = position(entries, k);
            assert(pushed[i].0 == k);
        }
    }
    assert forall|k: ViewShape| has_key(pushed, k) implies #[trigger] entries_map(pushed)[k]
        == entries_map(entries).insert(key, buffer)[k] by {
        let i = position(pushed, k);
        lemma_entry_lookup(pushed, i);
        if i < entries.len() {
            assert(entries[i].0 == k);
            lemma_entry_lookup(entries, i);
        }
    }
    assert(entries_map(pushed) =~= entries_map(entries).insert(key, buffer));
}

/// A cache of device buffers of type `H`, each holding one shape.
pub struct ViewShapeBuffers<H> {
    buffers: Vec<(ViewShape, H)>,
    tmp_buffers: Vec<(ViewShape, H)>,
    recycled: Vec<H>,
}

impl<H> View for ViewShapeBuffers<H> {
    type V = ShapeCacheView<H>;

    closed spec fn view(&self) -> ShapeCacheView<H> {
        ShapeCacheView {
            persistent: entries_map(self.buffers@),
            temporary: entries_map(self.tmp_buffers@),
            recycled: self.recycled@,
        }
    }
}

/// The place of the entry for `shape`, if there is one.
fn find<H>(entries: &Vec<(ViewShape, H)>, shape: ViewShape) -> (r: Option<usize>)
    ensures
        match r {
            Some(i) => i < entries.len() && entries[i as int].0 == shape,
            None => !has_key(entries@, shape),
        },
{
    let mut i: usize = 0;
    while i < entries.len()
        invariant
            i <= entries.len(),
            forall|j: int| 0 <= j < i ==> (#[trigger] entries[j]).0 != shape,
        decreases entries.len() - i,
    {
        if entries[i].0 == shape {
            return Some(i);
        }
        i += 1;
    }
    None
}

impl<H> ViewShapeBuffers<H> {
    /// Whether the cache is well formed: no pool holds two buffers for one
    /// shape.
    pub closed spec fn wf(&self) -> bool {
        distinct_keys(self.buffers@) && distinct_keys(self.tmp_buffers@)
    }

    /// An empty cache.
    pub fn new() -> (r: Self)
        ensures
            r.wf(),
            r@.persistent == Map::<ViewShape, H>::empty(),
            r@.temporary == Map::<ViewShape, H>::empty(),
            r@.recycled == Seq::<H>::empty(),
    {
        let r = ViewShapeBuffers { buffers: Vec::new(), tmp_buffers: Vec::new(), recycled: Vec::new() };
        assert(r@.persistent =~= Map::<ViewShape, H>::empty());
        assert(r@.temporary =~= Map::<ViewShape, H>::empty());
        r
    }

    /// Empties the temporary pool. Its buffers are kept: each one joins the
    /// recycled buffers, and is written again before any new buffer is
    /// allocated for the temporary pool.
    pub fn clear_tmp(&mut self)
        requires
            old(self).wf(),
        ensures
            final(self).wf(),
            old(self)@.cleared(final(self)@),
    {
        let ghost entries = self.tmp_buffers@;
        let ghost before = self@;
        while self.tmp_buffers.len() > 0
            invariant
                distinct_keys(entries),
                self.buffers@ == old(self).buffers@,
                self.tmp_buffers@ == entries.take(self.tmp_buffers@.len() as int),
                self.tmp_buffers@.len() <= entries.len(),
                self.recycled@ == before.recycled + Seq::new(
                    (entries.len() - self.tmp_buffers@.len()) as nat,
                    |i: int| entries[entries.len() - 1 - i].1,
                ),
            decreases self.tmp_buffers.len(),
        {
            let ghost n = self.tmp_buffers@.len() as int;
            let ghost recycled = self.recycled@;
            let entry = self.tmp_buffers.pop();
            match entry {
                Some((_, buffer)) => {
                    self.recycled.push(buffer);
                    proof {
                        assert(self.tmp_buffers@ =~= entries.take(n - 1));
                        assert(buffer == entries[n - 1].1);
                        assert(self.recycled@ =~= before.recycled + Seq::new(
                            (entries.len() - (n - 1)) as nat,
                            |i: int| entries[entries.len() - 1 - i].1,
                        ));
                    }
                },
                None => {},
            }
        }
        proof {
            let count = entries.len();
            let order = Seq::new(count, |i: int| entries[count - 1 - i].0);
            assert(self.tmp_buffers@ =~= Seq::<(ViewShape, H)>::empty());
            assert(self@.temporary =~= Map::<ViewShape, H>::empty());
            assert forall|i: int, j: int| 0 <= i < order.len() && 0 <= j < order.len() && i != j implies order[i] != order[j] by {
                if i < j {
                    assert(entries[count - 1 - j].0 != entries[count - 1 - i].0);
                } else {
                    assert(entries[count - 1 - i].0 != entries[count - 1 - j].0);
                }
            }
            assert forall|shape: ViewShape| order.contains(shape) <==> before.temporary.contains_key(shape) by {
                if order.contains(shape) {
                    let i = choose|i: int| 0 <= i < order.len() && order[i] == shape;
                    assert(entries[count - 1 - i].0 == shape);
                }
                if before.temporary.contains_key(shape) {
                    let i = position(entries, shape);
                    assert(order[count - 1 - i] == shape);
                }
            }
            assert forall|i: int| 0 <= i < count implies entries[count - 1 - i].1 == before.temporary[order[i]] by {
                lemma_entry_lookup(entries, count - 1 - i);
            }
            assert(self@.recycled =~= before.recycled + Seq::new(
                order.len(),
                |i: int| before.temporary[order[i]],
            ));
            assert(before.cleared_in_order(self@, order));
        }
    }

    /// Asks for a buffer with `shape` in the temporary pool, and answers what
    /// the device has to do for it. A recycled buffer that is to be written
    /// again leaves the cache with the answer; it comes back through
    /// [`ViewShapeBuffers::store_tmp`].
    pub fn put_tmp(&mut self, shape: ViewShape) -> (r: ShapeUpload<H>)
        requires
            old(self).wf(),
        ensures
            final(self).wf(),
            r == old(self)@.put_tmp_request(shape),
            final(self)@ == old(self)@.after_put_tmp(shape),
    {
        if self.contains(shape) {
            return ShapeUpload::Cached;
        }
        match self.recycled.pop() {
            Some(buffer) => ShapeUpload::Rewrite { buffer },
            None => ShapeUpload::Allocate {
                usage: BufferUsages::from_bits(UNIFORM | COPY_DST | STORAGE),
            },
        }
    }

    /// Stores in the temporary pool the buffer that the device has filled
    /// with `shape`. If the shape is cached already, the cache stays as it is
    /// and the buffer is handed back.
    pub fn store_tmp(&mut self, shape: ViewShape, buffer: H) -> (r: Option<H>)
        requires
            old(self).wf(),
        ensures
            final(self).wf(),
            final(self)@ == old(self)@.after_store_tmp(shape, buffer),
            r == if old(self)@.contains(shape) {
                Some(buffer)
            } else {
                None
            },
    {
        if self.contains(shape) {
            return Some(buffer);
        }
        proof {
            lemma_entry_push(self.tmp_buffers@, shape, buffer);
        }
        self.tmp_buffers.push((shape, buffer));
        None
    }

    /// Whether a buffer with `shape` is cached, in either pool.
    pub fn contains(&self, shape: ViewShape) -> (r: bool)
        requires
            self.wf(),
        ensures
            r == self@.contains(shape),
    {
        find(&self.buffers, shape).is_some() || find(&self.tmp_buffers, shape).is_some()
    }

    /// Asks for a buffer with `shape` in the persistent pool, and answers
    /// what the device has to do for it. A shape that is cached, in either
    /// pool, asks for nothing.
    pub fn insert(&self, shape: ViewShape) -> (r: ShapeUpload<H>)
        requires
            self.wf(),
        ensures
            r == self@.insert_request(shape),
    {
        if self.contains(shape) {
            ShapeUpload::Cached
        } else {
            ShapeUpload::Allocate { usage: BufferUsages::from_bits(UNIFORM | STORAGE) }
        }
    }

    /// Stores in the persistent pool the buffer that the device has
    /// initialized with `shape`. If the shape is cached already, the cache
    /// stays as it is and the buffer is handed back.
    pub fn store(&mut self, shape: ViewShape, buffer: H) -> (r: Option<H>)
        requires
            old(self).wf(),
        ensures
            final(self).wf(),
            final(self)@ == old(self)@.after_store(shape, buffer),
            r == if old(self)@.contains(shape) {
                Some(buffer)
            } else {
                None
            },
    {
        if self.contains(shape) {
            return Some(buffer);
        }
        proof {
            lemma_entry_push(self.buffers@, shape, buffer);
        }
        self.buffers.push((shape, buffer));
        None
    }

    /// The buffer that holds `shape`, if one is cached. The temporary pool
    /// comes before the persistent one.
    pub fn get(&self, shape: ViewShape) -> (r: Option<&H>)
        requires
            self.wf(),
        ensures
            match r {
                Some(buffer) => self@.get(shape) == Some(*buffer),
                None => self@.get(shape) is None,
            },
    {
        match find(&self.tmp_buffers, shape) {
            Some(i) => {
                proof {
                    lemma_entry_lookup(self.tmp_buffers@, i as int);
                }
                Some(&self.tmp_buffers[i].1)
            },
            None => match find(&self.buffers, shape) {
                Some(i) => {
                    proof {
                        lemma_entry_lookup(self.buffers@, i as int);
                    }
                    Some(&self.buffers[i].1)
                },
                None => None,
            },
        }
    }
}

/// A shape that was stored is cached: asking for it again asks nothing of
/// the device, leaves the cache as it is, and finds the buffer that was
/// stored.
pub proof fn lemma_insert_twice<H>(cache: ShapeCacheView<H>, shape: ViewShape, buffer: H)
    requires
        !cache.contains(shape),
    ensures
        cache.insert_request(shape) is Allocate,
        cache.after_store(shape, buffer).insert_request(shape) is Cached,
        cache.after_store(shape, buffer).get(shape) == Some(buffer),
        cache.after_store(shape, buffer).after_store(shape, buffer) == cache.after_store(
            shape,
            buffer,
        ),
{
}

/// The same for the temporary pool.
pub proof fn lemma_put_tmp_twice<H>(cache: ShapeCacheView<H>, shape: ViewShape, buffer: H)
    requires
        !cache.contains(shape),
    ensures
        cache.put_tmp_request(shape) !is Cached,
        cache.after_store_tmp(shape, buffer).put_tmp_request(shape) is Cached,
        cache.after_store_tmp(shape, buffer).after_put_tmp(shape) == cache.after_store_tmp(
            shape,
            buffer,
        ),
        cache.after_store_tmp(shape, buffer).get(shape) == Some(buffer),
{
}

/// After a temporary pool that held a buffer, for the shape `cached`, was
/// cleared, a shape that is not cached gets a recycled buffer rather than a
/// new one: the buffer leaves the recycled ones, and it is one that the
/// temporary pool held before the clearing.
pub proof fn lemma_recycle_after_clear<H>(
    before: ShapeCacheView<H>,
    after: ShapeCacheView<H>,
    cached: ViewShape,
    shape: ViewShape,
)
    requires
        before.cleared(after),
        before.temporary.contains_key(cached),
        !after.contains(shape),
    ensures
        after.put_tmp_request(shape) matches ShapeUpload::Rewrite { buffer } && exists|
            held: ViewShape,
        | before.temporary.contains_key(held) && before.temporary[held] == buffer,
        after.after_put_tmp(shape).recycled.len() + 1 == after.recycled.len(),
        after.recycled.len() > before.recycled.len(),
{
    let order = choose|order: Seq<ViewShape>| before.cleared_in_order(after, order);
    assert(order.contains(cached));
    assert(order.len() > 0);
    let last = order.len() - 1;
    let buffer = after.recycled.last();
    assert(buffer == before.temporary[order[last]]);
    assert(order.contains(order[last]));
}

} // verus!
