use vstd::prelude::*;
use crate::allocator::{array_fits, array_layout, AllocError, Allocator, Block, Layout};

verus! {

/// An exclusively owned, growable region with room for `capacity` values,
/// taken from one allocator. It holds a block exactly when its capacity is
/// not zero, and gives each block back to the allocator once it has a larger one.
pub struct RawVec<T, A: Allocator> {
    block: Option<Block<T>>,
    capacity: usize,
    allocator: A,
    blocks_before: Ghost<nat>,
}

impl<T, A: Allocator> RawVec<T, A> {
    /// The values written into the buffer, in order.
    pub closed spec fn view(&self) -> Seq<T> {
        match self.block {
            Some(b) => b@,
            None => Seq::empty(),
        }
    }

    pub closed spec fn spec_capacity(&self) -> nat {
        self.capacity as nat
    }

    /// The allocator the buffer takes its blocks from.
    pub closed spec fn allocator(&self) -> A {
        self.allocator
    }

    /// How many blocks the allocator had out when the buffer was made.
    pub closed spec fn blocks_before(&self) -> nat {
        self.blocks_before@
    }

    pub closed spec fn inv(&self) -> bool {
        &&& (self.block is Some <==> self.capacity > 0)
        &&& array_fits::<T>(self.capacity as nat)
        &&& (self.block matches Some(b) ==> b.spec_layout() == array_layout::<T>(
            self.capacity as nat,
        ))
    }

    /// Well-formedness: the values fit in the capacity, and the allocator's
    /// live blocks are those it had before plus the one this buffer holds.
    pub open spec fn wf(&self) -> bool {
        &&& self.inv()
        &&& self@.len() <= self.spec_capacity()
        &&& array_fits::<T>(self.spec_capacity())
        &&& self.allocator().live() == self.blocks_before() + (if self.spec_capacity() > 0 {
            1nat
        } else {
            0nat
        })
    }

    /// An empty buffer of capacity zero over `allocator`.
    pub fn new(allocator: A) -> (r: RawVec<T, A>)
        ensures
            r.wf(),
            r@.len() == 0,
            r.spec_capacity() == 0,
            r.allocator() == allocator,
            r.blocks_before() == allocator.live(),
    {
        RawVec { block: None, capacity: 0, allocator, blocks_before: Ghost(allocator.live()) }
    }

    pub fn capacity(&self) -> (r: usize)
        ensures
            r == self.spec_capacity(),
    {
        self.capacity
    }

    /// Makes room for at least `new_capacity` values. A larger block is
    /// taken, the values are moved into it in order, and the old block is
    /// given back. On failure nothing changes.
    pub fn reserve(&mut self, new_capacity: usize) -> (r: Result<(), AllocError>)
        requires
            old(self).wf(),
        ensures
            final(self).wf(),
            final(self)@ == old(self)@,
            final(self).blocks_before() == old(self).blocks_before(),
            new_capacity <= old(self).spec_capacity() ==> r is Ok && final(self).spec_capacity()
                == old(self).spec_capacity(),
            new_capacity > old(self).spec_capacity() ==> match r {
                Ok(()) => final(self).spec_capacity() == new_capacity,
                Err(e) => final(self).spec_capacity() == old(self).spec_capacity() && (e
                    == AllocError::CapacityOverflow <==> !array_fits::<T>(new_capacity as nat)),
            },
            new_capacity > old(self).spec_capacity() && array_fits::<T>(new_capacity as nat)
                && old(self).allocator().grants(array_layout::<T>(new_capacity as nat)) ==> r is Ok,
    {
        if new_capacity <= self.capacity {
            return Ok(());
        }
        let elem = core::mem::size_of::<T>();
        let limit = isize::MAX as usize;
        if elem > 0 && new_capacity > limit / elem {
            proof {
                assert(elem * new_capacity > limit) by (nonlinear_arith)
                    requires
                        elem > 0,
                        new_capacity > limit / elem,
                ;
            }
            return Err(AllocError::CapacityOverflow);
        }
        proof {
            assert(elem * new_capacity <= limit) by (nonlinear_arith)
                requires
                    elem == 0 || new_capacity <= limit / elem,
            ;
        }
        let layout = Layout::from_array_type::<T>(new_capacity);
        match self.allocator.allocate::<T>(layout) {
            None => Err(AllocError::OutOfMemory),
            Some(fresh) => {
                let mut fresh = fresh;
                match self.block.take() {
                    Some(old_block) => {
                        let mut old_block = old_block;
                        fresh.move_from(&mut old_block);
                        self.allocator.deallocate(old_block);
                    },
                    None => {},
                }
                self.block = Some(fresh);
                self.capacity = new_capacity;
                Ok(())
            },
        }
    }

    /// Writes `value` just past the last value.
    pub(crate) fn write(&mut self, value: T)
        requires
            old(self).wf(),
            old(self)@.len() < old(self).spec_capacity(),
        ensures
            final(self).wf(),
            final(self)@ == old(self)@.push(value),
            final(self).spec_capacity() == old(self).spec_capacity(),
            final(self).allocator() == old(self).allocator(),
            final(self).blocks_before() == old(self).blocks_before(),
    {
        match &mut self.block {
            Some(b) => b.write(value),
            None => {},
        }
    }

    pub(crate) fn take_last(&mut self) -> (r: Option<T>)
        requires
            old(self).wf(),
        ensures
            final(self).wf(),
            old(self)@.len() == 0 ==> r is None && final(self)@ == old(self)@,
            old(self)@.len() > 0 ==> r == Some(old(self)@.last()) && final(self)@ == old(
                self,
            )@.drop_last(),
            final(self).spec_capacity() == old(self).spec_capacity(),
            final(self).allocator() == old(self).allocator(),
            final(self).blocks_before() == old(self).blocks_before(),
    {
        match &mut self.block {
            Some(b) => b.take_last(),
            None => None,
        }
    }

    pub(crate) fn get(&self, i: usize) -> (r: &T)
        requires
            self.wf(),
            i < self@.len(),
        ensures
            *r == self@[i as int],
    {
        match &self.block {
            Some(b) => b.get(i),
            None => unreached(),
        }
    }

    pub(crate) fn get_mut(&mut self, i: usize) -> (r: &mut T)
        requires
            old(self).wf(),
            i < old(self)@.len(),
        ensures
            *r == old(self)@[i as int],
            final(self).wf(),
            final(self)@ == old(self)@.update(i as int, *final(r)),
            final(self).spec_capacity() == old(self).spec_capacity(),
            final(self).allocator() == old(self).allocator(),
            final(self).blocks_before() == old(self).blocks_before(),
    {
        match &mut self.block {
            Some(b) => b.get_mut(i),
            None => unreached(),
        }
    }

    pub(crate) fn as_slice(&self) -> (r: &[T])
        requires
            self.wf(),
        ensures
            r@ == self@,
    {
        match &self.block {
            Some(b) => b.as_slice(),
            None => &[],
        }
    }

    pub(crate) fn clear(&mut self)
        requires
            old(self).wf(),
        ensures
            final(self).wf(),
            final(self)@.len() == 0,
            final(self).spec_capacity() == old(self).spec_capacity(),
            final(self).allocator() == old(self).allocator(),
            final(self).blocks_before() == old(self).blocks_before(),
    {
        match &mut self.block {
            Some(b) => b.clear(),
            None => {},
        }
    }
}


/// Capacity after growing a full vector of `len` values: double, at least one.
pub open spec fn grown_capacity(len: nat) -> nat {
    if len == 0 {
        1
    } else {
        2 * len
    }
}

/// A growable vector of values of `T` over a raw buffer.
pub struct CVec<T, A: Allocator> {
    length: usize,
    buffer: RawVec<T, A>,
}

impl<T, A: Allocator> CVec<T, A> {
    /// The values held, first to last.
    pub closed spec fn view(&self) -> Seq<T> {
        self.buffer@
    }

    pub closed spec fn spec_capacity(&self) -> nat {
        self.buffer.spec_capacity()
    }

    /// The allocator the vector's storage comes from.
    pub closed spec fn allocator(&self) -> A {
        self.buffer.allocator()
    }

    /// How many blocks the allocator had out when the vector was made.
    pub closed spec fn blocks_before(&self) -> nat {
        self.buffer.blocks_before()
    }

    pub closed spec fn inv(&self) -> bool {
        &&& self.buffer.wf()
        &&& self.length as nat == self.buffer@.len()
    }

    /// Well-formedness: the length never exceeds the capacity, and the
    /// vector holds one block of its allocator exactly when its capacity is
    /// not zero.
    pub open spec fn wf(&self) -> bool {
        &&& self.inv()
        &&& self@.len() <= self.spec_capacity()
        &&& array_fits::<T>(self.spec_capacity())
        &&& self.allocator().live() == self.blocks_before() + (if self.spec_capacity() > 0 {
            1nat
        } else {
            0nat
        })
    }

    /// An empty vector of capacity zero over `allocator`.
    pub fn new_in(allocator: A) -> (r: CVec<T, A>)
        ensures
            r.wf(),
            r@.len() == 0,
            r.spec_capacity() == 0,
            r.allocator() == allocator,
            r.blocks_before() == allocator.live(),
    {
        CVec { length: 0, buffer: RawVec::new(allocator) }
    }

    /// An empty vector of capacity zero over a default allocator.
    pub fn new() -> (r: CVec<T, A>) where A: Default
        ensures
            r.wf(),
            r@.len() == 0,
            r.spec_capacity() == 0,
    {
        CVec::new_in(A::default())
    }

    pub fn len(&self) -> (r: usize)
        requires
            self.wf(),
        ensures
            r == self@.len(),
    {
        self.length
    }

    pub fn is_empty(&self) -> (r: bool)
        requires
            self.wf(),
        ensures
            r == (self@.len() == 0),
    {
        self.length == 0
    }

    pub fn capacity(&self) -> (r: usize)
        ensures
            r == self.spec_capacity(),
    {
        self.buffer.capacity()
    }

    /// Makes room for at least `new_capacity` values; see `RawVec::reserve`.
    pub fn reserve(&mut self, new_capacity: usize) -> (r: Result<(), AllocError>)
        requires
            old(self).wf(),
        ensures
            final(self).wf(),
            final(self)@ == old(self)@,
            final(self).blocks_before() == old(self).blocks_before(),
            new_capacity <= old(self).spec_capacity() ==> r is Ok && final(self).spec_capacity()
                == old(self).spec_capacity(),
            new_capacity > old(self).spec_capacity() ==> match r {
                Ok(()) => final(self).spec_capacity() == new_capacity,
                Err(e) => final(self).spec_capacity() == old(self).spec_capacity() && (e
                    == AllocError::CapacityOverflow <==> !array_fits::<T>(new_capacity as nat)),
            },
            new_capacity > old(self).spec_capacity() && array_fits::<T>(new_capacity as nat)
                && old(self).allocator().grants(array_layout::<T>(new_capacity as nat)) ==> r is Ok,
    {
        self.buffer.reserve(new_capacity)
    }

    /// Grows a full vector to `grown_capacity` of its length.
    fn grow(&mut self) -> (r: Result<(), AllocError>)
        requires
            old(self).wf(),
            old(self)@.len() == old(self).spec_capacity(),
        ensures
            final(self).wf(),
            final(self)@ == old(self)@,
            final(self).blocks_before() == old(self).blocks_before(),
            match r {
                Ok(()) => final(self).spec_capacity() == grown_capacity(old(self)@.len()),
                Err(e) => final(self).spec_capacity() == old(self).spec_capacity() && (e
                    == AllocError::CapacityOverflow <==> !array_fits::<T>(
                    grown_capacity(old(self)@.len()),
                )),
            },
            array_fits::<T>(grown_capacity(old(self)@.len())) && old(self).allocator().grants(
                array_layout::<T>(grown_capacity(old(self)@.len())),
            ) ==> r is Ok,
    {
        if self.length == 0 {
            self.buffer.reserve(1)
        } else if self.length > usize::MAX / 2 {
            Err(AllocError::CapacityOverflow)
        } else {
            self.buffer.reserve(self.length * 2)
        }
    }

    /// Appends `value`, growing the capacity to `grown_capacity` of the
    /// length first when the vector is full. On failure the vector is unchanged.
    pub fn push(&mut self, value: T) -> (r: Result<(), AllocError>)
        requires
            old(self).wf(),
        ensures
            final(self).wf(),
            final(self).blocks_before() == old(self).blocks_before(),
            final(self).spec_capacity() >= old(self).spec_capacity(),
            match r {
                Ok(()) => final(self)@ == old(self)@.push(value),
                Err(e) => final(self)@ == old(self)@ && final(self).spec_capacity()
                    == old(self).spec_capacity(),
            },
            old(self)@.len() < old(self).spec_capacity() ==> r is Ok && final(self).spec_capacity()
                == old(self).spec_capacity(),
            old(self)@.len() == old(self).spec_capacity() ==> match r {
                Ok(()) => final(self).spec_capacity() == grown_capacity(old(self)@.len()),
                Err(e) => (e == AllocError::CapacityOverflow <==> !array_fits::<T>(
                    grown_capacity(old(self)@.len()),
                )),
            },
            old(self)@.len() == old(self).spec_capacity() && array_fits::<T>(
                grown_capacity(old(self)@.len()),
            ) && old(self).allocator().grants(array_layout::<T>(grown_capacity(old(self)@.len())))
                ==> r is Ok,
    {
        if self.length == self.buffer.capacity() {
            match self.grow() {
                Ok(()) => {},
                Err(e) => {
                    return Err(e);
                },
            }
        }
        self.buffer.write(value);
        self.length = self.length + 1;
        Ok(())
    }

    /// Removes and hands back the last value, or `None` when empty.
    pub fn pop(&mut self) -> (r: Option<T>)
        requires
            old(self).wf(),
        ensures
            final(self).wf(),
            final(self).spec_capacity() == old(self).spec_capacity(),
            final(self).allocator() == old(self).allocator(),
            final(self).blocks_before() == old(self).blocks_before(),
            old(self)@.len() == 0 ==> r is None && final(self)@ == old(self)@,
            old(self)@.len() > 0 ==> r == Some(old(self)@.last()) && final(self)@ == old(
                self,
            )@.drop_last(),
    {
        let r = self.buffer.take_last();
        if self.length > 0 {
            self.length = self.length - 1;
        }
        r
    }

    /// Drops every value; the capacity stays for reuse.
    pub fn clear(&mut self)
        requires
            old(self).wf(),
        ensures
            final(self).wf(),
            final(self)@.len() == 0,
            final(self).spec_capacity() == old(self).spec_capacity(),
            final(self).allocator() == old(self).allocator(),
            final(self).blocks_before() == old(self).blocks_before(),
    {
        self.buffer.clear();
        self.length = 0;
    }

    /// The value at `i`, which must be below the length.
    pub fn index(&self, i: usize) -> (r: &T)
        requires
            self.wf(),
            i < self@.len(),
        ensures
            *r == self@[i as int],
    {
        self.buffer.get(i)
    }

    /// The value at `i`, or `None` when `i` is not below the length.
    pub fn get(&self, i: usize) -> (r: Option<&T>)
        requires
            self.wf(),
        ensures
            i >= self@.len() ==> r is None,
            i < self@.len() ==> r == Some(&self@[i as int]),
    {
        if i < self.length {
            Some(self.buffer.get(i))
        } else {
            None
        }
    }

    /// The place of the value at `i`, which must be below the length.
    pub fn index_mut(&mut self, i: usize) -> (r: &mut T)
        requires
            old(self).wf(),
            i < old(self)@.len(),
        ensures
            *r == old(self)@[i as int],
            final(self).wf(),
            final(self)@ == old(self)@.update(i as int, *final(r)),
            final(self).spec_capacity() == old(self).spec_capacity(),
            final(self).allocator() == old(self).allocator(),
            final(self).blocks_before() == old(self).blocks_before(),
    {
        self.buffer.get_mut(i)
    }

    /// The place of the value at `i`, or `None` (and no change) when `i` is
    /// not below the length.
    pub fn get_mut(&mut self, i: usize) -> (r: Option<&mut T>)
        requires
            old(self).wf(),
        ensures
            final(self).wf(),
            final(self).spec_capacity() == old(self).spec_capacity(),
            final(self).allocator() == old(self).allocator(),
            final(self).blocks_before() == old(self).blocks_before(),
            i >= old(self)@.len() ==> r is None && final(self)@ == old(self)@,
            i < old(self)@.len() ==> (r matches Some(x) && *x == old(self)@[i as int]
                && final(self)@ == old(self)@.update(i as int, *final(x))),
    {
        if i < self.length {
            Some(self.buffer.get_mut(i))
        } else {
            None
        }
    }

    /// The values as a slice, first to last.
    pub fn as_slice(&self) -> (r: &[T])
        requires
            self.wf(),
        ensures
            r@ == self@,
    {
        self.buffer.as_slice()
    }

    /// Hands the values out by value, first to last. The vector keeps its
    /// storage; its length becomes zero, so nothing is dropped twice.
    pub fn into_iter(self) -> (r: VecIntoIter<T, A>)
        requires
            self.wf(),
        ensures
            r.wf(),
            r.remaining() == self@,
    {
        let mut inner = self;
        let mut pending: Vec<T> = Vec::new();
        let ghost all = inner@;
        while inner.length > 0
            invariant
                inner.wf(),
                all == inner@ + pending@.reverse(),
            decreases inner@.len(),
        {
            let ghost before = inner@;
            let ghost pending_before = pending@;
            match inner.pop() {
                Some(v) => {
                    pending.push(v);
                    proof {
                        assert(pending@.reverse() =~= seq![v] + pending_before.reverse());
                        assert(before =~= before.drop_last() + seq![v]);
                    }
                },
                None => {},
            }
        }
        proof {
            assert(inner@ =~= Seq::<T>::empty());
            assert(all =~= pending@.reverse());
        }
        VecIntoIter { inner, pending }
    }

    /// Walks the values by reference, first to last.
    pub fn iter(&self) -> (r: RefVecIntoIter<'_, T, A>)
        requires
            self.wf(),
        ensures
            r.wf(),
            r.remaining() == self@,
    {
        RefVecIntoIter { inner: self, current: 0, size: self.length }
    }
}

/// The values of a consumed vector, handed out by value first to last.
/// Dropping it early drops the values it has not handed out.
pub struct VecIntoIter<T, A: Allocator> {
    inner: CVec<T, A>,
    pending: Vec<T>,
}

impl<T, A: Allocator> VecIntoIter<T, A> {
    /// The values not yet handed out, in the order they will come.
    pub closed spec fn remaining(&self) -> Seq<T> {
        self.pending@.reverse()
    }

    pub closed spec fn wf(&self) -> bool {
        &&& self.inner.wf()
        &&& self.inner@.len() == 0
    }

    /// The next value, or `None` once all have been handed out.
    pub fn next(&mut self) -> (r: Option<T>)
        requires
            old(self).wf(),
        ensures
            final(self).wf(),
            old(self).remaining().len() == 0 ==> r is None && final(self).remaining() == old(
                self,
            ).remaining(),
            old(self).remaining().len() > 0 ==> r == Some(old(self).remaining()[0])
                && final(self).remaining() == old(self).remaining().drop_first(),
    {
        let ghost before = self.pending@;
        let r = self.pending.pop();
        proof {
            if before.len() > 0 {
                assert(before.reverse()[0] == before.last());
                assert(self.pending@.reverse() =~= before.reverse().drop_first());
            }
        }
        r
    }
}

/// The values of a vector, walked by reference first to last.
pub struct RefVecIntoIter<'a, T, A: Allocator> {
    inner: &'a CVec<T, A>,
    current: usize,
    size: usize,
}

impl<'a, T, A: Allocator> RefVecIntoIter<'a, T, A> {
    /// The values not yet walked, in order.
    pub closed spec fn remaining(&self) -> Seq<T> {
        self.inner@.subrange(self.current as int, self.size as int)
    }

    pub closed spec fn wf(&self) -> bool {
        &&& self.inner.wf()
        &&& self.current <= self.size
        &&& self.size == self.inner@.len()
    }

    /// The next value, or `None` once all have been walked.
    pub fn next(&mut self) -> (r: Option<&'a T>)
        requires
            old(self).wf(),
        ensures
            final(self).wf(),
            old(self).remaining().len() == 0 ==> r is None && final(self).remaining() == old(
                self,
            ).remaining(),
            old(self).remaining().len() > 0 ==> r == Some(&old(self).remaining()[0])
                && final(self).remaining() == old(self).remaining().drop_first(),
    {
        if self.current >= self.size {
            None
        } else {
            let i = self.current;
            self.current = self.current + 1;
            proof {
                assert(self.remaining() =~= old(self).remaining().drop_first());
            }
            Some(self.inner.index(i))
        }
    }
}


/// The values of a vector holding `s` after `push` of each of `vs`, in order.
pub open spec fn push_all<T>(s: Seq<T>, vs: Seq<T>) -> Seq<T>
    decreases vs.len(),
{
    if vs.len() == 0 {
        s
    } else {
        push_all(s.push(vs[0]), vs.drop_first())
    }
}

/// `pop` called `n` times on a vector holding `s`: the values left, and the
/// values handed back in the order they came.
pub open spec fn pop_n<T>(s: Seq<T>, n: nat) -> (Seq<T>, Seq<T>)
    decreases n,
{
    if n == 0 || s.len() == 0 {
        (s, Seq::empty())
    } else {
        let (rest, out) = pop_n(s.drop_last(), (n - 1) as nat);
        (rest, seq![s.last()] + out)
    }
}

proof fn lemma_push_all_appends<T>(s: Seq<T>, vs: Seq<T>)
    ensures
        push_all(s, vs) == s + vs,
    decreases vs.len(),
{
    if vs.len() > 0 {
        lemma_push_all_appends(s.push(vs[0]), vs.drop_first());
        assert(s.push(vs[0]) + vs.drop_first() =~= s + vs);
    } else {
        assert(s + vs =~= s);
    }
}

proof fn lemma_pop_n_appended<T>(s: Seq<T>, vs: Seq<T>)
    ensures
        pop_n(s + vs, vs.len()) == (s, vs.reverse()),
    decreases vs.len(),
{
    if vs.len() == 0 {
        assert(s + vs =~= s);
        assert(vs.reverse() =~= Seq::<T>::empty());
    } else {
        let front = vs.drop_last();
        assert((s + vs).drop_last() =~= s + front);
        assert((s + vs).last() == vs.last());
        lemma_pop_n_appended(s, front);
        assert(seq![vs.last()] + front.reverse() =~= vs.reverse());
    }
}

/// Values pushed onto a vector and then popped as many times come back in
/// the reverse order of insertion, and the vector is left as it was before
/// the pushes (empty, when it started empty).
pub proof fn lemma_pushes_then_pops_are_lifo<T>(s: Seq<T>, vs: Seq<T>)
    ensures
        pop_n(push_all(s, vs), vs.len()) == (s, vs.reverse()),
{
    lemma_push_all_appends(s, vs);
    lemma_pop_n_appended(s, vs);
}

/// Indexing reads back the value last written at that index, by `push` or
/// through `index_mut`, and a write at one index leaves the others alone.
pub proof fn lemma_index_reads_last_write<T>(s: Seq<T>, i: int, v: T)
    requires
        0 <= i < s.len(),
    ensures
        s.update(i, v)[i] == v,
        forall|j: int| 0 <= j < s.len() && j != i ==> s.update(i, v)[j] == s[j],
        s.push(v)[s.len() as int] == v,
        forall|j: int| 0 <= j < s.len() ==> s.push(v)[j] == s[j],
{
}

} // verus!
