use vstd::prelude::*;

verus! {

/// Size and alignment of a requested memory block, in bytes.
#[derive(Clone, Copy, Debug, PartialEq, Eq, Structural)]
pub struct Layout {
    pub size: usize,
    pub align: usize,
}

/// Alignment used for raw byte requests.
pub const DEFAULT_ALIGN: usize = 4;

impl Layout {
    /// A block of `size` bytes with the default alignment.
    pub fn new(size: usize) -> (r: Layout)
        ensures
            r.size == size,
            r.align == DEFAULT_ALIGN,
    {
        Layout { size, align: DEFAULT_ALIGN }
    }

    /// The layout of one value of type `T`.
    pub fn from_type<T>() -> (r: Layout)
        ensures
            r.size as nat == vstd::layout::size_of::<T>(),
            r.align as nat == vstd::layout::align_of::<T>(),
    {
        Layout { size: core::mem::size_of::<T>(), align: core::mem::align_of::<T>() }
    }

    /// The layout of an array of `length` values of type `T`.
    pub fn from_array_type<T>(length: usize) -> (r: Layout)
        requires
            vstd::layout::size_of::<T>() * length <= usize::MAX,
        ensures
            r.size as nat == vstd::layout::size_of::<T>() * length,
            r.align as nat == vstd::layout::align_of::<T>(),
            r == array_layout::<T>(length as nat),
    {
        let elem = core::mem::size_of::<T>();
        proof {
            assert(elem as nat * length <= usize::MAX);
        }
        Layout { size: elem * length, align: core::mem::align_of::<T>() }
    }
}


/// The layout of an array of `n` values of type `T`.
pub open spec fn array_layout<T>(n: nat) -> Layout {
    Layout {
        size: (vstd::layout::size_of::<T>() * n) as usize,
        align: vstd::layout::align_of::<T>() as usize,
    }
}

/// Whether an array of `n` values of type `T` can be allocated: its size
/// in bytes may not exceed `isize::MAX`.
pub open spec fn array_fits<T>(n: nat) -> bool {
    n <= usize::MAX && vstd::layout::size_of::<T>() * n <= isize::MAX
}

/// Storage handed out by an allocator: room for values of `T`, requested
/// with `layout`. A block has exactly one owner, and giving it back to an
/// allocator consumes it, so it can be released at most once.
pub struct Block<T> {
    slots: Vec<T>,
    layout: Layout,
}

impl<T> Block<T> {
    /// The values written into the block so far, in order.
    pub closed spec fn view(&self) -> Seq<T> {
        self.slots@
    }

    /// The layout the block was requested with.
    pub closed spec fn spec_layout(&self) -> Layout {
        self.layout
    }

    /// An empty block taken from the process-wide heap, sized for `layout`.
    pub fn new(layout: Layout) -> (r: Block<T>)
        requires
            layout.size <= isize::MAX,
        ensures
            r@.len() == 0,
            r.spec_layout() == layout,
    {
        let elem = core::mem::size_of::<T>();
        let room: usize = if elem == 0 {
            0
        } else {
            layout.size / elem
        };
        Block { slots: Vec::with_capacity(room), layout }
    }

    pub fn layout(&self) -> (r: Layout)
        ensures
            r == self.spec_layout(),
    {
        self.layout
    }

    pub fn len(&self) -> (r: usize)
        ensures
            r == self@.len(),
    {
        self.slots.len()
    }

    pub(crate) fn write(&mut self, value: T)
        ensures
            final(self)@ == old(self)@.push(value),
            final(self).spec_layout() == old(self).spec_layout(),
    {
        self.slots.push(value);
    }

    pub(crate) fn take_last(&mut self) -> (r: Option<T>)
        ensures
            old(self)@.len() == 0 ==> r is None && final(self)@ == old(self)@,
            old(self)@.len() > 0 ==> r == Some(old(self)@.last()) && final(self)@
                == old(self)@.drop_last(),
            final(self).spec_layout() == old(self).spec_layout(),
    {
        self.slots.pop()
    }

    pub(crate) fn get(&self, i: usize) -> (r: &T)
        requires
            i < self@.len(),
        ensures
            *r == self@[i as int],
    {
        &self.slots[i]
    }

    pub(crate) fn set(&mut self, i: usize, value: T)
        requires
            i < old(self)@.len(),
        ensures
            final(self)@ == old(self)@.update(i as int, value),
            final(self).spec_layout() == old(self).spec_layout(),
    {
        self.slots.set(i, value);
    }

    pub(crate) fn clear(&mut self)
        ensures
            final(self)@.len() == 0,
            final(self).spec_layout() == old(self).spec_layout(),
    {
        self.slots.clear();
    }

    pub(crate) fn get_mut(&mut self, i: usize) -> (r: &mut T)
        requires
            i < old(self)@.len(),
        ensures
            *r == old(self)@[i as int],
            final(self)@ == old(self)@.update(i as int, *final(r)),
            final(self).spec_layout() == old(self).spec_layout(),
    {
        &mut self.slots[i]
    }

    pub(crate) fn as_slice(&self) -> (r: &[T])
        ensures
            r@ == self@,
    {
        self.slots.as_slice()
    }

    /// Moves every value of `other`, in order, to the end of this block.
    pub(crate) fn move_from(&mut self, other: &mut Block<T>)
        ensures
            final(self)@ == old(self)@ + old(other)@,
            final(other)@.len() == 0,
            final(self).spec_layout() == old(self).spec_layout(),
            final(other).spec_layout() == old(other).spec_layout(),
    {
        self.slots.append(&mut other.slots);
    }
}

/// Why a request for memory was not met.
#[derive(Clone, Copy, Debug, PartialEq, Eq, Structural)]
pub enum AllocError {
    /// The requested size does not fit in the address space.
    CapacityOverflow,
    /// The allocator could not hand out a block.
    OutOfMemory,
}

/// The capability to hand out blocks and take them back.
pub trait Allocator {
    /// How many blocks this allocator has handed out and not taken back.
    spec fn live(&self) -> nat;

    /// Whether a request for `layout` is sure to be met in this state.
    spec fn grants(&self, layout: Layout) -> bool;

    /// Hands out an empty block for `layout`, or `None` when the request
    /// cannot be met.
    fn allocate<T>(&mut self, layout: Layout) -> (r: Option<Block<T>>)
        requires
            layout.size <= isize::MAX,
        ensures
            old(self).grants(layout) ==> r is Some,
            match r {
                Some(b) => b@.len() == 0 && b.spec_layout() == layout && final(self).live() == old(
                    self,
                ).live() + 1,
                None => final(self).live() == old(self).live(),
            },
    ;

    /// Takes back a block that this allocator handed out.
    fn deallocate<T>(&mut self, block: Block<T>)
        requires
            old(self).live() > 0,
        ensures
            final(self).live() == old(self).live() - 1,
    ;
}

/// The process heap adapter: blocks come from the process-wide heap, which
/// aborts the process rather than return a failed request, so every request
/// is met. The adapter keeps count of the blocks it has handed out and not
/// taken back.
pub struct Win32HeapAllocator {
    outstanding: Ghost<nat>,
}

impl Win32HeapAllocator {
    pub fn new() -> (r: Win32HeapAllocator)
        ensures
            r.live() == 0,
    {
        Win32HeapAllocator { outstanding: Ghost(0) }
    }
}

impl Default for Win32HeapAllocator {
    fn default() -> (r: Win32HeapAllocator)
        ensures
            r.live() == 0,
    {
        Win32HeapAllocator::new()
    }
}

impl Allocator for Win32HeapAllocator {
    closed spec fn live(&self) -> nat {
        self.outstanding@
    }

    open spec fn grants(&self, layout: Layout) -> bool {
        true
    }

    fn allocate<T>(&mut self, layout: Layout) -> (r: Option<Block<T>>) {
        self.outstanding = Ghost(self.outstanding@ + 1);
        Some(Block::new(layout))
    }

    fn deallocate<T>(&mut self, block: Block<T>) {
        self.outstanding = Ghost((self.outstanding@ - 1) as nat);
    }
}

} // verus!
