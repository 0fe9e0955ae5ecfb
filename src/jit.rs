use vstd::prelude::*;

verus! {

/// Size of the one page an arena owns.
pub const PAGE_SIZE: usize = 4096;

/// Why a write to an arena was refused.
#[derive(Clone, Copy, Debug, PartialEq, Eq, Structural)]
pub enum JitError {
    /// The write would run past the end of the page.
    CapacityExceeded,
    /// The page has been made executable and takes no more writes.
    Finalized,
}

/// The `n` low bytes of `v`, least significant first.
pub open spec fn le_bytes(v: nat, n: nat) -> Seq<u8>
    decreases n,
{
    if n == 0 {
        Seq::empty()
    } else {
        seq![(v % 256) as u8] + le_bytes(v / 256, (n - 1) as nat)
    }
}

/// The code of one entry point: the bytes from its start up to the next
/// entry point, or up to the write cursor for the last one.
pub open spec fn entry_code(code: Seq<u8>, start: nat, end: nat) -> Seq<u8> {
    code.subrange(start as int, end as int)
}

/// An arena for machine code generated at run time: one page that takes
/// bytes while writable, hands out the offsets of entry points, and is made
/// executable once. The bytes written so far are the page's image; the
/// page itself is reserved, protected and released by the host.
pub struct JitMem {
    code: Vec<u8>,
    size: usize,
    offset: usize,
    fn_offset: usize,
    finalized: bool,
}

impl JitMem {
    /// The bytes written, from the start of the page to the write cursor.
    pub closed spec fn view(&self) -> Seq<u8> {
        self.code@
    }

    /// Where the next entry point starts.
    pub closed spec fn export_cursor(&self) -> nat {
        self.fn_offset as nat
    }

    /// Whether the page has been made executable.
    pub closed spec fn is_final(&self) -> bool {
        self.finalized
    }

    pub closed spec fn inv(&self) -> bool {
        &&& self.offset as nat == self.code@.len()
        &&& self.size == PAGE_SIZE
    }

    /// Well-formedness: the export cursor never passes the write cursor,
    /// which never passes the end of the page.
    pub open spec fn wf(&self) -> bool {
        &&& self.inv()
        &&& self.export_cursor() <= self@.len()
        &&& self@.len() <= PAGE_SIZE
    }

    /// An empty, writable arena.
    pub fn new() -> (r: JitMem)
        ensures
            r.wf(),
            r@.len() == 0,
            r.export_cursor() == 0,
            !r.is_final(),
    {
        JitMem { code: Vec::new(), size: PAGE_SIZE, offset: 0, fn_offset: 0, finalized: false }
    }

    /// Makes the page executable. After this the arena takes no more writes.
    pub fn finalize(&mut self)
        requires
            old(self).wf(),
        ensures
            final(self).wf(),
            final(self)@ == old(self)@,
            final(self).export_cursor() == old(self).export_cursor(),
            final(self).is_final(),
    {
        self.finalized = true;
    }

    /// Checks that `width` more bytes may be written.
    fn check_room(&self, width: usize) -> (r: Result<(), JitError>)
        requires
            self.wf(),
            width <= 8,
        ensures
            r == Err::<(), JitError>(JitError::Finalized) <==> self.is_final(),
            r == Err::<(), JitError>(JitError::CapacityExceeded) <==> !self.is_final()
                && self@.len() + width > PAGE_SIZE,
            r is Ok <==> !self.is_final() && self@.len() + width <= PAGE_SIZE,
    {
        if self.finalized {
            Err(JitError::Finalized)
        } else if self.offset > self.size - width {
            Err(JitError::CapacityExceeded)
        } else {
            Ok(())
        }
    }

    /// Writes the `width` low bytes of `value`, least significant first.
    fn push_le(&mut self, value: u64, width: usize) -> (r: Result<(), JitError>)
        requires
            old(self).wf(),
            width <= 8,
        ensures
            final(self).wf(),
            final(self).export_cursor() == old(self).export_cursor(),
            final(self).is_final() == old(self).is_final(),
            r == Err::<(), JitError>(JitError::Finalized) <==> old(self).is_final(),
            r == Err::<(), JitError>(JitError::CapacityExceeded) <==> !old(self).is_final()
                && old(self)@.len() + width > PAGE_SIZE,
            r is Ok <==> !old(self).is_final() && old(self)@.len() + width <= PAGE_SIZE,
            r is Ok ==> final(self)@ == old(self)@ + le_bytes(value as nat, width as nat),
            r is Err ==> final(self)@ == old(self)@,
    {
        match self.check_room(width) {
            Err(e) => {
                return Err(e);
            },
            Ok(()) => {},
        }
        let mut rest: u64 = value;
        let mut i: usize = 0;
        while i < width
            invariant
                self.inv(),
                self.export_cursor() == old(self).export_cursor(),
                self.is_final() == old(self).is_final(),
                old(self).wf(),
                old(self)@.len() + width <= PAGE_SIZE,
                i <= width,
                self@.len() == old(self)@.len() + i,
                self@ + le_bytes(rest as nat, (width - i) as nat) == old(self)@ + le_bytes(
                    value as nat,
                    width as nat,
                ),
            decreases width - i,
        {
            let ghost before = self@;
            let b = (rest % 256) as u8;
            self.code.push(b);
            self.offset = self.offset + 1;
            proof {
                let tail = le_bytes((rest / 256) as nat, (width - i - 1) as nat);
                assert(le_bytes(rest as nat, (width - i) as nat) == seq![b] + tail);
                assert(before + (seq![b] + tail) =~= before.push(b) + tail);
            }
            rest = rest / 256;
            i = i + 1;
        }
        proof {
            assert(self@ + le_bytes(rest as nat, 0) =~= self@);
        }
        Ok(())
    }

    /// Writes one byte at the write cursor.
    pub fn push_instruct_byte(&mut self, byte: u8) -> (r: Result<(), JitError>)
        requires
            old(self).wf(),
        ensures
            final(self).wf(),
            final(self).export_cursor() == old(self).export_cursor(),
            final(self).is_final() == old(self).is_final(),
            r == Err::<(), JitError>(JitError::Finalized) <==> old(self).is_final(),
            r == Err::<(), JitError>(JitError::CapacityExceeded) <==> !old(self).is_final()
                && old(self)@.len() + 1 > PAGE_SIZE,
            r is Ok <==> !old(self).is_final() && old(self)@.len() + 1 <= PAGE_SIZE,
            r is Ok ==> final(self)@ == old(self)@.push(byte),
            r is Err ==> final(self)@ == old(self)@,
    {
        let r = self.push_le(byte as u64, 1);
        proof {
            assert(le_bytes(byte as nat, 1) =~= seq![byte]) by {
                assert(le_bytes((byte as nat) / 256, 0) =~= Seq::<u8>::empty());
            }
        }
        r
    }

    /// Writes `value` in little-endian order.
    pub fn push_u16(&mut self, value: u16) -> (r: Result<(), JitError>)
        requires
            old(self).wf(),
        ensures
            final(self).wf(),
            final(self).export_cursor() == old(self).export_cursor(),
            final(self).is_final() == old(self).is_final(),
            r == Err::<(), JitError>(JitError::Finalized) <==> old(self).is_final(),
            r == Err::<(), JitError>(JitError::CapacityExceeded) <==> !old(self).is_final()
                && old(self)@.len() + 2 > PAGE_SIZE,
            r is Ok <==> !old(self).is_final() && old(self)@.len() + 2 <= PAGE_SIZE,
            r is Ok ==> final(self)@ == old(self)@ + le_bytes(value as nat, 2),
            r is Err ==> final(self)@ == old(self)@,
    {
        self.push_le(value as u64, 2)
    }

    /// Writes `value` in little-endian order.
    pub fn push_u32(&mut self, value: u32) -> (r: Result<(), JitError>)
        requires
            old(self).wf(),
        ensures
            final(self).wf(),
            final(self).export_cursor() == old(self).export_cursor(),
            final(self).is_final() == old(self).is_final(),
            r == Err::<(), JitError>(JitError::Finalized) <==> old(self).is_final(),
            r == Err::<(), JitError>(JitError::CapacityExceeded) <==> !old(self).is_final()
                && old(self)@.len() + 4 > PAGE_SIZE,
            r is Ok <==> !old(self).is_final() && old(self)@.len() + 4 <= PAGE_SIZE,
            r is Ok ==> final(self)@ == old(self)@ + le_bytes(value as nat, 4),
            r is Err ==> final(self)@ == old(self)@,
    {
        self.push_le(value as u64, 4)
    }

    /// Writes `value` in little-endian order.
    pub fn push_u64(&mut self, value: u64) -> (r: Result<(), JitError>)
        requires
            old(self).wf(),
        ensures
            final(self).wf(),
            final(self).export_cursor() == old(self).export_cursor(),
            final(self).is_final() == old(self).is_final(),
            r == Err::<(), JitError>(JitError::Finalized) <==> old(self).is_final(),
            r == Err::<(), JitError>(JitError::CapacityExceeded) <==> !old(self).is_final()
                && old(self)@.len() + 8 > PAGE_SIZE,
            r is Ok <==> !old(self).is_final() && old(self)@.len() + 8 <= PAGE_SIZE,
            r is Ok ==> final(self)@ == old(self)@ + le_bytes(value as nat, 8),
            r is Err ==> final(self)@ == old(self)@,
    {
        self.push_le(value, 8)
    }

    /// Ends the current entry point: hands back the page offset where it
    /// starts, and starts the next one at the write cursor.
    pub fn set_jit_fn(&mut self) -> (r: usize)
        requires
            old(self).wf(),
        ensures
            final(self).wf(),
            r == old(self).export_cursor(),
            final(self).export_cursor() == old(self)@.len(),
            final(self)@ == old(self)@,
            final(self).is_final() == old(self).is_final(),
    {
        let start = self.fn_offset;
        self.fn_offset = self.offset;
        start
    }

    /// The bytes written so far, the image of the page from its start.
    pub fn code(&self) -> (r: &[u8])
        ensures
            r@ == self@,
    {
        self.code.as_slice()
    }

    /// The write cursor.
    pub fn offset(&self) -> (r: usize)
        requires
            self.wf(),
        ensures
            r == self@.len(),
    {
        self.offset
    }

    /// Where the next entry point starts.
    pub fn fn_offset(&self) -> (r: usize)
        ensures
            r == self.export_cursor(),
    {
        self.fn_offset
    }

    pub fn is_finalized(&self) -> (r: bool)
        ensures
            r == self.is_final(),
    {
        self.finalized
    }

    /// The size of the page.
    pub fn size(&self) -> (r: usize)
        requires
            self.wf(),
        ensures
            r == PAGE_SIZE,
    {
        self.size
    }
}

/// Two functions written one after the other, each closed by `set_jit_fn`,
/// get entry points whose code is exactly what was written for each: the
/// first runs from where the export cursor stood up to the second's start,
/// the second up to the write cursor. Neither reaches into the other.
pub proof fn lemma_two_entry_points_are_disjoint(before: Seq<u8>, first: Seq<u8>, second: Seq<u8>)
    ensures
        ({
            let code = before + first + second;
            let start1 = before.len();
            let start2 = before.len() + first.len();
            &&& entry_code(code, start1, start2) == first
            &&& entry_code(code, start2, code.len()) == second
            &&& entry_code(code, 0, start1) == before
        }),
{
    let code = before + first + second;
    assert(entry_code(code, before.len(), before.len() + first.len()) =~= first);
    assert(entry_code(code, before.len() + first.len(), code.len()) =~= second);
    assert(entry_code(code, 0, before.len()) =~= before);
}

} // verus!
