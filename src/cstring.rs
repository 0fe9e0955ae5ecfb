use vstd::prelude::*;
use crate::allocator::{Allocator, Win32HeapAllocator};
use crate::cvec::CVec;
use vstd::string::StringSliceAdditionalSpecFns;

verus! {

/// Each byte as a signed 8-bit code unit, bit for bit.
pub open spec fn signed_units(s: Seq<u8>) -> Seq<i8> {
    s.map_values(|c: u8| c as i8)
}

/// Each byte widened to a 16-bit code unit.
pub open spec fn wide_units(s: Seq<u8>) -> Seq<u16> {
    s.map_values(|c: u8| c as u16)
}

/// Whether every 16-bit code unit fits in a byte.
pub open spec fn fits_in_bytes(u: Seq<u16>) -> bool {
    forall|i: int| 0 <= i < u.len() ==> u[i] <= u8::MAX
}

/// Each 16-bit code unit narrowed to a byte.
pub open spec fn narrowed_units(u: Seq<u16>) -> Seq<u8> {
    u.map_values(|c: u16| c as u8)
}

/// Each signed code unit read back as a byte, bit for bit.
pub open spec fn unsigned_units(u: Seq<i8>) -> Seq<u8> {
    u.map_values(|c: i8| c as u8)
}

/// A vector of bytes on the process heap, for text handed to foreign calls.
pub struct CString {
    inner: CVec<u8, Win32HeapAllocator>,
}

impl CString {
    /// The bytes, in order.
    pub closed spec fn view(&self) -> Seq<u8> {
        self.inner@
    }

    pub closed spec fn wf(&self) -> bool {
        &&& self.inner.wf()
        &&& self.inner.blocks_before() == 0
    }

    pub fn new() -> (r: CString)
        ensures
            r.wf(),
            r@.len() == 0,
    {
        CString { inner: CVec::new_in(Win32HeapAllocator::new()) }
    }

    /// An empty byte string with room for `n` bytes.
    fn with_room(n: usize) -> (r: CString)
        requires
            n <= isize::MAX,
        ensures
            r.wf(),
            r@.len() == 0,
            r.inner.spec_capacity() >= n,
    {
        proof {
            broadcast use vstd::layout::layout_of_primitives;

        }
        let mut res = CString::new();
        let _ = res.inner.reserve(n);
        res
    }

    /// Appends one byte into the room already reserved.
    fn push_byte(&mut self, c: u8)
        requires
            old(self).wf(),
            old(self)@.len() < old(self).inner.spec_capacity(),
        ensures
            final(self).wf(),
            final(self)@ == old(self)@.push(c),
            final(self).inner.spec_capacity() == old(self).inner.spec_capacity(),
    {
        let _ = self.inner.push(c);
    }

    /// The bytes of `src`, in order.
    pub fn from_str(src: &str) -> (r: CString)
        requires
            src.spec_bytes().len() <= isize::MAX,
        ensures
            r.wf(),
            r@ == src.spec_bytes(),
    {
        CString::from_u8_slice(src.as_bytes())
    }

    /// The bytes of `src`, in order.
    pub fn from_u8_slice(src: &[u8]) -> (r: CString)
        requires
            src@.len() <= isize::MAX,
        ensures
            r.wf(),
            r@ == src@,
    {
        let n = src.len();
        let mut res = CString::with_room(n);
        let mut i: usize = 0;
        while i < n
            invariant
                res.wf(),
                n == src@.len(),
                res.inner.spec_capacity() >= n,
                i <= n,
                res@ == src@.subrange(0, i as int),
            decreases n - i,
        {
            res.push_byte(src[i]);
            i = i + 1;
            proof {
                assert(res@ =~= src@.subrange(0, i as int));
            }
        }
        proof {
            assert(res@ =~= src@);
        }
        res
    }

    pub fn len(&self) -> (r: usize)
        requires
            self.wf(),
        ensures
            r == self@.len(),
    {
        self.inner.len()
    }

    /// The bytes as a slice, for handing to a foreign call.
    pub fn as_slice(&self) -> (r: &[u8])
        requires
            self.wf(),
        ensures
            r@ == self@,
    {
        self.inner.as_slice()
    }

    /// A new, independent vector with each byte as a signed 8-bit unit.
    pub fn to_i8_str(&self) -> (r: CVec<i8, Win32HeapAllocator>)
        requires
            self.wf(),
        ensures
            r.wf(),
            r.blocks_before() == 0,
            r@ == signed_units(self@),
    {
        let mut out: CVec<i8, Win32HeapAllocator> = CVec::new_in(Win32HeapAllocator::new());
        let n = self.inner.len();
        proof {
            broadcast use vstd::layout::layout_of_primitives;

        }
        let _ = out.reserve(n);
        let mut i: usize = 0;
        while i < n
            invariant
                self.wf(),
                out.wf(),
                out.blocks_before() == 0,
                n == self@.len(),
                out.spec_capacity() >= n,
                out@.len() == i,
                i <= self@.len(),
                out@ == signed_units(self@.subrange(0, i as int)),
            decreases self@.len() - i,
        {
            let c = *self.inner.index(i);
            let _ = out.push(#[verifier::truncate] (c as i8));
            i = i + 1;
            proof {
                assert(out@ =~= signed_units(self@.subrange(0, i as int)));
            }
        }
        proof {
            assert(self@.subrange(0, i as int) =~= self@);
        }
        out
    }

    /// A new, independent vector with each byte widened to a 16-bit unit.
    pub fn to_u16_str(&self) -> (r: CVec<u16, Win32HeapAllocator>)
        requires
            self.wf(),
            self@.len() <= isize::MAX / 2,
        ensures
            r.wf(),
            r.blocks_before() == 0,
            r@ == wide_units(self@),
    {
        let mut out: CVec<u16, Win32HeapAllocator> = CVec::new_in(Win32HeapAllocator::new());
        let n = self.inner.len();
        proof {
            broadcast use vstd::layout::layout_of_primitives;

        }
        let _ = out.reserve(n);
        let mut i: usize = 0;
        while i < n
            invariant
                self.wf(),
                out.wf(),
                out.blocks_before() == 0,
                n == self@.len(),
                out.spec_capacity() >= n,
                out@.len() == i,
                i <= self@.len(),
                out@ == wide_units(self@.subrange(0, i as int)),
            decreases self@.len() - i,
        {
            let c = *self.inner.index(i);
            let _ = out.push(c as u16);
            i = i + 1;
            proof {
                assert(out@ =~= wide_units(self@.subrange(0, i as int)));
            }
        }
        proof {
            assert(self@.subrange(0, i as int) =~= self@);
        }
        out
    }

    /// The byte string of 16-bit `units`, or `None` when a unit does not
    /// fit in a byte.
    pub fn from_u16_str(units: &CVec<u16, Win32HeapAllocator>) -> (r: Option<CString>)
        requires
            units.wf(),
        ensures
            r is None <==> !fits_in_bytes(units@),
            r matches Some(c) ==> c.wf() && c@ == narrowed_units(units@),
    {
        proof {
            broadcast use vstd::layout::layout_of_primitives;

        }
        let n = units.len();
        let mut res = CString::with_room(n);
        let mut i: usize = 0;
        while i < n
            invariant
                units.wf(),
                res.wf(),
                n == units@.len(),
                res.inner.spec_capacity() >= n,
                res@.len() == i,
                i <= n,
                fits_in_bytes(units@.subrange(0, i as int)),
                res@ == narrowed_units(units@.subrange(0, i as int)),
            decreases n - i,
        {
            let c = *units.index(i);
            if c > 255 {
                proof {
                    assert(!fits_in_bytes(units@)) by {
                        assert(units@[i as int] > u8::MAX);
                    }
                }
                return None;
            }
            res.push_byte(c as u8);
            i = i + 1;
            proof {
                assert(res@ =~= narrowed_units(units@.subrange(0, i as int)));
                assert(fits_in_bytes(units@.subrange(0, i as int))) by {
                    assert forall|j: int| 0 <= j < i implies units@.subrange(0, i as int)[j]
                        <= u8::MAX by {
                        if j < i - 1 {
                            assert(units@.subrange(0, i as int)[j] == units@.subrange(
                                0,
                                i - 1,
                            )[j]);
                        }
                    }
                }
            }
        }
        proof {
            assert(units@.subrange(0, n as int) =~= units@);
        }
        Some(res)
    }
}

/// Widening bytes to 16-bit units and narrowing them back gives the bytes
/// again: every byte fits in a 16-bit unit, and nothing is lost on the way.
pub proof fn lemma_widen_then_narrow(s: Seq<u8>)
    ensures
        fits_in_bytes(wide_units(s)),
        narrowed_units(wide_units(s)) == s,
{
    assert(narrowed_units(wide_units(s)) =~= s);
}

/// Reading the signed 8-bit units of a byte string back as bytes gives the
/// bytes again.
pub proof fn lemma_signed_then_unsigned(s: Seq<u8>)
    ensures
        unsigned_units(signed_units(s)) == s,
{
    assert forall|i: int| 0 <= i < s.len() implies unsigned_units(signed_units(s))[i] == s[i] by {
        let c = s[i];
        assert(((c as i8) as u8) == c) by (bit_vector);
    }
    assert(unsigned_units(signed_units(s)) =~= s);
}

} // verus!
