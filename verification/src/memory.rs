//! The memory accessor: bounds-checked reads and writes of the guest's
//! linear memory.
//!
//! Every payload that crosses the host/guest boundary is copied into or out
//! of the guest's memory through the two methods here; no other part of the
//! crate touches raw ranges. A range that leaves the current memory is
//! rejected whole: a failed write leaves the memory untouched, never
//! partially written.

use crate::Fault;
use vstd::prelude::*;

verus! {

/// The bytes a read of `len` bytes at `ptr` returns.
pub open spec fn read_seq(mem: Seq<u8>, ptr: int, len: int) -> Seq<u8> {
    mem.subrange(ptr, ptr + len)
}

/// The memory a write of `data` at `ptr` leaves behind: `data` replaces the
/// bytes at `[ptr, ptr + data.len())` and every other byte keeps its value.
pub open spec fn write_seq(mem: Seq<u8>, ptr: int, data: Seq<u8>) -> Seq<u8> {
    mem.take(ptr) + data + mem.skip(ptr + data.len())
}

/// Whether the range `[ptr, ptr + len)` lies inside a memory of `mem_len` bytes.
pub open spec fn range_in_bounds(ptr: int, len: int, mem_len: int) -> bool {
    0 <= ptr && 0 <= len && ptr + len <= mem_len
}

/// The guest's linear memory: a contiguous byte array addressed by 32-bit
/// offsets, the only storage both sides of the boundary can name.
pub struct GuestMemory {
    data: Vec<u8>,
}

impl View for GuestMemory {
    type V = Seq<u8>;

    closed spec fn view(&self) -> Seq<u8> {
        self.data@
    }
}

impl GuestMemory {
    /// A zero-filled memory of `size` bytes.
    pub fn new(size: usize) -> (r: GuestMemory)
        ensures
            r@ == Seq::new(size as nat, |i: int| 0u8),
    {
        GuestMemory { data: vec![0u8; size] }
    }

    /// A memory holding exactly the given bytes.
    pub fn from_vec(data: Vec<u8>) -> (r: GuestMemory)
        ensures
            r@ == data@,
    {
        GuestMemory { data }
    }

    /// The number of bytes currently allocated.
    pub fn size(&self) -> (r: usize)
        ensures
            r == self@.len(),
    {
        self.data.len()
    }

    /// How many bytes lie at or after `ptr`: the largest length that can be
    /// read or written there.
    pub fn remaining_capacity_at(&self, ptr: u32) -> (r: usize)
        ensures
            r == if ptr <= self@.len() {
                self@.len() - ptr
            } else {
                0int
            },
    {
        if (ptr as usize) <= self.data.len() {
            self.data.len() - ptr as usize
        } else {
            0
        }
    }

    /// Returns a copy of `len` bytes starting at `ptr`, or rejects the range
    /// if any part of it leaves the current memory. A rejected read touches
    /// nothing.
    pub fn read_bytes(&self, ptr: u32, len: u32) -> (r: Result<Vec<u8>, Fault>)
        ensures
            range_in_bounds(ptr as int, len as int, self@.len() as int) ==> (r matches Ok(v)
                && v@ == read_seq(self@, ptr as int, len as int)),
            !range_in_bounds(ptr as int, len as int, self@.len() as int) ==> r == Err::<
                Vec<u8>,
                Fault,
            >(Fault::OutOfBounds),
    {
        let p = ptr as usize;
        let l = len as usize;
        if l > self.data.len() || p > self.data.len() - l {
            return Err(Fault::OutOfBounds);
        }
        let mut out: Vec<u8> = Vec::new();
        let mut i: usize = 0;
        while i < l
            invariant
                i <= l,
                p + l <= self.data.len(),
                out@ == self@.subrange(p as int, p as int + i as int),
            decreases l - i,
        {
            out.push(self.data[p + i]);
            assert(out@ =~= self@.subrange(p as int, p as int + (i + 1) as int));
            i += 1;
        }
        Ok(out)
    }

    /// Copies `data` into memory starting at `ptr`, or rejects the
    /// destination range if any part of it leaves the current memory. A
    /// rejected write leaves the memory exactly as it was: there are no
    /// partial writes.
    pub fn write_bytes(&mut self, ptr: u32, data: &[u8]) -> (r: Result<(), Fault>)
        ensures
            r is Ok <==> range_in_bounds(ptr as int, data@.len() as int, old(self)@.len() as int),
            r is Ok ==> final(self)@ == write_seq(old(self)@, ptr as int, data@),
            r is Err ==> final(self)@ == old(self)@ && r == Err::<(), Fault>(Fault::OutOfBounds),
    {
        let p = ptr as usize;
        let l = data.len();
        if l > self.data.len() || p > self.data.len() - l {
            return Err(Fault::OutOfBounds);
        }
        let mut i: usize = 0;
        while i < l
            invariant
                i <= l,
                p + l <= self.data.len(),
                l == data@.len(),
                self.data@.len() == old(self)@.len(),
                forall|j: int| 0 <= j < p ==> self.data@[j] == old(self)@[j],
                forall|j: int| 0 <= j < i ==> self.data@[p + j] == data@[j],
                forall|j: int| p + l <= j < self.data@.len() ==> self.data@[j] == old(self)@[j],
                forall|j: int| p + i <= j < p + l ==> self.data@[j] == old(self)@[j],
            decreases l - i,
        {
            let slot = &mut self.data[p + i];
            *slot = data[i];
            i += 1;
        }
        assert(self.data@ =~= write_seq(old(self)@, ptr as int, data@));
        Ok(())
    }
}

/// Writing any byte sequence `b` at `ptr` and then reading `b.len()` bytes
/// back at `ptr` returns exactly `b`, whenever `b` fits in the remaining
/// capacity at `ptr`.
pub proof fn lemma_write_then_read(mem: Seq<u8>, ptr: int, data: Seq<u8>)
    requires
        range_in_bounds(ptr, data.len() as int, mem.len() as int),
    ensures
        read_seq(write_seq(mem, ptr, data), ptr, data.len() as int) == data,
{
    assert(read_seq(write_seq(mem, ptr, data), ptr, data.len() as int) =~= data);
}

/// A write never changes the bytes outside the written range, and never
/// changes the memory's size.
pub proof fn lemma_write_preserves_rest(mem: Seq<u8>, ptr: int, data: Seq<u8>)
    requires
        range_in_bounds(ptr, data.len() as int, mem.len() as int),
    ensures
        write_seq(mem, ptr, data).len() == mem.len(),
        forall|j: int|
            0 <= j < mem.len() && !(ptr <= j < ptr + data.len()) ==> write_seq(mem, ptr, data)[j]
                == mem[j],
{
}

} // verus!
