use vstd::prelude::*;
use crate::cpu::{lcg_next, lcg_step};

verus! {

/// Size of the sequential test file: 128 MiB.
pub const SEQ_SIZE: usize = 134217728;
/// Sequential IO chunk: 8 MiB.
pub const CHUNK: usize = 8388608;
/// Sector alignment required by unbuffered IO.
pub const ALIGN: usize = 4096;
/// Size of one random read.
pub const RAND_BLOCK: usize = 4096;
/// Number of `RAND_BLOCK`-sized blocks in the test file.
pub const RAND_BLOCKS: u64 = 32768;

/// Address of the first byte of `v`'s heap storage (`Vec::as_ptr`, read as
/// a number). Trusted: nothing is
/// claimed of the value, which depends on where the allocator placed it.
#[verifier::external_body]
fn heap_address(v: &Vec<u8>) -> usize {
    v.as_ptr() as usize
}

/// The bytes `v[start..end]`, writable, as `&mut v[start..end]` gives them.
/// Trusted: the slice holds those bytes; it keeps its length (a slice cannot
/// grow or shrink); and once it is released, `v` holds its first `start`
/// bytes, then what the slice holds, then its bytes from `end` on.
#[verifier::external_body]
fn range_mut(v: &mut Vec<u8>, start: usize, end: usize) -> (s: &mut [u8])
    requires
        start <= end <= old(v)@.len(),
    ensures
        s@ == old(v)@.subrange(start as int, end as int),
        final(s)@.len() == end - start,
        final(v)@ == old(v)@.subrange(0, start as int) + final(s)@ + old(v)@.subrange(
            end as int,
            old(v)@.len() as int,
        ),
{
    &mut v[start..end]
}

/// Distance from `address` up to the next `ALIGN`-aligned address (0 when it
/// is aligned already).
pub fn align_offset(address: usize) -> (o: usize)
    ensures
        o < ALIGN,
        (address + o) % (ALIGN as int) == 0,
{
    let r = address % ALIGN;
    if r == 0 {
        0
    } else {
        proof {
            lemma_align_up(address as int, r as int);
        }
        ALIGN - r
    }
}

proof fn lemma_align_up(a: int, r: int)
    requires
        a >= 0,
        r == a % 4096,
        r != 0,
    ensures
        (a + (4096 - r)) % 4096 == 0,
{
    assert((a + (4096 - r)) % 4096 == 0) by (nonlinear_arith)
        requires
            a >= 0,
            r == a % 4096,
            r != 0,
    ;
}

/// A heap buffer whose data starts at an `ALIGN`-aligned address, as
/// required by unbuffered IO.
pub struct AlignedBuf {
    raw: Vec<u8>,
    /// Heap address of `raw`'s first byte, as read when it was allocated.
    address: usize,
    offset: usize,
    len: usize,
}

impl View for AlignedBuf {
    type V = Seq<u8>;

    /// The usable bytes of the buffer.
    closed spec fn view(&self) -> Seq<u8> {
        self.raw@.subrange(self.offset as int, self.offset + self.len)
    }
}

impl AlignedBuf {
    /// The usable window lies inside the allocation and starts at an
    /// `ALIGN`-aligned address.
    pub closed spec fn wf(&self) -> bool {
        &&& self.offset < ALIGN
        &&& (self.address + self.offset) % (ALIGN as int) == 0
        &&& self.offset + self.len <= self.raw.len()
    }

    /// Address at which the usable bytes start: the heap address read at
    /// allocation plus the offset of the window.
    pub closed spec fn data_address(&self) -> int {
        self.address + self.offset
    }

    /// Allocate `len` usable bytes, all equal to `fill`, starting at an
    /// aligned address.
    pub fn new(len: usize, fill: u8) -> (b: Self)
        requires
            len + ALIGN <= usize::MAX,
        ensures
            b.wf(),
            b.data_address() % (ALIGN as int) == 0,
            b@ == Seq::new(len as nat, |i: int| fill),
    {
        let total = len + ALIGN;
        let mut raw: Vec<u8> = Vec::with_capacity(total);
        let mut i: usize = 0;
        while i < total
            invariant
                i <= total,
                raw@.len() == i,
                forall|j: int| 0 <= j < i ==> #[trigger] raw@[j] == fill,
            decreases total - i,
        {
            raw.push(fill);
            i = i + 1;
        }
        let address = heap_address(&raw);
        let offset = align_offset(address);
        let b = AlignedBuf { raw, address, offset, len };
        assert(b@ =~= Seq::new(len as nat, |i: int| fill));
        b
    }

    /// The usable bytes.
    pub fn slice(&self) -> (s: &[u8])
        requires
            self.wf(),
        ensures
            s@ == self@,
    {
        let (_, tail) = self.raw.as_slice().split_at(self.offset);
        let (window, _) = tail.split_at(self.len);
        window
    }

    /// The usable bytes, writable; what is written through them is what the
    /// buffer holds afterwards.
    pub fn slice_mut(&mut self) -> (s: &mut [u8])
        requires
            old(self).wf(),
        ensures
            s@ == old(self)@,
            final(self).wf(),
            final(self).data_address() == old(self).data_address(),
            final(self)@ == final(s)@,
    {
        let start = self.offset;
        let end = self.offset + self.len;
        range_mut(&mut self.raw, start, end)
    }
}

/// Byte offset of the block selected by generator output `x`.
pub open spec fn block_offset(x: u64) -> u64 {
    ((x % RAND_BLOCKS) * (RAND_BLOCK as u64)) as u64
}

/// Byte offset of the random read that follows generator state `rng`.
pub open spec fn read_offset_of(rng: u64) -> u64 {
    block_offset(lcg_step(rng))
}

/// A selected block is a whole, aligned block inside the test file.
pub proof fn lemma_block_offset(x: u64)
    ensures
        (x % RAND_BLOCKS) * (RAND_BLOCK as u64) + RAND_BLOCK <= SEQ_SIZE,
        block_offset(x) == (x % RAND_BLOCKS) * (RAND_BLOCK as u64),
        block_offset(x) % (ALIGN as u64) == 0,
{
    let b = x % RAND_BLOCKS;
    assert(b < 32768);
    assert(b * 4096 + 4096 <= 134217728) by (nonlinear_arith)
        requires
            b < 32768,
    ;
    assert((b * 4096) % 4096 == 0) by (nonlinear_arith);
}

/// Advance the random-read generator: returns the new generator state and
/// the byte offset of the block to read next.
pub fn next_random_read(rng: u64) -> (r: (u64, u64))
    ensures
        r.0 == lcg_step(rng),
        r.1 == read_offset_of(rng),
{
    let next = lcg_next(rng);
    proof {
        lemma_block_offset(next);
    }
    let block = next % RAND_BLOCKS;
    (next, block * (RAND_BLOCK as u64))
}

/// Every random read is a whole, aligned block inside the test file.
pub proof fn lemma_random_reads_in_file(rng: u64)
    ensures
        read_offset_of(rng) + RAND_BLOCK <= SEQ_SIZE,
        read_offset_of(rng) % (ALIGN as u64) == 0,
{
    lemma_block_offset(lcg_step(rng));
}

} // verus!
