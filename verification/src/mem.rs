//! The kernel heap's bookkeeping: freed blocks kept per power-of-two size
//! class for reuse, and counters of how the heap is used.

use vstd::prelude::*;
use vstd::arithmetic::power2::pow2;

verus! {

pub const HEAP_START_ADDR: usize = 0x1000_0000;
pub const HEAP_SAFE_MARGIN: usize = 0x1000;
pub const HEAP_SIZE: usize = 0x2000_0000;

/// The smallest block is 2^6 bytes.
pub const MIN_BITS: usize = 6;
pub const MIN_SIZE: usize = 64;

/// The freed blocks of one size, the last freed on top.
pub struct ChunkList {
    pub chunks: Vec<usize>,
}

impl ChunkList {
    pub fn new() -> (r: ChunkList)
        ensures
            r.chunks@ == Seq::<usize>::empty(),
    {
        ChunkList { chunks: Vec::new() }
    }

    /// Forgets every block.
    pub fn init(&mut self)
        ensures
            final(self).chunks@ == Seq::<usize>::empty(),
    {
        self.chunks = Vec::new();
    }

    /// Takes the block freed last, if any.
    pub fn get_mem(&mut self) -> (r: Option<usize>)
        ensures
            old(self).chunks@.len() == 0 ==> r is None && final(self).chunks@ == old(self).chunks@,
            old(self).chunks@.len() > 0 ==> r == Some(old(self).chunks@.last())
                && final(self).chunks@ == old(self).chunks@.drop_last(),
    {
        self.chunks.pop()
    }

    /// Keeps a freed block.
    pub fn insert_mem(&mut self, ptr: usize)
        ensures
            final(self).chunks@ == old(self).chunks@.push(ptr),
    {
        self.chunks.push(ptr);
    }
}

/// The number of trailing zero bits of `n` (0 for 0).
pub open spec fn spec_trailing_zeros(n: nat) -> nat
    decreases n,
{
    if n == 0 || n % 2 == 1 { 0 } else { 1 + spec_trailing_zeros(n / 2) }
}

/// The freed blocks, one list per size class 2^6 .. 2^16.
pub struct ReleasedMem {
    pub chunk_lists: Vec<ChunkList>,
}

impl ReleasedMem {
    pub const MAX_BITS: usize = 16;
    pub const NUM_CLASSES: usize = 11;
    pub const MAX_SIZE: usize = 65536;

    /// The size classes' lists, one per class.
    pub open spec fn wf(&self) -> bool {
        self.chunk_lists@.len() == Self::NUM_CLASSES
    }

    /// The blocks kept for each size class.
    pub open spec fn view_lists(&self) -> Seq<Seq<usize>> {
        Seq::new(self.chunk_lists@.len(), |i: int| self.chunk_lists@[i].chunks@)
    }

    pub fn new() -> (r: ReleasedMem)
        ensures
            r.wf(),
            r.view_lists() == Seq::new(11, |i: int| Seq::<usize>::empty()),
    {
        let mut lists: Vec<ChunkList> = Vec::new();
        let mut i: usize = 0;
        while i < Self::NUM_CLASSES
            invariant
                i <= Self::NUM_CLASSES,
                lists@.len() == i,
                forall|j: int| 0 <= j < i ==> (#[trigger] lists@[j]).chunks@ == Seq::<usize>::empty(),
            decreases Self::NUM_CLASSES - i,
        {
            lists.push(ChunkList::new());
            i = i + 1;
        }
        let r = ReleasedMem { chunk_lists: lists };
        assert(r.view_lists() =~= Seq::new(11, |i: int| Seq::<usize>::empty()));
        r
    }

    /// Forgets every kept block.
    pub fn init(&mut self)
        requires
            old(self).wf(),
        ensures
            final(self).wf(),
            final(self).view_lists() == Seq::new(11, |i: int| Seq::<usize>::empty()),
    {
        *self = ReleasedMem::new();
    }

    fn trailing_zeros(n: usize) -> (r: usize)
        ensures
            r == spec_trailing_zeros(n as nat),
            r <= 64,
    {
        let mut v = n;
        let mut k: usize = 0;
        proof {
            vstd::arithmetic::power2::lemma2_to64();
        }
        while v != 0 && v % 2 == 0
            invariant
                k + spec_trailing_zeros(v as nat) == spec_trailing_zeros(n as nat),
                k <= 64,
                v as nat * vstd::arithmetic::power2::pow2(k as nat) == n,
            decreases v,
        {
            proof {
                vstd::arithmetic::power2::lemma_pow2_unfold((k + 1) as nat);
                assert((v / 2) as nat * vstd::arithmetic::power2::pow2((k + 1) as nat) == n) by (nonlinear_arith)
                    requires v % 2 == 0, v as nat * vstd::arithmetic::power2::pow2(k as nat) == n,
                        vstd::arithmetic::power2::pow2((k + 1) as nat) == 2 * vstd::arithmetic::power2::pow2(k as nat);
                if k + 1 > 64 {
                    vstd::arithmetic::power2::lemma_pow2_strictly_increases(64, (k + 1) as nat);
                    vstd::arithmetic::power2::lemma2_to64();
                    assert(v / 2 >= 1);
                    assert((v / 2) as nat * vstd::arithmetic::power2::pow2((k + 1) as nat) >= vstd::arithmetic::power2::pow2((k + 1) as nat)) by (nonlinear_arith)
                        requires v / 2 >= 1;
                }
            }
            v = v / 2;
            k = k + 1;
        }
        k
    }

    /// The size class of a block: none above 64 KiB, otherwise its number
    /// of trailing zero bits minus 6 (sizes are powers of two of at least
    /// 64 bytes).
    pub open spec fn spec_index_by_size(size: usize) -> Option<usize> {
        if size > Self::MAX_SIZE {
            None
        } else {
            Some((spec_trailing_zeros(size as nat) - MIN_BITS) as usize)
        }
    }

    /// The sizes whose class can be computed: any above 64 KiB, and the
    /// multiples of 64 up to it.
    pub open spec fn valid_size(size: usize) -> bool {
        size > Self::MAX_SIZE || (size > 0 && size % 64 == 0)
    }

    proof fn lemma_index_in_range(size: usize)
        requires
            0 < size <= Self::MAX_SIZE,
            size % 64 == 0,
        ensures
            MIN_BITS <= spec_trailing_zeros(size as nat) < MIN_BITS + Self::NUM_CLASSES,
    {
        let n = size as nat;
        vstd::arithmetic::power2::lemma2_to64();
        assert(n / 64 * 64 == n);
        assert((n / 64) * vstd::arithmetic::power2::pow2(6) == n);
        lemma_tz_mul(n / 64, 6);
        lemma_tz_le(n, 16);
    }

    pub fn index_by_size(&self, size: usize) -> (r: Option<usize>)
        requires
            Self::valid_size(size),
        ensures
            r == Self::spec_index_by_size(size),
            r matches Some(i) ==> i < Self::NUM_CLASSES,
    {
        if size > Self::MAX_SIZE {
            None
        } else {
            proof {
                Self::lemma_index_in_range(size);
            }
            let bits = Self::trailing_zeros(size);
            Some(bits - MIN_BITS)
        }
    }

    /// Taking a block of `size`'s class: the one kept last, if any.
    pub open spec fn spec_get(lists: Seq<Seq<usize>>, size: usize) -> (Seq<Seq<usize>>, Option<usize>) {
        match Self::spec_index_by_size(size) {
            None => (lists, None),
            Some(i) => {
                let l = lists[i as int];
                if l.len() == 0 {
                    (lists, None)
                } else {
                    (lists.update(i as int, l.drop_last()), Some(l.last()))
                }
            },
        }
    }

    /// Keeping a block in `size`'s class; sizes above 64 KiB have none.
    pub open spec fn spec_insert(lists: Seq<Seq<usize>>, ptr: usize, size: usize) -> Seq<Seq<usize>> {
        match Self::spec_index_by_size(size) {
            None => lists,
            Some(i) => lists.update(i as int, lists[i as int].push(ptr)),
        }
    }

    /// Takes the block of `size`'s class freed last, if any.
    pub fn get_mem(&mut self, size: usize) -> (r: Option<usize>)
        requires
            old(self).wf(),
            Self::valid_size(size),
        ensures
            final(self).wf(),
            (final(self).view_lists(), r) == Self::spec_get(old(self).view_lists(), size),
    {
        let index = match self.index_by_size(size) {
            Some(i) => i,
            None => return None,
        };
        let mut list = ChunkList::new();
        std::mem::swap(&mut list, &mut self.chunk_lists[index]);
        let r = list.get_mem();
        std::mem::swap(&mut list, &mut self.chunk_lists[index]);
        proof {
            assert(self.view_lists() =~= if old(self).view_lists()[index as int].len() > 0 {
                old(self).view_lists().update(index as int, old(self).view_lists()[index as int].drop_last())
            } else {
                old(self).view_lists()
            });
        }
        r
    }

    /// Keeps a freed block in its size class; sizes above 64 KiB have none.
    pub fn insert_mem(&mut self, ptr: usize, size: usize) -> (r: Result<(), ()>)
        requires
            old(self).wf(),
            Self::valid_size(size),
        ensures
            final(self).wf(),
            final(self).view_lists() == Self::spec_insert(old(self).view_lists(), ptr, size),
            r is Ok <==> Self::spec_index_by_size(size) is Some,
    {
        if let Some(index) = self.index_by_size(size) {
            let mut list = ChunkList::new();
            std::mem::swap(&mut list, &mut self.chunk_lists[index]);
            list.insert_mem(ptr);
            std::mem::swap(&mut list, &mut self.chunk_lists[index]);
            proof {
                assert(self.view_lists() =~= old(self).view_lists().update(index as int, old(self).view_lists()[index as int].push(ptr)));
            }
            Ok(())
        } else {
            Err(())
        }
    }
    /// A block kept in a size class is the next one given out for that
    /// class; taking a block and keeping it again leaves the lists as they
    /// were.
    pub proof fn lemma_insert_then_get(lists: Seq<Seq<usize>>, ptr: usize, size: usize)
        requires
            lists.len() == Self::NUM_CLASSES,
            Self::valid_size(size),
            size <= Self::MAX_SIZE,
        ensures
            Self::spec_get(Self::spec_insert(lists, ptr, size), size) == (lists, Some(ptr)),
            Self::spec_get(lists, size).1 matches Some(p) ==> Self::spec_insert(Self::spec_get(lists, size).0, p, size) == lists,
    {
        Self::lemma_index_in_range(size);
        let i = (spec_trailing_zeros(size as nat) - MIN_BITS) as int;
        assert(Self::spec_insert(lists, ptr, size)[i].drop_last() =~= lists[i]);
        assert(lists.update(i, lists[i].push(ptr)).update(i, lists[i]) =~= lists);
        if lists[i].len() > 0 {
            assert(lists[i].drop_last().push(lists[i].last()) =~= lists[i]);
            assert(lists.update(i, lists[i].drop_last()).update(i, lists[i]) =~= lists);
        }
    }
}

proof fn lemma_tz_mul(m: nat, k: nat)
    requires
        m * vstd::arithmetic::power2::pow2(k) > 0,
    ensures
        spec_trailing_zeros(m * vstd::arithmetic::power2::pow2(k)) >= k,
    decreases k,
{
    if k > 0 {
        vstd::arithmetic::power2::lemma_pow2_unfold(k);
        let p = vstd::arithmetic::power2::pow2((k - 1) as nat);
        assert(m * vstd::arithmetic::power2::pow2(k) == 2 * (m * p)) by (nonlinear_arith)
            requires vstd::arithmetic::power2::pow2(k) == 2 * p;
        assert((2 * (m * p)) / 2 == m * p);
        lemma_tz_mul(m, (k - 1) as nat);
    }
}

proof fn lemma_tz_le(n: nat, k: nat)
    requires
        0 < n <= vstd::arithmetic::power2::pow2(k),
    ensures
        spec_trailing_zeros(n) <= k,
    decreases k,
{
    if n % 2 == 0 {
        if k == 0 {
            vstd::arithmetic::power2::lemma2_to64();
        } else {
            vstd::arithmetic::power2::lemma_pow2_unfold(k);
            lemma_tz_le(n / 2, (k - 1) as nat);
        }
    }
}

/// How much of the heap is in use, lost to alignment, kept for reuse,
/// lost for good, and reused so far, in bytes.
pub struct MemStatistics {
    pub in_use: usize,
    pub padding: usize,
    pub cached: usize,
    pub dead: usize,
    pub reused_total: usize,
}

impl MemStatistics {
    pub fn new() -> (r: MemStatistics)
        ensures
            r == (MemStatistics { in_use: 0, padding: 0, cached: 0, dead: 0, reused_total: 0 }),
    {
        MemStatistics { in_use: 0, padding: 0, cached: 0, dead: 0, reused_total: 0 }
    }

    pub fn init(&mut self)
        ensures
            *final(self) == (MemStatistics { in_use: 0, padding: 0, cached: 0, dead: 0, reused_total: 0 }),
    {
        *self = MemStatistics::new();
    }

    /// A new block of `size` bytes, after `padding` bytes of alignment.
    pub fn notify_allocated(&mut self, size: usize, padding: usize)
        requires
            old(self).in_use + size <= usize::MAX,
            old(self).padding + padding <= usize::MAX,
        ensures
            *final(self) == (MemStatistics { in_use: (old(self).in_use + size) as usize, padding: (old(self).padding + padding) as usize, ..*old(self) }),
    {
        self.in_use = self.in_use + size;
        self.padding = self.padding + padding;
    }

    /// A kept block of `size` bytes given out again.
    pub fn notify_reused(&mut self, size: usize)
        requires
            old(self).in_use + size <= usize::MAX,
            old(self).cached >= size,
            old(self).reused_total + size <= usize::MAX,
        ensures
            *final(self) == (MemStatistics {
                in_use: (old(self).in_use + size) as usize,
                cached: (old(self).cached - size) as usize,
                reused_total: (old(self).reused_total + size) as usize,
                ..*old(self)
            }),
    {
        self.in_use = self.in_use + size;
        self.cached = self.cached - size;
        self.reused_total = self.reused_total + size;
    }

    /// A freed block of `size` bytes kept for reuse.
    pub fn notify_cached(&mut self, size: usize)
        requires
            old(self).in_use >= size,
            old(self).cached + size <= usize::MAX,
        ensures
            *final(self) == (MemStatistics { in_use: (old(self).in_use - size) as usize, cached: (old(self).cached + size) as usize, ..*old(self) }),
    {
        self.in_use = self.in_use - size;
        self.cached = self.cached + size;
    }

    /// A freed block of `size` bytes that cannot be reused.
    pub fn notify_dead(&mut self, size: usize)
        requires
            old(self).in_use >= size,
            old(self).dead + size <= usize::MAX,
        ensures
            *final(self) == (MemStatistics { in_use: (old(self).in_use - size) as usize, dead: (old(self).dead + size) as usize, ..*old(self) }),
    {
        self.in_use = self.in_use - size;
        self.dead = self.dead + size;
    }
}

/// The exponent of the block for a request of `size` bytes: the least
/// `e >= k` with `2^e >= size`.
pub open spec fn spec_block_bits(size: nat, k: nat) -> nat
    decreases size - k,
{
    if pow2(k) >= size {
        k
    } else {
        proof {
            lemma_pow2_above(k);
        }
        spec_block_bits(size, k + 1)
    }
}

pub proof fn lemma_pow2_above(k: nat)
    ensures
        pow2(k) > k,
    decreases k,
{
    vstd::arithmetic::power2::lemma2_to64();
    if k > 0 {
        vstd::arithmetic::power2::lemma_pow2_unfold(k);
        lemma_pow2_above((k - 1) as nat);
        vstd::arithmetic::power2::lemma_pow2_pos((k - 1) as nat);
    }
}

/// `(n + 1) c = n c + c`.
proof fn lemma_mul_step(c: int, n: int)
    ensures
        (n + 1) * c == n * c + c,
        n >= 1 && c >= 0 ==> n * c >= c,
{
    assert((n + 1) * c == n * c + c) by (nonlinear_arith);
    assert(n >= 1 && c >= 0 ==> n * c >= c) by (nonlinear_arith);
}

/// The block given for a request of `size` bytes: the smallest power of two
/// that holds it, and at least 64 bytes.
pub open spec fn spec_block_size(size: nat) -> nat {
    pow2(spec_block_bits(size, MIN_BITS as nat))
}

proof fn lemma_block_bits(size: nat, k: nat)
    ensures
        spec_block_bits(size, k) >= k,
        pow2(spec_block_bits(size, k)) >= size,
        spec_block_bits(size, k) > k ==> pow2((spec_block_bits(size, k) - 1) as nat) < size,
        size <= pow2(16) && k <= 16 ==> spec_block_bits(size, k) <= 16,
    decreases size - k,
{
    if pow2(k) < size {
        lemma_pow2_above(k);
        vstd::arithmetic::power2::lemma_pow2_unfold(k + 1);
        vstd::arithmetic::power2::lemma_pow2_pos(k);
        lemma_block_bits(size, k + 1);
        if k == 16 {
            vstd::arithmetic::power2::lemma2_to64();
        }
    }
}

proof fn lemma_tz_pow2(k: nat)
    ensures
        spec_trailing_zeros(pow2(k)) == k,
    decreases k,
{
    vstd::arithmetic::power2::lemma_pow2_pos(k);
    vstd::arithmetic::power2::lemma2_to64();
    if k > 0 {
        vstd::arithmetic::power2::lemma_pow2_unfold(k);
        lemma_tz_pow2((k - 1) as nat);
    }
}

/// What a block's size says of its class: a power of two of at least 64
/// bytes, of class `bits - 6` when it is at most 64 KiB.
proof fn lemma_block_class(size: nat)
    ensures
        spec_block_size(size) == pow2(spec_block_bits(size, 6)),
        spec_block_bits(size, 6) >= 6,
        spec_block_size(size) >= size,
        spec_block_size(size) >= 64,
        spec_block_size(size) % 64 == 0,
        spec_block_bits(size, 6) > 6 ==> spec_block_size(size) < 2 * size,
        spec_block_size(size) <= ReleasedMem::MAX_SIZE ==> spec_trailing_zeros(spec_block_size(size)) == spec_block_bits(size, 6)
            && spec_block_bits(size, 6) <= 16,
        size <= ReleasedMem::MAX_SIZE ==> spec_block_size(size) <= ReleasedMem::MAX_SIZE,
{
    let k = spec_block_bits(size, 6);
    lemma_block_bits(size, 6);
    vstd::arithmetic::power2::lemma2_to64();
    vstd::arithmetic::power2::lemma_pow2_adds((k - 6) as nat, 6);
    vstd::arithmetic::power2::lemma_pow2_pos((k - 6) as nat);
    assert(pow2(k) % 64 == 0) by (nonlinear_arith)
        requires pow2(k) == pow2((k - 6) as nat) * 64;
    if k > 6 {
        vstd::arithmetic::power2::lemma_pow2_unfold(k);
    }
    lemma_tz_pow2(k);
    if k > 16 {
        vstd::arithmetic::power2::lemma_pow2_strictly_increases(16, k);
    }
    if size <= ReleasedMem::MAX_SIZE {
        assert(size <= pow2(16));
    }
}

/// The bytes kept in the first `n` size classes.
pub open spec fn spec_kept_bytes(lists: Seq<Seq<usize>>, n: nat) -> nat
    decreases n,
{
    if n == 0 {
        0
    } else {
        spec_kept_bytes(lists, (n - 1) as nat) + lists[n - 1].len() * pow2((n - 1 + MIN_BITS) as nat)
    }
}

proof fn lemma_kept_update(lists: Seq<Seq<usize>>, n: nat, i: int, l: Seq<usize>)
    requires
        0 <= i < lists.len(),
        n <= lists.len(),
    ensures
        i < n ==> spec_kept_bytes(lists.update(i, l), n)
            == spec_kept_bytes(lists, n) - lists[i].len() * pow2((i + MIN_BITS) as nat) + l.len() * pow2((i + MIN_BITS) as nat),
        i >= n ==> spec_kept_bytes(lists.update(i, l), n) == spec_kept_bytes(lists, n),
        spec_kept_bytes(lists, n) >= 0,
        i < n ==> spec_kept_bytes(lists, n) >= lists[i].len() * pow2((i + MIN_BITS) as nat),
    decreases n,
{
    if n > 0 {
        lemma_kept_update(lists, (n - 1) as nat, i, l);
        vstd::arithmetic::power2::lemma_pow2_pos((n - 1 + MIN_BITS) as nat);
        assert(lists[n - 1].len() * pow2((n - 1 + MIN_BITS) as nat) >= 0) by (nonlinear_arith)
            requires pow2((n - 1 + MIN_BITS) as nat) > 0;
    }
}

/// The heap: a bump allocator over `HEAP_SIZE` bytes from
/// `HEAP_START_ADDR`, with freed blocks kept per size class for reuse, and
/// its counters.
pub struct MemoryAllocator {
    /// The bytes of the heap given out from its start so far.
    pub used: usize,
    pub released: ReleasedMem,
    pub stats: MemStatistics,
    /// Whether the heap running low was reported.
    pub mem_error_notified: bool,
}

/// Allocating `size` bytes aligned to `align`: a kept block of its class if
/// one is aligned (the last kept one, which stays kept otherwise), else the
/// next aligned bytes of the heap, unless they would reach its end. The
/// result is the heap, its lists and counters, and the address.
pub open spec fn spec_alloc(used: usize, lists: Seq<Seq<usize>>, stats: MemStatistics, size: usize, align: usize)
    -> (usize, Seq<Seq<usize>>, MemStatistics, Option<usize>)
{
    if size > HEAP_SIZE {
        (used, lists, stats, None)
    } else {
        let s = spec_block_size(size as nat);
        let (l1, got) = ReleasedMem::spec_get(lists, s as usize);
        if got is Some && got->0 % align == 0 {
            (used, l1, MemStatistics {
                in_use: (stats.in_use + s) as usize,
                cached: (stats.cached - s) as usize,
                reused_total: (stats.reused_total + s) as usize,
                ..stats
            }, got)
        } else {
            let start = (used + align - 1) / align as int * align;
            let end = start + s;
            if end >= HEAP_SIZE {
                (used, lists, stats, None)
            } else {
                (end as usize, lists, MemStatistics {
                    in_use: (stats.in_use + s) as usize,
                    padding: (stats.padding + start - used) as usize,
                    ..stats
                }, Some((HEAP_START_ADDR + start) as usize))
            }
        }
    }
}

/// Freeing the block at `ptr` given for `size` bytes: kept in its class, or
/// counted as lost when it is above 64 KiB.
pub open spec fn spec_dealloc(lists: Seq<Seq<usize>>, stats: MemStatistics, ptr: usize, size: usize) -> (Seq<Seq<usize>>, MemStatistics) {
    let s = spec_block_size(size as nat);
    match ReleasedMem::spec_index_by_size(s as usize) {
        Some(_) => (ReleasedMem::spec_insert(lists, ptr, s as usize),
            MemStatistics { in_use: (stats.in_use - s) as usize, cached: (stats.cached + s) as usize, ..stats }),
        None => (lists, MemStatistics { in_use: (stats.in_use - s) as usize, dead: (stats.dead + s) as usize, ..stats }),
    }
}

impl MemoryAllocator {
    /// The heap's bookkeeping: the kept bytes are those of the lists, and
    /// the bytes in use, lost to alignment, kept and lost for good are
    /// within what was given out.
    pub open spec fn wf(&self) -> bool {
        &&& self.released.wf()
        &&& self.used < HEAP_SIZE
        &&& self.stats.cached == spec_kept_bytes(self.released.view_lists(), ReleasedMem::NUM_CLASSES as nat)
        &&& self.stats.in_use + self.stats.padding + self.stats.cached + self.stats.dead <= self.used
    }

    /// Every byte given out is in use, lost to alignment, kept or lost.
    pub open spec fn balanced(&self) -> bool {
        self.stats.in_use + self.stats.padding + self.stats.cached + self.stats.dead == self.used
    }

    /// An untouched heap.
    pub fn new() -> (r: MemoryAllocator)
        ensures
            r.wf(),
            r.balanced(),
            r.used == 0,
            r.released.view_lists() == Seq::new(11, |i: int| Seq::<usize>::empty()),
            r.stats == (MemStatistics { in_use: 0, padding: 0, cached: 0, dead: 0, reused_total: 0 }),
            !r.mem_error_notified,
    {
        let r = MemoryAllocator { used: 0, released: ReleasedMem::new(), stats: MemStatistics::new(), mem_error_notified: false };
        proof {
            lemma_kept_empty(r.released.view_lists(), 11);
        }
        r
    }

    /// Forgets the kept blocks and clears the counters; what was given out
    /// stays given out.
    pub fn init(&mut self)
        requires
            old(self).wf(),
        ensures
            final(self).wf(),
            final(self).used == old(self).used,
            final(self).mem_error_notified == old(self).mem_error_notified,
            final(self).released.view_lists() == Seq::new(11, |i: int| Seq::<usize>::empty()),
            final(self).stats == (MemStatistics { in_use: 0, padding: 0, cached: 0, dead: 0, reused_total: 0 }),
    {
        self.released.init();
        self.stats.init();
        proof {
            lemma_kept_empty(self.released.view_lists(), 11);
        }
    }

    fn block_size(size: usize) -> (r: usize)
        requires
            size <= HEAP_SIZE,
        ensures
            r == spec_block_size(size as nat),
            r <= 2 * HEAP_SIZE,
    {
        let mut p: usize = MIN_SIZE;
        let ghost mut k: nat = 6;
        proof {
            vstd::arithmetic::power2::lemma2_to64();
            lemma_block_bits(size as nat, 6);
        }
        while p < size
            invariant
                p == pow2(k),
                k >= 6,
                spec_block_bits(size as nat, k) == spec_block_bits(size as nat, 6),
                size <= HEAP_SIZE,
                p <= 2 * HEAP_SIZE,
                k > 6 ==> pow2((k - 1) as nat) < size,
            decreases 2 * HEAP_SIZE - p,
        {
            proof {
                vstd::arithmetic::power2::lemma_pow2_unfold(k + 1);
                vstd::arithmetic::power2::lemma_pow2_pos(k);
            }
            p = p * 2;
            proof {
                k = k + 1;
            }
        }
        p
    }

    /// Allocates `size` bytes aligned to `align` (see `spec_alloc`); `None`
    /// when the heap cannot hold them.
    pub fn allocate(&mut self, size: usize, align: usize) -> (r: Option<usize>)
        requires
            old(self).wf(),
            0 < align <= usize::MAX / 2 + 1,
            old(self).stats.reused_total <= usize::MAX - HEAP_SIZE,
        ensures
            final(self).wf(),
            final(self).mem_error_notified == old(self).mem_error_notified,
            (final(self).used, final(self).released.view_lists(), final(self).stats, r)
                == spec_alloc(old(self).used, old(self).released.view_lists(), old(self).stats, size, align),
            old(self).balanced() ==> final(self).balanced(),
    {
        if size > HEAP_SIZE {
            return None;
        }
        let s = Self::block_size(size);
        let ghost lists = self.released.view_lists();
        proof {
            lemma_block_class(size as nat);
        }
        let got = self.released.get_mem(s);
        if let Some(mem) = got {
            let ghost i = (spec_trailing_zeros(s as nat) - MIN_BITS) as int;
            proof {
                ReleasedMem::lemma_insert_then_get(lists, 0, s);
                ReleasedMem::lemma_index_in_range(s);
                lemma_kept_update(lists, 11, i, lists[i].drop_last());
                lemma_mul_step(s as int, lists[i].len() - 1);
                vstd::arithmetic::power2::lemma_pow2_pos((i + MIN_BITS) as nat);
            }
            if mem % align == 0 {
                self.stats.notify_reused(s);
                return Some(mem);
            } else {
                let _ = self.released.insert_mem(mem, s);
            }
        }
        assert(self.released.view_lists() == lists);
        let align_m1 = align - 1;
        let x = self.used + align_m1;
        let q = x / align;
        proof {
            vstd::arithmetic::div_mod::lemma_fundamental_div_mod(x as int, align as int);
            assert(q * align == x - x % align) by (nonlinear_arith)
                requires x == align * (x / align) + x % align, q == x / align;
        }
        let start = q * align;
        let end = start + s;
        if end >= HEAP_SIZE {
            return None;
        }
        let padding = start - self.used;
        self.used = end;
        self.stats.notify_allocated(s, padding);
        Some(HEAP_START_ADDR + start)
    }

    /// Frees the block at `ptr` given for `size` bytes (see `spec_dealloc`).
    pub fn deallocate(&mut self, ptr: usize, size: usize)
        requires
            old(self).wf(),
            old(self).stats.in_use >= spec_block_size(size as nat),
        ensures
            final(self).wf(),
            final(self).used == old(self).used,
            final(self).mem_error_notified == old(self).mem_error_notified,
            (final(self).released.view_lists(), final(self).stats)
                == spec_dealloc(old(self).released.view_lists(), old(self).stats, ptr, size),
            old(self).balanced() ==> final(self).balanced(),
    {
        proof {
            lemma_block_class(size as nat);
        }
        let s = Self::block_size(size);
        let ghost lists = self.released.view_lists();
        match self.released.insert_mem(ptr, s) {
            Ok(()) => {
                proof {
                    let i = (spec_trailing_zeros(s as nat) - MIN_BITS) as int;
                    ReleasedMem::lemma_index_in_range(s);
                    lemma_kept_update(lists, 11, i, lists[i].push(ptr));
                    lemma_mul_step(s as int, lists[i].len() as int);
                }
                self.stats.notify_cached(s);
            },
            Err(()) => {
                self.stats.notify_dead(s);
            },
        }
    }

    /// Reports, once, that the heap has come within `HEAP_SAFE_MARGIN`
    /// bytes of its end.
    pub fn check_mem_error(&mut self) -> (r: bool)
        ensures
            r == (!old(self).mem_error_notified && old(self).used >= HEAP_SIZE - HEAP_SAFE_MARGIN),
            *final(self) == (MemoryAllocator { mem_error_notified: old(self).mem_error_notified || r, ..*old(self) }),
    {
        if !self.mem_error_notified && self.used >= HEAP_SIZE - HEAP_SAFE_MARGIN {
            self.mem_error_notified = true;
            true
        } else {
            false
        }
    }
}

proof fn lemma_kept_empty(lists: Seq<Seq<usize>>, n: nat)
    requires
        n <= lists.len(),
        forall|i: int| 0 <= i < lists.len() ==> (#[trigger] lists[i]).len() == 0,
    ensures
        spec_kept_bytes(lists, n) == 0,
    decreases n,
{
    if n > 0 {
        lemma_kept_empty(lists, (n - 1) as nat);
    }
}

/// A block freed and asked for again, for a size of the same class and an
/// alignment that its address meets, is handed back, with the lists and the
/// bytes in use and kept as they were before the free.
pub proof fn lemma_dealloc_then_alloc_reuses(used: usize, lists: Seq<Seq<usize>>, stats: MemStatistics, ptr: usize, size: usize,
    align: usize)
    requires
        lists.len() == ReleasedMem::NUM_CLASSES,
        0 < align,
        ptr % align == 0,
        size <= ReleasedMem::MAX_SIZE,
        stats.in_use >= spec_block_size(size as nat),
        stats.cached + spec_block_size(size as nat) <= usize::MAX,
    ensures
        ({
            let (l1, s1) = spec_dealloc(lists, stats, ptr, size);
            let (u2, l2, s2, r) = spec_alloc(used, l1, s1, size, align);
            &&& r == Some(ptr)
            &&& u2 == used
            &&& l2 == lists
            &&& s2.in_use == stats.in_use
            &&& s2.cached == stats.cached
            &&& s2.reused_total == (stats.reused_total + spec_block_size(size as nat)) as usize
        }),
{
    lemma_block_class(size as nat);
    let s = spec_block_size(size as nat);
    ReleasedMem::lemma_index_in_range(s as usize);
    ReleasedMem::lemma_insert_then_get(lists, ptr, s as usize);
}

} // verus!
