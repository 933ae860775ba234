//! The arithmetic of the device drivers: the disk's geometry and the
//! sectors a transfer touches, the file position, and the queue of sound
//! buffers handed to the sound device.

use vstd::prelude::*;

verus! {

/// What the block device reports of itself: its capacity in sectors and
/// its sector size (0 when it does not say).
pub struct BlockGeometry {
    pub capacity: u64,
    pub blk_size: u32,
}

impl BlockGeometry {
    pub const DEFAULT_SECTOR_SIZE: u32 = 512;

    pub open spec fn spec_sector_size(&self) -> u32 {
        if self.blk_size == 0 { Self::DEFAULT_SECTOR_SIZE } else { self.blk_size }
    }

    /// The sector size: the reported one, or 512 bytes when none is.
    pub fn sector_size(&self) -> (r: u32)
        ensures
            r == self.spec_sector_size(),
            r > 0,
    {
        if self.blk_size == 0 { Self::DEFAULT_SECTOR_SIZE } else { self.blk_size }
    }

    /// The capacity in bytes.
    pub fn capacity(&self) -> (r: u64)
        requires
            self.capacity * self.spec_sector_size() <= u64::MAX,
        ensures
            r == self.capacity * self.spec_sector_size(),
    {
        self.capacity * self.sector_size() as u64
    }
}

impl BlockGeometry {
    /// A request moves whole sectors: its length must be a multiple of the
    /// sector size.
    pub fn check_transfer_len(&self, len: u32) -> (r: Result<(), ()>)
        ensures
            r is Ok <==> len % self.spec_sector_size() == 0,
    {
        if len % self.sector_size() != 0 { Err(()) } else { Ok(()) }
    }
}

/// A finished block request succeeded when the device wrote status 0.
pub fn block_request_result(status: u8) -> (r: Result<(), ()>)
    ensures
        r is Ok <==> status == 0,
{
    if status != 0 { Err(()) } else { Ok(()) }
}

/// Offset of the status register in a PCI device's configuration space.
pub const PCI_STATUS_REG_OFFSET: u8 = 0x06;
/// Offset of the capabilities pointer in a PCI device's configuration space.
pub const PCI_CAP_PTR_REG_OFFSET: u8 = 0x34;

/// Where to read a PCI device's capabilities pointer, given its status
/// register: at offset 0x34 when bit 4 (capabilities list) is set; a
/// device without the bit has no capabilities list.
pub fn pci_capabilities_offset(status: u16) -> (r: Option<u8>)
    ensures
        r == (if (status / 16) % 2 == 1 { Some(PCI_CAP_PTR_REG_OFFSET) } else { None::<u8> }),
{
    if (status / 16) % 2 == 0 { None } else { Some(PCI_CAP_PTR_REG_OFFSET) }
}

/// The whole sectors a transfer covers: from `start_sector`, `buffer_size`
/// bytes, the transfer starting `start_pos` bytes into them.
#[derive(Clone, Copy, PartialEq, Eq, Structural, Debug)]
pub struct SectorSpan {
    pub start_sector: u64,
    pub buffer_size: u64,
    pub start_pos: u64,
}

/// The sectors that `len` bytes at byte `position` lie in.
pub open spec fn spec_sector_span(position: u64, len: u64, sector_size: u64) -> SectorSpan {
    let s = sector_size as int;
    let start_sector = position as int / s;
    let end_sector = (position + len + s - 1) / s;
    SectorSpan {
        start_sector: start_sector as u64,
        buffer_size: ((end_sector - start_sector) * sector_size) as u64,
        start_pos: (position % sector_size) as u64,
    }
}

/// The sectors a read or write of `len` bytes at `position` goes through
/// (see `spec_sector_span`).
pub fn sector_span(position: u64, len: u64, sector_size: u64) -> (r: SectorSpan)
    requires
        sector_size > 0,
        position + len + sector_size <= u64::MAX,
    ensures
        r == spec_sector_span(position, len, sector_size),
        r.start_pos + len <= r.buffer_size,
{
    let end = position + len;
    let start_sector = position / sector_size;
    let end_sector = (end + sector_size - 1) / sector_size;
    proof {
        let s = sector_size as int;
        let p = position as int;
        let e = end as int;
        vstd::arithmetic::div_mod::lemma_fundamental_div_mod(p, s);
        vstd::arithmetic::div_mod::lemma_fundamental_div_mod(e + s - 1, s);
        assert(start_sector * s + p % s == p) by (nonlinear_arith)
            requires p == s * (p / s) + p % s, start_sector == p / s;
        assert(end_sector * s >= e) by (nonlinear_arith)
            requires e + s - 1 == s * ((e + s - 1) / s) + (e + s - 1) % s, (e + s - 1) % s < s, end_sector == (e + s - 1) / s;
        assert(end_sector * s <= e + s - 1) by (nonlinear_arith)
            requires e + s - 1 == s * ((e + s - 1) / s) + (e + s - 1) % s, (e + s - 1) % s >= 0, end_sector == (e + s - 1) / s;
        assert(end_sector >= start_sector) by (nonlinear_arith)
            requires end_sector * s >= e, e >= p, start_sector * s <= p, s > 0;
        assert((end_sector - start_sector) * s == end_sector * s - start_sector * s) by (nonlinear_arith);
    }
    let buffer_size = (end_sector - start_sector) * sector_size;
    SectorSpan { start_sector, buffer_size, start_pos: position % sector_size }
}

/// Where a seek goes from.
#[derive(Clone, Copy, PartialEq, Eq, Structural, Debug)]
pub enum SeekFrom {
    Start(u64),
    End(i64),
    Current(i64),
}

/// The position after a seek from `position` on a disk of `capacity`
/// bytes; positions from the end or the current one are computed as signed
/// 64-bit numbers and taken back as unsigned.
pub open spec fn spec_seek(position: u64, pos: SeekFrom, capacity: u64) -> u64 {
    match pos {
        SeekFrom::Start(offset) => offset,
        SeekFrom::End(offset) => (capacity as i64 + offset) as u64,
        SeekFrom::Current(offset) => (position as i64 + offset) as u64,
    }
}

/// The sum of two signed numbers does not overflow.
pub open spec fn no_i64_overflow(a: i64, b: i64) -> bool {
    i64::MIN <= a + b <= i64::MAX
}

/// The disk as the file system reads and writes it: a byte position, and
/// a buffer of whole sectors that transfers go through (the device itself
/// is driven by the caller, which reads or writes `buffer_size` bytes of
/// this buffer at `start_sector`).
pub struct BlockDeviceDriver {
    pub position: u64,
    pub sector_buffer: Vec<u8>,
}

impl BlockDeviceDriver {
    /// At the start of the disk, with an empty buffer.
    pub fn new() -> (r: BlockDeviceDriver)
        ensures
            r.position == 0,
            r.sector_buffer@ == Seq::<u8>::empty(),
    {
        BlockDeviceDriver { position: 0, sector_buffer: Vec::new() }
    }

    /// Moves the position (see `spec_seek`) and gives the new one.
    pub fn seek(&mut self, pos: SeekFrom, capacity: u64) -> (r: u64)
        requires
            pos matches SeekFrom::End(o) ==> no_i64_overflow(capacity as i64, o),
            pos matches SeekFrom::Current(o) ==> no_i64_overflow(old(self).position as i64, o),
        ensures
            r == spec_seek(old(self).position, pos, capacity),
            *final(self) == (BlockDeviceDriver { position: r, ..*old(self) }),
    {
        let p = match pos {
            SeekFrom::Start(offset) => offset,
            SeekFrom::End(offset) => (capacity as i64 + offset) as u64,
            SeekFrom::Current(offset) => (self.position as i64 + offset) as u64,
        };
        self.position = p;
        p
    }

    fn grow(&mut self, n: u64)
        ensures
            final(self).position == old(self).position,
            final(self).sector_buffer@ == old(self).sector_buffer@ + Seq::new(n as nat, |i: int| 0u8),
    {
        let ghost start = self.sector_buffer@;
        let mut k: u64 = 0;
        while k < n
            invariant
                k <= n,
                self.position == old(self).position,
                self.sector_buffer@ == start + Seq::new(k as nat, |i: int| 0u8),
            decreases n - k,
        {
            self.sector_buffer.push(0);
            k = k + 1;
            assert(self.sector_buffer@ =~= start + Seq::new(k as nat, |i: int| 0u8));
        }
    }

    /// Before reading `len` bytes: the sectors to read (see
    /// `spec_sector_span`), the buffer grown with zeros to hold them.
    pub fn prepare_read(&mut self, len: u64, sector_size: u64) -> (span: SectorSpan)
        requires
            sector_size > 0,
            old(self).position + len + sector_size <= u64::MAX,
        ensures
            span == spec_sector_span(old(self).position, len, sector_size),
            final(self).position == old(self).position,
            final(self).sector_buffer@ == (if old(self).sector_buffer@.len() < span.buffer_size {
                old(self).sector_buffer@ + Seq::new((span.buffer_size - old(self).sector_buffer@.len()) as nat, |i: int| 0u8)
            } else {
                old(self).sector_buffer@
            }),
    {
        let span = sector_span(self.position, len, sector_size);
        let have = self.sector_buffer.len() as u64;
        if have < span.buffer_size {
            self.grow(span.buffer_size - have);
        }
        span
    }

    /// Before writing `len` bytes: the sectors to read, merge and write
    /// back (see `spec_sector_span`). A buffer longer than those sectors
    /// grows by the difference in zeros; a shorter one is left as it is,
    /// and `merge_write` then needs it long enough.
    pub fn prepare_write(&mut self, len: u64, sector_size: u64) -> (span: SectorSpan)
        requires
            sector_size > 0,
            old(self).position + len + sector_size <= u64::MAX,
        ensures
            span == spec_sector_span(old(self).position, len, sector_size),
            final(self).position == old(self).position,
            final(self).sector_buffer@ == (if old(self).sector_buffer@.len() > span.buffer_size {
                old(self).sector_buffer@ + Seq::new((old(self).sector_buffer@.len() - span.buffer_size) as nat, |i: int| 0u8)
            } else {
                old(self).sector_buffer@
            }),
    {
        let span = sector_span(self.position, len, sector_size);
        let have = self.sector_buffer.len() as u64;
        if have > span.buffer_size {
            self.grow(have - span.buffer_size);
        }
        span
    }

    /// After the device filled the buffer: the `len` bytes read, and the
    /// position moved past them.
    pub fn finish_read(&mut self, span: SectorSpan, len: u64) -> (r: Vec<u8>)
        requires
            span.start_pos + len <= old(self).sector_buffer@.len(),
            len <= i64::MAX,
            no_i64_overflow(old(self).position as i64, len as i64),
        ensures
            r@ == old(self).sector_buffer@.subrange(span.start_pos as int, span.start_pos + len),
            final(self).sector_buffer@ == old(self).sector_buffer@,
            final(self).position == spec_seek(old(self).position, SeekFrom::Current(len as i64), 0),
    {
        let n = self.sector_buffer.len();
        let from = span.start_pos as usize;
        let to = from + len as usize;
        let mut r: Vec<u8> = Vec::new();
        let mut i: usize = from;
        while i < to
            invariant
                from <= i <= to,
                to <= self.sector_buffer@.len(),
                self.sector_buffer@ == old(self).sector_buffer@,
                r@ == self.sector_buffer@.subrange(from as int, i as int),
            decreases to - i,
        {
            r.push(self.sector_buffer[i]);
            i = i + 1;
            assert(r@ =~= self.sector_buffer@.subrange(from as int, i as int));
        }
        self.seek(SeekFrom::Current(len as i64), 0);
        r
    }

    /// Merges the bytes to write into the buffer read from the device; the
    /// caller then writes the buffer back.
    pub fn merge_write(&mut self, span: SectorSpan, data: &[u8])
        requires
            span.start_pos + data@.len() <= old(self).sector_buffer@.len(),
        ensures
            final(self).position == old(self).position,
            final(self).sector_buffer@ == old(self).sector_buffer@.subrange(0, span.start_pos as int) + data@
                + old(self).sector_buffer@.subrange(span.start_pos + data@.len(), old(self).sector_buffer@.len() as int),
    {
        let n = self.sector_buffer.len();
        let from = span.start_pos as usize;
        let mut i: usize = 0;
        while i < data.len()
            invariant
                i <= data@.len(),
                from == span.start_pos,
                n == self.sector_buffer@.len(),
                from + data@.len() <= self.sector_buffer@.len(),
                self.sector_buffer@.len() == old(self).sector_buffer@.len(),
                self.position == old(self).position,
                forall|j: int| 0 <= j < self.sector_buffer@.len() ==> #[trigger] self.sector_buffer@[j] == (
                    if from <= j < from + i { data@[j - from] } else { old(self).sector_buffer@[j] }),
            decreases data@.len() - i,
        {
            self.sector_buffer.set(from + i, data[i]);
            i = i + 1;
        }
        assert(self.sector_buffer@ =~= old(self).sector_buffer@.subrange(0, span.start_pos as int) + data@
            + old(self).sector_buffer@.subrange(span.start_pos + data@.len(), old(self).sector_buffer@.len() as int));
    }
}

/// Samples (left and right in turn) in one buffer handed to the sound
/// device.
pub const SOUND_DATA_SIZE: usize = 0x20000;
/// Buffers in flight at most.
pub const MAX_REQ_SIZE: usize = 20;

/// What happened to a pair of samples.
#[derive(PartialEq, Eq, Debug)]
pub enum SoundAction {
    /// The device still holds all the buffers: the samples are lost.
    Dropped,
    /// The samples wait in the current buffer.
    Buffered,
    /// The current buffer is full: hand these samples to the device as
    /// buffer `index` (and start it playing).
    Send(u16, Vec<i16>),
}

/// `heapless::Vec`, a vector of fixed capacity `N` stored inline; a sample
/// buffer is one of these.
#[verifier::external_type_specification]
#[verifier::external_body]
#[verifier::reject_recursive_types(T)]
pub struct ExHeaplessVec<T, const N: usize>(heapless::Vec<T, N>);

/// The samples that a sample buffer holds, in order.
pub uninterp spec fn sample_buffer(v: heapless::Vec<i16, SOUND_DATA_SIZE>) -> Seq<i16>;

/// `heapless::Vec::new`: an empty buffer.
#[verifier::external_body]
fn buffer_new() -> (r: heapless::Vec<i16, SOUND_DATA_SIZE>)
    ensures
        sample_buffer(r) == Seq::<i16>::empty(),
{
    heapless::Vec::new()
}

/// `heapless::Vec::push`: appends the sample when the buffer holds fewer
/// than its capacity, and otherwise hands it back and leaves the buffer
/// unchanged.
#[verifier::external_body]
fn buffer_push(v: &mut heapless::Vec<i16, SOUND_DATA_SIZE>, item: i16) -> (r: Result<(), i16>)
    ensures
        r is Ok <==> sample_buffer(*old(v)).len() < SOUND_DATA_SIZE,
        r is Ok ==> sample_buffer(*final(v)) == sample_buffer(*old(v)).push(item),
        r is Err ==> r->Err_0 == item && sample_buffer(*final(v)) == sample_buffer(*old(v)),
{
    v.push(item)
}

/// The number of samples in the buffer (its length as a slice, through
/// `Deref`).
#[verifier::external_body]
fn buffer_len(v: &heapless::Vec<i16, SOUND_DATA_SIZE>) -> (r: usize)
    ensures
        r == sample_buffer(*v).len(),
{
    v.len()
}

/// `heapless::Vec::clear`: the buffer emptied.
#[verifier::external_body]
fn buffer_clear(v: &mut heapless::Vec<i16, SOUND_DATA_SIZE>)
    ensures
        sample_buffer(*final(v)) == Seq::<i16>::empty(),
{
    v.clear()
}

/// `heapless::Vec::as_slice`, copied out: the samples in order.
#[verifier::external_body]
fn buffer_samples(v: &heapless::Vec<i16, SOUND_DATA_SIZE>) -> (r: Vec<i16>)
    ensures
        r@ == sample_buffer(*v),
{
    v.as_slice().to_vec()
}

/// The buffers of samples waiting for the sound device.
pub struct SoundQueue {
    pub sound_data: Vec<heapless::Vec<i16, SOUND_DATA_SIZE>>,
    /// Buffers handed to the device so far (wrapping).
    pub last_used: u16,
    /// The buffer being filled.
    pub last_sound_data: usize,
}

/// The device holds all the buffers it can: `last_used` buffers were
/// handed to it and it has consumed `consumed` of them (both counts wrap).
pub open spec fn spec_queue_is_full(last_used: u16, consumed: u16) -> bool {
    vstd::wrapping::u16_specs::wrapping_sub(last_used, consumed) >= MAX_REQ_SIZE
}

pub fn queue_is_full(last_used: u16, consumed: u16) -> (r: bool)
    ensures
        r == spec_queue_is_full(last_used, consumed),
{
    last_used.wrapping_sub(consumed) as usize >= MAX_REQ_SIZE
}

impl SoundQueue {
    /// A buffer per request slot, the current one among them; each holds
    /// whole pairs of samples and has room for another pair.
    pub open spec fn wf(&self) -> bool {
        &&& self.sound_data@.len() == MAX_REQ_SIZE
        &&& self.last_sound_data < MAX_REQ_SIZE
        &&& forall|i: int| 0 <= i < MAX_REQ_SIZE ==> sample_buffer(#[trigger] self.sound_data@[i]).len() < SOUND_DATA_SIZE
        &&& forall|i: int| 0 <= i < MAX_REQ_SIZE ==> sample_buffer(#[trigger] self.sound_data@[i]).len() % 2 == 0
    }

    pub open spec fn view_buffers(&self) -> Seq<Seq<i16>> {
        Seq::new(self.sound_data@.len(), |i: int| sample_buffer(self.sound_data@[i]))
    }

    /// Empty buffers, filling the first.
    pub fn new() -> (r: SoundQueue)
        ensures
            r.wf(),
            r.view_buffers() == Seq::new(MAX_REQ_SIZE as nat, |i: int| Seq::<i16>::empty()),
            r.last_used == 0,
            r.last_sound_data == 0,
    {
        let mut sound_data: Vec<heapless::Vec<i16, SOUND_DATA_SIZE>> = Vec::new();
        let mut i: usize = 0;
        while i < MAX_REQ_SIZE
            invariant
                i <= MAX_REQ_SIZE,
                sound_data@.len() == i,
                forall|j: int| 0 <= j < i ==> sample_buffer(#[trigger] sound_data@[j]) == Seq::<i16>::empty(),
            decreases MAX_REQ_SIZE - i,
        {
            sound_data.push(buffer_new());
            i = i + 1;
        }
        let r = SoundQueue { sound_data, last_used: 0, last_sound_data: 0 };
        assert(r.view_buffers() =~= Seq::new(MAX_REQ_SIZE as nat, |i: int| Seq::<i16>::empty()));
        r
    }

    /// A pair of samples, with the device having consumed `consumed`
    /// buffers: dropped while the device holds all the buffers; otherwise
    /// appended to the current buffer, which, once it holds
    /// `SOUND_DATA_SIZE` samples, is sent, emptied, and the next buffer
    /// (after the last comes the first) becomes current.
    pub fn add_data(&mut self, left_data: i16, right_data: i16, consumed: u16) -> (r: SoundAction)
        requires
            old(self).wf(),
        ensures
            final(self).wf(),
            ({
                let i = old(self).last_sound_data as int;
                let b = old(self).view_buffers()[i].push(left_data).push(right_data);
                if spec_queue_is_full(old(self).last_used, consumed) {
                    r == SoundAction::Dropped && final(self).view_buffers() == old(self).view_buffers()
                        && final(self).last_used == old(self).last_used && final(self).last_sound_data == old(self).last_sound_data
                } else if b.len() >= SOUND_DATA_SIZE {
                    &&& r matches SoundAction::Send(index, samples) && index == i && samples@ == b
                    &&& final(self).view_buffers() == old(self).view_buffers().update(i, Seq::empty())
                    &&& final(self).last_sound_data == (if i + 1 >= MAX_REQ_SIZE { 0 } else { i + 1 })
                    &&& final(self).last_used == vstd::wrapping::u16_specs::wrapping_add(old(self).last_used, 1)
                } else {
                    r == SoundAction::Buffered && final(self).view_buffers() == old(self).view_buffers().update(i, b)
                        && final(self).last_used == old(self).last_used && final(self).last_sound_data == old(self).last_sound_data
                }
            }),
    {
        if queue_is_full(self.last_used, consumed) {
            return SoundAction::Dropped;
        }
        let i = self.last_sound_data;
        let ghost old_buf = sample_buffer(self.sound_data@[i as int]);
        assert(old_buf.len() < SOUND_DATA_SIZE && old_buf.len() % 2 == 0);
        let mut buf = buffer_new();
        std::mem::swap(&mut buf, &mut self.sound_data[i]);
        let _ = buffer_push(&mut buf, left_data);
        let _ = buffer_push(&mut buf, right_data);
        assert(sample_buffer(buf) == old_buf.push(left_data).push(right_data));
        if buffer_len(&buf) >= SOUND_DATA_SIZE {
            let samples = buffer_samples(&buf);
            buffer_clear(&mut buf);
            std::mem::swap(&mut buf, &mut self.sound_data[i]);
            let index = i as u16;
            self.last_sound_data = if i + 1 >= MAX_REQ_SIZE { 0 } else { i + 1 };
            self.last_used = self.last_used.wrapping_add(1);
            assert(self.view_buffers() =~= old(self).view_buffers().update(i as int, Seq::empty()));
            SoundAction::Send(index, samples)
        } else {
            std::mem::swap(&mut buf, &mut self.sound_data[i]);
            assert(self.view_buffers() =~= old(self).view_buffers().update(i as int, old(self).view_buffers()[i as int].push(left_data).push(right_data)));
            SoundAction::Buffered
        }
    }
}

} // verus!
