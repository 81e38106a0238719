use std::sync::atomic::AtomicBool;
use std::sync::Arc;
use vstd::bytes::{spec_u32_from_le_bytes, spec_u64_from_le_bytes, u32_from_le_bytes, u64_from_le_bytes};
use vstd::prelude::*;
use vstd::slice::slice_subrange;

verus! {

/// Number of entries in the sensor's shared ring buffer.
pub const RING_CAP: usize = 8000;

/// Bytes per ring entry: three little-endian `i32` axes.
pub const RING_ENTRY: usize = 12;

/// Bytes before the first entry: the write index (`u32`) and the running
/// total of written samples (`u64`), both little-endian, then padding.
pub const RING_HEADER: usize = 16;

/// The entries to read: `count` entries starting at entry `start`, wrapping
/// around the end of the ring.
#[derive(Debug, Clone, Copy, PartialEq, Eq, Structural)]
pub struct ReadWindow {
    pub start: usize,
    pub count: usize,
}

/// Reader state for the accelerometer ring buffer that the sensor thread
/// fills: how many samples have been consumed, and whether the thread runs.
pub struct SensorRing {
    last_total: u64,
    running: Arc<AtomicBool>,
}

/// The samples written since `consumed`, at most a full ring.
pub open spec fn new_sample_count(total: u64, consumed: u64) -> nat {
    let n: nat = if total > consumed {
        (total - consumed) as nat
    } else {
        0
    };
    if n > RING_CAP {
        RING_CAP as nat
    } else {
        n
    }
}

/// The entry at which the newest `count` entries start, when the writer's
/// next position is `write_idx`.
pub open spec fn window_start(write_idx: u32, count: nat) -> nat {
    ((write_idx as int - count as int) % (RING_CAP as int)) as nat
}

impl SensorRing {
    #[verifier::type_invariant]
    spec fn counter_fits(&self) -> bool {
        self.last_total <= i64::MAX
    }

    /// Total number of samples consumed so far.
    pub closed spec fn consumed(&self) -> u64 {
        self.last_total
    }

    /// The flag that the sensor thread clears when it stops.
    pub closed spec fn running_flag(&self) -> Arc<AtomicBool> {
        self.running
    }

    pub fn new(running: Arc<AtomicBool>) -> (r: Self)
        ensures
            r.consumed() == 0,
            r.running_flag() == running,
    {
        SensorRing { last_total: 0, running }
    }

    /// Whether the sensor thread is still running; its state is read from
    /// the shared flag, which only that thread clears.
    pub fn is_running(&self) -> bool {
        self.running.load(std::sync::atomic::Ordering::Relaxed)
    }

    /// The entries to read when the ring header says `total` samples were
    /// written and the writer's next position is `write_idx`, or `None` when
    /// nothing new was written. The newest full ring is read when the reader
    /// fell further behind. Marks the window as consumed.
    pub fn take_window(&mut self, total: u64, write_idx: u32) -> (w: Option<ReadWindow>)
        requires
            total <= i64::MAX,
        ensures
            new_sample_count(total, old(self).consumed()) == 0 ==> w is None && final(self).consumed()
                == old(self).consumed(),
            new_sample_count(total, old(self).consumed()) > 0 ==> w == Some(
                ReadWindow {
                    start: window_start(
                        write_idx,
                        new_sample_count(total, old(self).consumed()),
                    ) as usize,
                    count: new_sample_count(total, old(self).consumed()) as usize,
                },
            ) && final(self).consumed() == total,
            final(self).running_flag() == old(self).running_flag(),
    {
        proof {
            use_type_invariant(&*self);
        }
        let n: u64 = if total > self.last_total {
            total - self.last_total
        } else {
            0
        };
        if n == 0 {
            return None;
        }
        let count: usize = if n > RING_CAP as u64 {
            RING_CAP
        } else {
            n as usize
        };
        let idx = (write_idx as usize) % RING_CAP;
        let start = (idx + RING_CAP - count) % RING_CAP;
        assert(start == window_start(write_idx, count as nat)) by {
            assert((write_idx as int - count as int) % 8000 == (idx as int + 8000 - count as int)
                % 8000) by (nonlinear_arith)
                requires
                    idx as int == write_idx as int % 8000,
                    0 <= count <= 8000,
            {
                vstd::arithmetic::div_mod::lemma_mod_add_multiples_vanish(
                    write_idx as int - count as int,
                    8000,
                );
            }
        }
        self.last_total = total;
        Some(ReadWindow { start, count })
    }
}

/// Byte offset of the `i`-th entry of a window that starts at entry `start`.
pub fn entry_offset(start: usize, i: usize) -> (off: usize)
    requires
        start < RING_CAP,
        i <= RING_CAP,
    ensures
        off == RING_HEADER + ((start + i) % (RING_CAP as int)) * RING_ENTRY,
        off + RING_ENTRY <= RING_HEADER + RING_CAP * RING_ENTRY,
{
    let pos = (start + i) % RING_CAP;
    RING_HEADER + pos * RING_ENTRY
}

/// The ring header: the writer's next position and the running total.
pub fn decode_header(header: &[u8]) -> (h: (u32, u64))
    requires
        header@.len() == 12,
    ensures
        h.0 == spec_u32_from_le_bytes(header@.subrange(0, 4)),
        h.1 == spec_u64_from_le_bytes(header@.subrange(4, 12)),
{
    let idx = u32_from_le_bytes(slice_subrange(header, 0, 4));
    let total = u64_from_le_bytes(slice_subrange(header, 4, 12));
    (idx, total)
}

/// A raw sample: the three axes, as signed Q16 fixed-point values.
pub fn decode_entry(entry: &[u8]) -> (xyz: (i32, i32, i32))
    requires
        entry@.len() == 12,
    ensures
        xyz.0 == spec_u32_from_le_bytes(entry@.subrange(0, 4)) as i32,
        xyz.1 == spec_u32_from_le_bytes(entry@.subrange(4, 8)) as i32,
        xyz.2 == spec_u32_from_le_bytes(entry@.subrange(8, 12)) as i32,
{
    let x = u32_from_le_bytes(slice_subrange(entry, 0, 4)) as i32;
    let y = u32_from_le_bytes(slice_subrange(entry, 4, 8)) as i32;
    let z = u32_from_le_bytes(slice_subrange(entry, 8, 12)) as i32;
    (x, y, z)
}

/// A window ends where the writer will write next: its entries are the
/// newest ones in the ring, in the order they were written.
pub proof fn window_ends_at_writer(write_idx: u32, count: nat)
    requires
        count <= RING_CAP,
    ensures
        window_start(write_idx, count) < RING_CAP,
        (window_start(write_idx, count) + count) as int % (RING_CAP as int) == write_idx as int % (
        RING_CAP as int),
{
    let s = (write_idx as int - count as int) % 8000;
    vstd::arithmetic::div_mod::lemma_fundamental_div_mod(write_idx as int - count as int, 8000);
    let q = (write_idx as int - count as int) / 8000;
    assert(s + count == write_idx as int - q * 8000);
    assert((write_idx as int + (-q) * 8000) % 8000 == write_idx as int % 8000) by {
        vstd::arithmetic::div_mod::lemma_mod_multiples_vanish(-q, write_idx as int, 8000);
    }
}

/// Reading a window consumes every sample written since the last read when
/// the reader kept up (at most a ring behind), and never more than a ring.
pub proof fn window_reads_new_samples(total: u64, consumed: u64)
    ensures
        new_sample_count(total, consumed) <= RING_CAP,
        total >= consumed && total - consumed <= RING_CAP ==> new_sample_count(total, consumed)
            == total - consumed,
{
}

} // verus!
