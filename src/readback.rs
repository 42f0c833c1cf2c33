//! Reading debug buffers back on the host: the bytes of a mapped buffer as
//! records, and the pairing of two buffers read side by side.
use vstd::prelude::*;

use crate::codec::{bytes_to_words, decode_words};

verus! {

/// One debug record: four 32-bit floats, as bit patterns.
#[derive(Clone, Copy, Debug, PartialEq, Eq, Structural)]
pub struct DebugRecord {
    pub x: u32,
    pub y: u32,
    pub z: u32,
    pub w: u32,
}

/// The records held in the bytes `bs`, in index order; bytes after the last
/// whole record are not read.
pub open spec fn records_of(bs: Seq<u8>) -> Seq<DebugRecord> {
    let ws = bytes_to_words(bs);
    Seq::new(
        bs.len() / 16,
        |i: int| DebugRecord { x: ws[4 * i], y: ws[4 * i + 1], z: ws[4 * i + 2], w: ws[4 * i + 3] },
    )
}

/// The record whose four words are all zero.
pub open spec fn zero_record() -> DebugRecord {
    DebugRecord { x: 0, y: 0, z: 0, w: 0 }
}

/// Why a paired readback produced nothing: which of the two mappings failed
/// (at least one did).
#[derive(Clone, Copy, Debug, PartialEq, Eq, Structural)]
pub struct PairFailure {
    pub first_failed: bool,
    pub second_failed: bool,
}

/// The records of a mapped buffer's bytes, in index order.
pub fn decode_records(bs: &[u8]) -> (r: Vec<DebugRecord>)
    ensures
        r@ == records_of(bs@),
{
    let ws = decode_words(bs);
    let wlen = ws.len();
    let n = bs.len() / 16;
    let mut r: Vec<DebugRecord> = Vec::new();
    let mut i: usize = 0;
    while i < n
        invariant
            n == bs@.len() / 16,
            ws@ == bytes_to_words(bs@),
            wlen == ws@.len(),
            i <= n,
            r@ =~= records_of(bs@).subrange(0, i as int),
        decreases n - i,
    {
        assert(4 * i + 3 < ws@.len()) by (nonlinear_arith)
            requires
                i < n,
                n == bs@.len() / 16,
                ws@.len() == bs@.len() / 4,
        ;
        r.push(DebugRecord { x: ws[4 * i], y: ws[4 * i + 1], z: ws[4 * i + 2], w: ws[4 * i + 3] });
        i = i + 1;
        assert(r@ =~= records_of(bs@).subrange(0, i as int));
    }
    r
}

/// The records of two buffers side by side, index by index, as far as the
/// shorter one goes.
pub fn interleave(a: &Vec<DebugRecord>, b: &Vec<DebugRecord>) -> (r: Vec<(DebugRecord, DebugRecord)>)
    ensures
        r@.len() == if a@.len() <= b@.len() {
            a@.len()
        } else {
            b@.len()
        },
        forall|i: int| 0 <= i < r@.len() ==> #[trigger] r@[i] == (a@[i], b@[i]),
{
    let n = if a.len() <= b.len() {
        a.len()
    } else {
        b.len()
    };
    let mut r: Vec<(DebugRecord, DebugRecord)> = Vec::new();
    let mut i: usize = 0;
    while i < n
        invariant
            n <= a@.len(),
            n <= b@.len(),
            n == a@.len() || n == b@.len(),
            i <= n,
            r@.len() == i,
            forall|j: int| 0 <= j < i ==> #[trigger] r@[j] == (a@[j], b@[j]),
        decreases n - i,
    {
        r.push((a[i], b[i]));
        i = i + 1;
    }
    r
}

/// Pairs the records of two buffers whose mappings were attempted one after
/// the other (`None` where a mapping failed). Each failure is reported on its
/// own; nothing is read unless both mappings succeeded.
pub fn read_pair(first: Option<Vec<u8>>, second: Option<Vec<u8>>) -> (r: Result<
    Vec<(DebugRecord, DebugRecord)>,
    PairFailure,
>)
    ensures
        r is Err <==> (first is None || second is None),
        r matches Err(f) ==> f.first_failed == first is None && f.second_failed == second is None,
        r matches Ok(v) ==> {
            let ra = records_of(first->0@);
            let rb = records_of(second->0@);
            &&& v@.len() == if ra.len() <= rb.len() {
                ra.len()
            } else {
                rb.len()
            }
            &&& forall|i: int| 0 <= i < v@.len() ==> #[trigger] v@[i] == (ra[i], rb[i])
        },
{
    match (first, second) {
        (Some(a), Some(b)) => {
            let ra = decode_records(a.as_slice());
            let rb = decode_records(b.as_slice());
            Ok(interleave(&ra, &rb))
        },
        (a, b) => Err(PairFailure { first_failed: a.is_none(), second_failed: b.is_none() }),
    }
}

/// Where a host-readable buffer stands in its mapping cycle.
#[derive(Clone, Copy, Debug, PartialEq, Eq, Structural)]
pub enum MapPhase {
    /// Not mapped: it may receive the next frame's copy.
    Idle,
    /// A mapping was requested; the device has not confirmed it yet.
    Pending,
    /// Mapped and confirmed: its bytes may be read.
    Mapped,
}

/// The phase after a mapping request.
pub open spec fn phase_after_request(p: MapPhase) -> MapPhase {
    if p == MapPhase::Idle {
        MapPhase::Pending
    } else {
        p
    }
}

/// The phase after the device answered a pending request (`mapped`: it
/// confirmed the mapping). A refused mapping leaves nothing mapped.
pub open spec fn phase_after_completion(p: MapPhase, mapped: bool) -> MapPhase {
    if p == MapPhase::Pending {
        if mapped {
            MapPhase::Mapped
        } else {
            MapPhase::Idle
        }
    } else {
        p
    }
}

/// The phase after the mapped view is released and the buffer unmapped.
pub open spec fn phase_after_release(p: MapPhase) -> MapPhase {
    if p == MapPhase::Mapped {
        MapPhase::Idle
    } else {
        p
    }
}

/// The mapping cycle of one host-readable buffer: request, device
/// confirmation, read, release. Bytes are read only once the device has
/// confirmed the mapping, and the buffer is unmapped before it is reused.
#[derive(Debug)]
pub struct BufferMapping {
    phase: MapPhase,
}

impl BufferMapping {
    /// The current phase.
    pub closed spec fn phase(&self) -> MapPhase {
        self.phase
    }

    /// A buffer that is not mapped.
    pub fn new() -> (r: BufferMapping)
        ensures
            r.phase() == MapPhase::Idle,
    {
        BufferMapping { phase: MapPhase::Idle }
    }

    /// Records a mapping request; refused (returns false) unless the buffer
    /// is idle.
    pub fn request(&mut self) -> (r: bool)
        ensures
            r == (old(self).phase() == MapPhase::Idle),
            final(self).phase() == phase_after_request(old(self).phase()),
    {
        if self.phase == MapPhase::Idle {
            self.phase = MapPhase::Pending;
            true
        } else {
            false
        }
    }

    /// Records the device's answer to the pending request, after the device
    /// was waited on; returns whether the bytes may now be read.
    pub fn complete(&mut self, mapped: bool) -> (r: bool)
        ensures
            final(self).phase() == phase_after_completion(old(self).phase(), mapped),
            r == (final(self).phase() == MapPhase::Mapped),
    {
        if self.phase == MapPhase::Pending {
            self.phase = if mapped {
                MapPhase::Mapped
            } else {
                MapPhase::Idle
            };
        }
        self.phase == MapPhase::Mapped
    }

    /// Whether the mapped bytes may be read.
    pub fn can_read(&self) -> (r: bool)
        ensures
            r == (self.phase() == MapPhase::Mapped),
    {
        self.phase == MapPhase::Mapped
    }

    /// Records that the mapped view was dropped; returns whether the buffer
    /// must be unmapped now (it was mapped).
    pub fn release(&mut self) -> (r: bool)
        ensures
            r == (old(self).phase() == MapPhase::Mapped),
            final(self).phase() == phase_after_release(old(self).phase()),
    {
        if self.phase == MapPhase::Mapped {
            self.phase = MapPhase::Idle;
            true
        } else {
            false
        }
    }

    /// Whether the buffer may receive a copy: it is not mapped or pending.
    pub fn can_copy_into(&self) -> (r: bool)
        ensures
            r == (self.phase() == MapPhase::Idle),
    {
        self.phase == MapPhase::Idle
    }
}

/// Whether the device confirms the mapping or refuses it, a full cycle from an
/// idle buffer (request, answer, release) leaves it idle, ready for the next
/// frame's copy; its bytes were readable exactly when the mapping was
/// confirmed.
pub proof fn lemma_mapping_cycle_ends_idle(mapped: bool)
    ensures
        phase_after_release(
            phase_after_completion(phase_after_request(MapPhase::Idle), mapped),
        ) == MapPhase::Idle,
        (phase_after_completion(phase_after_request(MapPhase::Idle), mapped) == MapPhase::Mapped)
            == mapped,
{
}

/// `len` zero bytes: the contents of a freshly created buffer.
pub open spec fn zero_bytes(len: nat) -> Seq<u8> {
    Seq::new(len, |i: int| 0u8)
}

/// A freshly initialised, all-zero buffer of `n` records reads back as `n`
/// zero records, in index order.
pub proof fn lemma_zero_buffer_reads_zero(n: nat)
    ensures
        records_of(zero_bytes(16 * n)).len() == n,
        forall|i: int| 0 <= i < n ==> #[trigger] records_of(zero_bytes(16 * n))[i] == zero_record(),
{
    let bs = zero_bytes(16 * n);
    let ws = bytes_to_words(bs);
    assert(bs.len() / 16 == n);
    assert(bs.len() / 4 == 4 * n);
    assert forall|j: int| 0 <= j < ws.len() implies ws[j] == 0 by {
        assert(bs[4 * j] == 0 && bs[4 * j + 1] == 0 && bs[4 * j + 2] == 0 && bs[4 * j + 3] == 0);
    }
    assert forall|i: int| 0 <= i < n implies #[trigger] records_of(bs)[i] == zero_record() by {
        assert(ws[4 * i] == 0 && ws[4 * i + 1] == 0 && ws[4 * i + 2] == 0 && ws[4 * i + 3] == 0);
    }
}

} // verus!
