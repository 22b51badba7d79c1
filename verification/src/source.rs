//! The audio source of one channel: the decoded payload, a read cursor, and
//! the receiving end of the synthesis job's result channel. Its read
//! primitive never blocks: while no result has arrived it hands back a full
//! buffer of silence so the real-time clock is still satisfied; once the
//! payload is in, it copies frame-sized slices and signals completion by the
//! first short read.

use vstd::math::min;
use vstd::pervasive::VecAdditionalExecFns;
use vstd::prelude::*;

use crate::delivery::{poll_delivery, result_channel, Delivery};

verus! {

/// Owns the audio payload of the current speak cycle and the receiving end of
/// the job's result channel.
pub struct Synthesizer {
    load_complete: bool,
    audio_buf: Vec<u8>,
    have_read: usize,
    result_rx: std::sync::mpsc::Receiver<Vec<u8>>,
}

impl Synthesizer {
    /// Whether a synthesis result (payload or failure) has arrived.
    pub closed spec fn ready(self) -> bool {
        self.load_complete
    }

    /// The decoded audio payload; empty until a result arrives.
    pub closed spec fn payload(self) -> Seq<u8> {
        self.audio_buf@
    }

    /// The read cursor: how many payload bytes have been handed out.
    pub closed spec fn cursor(self) -> int {
        self.have_read as int
    }

    /// Well-formedness: the cursor stays inside the payload, and before a
    /// result arrives there is no payload and nothing has been read.
    pub open spec fn wf(self) -> bool {
        &&& 0 <= self.cursor() <= self.payload().len()
        &&& !self.ready() ==> self.payload().len() == 0 && self.cursor() == 0
    }

    /// The state of a source between speak cycles: no result adopted, no
    /// payload, nothing read.
    pub open spec fn cleared(self) -> bool {
        &&& !self.ready()
        &&& self.payload().len() == 0
        &&& self.cursor() == 0
    }

    /// A fresh source: empty, not ready, nothing read. Its result channel has
    /// no producer until [`Synthesizer::prepare`] installs one.
    pub fn new() -> (s: Synthesizer)
        ensures
            s.wf(),
            !s.ready(),
            s.payload().len() == 0,
            s.cursor() == 0,
    {
        let (_tx, rx) = result_channel();
        Synthesizer { load_complete: false, audio_buf: Vec::new(), have_read: 0, result_rx: rx }
    }

    /// Clears the payload, the cursor and the ready flag. Does not cancel an
    /// in-flight job; a straggling late result is discarded because the
    /// receiving end is replaced by the next [`Synthesizer::prepare`].
    pub fn reset(&mut self)
        ensures
            final(self).wf(),
            !final(self).ready(),
            final(self).payload().len() == 0,
            final(self).cursor() == 0,
    {
        self.load_complete = false;
        self.audio_buf.clear();
        self.have_read = 0;
    }

    /// Starts a new speak cycle: resets the state to empty/not-ready and
    /// replaces the result channel, so that a late result from a prior job can
    /// never reach this source. The returned sending end is handed to the new
    /// synthesis job; once the job drops it without sending, reads observe the
    /// failure path.
    pub fn prepare(&mut self) -> (tx: std::sync::mpsc::Sender<Vec<u8>>)
        ensures
            final(self).wf(),
            !final(self).ready(),
            final(self).payload().len() == 0,
            final(self).cursor() == 0,
    {
        self.reset();
        let (tx, rx) = result_channel();
        self.result_rx = rx;
        tx
    }

    /// Applies the outcome of one poll of the result channel. This is the
    /// whole of the logic that depends on what a poll produced, verified for
    /// every possible [`Delivery`] value: a payload is adopted with the cursor
    /// rewound, a pending poll changes nothing, and a closed channel counts as
    /// an empty payload (completion with failure cause, surfaced as normal).
    pub fn apply_delivery(&mut self, d: Delivery)
        requires
            old(self).wf(),
            !old(self).ready(),
        ensures
            final(self).wf(),
            d matches Delivery::Payload(bytes) ==> {
                &&& final(self).ready()
                &&& final(self).payload() == bytes@
                &&& final(self).cursor() == 0
            },
            d is Pending ==> {
                &&& !final(self).ready()
                &&& final(self).payload() == old(self).payload()
                &&& final(self).cursor() == old(self).cursor()
            },
            d is Closed ==> {
                &&& final(self).ready()
                &&& final(self).payload().len() == 0
                &&& final(self).cursor() == 0
            },
    {
        match d {
            Delivery::Payload(bytes) => {
                self.have_read = 0;
                self.load_complete = true;
                self.audio_buf = bytes;
            }
            Delivery::Pending => {
                self.load_complete = false;
            }
            Delivery::Closed => {
                self.have_read = 0;
                self.load_complete = true;
                self.audio_buf = Vec::new();
            }
        }
    }

    /// Polls the result channel once if no result has arrived yet, and says
    /// whether the payload is now loaded. Within one speak cycle the ready
    /// flag is monotonic: once a result is in, later calls change nothing.
    pub fn load_audio(&mut self) -> (r: bool)
        requires
            old(self).wf(),
        ensures
            final(self).wf(),
            r == final(self).ready(),
            old(self).ready() ==> {
                &&& final(self).ready()
                &&& final(self).payload() == old(self).payload()
                &&& final(self).cursor() == old(self).cursor()
            },
            !old(self).ready() ==> {
                &&& final(self).cursor() == 0
                &&& !final(self).ready() ==> final(self).payload() == old(self).payload()
            },
    {
        if !self.load_complete {
            let d = poll_delivery(&self.result_rx);
            self.apply_delivery(d);
        }
        self.load_complete
    }

    /// Advances the cursor by one frame of at most `size` bytes and returns
    /// the byte range of the payload that the frame covers. The range is short
    /// exactly when the remaining payload is short.
    pub fn src_for_frame(&mut self, size: usize) -> (r: (usize, usize))
        requires
            old(self).wf(),
            old(self).ready(),
        ensures
            final(self).wf(),
            final(self).ready(),
            final(self).payload() == old(self).payload(),
            r.0 == old(self).cursor(),
            r.1 == min(old(self).cursor() + size, old(self).payload().len() as int),
            final(self).cursor() == r.1,
    {
        let old_have_read = self.have_read;
        let remaining = self.audio_buf.len() - old_have_read;
        let step = if size < remaining { size } else { remaining };
        let new_have_read = old_have_read + step;
        self.have_read = new_have_read;
        (old_have_read, new_have_read)
    }

    /// The non-blocking read primitive of the real-time pull path. Polls for a
    /// result at most once. While no result has arrived the whole buffer is
    /// filled with silence and its full length is returned; with a payload in,
    /// up to `buf.len()` bytes are copied from the cursor onward and the
    /// number copied is returned — a short count is the caller's completion
    /// signal.
    pub fn read(&mut self, buf: &mut Vec<u8>) -> (r: usize)
        requires
            old(self).wf(),
        ensures
            final(self).wf(),
            final(buf)@.len() == old(buf)@.len(),
            r <= final(buf)@.len(),
            // No result yet: a full frame of silence, nothing else moves.
            !final(self).ready() ==> {
                &&& !old(self).ready()
                &&& r == final(buf)@.len()
                &&& forall|i: int| 0 <= i < final(buf)@.len() ==> final(buf)@[i] == 0
                &&& final(self).payload() == old(self).payload()
                &&& final(self).cursor() == old(self).cursor()
            },
            // The payload was already in: copy from the cursor onward.
            old(self).ready() ==> {
                &&& final(self).ready()
                &&& final(self).payload() == old(self).payload()
                &&& r == read_amount(old(self).payload().len() as int, old(self).cursor(), old(buf)@.len() as int)
                &&& final(self).cursor() == old(self).cursor() + r
                &&& forall|i: int| 0 <= i < r ==> final(buf)@[i] == old(self).payload()[old(self).cursor() + i]
                &&& forall|i: int| r <= i < final(buf)@.len() ==> final(buf)@[i] == old(buf)@[i]
            },
            // The payload arrived during this call: copy from its start.
            !old(self).ready() && final(self).ready() ==> {
                &&& r == read_amount(final(self).payload().len() as int, 0, old(buf)@.len() as int)
                &&& final(self).cursor() == r
                &&& forall|i: int| 0 <= i < r ==> final(buf)@[i] == final(self).payload()[i]
                &&& forall|i: int| r <= i < final(buf)@.len() ==> final(buf)@[i] == old(buf)@[i]
            },
    {
        if self.load_audio() {
            let (start, end) = self.src_for_frame(buf.len());
            let count = end - start;
            let mut i: usize = 0;
            while i < count
                invariant
                    0 <= i <= count,
                    count == end - start,
                    start + count <= self.audio_buf@.len(),
                    count <= buf@.len(),
                    buf@.len() == old(buf)@.len(),
                    forall|j: int| 0 <= j < i ==> buf@[j] == self.audio_buf@[start + j],
                    forall|j: int| i <= j < buf@.len() ==> buf@[j] == old(buf)@[j],
                decreases count - i,
            {
                buf.set(i, self.audio_buf[start + i]);
                i = i + 1;
            }
            count
        } else {
            let mut i: usize = 0;
            while i < buf.len()
                invariant
                    0 <= i <= buf@.len(),
                    buf@.len() == old(buf)@.len(),
                    forall|j: int| 0 <= j < i ==> buf@[j] == 0,
                decreases buf@.len() - i,
            {
                buf.set(i, 0);
                i = i + 1;
            }
            buf.len()
        }
    }

    /// Exec view of [`Synthesizer::ready`], for callers outside the proof.
    pub fn is_ready(&self) -> (r: bool)
        ensures
            r == self.ready(),
    {
        self.load_complete
    }

    /// Exec view of [`Synthesizer::cursor`], for callers outside the proof.
    pub fn position(&self) -> (r: usize)
        ensures
            r == self.cursor(),
    {
        self.have_read
    }
}

/// How many bytes one read of a ready source returns when `len` payload bytes
/// are loaded, the cursor stands at `cur`, and `n` bytes are asked for; this
/// is the count that the `old(self).ready()` case of [`Synthesizer::read`]
/// ensures.
pub open spec fn read_amount(len: int, cur: int, n: int) -> int {
    min(n, len - cur)
}

/// The cursor after successive reads of sizes `chunks`, oldest first.
pub open spec fn cursor_after(len: int, cur: int, chunks: Seq<int>) -> int
    decreases chunks.len(),
{
    if chunks.len() == 0 {
        cur
    } else {
        cursor_after(len, cur + read_amount(len, cur, chunks[0]), chunks.drop_first())
    }
}

/// The cumulative byte count returned across successive reads of sizes
/// `chunks`, oldest first.
pub open spec fn total_returned(len: int, cur: int, chunks: Seq<int>) -> int
    decreases chunks.len(),
{
    if chunks.len() == 0 {
        0
    } else {
        read_amount(len, cur, chunks[0])
            + total_returned(len, cur + read_amount(len, cur, chunks[0]), chunks.drop_first())
    }
}

/// The sum of a sequence of requested read sizes.
pub open spec fn sum(chunks: Seq<int>) -> int
    decreases chunks.len(),
{
    if chunks.len() == 0 {
        0
    } else {
        chunks[0] + sum(chunks.drop_first())
    }
}

proof fn lemma_sum_nonneg(chunks: Seq<int>)
    requires
        forall|i: int| 0 <= i < chunks.len() ==> chunks[i] >= 0,
    ensures
        sum(chunks) >= 0,
    decreases chunks.len(),
{
    if chunks.len() > 0 {
        assert(forall|i: int| 0 <= i < chunks.drop_first().len() ==> chunks.drop_first()[i] >= 0);
        lemma_sum_nonneg(chunks.drop_first());
    }
}

/// Cumulative-read law: across any succession of reads, the cursor advances
/// to `min(cur + sum(chunks), len)` — it never passes the payload — and the
/// cumulative byte count returned equals exactly the distance the cursor
/// travelled.
pub proof fn lemma_cumulative_reads(len: int, cur: int, chunks: Seq<int>)
    requires
        0 <= cur <= len,
        forall|i: int| 0 <= i < chunks.len() ==> chunks[i] >= 0,
    ensures
        cursor_after(len, cur, chunks) == min(cur + sum(chunks), len),
        total_returned(len, cur, chunks) == cursor_after(len, cur, chunks) - cur,
    decreases chunks.len(),
{
    if chunks.len() == 0 {
    } else {
        let step = read_amount(len, cur, chunks[0]);
        let rest = chunks.drop_first();
        assert(forall|i: int| 0 <= i < rest.len() ==> rest[i] >= 0);
        lemma_sum_nonneg(rest);
        lemma_cumulative_reads(len, cur + step, rest);
    }
}

/// A payload of length `len` is returned in full: once the requested sizes
/// sum to at least `len`, the cumulative bytes returned across the reads of a
/// cycle that started at cursor zero add up to exactly `len`.
pub proof fn lemma_reads_sum_to_payload(len: int, chunks: Seq<int>)
    requires
        0 <= len,
        forall|i: int| 0 <= i < chunks.len() ==> chunks[i] >= 0,
        sum(chunks) >= len,
    ensures
        total_returned(len, 0, chunks) == len,
{
    lemma_cumulative_reads(len, 0, chunks);
}

/// Completion-signal law: a read that returns fewer bytes than were asked for
/// is exactly one at which the cumulative count has reached the payload
/// length — the short, non-audio read marks the end of the payload.
pub proof fn lemma_completion_read(len: int, cur: int, n: int)
    requires
        0 <= cur <= len,
        read_amount(len, cur, n) < n,
    ensures
        cur + read_amount(len, cur, n) == len,
{
}

} // verus!
