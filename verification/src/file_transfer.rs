//! Writing a buffer to a remote file in chunks of a fixed size.

use vstd::prelude::*;
use crate::progress_reporter::ProgressEvent;

verus! {

/// The largest number of bytes written at once.
pub const CHUNK_SIZE: usize = 8092;

/// Where the chunk that starts at `written` ends in a buffer of `total` bytes.
pub open spec fn chunk_end(total: nat, written: nat) -> nat {
    if written + CHUNK_SIZE <= total {
        written + CHUNK_SIZE as nat
    } else {
        total
    }
}

/// How many bytes of a buffer of `total` bytes are written after `chunks` chunks.
pub open spec fn written_after(total: nat, chunks: nat) -> nat
    decreases chunks,
{
    if chunks == 0 {
        0
    } else {
        chunk_end(total, written_after(total, (chunks - 1) as nat))
    }
}

/// The number of chunks a buffer of `total` bytes is written in.
pub open spec fn chunk_count(total: nat) -> nat {
    (total + CHUNK_SIZE - 1) as nat / CHUNK_SIZE as nat
}

/// By how much chunk number `index` (from zero) advances the progress reported.
pub open spec fn chunk_delta(total: nat, index: nat) -> nat {
    (written_after(total, index + 1) - written_after(total, index)) as nat
}

/// The sum of the advances of the first `chunks` chunks.
pub open spec fn delta_sum(total: nat, chunks: nat) -> nat
    decreases chunks,
{
    if chunks == 0 {
        0
    } else {
        delta_sum(total, (chunks - 1) as nat) + chunk_delta(total, (chunks - 1) as nat)
    }
}

/// The progress of one transfer: a buffer of `total_size` bytes of which the
/// first `written` are on the remote side.
///
/// The caller writes the chunk that [`FileTransfer::next_chunk`] names, then
/// calls [`FileTransfer::chunk_written`] and reports the event it returns.
#[derive(Debug)]
pub struct FileTransfer {
    pub total_size: usize,
    pub written: usize,
}

impl FileTransfer {
    pub fn new(total_size: usize) -> (transfer: Self)
        ensures
            transfer.total_size == total_size,
            transfer.written == 0,
    {
        FileTransfer { total_size, written: 0 }
    }

    /// The bounds of the chunk to write next, as the index of its first byte
    /// and the index after its last, or `None` when every byte is written.
    pub fn next_chunk(&self) -> (chunk: Option<(usize, usize)>)
        ensures
            self.written < self.total_size ==> chunk == Some(
                (self.written, chunk_end(self.total_size as nat, self.written as nat) as usize),
            ),
            self.written >= self.total_size ==> chunk is None,
    {
        if self.written < self.total_size {
            let end: usize = if self.total_size - self.written <= CHUNK_SIZE {
                self.total_size
            } else {
                self.written + CHUNK_SIZE
            };
            Some((self.written, end))
        } else {
            None
        }
    }

    /// Records that the chunk named by [`FileTransfer::next_chunk`] is written
    /// and gives the notification to report for it.
    pub fn chunk_written(&mut self) -> (event: ProgressEvent)
        ensures
            final(self).total_size == old(self).total_size,
            old(self).written < old(self).total_size ==> final(self).written == chunk_end(
                old(self).total_size as nat,
                old(self).written as nat,
            ),
            old(self).written >= old(self).total_size ==> final(self).written == old(self).written,
            event.total_size == old(self).total_size,
            event.processed_size == final(self).written,
    {
        if let Some((_, end)) = self.next_chunk() {
            self.written = end;
        }
        ProgressEvent::new(self.total_size, self.written)
    }

    /// Whether every byte is written.
    pub fn is_complete(&self) -> (complete: bool)
        ensures
            complete == (self.written >= self.total_size),
    {
        self.written >= self.total_size
    }
}

/// After `chunks` chunks the progress stands at `chunks` full chunks, or at
/// the whole buffer if that is less.
pub proof fn written_after_is_capped_multiple(total: nat, chunks: nat)
    ensures
        written_after(total, chunks) == if chunks * CHUNK_SIZE <= total {
            chunks * CHUNK_SIZE as nat
        } else {
            total
        },
    decreases chunks,
{
    if chunks > 0 {
        written_after_is_capped_multiple(total, (chunks - 1) as nat);
        assert(chunks * CHUNK_SIZE == (chunks - 1) * CHUNK_SIZE + CHUNK_SIZE) by (nonlinear_arith);
    }
}

/// The advances reported for the chunks of a buffer add up to its size: after
/// the last of its chunks the progress equals the total, each chunk before
/// advances it by a full chunk, and none advances it by more.
pub proof fn chunk_deltas_sum_to_total(total: nat)
    ensures
        delta_sum(total, chunk_count(total)) == total,
        written_after(total, chunk_count(total)) == total,
        forall|index: nat| index < chunk_count(total) ==> 0 < #[trigger] chunk_delta(total, index) <= CHUNK_SIZE,
        forall|chunks: nat| chunks < chunk_count(total) ==> #[trigger] written_after(total, chunks) < total,
{
    let count = chunk_count(total);
    delta_sum_telescopes(total, count);
    written_after_is_capped_multiple(total, count);
    assert(count * CHUNK_SIZE >= total && (count == 0 || (count - 1) * CHUNK_SIZE < total)) by (nonlinear_arith)
        requires
            count == (total + 8092 - 1) as nat / 8092,
            CHUNK_SIZE == 8092,
    ;
    assert forall|index: nat| index < count implies 0 < #[trigger] chunk_delta(total, index) <= CHUNK_SIZE by {
        written_after_is_capped_multiple(total, index);
        written_after_is_capped_multiple(total, index + 1);
        assert(index * CHUNK_SIZE <= (count - 1) * CHUNK_SIZE) by (nonlinear_arith)
            requires
                index <= count - 1,
        ;
        assert((index + 1) * CHUNK_SIZE == index * CHUNK_SIZE + CHUNK_SIZE) by (nonlinear_arith);
    }
    assert forall|chunks: nat| chunks < count implies #[trigger] written_after(total, chunks) < total by {
        written_after_is_capped_multiple(total, chunks);
        assert(chunks * CHUNK_SIZE <= (count - 1) * CHUNK_SIZE) by (nonlinear_arith)
            requires
                chunks <= count - 1,
        ;
    }
}

/// The advances of the first `chunks` chunks add up to the progress after them.
pub proof fn delta_sum_telescopes(total: nat, chunks: nat)
    ensures
        delta_sum(total, chunks) == written_after(total, chunks),
    decreases chunks,
{
    if chunks > 0 {
        delta_sum_telescopes(total, (chunks - 1) as nat);
        written_after_is_capped_multiple(total, (chunks - 1) as nat);
        written_after_is_capped_multiple(total, chunks);
        assert(chunks * CHUNK_SIZE == (chunks - 1) * CHUNK_SIZE + CHUNK_SIZE) by (nonlinear_arith);
    }
}

} // verus!
