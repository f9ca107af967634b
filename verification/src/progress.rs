//! Progress accounting for the streaming decompressor.
//!
//! Every read of the compressed payload is reported to a `ProgressCounter`,
//! which accumulates the byte total and decides when a new
//! percentage-complete figure is due: whenever more than `print_interval`
//! bytes have accumulated since the last emission, or when the whole stream
//! has been read (so a final figure of exactly 100 is always emitted, even if
//! the last chunk is smaller than the interval).  No figure is ever emitted
//! twice for the same byte count.

use vstd::prelude::*;
use vstd::arithmetic::div_mod::lemma_div_is_ordered;

verus! {

/// Counts the bytes read so far out of a stream of known total length and
/// decides when a percentage-complete notification is due.
pub struct ProgressCounter {
    /// Bytes of the stream read so far.
    pub bytes_so_far: usize,
    /// The byte count at the time of the last emitted notification.
    pub last_printed: usize,
    /// Total length of the stream in bytes.
    pub data_length: usize,
    /// A new notification is due once more than this many bytes have
    /// accumulated since the last one.
    pub print_interval: usize,
}

impl ProgressCounter {
    /// Well-formedness: the stream is non-empty, small enough that the
    /// percentage arithmetic cannot overflow, and the counters never run
    /// ahead of the stream.
    pub open spec fn wf(self) -> bool {
        &&& 0 < self.data_length
        &&& self.data_length <= usize::MAX / 100
        &&& self.bytes_so_far <= self.data_length
        &&& self.last_printed <= self.bytes_so_far
    }

    /// The percentage figure reported for a given byte count.
    pub open spec fn percent_of(self, bytes: int) -> int {
        bytes * 100 / self.data_length as int
    }

    /// A notification is due at the new byte count when more than
    /// `print_interval` bytes accumulated since the last one, or when the
    /// stream is complete and completion has not been reported yet.
    pub open spec fn emission_due(self, new_total: int) -> bool {
        ||| new_total - self.last_printed > self.print_interval
        ||| new_total == self.data_length && self.last_printed != self.data_length
    }

    pub fn new(data_length: usize, print_interval: usize) -> (counter: ProgressCounter)
        requires
            0 < data_length,
            data_length <= usize::MAX / 100,
        ensures
            counter.wf(),
            counter.bytes_so_far == 0,
            counter.last_printed == 0,
            counter.data_length == data_length,
            counter.print_interval == print_interval,
    {
        ProgressCounter {
            bytes_so_far: 0,
            last_printed: 0,
            data_length,
            print_interval,
        }
    }

    /// Runtime test of `wf`, for callers that receive a counter from
    /// outside any contract.
    pub fn is_wf(&self) -> (well_formed: bool)
        ensures
            well_formed == self.wf(),
    {
        0 < self.data_length && self.data_length <= usize::MAX / 100
            && self.bytes_so_far <= self.data_length && self.last_printed <= self.bytes_so_far
    }

    /// Accumulate `read` further bytes and return the new percentage figure
    /// if one is due, or nothing otherwise.
    pub fn update(&mut self, read: usize) -> (emitted: Option<usize>)
        requires
            old(self).wf(),
            old(self).bytes_so_far + read <= old(self).data_length,
        ensures
            final(self).wf(),
            final(self).bytes_so_far == old(self).bytes_so_far + read,
            final(self).data_length == old(self).data_length,
            final(self).print_interval == old(self).print_interval,
            (emitted is Some) == old(self).emission_due(old(self).bytes_so_far + read),
            emitted matches Some(p) ==> p == old(self).percent_of(old(self).bytes_so_far + read),
            emitted matches Some(p) ==> p <= 100,
            old(self).bytes_so_far + read == old(self).data_length ==> (emitted matches Some(p)
                ==> p == 100),
            emitted is Some ==> final(self).last_printed == old(self).bytes_so_far + read,
            emitted is Some ==> final(self).last_printed > old(self).last_printed,
            emitted is None ==> final(self).last_printed == old(self).last_printed,
    {
        let new_total = self.bytes_so_far + read;
        self.bytes_so_far = new_total;

        let due = (new_total - self.last_printed > self.print_interval)
            || (new_total == self.data_length && self.last_printed != self.data_length);
        if due {
            self.last_printed = new_total;
            proof {
                lemma_percent_bounds(self.data_length as int, new_total as int);
            }
            Some(new_total * 100 / self.data_length)
        } else {
            None
        }
    }
}

/// For a byte count within the stream, the percentage arithmetic stays within
/// machine bounds and the figure itself is at most 100.
proof fn lemma_percent_bounds(data_length: int, bytes: int)
    requires
        0 < data_length,
        data_length <= usize::MAX / 100,
        0 <= bytes <= data_length,
    ensures
        bytes * 100 <= usize::MAX,
        bytes * 100 / data_length <= 100,
        bytes == data_length ==> bytes * 100 / data_length == 100,
{
    assert(bytes * 100 <= data_length * 100) by (nonlinear_arith)
        requires 0 <= bytes <= data_length;
    assert((usize::MAX / 100) * 100 <= usize::MAX) by (nonlinear_arith);
    assert(data_length * 100 <= (usize::MAX / 100) * 100) by (nonlinear_arith)
        requires data_length <= usize::MAX / 100;
    lemma_div_is_ordered(bytes * 100, data_length * 100, data_length);
    assert(data_length * 100 / data_length == 100) by (nonlinear_arith)
        requires 0 < data_length;
}

/// Percentage figures computed for non-decreasing byte counts are
/// non-decreasing: within one extraction attempt the reported progress never
/// goes backwards.
pub proof fn lemma_progress_monotonic(data_length: int, bytes_before: int, bytes_after: int)
    requires
        0 < data_length,
        0 <= bytes_before <= bytes_after,
    ensures
        bytes_before * 100 / data_length <= bytes_after * 100 / data_length,
{
    assert(bytes_before * 100 <= bytes_after * 100) by (nonlinear_arith)
        requires 0 <= bytes_before <= bytes_after;
    lemma_div_is_ordered(bytes_before * 100, bytes_after * 100, data_length);
}

/// The figure emitted once the whole stream has been read is exactly 100.
pub proof fn lemma_final_percent_is_100(data_length: int)
    requires
        0 < data_length,
    ensures
        data_length * 100 / data_length == 100,
{
    assert(data_length * 100 / data_length == 100) by (nonlinear_arith)
        requires 0 < data_length;
}

} // verus!
