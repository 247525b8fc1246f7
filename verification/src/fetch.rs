//! Streaming fetcher: accumulates the chunks of a response body in arrival
//! order and says, after each, how many bytes have arrived so far.

use vstd::prelude::*;

verus! {

/// A download in progress: the bytes received so far, and the record of the
/// counts reported for them.
pub struct Download {
    buffer: Vec<u8>,
    reports: Ghost<Seq<u64>>,
}

impl View for Download {
    type V = Seq<u8>;

    /// The bytes received so far, in arrival order.
    closed spec fn view(&self) -> Seq<u8> {
        self.buffer@
    }
}

/// Whether `counts` never goes down.
pub open spec fn non_decreasing(counts: Seq<u64>) -> bool {
    forall|i: int, j: int| 0 <= i <= j < counts.len() ==> counts[i] <= counts[j]
}

impl Download {
    /// The counts reported so far, one per accepted chunk, oldest first.
    pub closed spec fn reports(&self) -> Seq<u64> {
        self.reports@
    }

    /// The progress record is sound: the counts never go down, and the
    /// latest one is the number of bytes held.
    pub open spec fn wf(&self) -> bool {
        &&& non_decreasing(self.reports())
        &&& self.reports().len() > 0 ==> self.reports().last() == self@.len()
    }

    /// Starts a download whose body is expected to have `expected_length`
    /// bytes. The buffer is sized for them ahead of time where the machine
    /// can grant that; the length is not held against what arrives.
    pub fn new(expected_length: u64) -> (d: Download)
        ensures
            d.wf(),
            d@ == Seq::<u8>::empty(),
            d.reports() == Seq::<u64>::empty(),
    {
        let mut buffer: Vec<u8> = Vec::new();
        if expected_length <= usize::MAX as u64 {
            let _ = buffer.try_reserve(expected_length as usize);
        }
        Download { buffer, reports: Ghost(Seq::empty()) }
    }

    /// Number of bytes received so far.
    pub fn received(&self) -> (count: u64)
        ensures
            count == self@.len(),
    {
        self.buffer.len() as u64
    }

    /// Appends `chunk` and returns the cumulative byte count to report.
    pub fn accept(&mut self, chunk: &[u8]) -> (count: u64)
        requires
            old(self).wf(),
        ensures
            final(self).wf(),
            final(self)@ == old(self)@ + chunk@,
            final(self).reports() == old(self).reports().push(count),
            count == final(self)@.len(),
    {
        self.buffer.extend_from_slice(chunk);
        let count: u64 = self.buffer.len() as u64;
        proof {
            assert(self.buffer@ =~= old(self).buffer@ + chunk@);
            self.reports@ = self.reports@.push(count);
        }
        count
    }

    /// Ends the download normally and hands over everything received.
    pub fn finish(self) -> (bytes: Vec<u8>)
        requires
            self.wf(),
        ensures
            bytes@ == self@,
            self.reports().len() > 0 ==> self.reports().last() == bytes@.len(),
    {
        self.buffer
    }
}

} // verus!
