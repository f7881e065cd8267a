//! Progress of reading an archive while it is unpacked.

use vstd::prelude::*;
use crate::progress_reporter::ProgressEvent;

verus! {

/// How many bytes must be read since the last notification before the next.
pub const REPORT_INTERVAL: usize = 10485760;

/// Whether a read that brings the bytes read to `processed` is reported, when
/// the last report was at `last_reported`: the first read is, and then every
/// read that completes another interval.
pub open spec fn is_reported(processed: nat, last_reported: nat) -> bool {
    last_reported == 0 || processed - last_reported >= REPORT_INTERVAL
}

/// Counts the bytes read from an archive of `total_size` bytes and decides
/// which reads are worth a notification.
#[derive(Debug)]
pub struct ProgressReader {
    pub total_size: usize,
    pub processed_size: usize,
    pub last_reported_size: usize,
}

impl ProgressReader {
    pub fn new(total_size: usize) -> (reader: Self)
        ensures
            reader.total_size == total_size,
            reader.processed_size == 0,
            reader.last_reported_size == 0,
    {
        ProgressReader { total_size, processed_size: 0, last_reported_size: 0 }
    }

    /// Records a read of `bytes_read` bytes and gives the notification to
    /// report for it, if it is to be reported.
    pub fn read(&mut self, bytes_read: usize) -> (event: Option<ProgressEvent>)
        requires
            old(self).processed_size + bytes_read <= usize::MAX,
            old(self).last_reported_size <= old(self).processed_size,
        ensures
            final(self).total_size == old(self).total_size,
            final(self).processed_size == old(self).processed_size + bytes_read,
            final(self).last_reported_size <= final(self).processed_size,
            event is Some == is_reported(
                final(self).processed_size as nat,
                old(self).last_reported_size as nat,
            ),
            event matches Some(report) ==> {
                &&& report.total_size == old(self).total_size
                &&& report.processed_size == final(self).processed_size
                &&& final(self).last_reported_size == final(self).processed_size
            },
            event is None ==> final(self).last_reported_size == old(self).last_reported_size,
    {
        self.processed_size = self.processed_size + bytes_read;
        if self.last_reported_size == 0 || self.processed_size - self.last_reported_size
            >= REPORT_INTERVAL {
            self.last_reported_size = self.processed_size;
            Some(ProgressEvent::new(self.total_size, self.processed_size))
        } else {
            None
        }
    }
}

} // verus!
