//! Progress notifications and the sinks that receive them.

use vstd::prelude::*;

verus! {

/// The text `bytesize` writes for a number of bytes in decimal units, such as
/// `512 B` or `1.5 MB`.
pub uninterp spec fn human_size(bytes: u64) -> Seq<char>;

/// `ByteSize::to_string_as` with decimal units: a size as a number with at most
/// one decimal and a unit. The contract only names the result.
#[verifier::external_body]
fn format_size(bytes: u64) -> (text: String)
    ensures
        text@ == human_size(bytes),
{
    bytesize::ByteSize::b(bytes).to_string_as(false)
}

/// One progress notification: how much of a transfer is done.
#[derive(Debug, Clone)]
pub struct ProgressEvent {
    pub total_size: usize,
    pub total_size_format: String,
    pub processed_size: usize,
    pub processed_size_format: String,
}

/// The whole percents of `total` that `processed` amounts to, rounded down;
/// zero where `total` is zero.
pub open spec fn whole_percent(total: nat, processed: nat) -> nat {
    if total == 0 {
        0
    } else {
        100 * processed / total
    }
}

impl ProgressEvent {
    pub fn new(total_size: usize, processed_size: usize) -> (event: Self)
        ensures
            event.total_size == total_size,
            event.processed_size == processed_size,
            event.total_size_format@ == human_size(total_size as u64),
            event.processed_size_format@ == human_size(processed_size as u64),
    {
        ProgressEvent {
            total_size,
            total_size_format: format_size(total_size as u64),
            processed_size,
            processed_size_format: format_size(processed_size as u64),
        }
    }

    /// The share of the work that is done, in whole percents.
    pub fn progress_percent(&self) -> (percent: u128)
        ensures
            percent == whole_percent(self.total_size as nat, self.processed_size as nat),
    {
        if self.total_size == 0 {
            0
        } else {
            100 * (self.processed_size as u128) / (self.total_size as u128)
        }
    }
}

/// A report of nothing but part of the work is below 100 percent, and a report
/// of all of it is at exactly 100 percent.
pub proof fn whole_percent_is_100_iff_complete(total: nat, processed: nat)
    requires
        total > 0,
        processed <= total,
    ensures
        whole_percent(total, processed) == 100 <==> processed == total,
        whole_percent(total, processed) <= 100,
{
    assert(100 * total / total == 100) by (nonlinear_arith)
        requires
            total > 0,
    ;
    if processed < total {
        assert(100 * processed / total < 100) by (nonlinear_arith)
            requires
                total > 0,
                processed < total,
        ;
    }
}

/// Receives progress notifications.
pub trait ProgressReporter {
    fn report_progress(&self, progress: ProgressEvent);
}

/// A sink that drops every notification.
pub struct NoopProgressReporter;

impl ProgressReporter for NoopProgressReporter {
    fn report_progress(&self, _progress: ProgressEvent) {
    }
}

} // verus!
