//! Copy progress: turning the copy engine's transfer events into a bounded,
//! never-decreasing percentage and a short label for the file in flight.

use vstd::prelude::*;
use vstd::string::*;

verus! {

/// The longest file label shown, in characters.
pub const LABEL_WIDTH: usize = 50;

/// One transfer event of a copy: bytes in all, bytes copied so far, and the
/// file being copied.
#[derive(Debug, Clone, PartialEq, Eq)]
pub struct CopyProgress {
    pub total_bytes: u64,
    pub copied_bytes: u64,
    pub current_file: String,
}

/// The percentage of `total` that `copied` is, rounded down and capped at
/// 100; zero when `total` is zero.
pub open spec fn percent_of(copied: int, total: int) -> int {
    if total == 0 {
        0
    } else if copied * 100 / total > 100 {
        100
    } else {
        copied * 100 / total
    }
}

/// A file name as displayed: unchanged up to the label width, otherwise
/// `"..."` followed by its last characters, so the label is exactly that wide.
pub open spec fn label_of(name: Seq<char>) -> Seq<char> {
    if name.len() > LABEL_WIDTH {
        "..."@ + name.subrange(name.len() - (LABEL_WIDTH - 3), name.len() as int)
    } else {
        name
    }
}

/// The whole percentage of an event's bytes copied: zero when there is
/// nothing to copy, and never above 100.
pub fn calculate_progress_percentage(progress: &CopyProgress) -> (r: u8)
    ensures
        r as int == percent_of(progress.copied_bytes as int, progress.total_bytes as int),
        r <= 100,
{
    if progress.total_bytes == 0 {
        return 0;
    }
    let scaled: u128 = progress.copied_bytes as u128 * 100;
    let p: u128 = scaled / (progress.total_bytes as u128);
    if p > 100 {
        100
    } else {
        p as u8
    }
}

/// The label under which a file is displayed while it is copied.
pub fn display_label(name: &str) -> (r: String)
    ensures
        r@ == label_of(name@),
{
    let n = name.unicode_len();
    if n > LABEL_WIDTH {
        let tail = name.substring_char(n - (LABEL_WIDTH - 3), n);
        String::from_str("...").concat(tail)
    } else {
        String::from_str(name)
    }
}

/// The state of one copy as progress events come in.
#[derive(Debug, Clone, PartialEq, Eq)]
pub struct ProgressTracker {
    pub total_bytes: u64,
    pub copied_bytes: u64,
    pub current_file: String,
    pub last_reported_percent: u8,
}

impl ProgressTracker {
    /// A tracker before any event: nothing copied, nothing reported.
    pub fn new() -> (r: ProgressTracker)
        ensures
            r.total_bytes == 0,
            r.copied_bytes == 0,
            r.current_file@ == Seq::<char>::empty(),
            r.last_reported_percent == 0,
    {
        ProgressTracker {
            total_bytes: 0,
            copied_bytes: 0,
            current_file: String::new(),
            last_reported_percent: 0,
        }
    }

    /// Takes in one transfer event and returns by how many points the
    /// display advances: the rise of the percentage over the last one
    /// reported, or zero if it did not rise. The reported percentage never
    /// falls, and the copy is never asked to stop.
    pub fn observe(&mut self, event: &CopyProgress) -> (increment: u8)
        ensures
            ({
                let p = percent_of(event.copied_bytes as int, event.total_bytes as int);
                let last = old(self).last_reported_percent as int;
                &&& p > last ==> increment as int == p - last
                &&& p > last ==> final(self).last_reported_percent as int == p
                &&& p <= last ==> increment == 0
                &&& p <= last ==> final(self).last_reported_percent == old(self).last_reported_percent
            }),
            final(self).last_reported_percent >= old(self).last_reported_percent,
            final(self).last_reported_percent as int == old(self).last_reported_percent as int
                + increment as int,
            final(self).total_bytes == event.total_bytes,
            final(self).copied_bytes == event.copied_bytes,
            final(self).current_file@ == label_of(event.current_file@),
    {
        let percent = calculate_progress_percentage(event);
        let mut increment: u8 = 0;
        if percent > self.last_reported_percent {
            increment = percent - self.last_reported_percent;
            self.last_reported_percent = percent;
        }
        self.total_bytes = event.total_bytes;
        self.copied_bytes = event.copied_bytes;
        self.current_file = display_label(event.current_file.as_str());
        increment
    }

    /// The bytes copied as of the last event: what a finished copy reports.
    pub fn bytes_copied(&self) -> (r: u64)
        ensures
            r == self.copied_bytes,
    {
        self.copied_bytes
    }
}

} // verus!
