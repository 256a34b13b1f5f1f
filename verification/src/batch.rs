//! Batch bookkeeping: which directory entries are raster tiles, and the
//! per-batch tally of tiles processed and tiles skipped.
use vstd::prelude::*;
use vstd::string::StringExecFns;

verus! {

/// Whether a file extension names a raster tile the batch handles. The
/// comparison is case-sensitive; every other entry is ignored silently.
pub fn is_raster_extension(extension: &str) -> (r: bool)
    ensures
        r <==> (extension@ == "tif"@ || extension@ == "tiff"@),
{
    let ext = String::from_str(extension);
    let tif = String::from_str("tif");
    let tiff = String::from_str("tiff");
    ext == tif || ext == tiff
}

/// The outcome of one batch: how many tiles were processed and how many were
/// skipped after a per-tile failure. A batch that skipped tiles still
/// succeeds; only directory-level failures are fatal.
#[derive(Clone, Copy, PartialEq, Eq, Structural, Debug)]
pub struct BatchReport {
    pub processed: usize,
    pub skipped: usize,
}

impl BatchReport {
    pub fn new() -> (r: BatchReport)
        ensures
            r.processed == 0,
            r.skipped == 0,
    {
        BatchReport { processed: 0, skipped: 0 }
    }

    /// Counts one tile whose operation finished.
    pub fn record_success(&mut self)
        requires
            old(self).processed < usize::MAX,
        ensures
            final(self).processed == old(self).processed + 1,
            final(self).skipped == old(self).skipped,
    {
        self.processed = self.processed + 1;
    }

    /// Counts one tile that failed and was skipped.
    pub fn record_skip(&mut self)
        requires
            old(self).skipped < usize::MAX,
        ensures
            final(self).skipped == old(self).skipped + 1,
            final(self).processed == old(self).processed,
    {
        self.skipped = self.skipped + 1;
    }
}

} // verus!
