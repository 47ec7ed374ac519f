//! Byte counting during a download.
use vstd::prelude::*;

verus! {

/// Progress of one download: the declared length (0 when unknown), the bytes
/// received so far, and whether the progress bar is drawn.
pub struct Progress {
    pub total: u64,
    pub downloaded: u64,
    pub visible: bool,
}

impl Progress {
    /// Starts counting for a response that declared `content_length` bytes.
    /// The bar is drawn only outside quiet mode and when the length is known.
    pub fn new(content_length: Option<u64>, quiet: bool) -> (r: Progress)
        ensures
            r.total == (match content_length {
                Some(n) => n,
                None => 0u64,
            }),
            r.downloaded == 0,
            r.visible == (!quiet && r.total > 0),
    {
        let total = match content_length {
            Some(n) => n,
            None => 0,
        };
        Progress { total, downloaded: 0, visible: !quiet && total > 0 }
    }

    /// Whether a chunk of `len` bytes can still be counted without overflow.
    pub fn can_record(&self, len: u64) -> (r: bool)
        ensures
            r == (self.downloaded + len <= u64::MAX),
    {
        len <= u64::MAX - self.downloaded
    }

    /// Counts a received chunk of `len` bytes.
    pub fn record_chunk(&mut self, len: u64)
        requires
            old(self).downloaded + len <= u64::MAX,
        ensures
            final(self).downloaded == old(self).downloaded + len,
            final(self).total == old(self).total,
            final(self).visible == old(self).visible,
    {
        self.downloaded = self.downloaded + len;
    }
}

} // verus!
