//! Accounting of one streamed transfer: the transient state of a single
//! file download and its progress observations.

use vstd::prelude::*;

verus! {

/// The transient state of one in-progress transfer. The transferred count
/// never decreases and equals the declared total exactly when the transfer
/// is complete.
pub struct DownloadTask {
    /// The resolved direct-download link.
    pub source_url: String,
    /// The normalized title name the artifact is named after.
    pub destination_name: String,
    /// The payload size the response declared up front.
    pub total_bytes: u64,
    /// How many bytes have been received so far.
    pub transferred_bytes: u64,
}

impl DownloadTask {
    /// Open a transfer. A response that omits its total size is rejected
    /// before any bytes are written; otherwise the task starts with nothing
    /// transferred.
    pub fn begin(url: &str, destination_name: &str, content_length: Option<u64>) -> (r: Option<
        DownloadTask,
    >)
        ensures
            content_length is None ==> r is None,
            content_length matches Some(t) ==> r matches Some(task) && task.source_url@ == url@
                && task.destination_name@ == destination_name@ && task.total_bytes == t
                && task.transferred_bytes == 0,
    {
        match content_length {
            None => None,
            Some(t) => Some(
                DownloadTask {
                    source_url: url.to_owned(),
                    destination_name: destination_name.to_owned(),
                    total_bytes: t,
                    transferred_bytes: 0,
                },
            ),
        }
    }

    /// Record one received chunk and observe the progress pair
    /// `(transferredBytes, totalBytes)`. The count grows by exactly the
    /// chunk's length, so it never decreases.
    pub fn record_chunk(&mut self, len: u64) -> (progress: (u64, u64))
        requires
            old(self).transferred_bytes + len <= u64::MAX,
        ensures
            final(self).transferred_bytes == old(self).transferred_bytes + len,
            final(self).transferred_bytes >= old(self).transferred_bytes,
            final(self).total_bytes == old(self).total_bytes,
            final(self).source_url == old(self).source_url,
            final(self).destination_name == old(self).destination_name,
            progress.0 == final(self).transferred_bytes,
            progress.1 == final(self).total_bytes,
    {
        self.transferred_bytes = self.transferred_bytes + len;
        (self.transferred_bytes, self.total_bytes)
    }

    /// The transfer is complete exactly when the transferred count reached
    /// the declared total.
    pub fn is_complete(&self) -> (r: bool)
        ensures
            r == (self.transferred_bytes == self.total_bytes),
    {
        self.transferred_bytes == self.total_bytes
    }

    /// Name of the local artifact the transfer writes: the destination name
    /// followed by the fixed extension.
    pub fn destination_file_name(&self) -> (r: String)
        ensures
            r@ == self.destination_name@ + ".cia"@,
    {
        let mut s = self.destination_name.clone();
        s.append(".cia");
        s
    }
}

} // verus!
