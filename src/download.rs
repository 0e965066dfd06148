//! Bookkeeping of downloads: the progress of one file and the run over a
//! batch of files, where one file's failure does not stop the others.
use vstd::prelude::*;
use crate::file::{file_name_of_path, parsed_url_path, File, FileError};

verus! {

/// The position after `len` more bytes arrive at `position`, capped at `total`.
pub open spec fn advanced(position: nat, total: nat, len: nat) -> nat {
    if position + len < total {
        position + len
    } else {
        total
    }
}

/// The position after the chunks of lengths `chunks` arrive, from the start.
pub open spec fn position_after(total: nat, chunks: Seq<nat>) -> nat
    decreases chunks.len(),
{
    if chunks.len() == 0 {
        0
    } else {
        advanced(position_after(total, chunks.drop_last()), total, chunks.last())
    }
}

/// The number of bytes in chunks of lengths `chunks`.
pub open spec fn total_length(chunks: Seq<nat>) -> nat
    decreases chunks.len(),
{
    if chunks.len() == 0 {
        0
    } else {
        total_length(chunks.drop_last()) + chunks.last()
    }
}

/// The reported position is the number of bytes received, capped at the
/// declared total: it never exceeds the total, and it reaches the total
/// exactly when the whole declared content has arrived.
pub proof fn lemma_position_is_capped_length(total: nat, chunks: Seq<nat>)
    ensures
        position_after(total, chunks) <= total,
        total_length(chunks) < total ==> position_after(total, chunks) == total_length(chunks),
        total_length(chunks) >= total ==> position_after(total, chunks) == total,
    decreases chunks.len(),
{
    if chunks.len() > 0 {
        lemma_position_is_capped_length(total, chunks.drop_last());
    }
}

/// The reported position never decreases as chunks arrive.
pub proof fn lemma_position_non_decreasing(total: nat, chunks: Seq<nat>, i: int, j: int)
    requires
        0 <= i <= j <= chunks.len(),
    ensures
        position_after(total, chunks.take(i)) <= position_after(total, chunks.take(j)),
    decreases j - i,
{
    if i < j {
        lemma_position_non_decreasing(total, chunks, i, j - 1);
        assert(chunks.take(j).drop_last() =~= chunks.take(j - 1));
        lemma_position_is_capped_length(total, chunks.take(j - 1));
    }
}

/// The progress of one download, in bytes.
#[derive(Debug, Clone, Copy, PartialEq, Eq, Structural)]
pub struct Progress {
    /// The bytes received so far, capped at `total`.
    pub position: u64,
    /// The declared size of the content.
    pub total: u64,
}

impl Progress {
    /// Whether the position lies within the declared size.
    pub open spec fn wf(&self) -> bool {
        self.position <= self.total
    }

    /// The progress of a download of `total` bytes that has not started.
    pub fn new(total: u64) -> (r: Progress)
        ensures
            r.wf(),
            r.position == 0,
            r.total == total,
    {
        Progress { position: 0, total }
    }

    /// Records the arrival of a chunk of `len` bytes.
    pub fn advance(&mut self, len: u64)
        requires
            old(self).wf(),
        ensures
            final(self).wf(),
            final(self).total == old(self).total,
            final(self).position as nat == advanced(
                old(self).position as nat,
                old(self).total as nat,
                len as nat,
            ),
            old(self).position <= final(self).position,
    {
        if len >= self.total - self.position {
            self.position = self.total;
        } else {
            self.position = self.position + len;
        }
    }

    /// Whether the whole declared content has arrived.
    pub fn is_complete(&self) -> (r: bool)
        ensures
            r == (self.position == self.total),
    {
        self.position == self.total
    }
}

/// What a download starts from: the name to save under and the empty progress.
#[derive(Debug)]
pub struct DownloadPlan {
    pub file_name: String,
    pub progress: Progress,
}

/// Whether `r` is how a download of the file at `url` starts, once the
/// response has declared `content_length`.
pub open spec fn is_plan_outcome(
    r: Result<DownloadPlan, FileError>,
    url: Seq<char>,
    content_length: Option<u64>,
) -> bool {
    match content_length {
        None => r matches Err(FileError::MissingContentLength),
        Some(t) => match parsed_url_path(url) {
            None => r matches Err(FileError::InvalidUrl),
            Some(p) => if file_name_of_path(p).len() == 0 {
                r matches Err(FileError::NoFileName)
            } else {
                r matches Ok(plan) && plan.file_name@ == file_name_of_path(p)
                    && plan.progress.position == 0 && plan.progress.total == t
            },
        },
    }
}

impl File {
    /// Starts the download of this file once the response has declared
    /// `content_length`: a missing length and a missing file name are errors.
    pub fn plan_download(&self, content_length: Option<u64>) -> (r: Result<
        DownloadPlan,
        FileError,
    >)
        ensures
            is_plan_outcome(r, self.url@, content_length),
            r matches Ok(plan) ==> plan.progress.wf(),
    {
        match content_length {
            None => Err(FileError::MissingContentLength),
            Some(total) => match self.file_name() {
                Ok(file_name) => Ok(DownloadPlan { file_name, progress: Progress::new(total) }),
                Err(e) => Err(e),
            },
        }
    }
}

/// A run over a batch of files, one at a time and in order. A failed file is
/// recorded and the run goes on with the next one.
#[derive(Debug)]
pub struct Batch {
    /// The number of files in the batch.
    pub count: usize,
    /// The index of the next file to download.
    pub next: usize,
    /// The indices of the files that failed, in order.
    pub failed: Vec<usize>,
}

impl Batch {
    /// Whether the run is consistent: it has not gone past the end, and the
    /// failures are distinct files already tried, in order.
    pub open spec fn wf(&self) -> bool {
        &&& self.next <= self.count
        &&& forall|i: int| 0 <= i < self.failed@.len() ==> self.failed@[i] < self.next
        &&& forall|i: int, j: int|
            0 <= i < j < self.failed@.len() ==> self.failed@[i] < self.failed@[j]
    }

    /// A run over `count` files that has not started.
    pub fn new(count: usize) -> (r: Batch)
        ensures
            r.wf(),
            r.count == count,
            r.next == 0,
            r.failed@.len() == 0,
    {
        Batch { count, next: 0, failed: Vec::new() }
    }

    /// The index of the file to download next, if any is left.
    pub fn next_file(&self) -> (r: Option<usize>)
        ensures
            self.next < self.count ==> r == Some(self.next),
            self.next >= self.count ==> r is None,
    {
        if self.next < self.count {
            Some(self.next)
        } else {
            None
        }
    }

    /// Records the outcome of the current file and moves on to the next,
    /// whether it succeeded or not.
    pub fn record(&mut self, succeeded: bool)
        requires
            old(self).wf(),
            old(self).next < old(self).count,
        ensures
            final(self).wf(),
            final(self).count == old(self).count,
            final(self).next == old(self).next + 1,
            succeeded ==> final(self).failed@ == old(self).failed@,
            !succeeded ==> final(self).failed@ == old(self).failed@.push(old(self).next),
    {
        if !succeeded {
            self.failed.push(self.next);
        }
        self.next = self.next + 1;
    }

    /// Whether every file of the batch has been tried.
    pub fn is_done(&self) -> (r: bool)
        ensures
            r == (self.next >= self.count),
    {
        self.next >= self.count
    }

    /// Whether every file tried so far succeeded.
    pub fn all_succeeded(&self) -> (r: bool)
        ensures
            r == (self.failed@.len() == 0),
    {
        self.failed.len() == 0
    }
}

} // verus!
