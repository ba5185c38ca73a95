//! The decisions of an offline download: whether to fetch the file in byte
//! ranges, which range to ask for next, what a range response means for the
//! download, when progress is worth publishing, and which extension the file
//! gets. The requests, the writes and the queue updates are the caller's.

use vstd::prelude::*;

verus! {

/// The length of each ranged request: 512 KiB. Ranged requests sidestep the
/// throttle some CDNs put on a single long sequential GET.
pub const CHUNK: u64 = 512 * 1024;

/// How often progress is published while bytes keep arriving, in milliseconds.
pub const UI_UPDATE_MS: u64 = 50;

/// The length to fetch in ranges, when the download goes that way: both a
/// user agent to send and the file's length must be known.
pub fn ranged_total(user_agent: Option<&str>, content_length: Option<u64>) -> (r: Option<u64>)
    ensures
        r == if user_agent is Some { content_length } else { None::<u64> },
{
    match user_agent {
        Some(_) => content_length,
        None => None,
    }
}

/// The mathematical value of a [`RangeDownload`].
pub struct RangeDownloadView {
    /// The first byte of the next range.
    pub start: u64,
    /// The file's length.
    pub total: u64,
    /// The bytes written so far.
    pub done: u64,
}

/// A download fetched range by range, each range written as it arrives. The
/// next range always starts at the bytes written, within the file.
pub struct RangeDownload {
    start: u64,
    total: u64,
    done: u64,
}

impl View for RangeDownload {
    type V = RangeDownloadView;

    closed spec fn view(&self) -> RangeDownloadView {
        RangeDownloadView { start: self.start, total: self.total, done: self.done }
    }
}

/// The last byte of the range that starts at `start`: a whole chunk, or what
/// is left of the file.
pub open spec fn range_end(start: u64, total: u64) -> int {
    if start + CHUNK - 1 <= total - 1 {
        start + CHUNK - 1
    } else {
        total - 1
    }
}

/// Why a range response ends the download.
#[derive(Clone, Copy, Debug, PartialEq, Eq, Structural)]
pub enum RangeFailure {
    /// The download was cancelled: the partial file is deleted.
    Cancelled,
    /// The server answered with a status outside 200..300.
    NotSuccess { status: u16, start: u64, end: u64 },
    /// A success that is not 206 Partial Content: the server ignored the
    /// Range header, and writing its whole body each time would fill the disk.
    NotPartial { status: u16, start: u64, end: u64 },
    /// Fewer or more bytes than the range holds arrived: taking them would
    /// leave a hole in the file.
    Short { got: u64, expected: u64, start: u64, end: u64 },
}

impl RangeDownload {
    #[verifier::type_invariant]
    spec fn in_step(self) -> bool {
        self.start == self.done && self.done <= self.total
    }

    /// A ranged download of a file of `total` bytes, nothing fetched yet.
    pub fn new(total: u64) -> (r: Self)
        ensures
            r@ == (RangeDownloadView { start: 0, total, done: 0 }),
    {
        RangeDownload { start: 0, total, done: 0 }
    }

    pub fn start(&self) -> (r: u64)
        ensures
            r == self@.start,
            self@.start == self@.done,
            self@.done <= self@.total,
    {
        proof {
            use_type_invariant(self);
        }
        self.start
    }

    pub fn total(&self) -> (r: u64)
        ensures
            r == self@.total,
            self@.start == self@.done,
            self@.done <= self@.total,
    {
        proof {
            use_type_invariant(self);
        }
        self.total
    }

    pub fn done(&self) -> (r: u64)
        ensures
            r == self@.done,
            self@.start == self@.done,
            self@.done <= self@.total,
    {
        proof {
            use_type_invariant(self);
        }
        self.done
    }
}

/// The range to ask for next, as (first byte, last byte), or `None` when the
/// whole file has arrived.
pub fn next_range(s: &RangeDownload) -> (r: Option<(u64, u64)>)
    ensures
        s@.start < s@.total ==> r == Some((s@.start, range_end(s@.start, s@.total) as u64)),
        s@.start >= s@.total ==> r is None,
{
    if s.start < s.total {
        Some((s.start, end_of_range(s.start, s.total)))
    } else {
        None
    }
}

fn end_of_range(start: u64, total: u64) -> (r: u64)
    requires
        start < total,
    ensures
        r == range_end(start, total),
{
    if total - 1 - start >= CHUNK - 1 {
        start + (CHUNK - 1)
    } else {
        total - 1
    }
}

/// Take the response to the range that [`next_range`] asked for: `status` is
/// its HTTP status and `got` the bytes its body held, and `cancelled` whether
/// the download was cancelled meanwhile. Only a 206 with exactly the range's
/// bytes moves the download on.
pub fn on_range_response(s: &mut RangeDownload, cancelled: bool, status: u16, got: u64) -> (r: Result<(), RangeFailure>)
    requires
        old(s)@.start < old(s)@.total,
    ensures
        ({
            let start = old(s)@.start;
            let end = range_end(start, old(s)@.total) as u64;
            &&& cancelled ==> r == Err::<(), RangeFailure>(RangeFailure::Cancelled)
            &&& !cancelled && !(200 <= status < 300)
                ==> r == Err::<(), RangeFailure>(RangeFailure::NotSuccess { status, start, end })
            &&& !cancelled && 200 <= status < 300 && status != 206
                ==> r == Err::<(), RangeFailure>(RangeFailure::NotPartial { status, start, end })
            &&& !cancelled && status == 206 && got != end - start + 1
                ==> r == Err::<(), RangeFailure>(RangeFailure::Short { got, expected: (end - start + 1) as u64, start, end })
            &&& !cancelled && status == 206 && got == end - start + 1 ==> r is Ok
            &&& r is Ok ==> final(s)@ == (RangeDownloadView { start: (end + 1) as u64, total: old(s)@.total, done: (old(s)@.done + got) as u64 })
            &&& r is Err ==> final(s)@ == old(s)@
        }),
{
    proof {
        use_type_invariant(&*s);
    }
    let start = s.start;
    let end = end_of_range(start, s.total);
    if cancelled {
        return Err(RangeFailure::Cancelled);
    }
    if !(200 <= status && status < 300) {
        return Err(RangeFailure::NotSuccess { status, start, end });
    }
    if status != 206 {
        return Err(RangeFailure::NotPartial { status, start, end });
    }
    let expected = end - start + 1;
    if got != expected {
        return Err(RangeFailure::Short { got, expected, start, end });
    }
    let total = s.total;
    let done = s.done + got;
    *s = RangeDownload { start: end + 1, total, done };
    Ok(())
}

/// The ranges tile the file: each starts where the last left off, ends
/// within the file, and holds at most a chunk, so the download leaves no hole
/// and no overlap.
pub proof fn lemma_ranges_tile_the_file(start: u64, total: u64)
    requires
        start < total,
    ensures
        start <= range_end(start, total) < total,
        range_end(start, total) - start + 1 <= CHUNK,
{
}

/// Every range but the last is a whole chunk, and the last one ends at the
/// file's last byte: the ranges asked for are as large as allowed, and the
/// download stops exactly at the end of the file.
pub proof fn lemma_ranges_are_whole_chunks(start: u64, total: u64)
    requires
        start < total,
    ensures
        start + CHUNK <= total ==> range_end(start, total) == start + CHUNK - 1,
        start + CHUNK > total ==> range_end(start, total) == total - 1,
{
}

/// Whether to publish progress for a ranged download after a range has
/// landed: on the first range, once [`UI_UPDATE_MS`] have passed since the
/// last publication, and when the whole file has arrived.
pub fn should_publish(first_done: bool, since_last_ms: u64, start: u64, total: u64) -> (r: bool)
    ensures
        r == (!first_done || since_last_ms >= UI_UPDATE_MS || start >= total),
{
    !first_done || since_last_ms >= UI_UPDATE_MS || start >= total
}

/// Whether to publish progress for a plain download after a chunk has
/// landed: on the first chunk, once [`UI_UPDATE_MS`] have passed, and when a
/// known length has been reached.
pub fn should_publish_plain(first_done: bool, since_last_ms: u64, done: u64, total: u64) -> (r: bool)
    ensures
        r == (!first_done || since_last_ms >= UI_UPDATE_MS || (total > 0 && done == total)),
{
    !first_done || since_last_ms >= UI_UPDATE_MS || (total > 0 && done == total)
}

/// The bytes to report since the last publication, never negative.
pub fn trailing_bytes(done: u64, last_published: u64) -> (r: u64)
    ensures
        r == if done >= last_published { done - last_published } else { 0 },
{
    done.saturating_sub(last_published)
}

/// The extension a plainly downloaded file gets: the one its content type
/// names, else the hint.
pub fn download_extension(from_content_type: Option<&'static str>, hint: &'static str) -> (r: &'static str)
    ensures
        r == match from_content_type {
            Some(ext) => ext,
            None => hint,
        },
{
    match from_content_type {
        Some(ext) => ext,
        None => hint,
    }
}

} // verus!
