//! One resumable byte-range transfer of a remote resource into a local file.
//!
//! The transfer is a state machine. The caller performs the network and disk
//! work that each [`TransferAction`] asks for and reports what happened as a
//! [`TransferEvent`]; [`TransferUnit::step`] decides what comes next.

use crate::text::{nat_digits, push_str, push_u64};
use vstd::prelude::*;

verus! {

/// The number of written bytes that may accumulate before the progress
/// display is advanced.
pub const PROGRESS_BATCH: u64 = 1048576;

/// What went wrong in the middle of a transfer.
#[derive(Clone, Copy, Debug, PartialEq, Eq, Structural)]
pub enum TransferFault {
    /// The body request was answered with this non-success status.
    Status(u16),
    /// The body request could not be sent or got no answer.
    Network,
    /// Reading the response body failed.
    Stream,
    /// Opening or writing the destination file failed.
    Disk,
    /// The body held more bytes than the declared length.
    Overrun,
    /// The body ended before the declared length was reached.
    ShortBody,
}

/// Why a transfer failed.
#[derive(Clone, Copy, Debug, PartialEq, Eq, Structural)]
pub enum TransferError {
    /// The metadata probe failed or was answered with a non-success status.
    RemoteUnavailable,
    /// The server did not declare the resource's length.
    LengthUnknown,
    /// The transfer itself failed.
    Transfer(TransferFault),
}

/// Where a transfer stands.
#[derive(Clone, Copy, Debug, PartialEq, Eq, Structural)]
pub enum TransferPhase {
    /// Waiting for the answer to the metadata probe.
    Probing,
    /// Waiting for the answer to the body request.
    Requesting,
    /// Receiving the body.
    Streaming,
    /// The file holds the whole resource.
    Complete,
    /// The transfer failed; the file keeps what was written.
    Failed(TransferError),
}

/// What the caller is asked to do next.
#[derive(Clone, Copy, Debug, PartialEq, Eq, Structural)]
pub enum TransferAction {
    /// Send a metadata probe (a HEAD request) for the resource.
    Probe,
    /// Create or truncate the file and request the whole resource.
    FetchAll,
    /// Open the file for appending at this offset and request the bytes
    /// from this offset to the end (`Range: bytes=<offset>-`).
    FetchFrom(u64),
    /// Show a progress indicator of `total` bytes at position `start`,
    /// then read the body chunk by chunk.
    Receive,
    /// Append the chunk to the file, then advance the progress indicator by
    /// this many bytes (zero: leave it as it is).
    Write(u64),
    /// Advance the progress indicator by this many bytes and finish; the
    /// transfer succeeded.
    Finish(u64),
    /// Stop; the transfer failed with this error.
    Abort(TransferError),
    /// The event did not fit the transfer's phase; nothing to do.
    Idle,
}

/// What happened since the last action.
#[derive(Clone, Copy, Debug, PartialEq, Eq, Structural)]
pub enum TransferEvent {
    /// The metadata probe was answered with this status and declared length.
    ProbeAnswered { status: u16, length: Option<u64> },
    /// The metadata probe could not be sent or got no answer.
    ProbeFailed,
    /// The body request was answered with this status and declared length.
    BodyAnswered { status: u16, length: Option<u64> },
    /// The body request could not be sent or got no answer.
    RequestFailed,
    /// A chunk of this many bytes arrived.
    Chunk(u64),
    /// The body ended.
    BodyEnded,
    /// Reading the body failed.
    StreamFailed,
    /// Opening or writing the file failed.
    DiskFailed,
}

/// The state of one transfer.
#[derive(Clone, Copy, Debug, PartialEq, Eq, Structural)]
pub struct TransferUnit {
    /// Where the transfer stands.
    pub phase: TransferPhase,
    /// Whether the body is requested from an offset (a resumed transfer).
    pub ranged: bool,
    /// The bytes on disk when the transfer began: the resume point, and the
    /// first position of the progress indicator.
    pub start: u64,
    /// The declared length of the resource, once known.
    pub total: u64,
    /// The length of the file now.
    pub written: u64,
    /// The position the progress indicator has been advanced to.
    pub shown: u64,
}

/// Whether an HTTP status is a success (2xx).
pub open spec fn is_success(status: u16) -> bool {
    200 <= status <= 299
}

impl TransferUnit {
    /// The unit's fields agree with its phase.
    pub open spec fn wf(self) -> bool {
        &&& self.start <= self.written
        &&& !self.ranged ==> self.start == 0
        &&& match self.phase {
            TransferPhase::Probing => self.ranged && self.written == self.start && self.shown
                == self.start,
            TransferPhase::Requesting => self.written == self.start && self.shown == self.start
                && (self.ranged ==> self.start < self.total),
            TransferPhase::Streaming => self.start <= self.shown <= self.written <= self.total
                && self.written - self.shown <= PROGRESS_BATCH,
            TransferPhase::Complete => self.shown == self.written && self.total <= self.written
                && (self.total < self.written ==> self.ranged && self.written == self.start),
            TransferPhase::Failed(_) => true,
        }
    }

    /// The first state and action of a transfer; `resume_from` is the size
    /// of the file already on disk when it is to be resumed.
    pub open spec fn initial(resume_from: Option<u64>) -> (TransferUnit, TransferAction) {
        match resume_from {
            Some(n) => (
                TransferUnit {
                    phase: TransferPhase::Probing,
                    ranged: true,
                    start: n,
                    total: 0,
                    written: n,
                    shown: n,
                },
                TransferAction::Probe,
            ),
            None => (
                TransferUnit {
                    phase: TransferPhase::Requesting,
                    ranged: false,
                    start: 0,
                    total: 0,
                    written: 0,
                    shown: 0,
                },
                TransferAction::FetchAll,
            ),
        }
    }

    /// The same unit, failed with `e`.
    pub open spec fn failing(self, e: TransferError) -> (TransferUnit, TransferAction) {
        (TransferUnit { phase: TransferPhase::Failed(e), ..self }, TransferAction::Abort(e))
    }

    /// The transition taken on an event.
    pub open spec fn next(self, e: TransferEvent) -> (TransferUnit, TransferAction) {
        match self.phase {
            TransferPhase::Probing => match e {
                TransferEvent::ProbeAnswered { status, length } => {
                    if !is_success(status) {
                        self.failing(TransferError::RemoteUnavailable)
                    } else {
                        match length {
                            None => self.failing(TransferError::LengthUnknown),
                            Some(t) => if self.start >= t {
                                (
                                    TransferUnit {
                                        phase: TransferPhase::Complete,
                                        total: t,
                                        ..self
                                    },
                                    TransferAction::Finish(0),
                                )
                            } else {
                                (
                                    TransferUnit {
                                        phase: TransferPhase::Requesting,
                                        total: t,
                                        ..self
                                    },
                                    TransferAction::FetchFrom(self.start),
                                )
                            },
                        }
                    }
                },
                TransferEvent::ProbeFailed => self.failing(TransferError::RemoteUnavailable),
                _ => (self, TransferAction::Idle),
            },
            TransferPhase::Requesting => match e {
                TransferEvent::BodyAnswered { status, length } => {
                    if !is_success(status) {
                        self.failing(TransferError::Transfer(TransferFault::Status(status)))
                    } else if self.ranged {
                        (
                            TransferUnit { phase: TransferPhase::Streaming, ..self },
                            TransferAction::Receive,
                        )
                    } else {
                        match length {
                            None => self.failing(TransferError::LengthUnknown),
                            Some(t) => (
                                TransferUnit {
                                    phase: TransferPhase::Streaming,
                                    total: t,
                                    ..self
                                },
                                TransferAction::Receive,
                            ),
                        }
                    }
                },
                TransferEvent::RequestFailed => self.failing(
                    TransferError::Transfer(TransferFault::Network),
                ),
                TransferEvent::DiskFailed => self.failing(
                    TransferError::Transfer(TransferFault::Disk),
                ),
                _ => (self, TransferAction::Idle),
            },
            TransferPhase::Streaming => match e {
                TransferEvent::Chunk(n) => {
                    if n > self.total - self.written {
                        self.failing(TransferError::Transfer(TransferFault::Overrun))
                    } else {
                        let w = (self.written + n) as u64;
                        if w >= self.shown && w - self.shown > PROGRESS_BATCH {
                            (
                                TransferUnit { written: w, shown: w, ..self },
                                TransferAction::Write((w - self.shown) as u64),
                            )
                        } else {
                            (TransferUnit { written: w, ..self }, TransferAction::Write(0))
                        }
                    }
                },
                TransferEvent::BodyEnded => {
                    if self.written == self.total {
                        (
                            TransferUnit {
                                phase: TransferPhase::Complete,
                                shown: self.written,
                                ..self
                            },
                            TransferAction::Finish(
                                if self.written >= self.shown {
                                    (self.written - self.shown) as u64
                                } else {
                                    0
                                },
                            ),
                        )
                    } else {
                        self.failing(TransferError::Transfer(TransferFault::ShortBody))
                    }
                },
                TransferEvent::StreamFailed => self.failing(
                    TransferError::Transfer(TransferFault::Stream),
                ),
                TransferEvent::DiskFailed => self.failing(
                    TransferError::Transfer(TransferFault::Disk),
                ),
                _ => (self, TransferAction::Idle),
            },
            _ => (self, TransferAction::Idle),
        }
    }

    /// Starts a transfer. `resume_from` is the size of the file already on
    /// disk when that file is to be resumed, `None` for a fresh download.
    pub fn begin(resume_from: Option<u64>) -> (r: (TransferUnit, TransferAction))
        ensures
            r == TransferUnit::initial(resume_from),
            r.0.wf(),
    {
        match resume_from {
            Some(n) => (
                TransferUnit {
                    phase: TransferPhase::Probing,
                    ranged: true,
                    start: n,
                    total: 0,
                    written: n,
                    shown: n,
                },
                TransferAction::Probe,
            ),
            None => (
                TransferUnit {
                    phase: TransferPhase::Requesting,
                    ranged: false,
                    start: 0,
                    total: 0,
                    written: 0,
                    shown: 0,
                },
                TransferAction::FetchAll,
            ),
        }
    }

    fn fail(&mut self, e: TransferError) -> (a: TransferAction)
        ensures
            (*final(self), a) == old(self).failing(e),
    {
        self.phase = TransferPhase::Failed(e);
        TransferAction::Abort(e)
    }

    /// Takes the transition for event `e` and returns the action it asks for.
    pub fn step(&mut self, e: TransferEvent) -> (a: TransferAction)
        ensures
            (*final(self), a) == old(self).next(e),
            old(self).wf() ==> final(self).wf(),
    {
        match self.phase {
            TransferPhase::Probing => match e {
                TransferEvent::ProbeAnswered { status, length } => {
                    if !(200 <= status && status <= 299) {
                        self.fail(TransferError::RemoteUnavailable)
                    } else {
                        match length {
                            None => self.fail(TransferError::LengthUnknown),
                            Some(t) => {
                                self.total = t;
                                if self.start >= t {
                                    self.phase = TransferPhase::Complete;
                                    TransferAction::Finish(0)
                                } else {
                                    self.phase = TransferPhase::Requesting;
                                    TransferAction::FetchFrom(self.start)
                                }
                            },
                        }
                    }
                },
                TransferEvent::ProbeFailed => self.fail(TransferError::RemoteUnavailable),
                _ => TransferAction::Idle,
            },
            TransferPhase::Requesting => match e {
                TransferEvent::BodyAnswered { status, length } => {
                    if !(200 <= status && status <= 299) {
                        self.fail(TransferError::Transfer(TransferFault::Status(status)))
                    } else if self.ranged {
                        self.phase = TransferPhase::Streaming;
                        TransferAction::Receive
                    } else {
                        match length {
                            None => self.fail(TransferError::LengthUnknown),
                            Some(t) => {
                                self.total = t;
                                self.phase = TransferPhase::Streaming;
                                TransferAction::Receive
                            },
                        }
                    }
                },
                TransferEvent::RequestFailed => self.fail(
                    TransferError::Transfer(TransferFault::Network),
                ),
                TransferEvent::DiskFailed => self.fail(
                    TransferError::Transfer(TransferFault::Disk),
                ),
                _ => TransferAction::Idle,
            },
            TransferPhase::Streaming => match e {
                TransferEvent::Chunk(n) => {
                    if self.written > self.total || n > self.total - self.written {
                        self.fail(TransferError::Transfer(TransferFault::Overrun))
                    } else {
                        let w = self.written + n;
                        self.written = w;
                        if w >= self.shown && w - self.shown > PROGRESS_BATCH {
                            let advance = w - self.shown;
                            self.shown = w;
                            TransferAction::Write(advance)
                        } else {
                            TransferAction::Write(0)
                        }
                    }
                },
                TransferEvent::BodyEnded => {
                    if self.written == self.total {
                        let advance = if self.written >= self.shown {
                            self.written - self.shown
                        } else {
                            0
                        };
                        self.shown = self.written;
                        self.phase = TransferPhase::Complete;
                        TransferAction::Finish(advance)
                    } else {
                        self.fail(TransferError::Transfer(TransferFault::ShortBody))
                    }
                },
                TransferEvent::StreamFailed => self.fail(
                    TransferError::Transfer(TransferFault::Stream),
                ),
                TransferEvent::DiskFailed => self.fail(
                    TransferError::Transfer(TransferFault::Disk),
                ),
                _ => TransferAction::Idle,
            },
            _ => TransferAction::Idle,
        }
    }
}

/// The value of the `Range` header that asks for the bytes from `start` to
/// `end` (both inclusive, either open); none when both are open.
pub open spec fn range_spec(start: Option<u64>, end: Option<u64>) -> Option<Seq<char>> {
    match (start, end) {
        (Some(s), Some(e)) => Some(
            "bytes="@ + nat_digits(s as nat) + "-"@ + nat_digits(e as nat),
        ),
        (Some(s), None) => Some("bytes="@ + nat_digits(s as nat) + "-"@),
        (None, Some(e)) => Some("bytes=-"@ + nat_digits(e as nat)),
        (None, None) => None,
    }
}

/// The `Range` header for a request of the bytes from `start` to `end`.
pub fn range_header(start: Option<u64>, end: Option<u64>) -> (r: Option<String>)
    ensures
        r matches Some(h) ==> range_spec(start, end) == Some(h@),
        r is None <==> range_spec(start, end) is None,
{
    match (start, end) {
        (Some(s), Some(e)) => {
            let mut h = String::new();
            push_str(&mut h, "bytes=");
            push_u64(&mut h, s);
            push_str(&mut h, "-");
            push_u64(&mut h, e);
            Some(h)
        },
        (Some(s), None) => {
            let mut h = String::new();
            push_str(&mut h, "bytes=");
            push_u64(&mut h, s);
            push_str(&mut h, "-");
            Some(h)
        },
        (None, Some(e)) => {
            let mut h = String::new();
            push_str(&mut h, "bytes=-");
            push_u64(&mut h, e);
            Some(h)
        },
        (None, None) => None,
    }
}

/// The file after the caller carried out action `a`; `chunk` is the chunk
/// that the event brought, if any.
pub open spec fn file_after(file: Seq<u8>, a: TransferAction, chunk: Seq<u8>) -> Seq<u8> {
    match a {
        TransferAction::FetchAll => Seq::empty(),
        TransferAction::Write(_) => file + chunk,
        _ => file,
    }
}

/// The unit and the file after the chunks arrived one by one.
pub open spec fn feed(u: TransferUnit, file: Seq<u8>, chunks: Seq<Seq<u8>>) -> (TransferUnit, Seq<
    u8,
>)
    decreases chunks.len(),
{
    if chunks.len() == 0 {
        (u, file)
    } else {
        let (u1, a) = u.next(TransferEvent::Chunk(chunks[0].len() as u64));
        feed(u1, file_after(file, a, chunks[0]), chunks.drop_first())
    }
}

/// The unit and the file after a body request was answered with `status`
/// and `length`, its body arrived as `chunks`, and the body ended.
pub open spec fn receive(
    u: TransferUnit,
    file: Seq<u8>,
    status: u16,
    length: Option<u64>,
    chunks: Seq<Seq<u8>>,
) -> (TransferUnit, Seq<u8>) {
    let (u1, a1) = u.next(TransferEvent::BodyAnswered { status, length });
    let (u2, f2) = feed(u1, file_after(file, a1, Seq::empty()), chunks);
    (u2.next(TransferEvent::BodyEnded).0, f2)
}

proof fn lemma_feed_fills(u: TransferUnit, file: Seq<u8>, chunks: Seq<Seq<u8>>, res: Seq<u8>)
    requires
        u.wf(),
        u.phase == TransferPhase::Streaming,
        u.total == res.len(),
        file == res.take(u.written as int),
        chunks.flatten() == res.subrange(u.written as int, res.len() as int),
    ensures
        feed(u, file, chunks).0.wf(),
        feed(u, file, chunks).0.phase == TransferPhase::Streaming,
        feed(u, file, chunks).0.written == u.total,
        feed(u, file, chunks).0.total == u.total,
        feed(u, file, chunks).1 == res,
    decreases chunks.len(),
{
    if chunks.len() == 0 {
        assert(res.subrange(u.written as int, res.len() as int).len() == 0);
        assert(file =~= res);
    } else {
        let c = chunks[0];
        assert(chunks.flatten() == c + chunks.drop_first().flatten());
        let n = c.len() as u64;
        assert(c.len() <= u.total - u.written);
        let (u1, a) = u.next(TransferEvent::Chunk(n));
        let f1 = file_after(file, a, c);
        assert(u1.written == u.written + c.len());
        assert(f1 =~= res.take(u1.written as int)) by {
            assert(c =~= res.subrange(u.written as int, u1.written as int));
        }
        assert(chunks.drop_first().flatten() =~= res.subrange(
            u1.written as int,
            res.len() as int,
        )) by {
            assert(res.subrange(u.written as int, res.len() as int).subrange(
                c.len() as int,
                (res.len() - u.written) as int,
            ) =~= res.subrange(u1.written as int, res.len() as int));
        }
        lemma_feed_fills(u1, f1, chunks.drop_first(), res);
    }
}

/// A file that holds the first `n < total` bytes of a resource, resumed
/// against that resource, ends as exactly the resource: the transfer asks
/// for the bytes from `n` on, writes `total - n` more bytes, and completes
/// with the progress indicator at `total`. A fresh download of the same
/// resource ends with the same bytes.
pub proof fn resumed_transfer_equals_fresh_download(
    res: Seq<u8>,
    n: u64,
    probe_status: u16,
    body_status: u16,
    body_length: Option<u64>,
    resumed_chunks: Seq<Seq<u8>>,
    stale: Seq<u8>,
    fresh_chunks: Seq<Seq<u8>>,
)
    requires
        n < res.len() <= u64::MAX,
        is_success(probe_status),
        is_success(body_status),
        resumed_chunks.flatten() == res.subrange(n as int, res.len() as int),
        fresh_chunks.flatten() == res,
    ensures
        ({
            let (u0, a0) = TransferUnit::initial(Some(n));
            let (u1, a1) = u0.next(
                TransferEvent::ProbeAnswered { status: probe_status, length: Some(res.len() as u64) },
            );
            let (u2, f2) = receive(u1, res.take(n as int), body_status, body_length, resumed_chunks);
            &&& a0 == TransferAction::Probe
            &&& a1 == TransferAction::FetchFrom(n)
            &&& u2.phase == TransferPhase::Complete
            &&& u2.written == res.len()
            &&& u2.written - u1.written == res.len() - n
            &&& u2.shown == res.len()
            &&& f2 == res
        }),
        ({
            let (v0, b0) = TransferUnit::initial(None);
            let (v1, g1) = receive(
                v0,
                file_after(stale, b0, Seq::empty()),
                body_status,
                Some(res.len() as u64),
                fresh_chunks,
            );
            &&& b0 == TransferAction::FetchAll
            &&& v1.phase == TransferPhase::Complete
            &&& v1.shown == res.len()
            &&& g1 == res
        }),
{
    let total = res.len() as u64;
    let (u0, a0) = TransferUnit::initial(Some(n));
    let (u1, a1) = u0.next(TransferEvent::ProbeAnswered { status: probe_status, length: Some(total) });
    let (s1, b1) = u1.next(TransferEvent::BodyAnswered { status: body_status, length: body_length });
    let f0 = res.take(n as int);
    assert(file_after(f0, b1, Seq::empty()) =~= f0);
    lemma_feed_fills(s1, f0, resumed_chunks, res);

    let (v0, b0) = TransferUnit::initial(None);
    let (w1, c1) = v0.next(TransferEvent::BodyAnswered { status: body_status, length: Some(total) });
    let g0 = file_after(stale, b0, Seq::empty());
    assert(file_after(g0, c1, Seq::empty()) =~= res.take(0));
    assert(res.subrange(0, res.len() as int) =~= res);
    lemma_feed_fills(w1, file_after(g0, c1, Seq::empty()), fresh_chunks, res);
}

/// Resuming a file that already holds at least the declared length needs no
/// body request: after the probe the transfer completes at once, with the
/// file as it was.
pub proof fn complete_file_is_not_fetched_again(n: u64, total: u64, status: u16)
    requires
        n >= total,
        is_success(status),
    ensures
        ({
            let (u0, a0) = TransferUnit::initial(Some(n));
            let (u1, a1) = u0.next(TransferEvent::ProbeAnswered { status, length: Some(total) });
            &&& a0 == TransferAction::Probe
            &&& a1 == TransferAction::Finish(0)
            &&& u1.phase == TransferPhase::Complete
            &&& u1.written == n
        }),
{
}

/// A step that fails a transfer asks for no further work on the file: the
/// file keeps what its last write left, and the unit's count of its bytes
/// stays as it was. A failed transfer stays failed.
pub proof fn failing_step_leaves_file(
    u: TransferUnit,
    e: TransferEvent,
    f: TransferEvent,
    file: Seq<u8>,
    chunk: Seq<u8>,
)
    requires
        u.wf(),
        !(u.phase is Failed),
        u.next(e).0.phase is Failed,
    ensures
        u.next(e).1 is Abort,
        file_after(file, u.next(e).1, chunk) == file,
        u.next(e).0.written == u.written,
        u.next(e).0.next(f) == (u.next(e).0, TransferAction::Idle),
{
}

} // verus!
