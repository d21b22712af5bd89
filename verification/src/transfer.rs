//! The transfer of one resource to a staging file: it resumes from what the file holds,
//! retries what fails with a fixed rest in between, and is complete only when the file
//! holds the whole resource.

use crate::text::{chars_of, decimal, push_decimal, string_of};
use vstd::prelude::*;

verus! {

/// How often a transfer may be attempted and how long it rests between two attempts.
#[derive(Clone, Copy, Debug, PartialEq, Eq)]
pub struct RetryBudget {
    /// The number of attempts that may fail before the transfer is given up.
    pub max_attempts: u32,
    /// The rest between two attempts, in seconds.
    pub delay_between_attempts: u64,
}

/// Why a transfer was given up.
#[derive(Clone, Copy, Debug, PartialEq, Eq)]
pub enum TransferError {
    /// Every attempt that the budget allows has failed.
    RetriesExhausted { attempts: u32 },
    /// The staging file could not be measured, opened, written or removed.
    Filesystem,
}

/// The part of the remote resource that a request asks for: from `start` on, up to `end`
/// where one is given.
#[derive(Clone, Copy, Debug, PartialEq, Eq)]
pub struct ByteRange {
    pub start: u64,
    pub end: Option<u64>,
}

/// The unit that ranges are counted in, as a range header names it.
pub const RANGE_UNIT: &'static str = "bytes=";

impl ByteRange {
    /// The value of the range header that asks for this range: the unit, the decimal
    /// writing of the first byte, a hyphen, and the decimal writing of the end where one
    /// is given.
    pub open spec fn spec_header_value(&self) -> Seq<char> {
        RANGE_UNIT@ + decimal(self.start as nat) + seq!['-'] + match self.end {
            Some(end) => decimal(end as nat),
            None => Seq::empty(),
        }
    }

    /// The value of the range header that asks for this range.
    pub fn header_value(&self) -> (value: String)
        ensures
            value@ == self.spec_header_value(),
    {
        let mut out = chars_of(RANGE_UNIT);
        push_decimal(self.start, &mut out);
        out.push('-');
        match self.end {
            Some(end) => {
                push_decimal(end, &mut out);
            },
            None => {
                assert(out@ =~= out@ + Seq::<char>::empty());
            },
        }
        assert(out@ =~= self.spec_header_value());
        string_of(out.as_slice())
    }
}

/// The time that a request may take, in seconds.
#[derive(Clone, Copy, Debug, PartialEq, Eq)]
pub struct Timeouts {
    /// The time for the whole request.
    pub request: u64,
    /// The time for reaching the server.
    pub connect: u64,
}

/// The seconds that a transfer's request may take where the configuration names none.
pub const DEFAULT_REQUEST_SECONDS: u64 = 600;

/// The seconds that a transfer may take to reach the server.
pub const CONNECT_SECONDS: u64 = 30;

/// The seconds that a probe's request may take.
pub const PROBE_REQUEST_SECONDS: u64 = 30;

/// The seconds that a probe may take to reach the server.
pub const PROBE_CONNECT_SECONDS: u64 = 10;

/// The times that each request of a transfer is given: for the whole request what is
/// configured, or the default; for reaching the server a shorter, fixed time, but never
/// more than for the whole request.
pub fn transfer_timeouts(configured: Option<u64>) -> (times: Timeouts)
    ensures
        times.request == match configured {
            Some(seconds) => seconds,
            None => DEFAULT_REQUEST_SECONDS,
        },
        times.connect == if times.request < CONNECT_SECONDS {
            times.request
        } else {
            CONNECT_SECONDS
        },
        times.connect <= times.request,
{
    let request = match configured {
        Some(seconds) => seconds,
        None => DEFAULT_REQUEST_SECONDS,
    };
    let connect = if request < CONNECT_SECONDS {
        request
    } else {
        CONNECT_SECONDS
    };
    Timeouts { request, connect }
}

/// The times that a probe's request is given.
pub fn probe_timeouts() -> (times: Timeouts)
    ensures
        times == (Timeouts { request: PROBE_REQUEST_SECONDS, connect: PROBE_CONNECT_SECONDS }),
        times.connect < times.request,
{
    Timeouts { request: PROBE_REQUEST_SECONDS, connect: PROBE_CONNECT_SECONDS }
}

/// Where a transfer stands. Each phase waits for the outcome of one piece of outside work.
#[derive(Clone, Copy, Debug, PartialEq, Eq)]
pub enum TransferPhase {
    /// An attempt begins: the length of the staging file is asked for.
    Measuring,
    /// A request has been sent.
    Requesting,
    /// The server has answered with success: the staging file is being opened.
    Opening,
    /// The staging file is open for writing and the body is copied chunk by chunk.
    Copying,
    /// The staging file is being removed. `retry` says whether an attempt has failed; where
    /// none has, the file cannot be part of the resource and the attempt goes on from
    /// nothing.
    Discarding { retry: bool },
    /// The rest between two attempts.
    Pausing,
    /// The staging file holds the whole resource.
    Complete,
    /// The transfer was given up.
    Failed { error: TransferError },
}

/// What the outside world reports to a transfer.
#[derive(Clone, Copy, Debug, PartialEq, Eq)]
pub enum TransferEvent {
    /// The staging file was measured; `None` where there is no such file.
    StagingLength { length: Option<u64> },
    /// The server answered with this status code.
    Response { status: u16 },
    /// The request failed before any answer came, or ran out of time.
    RequestFailed,
    /// The staging file was opened as asked and stays open for the copy.
    StagingOpened,
    /// One chunk of the body was read and written in full.
    ChunkWritten { bytes: u64 },
    /// Reading the next chunk failed; the staging file was closed.
    ChunkFailed,
    /// The body came to its natural end; the staging file was closed.
    StreamEnded,
    /// The staging file is gone.
    StagingDiscarded,
    /// The rest between two attempts is over.
    DelayElapsed,
    /// The staging file could not be measured, opened, written or removed.
    StagingFault,
}

/// The outside work that a transfer waits for.
#[derive(Clone, Copy, Debug, PartialEq, Eq)]
pub enum TransferAction {
    /// Ask for the length of the staging file.
    MeasureStaging,
    /// Send a request for the resource, with a range header where `range` is given.
    SendRequest { range: Option<ByteRange> },
    /// Open the staging file for writing behind what it holds, and make it where it is
    /// missing. It is never emptied: what it holds is the beginning of the resource.
    OpenStaging,
    /// Read the next chunk of the body and write it to the staging file. When the body
    /// ends or breaks, close the file before reporting it. The file is open only while
    /// this is the work that is waited for.
    CopyChunk,
    /// Close the staging file if it is open, and remove it.
    DiscardStaging,
    /// Rest for so many seconds.
    Sleep { seconds: u64 },
    /// Close the staging file if it is open: the transfer has succeeded.
    Finish,
    /// Close the staging file if it is open: the transfer is given up.
    Fail { error: TransferError },
}

/// What a caller may show of a running transfer.
#[derive(Clone, Copy, Debug, PartialEq, Eq)]
pub struct Progress {
    /// The bytes of the resource that the staging file holds.
    pub bytes: u64,
    /// The length of the resource, where the server has told it.
    pub total: Option<u64>,
    /// The number of the attempt that is under way, counted from one.
    pub attempt: u32,
}

/// The state of one transfer, from its first attempt to success or failure.
#[derive(Clone, Copy, Debug, PartialEq, Eq)]
pub struct TransferState {
    /// The budget that the transfer was begun with.
    pub budget: RetryBudget,
    /// The length of the resource, where the server has told it.
    pub bytes_expected: Option<u64>,
    /// The bytes of the resource that the staging file holds, as far as this attempt knows.
    pub bytes_on_disk: u64,
    /// The number of attempts that have failed.
    pub attempt_count: u32,
    /// Where the transfer stands.
    pub phase: TransferPhase,
}

/// Whether a status code says that the request has succeeded.
pub open spec fn is_success(status: u16) -> bool {
    200 <= status <= 299
}

/// The status code of an answer that holds the range that was asked for.
pub const PARTIAL_CONTENT: u16 = 206;

/// The range to ask for when `on_disk` bytes are there already: none where nothing is there
/// and the length is unknown, else from `on_disk` on, up to the length where it is known.
pub open spec fn range_for(expected: Option<u64>, on_disk: u64) -> Option<ByteRange> {
    match expected {
        Some(total) => Some(ByteRange { start: on_disk, end: Some(total) }),
        None => if on_disk == 0 {
            None
        } else {
            Some(ByteRange { start: on_disk, end: None })
        },
    }
}

impl TransferState {
    /// What holds of every state that a transfer can reach.
    pub open spec fn wf(&self) -> bool {
        &&& self.attempt_count <= self.budget.max_attempts
        &&& self.bytes_expected matches Some(total) ==> self.bytes_on_disk <= total
        &&& self.phase matches TransferPhase::Failed { error: TransferError::RetriesExhausted { attempts } }
            ==> attempts == self.budget.max_attempts && self.attempt_count == attempts
        &&& !(self.phase is Failed) ==> self.attempt_count < self.budget.max_attempts
        &&& self.phase is Complete ==> (self.bytes_expected matches Some(total)
            ==> self.bytes_on_disk == total)
    }

    /// Whether the transfer has come to its end, in success or in failure.
    pub open spec fn is_finished(&self) -> bool {
        self.phase is Complete || self.phase is Failed
    }

    /// Whether the staging file is open for writing.
    pub open spec fn holds_writer(&self) -> bool {
        self.phase is Copying
    }

    /// The state in which a transfer begins.
    pub open spec fn spec_begin(budget: RetryBudget, bytes_expected: Option<u64>) -> TransferState {
        TransferState {
            budget,
            bytes_expected,
            bytes_on_disk: 0,
            attempt_count: 0,
            phase: if budget.max_attempts == 0 {
                TransferPhase::Failed { error: TransferError::RetriesExhausted { attempts: 0 } }
            } else {
                TransferPhase::Measuring
            },
        }
    }

    /// The state after the staging file was measured; a file that is missing holds no
    /// byte. Where the length of the resource is known, a file of exactly that length is
    /// the whole resource and the transfer is complete without any request; a longer file
    /// cannot be part of the resource and is removed, after which the attempt goes on from
    /// nothing. In every other case the missing bytes are asked for.
    pub open spec fn measured(self, length: Option<u64>) -> TransferState {
        let on_disk = match length {
            Some(n) => n,
            None => 0,
        };
        match self.bytes_expected {
            Some(total) => if on_disk > total {
                TransferState {
                    bytes_on_disk: 0,
                    phase: TransferPhase::Discarding { retry: false },
                    ..self
                }
            } else if on_disk == total {
                TransferState { bytes_on_disk: on_disk, phase: TransferPhase::Complete, ..self }
            } else {
                TransferState { bytes_on_disk: on_disk, phase: TransferPhase::Requesting, ..self }
            },
            None => TransferState {
                bytes_on_disk: on_disk,
                phase: TransferPhase::Requesting,
                ..self
            },
        }
    }

    /// The state after an attempt has failed: the failure is counted, and the transfer
    /// rests before the next attempt, or is given up where the budget is spent.
    pub open spec fn failed_attempt(self) -> TransferState {
        let failures = self.attempt_count + 1;
        if failures >= self.budget.max_attempts {
            TransferState {
                attempt_count: self.budget.max_attempts,
                phase: TransferPhase::Failed {
                    error: TransferError::RetriesExhausted { attempts: self.budget.max_attempts },
                },
                ..self
            }
        } else {
            TransferState {
                attempt_count: failures as u32,
                phase: TransferPhase::Pausing,
                ..self
            }
        }
    }

    /// Whether an answer of success cannot be trusted to begin where it was asked to: the
    /// length of the resource is unknown, a range beyond the first byte was asked for, and
    /// the answer is not a partial one. Where the length is known nothing needs to be
    /// trusted: a server that sends more than was asked for is found out by the length of
    /// the file, which then outgrows the resource.
    pub open spec fn doubts(self, status: u16) -> bool {
        self.bytes_expected is None && self.bytes_on_disk > 0 && status != PARTIAL_CONTENT
    }

    /// The state after the server has answered with success. The body is written behind
    /// what the staging file holds, whatever the status, where the length of the resource
    /// is known or nothing is on disk. An answer that cannot be trusted is not written:
    /// the staging file is removed and the resource is asked for from its first byte,
    /// with no attempt counted.
    pub open spec fn accepted(self, status: u16) -> TransferState {
        if self.doubts(status) {
            TransferState {
                bytes_on_disk: 0,
                phase: TransferPhase::Discarding { retry: false },
                ..self
            }
        } else {
            TransferState { phase: TransferPhase::Opening, ..self }
        }
    }

    /// The state after a result that is not complete: the staging file is to be removed
    /// and nothing of it counts any longer.
    pub open spec fn abandoned(self) -> TransferState {
        TransferState { bytes_on_disk: 0, phase: TransferPhase::Discarding { retry: true }, ..self }
    }

    /// The state after one more chunk of `length` bytes was written. A file that grows
    /// beyond the length of the resource is abandoned at once.
    pub open spec fn advanced(self, length: u64) -> TransferState {
        let grown = self.bytes_on_disk + length;
        match self.bytes_expected {
            Some(total) => if grown > total {
                self.abandoned()
            } else {
                TransferState { bytes_on_disk: grown as u64, ..self }
            },
            None => TransferState {
                bytes_on_disk: if grown > u64::MAX {
                    u64::MAX
                } else {
                    grown as u64
                },
                ..self
            },
        }
    }

    /// Whether the copy has left the whole resource in the staging file. Where the length
    /// of the resource is known, the file must have exactly that length; where it is not,
    /// the body must have come to its natural end (`clean`).
    pub open spec fn copy_is_complete(self, clean: bool) -> bool {
        match self.bytes_expected {
            Some(total) => self.bytes_on_disk == total,
            None => clean,
        }
    }

    /// The state after the copy has ended, by the body's natural end (`clean`) or by a
    /// chunk that could not be read.
    pub open spec fn evaluated(self, clean: bool) -> TransferState {
        if self.copy_is_complete(clean) {
            TransferState { phase: TransferPhase::Complete, ..self }
        } else {
            self.abandoned()
        }
    }

    /// The state after the staging file was removed: a failed attempt is counted now; an
    /// attempt that could not use the file asks for the resource from its first byte.
    pub open spec fn discarded(self, retry: bool) -> TransferState {
        if retry {
            TransferState { bytes_on_disk: 0, ..self }.failed_attempt()
        } else {
            TransferState { bytes_on_disk: 0, phase: TransferPhase::Requesting, ..self }
        }
    }

    /// The state that follows `self` when `event` is reported. An event that the phase does
    /// not wait for changes nothing.
    pub open spec fn spec_step(self, event: TransferEvent) -> TransferState {
        match (self.phase, event) {
            (TransferPhase::Complete, _) => self,
            (TransferPhase::Failed { .. }, _) => self,
            (_, TransferEvent::StagingFault) => TransferState {
                phase: TransferPhase::Failed { error: TransferError::Filesystem },
                ..self
            },
            (TransferPhase::Measuring, TransferEvent::StagingLength { length }) => self.measured(
                length,
            ),
            (TransferPhase::Requesting, TransferEvent::Response { status }) => if is_success(
                status,
            ) {
                self.accepted(status)
            } else {
                self.failed_attempt()
            },
            (TransferPhase::Requesting, TransferEvent::RequestFailed) => self.failed_attempt(),
            (TransferPhase::Opening, TransferEvent::StagingOpened) => TransferState {
                phase: TransferPhase::Copying,
                ..self
            },
            (TransferPhase::Copying, TransferEvent::ChunkWritten { bytes }) => self.advanced(bytes),
            (TransferPhase::Copying, TransferEvent::StreamEnded) => self.evaluated(true),
            (TransferPhase::Copying, TransferEvent::ChunkFailed) => self.evaluated(false),
            (TransferPhase::Discarding { retry }, TransferEvent::StagingDiscarded) => self.discarded(
                retry,
            ),
            (TransferPhase::Pausing, TransferEvent::DelayElapsed) => TransferState {
                phase: TransferPhase::Measuring,
                ..self
            },
            _ => self,
        }
    }

    /// The outside work that the state waits for.
    pub open spec fn spec_awaited(&self) -> TransferAction {
        match self.phase {
            TransferPhase::Measuring => TransferAction::MeasureStaging,
            TransferPhase::Requesting => TransferAction::SendRequest {
                range: range_for(self.bytes_expected, self.bytes_on_disk),
            },
            TransferPhase::Opening => TransferAction::OpenStaging,
            TransferPhase::Copying => TransferAction::CopyChunk,
            TransferPhase::Discarding { .. } => TransferAction::DiscardStaging,
            TransferPhase::Pausing => TransferAction::Sleep {
                seconds: self.budget.delay_between_attempts,
            },
            TransferPhase::Complete => TransferAction::Finish,
            TransferPhase::Failed { error } => TransferAction::Fail { error },
        }
    }

    /// What a caller may show of the transfer.
    pub open spec fn spec_progress(&self) -> Progress {
        Progress {
            bytes: self.bytes_on_disk,
            total: self.bytes_expected,
            attempt: if self.attempt_count < self.budget.max_attempts {
                (self.attempt_count + 1) as u32
            } else {
                self.attempt_count
            },
        }
    }

    /// Begins a transfer of a resource whose length is `bytes_expected`, where the server
    /// has told it. With a budget of no attempts the transfer has failed before it begins.
    pub fn begin(budget: RetryBudget, bytes_expected: Option<u64>) -> (state: TransferState)
        ensures
            state == Self::spec_begin(budget, bytes_expected),
            state.wf(),
    {
        let phase = if budget.max_attempts == 0 {
            TransferPhase::Failed { error: TransferError::RetriesExhausted { attempts: 0 } }
        } else {
            TransferPhase::Measuring
        };
        TransferState { budget, bytes_expected, bytes_on_disk: 0, attempt_count: 0, phase }
    }

    fn count_failure(self) -> (next: TransferState)
        ensures
            next == self.failed_attempt(),
    {
        let spent = TransferState {
            attempt_count: self.budget.max_attempts,
            phase: TransferPhase::Failed {
                error: TransferError::RetriesExhausted { attempts: self.budget.max_attempts },
            },
            ..self
        };
        match self.attempt_count.checked_add(1) {
            Some(failures) => if failures >= self.budget.max_attempts {
                spent
            } else {
                TransferState { attempt_count: failures, phase: TransferPhase::Pausing, ..self }
            },
            None => spent,
        }
    }

    fn abandon(self) -> (next: TransferState)
        ensures
            next == self.abandoned(),
    {
        TransferState { bytes_on_disk: 0, phase: TransferPhase::Discarding { retry: true }, ..self }
    }

    /// The state that follows when `event` is reported.
    pub fn step(self, event: TransferEvent) -> (next: TransferState)
        ensures
            next == self.spec_step(event),
            self.wf() ==> next.wf(),
            next.budget == self.budget,
            next.bytes_expected == self.bytes_expected,
    {
        match (self.phase, event) {
            (TransferPhase::Complete, _) => self,
            (TransferPhase::Failed { .. }, _) => self,
            (_, TransferEvent::StagingFault) => TransferState {
                phase: TransferPhase::Failed { error: TransferError::Filesystem },
                ..self
            },
            (TransferPhase::Measuring, TransferEvent::StagingLength { length }) => {
                let on_disk = match length {
                    Some(n) => n,
                    None => 0,
                };
                match self.bytes_expected {
                    Some(total) => if on_disk > total {
                        TransferState {
                            bytes_on_disk: 0,
                            phase: TransferPhase::Discarding { retry: false },
                            ..self
                        }
                    } else if on_disk == total {
                        TransferState {
                            bytes_on_disk: on_disk,
                            phase: TransferPhase::Complete,
                            ..self
                        }
                    } else {
                        TransferState {
                            bytes_on_disk: on_disk,
                            phase: TransferPhase::Requesting,
                            ..self
                        }
                    },
                    None => TransferState {
                        bytes_on_disk: on_disk,
                        phase: TransferPhase::Requesting,
                        ..self
                    },
                }
            },
            (TransferPhase::Requesting, TransferEvent::Response { status }) => {
                if 200 <= status && status <= 299 {
                    if self.bytes_expected.is_none() && self.bytes_on_disk > 0 && status
                        != PARTIAL_CONTENT {
                        TransferState {
                            bytes_on_disk: 0,
                            phase: TransferPhase::Discarding { retry: false },
                            ..self
                        }
                    } else {
                        TransferState { phase: TransferPhase::Opening, ..self }
                    }
                } else {
                    self.count_failure()
                }
            },
            (TransferPhase::Requesting, TransferEvent::RequestFailed) => self.count_failure(),
            (TransferPhase::Opening, TransferEvent::StagingOpened) => TransferState {
                phase: TransferPhase::Copying,
                ..self
            },
            (TransferPhase::Copying, TransferEvent::ChunkWritten { bytes }) => {
                match self.bytes_expected {
                    Some(total) => match self.bytes_on_disk.checked_add(bytes) {
                        Some(grown) => if grown > total {
                            self.abandon()
                        } else {
                            TransferState { bytes_on_disk: grown, ..self }
                        },
                        None => self.abandon(),
                    },
                    None => TransferState {
                        bytes_on_disk: self.bytes_on_disk.saturating_add(bytes),
                        ..self
                    },
                }
            },
            (TransferPhase::Copying, TransferEvent::StreamEnded) => self.evaluate(true),
            (TransferPhase::Copying, TransferEvent::ChunkFailed) => self.evaluate(false),
            (TransferPhase::Discarding { retry }, TransferEvent::StagingDiscarded) => {
                if retry {
                    TransferState { bytes_on_disk: 0, ..self }.count_failure()
                } else {
                    TransferState { bytes_on_disk: 0, phase: TransferPhase::Requesting, ..self }
                }
            },
            (TransferPhase::Pausing, TransferEvent::DelayElapsed) => TransferState {
                phase: TransferPhase::Measuring,
                ..self
            },
            _ => self,
        }
    }

    fn evaluate(self, clean: bool) -> (next: TransferState)
        ensures
            next == self.evaluated(clean),
    {
        let complete = match self.bytes_expected {
            Some(total) => self.bytes_on_disk == total,
            None => clean,
        };
        if complete {
            TransferState { phase: TransferPhase::Complete, ..self }
        } else {
            self.abandon()
        }
    }

    /// The outside work that the state waits for.
    pub fn awaited(&self) -> (action: TransferAction)
        ensures
            action == self.spec_awaited(),
    {
        match self.phase {
            TransferPhase::Measuring => TransferAction::MeasureStaging,
            TransferPhase::Requesting => {
                let range = match self.bytes_expected {
                    Some(total) => Some(ByteRange { start: self.bytes_on_disk, end: Some(total) }),
                    None => if self.bytes_on_disk == 0 {
                        None
                    } else {
                        Some(ByteRange { start: self.bytes_on_disk, end: None })
                    },
                };
                TransferAction::SendRequest { range }
            },
            TransferPhase::Opening => TransferAction::OpenStaging,
            TransferPhase::Copying => TransferAction::CopyChunk,
            TransferPhase::Discarding { .. } => TransferAction::DiscardStaging,
            TransferPhase::Pausing => TransferAction::Sleep {
                seconds: self.budget.delay_between_attempts,
            },
            TransferPhase::Complete => TransferAction::Finish,
            TransferPhase::Failed { error } => TransferAction::Fail { error },
        }
    }

    /// What a caller may show of the transfer.
    pub fn progress(&self) -> (shown: Progress)
        ensures
            shown == self.spec_progress(),
    {
        let attempt = if self.attempt_count < self.budget.max_attempts {
            self.attempt_count + 1
        } else {
            self.attempt_count
        };
        Progress { bytes: self.bytes_on_disk, total: self.bytes_expected, attempt }
    }
}

} // verus!
