use ps2_redump_downloader::transfer::{
    transfer_timeouts, ByteRange, Progress, RetryBudget, Timeouts, TransferAction, TransferError,
    TransferEvent, TransferPhase, TransferState,
};

/// How the server of a test behaves, one entry for each request in turn; the last entry
/// holds for every later request.
#[derive(Clone, Copy)]
enum Answer {
    /// Serves the range that was asked for, with status 206, or the whole resource with
    /// status 200 where no range was asked for.
    Honest,
    /// Serves the range that was asked for, with this status.
    HonestWith(u16),
    /// Serves like `Honest`, but the stream breaks after so many bytes.
    BreaksAfter(usize),
    /// Sends the whole resource with status 200, whatever was asked for.
    IgnoresRange,
    /// Sends the whole resource whatever was asked for, and calls it partial.
    IgnoresRangeSilently,
    /// Answers with this status and no body.
    Status(u16),
    /// Does not answer at all.
    Unreachable,
}

struct World {
    resource: Vec<u8>,
    staging: Option<Vec<u8>>,
    answers: Vec<Answer>,
    chunk: usize,
    requests: Vec<Option<ByteRange>>,
    sleeps: Vec<u64>,
    trace: Vec<TransferAction>,
    body: Vec<u8>,
    breaks: bool,
    writer_open: bool,
}

impl World {
    fn new(resource: Vec<u8>, staging: Option<Vec<u8>>, answers: Vec<Answer>) -> World {
        World {
            resource,
            staging,
            answers,
            chunk: 7,
            requests: Vec::new(),
            sleeps: Vec::new(),
            trace: Vec::new(),
            body: Vec::new(),
            breaks: false,
            writer_open: false,
        }
    }

    fn answer(&mut self, range: Option<ByteRange>) -> TransferEvent {
        let turn = self.requests.len();
        self.requests.push(range);
        let answer = self.answers[turn.min(self.answers.len() - 1)];
        let start = range.map(|r| r.start as usize).unwrap_or(0).min(self.resource.len());
        let partial = if range.is_some() { 206 } else { 200 };
        self.breaks = false;
        match answer {
            Answer::Honest => {
                self.body = self.resource[start..].to_vec();
                TransferEvent::Response { status: partial }
            }
            Answer::HonestWith(status) => {
                self.body = self.resource[start..].to_vec();
                TransferEvent::Response { status }
            }
            Answer::BreaksAfter(n) => {
                let rest = &self.resource[start..];
                self.body = rest[..n.min(rest.len())].to_vec();
                self.breaks = true;
                TransferEvent::Response { status: partial }
            }
            Answer::IgnoresRange => {
                self.body = self.resource.clone();
                TransferEvent::Response { status: 200 }
            }
            Answer::IgnoresRangeSilently => {
                self.body = self.resource.clone();
                TransferEvent::Response { status: 206 }
            }
            Answer::Status(status) => {
                self.body = Vec::new();
                TransferEvent::Response { status }
            }
            Answer::Unreachable => TransferEvent::RequestFailed,
        }
    }

    fn perform(&mut self, action: TransferAction) -> Option<TransferEvent> {
        self.trace.push(action);
        match action {
            TransferAction::MeasureStaging => Some(TransferEvent::StagingLength {
                length: self.staging.as_ref().map(|file| file.len() as u64),
            }),
            TransferAction::SendRequest { range } => Some(self.answer(range)),
            TransferAction::OpenStaging => {
                assert!(!self.writer_open);
                self.staging.get_or_insert_with(Vec::new);
                self.writer_open = true;
                Some(TransferEvent::StagingOpened)
            }
            TransferAction::CopyChunk => {
                assert!(self.writer_open);
                if self.body.is_empty() {
                    if self.breaks {
                        Some(TransferEvent::ChunkFailed)
                    } else {
                        Some(TransferEvent::StreamEnded)
                    }
                } else {
                    let n = self.chunk.min(self.body.len());
                    let chunk: Vec<u8> = self.body.drain(..n).collect();
                    self.staging.as_mut().unwrap().extend_from_slice(&chunk);
                    Some(TransferEvent::ChunkWritten { bytes: n as u64 })
                }
            }
            TransferAction::DiscardStaging => {
                self.writer_open = false;
                self.staging = None;
                Some(TransferEvent::StagingDiscarded)
            }
            TransferAction::Sleep { seconds } => {
                self.sleeps.push(seconds);
                Some(TransferEvent::DelayElapsed)
            }
            TransferAction::Finish | TransferAction::Fail { .. } => {
                self.writer_open = false;
                None
            }
        }
    }

    fn run(&mut self, mut state: TransferState) -> TransferState {
        for _ in 0..10_000 {
            match self.perform(state.awaited()) {
                Some(event) => state = state.step(event),
                None => return state,
            }
        }
        panic!("the transfer does not come to an end");
    }
}

fn resource(len: usize) -> Vec<u8> {
    (0..len).map(|i| (i * 31 % 251) as u8).collect()
}

fn budget(max_attempts: u32, delay: u64) -> RetryBudget {
    RetryBudget { max_attempts, delay_between_attempts: delay }
}

fn copying(expected: Option<u64>, on_disk: u64) -> TransferState {
    TransferState {
        budget: budget(3, 5),
        bytes_expected: expected,
        bytes_on_disk: on_disk,
        attempt_count: 0,
        phase: TransferPhase::Copying,
    }
}

#[test]
fn resume_fetches_only_the_missing_bytes() {
    let whole = resource(100);
    let mut world = World::new(whole.clone(), Some(whole[..40].to_vec()), vec![Answer::Honest]);
    let end = world.run(TransferState::begin(budget(3, 5), Some(100)));
    assert_eq!(end.phase, TransferPhase::Complete);
    assert_eq!(end.bytes_on_disk, 100);
    assert_eq!(end.attempt_count, 0);
    assert_eq!(world.requests, vec![Some(ByteRange { start: 40, end: Some(100) })]);
    assert_eq!(world.staging, Some(whole));
    assert!(world.sleeps.is_empty());
    assert!(world.trace.contains(&TransferAction::OpenStaging));
}

#[test]
fn resume_appends_whatever_status_of_success_the_server_gives() {
    for status in [200u16, 206, 204, 299] {
        let whole = resource(100);
        let old = whole[..40].to_vec();
        let mut world = World::new(whole.clone(), Some(old.clone()), vec![Answer::HonestWith(status)]);
        let end = world.run(TransferState::begin(budget(3, 5), Some(100)));
        assert_eq!(end.phase, TransferPhase::Complete, "for status {}", status);
        assert_eq!(end.attempt_count, 0);
        assert_eq!(world.requests, vec![Some(ByteRange { start: 40, end: Some(100) })]);
        let staging = world.staging.clone().unwrap();
        assert_eq!(staging.len(), 100);
        assert_eq!(&staging[..40], &old[..]);
        assert_eq!(&staging[40..], &whole[40..]);
        assert!(!world.trace.contains(&TransferAction::DiscardStaging));
    }
}

#[test]
fn a_resumed_transfer_sends_one_request_and_none_from_the_first_byte() {
    let whole = resource(100);
    let mut world = World::new(whole.clone(), Some(whole[..40].to_vec()), vec![Answer::Honest]);
    world.run(TransferState::begin(budget(3, 5), Some(100)));
    let requests: Vec<&TransferAction> = world
        .trace
        .iter()
        .filter(|action| matches!(action, TransferAction::SendRequest { .. }))
        .collect();
    assert_eq!(requests.len(), 1);
    assert_eq!(
        requests[0],
        &TransferAction::SendRequest { range: Some(ByteRange { start: 40, end: Some(100) }) }
    );
    assert_eq!(ByteRange { start: 40, end: Some(100) }.header_value(), "bytes=40-100");
}

#[test]
fn a_fresh_transfer_starts_at_the_first_byte() {
    let whole = resource(64);
    let mut world = World::new(whole.clone(), None, vec![Answer::Honest]);
    let end = world.run(TransferState::begin(budget(3, 5), Some(64)));
    assert_eq!(end.phase, TransferPhase::Complete);
    assert_eq!(world.requests, vec![Some(ByteRange { start: 0, end: Some(64) })]);
    assert_eq!(world.staging, Some(whole));
}

#[test]
fn a_complete_staging_file_needs_no_request() {
    let whole = resource(50);
    let mut world = World::new(whole.clone(), Some(whole.clone()), vec![Answer::Status(500)]);
    let end = world.run(TransferState::begin(budget(3, 5), Some(50)));
    assert_eq!(end.phase, TransferPhase::Complete);
    assert!(world.requests.is_empty());
    assert_eq!(world.trace, vec![TransferAction::MeasureStaging, TransferAction::Finish]);
    assert_eq!(world.staging, Some(whole));
}

#[test]
fn retries_are_exhausted_after_exactly_the_budget() {
    let mut world = World::new(resource(10), None, vec![Answer::Status(500)]);
    let end = world.run(TransferState::begin(budget(4, 9), Some(10)));
    assert_eq!(
        end.phase,
        TransferPhase::Failed { error: TransferError::RetriesExhausted { attempts: 4 } }
    );
    assert_eq!(end.attempt_count, 4);
    assert_eq!(world.requests.len(), 4);
    assert_eq!(world.sleeps, vec![9, 9, 9]);
    assert_eq!(world.staging, None);
    assert_eq!(
        world.trace.last(),
        Some(&TransferAction::Fail { error: TransferError::RetriesExhausted { attempts: 4 } })
    );
}

#[test]
fn each_refused_attempt_is_followed_by_the_delay() {
    let mut world = World::new(resource(10), None, vec![Answer::Status(500)]);
    world.run(TransferState::begin(budget(2, 3), None));
    assert_eq!(
        world.trace,
        vec![
            TransferAction::MeasureStaging,
            TransferAction::SendRequest { range: None },
            TransferAction::Sleep { seconds: 3 },
            TransferAction::MeasureStaging,
            TransferAction::SendRequest { range: None },
            TransferAction::Fail { error: TransferError::RetriesExhausted { attempts: 2 } },
        ]
    );
}

#[test]
fn a_single_attempt_budget_fails_without_resting() {
    let mut world = World::new(resource(10), None, vec![Answer::Unreachable]);
    let end = world.run(TransferState::begin(budget(1, 60), Some(10)));
    assert_eq!(
        end.phase,
        TransferPhase::Failed { error: TransferError::RetriesExhausted { attempts: 1 } }
    );
    assert_eq!(world.requests.len(), 1);
    assert!(world.sleeps.is_empty());
}

#[test]
fn a_refusal_keeps_what_is_on_disk() {
    let whole = resource(30);
    let mut world =
        World::new(whole.clone(), Some(whole[..12].to_vec()), vec![Answer::Status(503), Answer::Honest]);
    let end = world.run(TransferState::begin(budget(3, 1), Some(30)));
    assert_eq!(end.phase, TransferPhase::Complete);
    assert_eq!(end.attempt_count, 1);
    assert_eq!(
        world.requests,
        vec![Some(ByteRange { start: 12, end: Some(30) }), Some(ByteRange { start: 12, end: Some(30) })]
    );
    assert_eq!(world.staging, Some(whole));
    assert!(!world.trace.contains(&TransferAction::DiscardStaging));
}

#[test]
fn a_broken_stream_discards_the_staging_file() {
    let whole = resource(90);
    let mut world = World::new(
        whole.clone(),
        Some(whole[..20].to_vec()),
        vec![Answer::BreaksAfter(33), Answer::Honest],
    );
    let end = world.run(TransferState::begin(budget(3, 2), Some(90)));
    assert_eq!(end.phase, TransferPhase::Complete);
    assert_eq!(end.attempt_count, 1);
    assert_eq!(
        world.requests,
        vec![Some(ByteRange { start: 20, end: Some(90) }), Some(ByteRange { start: 0, end: Some(90) })]
    );
    assert_eq!(world.sleeps, vec![2]);
    assert_eq!(world.staging, Some(whole));
    let discard = world.trace.iter().position(|a| *a == TransferAction::DiscardStaging).unwrap();
    let second_request = world
        .trace
        .iter()
        .position(|a| *a == TransferAction::SendRequest { range: Some(ByteRange { start: 0, end: Some(90) }) })
        .unwrap();
    assert!(discard < second_request);
    assert_eq!(world.trace[discard + 1], TransferAction::Sleep { seconds: 2 });
    assert_eq!(world.trace[discard + 2], TransferAction::MeasureStaging);
}

#[test]
fn a_broken_stream_resets_the_length_that_the_next_attempt_measures() {
    let state = copying(Some(90), 53);
    let broken = state.step(TransferEvent::ChunkFailed);
    assert_eq!(broken.awaited(), TransferAction::DiscardStaging);
    assert_eq!(broken.bytes_on_disk, 0);
    let removed = broken.step(TransferEvent::StagingDiscarded);
    assert_eq!(removed.attempt_count, 1);
    assert_eq!(removed.awaited(), TransferAction::Sleep { seconds: 5 });
    let rested = removed.step(TransferEvent::DelayElapsed);
    assert_eq!(rested.awaited(), TransferAction::MeasureStaging);
    let measured = rested.step(TransferEvent::StagingLength { length: None });
    assert_eq!(measured.bytes_on_disk, 0);
    assert_eq!(
        measured.awaited(),
        TransferAction::SendRequest { range: Some(ByteRange { start: 0, end: Some(90) }) }
    );
}

#[test]
fn a_broken_stream_that_left_everything_is_complete() {
    let state = copying(Some(90), 90);
    let end = state.step(TransferEvent::ChunkFailed);
    assert_eq!(end.phase, TransferPhase::Complete);
    assert_eq!(end.attempt_count, 0);
}

#[test]
fn a_broken_stream_of_unknown_length_is_never_complete() {
    let whole = resource(40);
    let mut world = World::new(whole.clone(), None, vec![Answer::BreaksAfter(40), Answer::Honest]);
    let end = world.run(TransferState::begin(budget(3, 1), None));
    assert_eq!(end.phase, TransferPhase::Complete);
    assert_eq!(end.attempt_count, 1);
    assert_eq!(world.requests, vec![None, None]);
    assert_eq!(world.staging, Some(whole));
}

#[test]
fn an_unknown_size_completes_at_the_end_of_the_stream() {
    let whole = resource(75);
    let mut world = World::new(whole.clone(), None, vec![Answer::Honest]);
    let end = world.run(TransferState::begin(budget(3, 5), None));
    assert_eq!(end.phase, TransferPhase::Complete);
    assert_eq!(end.attempt_count, 0);
    assert_eq!(end.bytes_on_disk, 75);
    assert_eq!(world.requests, vec![None]);
    assert!(world.sleeps.is_empty());
    assert_eq!(world.staging, Some(whole));
}

#[test]
fn an_unknown_size_resumes_from_what_is_on_disk() {
    let whole = resource(75);
    let mut world = World::new(whole.clone(), Some(whole[..10].to_vec()), vec![Answer::Honest]);
    let end = world.run(TransferState::begin(budget(3, 5), None));
    assert_eq!(end.phase, TransferPhase::Complete);
    assert_eq!(world.requests, vec![Some(ByteRange { start: 10, end: None })]);
    assert_eq!(world.staging, Some(whole));
}

#[test]
fn an_ignored_range_of_unknown_size_starts_over_without_writing() {
    let whole = resource(60);
    let mut world = World::new(whole.clone(), Some(whole[..25].to_vec()), vec![Answer::IgnoresRange]);
    let end = world.run(TransferState::begin(budget(3, 5), None));
    assert_eq!(end.phase, TransferPhase::Complete);
    assert_eq!(end.attempt_count, 0);
    assert_eq!(world.requests, vec![Some(ByteRange { start: 25, end: None }), None]);
    assert_eq!(
        &world.trace[..4],
        &[
            TransferAction::MeasureStaging,
            TransferAction::SendRequest { range: Some(ByteRange { start: 25, end: None }) },
            TransferAction::DiscardStaging,
            TransferAction::SendRequest { range: None },
        ]
    );
    assert!(world.sleeps.is_empty());
    assert_eq!(world.staging, Some(whole));
}

#[test]
fn an_ignored_range_is_found_out_by_the_length_of_the_file() {
    let whole = resource(60);
    let mut world = World::new(whole.clone(), Some(whole[..25].to_vec()), vec![Answer::IgnoresRange]);
    let end = world.run(TransferState::begin(budget(3, 5), Some(60)));
    assert_eq!(end.phase, TransferPhase::Complete);
    assert_eq!(end.attempt_count, 1);
    assert!(world.trace.contains(&TransferAction::DiscardStaging));
    assert_eq!(
        world.requests,
        vec![Some(ByteRange { start: 25, end: Some(60) }), Some(ByteRange { start: 0, end: Some(60) })]
    );
    assert_eq!(world.staging, Some(whole));
}

#[test]
fn a_file_that_outgrows_the_resource_is_discarded() {
    let whole = resource(60);
    let mut world = World::new(
        whole.clone(),
        Some(whole[..25].to_vec()),
        vec![Answer::IgnoresRangeSilently, Answer::Honest],
    );
    let end = world.run(TransferState::begin(budget(3, 5), Some(60)));
    assert_eq!(end.phase, TransferPhase::Complete);
    assert_eq!(end.attempt_count, 1);
    assert_eq!(world.staging, Some(whole));
    assert!(world.trace.contains(&TransferAction::DiscardStaging));
}

#[test]
fn a_staging_file_longer_than_the_resource_is_discarded_at_once() {
    let whole = resource(20);
    let mut world = World::new(whole.clone(), Some(resource(35)), vec![Answer::Honest]);
    let end = world.run(TransferState::begin(budget(3, 5), Some(20)));
    assert_eq!(end.phase, TransferPhase::Complete);
    assert_eq!(end.attempt_count, 0);
    assert_eq!(
        &world.trace[..3],
        &[
            TransferAction::MeasureStaging,
            TransferAction::DiscardStaging,
            TransferAction::SendRequest { range: Some(ByteRange { start: 0, end: Some(20) }) },
        ]
    );
    assert_eq!(world.staging, Some(whole));
}

#[test]
fn a_short_stream_is_retried() {
    let whole = resource(50);
    let mut world = World::new(whole.clone(), None, vec![Answer::Status(200), Answer::Honest]);
    let end = world.run(TransferState::begin(budget(2, 4), Some(50)));
    assert_eq!(end.phase, TransferPhase::Complete);
    assert_eq!(end.attempt_count, 1);
    assert_eq!(world.sleeps, vec![4]);
    assert_eq!(world.staging, Some(whole));
}

#[test]
fn a_budget_of_no_attempts_fails_before_it_begins() {
    let state = TransferState::begin(budget(0, 5), Some(10));
    assert_eq!(
        state.phase,
        TransferPhase::Failed { error: TransferError::RetriesExhausted { attempts: 0 } }
    );
    assert_eq!(
        state.awaited(),
        TransferAction::Fail { error: TransferError::RetriesExhausted { attempts: 0 } }
    );
}

#[test]
fn a_fault_of_the_staging_file_is_not_retried() {
    let begun = TransferState::begin(budget(5, 5), Some(10));
    let failed = begun.step(TransferEvent::StagingFault);
    assert_eq!(failed.phase, TransferPhase::Failed { error: TransferError::Filesystem });
    assert_eq!(failed.attempt_count, 0);
    let during = copying(None, 12).step(TransferEvent::StagingFault);
    assert_eq!(during.awaited(), TransferAction::Fail { error: TransferError::Filesystem });
}

#[test]
fn events_that_are_not_waited_for_change_nothing() {
    let begun = TransferState::begin(budget(5, 5), Some(10));
    assert_eq!(begun.step(TransferEvent::StreamEnded), begun);
    assert_eq!(begun.step(TransferEvent::ChunkWritten { bytes: 4 }), begun);
    assert_eq!(begun.step(TransferEvent::Response { status: 200 }), begun);
    let done = begun.step(TransferEvent::StagingLength { length: Some(10) });
    assert_eq!(done.phase, TransferPhase::Complete);
    assert_eq!(done.step(TransferEvent::StagingFault), done);
    assert_eq!(done.step(TransferEvent::DelayElapsed), done);
}

#[test]
fn only_success_codes_open_the_staging_file() {
    for status in [100u16, 199, 300, 304, 404, 416, 500, 599] {
        let asked = TransferState::begin(budget(3, 5), None)
            .step(TransferEvent::StagingLength { length: None });
        let next = asked.step(TransferEvent::Response { status });
        assert_eq!(next.phase, TransferPhase::Pausing, "for status {}", status);
        assert_eq!(next.attempt_count, 1);
    }
    for status in [200u16, 204, 206, 299] {
        let asked = TransferState::begin(budget(3, 5), None)
            .step(TransferEvent::StagingLength { length: None });
        let next = asked.step(TransferEvent::Response { status });
        assert_eq!(next.phase, TransferPhase::Opening);
        assert_eq!(next.awaited(), TransferAction::OpenStaging);
    }
}

#[test]
fn progress_counts_bytes_and_attempts() {
    let state = copying(Some(100), 40);
    assert_eq!(state.progress(), Progress { bytes: 40, total: Some(100), attempt: 1 });
    let next = state.step(TransferEvent::ChunkWritten { bytes: 25 });
    assert_eq!(next.progress(), Progress { bytes: 65, total: Some(100), attempt: 1 });
    let unknown = copying(None, 0).step(TransferEvent::ChunkWritten { bytes: 9 });
    assert_eq!(unknown.progress(), Progress { bytes: 9, total: None, attempt: 1 });
    let second = TransferState { attempt_count: 1, ..copying(Some(100), 0) };
    assert_eq!(second.progress().attempt, 2);
}

#[test]
fn the_byte_count_of_an_unknown_size_stops_at_the_greatest_number() {
    let state = copying(None, u64::MAX - 3);
    let next = state.step(TransferEvent::ChunkWritten { bytes: 10 });
    assert_eq!(next.bytes_on_disk, u64::MAX);
    assert_eq!(next.phase, TransferPhase::Copying);
}

#[test]
fn range_headers_are_written_in_decimal() {
    assert_eq!(ByteRange { start: 0, end: Some(1) }.header_value(), "bytes=0-1");
    assert_eq!(ByteRange { start: 40, end: Some(100) }.header_value(), "bytes=40-100");
    assert_eq!(ByteRange { start: 1234567, end: None }.header_value(), "bytes=1234567-");
    assert_eq!(
        ByteRange { start: u64::MAX, end: Some(u64::MAX) }.header_value(),
        "bytes=18446744073709551615-18446744073709551615"
    );
}

#[test]
fn transfer_timeouts_keep_the_connection_time_below_the_request_time() {
    assert_eq!(transfer_timeouts(None), Timeouts { request: 600, connect: 30 });
    assert_eq!(transfer_timeouts(Some(900)), Timeouts { request: 900, connect: 30 });
    assert_eq!(transfer_timeouts(Some(30)), Timeouts { request: 30, connect: 30 });
    assert_eq!(transfer_timeouts(Some(12)), Timeouts { request: 12, connect: 12 });
    assert_eq!(transfer_timeouts(Some(0)), Timeouts { request: 0, connect: 0 });
}
