//! What holds of every transfer.

use crate::transfer::{
    is_success, range_for, ByteRange, RetryBudget, TransferAction, TransferError, TransferEvent,
    TransferPhase, TransferState, PARTIAL_CONTENT,
};
use vstd::prelude::*;

verus! {

/// The sum of the lengths of some chunks.
pub open spec fn total_length(lengths: Seq<u64>) -> nat
    decreases lengths.len(),
{
    if lengths.len() == 0 {
        0
    } else {
        total_length(lengths.drop_last()) + lengths.last() as nat
    }
}

/// The state after chunks of the given lengths were written, one after the other.
pub open spec fn after_chunks(state: TransferState, lengths: Seq<u64>) -> TransferState
    decreases lengths.len(),
{
    if lengths.len() == 0 {
        state
    } else {
        after_chunks(state, lengths.drop_last()).spec_step(
            TransferEvent::ChunkWritten { bytes: lengths.last() },
        )
    }
}

/// The lengths of some chunks.
pub open spec fn chunk_lengths(chunks: Seq<Seq<u8>>) -> Seq<u64> {
    Seq::new(chunks.len(), |i: int| chunks[i].len() as u64)
}

/// What the staging file holds after chunks were written behind what it held before, one
/// after the other: this is what the work `CopyChunk` does to the file.
pub open spec fn appended(before: Seq<u8>, chunks: Seq<Seq<u8>>) -> Seq<u8>
    decreases chunks.len(),
{
    if chunks.len() == 0 {
        before
    } else {
        appended(before, chunks.drop_last()) + chunks.last()
    }
}

/// Writing chunks behind a file leaves the file as it was, followed by the chunks; and
/// the file grows by the sum of their lengths.
pub proof fn lemma_appended(before: Seq<u8>, chunks: Seq<Seq<u8>>)
    requires
        forall|i: int| 0 <= i < chunks.len() ==> (#[trigger] chunks[i]).len() <= u64::MAX,
    ensures
        appended(before, chunks) == before + appended(Seq::empty(), chunks),
        appended(before, chunks).len() == before.len() + total_length(chunk_lengths(chunks)),
    decreases chunks.len(),
{
    if chunks.len() == 0 {
        assert(before + Seq::<u8>::empty() =~= before);
        assert(chunk_lengths(chunks) =~= Seq::<u64>::empty());
    } else {
        lemma_appended(before, chunks.drop_last());
        assert(chunk_lengths(chunks).drop_last() =~= chunk_lengths(chunks.drop_last()));
        assert((before + appended(Seq::empty(), chunks.drop_last())) + chunks.last() =~= before
            + (appended(Seq::empty(), chunks.drop_last()) + chunks.last()));
    }
}

/// While a copy stays within the length of the resource, every chunk adds its length to
/// the count of bytes on disk and nothing else changes.
pub proof fn lemma_chunks_accumulate(state: TransferState, lengths: Seq<u64>)
    requires
        state.phase is Copying,
        state.bytes_expected matches Some(total) ==> state.bytes_on_disk + total_length(lengths)
            <= total,
        state.bytes_on_disk + total_length(lengths) <= u64::MAX,
    ensures
        after_chunks(state, lengths) == (TransferState {
            bytes_on_disk: (state.bytes_on_disk + total_length(lengths)) as u64,
            ..state
        }),
    decreases lengths.len(),
{
    if lengths.len() > 0 {
        lemma_chunks_accumulate(state, lengths.drop_last());
    }
}

/// The state of an attempt that resumes a transfer, once the staging file is open: the
/// file was found with `held` bytes, and the server has answered the request with
/// `status`.
pub open spec fn resumed_open(budget: RetryBudget, total: u64, held: u64, status: u16) -> TransferState {
    TransferState::spec_begin(budget, Some(total)).spec_step(
        TransferEvent::StagingLength { length: Some(held) },
    ).spec_step(TransferEvent::Response { status }).spec_step(TransferEvent::StagingOpened)
}

/// The state at the end of an attempt that resumes a transfer: after the staging file was
/// opened, the body has come in chunks of the given lengths and has ended.
pub open spec fn resumed(
    budget: RetryBudget,
    total: u64,
    held: u64,
    status: u16,
    lengths: Seq<u64>,
) -> TransferState {
    after_chunks(resumed_open(budget, total, held, status), lengths).spec_step(
        TransferEvent::StreamEnded,
    )
}

/// Resuming is correct. Let the staging file hold `old`, shorter than a resource of
/// `total` bytes, and let the server answer the one request with any status of success
/// and with the bytes of the resource from the length of `old` on, in whatever chunks.
/// Then the transfer asks for the resource from exactly that byte on, writes every chunk
/// behind what the file holds, sends no other request, and succeeds in that one attempt.
/// The file then has exactly `total` bytes: it begins with `old` and goes on with the
/// bytes of the resource from there, none of them twice and none left out.
pub proof fn law_resume_completes(
    budget: RetryBudget,
    resource: Seq<u8>,
    total: u64,
    old: Seq<u8>,
    held: u64,
    status: u16,
    chunks: Seq<Seq<u8>>,
    written: int,
)
    requires
        budget.max_attempts > 0,
        resource.len() == total,
        old.len() == held,
        held < total,
        is_success(status),
        appended(Seq::empty(), chunks) == resource.skip(held as int),
        0 <= written <= chunks.len(),
    ensures
        ({
            let measured = TransferState::spec_begin(budget, Some(total)).spec_step(
                TransferEvent::StagingLength { length: Some(held) },
            );
            let answered = measured.spec_step(TransferEvent::Response { status });
            let copying = after_chunks(
                resumed_open(budget, total, held, status),
                chunk_lengths(chunks).take(written),
            );
            let end = resumed(budget, total, held, status, chunk_lengths(chunks));
            &&& measured.spec_awaited() == TransferAction::SendRequest {
                range: Some(ByteRange { start: held, end: Some(total) }),
            }
            &&& answered.spec_awaited() == TransferAction::OpenStaging
            &&& copying.spec_awaited() == TransferAction::CopyChunk
            &&& copying.bytes_on_disk == appended(old, chunks.take(written)).len()
            &&& end.phase is Complete
            &&& end.spec_awaited() == TransferAction::Finish
            &&& end.bytes_on_disk == total
            &&& end.attempt_count == 0
        }),
        appended(old, chunks).len() == total,
        appended(old, chunks).take(held as int) == old,
        appended(old, chunks).skip(held as int) == resource.skip(held as int),
{
    let opened = resumed_open(budget, total, held, status);
    let lengths = chunk_lengths(chunks);
    assert forall|i: int| 0 <= i < chunks.len() implies (#[trigger] chunks[i]).len() <= u64::MAX by {
        lemma_chunk_within(Seq::empty(), chunks, i);
    }
    lemma_appended(old, chunks);
    lemma_appended(Seq::empty(), chunks);
    assert(Seq::<u8>::empty() + appended(Seq::empty(), chunks) =~= appended(Seq::empty(), chunks));
    assert(total_length(lengths) == total - held);
    lemma_chunks_accumulate(opened, lengths);
    let part = chunks.take(written);
    assert(chunk_lengths(part) =~= lengths.take(written));
    lemma_appended(old, part);
    lemma_total_length_prefix(lengths, written);
    lemma_chunks_accumulate(opened, lengths.take(written));
    assert(appended(old, chunks).take(held as int) =~= old);
    assert(appended(old, chunks).skip(held as int) =~= resource.skip(held as int));
}

/// A chunk is no longer than all chunks together.
pub proof fn lemma_chunk_within(before: Seq<u8>, chunks: Seq<Seq<u8>>, i: int)
    requires
        0 <= i < chunks.len(),
    ensures
        chunks[i].len() <= appended(before, chunks).len(),
    decreases chunks.len(),
{
    if i < chunks.len() - 1 {
        lemma_chunk_within(before, chunks.drop_last(), i);
    }
}

/// The first chunks are together no longer than all of them.
pub proof fn lemma_total_length_prefix(lengths: Seq<u64>, n: int)
    requires
        0 <= n <= lengths.len(),
    ensures
        total_length(lengths.take(n)) <= total_length(lengths),
    decreases lengths.len() - n,
{
    if n == lengths.len() {
        assert(lengths.take(n) =~= lengths);
    } else {
        lemma_total_length_prefix(lengths, n + 1);
        assert(lengths.take(n + 1).drop_last() =~= lengths.take(n));
    }
}

/// An ignored range never reaches the staging file unseen. Where the length of the
/// resource is unknown and the server answers a request from a later byte with success
/// but not with a partial answer, nothing of the answer is written: the staging file is
/// removed and the resource is asked for again, whole and without a range, in the same
/// attempt. A partial answer, or any answer of success where nothing is on disk, is
/// written.
pub proof fn law_ignored_range_restarts(state: TransferState, status: u16)
    requires
        state.phase is Requesting,
        state.bytes_expected is None,
        is_success(status),
    ensures
        ({
            let answered = state.spec_step(TransferEvent::Response { status });
            let removed = answered.spec_step(TransferEvent::StagingDiscarded);
            &&& state.bytes_on_disk > 0 && status != PARTIAL_CONTENT ==> {
                &&& answered.spec_awaited() == TransferAction::DiscardStaging
                &&& removed.spec_awaited() == TransferAction::SendRequest { range: None }
                &&& removed.attempt_count == state.attempt_count
                &&& removed.bytes_on_disk == 0
            }
            &&& state.bytes_on_disk == 0 || status == PARTIAL_CONTENT ==> answered.spec_awaited()
                == TransferAction::OpenStaging && answered.bytes_on_disk == state.bytes_on_disk
        }),
{
}

/// The state after `rounds` attempts in a row in which the staging file is found with the
/// same length and the server answers with the same status, each attempt followed by the
/// rest that the transfer asks for.
pub open spec fn after_answers(
    state: TransferState,
    length: Option<u64>,
    status: u16,
    rounds: nat,
) -> TransferState
    decreases rounds,
{
    if rounds == 0 {
        state
    } else {
        after_answers(state, length, status, (rounds - 1) as nat).spec_step(
            TransferEvent::StagingLength { length },
        ).spec_step(TransferEvent::Response { status }).spec_step(TransferEvent::DelayElapsed)
    }
}

/// Whether a staging file of this length leaves something to ask the server for.
pub open spec fn leaves_work(expected: Option<u64>, length: Option<u64>) -> bool {
    expected matches Some(total) ==> (length matches Some(n) ==> n < total) && total > 0
}

/// After fewer refusals than the budget allows, the transfer is about to begin its next
/// attempt, with every refusal counted.
pub proof fn lemma_refusals_counted(
    budget: RetryBudget,
    expected: Option<u64>,
    length: Option<u64>,
    status: u16,
    rounds: nat,
)
    requires
        !is_success(status),
        leaves_work(expected, length),
        rounds < budget.max_attempts,
    ensures
        after_answers(TransferState::spec_begin(budget, expected), length, status, rounds).phase
            is Measuring,
        after_answers(
            TransferState::spec_begin(budget, expected),
            length,
            status,
            rounds,
        ).attempt_count == rounds,
        after_answers(TransferState::spec_begin(budget, expected), length, status, rounds).budget
            == budget,
        after_answers(
            TransferState::spec_begin(budget, expected),
            length,
            status,
            rounds,
        ).bytes_expected == expected,
    decreases rounds,
{
    if rounds > 0 {
        lemma_refusals_counted(budget, expected, length, status, (rounds - 1) as nat);
    }
}

/// Retries are exhausted exactly. Against a server that refuses every request, each of the
/// first `max_attempts` attempts sends one request; after each but the last the transfer
/// rests for the delay of its budget; and the last refusal, no earlier one, ends the
/// transfer with `RetriesExhausted` and the number of attempts made.
pub proof fn law_retry_exhaustion(
    budget: RetryBudget,
    expected: Option<u64>,
    length: Option<u64>,
    status: u16,
)
    requires
        budget.max_attempts > 0,
        !is_success(status),
        leaves_work(expected, length),
    ensures
        forall|made: nat|
            made < budget.max_attempts ==> {
                let before = #[trigger] after_answers(
                    TransferState::spec_begin(budget, expected),
                    length,
                    status,
                    made,
                );
                let measured = before.spec_step(TransferEvent::StagingLength { length });
                let answered = measured.spec_step(TransferEvent::Response { status });
                &&& before.spec_awaited() == TransferAction::MeasureStaging
                &&& measured.spec_awaited() is SendRequest
                &&& made + 1 < budget.max_attempts ==> answered.spec_awaited()
                    == TransferAction::Sleep { seconds: budget.delay_between_attempts }
                &&& made + 1 == budget.max_attempts ==> answered.spec_awaited()
                    == TransferAction::Fail {
                    error: TransferError::RetriesExhausted { attempts: budget.max_attempts },
                }
            },
        after_answers(
            TransferState::spec_begin(budget, expected),
            length,
            status,
            budget.max_attempts as nat,
        ).phase == (TransferPhase::Failed {
            error: TransferError::RetriesExhausted { attempts: budget.max_attempts },
        }),
{
    let start = TransferState::spec_begin(budget, expected);
    assert forall|made: nat| made < budget.max_attempts implies {
        let before = #[trigger] after_answers(start, length, status, made);
        let measured = before.spec_step(TransferEvent::StagingLength { length });
        let answered = measured.spec_step(TransferEvent::Response { status });
        &&& before.spec_awaited() == TransferAction::MeasureStaging
        &&& measured.spec_awaited() is SendRequest
        &&& made + 1 < budget.max_attempts ==> answered.spec_awaited() == TransferAction::Sleep {
            seconds: budget.delay_between_attempts,
        }
        &&& made + 1 == budget.max_attempts ==> answered.spec_awaited() == TransferAction::Fail {
            error: TransferError::RetriesExhausted { attempts: budget.max_attempts },
        }
    } by {
        lemma_refusals_counted(budget, expected, length, status, made);
    }
    lemma_refusals_counted(
        budget,
        expected,
        length,
        status,
        (budget.max_attempts - 1) as nat,
    );
}

/// A broken stream restarts the transfer. Where reading a chunk fails and the staging file
/// does not hold the whole resource, the file is closed and removed before anything else
/// is done, the failure is counted, and the next attempt begins by measuring anew; with
/// the file gone it asks for the resource from its first byte. Nothing is ever written
/// behind what a broken stream has left.
pub proof fn law_broken_stream_restarts(state: TransferState)
    requires
        state.wf(),
        state.phase is Copying,
        !state.copy_is_complete(false),
    ensures
        ({
            let broken = state.spec_step(TransferEvent::ChunkFailed);
            let removed = broken.spec_step(TransferEvent::StagingDiscarded);
            let rested = removed.spec_step(TransferEvent::DelayElapsed);
            let measured = rested.spec_step(TransferEvent::StagingLength { length: None });
            &&& broken.spec_awaited() == TransferAction::DiscardStaging
            &&& !broken.holds_writer()
            &&& removed.bytes_on_disk == 0
            &&& removed.attempt_count == state.attempt_count + 1
            &&& state.attempt_count + 1 < state.budget.max_attempts ==> {
                &&& removed.spec_awaited() == TransferAction::Sleep {
                    seconds: state.budget.delay_between_attempts,
                }
                &&& rested.spec_awaited() == TransferAction::MeasureStaging
                &&& measured.bytes_on_disk == 0
                &&& measured.spec_awaited() matches TransferAction::SendRequest { range }
                &&& range matches Some(asked) ==> asked.start == 0
            }
            &&& state.attempt_count + 1 == state.budget.max_attempts ==> removed.spec_awaited()
                == TransferAction::Fail {
                error: TransferError::RetriesExhausted { attempts: state.budget.max_attempts },
            }
        }),
{
}

/// A stream of unknown length that ends by itself is complete. Where the server has told
/// no length, the natural end of the body ends the transfer in success, in that one pass,
/// with no attempt counted as failed.
pub proof fn law_unknown_size_completes(state: TransferState)
    requires
        state.phase is Copying,
        state.bytes_expected is None,
    ensures
        state.spec_step(TransferEvent::StreamEnded).phase is Complete,
        state.spec_step(TransferEvent::StreamEnded).spec_awaited() == TransferAction::Finish,
        state.spec_step(TransferEvent::StreamEnded).attempt_count == state.attempt_count,
        state.spec_step(TransferEvent::StreamEnded).bytes_on_disk == state.bytes_on_disk,
{
}

/// Only a spent budget and a fault of the staging file end a transfer in failure. What
/// may pass (a request that is refused or gets no answer, a stream that breaks or falls
/// short) is counted and tried again; it ends the transfer only as the failure that
/// spends the budget, and then the error tells the number of attempts. A fault of the
/// staging file ends the transfer at once and is not counted as an attempt.
pub proof fn law_only_exhaustion_and_faults_surface(state: TransferState, event: TransferEvent)
    requires
        state.wf(),
        !state.is_finished(),
    ensures
        ({
            let next = state.spec_step(event);
            &&& next.attempt_count >= state.attempt_count
            &&& next.attempt_count <= state.attempt_count + 1
            &&& next.phase matches TransferPhase::Failed { error } ==> match error {
                TransferError::RetriesExhausted { attempts } => attempts
                    == state.budget.max_attempts && state.attempt_count + 1 == attempts
                    && !(event is StagingFault),
                TransferError::Filesystem => event is StagingFault && next.attempt_count
                    == state.attempt_count,
            }
            &&& event is StagingFault ==> next.phase == (TransferPhase::Failed {
                error: TransferError::Filesystem,
            })
        }),
{
}

/// The count of bytes never falls during a copy: a chunk that is written either adds its
/// length or, where the file would outgrow the resource, ends the copy.
pub proof fn law_progress_grows(state: TransferState, length: u64)
    requires
        state.phase is Copying,
    ensures
        ({
            let next = state.spec_step(TransferEvent::ChunkWritten { bytes: length });
            next.phase is Copying ==> next.bytes_on_disk >= state.bytes_on_disk
                && next.spec_progress().bytes >= state.spec_progress().bytes
        }),
{
}

/// The staging file is open for writing only while a copy is under way: never when the
/// transfer has come to its end, and never while the file is measured or removed.
pub proof fn law_writer_closed_outside_copy(state: TransferState)
    ensures
        state.holds_writer() <==> state.spec_awaited() == TransferAction::CopyChunk,
        state.is_finished() ==> !state.holds_writer(),
{
}

/// A request is sent with no range exactly where nothing is on disk and the length of the
/// resource is unknown; every other request begins at the first byte that is missing.
pub proof fn law_range_begins_where_file_ends(expected: Option<u64>, on_disk: u64)
    ensures
        range_for(expected, on_disk) is None <==> expected is None && on_disk == 0,
        range_for(expected, on_disk) matches Some(asked) ==> asked.start == on_disk && asked.end
            == expected,
{
}

} // verus!
