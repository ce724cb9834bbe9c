//! The flash task of a firmware update.
//!
//! The task waits for the first chunk of an image from the pipe, prepares the
//! update partition, writes each chunk at the offset where the previous one
//! ended, and marks the image for the bootloader when the upload ends. Each
//! failure is reported to the upload endpoint and sends the task back to
//! waiting for an image. `DfuWriter` decides the steps; the firmware performs
//! them.

use vstd::prelude::*;

use crate::dfu::{
    DfuUpdateFailureReason, DfuUpdateResult, FirmwareUpdaterError, PartitionError,
};

verus! {

/// Where the flash task stands in an update.
#[derive(Clone, Copy, Debug, PartialEq, Eq, Structural)]
pub enum DfuWriter {
    /// Waiting for the first chunk of an image (which may never come).
    AwaitingFirstChunk,
    /// A first chunk of `first_len` bytes arrived; the update partition is being prepared.
    Preparing { first_len: u32 },
    /// The buffer holding the first chunk is being written at offset 0.
    WritingFirst { first_len: u32 },
    /// `offset` bytes are written; waiting for the next chunk or the end of the upload.
    Receiving { offset: u32 },
    /// The buffer holding a chunk of `len` bytes is being written at `offset`.
    Writing { offset: u32, len: u32 },
    /// The upload ended; the new image is being marked for the bootloader.
    MarkingUpdated,
    /// The image is marked; the chip is reset.
    Finished,
}

/// What the flash task does next.
#[derive(Clone, Copy, Debug, PartialEq, Eq, Structural)]
pub enum DfuCommand {
    /// Read the first chunk from the pipe.
    ReadFirstChunk,
    /// Prepare the update partition.
    PrepareUpdate,
    /// Write the whole pipe buffer to the update partition at `offset`.
    WriteBuffer { offset: u32 },
    /// Wait for the next chunk from the pipe or for the end of the upload.
    AwaitChunkOrDone,
    /// Mark the update partition for the bootloader.
    MarkUpdated,
    /// Wait two seconds for the report to go out, then reset the chip.
    Reset,
}

/// The outcome of the step that the flash task performed.
#[derive(Clone, Copy, Debug, PartialEq, Eq, Structural)]
pub enum DfuEvent {
    /// The first chunk arrived with this many bytes.
    FirstChunk(u32),
    /// The update partition was prepared.
    Prepared,
    /// Preparing the update partition failed.
    PrepareFailed(FirmwareUpdaterError),
    /// The buffer was written.
    Written,
    /// Writing the buffer failed.
    WriteFailed(PartitionError),
    /// Another chunk arrived with this many bytes.
    NextChunk(u32),
    /// The upload ended.
    UploadDone,
    /// The update was marked.
    Marked,
    /// Marking the update failed.
    MarkFailed(FirmwareUpdaterError),
}

/// The command that each state of the flash task calls for.
pub open spec fn dfu_command(state: DfuWriter) -> DfuCommand {
    match state {
        DfuWriter::AwaitingFirstChunk => DfuCommand::ReadFirstChunk,
        DfuWriter::Preparing { .. } => DfuCommand::PrepareUpdate,
        DfuWriter::WritingFirst { .. } => DfuCommand::WriteBuffer { offset: 0 },
        DfuWriter::Receiving { .. } => DfuCommand::AwaitChunkOrDone,
        DfuWriter::Writing { offset, .. } => DfuCommand::WriteBuffer { offset },
        DfuWriter::MarkingUpdated => DfuCommand::MarkUpdated,
        DfuWriter::Finished => DfuCommand::Reset,
    }
}

/// Whether an event is the outcome of the command that a state calls for.
pub open spec fn dfu_event_fits(state: DfuWriter, event: DfuEvent) -> bool {
    match state {
        DfuWriter::AwaitingFirstChunk => event is FirstChunk,
        DfuWriter::Preparing { .. } => event is Prepared || event is PrepareFailed,
        DfuWriter::WritingFirst { .. } => event is Written || event is WriteFailed,
        DfuWriter::Receiving { .. } => event is NextChunk || event is UploadDone,
        DfuWriter::Writing { .. } => event is Written || event is WriteFailed,
        DfuWriter::MarkingUpdated => event is Marked || event is MarkFailed,
        DfuWriter::Finished => false,
    }
}

/// Whether handling an event stays within the 32-bit offsets of the flash task.
pub open spec fn dfu_offset_fits(state: DfuWriter, event: DfuEvent) -> bool {
    match (state, event) {
        (DfuWriter::Writing { offset, len }, DfuEvent::Written) => offset + len
            <= u32::MAX,
        _ => true,
    }
}

/// The next state of the flash task, and what it reports to the upload endpoint.
pub open spec fn dfu_transition(state: DfuWriter, event: DfuEvent) -> (DfuWriter, Option<
    DfuUpdateResult,
>) {
    match (state, event) {
        (DfuWriter::AwaitingFirstChunk, DfuEvent::FirstChunk(n)) => (
            DfuWriter::Preparing { first_len: n },
            None,
        ),
        (DfuWriter::Preparing { first_len }, DfuEvent::Prepared) => (
            DfuWriter::WritingFirst { first_len },
            None,
        ),
        (DfuWriter::Preparing { .. }, DfuEvent::PrepareFailed(e)) => (
            DfuWriter::AwaitingFirstChunk,
            Some(DfuUpdateResult::Failure(DfuUpdateFailureReason::FirmwareUpdater(e))),
        ),
        (DfuWriter::WritingFirst { first_len }, DfuEvent::Written) => (
            DfuWriter::Receiving { offset: first_len },
            None,
        ),
        (DfuWriter::Writing { offset, len }, DfuEvent::Written) => (
            DfuWriter::Receiving { offset: (offset + len) as u32 },
            None,
        ),
        (DfuWriter::WritingFirst { .. }, DfuEvent::WriteFailed(e)) => (
            DfuWriter::AwaitingFirstChunk,
            Some(DfuUpdateResult::Failure(crate::dfu::failure_of_partition_error(e))),
        ),
        (DfuWriter::Writing { .. }, DfuEvent::WriteFailed(e)) => (
            DfuWriter::AwaitingFirstChunk,
            Some(DfuUpdateResult::Failure(crate::dfu::failure_of_partition_error(e))),
        ),
        (DfuWriter::Receiving { offset }, DfuEvent::NextChunk(n)) => if n == 0 {
            (DfuWriter::MarkingUpdated, None)
        } else {
            (DfuWriter::Writing { offset, len: n }, None)
        },
        (DfuWriter::Receiving { .. }, DfuEvent::UploadDone) => (DfuWriter::MarkingUpdated, None),
        (DfuWriter::MarkingUpdated, DfuEvent::Marked) => (
            DfuWriter::Finished,
            Some(DfuUpdateResult::Success),
        ),
        (DfuWriter::MarkingUpdated, DfuEvent::MarkFailed(e)) => (
            DfuWriter::AwaitingFirstChunk,
            Some(DfuUpdateResult::Failure(DfuUpdateFailureReason::FirmwareUpdater(e))),
        ),
        _ => (state, None),
    }
}

impl DfuWriter {
    /// The flash task at start-up.
    pub fn new() -> (w: DfuWriter)
        ensures
            w == DfuWriter::AwaitingFirstChunk,
    {
        DfuWriter::AwaitingFirstChunk
    }

    /// The command that this state calls for.
    pub fn command(&self) -> (c: DfuCommand)
        ensures
            c == dfu_command(*self),
    {
        match *self {
            DfuWriter::AwaitingFirstChunk => DfuCommand::ReadFirstChunk,
            DfuWriter::Preparing { .. } => DfuCommand::PrepareUpdate,
            DfuWriter::WritingFirst { .. } => DfuCommand::WriteBuffer { offset: 0 },
            DfuWriter::Receiving { .. } => DfuCommand::AwaitChunkOrDone,
            DfuWriter::Writing { offset, .. } => DfuCommand::WriteBuffer { offset },
            DfuWriter::MarkingUpdated => DfuCommand::MarkUpdated,
            DfuWriter::Finished => DfuCommand::Reset,
        }
    }

    /// Takes the outcome of the command and returns the next state, with the
    /// report for the upload endpoint where the update ended.
    pub fn handle(self, event: DfuEvent) -> (res: (DfuWriter, Option<DfuUpdateResult>))
        requires
            dfu_event_fits(self, event),
            dfu_offset_fits(self, event),
        ensures
            res == dfu_transition(self, event),
    {
        match (self, event) {
            (DfuWriter::AwaitingFirstChunk, DfuEvent::FirstChunk(n)) => (
                DfuWriter::Preparing { first_len: n },
                None,
            ),
            (DfuWriter::Preparing { first_len }, DfuEvent::Prepared) => (
                DfuWriter::WritingFirst { first_len },
                None,
            ),
            (DfuWriter::Preparing { .. }, DfuEvent::PrepareFailed(e)) => (
                DfuWriter::AwaitingFirstChunk,
                Some(DfuUpdateResult::Failure(DfuUpdateFailureReason::from(e))),
            ),
            (DfuWriter::WritingFirst { first_len }, DfuEvent::Written) => (
                DfuWriter::Receiving { offset: first_len },
                None,
            ),
            (DfuWriter::Writing { offset, len }, DfuEvent::Written) => (
                DfuWriter::Receiving { offset: offset + len },
                None,
            ),
            (DfuWriter::WritingFirst { .. }, DfuEvent::WriteFailed(e)) => (
                DfuWriter::AwaitingFirstChunk,
                Some(DfuUpdateResult::Failure(DfuUpdateFailureReason::from(e))),
            ),
            (DfuWriter::Writing { .. }, DfuEvent::WriteFailed(e)) => (
                DfuWriter::AwaitingFirstChunk,
                Some(DfuUpdateResult::Failure(DfuUpdateFailureReason::from(e))),
            ),
            (DfuWriter::Receiving { offset }, DfuEvent::NextChunk(n)) => if n == 0 {
                (DfuWriter::MarkingUpdated, None)
            } else {
                (DfuWriter::Writing { offset, len: n }, None)
            },
            (DfuWriter::Receiving { .. }, DfuEvent::UploadDone) => (
                DfuWriter::MarkingUpdated,
                None,
            ),
            (DfuWriter::MarkingUpdated, DfuEvent::Marked) => (
                DfuWriter::Finished,
                Some(DfuUpdateResult::Success),
            ),
            (DfuWriter::MarkingUpdated, DfuEvent::MarkFailed(e)) => (
                DfuWriter::AwaitingFirstChunk,
                Some(DfuUpdateResult::Failure(DfuUpdateFailureReason::from(e))),
            ),
            _ => (self, None),
        }
    }
}

/// The states that the flash task passes through on a sequence of events.
pub open spec fn dfu_run(state: DfuWriter, events: Seq<DfuEvent>) -> DfuWriter
    decreases events.len(),
{
    if events.len() == 0 {
        state
    } else {
        dfu_run(dfu_transition(state, events[0]).0, events.drop_first())
    }
}

/// The reports that the flash task sends on a sequence of events.
pub open spec fn dfu_reports(state: DfuWriter, events: Seq<DfuEvent>) -> Seq<DfuUpdateResult>
    decreases events.len(),
{
    if events.len() == 0 {
        Seq::empty()
    } else {
        let (next, report) = dfu_transition(state, events[0]);
        let rest = dfu_reports(next, events.drop_first());
        match report {
            Some(r) => seq![r] + rest,
            None => rest,
        }
    }
}

/// The events of a stream of chunks that all arrive and are written.
pub open spec fn written_chunks(lens: Seq<u32>) -> Seq<DfuEvent>
    decreases lens.len(),
{
    if lens.len() == 0 {
        Seq::empty()
    } else {
        seq![DfuEvent::NextChunk(lens[0]), DfuEvent::Written] + written_chunks(
            lens.drop_first(),
        )
    }
}

/// The total length of a stream of chunks.
pub open spec fn total_len(lens: Seq<u32>) -> int
    decreases lens.len(),
{
    if lens.len() == 0 {
        0
    } else {
        lens[0] + total_len(lens.drop_first())
    }
}

proof fn lemma_total_len_nonneg(lens: Seq<u32>)
    ensures
        total_len(lens) >= 0,
    decreases lens.len(),
{
    if lens.len() > 0 {
        lemma_total_len_nonneg(lens.drop_first());
    }
}

proof fn lemma_run_append(state: DfuWriter, a: Seq<DfuEvent>, b: Seq<DfuEvent>)
    ensures
        dfu_run(state, a + b) == dfu_run(dfu_run(state, a), b),
        dfu_reports(state, a + b) == dfu_reports(state, a) + dfu_reports(dfu_run(state, a), b),
    decreases a.len(),
{
    if a.len() == 0 {
        assert(a + b =~= b);
    } else {
        assert((a + b).drop_first() =~= a.drop_first() + b);
        lemma_run_append(dfu_transition(state, a[0]).0, a.drop_first(), b);
        let (next, report) = dfu_transition(state, a[0]);
        match report {
            Some(r) => {
                assert(seq![r] + (dfu_reports(next, a.drop_first()) + dfu_reports(
                    dfu_run(next, a.drop_first()),
                    b,
                )) =~= (seq![r] + dfu_reports(next, a.drop_first())) + dfu_reports(
                    dfu_run(next, a.drop_first()),
                    b,
                ));
            },
            None => {},
        }
    }
}

proof fn lemma_run_pair(offset: u32, n: u32)
    requires
        n > 0,
        offset + n <= u32::MAX,
    ensures
        dfu_run(
            DfuWriter::Receiving { offset },
            seq![DfuEvent::NextChunk(n), DfuEvent::Written],
        ) == (DfuWriter::Receiving { offset: (offset + n) as u32 }),
        dfu_reports(
            DfuWriter::Receiving { offset },
            seq![DfuEvent::NextChunk(n), DfuEvent::Written],
        ) == Seq::<DfuUpdateResult>::empty(),
{
    let pair = seq![DfuEvent::NextChunk(n), DfuEvent::Written];
    let p1 = pair.drop_first();
    let p2 = p1.drop_first();
    assert(p2 =~= Seq::<DfuEvent>::empty());
    let mid = DfuWriter::Writing { offset, len: n };
    let last = DfuWriter::Receiving { offset: (offset + n) as u32 };
    assert(dfu_run(last, p2) == last);
    assert(dfu_run(mid, p1) == last);
    assert(dfu_reports(last, p2) =~= Seq::<DfuUpdateResult>::empty());
    assert(dfu_reports(mid, p1) =~= Seq::<DfuUpdateResult>::empty());
}

proof fn lemma_run_start(first_len: u32)
    ensures
        dfu_run(
            DfuWriter::AwaitingFirstChunk,
            seq![
                DfuEvent::FirstChunk(first_len),
                DfuEvent::Prepared,
                DfuEvent::Written,
            ],
        ) == (DfuWriter::Receiving { offset: first_len }),
        dfu_reports(
            DfuWriter::AwaitingFirstChunk,
            seq![
                DfuEvent::FirstChunk(first_len),
                DfuEvent::Prepared,
                DfuEvent::Written,
            ],
        ) == Seq::<DfuUpdateResult>::empty(),
{
    let e0 = seq![
        DfuEvent::FirstChunk(first_len),
        DfuEvent::Prepared,
        DfuEvent::Written,
    ];
    let e1 = e0.drop_first();
    let e2 = e1.drop_first();
    let e3 = e2.drop_first();
    assert(e3 =~= Seq::<DfuEvent>::empty());
    let s1 = DfuWriter::Preparing { first_len };
    let s2 = DfuWriter::WritingFirst { first_len };
    let s3 = DfuWriter::Receiving { offset: first_len };
    assert(dfu_run(s3, e3) == s3);
    assert(dfu_run(s2, e2) == s3);
    assert(dfu_run(s1, e1) == s3);
    assert(dfu_reports(s3, e3) =~= Seq::<DfuUpdateResult>::empty());
    assert(dfu_reports(s2, e2) =~= Seq::<DfuUpdateResult>::empty());
    assert(dfu_reports(s1, e1) =~= Seq::<DfuUpdateResult>::empty());
}

proof fn lemma_run_end(offset: u32)
    ensures
        dfu_run(
            DfuWriter::Receiving { offset },
            seq![DfuEvent::UploadDone, DfuEvent::Marked],
        ) == DfuWriter::Finished,
        dfu_reports(
            DfuWriter::Receiving { offset },
            seq![DfuEvent::UploadDone, DfuEvent::Marked],
        ) == seq![DfuUpdateResult::Success],
{
    let e0 = seq![DfuEvent::UploadDone, DfuEvent::Marked];
    let e1 = e0.drop_first();
    let e2 = e1.drop_first();
    assert(e2 =~= Seq::<DfuEvent>::empty());
    let s1 = DfuWriter::MarkingUpdated;
    let s2 = DfuWriter::Finished;
    assert(dfu_run(s2, e2) == s2);
    assert(dfu_run(s1, e1) == s2);
    assert(dfu_reports(s2, e2) =~= Seq::<DfuUpdateResult>::empty());
    assert(dfu_reports(s1, e1) =~= seq![DfuUpdateResult::Success]);
}

/// Every chunk is written at the offset where the previous one ended: chunks
/// that all arrive and are written move the task from `offset` to `offset`
/// plus their total length, without a report.
pub proof fn lemma_chunks_advance_offset(offset: u32, lens: Seq<u32>)
    requires
        offset + total_len(lens) <= u32::MAX,
        forall|i: int| 0 <= i < lens.len() ==> lens[i] > 0,
    ensures
        dfu_run(DfuWriter::Receiving { offset }, written_chunks(lens)) == (DfuWriter::Receiving {
            offset: (offset + total_len(lens)) as u32,
        }),
        dfu_reports(DfuWriter::Receiving { offset }, written_chunks(lens)) == Seq::<
            DfuUpdateResult,
        >::empty(),
    decreases lens.len(),
{
    if lens.len() > 0 {
        let n = lens[0];
        let rest = lens.drop_first();
        lemma_total_len_nonneg(rest);
        let pair = seq![DfuEvent::NextChunk(n), DfuEvent::Written];
        assert(written_chunks(lens) == pair + written_chunks(rest));
        lemma_run_append(DfuWriter::Receiving { offset }, pair, written_chunks(rest));
        lemma_run_pair(offset, n);
        lemma_chunks_advance_offset((offset + n) as u32, rest);
        assert(dfu_reports(DfuWriter::Receiving { offset }, pair) + Seq::<
            DfuUpdateResult,
        >::empty() =~= Seq::<DfuUpdateResult>::empty());
    }
}

proof fn lemma_total_len_prefix(lens: Seq<u32>, k: int)
    requires
        0 <= k <= lens.len(),
    ensures
        total_len(lens.take(k)) + total_len(lens.skip(k)) == total_len(lens),
        total_len(lens.skip(k)) >= 0,
    decreases lens.len(),
{
    lemma_total_len_nonneg(lens.skip(k));
    if k > 0 {
        let rest = lens.drop_first();
        lemma_total_len_prefix(rest, k - 1);
        assert(lens.take(k).drop_first() =~= rest.take(k - 1));
        assert(lens.skip(k) =~= rest.skip(k - 1));
    } else {
        assert(lens.skip(0) =~= lens);
        assert(lens.take(0) =~= Seq::<u32>::empty());
    }
}

/// Each chunk is written where the chunks before it end: after the first `k`
/// chunks of an update were written, the next chunk is written at `offset`
/// plus their total length.
pub proof fn lemma_chunk_written_at_running_offset(offset: u32, lens: Seq<u32>, k: int)
    requires
        0 <= k < lens.len(),
        offset + total_len(lens) <= u32::MAX,
        forall|i: int| 0 <= i < lens.len() ==> lens[i] > 0,
    ensures
        dfu_command(
            dfu_run(
                DfuWriter::Receiving { offset },
                written_chunks(lens.take(k)) + seq![DfuEvent::NextChunk(lens[k])],
            ),
        ) == (DfuCommand::WriteBuffer { offset: (offset + total_len(lens.take(k))) as u32 }),
{
    lemma_total_len_prefix(lens, k);
    let prefix = lens.take(k);
    assert forall|i: int| 0 <= i < prefix.len() implies prefix[i] > 0 by {
        assert(prefix[i] == lens[i]);
    }
    lemma_chunks_advance_offset(offset, prefix);
    let start = DfuWriter::Receiving { offset };
    let mid = DfuWriter::Receiving { offset: (offset + total_len(prefix)) as u32 };
    let last = seq![DfuEvent::NextChunk(lens[k])];
    lemma_run_append(start, written_chunks(prefix), last);
    assert(last.drop_first() =~= Seq::<DfuEvent>::empty());
    assert(lens[k] > 0);
    let writing = DfuWriter::Writing { offset: (offset + total_len(prefix)) as u32, len: lens[k] };
    assert(dfu_transition(mid, last[0]).0 == writing);
    assert(dfu_run(writing, last.drop_first()) == writing);
    assert(dfu_run(mid, last) == (DfuWriter::Writing {
        offset: (offset + total_len(prefix)) as u32,
        len: lens[k],
    }));
}

/// An upload whose steps all succeed ends with the image marked, the task
/// finished, and exactly one report, of success.
pub proof fn lemma_successful_update(first_len: u32, lens: Seq<u32>)
    requires
        first_len + total_len(lens) <= u32::MAX,
        forall|i: int| 0 <= i < lens.len() ==> lens[i] > 0,
    ensures
        ({
            let events = seq![
                DfuEvent::FirstChunk(first_len),
                DfuEvent::Prepared,
                DfuEvent::Written,
            ] + written_chunks(lens) + seq![DfuEvent::UploadDone, DfuEvent::Marked];
            &&& dfu_run(DfuWriter::AwaitingFirstChunk, events) == DfuWriter::Finished
            &&& dfu_reports(DfuWriter::AwaitingFirstChunk, events) == seq![
                DfuUpdateResult::Success,
            ]
        }),
{
    let start = seq![
        DfuEvent::FirstChunk(first_len),
        DfuEvent::Prepared,
        DfuEvent::Written,
    ];
    let end = seq![DfuEvent::UploadDone, DfuEvent::Marked];
    let chunks = written_chunks(lens);
    let s0 = DfuWriter::AwaitingFirstChunk;
    let s1 = DfuWriter::Receiving { offset: first_len };
    lemma_run_start(first_len);
    lemma_chunks_advance_offset(first_len, lens);
    let s2 = DfuWriter::Receiving { offset: (first_len + total_len(lens)) as u32 };
    lemma_run_end((first_len + total_len(lens)) as u32);
    lemma_run_append(s0, start, chunks);
    lemma_run_append(s0, start + chunks, end);
    assert(dfu_reports(s0, start + chunks) =~= Seq::<DfuUpdateResult>::empty());
    assert(Seq::<DfuUpdateResult>::empty() + seq![DfuUpdateResult::Success] =~= seq![
        DfuUpdateResult::Success,
    ]);
}


/// After any failed step the flash task reports the failure and waits for a
/// new image; success is reported only when the image was marked.
pub proof fn lemma_reports_match_outcome(state: DfuWriter, event: DfuEvent)
    requires
        dfu_event_fits(state, event),
    ensures
        dfu_transition(state, event).1 matches Some(DfuUpdateResult::Failure(_)) ==> dfu_transition(
            state,
            event,
        ).0 == DfuWriter::AwaitingFirstChunk,
        dfu_transition(state, event).1 == Some(DfuUpdateResult::Success) <==> (state
            == DfuWriter::MarkingUpdated && event == DfuEvent::Marked),
{
}


/// Whether each event of a sequence is the outcome of the command of the
/// state it comes in, within the task's 32-bit offsets.
pub open spec fn dfu_fitting(state: DfuWriter, events: Seq<DfuEvent>) -> bool
    decreases events.len(),
{
    events.len() == 0 || ({
        let pre = events.drop_last();
        let at = dfu_run(state, pre);
        &&& dfu_fitting(state, pre)
        &&& dfu_event_fits(at, events.last())
        &&& dfu_offset_fits(at, events.last())
    })
}

/// The report of one step, as a sequence of at most one report.
pub open spec fn step_reports(report: Option<DfuUpdateResult>) -> Seq<DfuUpdateResult> {
    match report {
        Some(r) => seq![r],
        None => Seq::empty(),
    }
}

/// The events of an attempt whose first chunk of `first_len` bytes and whose
/// next chunks of `lens` bytes were all written.
pub open spec fn written_attempt(first_len: u32, lens: Seq<u32>) -> Seq<DfuEvent> {
    seq![DfuEvent::FirstChunk(first_len), DfuEvent::Prepared, DfuEvent::Written]
        + written_chunks(lens)
}

/// Whether an event ends the upload: its end was signalled, or the pipe gave no bytes.
pub open spec fn ends_upload(event: DfuEvent) -> bool {
    event is UploadDone || event == DfuEvent::NextChunk(0)
}

/// Whether every chunk length is positive.
pub open spec fn all_positive(lens: Seq<u32>) -> bool {
    forall|i: int| 0 <= i < lens.len() ==> lens[i] > 0
}

/// The events of an attempt that wrote every chunk and then saw the end of the upload.
pub open spec fn ended_attempt(first_len: u32, lens: Seq<u32>, end: DfuEvent) -> Seq<DfuEvent> {
    written_attempt(first_len, lens) + seq![end]
}

/// The events of an attempt that wrote every chunk, saw the end of the upload
/// and marked the image.
pub open spec fn marked_attempt(first_len: u32, lens: Seq<u32>, end: DfuEvent) -> Seq<DfuEvent> {
    ended_attempt(first_len, lens, end) + seq![DfuEvent::Marked]
}

/// The events of an attempt that wrote every chunk and received one more chunk of `len` bytes.
pub open spec fn receiving_attempt(first_len: u32, lens: Seq<u32>, len: u32) -> Seq<DfuEvent> {
    written_attempt(first_len, lens) + seq![DfuEvent::NextChunk(len)]
}

/// Whether `tail` is an attempt that wrote every chunk up to `offset` and
/// received one more chunk of `len` bytes, not yet written.
pub open spec fn pending_chunk_attempt(tail: Seq<DfuEvent>, offset: u32, len: u32) -> bool {
    exists|n: u32, lens: Seq<u32>|
        tail == #[trigger] receiving_attempt(n, lens, len) && len > 0 && all_positive(lens) && n
            + total_len(lens) == offset
}

/// What the events of the current attempt (those since the task last waited
/// for a first chunk) are, for each state of the task.
pub open spec fn attempt_so_far(state: DfuWriter, tail: Seq<DfuEvent>) -> bool {
    match state {
        DfuWriter::AwaitingFirstChunk => tail.len() == 0,
        DfuWriter::Preparing { first_len } => tail == seq![DfuEvent::FirstChunk(first_len)],
        DfuWriter::WritingFirst { first_len } => tail == seq![
            DfuEvent::FirstChunk(first_len),
            DfuEvent::Prepared,
        ],
        DfuWriter::Receiving { offset } => exists|n: u32, lens: Seq<u32>|
            tail == #[trigger] written_attempt(n, lens) && all_positive(lens) && n + total_len(
                lens,
            ) == offset,
        DfuWriter::Writing { offset, len } => pending_chunk_attempt(tail, offset, len),
        DfuWriter::MarkingUpdated => exists|n: u32, lens: Seq<u32>, end: DfuEvent|
            tail == #[trigger] ended_attempt(n, lens, end) && ends_upload(end) && all_positive(
                lens,
            ),
        DfuWriter::Finished => exists|n: u32, lens: Seq<u32>, end: DfuEvent|
            tail == #[trigger] marked_attempt(n, lens, end) && ends_upload(end) && all_positive(
                lens,
            ),
    }
}

/// Where the current attempt starts in a sequence of events from start-up:
/// just after the last event that left the task waiting for a first chunk.
pub open spec fn attempt_start(events: Seq<DfuEvent>) -> int
    decreases events.len(),
{
    if events.len() == 0 {
        0
    } else if dfu_run(DfuWriter::AwaitingFirstChunk, events) == DfuWriter::AwaitingFirstChunk {
        events.len() as int
    } else {
        attempt_start(events.drop_last())
    }
}

proof fn lemma_run_last(state: DfuWriter, events: Seq<DfuEvent>)
    requires
        events.len() > 0,
    ensures
        dfu_run(state, events) == dfu_transition(dfu_run(state, events.drop_last()), events.last()).0,
        dfu_reports(state, events) == dfu_reports(state, events.drop_last()) + step_reports(
            dfu_transition(dfu_run(state, events.drop_last()), events.last()).1,
        ),
{
    let pre = events.drop_last();
    let one = seq![events.last()];
    assert(events =~= pre + one);
    lemma_run_append(state, pre, one);
    let at = dfu_run(state, pre);
    assert(one.drop_first() =~= Seq::<DfuEvent>::empty());
    assert(dfu_run(dfu_transition(at, one[0]).0, one.drop_first()) == dfu_transition(at, one[0]).0);
    assert(dfu_reports(dfu_transition(at, one[0]).0, one.drop_first()) =~= Seq::<
        DfuUpdateResult,
    >::empty());
    assert(dfu_reports(at, one) =~= step_reports(dfu_transition(at, one[0]).1));
}

proof fn lemma_written_chunks_push(lens: Seq<u32>, len: u32)
    ensures
        written_chunks(lens.push(len)) == written_chunks(lens) + seq![
            DfuEvent::NextChunk(len),
            DfuEvent::Written,
        ],
        total_len(lens.push(len)) == total_len(lens) + len,
    decreases lens.len(),
{
    if lens.len() == 0 {
        assert(lens.push(len).drop_first() =~= Seq::<u32>::empty());
        assert(total_len(lens.push(len)) == len + total_len(Seq::<u32>::empty()));
        assert(written_chunks(lens.push(len)) =~= seq![
            DfuEvent::NextChunk(len),
            DfuEvent::Written,
        ] + written_chunks(Seq::<u32>::empty()));
        assert(written_chunks(lens) =~= Seq::<DfuEvent>::empty());
        assert(written_chunks(lens.push(len)) =~= written_chunks(lens) + seq![
            DfuEvent::NextChunk(len),
            DfuEvent::Written,
        ]);
    } else {
        assert(lens.push(len).drop_first() =~= lens.drop_first().push(len));
        lemma_written_chunks_push(lens.drop_first(), len);
        assert(lens.push(len)[0] == lens[0]);
        assert(total_len(lens.push(len)) == lens[0] + total_len(lens.drop_first().push(len)));
        let head = seq![DfuEvent::NextChunk(lens[0]), DfuEvent::Written];
        assert(written_chunks(lens.push(len)) =~= head + written_chunks(lens.drop_first().push(len)));
        assert(written_chunks(lens.push(len)) =~= written_chunks(lens) + seq![
            DfuEvent::NextChunk(len),
            DfuEvent::Written,
        ]);
    }
}

/// One step of the task keeps the events of the current attempt what its
/// state says they are, unless it leaves the task waiting for a first chunk.
#[verifier::spinoff_prover]
#[verifier::rlimit(50)]
proof fn lemma_attempt_step(at: DfuWriter, e: DfuEvent, tail: Seq<DfuEvent>)
    requires
        attempt_so_far(at, tail),
        dfu_event_fits(at, e),
        dfu_offset_fits(at, e),
        dfu_transition(at, e).0 != DfuWriter::AwaitingFirstChunk,
    ensures
        attempt_so_far(dfu_transition(at, e).0, tail.push(e)),
{
    let now = dfu_transition(at, e).0;
    match (at, e) {
        (DfuWriter::AwaitingFirstChunk, DfuEvent::FirstChunk(n)) => {
            assert(tail.push(e) =~= seq![DfuEvent::FirstChunk(n)]);
            assert(attempt_so_far(now, tail.push(e)));
        },
        (DfuWriter::Preparing { first_len }, DfuEvent::Prepared) => {
            assert(tail.push(e) =~= seq![
                DfuEvent::FirstChunk(first_len),
                DfuEvent::Prepared,
            ]);
            assert(attempt_so_far(now, tail.push(e)));
        },
        (DfuWriter::WritingFirst { first_len }, DfuEvent::Written) => {
            let lens = Seq::<u32>::empty();
            assert(written_chunks(lens) =~= Seq::<DfuEvent>::empty());
            assert(tail.push(e) =~= written_attempt(first_len, lens));
            assert(attempt_so_far(now, tail.push(e)));
        },
        (DfuWriter::Receiving { offset }, DfuEvent::NextChunk(m)) => {
            let (n, lens) = choose|n: u32, lens: Seq<u32>|
                tail == #[trigger] written_attempt(n, lens) && all_positive(lens) && n
                    + total_len(lens) == offset;
            if m == 0 {
                assert(tail.push(e) =~= ended_attempt(n, lens, e));
                assert(ends_upload(e));
                assert(now == DfuWriter::MarkingUpdated);
                assert(attempt_so_far(now, tail.push(e)));
            } else {
                assert(tail.push(e) =~= receiving_attempt(n, lens, m));
                assert(now == DfuWriter::Writing { offset, len: m });
                assert(m > 0 && all_positive(lens) && n + total_len(lens) == offset);
                assert(pending_chunk_attempt(tail.push(e), offset, m));
                assert(attempt_so_far(DfuWriter::Writing { offset, len: m }, tail.push(e)));
            }
        },
        (DfuWriter::Receiving { offset }, DfuEvent::UploadDone) => {
            let (n, lens) = choose|n: u32, lens: Seq<u32>|
                tail == #[trigger] written_attempt(n, lens) && all_positive(lens) && n
                    + total_len(lens) == offset;
            assert(tail.push(e) =~= ended_attempt(n, lens, e));
            assert(attempt_so_far(now, tail.push(e)));
        },
        (DfuWriter::Writing { offset, len }, DfuEvent::Written) => {
            let (n, lens) = choose|n: u32, lens: Seq<u32>|
                tail == #[trigger] receiving_attempt(n, lens, len) && len > 0
                    && all_positive(lens) && n + total_len(lens) == offset;
            lemma_written_chunks_push(lens, len);
            let lens2 = lens.push(len);
            assert(all_positive(lens2));
            assert(tail.push(e) =~= written_attempt(n, lens2));
            assert(n + total_len(lens2) == offset + len);
            assert(attempt_so_far(now, tail.push(e)));
        },
        (DfuWriter::MarkingUpdated, DfuEvent::Marked) => {
            let (n, lens, end) = choose|n: u32, lens: Seq<u32>, end: DfuEvent|
                tail == #[trigger] ended_attempt(n, lens, end) && ends_upload(end)
                    && all_positive(lens);
            assert(tail.push(e) =~= marked_attempt(n, lens, end));
            assert(attempt_so_far(now, tail.push(e)));
        },
        _ => {},
    }
}

/// Along events that can happen from start-up, the events of the current
/// attempt are what the task's state says they are.
proof fn lemma_attempt_invariant(events: Seq<DfuEvent>)
    requires
        dfu_fitting(DfuWriter::AwaitingFirstChunk, events),
    ensures
        0 <= attempt_start(events) <= events.len(),
        dfu_run(DfuWriter::AwaitingFirstChunk, events.take(attempt_start(events)))
            == DfuWriter::AwaitingFirstChunk,
        attempt_so_far(
            dfu_run(DfuWriter::AwaitingFirstChunk, events),
            events.skip(attempt_start(events)),
        ),
    decreases events.len(),
{
    let start = DfuWriter::AwaitingFirstChunk;
    if events.len() == 0 {
        assert(events.take(0) =~= events);
        assert(events.skip(0) =~= events);
    } else {
        let pre = events.drop_last();
        let e = events.last();
        let at = dfu_run(start, pre);
        let now = dfu_run(start, events);
        lemma_run_last(start, events);
        if now == start {
            assert(events.take(events.len() as int) =~= events);
            assert(events.skip(events.len() as int) =~= Seq::<DfuEvent>::empty());
        } else {
            lemma_attempt_invariant(pre);
            let k = attempt_start(pre);
            assert(attempt_start(events) == k);
            assert(events.take(k) =~= pre.take(k));
            let tail = pre.skip(k);
            assert(events.skip(k) =~= tail.push(e));
            lemma_attempt_step(at, e, tail);
        }
    }
}

/// The image is marked for the bootloader only after the upload ended and
/// every write of the attempt succeeded: whenever the flash task is about to
/// mark the image, the events since it last waited for a first chunk are a
/// first chunk, a prepared partition, its written buffer, chunks that were
/// each written, and the end of the upload.
pub proof fn lemma_marking_only_after_complete_upload(events: Seq<DfuEvent>)
    requires
        dfu_fitting(DfuWriter::AwaitingFirstChunk, events),
        dfu_command(dfu_run(DfuWriter::AwaitingFirstChunk, events)) == DfuCommand::MarkUpdated,
    ensures
        exists|k: int, n: u32, lens: Seq<u32>, end: DfuEvent|
            #![trigger events.skip(k), ended_attempt(n, lens, end)]
            0 <= k <= events.len() && dfu_run(DfuWriter::AwaitingFirstChunk, events.take(k))
                == DfuWriter::AwaitingFirstChunk && events.skip(k) == ended_attempt(n, lens, end) && ends_upload(end) && all_positive(lens),
{
    lemma_attempt_invariant(events);
    let k = attempt_start(events);
    let (n, lens, end) = choose|n: u32, lens: Seq<u32>, end: DfuEvent|
        events.skip(k) == #[trigger] ended_attempt(n, lens, end) && ends_upload(end)
            && all_positive(lens);
    assert(events.skip(k) == ended_attempt(n, lens, end));
}

/// Success is reported only when the image was marked, and the chip is reset
/// only after it: along events that can happen from start-up, a success
/// report is among the reports exactly when the task has finished (the only
/// state that resets the chip), the success is then the last report, and the
/// current attempt wrote every chunk, saw the end of the upload and marked
/// the image.
pub proof fn lemma_reset_only_after_success(events: Seq<DfuEvent>)
    requires
        dfu_fitting(DfuWriter::AwaitingFirstChunk, events),
    ensures
        dfu_reports(DfuWriter::AwaitingFirstChunk, events).contains(DfuUpdateResult::Success)
            <==> dfu_run(DfuWriter::AwaitingFirstChunk, events) == DfuWriter::Finished,
        (dfu_command(dfu_run(DfuWriter::AwaitingFirstChunk, events)) == DfuCommand::Reset)
            <==> dfu_run(DfuWriter::AwaitingFirstChunk, events) == DfuWriter::Finished,
        dfu_run(DfuWriter::AwaitingFirstChunk, events) == DfuWriter::Finished ==> {
            &&& dfu_reports(DfuWriter::AwaitingFirstChunk, events).last()
                == DfuUpdateResult::Success
            &&& exists|k: int, n: u32, lens: Seq<u32>, end: DfuEvent|
            #![trigger events.skip(k), marked_attempt(n, lens, end)]
                0 <= k <= events.len() && dfu_run(DfuWriter::AwaitingFirstChunk, events.take(k))
                    == DfuWriter::AwaitingFirstChunk && events.skip(k) == marked_attempt(n, lens, end) && ends_upload(end) && all_positive(lens)
        },
    decreases events.len(),
{
    let start = DfuWriter::AwaitingFirstChunk;
    lemma_attempt_invariant(events);
    if dfu_run(start, events) == DfuWriter::Finished {
        let k = attempt_start(events);
        let (n, lens, end) = choose|n: u32, lens: Seq<u32>, end: DfuEvent|
            events.skip(k) == #[trigger] marked_attempt(n, lens, end) && ends_upload(end)
                && all_positive(lens);
        assert(events.skip(k) == marked_attempt(n, lens, end));
    }
    if events.len() == 0 {
        assert(dfu_reports(start, events) =~= Seq::<DfuUpdateResult>::empty());
    } else {
        let pre = events.drop_last();
        let e = events.last();
        let at = dfu_run(start, pre);
        lemma_run_last(start, events);
        lemma_reset_only_after_success(pre);
        let before = dfu_reports(start, pre);
        let this = step_reports(dfu_transition(at, e).1);
        assert(at != DfuWriter::Finished);
        assert(!before.contains(DfuUpdateResult::Success));
        let all = dfu_reports(start, events);
        assert(all == before + this);
        if dfu_run(start, events) == DfuWriter::Finished {
            assert(this =~= seq![DfuUpdateResult::Success]);
            assert(all[all.len() - 1] == DfuUpdateResult::Success);
        } else {
            assert(!this.contains(DfuUpdateResult::Success));
            assert forall|i: int| 0 <= i < all.len() implies all[i] != DfuUpdateResult::Success by {
                if i < before.len() {
                    assert(all[i] == before[i]);
                } else {
                    assert(all[i] == this[i - before.len()]);
                }
            }
        }
    }
}

} // verus!
