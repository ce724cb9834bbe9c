//! The flash task together with the pipe buffer that it writes from.
//!
//! Each attempt starts with a zeroed buffer of `DFU_PIPE_BUFFER_SIZE` bytes.
//! A chunk read from the pipe lands at the start of the buffer, over what the
//! previous chunk left there, and the whole buffer is written to the update
//! partition at the offset where the previous chunk ended. `DfuTask` keeps the
//! buffer and the chunks of the current attempt, and `DfuWriter` decides the
//! steps.

use vstd::prelude::*;

use crate::dfu::{DfuUpdateResult, DFU_PIPE_BUFFER_SIZE};
use crate::flash_task::{dfu_command, dfu_event_fits, dfu_offset_fits, dfu_transition, DfuCommand, DfuEvent, DfuWriter};

verus! {

/// The buffer at the start of an attempt: all zeros.
pub open spec fn zero_buffer() -> Seq<u8> {
    Seq::new(DFU_PIPE_BUFFER_SIZE as nat, |i: int| 0u8)
}

/// The buffer after a chunk was read into it: the chunk, then what the buffer
/// held beyond the chunk's length.
pub open spec fn fill(buffer: Seq<u8>, piece: Seq<u8>) -> Seq<u8> {
    piece + buffer.skip(piece.len() as int)
}

/// The buffer after the chunks `pieces` of an attempt were read into it, in order.
pub open spec fn buffer_after(pieces: Seq<Seq<u8>>) -> Seq<u8>
    decreases pieces.len(),
{
    if pieces.len() == 0 {
        zero_buffer()
    } else {
        fill(buffer_after(pieces.drop_last()), pieces.last())
    }
}

/// The bytes of the chunks `pieces`, one after another.
pub open spec fn uploaded(pieces: Seq<Seq<u8>>) -> Seq<u8>
    decreases pieces.len(),
{
    if pieces.len() == 0 {
        Seq::empty()
    } else {
        uploaded(pieces.drop_last()) + pieces.last()
    }
}

/// The writes of an attempt whose chunks `pieces` were all written: for each
/// chunk, the offset where the chunks before it end, and the buffer just
/// after the chunk was read into it.
pub open spec fn writes_of(pieces: Seq<Seq<u8>>) -> Seq<(int, Seq<u8>)>
    decreases pieces.len(),
{
    if pieces.len() == 0 {
        Seq::empty()
    } else {
        writes_of(pieces.drop_last()).push(
            (uploaded(pieces.drop_last()).len() as int, buffer_after(pieces)),
        )
    }
}

/// The byte at position `at` of the partition after the writes `writes`, in
/// order: that of the last write that covers it, `None` where none does.
pub open spec fn image_byte(writes: Seq<(int, Seq<u8>)>, at: int) -> Option<u8>
    decreases writes.len(),
{
    if writes.len() == 0 {
        None
    } else {
        let (offset, bytes) = writes.last();
        if offset <= at < offset + bytes.len() {
            Some(bytes[at - offset])
        } else {
            image_byte(writes.drop_last(), at)
        }
    }
}

/// Whether every chunk fits the pipe buffer.
pub open spec fn pieces_fit(pieces: Seq<Seq<u8>>) -> bool {
    forall|i: int| 0 <= i < pieces.len() ==> #[trigger] pieces[i].len() <= DFU_PIPE_BUFFER_SIZE
}

/// The chunks of the current attempt that were written, for each state of the task.
pub open spec fn written_pieces(state: DfuWriter, pieces: Seq<Seq<u8>>) -> Seq<Seq<u8>> {
    match state {
        DfuWriter::Receiving { .. } | DfuWriter::MarkingUpdated | DfuWriter::Finished => pieces,
        DfuWriter::Writing { .. } => pieces.drop_last(),
        _ => Seq::empty(),
    }
}

/// The chunks of the current attempt after a chunk was read in `state`.
pub open spec fn pieces_after_read(state: DfuWriter, pieces: Seq<Seq<u8>>, piece: Seq<u8>) -> Seq<
    Seq<u8>,
> {
    match state {
        DfuWriter::AwaitingFirstChunk => seq![piece],
        _ => if piece.len() == 0 {
            pieces
        } else {
            pieces.push(piece)
        },
    }
}

/// The event that reading `piece` from the pipe is, in `state`.
pub open spec fn read_event(state: DfuWriter, piece: Seq<u8>) -> DfuEvent {
    match state {
        DfuWriter::AwaitingFirstChunk => DfuEvent::FirstChunk(piece.len() as u32),
        _ => DfuEvent::NextChunk(piece.len() as u32),
    }
}

/// The flash task: where it stands, the pipe buffer, and the chunks of the
/// current attempt.
pub struct DfuTask {
    writer: DfuWriter,
    buffer: Vec<u8>,
    pieces: Ghost<Seq<Seq<u8>>>,
}

impl DfuTask {
    /// Where the task stands.
    pub closed spec fn writer(self) -> DfuWriter {
        self.writer
    }

    /// The chunks of the current attempt, in the order they were read.
    pub closed spec fn pieces(self) -> Seq<Seq<u8>> {
        self.pieces@
    }

    /// What the pipe buffer holds.
    pub closed spec fn buffer(self) -> Seq<u8> {
        self.buffer@
    }

    /// The task's state agrees with its buffer and its chunks.
    pub closed spec fn wf(self) -> bool {
        let pieces = self.pieces@;
        &&& self.buffer@ == buffer_after(pieces)
        &&& pieces_fit(pieces)
        &&& match self.writer {
            DfuWriter::AwaitingFirstChunk => pieces.len() == 0,
            DfuWriter::Preparing { first_len } => pieces.len() == 1 && first_len == pieces[0].len(),
            DfuWriter::WritingFirst { first_len } => pieces.len() == 1 && first_len
                == pieces[0].len(),
            DfuWriter::Receiving { offset } => pieces.len() >= 1 && offset == uploaded(
                pieces,
            ).len(),
            DfuWriter::Writing { offset, len } => pieces.len() >= 2 && len == pieces.last().len()
                && len > 0 && offset == uploaded(pieces.drop_last()).len(),
            DfuWriter::MarkingUpdated | DfuWriter::Finished => pieces.len() >= 1,
        }
    }
}

proof fn lemma_buffer_len(pieces: Seq<Seq<u8>>)
    requires
        pieces_fit(pieces),
    ensures
        buffer_after(pieces).len() == DFU_PIPE_BUFFER_SIZE,
    decreases pieces.len(),
{
    if pieces.len() > 0 {
        let pre = pieces.drop_last();
        assert(pieces_fit(pre)) by {
            assert forall|i: int| 0 <= i < pre.len() implies #[trigger] pre[i].len()
                <= DFU_PIPE_BUFFER_SIZE by {
                assert(pre[i] == pieces[i]);
            }
        }
        lemma_buffer_len(pre);
        assert(pieces.last() == pieces[pieces.len() - 1]);
    }
}

/// Every write of an attempt is the buffer at the offset where the chunks
/// before it end, and together the writes put the uploaded bytes in place:
/// after the writes of the chunks `pieces`, in order, each position below
/// their total length holds the uploaded byte at that position (the last
/// write that covers it decides).
pub proof fn lemma_writes_hold_upload(pieces: Seq<Seq<u8>>)
    requires
        pieces_fit(pieces),
    ensures
        writes_of(pieces).len() == pieces.len(),
        forall|at: int|
            0 <= at < uploaded(pieces).len() ==> #[trigger] image_byte(writes_of(pieces), at)
                == Some(uploaded(pieces)[at]),
    decreases pieces.len(),
{
    if pieces.len() > 0 {
        let pre = pieces.drop_last();
        let q = pieces.last();
        assert(pieces_fit(pre)) by {
            assert forall|i: int| 0 <= i < pre.len() implies #[trigger] pre[i].len()
                <= DFU_PIPE_BUFFER_SIZE by {
                assert(pre[i] == pieces[i]);
            }
        }
        assert(q == pieces[pieces.len() - 1]);
        lemma_writes_hold_upload(pre);
        lemma_buffer_len(pre);
        let o = uploaded(pre).len() as int;
        let b = buffer_after(pieces);
        let w = writes_of(pieces);
        assert(w.drop_last() =~= writes_of(pre));
        assert(w.last() == (o, b));
        assert(b =~= q + buffer_after(pre).skip(q.len() as int));
        assert forall|at: int| 0 <= at < uploaded(pieces).len() implies #[trigger] image_byte(
            w,
            at,
        ) == Some(uploaded(pieces)[at]) by {
            if at < o {
                assert(uploaded(pieces)[at] == uploaded(pre)[at]);
                assert(image_byte(w, at) == image_byte(writes_of(pre), at));
            } else {
                assert(uploaded(pieces)[at] == q[at - o]);
                assert(b[at - o] == q[at - o]);
            }
        }
    }
}

fn zeroed_buffer() -> (b: Vec<u8>)
    ensures
        b@ == zero_buffer(),
{
    let mut b: Vec<u8> = Vec::new();
    while b.len() < DFU_PIPE_BUFFER_SIZE
        invariant
            b.len() <= DFU_PIPE_BUFFER_SIZE,
            forall|i: int| 0 <= i < b.len() ==> b@[i] == 0u8,
        decreases DFU_PIPE_BUFFER_SIZE - b.len(),
    {
        b.push(0u8);
    }
    assert(b@ =~= zero_buffer());
    b
}

impl DfuTask {
    /// The flash task at start-up: waiting for a first chunk, with a zeroed buffer.
    pub fn new() -> (t: DfuTask)
        ensures
            t.wf(),
            t.writer() == DfuWriter::AwaitingFirstChunk,
            t.pieces() == Seq::<Seq<u8>>::empty(),
    {
        DfuTask { writer: DfuWriter::new(), buffer: zeroed_buffer(), pieces: Ghost(Seq::empty()) }
    }

    /// Where the task stands.
    pub fn state(&self) -> (w: DfuWriter)
        ensures
            w == self.writer(),
    {
        self.writer
    }

    /// The command that the task's state calls for.
    pub fn command(&self) -> (c: DfuCommand)
        ensures
            c == dfu_command(self.writer()),
    {
        self.writer.command()
    }

    /// The write that the task asks for, while it writes: the offset where
    /// the chunks before the current one end, and the whole buffer, which
    /// starts with the current chunk.
    pub fn pending_write(&self) -> (w: Option<(u32, &[u8])>)
        requires
            self.wf(),
        ensures
            match dfu_command(self.writer()) {
                DfuCommand::WriteBuffer { offset } => w matches Some((o, bytes)) && o == offset
                    && bytes@ == self.buffer() && writes_of(self.pieces()).last() == (
                    o as int,
                    bytes@,
                ),
                _ => w is None,
            },
    {
        match self.writer.command() {
            DfuCommand::WriteBuffer { offset } => {
                proof {
                    let pieces = self.pieces@;
                    assert(pieces.len() >= 1);
                    assert(writes_of(pieces).last() == (
                        uploaded(pieces.drop_last()).len() as int,
                        buffer_after(pieces),
                    ));
                    if self.writer is WritingFirst {
                        assert(pieces.drop_last() =~= Seq::<Seq<u8>>::empty());
                    }
                }
                Some((offset, self.buffer.as_slice()))
            },
            _ => None,
        }
    }

    /// Takes a chunk read from the pipe (empty when the pipe gave no bytes)
    /// while the task waits for one: the chunk lands at the start of the
    /// buffer, and the task moves on as `DfuWriter` does on its length.
    pub fn receive(&mut self, piece: &[u8])
        requires
            old(self).wf(),
            old(self).writer() is AwaitingFirstChunk || old(self).writer() is Receiving,
            piece@.len() <= DFU_PIPE_BUFFER_SIZE,
        ensures
            final(self).wf(),
            final(self).writer() == dfu_transition(
                old(self).writer(),
                read_event(old(self).writer(), piece@),
            ).0,
            final(self).pieces() == pieces_after_read(old(self).writer(), old(self).pieces(), piece@),
    {
        let ghost old_buffer = self.buffer@;
        let ghost old_pieces = self.pieces@;
        proof {
            lemma_buffer_len(old_pieces);
        }
        let n: usize = piece.len();
        let mut i: usize = 0;
        while i < n
            invariant
                0 <= i <= n,
                n == piece@.len(),
                n <= DFU_PIPE_BUFFER_SIZE,
                old_buffer.len() == DFU_PIPE_BUFFER_SIZE,
                self.writer == old(self).writer,
                self.pieces == old(self).pieces,
                self.buffer@.len() == DFU_PIPE_BUFFER_SIZE,
                forall|j: int| 0 <= j < i ==> self.buffer@[j] == piece@[j],
                forall|j: int| i <= j < DFU_PIPE_BUFFER_SIZE ==> self.buffer@[j] == old_buffer[j],
            decreases n - i,
        {
            self.buffer.set(i, piece[i]);
            i = i + 1;
        }
        assert(self.buffer@ =~= fill(old_buffer, piece@));
        let event = match self.writer {
            DfuWriter::AwaitingFirstChunk => DfuEvent::FirstChunk(n as u32),
            _ => DfuEvent::NextChunk(n as u32),
        };
        let (next, _) = self.writer.handle(event);
        self.writer = next;
        proof {
            if old_pieces.len() == 0 {
                assert(seq![piece@].drop_last() =~= Seq::<Seq<u8>>::empty());
                self.pieces = Ghost(seq![piece@]);
                assert(seq![piece@].last() == piece@);
                assert(buffer_after(Seq::<Seq<u8>>::empty()) == zero_buffer());
                assert(buffer_after(seq![piece@]) == fill(zero_buffer(), piece@));
                assert(pieces_fit(self.pieces@));
            } else if n == 0 {
                assert(piece@ =~= Seq::<u8>::empty());
                assert(self.buffer@ =~= old_buffer);
            } else {
                let np = old_pieces.push(piece@);
                assert(np.drop_last() =~= old_pieces);
                self.pieces = Ghost(np);
                assert(pieces_fit(np)) by {
                    assert forall|j: int| 0 <= j < np.len() implies #[trigger] np[j].len()
                        <= DFU_PIPE_BUFFER_SIZE by {
                        if j < old_pieces.len() {
                            assert(np[j] == old_pieces[j]);
                        }
                    }
                }
            }
        }
    }

    /// Takes the outcome of a step other than a read, and returns the report
    /// for the upload endpoint where the update ended. A task that goes back
    /// to waiting for an image starts over with a zeroed buffer and no chunks.
    pub fn handle(&mut self, event: DfuEvent) -> (report: Option<DfuUpdateResult>)
        requires
            old(self).wf(),
            dfu_event_fits(old(self).writer(), event),
            dfu_offset_fits(old(self).writer(), event),
            !(event is FirstChunk),
            !(event is NextChunk),
        ensures
            final(self).wf(),
            (final(self).writer(), report) == dfu_transition(old(self).writer(), event),
            final(self).pieces() == if final(self).writer() is AwaitingFirstChunk {
                Seq::<Seq<u8>>::empty()
            } else {
                old(self).pieces()
            },
    {
        let (next, report) = self.writer.handle(event);
        self.writer = next;
        match next {
            DfuWriter::AwaitingFirstChunk => {
                self.buffer = zeroed_buffer();
                self.pieces = Ghost(Seq::empty());
            },
            _ => {
                proof {
                    let pieces = self.pieces@;
                    if next is Receiving {
                        if pieces.len() == 1 {
                            assert(pieces.drop_last() =~= Seq::<Seq<u8>>::empty());
                            assert(uploaded(pieces.drop_last()) == Seq::<u8>::empty());
                            assert(pieces.last() == pieces[0]);
                            assert(uploaded(pieces) =~= pieces[0]);
                        }
                    }
                }
            },
        }
        report
    }
}

/// The bytes the flash task wrote are the bytes it read: in every state, the
/// writes of the chunks that the current attempt has written put those
/// chunks' bytes, one after another, at the start of the partition. When the
/// task marks the image, every chunk of the attempt was written.
pub proof fn lemma_partition_holds_written_chunks(t: DfuTask)
    requires
        t.wf(),
    ensures
        forall|at: int|
            0 <= at < uploaded(written_pieces(t.writer(), t.pieces())).len() ==> #[trigger] image_byte(
                writes_of(written_pieces(t.writer(), t.pieces())),
                at,
            ) == Some(uploaded(written_pieces(t.writer(), t.pieces()))[at]),
        t.writer() is MarkingUpdated ==> written_pieces(t.writer(), t.pieces()) == t.pieces(),
{
    let w = written_pieces(t.writer(), t.pieces());
    assert(pieces_fit(w)) by {
        assert forall|i: int| 0 <= i < w.len() implies #[trigger] w[i].len()
            <= DFU_PIPE_BUFFER_SIZE by {
            assert(w[i] == t.pieces()[i]);
        }
    }
    lemma_writes_hold_upload(w);
}

/// What the upload endpoint forwarded is what the partition holds when the
/// image is marked: where the chunks that the flash task read from the pipe
/// carry, one after another, the bytes of the pieces that the endpoint wrote
/// into it (the pipe hands bytes on in order), the partition holds those
/// bytes from its start once the task is about to mark the image.
pub proof fn lemma_marked_partition_holds_forwarded_bytes(t: DfuTask, forwarded: Seq<Seq<u8>>)
    requires
        t.wf(),
        t.writer() is MarkingUpdated,
        uploaded(t.pieces()) == uploaded(forwarded),
    ensures
        forall|at: int|
            0 <= at < uploaded(forwarded).len() ==> #[trigger] image_byte(
                writes_of(t.pieces()),
                at,
            ) == Some(uploaded(forwarded)[at]),
{
    lemma_partition_holds_written_chunks(t);
    assert forall|at: int| 0 <= at < uploaded(forwarded).len() implies #[trigger] image_byte(
        writes_of(t.pieces()),
        at,
    ) == Some(uploaded(forwarded)[at]) by {
        assert(image_byte(writes_of(written_pieces(t.writer(), t.pieces())), at) == Some(
            uploaded(written_pieces(t.writer(), t.pieces()))[at],
        ));
    }
}

} // verus!
