//! The upload endpoint of a firmware update.
//!
//! The endpoint reads the request body piece by piece and writes each piece
//! into the pipe to the flash task, until the body ends or the flash task
//! reports a failure. When the body ends it signals the end of the upload and
//! answers 200 with an empty JSON object; on a reported failure it answers
//! 500 with the failure's text. `UploadRelay` decides the steps; the firmware
//! performs them.

use vstd::prelude::*;

use crate::dfu::{DfuUpdateFailureReason, DfuUpdateResult, DFU_PIPE_BUFFER_SIZE};

verus! {

/// Where the upload endpoint stands while it relays an image to the flash task.
#[derive(Clone, Debug, PartialEq, Eq)]
pub enum UploadRelay {
    /// Reading the next piece of the request body, or a report of the flash task.
    ReadingBody,
    /// Writing `piece` into the pipe, or waiting for a report of the flash task.
    Forwarding { piece: Vec<u8> },
    /// The whole body was forwarded; the endpoint signals the end of the
    /// upload and answers 200 with an empty JSON object.
    Completed,
    /// The flash task reported a failure; the endpoint answers 500 with it.
    Failed(DfuUpdateFailureReason),
    /// Reading the body failed; the endpoint returns that error.
    BodyError,
}

/// The outcome of the step that the upload endpoint performed.
#[derive(Clone, Debug, PartialEq, Eq)]
pub enum UploadEvent {
    /// A piece of the body was read (empty at the end of the body).
    BodyRead(Vec<u8>),
    /// Reading the body failed.
    BodyReadFailed,
    /// The piece was written into the pipe.
    Forwarded,
    /// The flash task reported how the update ended.
    UpdateReported(DfuUpdateResult),
}

/// The upload endpoint as the contracts see it: pieces by their bytes.
pub enum RelayState {
    ReadingBody,
    Forwarding(Seq<u8>),
    Completed,
    Failed(DfuUpdateFailureReason),
    BodyError,
}

/// An outcome of a step of the upload endpoint as the contracts see it.
pub enum RelayEvent {
    BodyRead(Seq<u8>),
    BodyReadFailed,
    Forwarded,
    UpdateReported(DfuUpdateResult),
}

impl View for UploadRelay {
    type V = RelayState;

    open spec fn view(&self) -> RelayState {
        match self {
            UploadRelay::ReadingBody => RelayState::ReadingBody,
            UploadRelay::Forwarding { piece } => RelayState::Forwarding(piece@),
            UploadRelay::Completed => RelayState::Completed,
            UploadRelay::Failed(r) => RelayState::Failed(*r),
            UploadRelay::BodyError => RelayState::BodyError,
        }
    }
}

impl View for UploadEvent {
    type V = RelayEvent;

    open spec fn view(&self) -> RelayEvent {
        match self {
            UploadEvent::BodyRead(p) => RelayEvent::BodyRead(p@),
            UploadEvent::BodyReadFailed => RelayEvent::BodyReadFailed,
            UploadEvent::Forwarded => RelayEvent::Forwarded,
            UploadEvent::UpdateReported(r) => RelayEvent::UpdateReported(*r),
        }
    }
}

/// Whether an event can happen in a state of the upload endpoint. A piece of
/// the body fits the endpoint's buffer. The flash task reports success only
/// after the end of the upload, which the endpoint signals once it stops
/// reading, so a success report while relaying is not one.
pub open spec fn upload_event_fits(state: RelayState, event: RelayEvent) -> bool {
    match state {
        RelayState::ReadingBody => match event {
            RelayEvent::BodyRead(p) => p.len() <= DFU_PIPE_BUFFER_SIZE,
            RelayEvent::BodyReadFailed => true,
            RelayEvent::UpdateReported(r) => r is Failure,
            RelayEvent::Forwarded => false,
        },
        RelayState::Forwarding(_) => match event {
            RelayEvent::Forwarded => true,
            RelayEvent::UpdateReported(r) => r is Failure,
            _ => false,
        },
        _ => false,
    }
}

/// The next state of the upload endpoint.
pub open spec fn upload_transition(state: RelayState, event: RelayEvent) -> RelayState {
    match (state, event) {
        (RelayState::ReadingBody, RelayEvent::BodyRead(p)) => if p.len() == 0 {
            RelayState::Completed
        } else {
            RelayState::Forwarding(p)
        },
        (RelayState::ReadingBody, RelayEvent::BodyReadFailed) => RelayState::BodyError,
        (RelayState::Forwarding(_), RelayEvent::Forwarded) => RelayState::ReadingBody,
        (_, RelayEvent::UpdateReported(DfuUpdateResult::Failure(r))) => RelayState::Failed(r),
        _ => state,
    }
}

/// The body of the answer of the endpoint, once it answers.
pub open spec fn response_body_of(state: RelayState) -> Option<Seq<char>> {
    match state {
        RelayState::Completed => Some("{}"@),
        RelayState::Failed(r) => Some(crate::dfu::failure_text(r)),
        _ => None,
    }
}

impl UploadRelay {
    /// The endpoint when a request starts.
    pub fn new() -> (r: UploadRelay)
        ensures
            r@ == RelayState::ReadingBody,
    {
        UploadRelay::ReadingBody
    }

    /// Takes the outcome of the last step and returns the next state.
    pub fn handle(self, event: UploadEvent) -> (next: UploadRelay)
        requires
            upload_event_fits(self@, event@),
        ensures
            next@ == upload_transition(self@, event@),
            self@ is Forwarding && event@ is Forwarded ==> next@ == RelayState::ReadingBody,
            next@ is Completed ==> (self@ is ReadingBody && event@ is BodyRead
                && event@->BodyRead_0.len() == 0),
    {
        match (self, event) {
            (UploadRelay::ReadingBody, UploadEvent::BodyRead(p)) => if p.len() == 0 {
                UploadRelay::Completed
            } else {
                UploadRelay::Forwarding { piece: p }
            },
            (UploadRelay::ReadingBody, UploadEvent::BodyReadFailed) => UploadRelay::BodyError,
            (UploadRelay::Forwarding { .. }, UploadEvent::Forwarded) => UploadRelay::ReadingBody,
            (_, UploadEvent::UpdateReported(DfuUpdateResult::Failure(r))) => UploadRelay::Failed(r),
            (s, _) => s,
        }
    }

    /// The piece to write into the pipe next, while forwarding.
    pub fn pending_piece(&self) -> (p: Option<&[u8]>)
        ensures
            match self@ {
                RelayState::Forwarding(piece) => p matches Some(s) && s@ == piece,
                _ => p is None,
            },
    {
        match self {
            UploadRelay::Forwarding { piece } => Some(piece.as_slice()),
            _ => None,
        }
    }

    /// The HTTP status that the endpoint answers with, once it answers.
    pub fn response_status(&self) -> (status: Option<u16>)
        ensures
            status == match self@ {
                RelayState::Completed => Some(200u16),
                RelayState::Failed(_) => Some(500u16),
                _ => None::<u16>,
            },
    {
        match self {
            UploadRelay::Completed => Some(200),
            UploadRelay::Failed(_) => Some(500),
            _ => None,
        }
    }

    /// The body of the answer: `{}` when the upload completed, the failure's
    /// text when the flash task reported one.
    pub fn response_body(&self) -> (body: Option<String>)
        ensures
            crate::formats::option_text(body) == response_body_of(self@),
    {
        match self {
            UploadRelay::Completed => Some(String::from_str("{}")),
            UploadRelay::Failed(r) => Some(r.text()),
            _ => None,
        }
    }
}

/// Whether each event of a sequence can happen where it comes.
pub open spec fn upload_fitting(state: RelayState, events: Seq<RelayEvent>) -> bool
    decreases events.len(),
{
    events.len() == 0 || (upload_event_fits(state, events[0]) && upload_fitting(
        upload_transition(state, events[0]),
        events.drop_first(),
    ))
}

/// The states that the upload endpoint passes through on a sequence of events.
pub open spec fn upload_run(state: RelayState, events: Seq<RelayEvent>) -> RelayState
    decreases events.len(),
{
    if events.len() == 0 {
        state
    } else {
        upload_run(upload_transition(state, events[0]), events.drop_first())
    }
}

/// The pieces that the endpoint wrote into the pipe on a sequence of events, in order.
pub open spec fn upload_forwarded(state: RelayState, events: Seq<RelayEvent>) -> Seq<Seq<u8>>
    decreases events.len(),
{
    if events.len() == 0 {
        Seq::empty()
    } else {
        let rest = upload_forwarded(upload_transition(state, events[0]), events.drop_first());
        match (state, events[0]) {
            (RelayState::Forwarding(p), RelayEvent::Forwarded) => seq![p] + rest,
            _ => rest,
        }
    }
}

/// The non-empty pieces of the body that the endpoint read on a sequence of events, in order.
pub open spec fn upload_read(state: RelayState, events: Seq<RelayEvent>) -> Seq<Seq<u8>>
    decreases events.len(),
{
    if events.len() == 0 {
        Seq::empty()
    } else {
        let rest = upload_read(upload_transition(state, events[0]), events.drop_first());
        match (state, events[0]) {
            (RelayState::ReadingBody, RelayEvent::BodyRead(p)) => if p.len() > 0 {
                seq![p] + rest
            } else {
                rest
            },
            _ => rest,
        }
    }
}

/// The piece that a state holds but has not yet written into the pipe.
pub open spec fn upload_pending(state: RelayState) -> Seq<Seq<u8>> {
    match state {
        RelayState::Forwarding(p) => seq![p],
        _ => Seq::empty(),
    }
}

/// Whether a state still relays the body.
pub open spec fn relaying(state: RelayState) -> bool {
    state is ReadingBody || state is Forwarding
}

proof fn lemma_finished_relay_stays_finished(state: RelayState, events: Seq<RelayEvent>)
    requires
        !relaying(state),
    ensures
        upload_forwarded(state, events) == Seq::<Seq<u8>>::empty(),
        upload_read(state, events) == Seq::<Seq<u8>>::empty(),
        !relaying(upload_run(state, events)),
        !(state is Completed) ==> !(upload_run(state, events) is Completed),
        upload_fitting(state, events) ==> events.len() == 0,
    decreases events.len(),
{
    if events.len() > 0 {
        lemma_finished_relay_stays_finished(
            upload_transition(state, events[0]),
            events.drop_first(),
        );
    }
}

/// The endpoint answers 200 only after it has forwarded the body as read:
/// on any sequence of events that ends in the completed state, the pieces
/// written into the pipe are the pieces read from the body, in the same
/// order (after any piece that a forwarding state already held), and each
/// one holds between one byte and a buffer's worth; the answer's body is
/// then an empty JSON object.
pub proof fn lemma_completed_upload_forwards_whole_body(
    state: RelayState,
    events: Seq<RelayEvent>,
)
    requires
        relaying(state),
        upload_fitting(state, events),
        upload_run(state, events) is Completed,
    ensures
        response_body_of(upload_run(state, events)) == Some("{}"@),
        upload_forwarded(state, events) == upload_pending(state) + upload_read(state, events),
        forall|i: int|
            0 <= i < upload_read(state, events).len() ==> 0 < #[trigger] upload_read(
                state,
                events,
            )[i].len() <= DFU_PIPE_BUFFER_SIZE,
    decreases events.len(),
{
    let next = upload_transition(state, events[0]);
    let rest = events.drop_first();
    if relaying(next) {
        lemma_completed_upload_forwards_whole_body(next, rest);
        match (state, events[0]) {
            (RelayState::ReadingBody, RelayEvent::BodyRead(p)) => {
                assert(upload_read(state, events) =~= seq![p] + upload_read(next, rest));
                assert(upload_forwarded(state, events) =~= upload_pending(state) + upload_read(
                    state,
                    events,
                ));
                assert forall|i: int| 0 <= i < upload_read(state, events).len() implies 0
                    < #[trigger] upload_read(state, events)[i].len() <= DFU_PIPE_BUFFER_SIZE by {
                    if i > 0 {
                        assert(upload_read(state, events)[i] == upload_read(next, rest)[i - 1]);
                    }
                }
            },
            (RelayState::Forwarding(p), RelayEvent::Forwarded) => {
                assert(upload_forwarded(state, events) =~= upload_pending(state) + upload_read(
                    state,
                    events,
                ));
            },
            _ => {},
        }
    } else {
        lemma_finished_relay_stays_finished(next, rest);
        assert(upload_read(state, events) =~= Seq::<Seq<u8>>::empty());
        assert(upload_forwarded(state, events) =~= upload_pending(state) + upload_read(
            state,
            events,
        ));
    }
}

/// The end of the upload is signalled once, after the last piece: along
/// events that can happen, the endpoint reaches the completed state only with
/// the last of them, and answers then.
pub proof fn lemma_completion_is_last(state: RelayState, events: Seq<RelayEvent>, k: int)
    requires
        upload_fitting(state, events),
        0 <= k <= events.len(),
        upload_run(state, events.take(k)) is Completed,
    ensures
        k == events.len(),
    decreases k,
{
    if k > 0 && relaying(state) {
        assert(events.take(k).drop_first() =~= events.drop_first().take(k - 1));
        lemma_completion_is_last(upload_transition(state, events[0]), events.drop_first(), k - 1);
    } else if k > 0 {
        assert(events.len() == 0 || !upload_event_fits(state, events[0]));
    } else {
        assert(events.take(0) =~= Seq::<RelayEvent>::empty());
        lemma_finished_relay_stays_finished(state, events);
    }
}

/// The endpoint completes only at the end of the body: from a state that
/// still relays, an event leads to the completed state exactly when it is a
/// read of the body that gave no bytes; a piece that was forwarded, however
/// short, is always followed by another read.
pub proof fn lemma_completes_only_at_end_of_body(state: RelayState, event: RelayEvent)
    requires
        relaying(state),
    ensures
        upload_transition(state, event) is Completed <==> (state is ReadingBody
            && event is BodyRead && event->BodyRead_0.len() == 0),
        state is Forwarding && event is Forwarded ==> upload_transition(state, event)
            == RelayState::ReadingBody,
{
}

} // verus!
