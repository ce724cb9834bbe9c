use weather_station::dfu_task::DfuTask;
use weather_station::dfu::{
    DfuUpdateFailureReason, DfuUpdateResult, FirmwareUpdaterError, FlashError, NorFlashErrorKind,
    PartitionError, DFU_PIPE_BUFFER_SIZE,
};
use weather_station::flash_task::{DfuCommand, DfuEvent, DfuWriter};
use weather_station::upload::{UploadEvent, UploadRelay};

#[test]
fn pipe_buffer_is_four_flash_pages() {
    assert_eq!(DFU_PIPE_BUFFER_SIZE, 4 * 256);
}

#[test]
fn partition_errors_report_their_flash_error() {
    assert_eq!(
        DfuUpdateFailureReason::from(PartitionError::Flash(FlashError::Unaligned)),
        DfuUpdateFailureReason::Flash(FlashError::Unaligned)
    );
    assert_eq!(
        DfuUpdateFailureReason::from(PartitionError::OutOfBounds),
        DfuUpdateFailureReason::Partition(PartitionError::OutOfBounds)
    );
    assert_eq!(
        DfuUpdateFailureReason::from(FlashError::InvalidCore),
        DfuUpdateFailureReason::Flash(FlashError::InvalidCore)
    );
    assert_eq!(
        DfuUpdateFailureReason::from(FirmwareUpdaterError::BadState),
        DfuUpdateFailureReason::FirmwareUpdater(FirmwareUpdaterError::BadState)
    );
}

#[test]
fn failure_texts() {
    assert_eq!(
        DfuUpdateFailureReason::FirmwareUpdater(FirmwareUpdaterError::Flash(NorFlashErrorKind::NotAligned)).text(),
        "FirmwareUpdaterError(Flash(NotAligned))"
    );
    assert_eq!(
        DfuUpdateFailureReason::FirmwareUpdater(FirmwareUpdaterError::BadState).text(),
        "FirmwareUpdaterError(BadState)"
    );
    assert_eq!(DfuUpdateFailureReason::Flash(FlashError::OutOfBounds).text(), "FlashError(OutOfBounds)");
    assert_eq!(
        DfuUpdateFailureReason::FirmwareUpdater(FirmwareUpdaterError::Signature).text(),
        "FirmwareUpdaterError(Signature(signature::Error {}))"
    );
    assert_eq!(
        DfuUpdateFailureReason::Partition(PartitionError::OutOfBounds).text(),
        "PartitionError(OutOfBounds)"
    );
    assert_eq!(
        DfuUpdateFailureReason::Partition(PartitionError::Flash(FlashError::Other)).text(),
        "PartitionError(Flash(Other))"
    );
}

fn step(w: DfuWriter, e: DfuEvent) -> (DfuWriter, Option<DfuUpdateResult>) {
    w.handle(e)
}

#[test]
fn successful_update_writes_chunks_at_running_offsets() {
    let mut w = DfuWriter::new();
    let mut writes = Vec::new();
    assert_eq!(w.command(), DfuCommand::ReadFirstChunk);
    (w, _) = step(w, DfuEvent::FirstChunk(1024));
    assert_eq!(w.command(), DfuCommand::PrepareUpdate);
    (w, _) = step(w, DfuEvent::Prepared);
    if let DfuCommand::WriteBuffer { offset } = w.command() {
        writes.push(offset);
    }
    (w, _) = step(w, DfuEvent::Written);
    for n in [1024u32, 700, 1] {
        assert_eq!(w.command(), DfuCommand::AwaitChunkOrDone);
        (w, _) = step(w, DfuEvent::NextChunk(n));
        if let DfuCommand::WriteBuffer { offset } = w.command() {
            writes.push(offset);
        }
        let (next, report) = step(w, DfuEvent::Written);
        assert_eq!(report, None);
        w = next;
    }
    assert_eq!(writes, vec![0, 1024, 2048, 2748]);
    assert_eq!(w, DfuWriter::Receiving { offset: 2749 });
    (w, _) = step(w, DfuEvent::UploadDone);
    assert_eq!(w.command(), DfuCommand::MarkUpdated);
    let (w, report) = step(w, DfuEvent::Marked);
    assert_eq!(report, Some(DfuUpdateResult::Success));
    assert_eq!(w.command(), DfuCommand::Reset);
}

#[test]
fn empty_chunk_ends_the_upload() {
    let w = DfuWriter::Receiving { offset: 10 };
    let (w, report) = step(w, DfuEvent::NextChunk(0));
    assert_eq!(w, DfuWriter::MarkingUpdated);
    assert_eq!(report, None);
}

#[test]
fn failures_are_reported_and_restart() {
    let (w, r) = step(DfuWriter::Preparing { first_len: 5 }, DfuEvent::PrepareFailed(FirmwareUpdaterError::BadState));
    assert_eq!(w, DfuWriter::AwaitingFirstChunk);
    assert_eq!(
        r,
        Some(DfuUpdateResult::Failure(DfuUpdateFailureReason::FirmwareUpdater(FirmwareUpdaterError::BadState)))
    );
    let (w, r) = step(
        DfuWriter::Writing { offset: 2048, len: 10 },
        DfuEvent::WriteFailed(PartitionError::Flash(FlashError::Unaligned)),
    );
    assert_eq!(w, DfuWriter::AwaitingFirstChunk);
    assert_eq!(r, Some(DfuUpdateResult::Failure(DfuUpdateFailureReason::Flash(FlashError::Unaligned))));
    let (w, r) = step(DfuWriter::WritingFirst { first_len: 3 }, DfuEvent::WriteFailed(PartitionError::OutOfBounds));
    assert_eq!(w, DfuWriter::AwaitingFirstChunk);
    assert_eq!(
        r,
        Some(DfuUpdateResult::Failure(DfuUpdateFailureReason::Partition(PartitionError::OutOfBounds)))
    );
    let (w, r) = step(
        DfuWriter::MarkingUpdated,
        DfuEvent::MarkFailed(FirmwareUpdaterError::Flash(NorFlashErrorKind::Other)),
    );
    assert_eq!(w, DfuWriter::AwaitingFirstChunk);
    assert_eq!(
        r,
        Some(DfuUpdateResult::Failure(DfuUpdateFailureReason::FirmwareUpdater(FirmwareUpdaterError::Flash(
            NorFlashErrorKind::Other
        ))))
    );
}

#[test]
fn upload_relays_the_body_then_answers_ok() {
    let body: Vec<u8> = (0..1539u32).map(|i| (i % 251) as u8).collect();
    let mut r = UploadRelay::new();
    let mut pipe: Vec<u8> = Vec::new();
    for chunk in body.chunks(1024) {
        r = r.handle(UploadEvent::BodyRead(chunk.to_vec()));
        assert_eq!(r, UploadRelay::Forwarding { piece: chunk.to_vec() });
        pipe.extend_from_slice(r.pending_piece().unwrap());
        r = r.handle(UploadEvent::Forwarded);
        assert_eq!(r, UploadRelay::ReadingBody);
        assert_eq!(r.pending_piece(), None);
        assert_eq!(r.response_status(), None);
        assert_eq!(r.response_body(), None);
    }
    r = r.handle(UploadEvent::BodyRead(Vec::new()));
    assert_eq!(r, UploadRelay::Completed);
    assert_eq!(r.response_status(), Some(200));
    assert_eq!(r.response_body().unwrap(), "{}");
    assert_eq!(pipe, body);
}

#[test]
fn upload_answers_a_reported_failure() {
    let reason = DfuUpdateFailureReason::Flash(FlashError::OutOfBounds);
    let r = UploadRelay::new().handle(UploadEvent::BodyRead(vec![1, 2, 3]));
    let r = r.handle(UploadEvent::UpdateReported(DfuUpdateResult::Failure(reason)));
    assert_eq!(r, UploadRelay::Failed(reason));
    assert_eq!(r.response_status(), Some(500));
    assert_eq!(r.response_body().unwrap(), "FlashError(OutOfBounds)");
    let r = UploadRelay::new().handle(UploadEvent::UpdateReported(DfuUpdateResult::Failure(reason)));
    assert_eq!(r, UploadRelay::Failed(reason));
}

#[test]
fn upload_read_error_is_returned() {
    let r = UploadRelay::new().handle(UploadEvent::BodyReadFailed);
    assert_eq!(r, UploadRelay::BodyError);
    assert_eq!(r.response_status(), None);
    assert_eq!(r.response_body(), None);
}

fn apply_write(image: &mut Vec<u8>, offset: u32, bytes: &[u8]) {
    let end = offset as usize + bytes.len();
    if image.len() < end {
        image.resize(end, 0xff);
    }
    image[offset as usize..end].copy_from_slice(bytes);
}

#[test]
fn task_writes_the_uploaded_bytes_into_the_partition() {
    let pieces: Vec<Vec<u8>> = vec![
        (0..1024u32).map(|i| (i % 251) as u8).collect(),
        (0..700u32).map(|i| (i % 13) as u8 + 100).collect(),
        vec![7u8],
    ];
    let body: Vec<u8> = pieces.concat();
    let mut t = DfuTask::new();
    let mut image: Vec<u8> = Vec::new();
    let mut offsets = Vec::new();
    assert_eq!(t.command(), DfuCommand::ReadFirstChunk);
    t.receive(&pieces[0]);
    assert_eq!(t.handle(DfuEvent::Prepared), None);
    for (k, piece) in pieces.iter().enumerate() {
        if k > 0 {
            assert_eq!(t.command(), DfuCommand::AwaitChunkOrDone);
            t.receive(piece);
        }
        let (offset, bytes) = t.pending_write().expect("a write is due");
        assert_eq!(bytes.len(), DFU_PIPE_BUFFER_SIZE);
        assert_eq!(&bytes[..piece.len()], &piece[..]);
        offsets.push(offset);
        apply_write(&mut image, offset, bytes);
        assert_eq!(t.handle(DfuEvent::Written), None);
    }
    assert_eq!(offsets, vec![0, 1024, 1724]);
    t.receive(&[]);
    assert_eq!(t.state(), DfuWriter::MarkingUpdated);
    assert_eq!(&image[..body.len()], &body[..]);
    assert_eq!(t.handle(DfuEvent::Marked), Some(DfuUpdateResult::Success));
    assert_eq!(t.command(), DfuCommand::Reset);
}

#[test]
fn task_buffer_keeps_stale_bytes_after_a_short_chunk() {
    let mut t = DfuTask::new();
    t.receive(&[1, 2, 3]);
    t.handle(DfuEvent::Prepared);
    let (_, bytes) = t.pending_write().expect("a write is due");
    assert_eq!(&bytes[..4], &[1, 2, 3, 0]);
    t.handle(DfuEvent::Written);
    t.receive(&[9]);
    let (offset, bytes) = t.pending_write().expect("a write is due");
    assert_eq!(offset, 3);
    assert_eq!(&bytes[..4], &[9, 2, 3, 0]);
    // A failed write starts over with a zeroed buffer.
    let r = t.handle(DfuEvent::WriteFailed(PartitionError::OutOfBounds));
    assert!(matches!(r, Some(DfuUpdateResult::Failure(_))));
    assert_eq!(t.command(), DfuCommand::ReadFirstChunk);
    t.receive(&[5]);
    t.handle(DfuEvent::Prepared);
    let (offset, bytes) = t.pending_write().expect("a write is due");
    assert_eq!(offset, 0);
    assert_eq!(&bytes[..3], &[5, 0, 0]);
}
