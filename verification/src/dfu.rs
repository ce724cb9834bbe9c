//! Firmware update over HTTP: how an update ends, and why it fails.
//!
//! The web server relays the uploaded image through a pipe to a flash task
//! (`flash_task`), which writes it to the update partition and marks it for
//! the bootloader, and which reports the end of the update to the upload
//! endpoint (`upload`). The flash and updater error types hold the variants of
//! the error types of the RP2040 flash driver, of the flash partition and of
//! the firmware updater.

use vstd::prelude::*;
use crate::text::bracketed;

verus! {

/// Size of the buffer used for DFU updates: four pages of flash memory of 256 bytes.
pub const DFU_PIPE_BUFFER_SIZE: usize = 1024;

/// Kind of a NOR flash error.
#[derive(Clone, Copy, Debug, PartialEq, Eq, Structural)]
pub enum NorFlashErrorKind {
    NotAligned,
    OutOfBounds,
    Other,
}

/// Error of the RP2040 flash driver.
#[derive(Clone, Copy, Debug, PartialEq, Eq, Structural)]
pub enum FlashError {
    OutOfBounds,
    Unaligned,
    InvalidCore,
    Other,
}

/// Error of a flash partition over the RP2040 flash.
#[derive(Clone, Copy, Debug, PartialEq, Eq, Structural)]
pub enum PartitionError {
    /// The requested flash area is outside the partition
    OutOfBounds,
    /// Underlying flash error
    Flash(FlashError),
}

/// Error of the firmware updater.
#[derive(Clone, Copy, Debug, PartialEq, Eq, Structural)]
pub enum FirmwareUpdaterError {
    Flash(NorFlashErrorKind),
    /// The image signature did not verify (the signature error carries
    /// nothing on the firmware's target).
    Signature,
    BadState,
}

/// Why a firmware update failed.
#[derive(Clone, Copy, Debug, PartialEq, Eq, Structural)]
pub enum DfuUpdateFailureReason {
    /// DFU update failed due to a firmware updater error
    FirmwareUpdater(FirmwareUpdaterError),
    /// DFU update failed due to a flash error
    Flash(FlashError),
    /// DFU update failed due to a partition error
    Partition(PartitionError),
}

/// How a firmware update ended.
#[derive(Clone, Copy, Debug, PartialEq, Eq, Structural)]
pub enum DfuUpdateResult {
    /// DFU update was successful
    ///
    /// No guarantee this will ever be received,
    /// as the chip is reset rather quickly after a successful update
    Success,
    /// DFU update failed
    Failure(DfuUpdateFailureReason),
}

impl From<FirmwareUpdaterError> for DfuUpdateFailureReason {
    fn from(e: FirmwareUpdaterError) -> (r: Self) {
        DfuUpdateFailureReason::FirmwareUpdater(e)
    }
}

impl vstd::std_specs::convert::FromSpecImpl<FirmwareUpdaterError> for DfuUpdateFailureReason {
    open spec fn obeys_from_spec() -> bool {
        true
    }

    open spec fn from_spec(e: FirmwareUpdaterError) -> Self {
        DfuUpdateFailureReason::FirmwareUpdater(e)
    }
}

impl From<FlashError> for DfuUpdateFailureReason {
    fn from(e: FlashError) -> (r: Self) {
        DfuUpdateFailureReason::Flash(e)
    }
}

impl vstd::std_specs::convert::FromSpecImpl<FlashError> for DfuUpdateFailureReason {
    open spec fn obeys_from_spec() -> bool {
        true
    }

    open spec fn from_spec(e: FlashError) -> Self {
        DfuUpdateFailureReason::Flash(e)
    }
}

/// The failure reason that a partition error becomes: a flash error inside
/// it is reported as a flash error.
pub open spec fn failure_of_partition_error(e: PartitionError) -> DfuUpdateFailureReason {
    match e {
        PartitionError::Flash(f) => DfuUpdateFailureReason::Flash(f),
        _ => DfuUpdateFailureReason::Partition(e),
    }
}

impl From<PartitionError> for DfuUpdateFailureReason {
    fn from(e: PartitionError) -> (r: Self) {
        match e {
            PartitionError::Flash(f) => DfuUpdateFailureReason::Flash(f),
            _ => DfuUpdateFailureReason::Partition(e),
        }
    }
}

impl vstd::std_specs::convert::FromSpecImpl<PartitionError> for DfuUpdateFailureReason {
    open spec fn obeys_from_spec() -> bool {
        true
    }

    open spec fn from_spec(e: PartitionError) -> Self {
        failure_of_partition_error(e)
    }
}

/// Text of a NOR flash error kind, as its debug form shows it.
pub open spec fn nor_flash_kind_text(k: NorFlashErrorKind) -> Seq<char> {
    match k {
        NorFlashErrorKind::NotAligned => "NotAligned"@,
        NorFlashErrorKind::OutOfBounds => "OutOfBounds"@,
        NorFlashErrorKind::Other => "Other"@,
    }
}

/// Text of a flash error, as its debug form shows it.
pub open spec fn flash_error_text(e: FlashError) -> Seq<char> {
    match e {
        FlashError::OutOfBounds => "OutOfBounds"@,
        FlashError::Unaligned => "Unaligned"@,
        FlashError::InvalidCore => "InvalidCore"@,
        FlashError::Other => "Other"@,
    }
}

/// Text of a partition error, as its debug form shows it.
pub open spec fn partition_error_text(e: PartitionError) -> Seq<char> {
    match e {
        PartitionError::OutOfBounds => "OutOfBounds"@,
        PartitionError::Flash(f) => "Flash("@ + flash_error_text(f) + ")"@,
    }
}

/// Text of a firmware updater error, as its debug form shows it.
pub open spec fn updater_error_text(e: FirmwareUpdaterError) -> Seq<char> {
    match e {
        FirmwareUpdaterError::Flash(k) => "Flash("@ + nor_flash_kind_text(k) + ")"@,
        FirmwareUpdaterError::Signature => "Signature(signature::Error {})"@,
        FirmwareUpdaterError::BadState => "BadState"@,
    }
}

/// Text of a failure reason, which the upload endpoint answers with.
pub open spec fn failure_text(r: DfuUpdateFailureReason) -> Seq<char> {
    match r {
        DfuUpdateFailureReason::FirmwareUpdater(e) => "FirmwareUpdaterError("@ + updater_error_text(
            e,
        ) + ")"@,
        DfuUpdateFailureReason::Flash(e) => "FlashError("@ + flash_error_text(e) + ")"@,
        DfuUpdateFailureReason::Partition(e) => "PartitionError("@ + partition_error_text(e)
            + ")"@,
    }
}

impl NorFlashErrorKind {
    /// Text of the error kind, as its debug form shows it.
    pub fn text(&self) -> (t: String)
        ensures
            t@ == nor_flash_kind_text(*self),
    {
        match self {
            NorFlashErrorKind::NotAligned => String::from_str("NotAligned"),
            NorFlashErrorKind::OutOfBounds => String::from_str("OutOfBounds"),
            NorFlashErrorKind::Other => String::from_str("Other"),
        }
    }
}

impl FlashError {
    /// Text of the error, as its debug form shows it.
    pub fn text(&self) -> (t: String)
        ensures
            t@ == flash_error_text(*self),
    {
        match self {
            FlashError::OutOfBounds => String::from_str("OutOfBounds"),
            FlashError::Unaligned => String::from_str("Unaligned"),
            FlashError::InvalidCore => String::from_str("InvalidCore"),
            FlashError::Other => String::from_str("Other"),
        }
    }
}

impl PartitionError {
    /// Text of the error, as its debug form shows it.
    pub fn text(&self) -> (t: String)
        ensures
            t@ == partition_error_text(*self),
    {
        match self {
            PartitionError::OutOfBounds => String::from_str("OutOfBounds"),
            PartitionError::Flash(f) => bracketed("Flash(", f.text()),
        }
    }
}

impl FirmwareUpdaterError {
    /// Text of the error, as its debug form shows it.
    pub fn text(&self) -> (t: String)
        ensures
            t@ == updater_error_text(*self),
    {
        match self {
            FirmwareUpdaterError::Flash(k) => bracketed("Flash(", k.text()),
            FirmwareUpdaterError::Signature => String::from_str("Signature(signature::Error {})"),
            FirmwareUpdaterError::BadState => String::from_str("BadState"),
        }
    }
}

impl DfuUpdateFailureReason {
    /// The text that the upload endpoint answers a failed update with.
    pub fn text(&self) -> (t: String)
        ensures
            t@ == failure_text(*self),
    {
        match self {
            DfuUpdateFailureReason::FirmwareUpdater(e) => bracketed("FirmwareUpdaterError(", e.text()),
            DfuUpdateFailureReason::Flash(e) => bracketed("FlashError(", e.text()),
            DfuUpdateFailureReason::Partition(e) => bracketed("PartitionError(", e.text()),
        }
    }
}

/// A partition error never reaches the report with a flash error inside it.
pub proof fn lemma_partition_failures_hold_no_flash_error(e: PartitionError)
    ensures
        failure_of_partition_error(e) matches DfuUpdateFailureReason::Partition(p) ==> p
            == PartitionError::OutOfBounds,
{
}

} // verus!
