//! Uploads and downloads: the retry policy for a transfer (exponential
//! backoff) and the decisions of the upload and download requests, as
//! state machines that the caller drives with the outcome of each step.

use vstd::prelude::*;
use crate::fs::{MediaInfo, transfer_size, transfer_size_spec};
use crate::models::{Failure, Status, failure, failure_text};
use crate::utils::{map_error, map_error_spec};

verus! {

/// Where the retries of one transfer stand.
#[derive(PartialEq, Eq, Structural, Clone, Copy, Debug)]
pub enum TransferRetry {
    /// An attempt is under way; `retries_left` more may follow, the next one
    /// after `delay_ms` milliseconds.
    Attempting { retries_left: u32, delay_ms: u64 },
    /// The transfer succeeded or was given up.
    Finished,
}

/// What the retry policy asks for next.
pub enum RetryStep {
    /// Make the first attempt.
    Attempt,
    /// Wait this many milliseconds, then attempt again.
    WaitThenAttempt { millis: u64 },
    /// The transfer succeeded.
    Succeeded,
    /// The transfer failed for good, with the last error.
    GiveUp(String),
}

/// Twice `d`, or the largest `u64` when that does not fit.
pub open spec fn doubled(d: u64) -> u64 {
    if 2 * d > u64::MAX {
        u64::MAX
    } else {
        (2 * d) as u64
    }
}

/// How many attempts the policy can still make, counting the current one.
pub open spec fn attempts_left(state: TransferRetry) -> int {
    match state {
        TransferRetry::Attempting { retries_left, .. } => retries_left + 1,
        TransferRetry::Finished => 0,
    }
}

/// Starts a transfer that may be retried `retries` times, the first retry
/// after `delay_ms` milliseconds.
pub fn transfer_retry_start(retries: u32, delay_ms: u64) -> (res: (TransferRetry, RetryStep))
    ensures
        res.0 == (TransferRetry::Attempting { retries_left: retries, delay_ms: delay_ms }),
        res.1 is Attempt,
{
    (TransferRetry::Attempting { retries_left: retries, delay_ms }, RetryStep::Attempt)
}

/// What follows an attempt: a success ends the transfer; a failure with
/// retries left waits the current delay, then tries again with one retry
/// fewer and the delay doubled; a failure with none left gives up with its
/// error.
pub fn transfer_retry_next(state: TransferRetry, outcome: Result<(), String>) -> (res: (
    TransferRetry,
    RetryStep,
))
    requires
        state is Attempting,
    ensures
        0 <= attempts_left(res.0) < attempts_left(state),
        match (state, outcome) {
            (_, Ok(())) => res.0 == TransferRetry::Finished && res.1 is Succeeded,
            (TransferRetry::Attempting { retries_left, delay_ms }, Err(e)) => if retries_left > 0 {
                res.0 == (TransferRetry::Attempting {
                    retries_left: (retries_left - 1) as u32,
                    delay_ms: doubled(delay_ms),
                }) && res.1 == (RetryStep::WaitThenAttempt { millis: delay_ms })
            } else {
                res.0 == TransferRetry::Finished && res.1 == RetryStep::GiveUp(e)
            },
            _ => true,
        },
{
    match outcome {
        Ok(()) => (TransferRetry::Finished, RetryStep::Succeeded),
        Err(e) => match state {
            TransferRetry::Attempting { retries_left, delay_ms } => {
                if retries_left > 0 {
                    let next_delay = if delay_ms > 9223372036854775807u64 {
                        u64::MAX
                    } else {
                        delay_ms * 2
                    };
                    (
                        TransferRetry::Attempting { retries_left: retries_left - 1, delay_ms: next_delay },
                        RetryStep::WaitThenAttempt { millis: delay_ms },
                    )
                } else {
                    (TransferRetry::Finished, RetryStep::GiveUp(e))
                }
            },
            TransferRetry::Finished => (TransferRetry::Finished, RetryStep::GiveUp(e)),
        },
    }
}

/// How many times a failed transfer is retried.
pub open spec fn transfer_retries() -> u32 {
    2
}

/// The delay before the first retry of a transfer, in milliseconds.
pub open spec fn transfer_retry_delay() -> u64 {
    2000
}

/// Where an upload request stands.
#[derive(PartialEq, Eq, Structural, Clone, Copy, Debug)]
pub enum Upload {
    ReadingSize,
    CheckingQuota { size: u64 },
    CheckingClient { size: u64 },
    Uploading { size: u64, retry: TransferRetry },
    Resolving { size: u64 },
    Sending { size: u64 },
    Finished,
}

/// What the caller reports back during an upload request.
pub enum UploadEvent {
    /// The size of the local file, or the error reading it.
    Size(Result<u64, String>),
    /// Whether the transfer allowance admits the file, or why not.
    Quota(Result<(), String>),
    /// Whether a Telegram client is connected.
    Client(bool),
    /// An upload attempt succeeded or failed with this error text.
    Uploaded(Result<(), String>),
    /// Resolving the target folder succeeded or failed with this text.
    Resolved(Result<(), String>),
    /// Sending the uploaded file into the folder succeeded or failed.
    Sent(Result<(), String>),
}

/// What an upload request asks the caller to do next.
pub enum UploadStep {
    ReadSize,
    CheckQuota { size: u64 },
    CheckClient,
    Upload,
    WaitThenUpload { millis: u64 },
    Resolve,
    Send,
    /// Count `counted_up` bytes as uploaded, if any, and answer.
    Done { counted_up: Option<u64>, reply: Result<String, Failure> },
}

/// The events that an upload expects in each state.
pub open spec fn upload_accepts(state: Upload, ev: UploadEvent) -> bool {
    match state {
        Upload::ReadingSize => ev is Size,
        Upload::CheckingQuota { .. } => ev is Quota,
        Upload::CheckingClient { .. } => ev is Client,
        Upload::Uploading { retry, .. } => ev is Uploaded && retry is Attempting,
        Upload::Resolving { .. } => ev is Resolved,
        Upload::Sending { .. } => ev is Sent,
        Upload::Finished => false,
    }
}

/// How many more events an upload can take at most.
pub open spec fn upload_events_left(state: Upload) -> int {
    match state {
        Upload::ReadingSize => 9,
        Upload::CheckingQuota { .. } => 8,
        Upload::CheckingClient { .. } => 7,
        Upload::Uploading { retry, .. } => 2 + attempts_left(retry),
        Upload::Resolving { .. } => 2,
        Upload::Sending { .. } => 1,
        Upload::Finished => 0,
    }
}

/// An upload state that is reachable.
pub open spec fn upload_wf(state: Upload) -> bool {
    state matches Upload::Uploading { retry, .. } ==> attempts_left(retry) <= 3 && retry is Attempting
}

/// Starts an upload request: read the local file's size first.
pub fn upload_start() -> (res: (Upload, UploadStep))
    ensures
        res.0 == Upload::ReadingSize,
        res.1 is ReadSize,
{
    (Upload::ReadingSize, UploadStep::ReadSize)
}

/// One step of an upload request.
///
/// An unreadable file is a bad request and a file beyond the transfer
/// allowance is forbidden. Without a client the upload is only counted.
/// Otherwise the file is uploaded, retried twice with a 2 s delay that
/// doubles, then sent into the resolved folder; the size is counted only
/// when the upload is done. Upload and send errors are passed through
/// `map_error`.
pub fn upload_next(state: Upload, ev: UploadEvent) -> (res: (Upload, UploadStep))
    requires
        upload_wf(state),
        upload_accepts(state, ev),
    ensures
        upload_wf(res.0),
        0 <= upload_events_left(res.0) < upload_events_left(state),
        res.1 is Done <==> res.0 == Upload::Finished,
        res.1 matches UploadStep::Done { counted_up: Some(n), .. } ==> match state {
            Upload::CheckingClient { size } => n == size,
            Upload::Sending { size } => n == size,
            _ => false,
        },
        match (state, ev) {
            (Upload::ReadingSize, UploadEvent::Size(Ok(size))) => res.0 == (Upload::CheckingQuota {
                size,
            }) && res.1 == (UploadStep::CheckQuota { size }),
            (Upload::ReadingSize, UploadEvent::Size(Err(e))) => res.1 matches UploadStep::Done {
                counted_up: None,
                reply: Err(f),
            } && f.status == Status::BadRequest && f.message@ == e@,
            (Upload::CheckingQuota { size }, UploadEvent::Quota(Ok(()))) => res.0
                == (Upload::CheckingClient { size }) && res.1 is CheckClient,
            (Upload::CheckingQuota { .. }, UploadEvent::Quota(Err(e))) => res.1 matches UploadStep::Done {
                counted_up: None,
                reply: Err(f),
            } && f.status == Status::Forbidden && f.message@ == e@,
            (Upload::CheckingClient { size }, UploadEvent::Client(false)) => res.1 matches UploadStep::Done {
                counted_up: Some(n),
                reply: Ok(m),
            } && n == size && m@ == "Mock upload successful"@,
            (Upload::CheckingClient { size }, UploadEvent::Client(true)) => res.0 == (Upload::Uploading {
                size,
                retry: TransferRetry::Attempting {
                    retries_left: transfer_retries(),
                    delay_ms: transfer_retry_delay(),
                },
            }) && res.1 is Upload,
            (Upload::Uploading { size, .. }, UploadEvent::Uploaded(Ok(()))) => res.0
                == (Upload::Resolving { size }) && res.1 is Resolve,
            (
                Upload::Uploading { size, retry: TransferRetry::Attempting { retries_left, delay_ms } },
                UploadEvent::Uploaded(Err(e)),
            ) => if retries_left > 0 {
                res.0 == (Upload::Uploading {
                    size,
                    retry: TransferRetry::Attempting {
                        retries_left: (retries_left - 1) as u32,
                        delay_ms: doubled(delay_ms),
                    },
                }) && res.1 == (UploadStep::WaitThenUpload { millis: delay_ms })
            } else {
                res.1 matches UploadStep::Done { counted_up: None, reply: Err(f) } && f.status
                    == Status::InternalServerError && f.message@ == map_error_spec(e@)
            },
            (Upload::Resolving { size }, UploadEvent::Resolved(Ok(()))) => res.0 == (Upload::Sending {
                size,
            }) && res.1 is Send,
            (Upload::Resolving { .. }, UploadEvent::Resolved(Err(e))) => res.1 matches UploadStep::Done {
                counted_up: None,
                reply: Err(f),
            } && f.status == Status::BadRequest && f.message@ == e@,
            (Upload::Sending { size }, UploadEvent::Sent(Ok(()))) => res.1 matches UploadStep::Done {
                counted_up: Some(n),
                reply: Ok(m),
            } && n == size && m@ == "File uploaded successfully"@,
            (Upload::Sending { .. }, UploadEvent::Sent(Err(e))) => res.1 matches UploadStep::Done {
                counted_up: None,
                reply: Err(f),
            } && f.status == Status::InternalServerError && f.message@ == map_error_spec(e@),
            _ => true,
        },
{
    match ev {
        UploadEvent::Size(r) => match r {
            Ok(size) => (Upload::CheckingQuota { size }, UploadStep::CheckQuota { size }),
            Err(e) => (
                Upload::Finished,
                UploadStep::Done { counted_up: None, reply: Err(failure(Status::BadRequest, e)) },
            ),
        },
        UploadEvent::Quota(r) => {
            let size = match state {
                Upload::CheckingQuota { size } => size,
                _ => 0,
            };
            match r {
                Ok(()) => (Upload::CheckingClient { size }, UploadStep::CheckClient),
                Err(e) => (
                    Upload::Finished,
                    UploadStep::Done { counted_up: None, reply: Err(failure(Status::Forbidden, e)) },
                ),
            }
        },
        UploadEvent::Client(connected) => {
            let size = match state {
                Upload::CheckingClient { size } => size,
                _ => 0,
            };
            if connected {
                let (retry, _) = transfer_retry_start(2, 2000);
                (Upload::Uploading { size, retry }, UploadStep::Upload)
            } else {
                (
                    Upload::Finished,
                    UploadStep::Done {
                        counted_up: Some(size),
                        reply: Ok(String::from_str("Mock upload successful")),
                    },
                )
            }
        },
        UploadEvent::Uploaded(r) => {
            let (size, retry) = match state {
                Upload::Uploading { size, retry } => (size, retry),
                _ => (0, TransferRetry::Finished),
            };
            let (next, step) = transfer_retry_next(retry, r);
            match step {
                RetryStep::Succeeded => (Upload::Resolving { size }, UploadStep::Resolve),
                RetryStep::WaitThenAttempt { millis } => (
                    Upload::Uploading { size, retry: next },
                    UploadStep::WaitThenUpload { millis },
                ),
                RetryStep::GiveUp(e) => (
                    Upload::Finished,
                    UploadStep::Done {
                        counted_up: None,
                        reply: Err(failure(Status::InternalServerError, map_error(e.as_str()))),
                    },
                ),
                RetryStep::Attempt => (Upload::Uploading { size, retry: next }, UploadStep::Upload),
            }
        },
        UploadEvent::Resolved(r) => {
            let size = match state {
                Upload::Resolving { size } => size,
                _ => 0,
            };
            match r {
                Ok(()) => (Upload::Sending { size }, UploadStep::Send),
                Err(e) => (
                    Upload::Finished,
                    UploadStep::Done { counted_up: None, reply: Err(failure(Status::BadRequest, e)) },
                ),
            }
        },
        UploadEvent::Sent(r) => {
            let size = match state {
                Upload::Sending { size } => size,
                _ => 0,
            };
            match r {
                Ok(()) => (
                    Upload::Finished,
                    UploadStep::Done {
                        counted_up: Some(size),
                        reply: Ok(String::from_str("File uploaded successfully")),
                    },
                ),
                Err(e) => (
                    Upload::Finished,
                    UploadStep::Done {
                        counted_up: None,
                        reply: Err(failure(Status::InternalServerError, map_error(e.as_str()))),
                    },
                ),
            }
        },
    }
}


/// Where a download request stands.
#[derive(PartialEq, Eq, Structural, Clone, Copy, Debug)]
pub enum Download {
    WritingMock,
    Resolving,
    Fetching,
    CheckingQuota { size: u64 },
    Downloading { size: u64, retry: TransferRetry },
    Finished,
}

/// What the caller reports back during a download request.
pub enum DownloadEvent {
    /// Writing the placeholder file (without a client) succeeded or failed.
    MockWritten(Result<(), String>),
    /// Resolving the folder succeeded or failed with this text.
    Resolved(Result<(), String>),
    /// Fetching the message succeeded, with its media if it has any, or failed.
    Fetched(Result<Option<MediaInfo>, String>),
    /// Whether the transfer allowance admits the media, or why not.
    Quota(Result<(), String>),
    /// A download attempt succeeded or failed with this error text.
    Downloaded(Result<(), String>),
}

/// What a download request asks the caller to do next.
pub enum DownloadStep {
    WriteMock,
    Resolve,
    Fetch,
    CheckQuota { size: u64 },
    Download,
    WaitThenDownload { millis: u64 },
    /// Count `counted_down` bytes as downloaded, if any, and answer.
    Done { counted_down: Option<u64>, reply: Result<String, Failure> },
}

/// The events that a download expects in each state.
pub open spec fn download_accepts(state: Download, ev: DownloadEvent) -> bool {
    match state {
        Download::WritingMock => ev is MockWritten,
        Download::Resolving => ev is Resolved,
        Download::Fetching => ev is Fetched,
        Download::CheckingQuota { .. } => ev is Quota,
        Download::Downloading { retry, .. } => ev is Downloaded && retry is Attempting,
        Download::Finished => false,
    }
}

/// How many more events a download can take at most.
pub open spec fn download_events_left(state: Download) -> int {
    match state {
        Download::WritingMock => 1,
        Download::Resolving => 7,
        Download::Fetching => 6,
        Download::CheckingQuota { .. } => 5,
        Download::Downloading { retry, .. } => 1 + attempts_left(retry),
        Download::Finished => 0,
    }
}

/// A download state that is reachable.
pub open spec fn download_wf(state: Download) -> bool {
    state matches Download::Downloading { retry, .. } ==> attempts_left(retry) <= 3 && retry is Attempting
}

/// Starts a download request: without a client a placeholder file is
/// written; with one, the folder is resolved first.
pub fn download_start(has_client: bool) -> (res: (Download, DownloadStep))
    ensures
        has_client ==> res.0 == Download::Resolving && res.1 is Resolve,
        !has_client ==> res.0 == Download::WritingMock && res.1 is WriteMock,
{
    if has_client {
        (Download::Resolving, DownloadStep::Resolve)
    } else {
        (Download::WritingMock, DownloadStep::WriteMock)
    }
}

/// One step of a download request.
///
/// A folder that does not resolve is a bad request; a missing message or
/// one without media is not found; media beyond the transfer allowance is
/// forbidden. The media is downloaded, retried twice with a 2 s delay that
/// doubles, and its transfer size is counted only when it was saved.
pub fn download_next(state: Download, ev: DownloadEvent) -> (res: (Download, DownloadStep))
    requires
        download_wf(state),
        download_accepts(state, ev),
    ensures
        download_wf(res.0),
        0 <= download_events_left(res.0) < download_events_left(state),
        res.1 is Done <==> res.0 == Download::Finished,
        res.1 matches DownloadStep::Done { counted_down: Some(n), .. } ==> (state matches Download::Downloading {
            size,
            ..
        } && n == size),
        match (state, ev) {
            (Download::WritingMock, DownloadEvent::MockWritten(Ok(()))) => res.1 matches DownloadStep::Done {
                counted_down: None,
                reply: Ok(m),
            } && m@ == "Download successful"@,
            (Download::WritingMock, DownloadEvent::MockWritten(Err(e))) => res.1 matches DownloadStep::Done {
                counted_down: None,
                reply: Err(f),
            } && f.status == Status::InternalServerError && f.message@ == e@,
            (Download::Resolving, DownloadEvent::Resolved(Ok(()))) => res.0 == Download::Fetching
                && res.1 is Fetch,
            (Download::Resolving, DownloadEvent::Resolved(Err(e))) => res.1 matches DownloadStep::Done {
                counted_down: None,
                reply: Err(f),
            } && f.status == Status::BadRequest && f.message@ == e@,
            (Download::Fetching, DownloadEvent::Fetched(Err(e))) => res.1 matches DownloadStep::Done {
                counted_down: None,
                reply: Err(f),
            } && f.status == Status::InternalServerError && f.message@ == e@,
            (Download::Fetching, DownloadEvent::Fetched(Ok(None))) => res.1 matches DownloadStep::Done {
                counted_down: None,
                reply: Err(f),
            } && f.status == Status::NotFound && f.message@ == "Not found"@,
            (Download::Fetching, DownloadEvent::Fetched(Ok(Some(m)))) => res.0
                == (Download::CheckingQuota { size: transfer_size_spec(m) }) && res.1 == (
            DownloadStep::CheckQuota { size: transfer_size_spec(m) }),
            (Download::CheckingQuota { size }, DownloadEvent::Quota(Ok(()))) => res.0
                == (Download::Downloading {
                size,
                retry: TransferRetry::Attempting {
                    retries_left: transfer_retries(),
                    delay_ms: transfer_retry_delay(),
                },
            }) && res.1 is Download,
            (Download::CheckingQuota { .. }, DownloadEvent::Quota(Err(e))) => res.1 matches DownloadStep::Done {
                counted_down: None,
                reply: Err(f),
            } && f.status == Status::Forbidden && f.message@ == e@,
            (Download::Downloading { size, .. }, DownloadEvent::Downloaded(Ok(()))) => res.1 matches DownloadStep::Done {
                counted_down: Some(n),
                reply: Ok(m),
            } && n == size && m@ == "Download successful"@,
            (
                Download::Downloading {
                    size,
                    retry: TransferRetry::Attempting { retries_left, delay_ms },
                },
                DownloadEvent::Downloaded(Err(e)),
            ) => if retries_left > 0 {
                res.0 == (Download::Downloading {
                    size,
                    retry: TransferRetry::Attempting {
                        retries_left: (retries_left - 1) as u32,
                        delay_ms: doubled(delay_ms),
                    },
                }) && res.1 == (DownloadStep::WaitThenDownload { millis: delay_ms })
            } else {
                res.1 matches DownloadStep::Done { counted_down: None, reply: Err(f) } && f.status
                    == Status::InternalServerError && f.message@ == map_error_spec(e@)
            },
            _ => true,
        },
{
    match ev {
        DownloadEvent::MockWritten(r) => match r {
            Ok(()) => (
                Download::Finished,
                DownloadStep::Done {
                    counted_down: None,
                    reply: Ok(String::from_str("Download successful")),
                },
            ),
            Err(e) => (
                Download::Finished,
                DownloadStep::Done {
                    counted_down: None,
                    reply: Err(failure(Status::InternalServerError, e)),
                },
            ),
        },
        DownloadEvent::Resolved(r) => match r {
            Ok(()) => (Download::Fetching, DownloadStep::Fetch),
            Err(e) => (
                Download::Finished,
                DownloadStep::Done { counted_down: None, reply: Err(failure(Status::BadRequest, e)) },
            ),
        },
        DownloadEvent::Fetched(r) => match r {
            Ok(Some(m)) => {
                let size = transfer_size(&m);
                (Download::CheckingQuota { size }, DownloadStep::CheckQuota { size })
            },
            Ok(None) => (
                Download::Finished,
                DownloadStep::Done {
                    counted_down: None,
                    reply: Err(failure_text(Status::NotFound, "Not found")),
                },
            ),
            Err(e) => (
                Download::Finished,
                DownloadStep::Done {
                    counted_down: None,
                    reply: Err(failure(Status::InternalServerError, e)),
                },
            ),
        },
        DownloadEvent::Quota(r) => {
            let size = match state {
                Download::CheckingQuota { size } => size,
                _ => 0,
            };
            match r {
                Ok(()) => {
                    let (retry, _) = transfer_retry_start(2, 2000);
                    (Download::Downloading { size, retry }, DownloadStep::Download)
                },
                Err(e) => (
                    Download::Finished,
                    DownloadStep::Done { counted_down: None, reply: Err(failure(Status::Forbidden, e)) },
                ),
            }
        },
        DownloadEvent::Downloaded(r) => {
            let (size, retry) = match state {
                Download::Downloading { size, retry } => (size, retry),
                _ => (0, TransferRetry::Finished),
            };
            let (next, step) = transfer_retry_next(retry, r);
            match step {
                RetryStep::Succeeded => (
                    Download::Finished,
                    DownloadStep::Done {
                        counted_down: Some(size),
                        reply: Ok(String::from_str("Download successful")),
                    },
                ),
                RetryStep::WaitThenAttempt { millis } => (
                    Download::Downloading { size, retry: next },
                    DownloadStep::WaitThenDownload { millis },
                ),
                RetryStep::GiveUp(e) => (
                    Download::Finished,
                    DownloadStep::Done {
                        counted_down: None,
                        reply: Err(failure(Status::InternalServerError, map_error(e.as_str()))),
                    },
                ),
                RetryStep::Attempt => (Download::Downloading { size, retry: next }, DownloadStep::Download),
            }
        },
    }
}

} // verus!
