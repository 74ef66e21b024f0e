//! Time stamps, and the decisions of a download.

use vstd::prelude::*;
use crate::error::ErrorKind;
use crate::formula::opt_text;

verus! {

/// The ISO 8601 form, in UTC, of the moment that lies `secs` seconds and
/// `nanos` nanoseconds after the start of 1970; `None` where the calendar
/// cannot hold the moment.
pub uninterp spec fn iso8601_text(secs: int, nanos: int) -> Option<Seq<char>>;

/// Calls `chrono::DateTime::from_timestamp` and writes the moment that
/// comes back with `format("%+")`. The contract names the outcome, which
/// depends on the two numbers alone.
#[verifier::external_body]
fn format_timestamp(secs: i64, nanos: u32) -> (r: Option<String>)
    ensures
        opt_text(r) == iso8601_text(secs as int, nanos as int),
{
    match chrono::DateTime::from_timestamp(secs, nanos) {
        Some(moment) => Some(format!("{}", moment.format("%+"))),
        None => None,
    }
}

/// Writes a moment, given as seconds and nanoseconds since the start of
/// 1970, in ISO 8601 and UTC.
pub fn iso8601(secs: i64, nanos: u32) -> (r: Option<String>)
    ensures
        opt_text(r) == iso8601_text(secs as int, nanos as int),
{
    format_timestamp(secs, nanos)
}

/// Where a download stands.
#[derive(Clone, Copy, Debug, PartialEq, Eq, Structural)]
pub enum DownloadState {
    /// The request is out and nothing has come back.
    Requesting,
    /// The body is being read: `received` of `total` bytes are stored.
    Streaming { total: u64, received: u64 },
    /// The download is over.
    Done,
}

/// What happened to a download.
#[derive(Clone, Copy, Debug, PartialEq, Eq, Structural)]
pub enum DownloadEvent {
    /// The server answered with this status and, where it said so, the length of the body.
    Response { status: u16, content_length: Option<u64> },
    /// A chunk of this many bytes was read and stored.
    Chunk { len: u64 },
    /// Reading the body failed.
    ReadFailed,
    /// Storing a chunk failed.
    WriteFailed,
    /// The body is at its end.
    End,
}

/// What the caller of a download does next.
#[derive(Clone, Copy, Debug, PartialEq, Eq, Structural)]
pub enum DownloadAction {
    /// Create the file, show a progress of `total` bytes, and read on.
    Begin { total: u64 },
    /// Show that `position` bytes are stored, and read on.
    Progress { position: u64 },
    /// The artifact is stored in full.
    Finish,
    /// Give up with this failure; what is stored so far stays.
    Fail(ErrorKind),
}

/// The smaller of two numbers.
pub open spec fn smaller(a: int, b: int) -> int {
    if a <= b {
        a
    } else {
        b
    }
}

/// One step of a download. Only status 200 with a stated length starts the
/// body; a missing length is its own failure. Every chunk moves the
/// position on by its length, but never past the total. A failed read or
/// write, and any event that the state does not wait for, ends the
/// download as failed.
pub open spec fn download_step(state: DownloadState, event: DownloadEvent) -> (
    DownloadState,
    DownloadAction,
) {
    match (state, event) {
        (DownloadState::Requesting, DownloadEvent::Response { status, content_length }) => {
            if status != 200 {
                (DownloadState::Done, DownloadAction::Fail(ErrorKind::DownloadFailed))
            } else {
                match content_length {
                    None => (DownloadState::Done, DownloadAction::Fail(ErrorKind::NoContentLength)),
                    Some(total) => (
                        DownloadState::Streaming { total, received: 0 },
                        DownloadAction::Begin { total },
                    ),
                }
            }
        },
        (DownloadState::Streaming { total, received }, DownloadEvent::Chunk { len }) => {
            let position = smaller(received + len, total as int) as u64;
            (
                DownloadState::Streaming { total, received: position },
                DownloadAction::Progress { position },
            )
        },
        (DownloadState::Streaming { .. }, DownloadEvent::End) => (
            DownloadState::Done,
            DownloadAction::Finish,
        ),
        _ => (DownloadState::Done, DownloadAction::Fail(ErrorKind::DownloadFailed)),
    }
}

/// Decides the next step of a download from its state and what happened.
pub fn download(state: DownloadState, event: DownloadEvent) -> (r: (DownloadState, DownloadAction))
    ensures
        r == download_step(state, event),
{
    match (state, event) {
        (DownloadState::Requesting, DownloadEvent::Response { status, content_length }) => {
            if status != 200 {
                (DownloadState::Done, DownloadAction::Fail(ErrorKind::DownloadFailed))
            } else {
                match content_length {
                    None => (DownloadState::Done, DownloadAction::Fail(ErrorKind::NoContentLength)),
                    Some(total) => (
                        DownloadState::Streaming { total, received: 0 },
                        DownloadAction::Begin { total },
                    ),
                }
            }
        },
        (DownloadState::Streaming { total, received }, DownloadEvent::Chunk { len }) => {
            let position = match received.checked_add(len) {
                Some(sum) => if sum <= total {
                    sum
                } else {
                    total
                },
                None => total,
            };
            (
                DownloadState::Streaming { total, received: position },
                DownloadAction::Progress { position },
            )
        },
        (DownloadState::Streaming { .. }, DownloadEvent::End) => (
            DownloadState::Done,
            DownloadAction::Finish,
        ),
        _ => (DownloadState::Done, DownloadAction::Fail(ErrorKind::DownloadFailed)),
    }
}

/// Whether a state is one that a download can be in: the bytes stored
/// never exceed the total.
pub open spec fn download_state_valid(state: DownloadState) -> bool {
    match state {
        DownloadState::Streaming { total, received } => received <= total,
        _ => true,
    }
}

/// The position of a download never passes the total and never moves back.
pub proof fn lemma_download_progress(state: DownloadState, event: DownloadEvent)
    requires
        download_state_valid(state),
    ensures
        download_state_valid(download_step(state, event).0),
        match (state, download_step(state, event).0) {
            (
                DownloadState::Streaming { total, received },
                DownloadState::Streaming { total: next_total, received: next_received },
            ) => next_total == total && received <= next_received <= total,
            _ => true,
        },
        match (state, download_step(state, event).1) {
            (DownloadState::Streaming { total, .. }, DownloadAction::Progress { position }) => position
                <= total,
            (_, DownloadAction::Progress { .. }) => false,
            _ => true,
        },
{
}

/// A download that is over stays over, and only fails from there.
pub proof fn lemma_download_done_is_final(event: DownloadEvent)
    ensures
        download_step(DownloadState::Done, event) == (
            DownloadState::Done,
            DownloadAction::Fail(ErrorKind::DownloadFailed),
        ),
{
}

} // verus!
