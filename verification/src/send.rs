//! The sending side of one transfer.
//!
//! As on the receiving side, a session owns no socket and no file: it says
//! what to do next and is told what happened.

use crate::frame::{encode_frame, fits_length_field, frame_bytes};
use crate::outcome::{IoStage, TransferOutcome};
use crate::receive::{lemma_frame_is_stored, received, ReceiveActionView, ReceiveSessionView};
use std::path::PathBuf;
use vstd::prelude::*;
use vstd::string::*;
use vstd::utf8::*;

verus! {

/// The most that is read of the receiver's answer.
pub const RESPONSE_LIMIT: usize = 1024;

/// What the caller reports back after an action.
#[derive(Debug, PartialEq, Eq)]
pub enum SendEvent {
    Connected,
    ConnectFailed,
    /// The file is read: its name, without any directory, and its contents.
    File { name: String, contents: Vec<u8> },
    FileFailed,
    Written,
    WriteFailed,
    /// What arrived from the receiver before the read returned; nothing,
    /// if the connection was closed.
    Response(Vec<u8>),
    ResponseFailed,
}

/// What the caller is to do next.
#[derive(Debug, PartialEq, Eq)]
pub enum SendAction {
    /// Open a connection to the receiver.
    Connect,
    /// Read the whole file into memory.
    ReadFile,
    /// Write all of these bytes to the connection.
    Write(Vec<u8>),
    /// Read once from the connection, at most this many bytes.
    ReadResponse(usize),
    /// The transfer is over; close the connection. `response` is what the
    /// receiver answered, for display only.
    Report { outcome: TransferOutcome, response: Vec<u8> },
}

/// Where a transfer stands.
#[derive(Clone, Copy, Debug, PartialEq, Eq, Structural)]
pub enum SendSession {
    AwaitConnect,
    AwaitFile,
    AwaitWrite,
    AwaitResponse,
    Finished { outcome: TransferOutcome },
}

/// A `SendEvent` as contracts speak of it.
pub enum SendEventView {
    Connected,
    ConnectFailed,
    File { name: Seq<char>, contents: Seq<u8> },
    FileFailed,
    Written,
    WriteFailed,
    Response(Seq<u8>),
    ResponseFailed,
}

/// A `SendAction` as contracts speak of it.
pub enum SendActionView {
    Connect,
    ReadFile,
    Write(Seq<u8>),
    ReadResponse(nat),
    Report { outcome: TransferOutcome, response: Seq<u8> },
}

impl View for SendEvent {
    type V = SendEventView;

    open spec fn view(&self) -> SendEventView {
        match *self {
            SendEvent::Connected => SendEventView::Connected,
            SendEvent::ConnectFailed => SendEventView::ConnectFailed,
            SendEvent::File { name, contents } => SendEventView::File {
                name: name@,
                contents: contents@,
            },
            SendEvent::FileFailed => SendEventView::FileFailed,
            SendEvent::Written => SendEventView::Written,
            SendEvent::WriteFailed => SendEventView::WriteFailed,
            SendEvent::Response(bytes) => SendEventView::Response(bytes@),
            SendEvent::ResponseFailed => SendEventView::ResponseFailed,
        }
    }
}

impl View for SendAction {
    type V = SendActionView;

    open spec fn view(&self) -> SendActionView {
        match *self {
            SendAction::Connect => SendActionView::Connect,
            SendAction::ReadFile => SendActionView::ReadFile,
            SendAction::Write(bytes) => SendActionView::Write(bytes@),
            SendAction::ReadResponse(limit) => SendActionView::ReadResponse(limit as nat),
            SendAction::Report { outcome, response } => SendActionView::Report {
                outcome,
                response: response@,
            },
        }
    }
}

/// A session that is over without an answer from the receiver.
pub open spec fn reported(outcome: TransferOutcome) -> (SendSession, SendActionView) {
    (
        SendSession::Finished { outcome },
        SendActionView::Report { outcome, response: Seq::empty() },
    )
}

/// The answer as it is kept: its first `RESPONSE_LIMIT` bytes.
pub open spec fn kept_response(bytes: Seq<u8>) -> Seq<u8> {
    if bytes.len() > RESPONSE_LIMIT {
        bytes.subrange(0, RESPONSE_LIMIT as int)
    } else {
        bytes
    }
}

/// How a session opens.
pub open spec fn send_start() -> (SendSession, SendActionView) {
    (SendSession::AwaitConnect, SendActionView::Connect)
}

/// The session after `event`, and what it asks for next.
///
/// Connect, read the file, write its frame, read the answer: each step
/// follows the success of the one before, and anything else ends the
/// transfer with the error of the step that was under way. The answer is
/// not looked into: whatever it says, the transfer has succeeded.
pub open spec fn send_next(session: SendSession, event: SendEventView) -> (
    SendSession,
    SendActionView,
) {
    match session {
        SendSession::AwaitConnect => match event {
            SendEventView::Connected => (SendSession::AwaitFile, SendActionView::ReadFile),
            _ => reported(TransferOutcome::IoError(IoStage::Connect)),
        },
        SendSession::AwaitFile => match event {
            SendEventView::File { name, contents } => (
                SendSession::AwaitWrite,
                SendActionView::Write(frame_bytes(name, contents)),
            ),
            _ => reported(TransferOutcome::IoError(IoStage::ReadFile)),
        },
        SendSession::AwaitWrite => match event {
            SendEventView::Written => (
                SendSession::AwaitResponse,
                SendActionView::ReadResponse(RESPONSE_LIMIT as nat),
            ),
            _ => reported(TransferOutcome::IoError(IoStage::WriteFrame)),
        },
        SendSession::AwaitResponse => match event {
            SendEventView::Response(bytes) => (
                SendSession::Finished { outcome: TransferOutcome::Success },
                SendActionView::Report {
                    outcome: TransferOutcome::Success,
                    response: kept_response(bytes),
                },
            ),
            _ => reported(TransferOutcome::IoError(IoStage::ReadResponse)),
        },
        SendSession::Finished { outcome } => reported(outcome),
    }
}

/// What a sender writes for a file is what a receiver with a destination
/// stores: the same name and the same bytes, whatever their number, as long
/// as the two lengths fit their fields.
pub proof fn lemma_sent_file_is_stored(directory: PathBuf, name: Seq<char>, contents: Seq<u8>)
    requires
        fits_length_field(encode_utf8(name).len()),
        fits_length_field(contents.len()),
    ensures
        send_next(SendSession::AwaitFile, SendEventView::File { name, contents }).1
            == SendActionView::Write(frame_bytes(name, contents)),
        received(directory, frame_bytes(name, contents)) == (
            ReceiveSessionView::AwaitStore,
            ReceiveActionView::Store { directory, name, payload: contents },
        ),
{
    lemma_frame_is_stored(directory, name, contents, Seq::empty());
    assert(frame_bytes(name, contents) + Seq::<u8>::empty() =~= frame_bytes(name, contents));
}

/// An answer of any content ends the transfer in success.
pub proof fn lemma_any_answer_is_success(bytes: Seq<u8>)
    ensures
        send_next(SendSession::AwaitResponse, SendEventView::Response(bytes)).0
            == (SendSession::Finished { outcome: TransferOutcome::Success }),
        kept_response(bytes).len() <= RESPONSE_LIMIT,
{
}

/// A session that ends without an answer.
fn report(outcome: TransferOutcome) -> (next: (SendSession, SendAction))
    ensures
        (next.0, next.1@) == reported(outcome),
{
    (SendSession::Finished { outcome }, SendAction::Report { outcome, response: Vec::new() })
}

impl SendSession {
    /// Opens the session for a file that was just picked.
    pub fn begin() -> (next: (SendSession, SendAction))
        ensures
            (next.0, next.1@) == send_start(),
    {
        (SendSession::AwaitConnect, SendAction::Connect)
    }

    /// Takes the session one step further.
    pub fn step(self, event: SendEvent) -> (next: (SendSession, SendAction))
        ensures
            (next.0, next.1@) == send_next(self, event@),
    {
        match self {
            SendSession::AwaitConnect => match event {
                SendEvent::Connected => (SendSession::AwaitFile, SendAction::ReadFile),
                _ => report(TransferOutcome::IoError(IoStage::Connect)),
            },
            SendSession::AwaitFile => match event {
                SendEvent::File { name, contents } => (
                    SendSession::AwaitWrite,
                    SendAction::Write(encode_frame(name.as_str(), contents.as_slice())),
                ),
                _ => report(TransferOutcome::IoError(IoStage::ReadFile)),
            },
            SendSession::AwaitWrite => match event {
                SendEvent::Written => (
                    SendSession::AwaitResponse,
                    SendAction::ReadResponse(RESPONSE_LIMIT),
                ),
                _ => report(TransferOutcome::IoError(IoStage::WriteFrame)),
            },
            SendSession::AwaitResponse => match event {
                SendEvent::Response(bytes) => {
                    let mut response = bytes;
                    if response.len() > RESPONSE_LIMIT {
                        response.truncate(RESPONSE_LIMIT);
                    }
                    (
                        SendSession::Finished { outcome: TransferOutcome::Success },
                        SendAction::Report { outcome: TransferOutcome::Success, response },
                    )
                },
                _ => report(TransferOutcome::IoError(IoStage::ReadResponse)),
            },
            SendSession::Finished { outcome } => report(outcome),
        }
    }
}

} // verus!
