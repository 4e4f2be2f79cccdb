//! The receiving side of one transfer.
//!
//! A session owns no socket and no file. It says what to do next, the caller
//! does it and reports what happened, and so on until the session is over.

use crate::frame::{
    announced_name_length, announced_payload_length, decoded, fits_length_field, frame_bytes,
    lemma_decode_of_encode, DecodeError, FrameField,
};
use crate::outcome::{IoStage, TransferOutcome};
use crate::text::string_from_utf8;
use crate::wire::{be32_value, get_be32};
use std::path::PathBuf;
use vstd::prelude::*;
use vstd::string::*;
use vstd::utf8::*;

verus! {

/// What the caller reports back after an action.
#[derive(Debug, PartialEq, Eq)]
pub enum ReceiveEvent {
    /// The bytes that a read delivered.
    Bytes(Vec<u8>),
    /// The connection closed or failed before the read was complete.
    ReadFailed,
    /// The file is written.
    Stored,
    /// The file could not be written.
    StoreFailed,
}

/// What the caller is to do next.
#[derive(Debug, PartialEq, Eq)]
pub enum ReceiveAction {
    /// Read exactly this many bytes from the connection.
    Read(usize),
    /// Write `payload` to the file `name` inside `directory`, replacing what is there.
    Store { directory: PathBuf, name: String, payload: Vec<u8> },
    /// Send `message` on the connection; the transfer is then over.
    Reply { message: Vec<u8>, outcome: TransferOutcome },
    /// The transfer is over and nothing is sent.
    Close { outcome: TransferOutcome },
}

/// Where a transfer stands.
#[derive(Debug, PartialEq, Eq)]
pub enum ReceiveSession {
    AwaitNameLength { directory: PathBuf },
    AwaitPayloadLength { directory: PathBuf, name_length: u32 },
    AwaitName { directory: PathBuf, name_length: u32, payload_length: u32 },
    AwaitPayload { directory: PathBuf, name: String, payload_length: u32 },
    AwaitStore,
    Finished { outcome: TransferOutcome },
}

/// A `ReceiveEvent` as contracts speak of it.
pub enum ReceiveEventView {
    Bytes(Seq<u8>),
    ReadFailed,
    Stored,
    StoreFailed,
}

/// A `ReceiveAction` as contracts speak of it.
pub enum ReceiveActionView {
    Read(nat),
    Store { directory: PathBuf, name: Seq<char>, payload: Seq<u8> },
    Reply { message: Seq<u8>, outcome: TransferOutcome },
    Close { outcome: TransferOutcome },
}

/// A `ReceiveSession` as contracts speak of it.
pub enum ReceiveSessionView {
    AwaitNameLength { directory: PathBuf },
    AwaitPayloadLength { directory: PathBuf, name_length: u32 },
    AwaitName { directory: PathBuf, name_length: u32, payload_length: u32 },
    AwaitPayload { directory: PathBuf, name: Seq<char>, payload_length: u32 },
    AwaitStore,
    Finished { outcome: TransferOutcome },
}

impl View for ReceiveEvent {
    type V = ReceiveEventView;

    open spec fn view(&self) -> ReceiveEventView {
        match *self {
            ReceiveEvent::Bytes(bytes) => ReceiveEventView::Bytes(bytes@),
            ReceiveEvent::ReadFailed => ReceiveEventView::ReadFailed,
            ReceiveEvent::Stored => ReceiveEventView::Stored,
            ReceiveEvent::StoreFailed => ReceiveEventView::StoreFailed,
        }
    }
}

impl View for ReceiveAction {
    type V = ReceiveActionView;

    open spec fn view(&self) -> ReceiveActionView {
        match *self {
            ReceiveAction::Read(count) => ReceiveActionView::Read(count as nat),
            ReceiveAction::Store { directory, name, payload } => ReceiveActionView::Store {
                directory,
                name: name@,
                payload: payload@,
            },
            ReceiveAction::Reply { message, outcome } => ReceiveActionView::Reply {
                message: message@,
                outcome,
            },
            ReceiveAction::Close { outcome } => ReceiveActionView::Close { outcome },
        }
    }
}

impl View for ReceiveSession {
    type V = ReceiveSessionView;

    open spec fn view(&self) -> ReceiveSessionView {
        match *self {
            ReceiveSession::AwaitNameLength { directory } => ReceiveSessionView::AwaitNameLength {
                directory,
            },
            ReceiveSession::AwaitPayloadLength {
                directory,
                name_length,
            } => ReceiveSessionView::AwaitPayloadLength { directory, name_length },
            ReceiveSession::AwaitName {
                directory,
                name_length,
                payload_length,
            } => ReceiveSessionView::AwaitName { directory, name_length, payload_length },
            ReceiveSession::AwaitPayload {
                directory,
                name,
                payload_length,
            } => ReceiveSessionView::AwaitPayload { directory, name: name@, payload_length },
            ReceiveSession::AwaitStore => ReceiveSessionView::AwaitStore,
            ReceiveSession::Finished { outcome } => ReceiveSessionView::Finished { outcome },
        }
    }
}

/// The answer to a sender whose file was stored.
pub open spec fn stored_reply() -> Seq<u8> {
    encode_utf8("OK"@)
}

/// The answer to a sender who connected before a destination was chosen.
pub open spec fn no_destination_reply() -> Seq<u8> {
    encode_utf8("ERROR: No save directory selected"@)
}

/// A session that is over, and the action that ends it without an answer.
pub open spec fn closed(outcome: TransferOutcome) -> (ReceiveSessionView, ReceiveActionView) {
    (ReceiveSessionView::Finished { outcome }, ReceiveActionView::Close { outcome })
}

/// A session that was cut short inside `field`.
pub open spec fn cut_short(field: FrameField) -> (ReceiveSessionView, ReceiveActionView) {
    closed(TransferOutcome::ProtocolError(DecodeError::Truncated(field)))
}

/// True if `event` delivers exactly `count` bytes.
pub open spec fn delivers(event: ReceiveEventView, count: int) -> bool {
    event matches ReceiveEventView::Bytes(bytes) && bytes.len() == count
}

/// How a session opens: with a destination it asks for the name length;
/// without one it answers at once and reads nothing.
pub open spec fn receive_start(destination: Option<PathBuf>) -> (
    ReceiveSessionView,
    ReceiveActionView,
) {
    match destination {
        Some(directory) => (
            ReceiveSessionView::AwaitNameLength { directory },
            ReceiveActionView::Read(4),
        ),
        None => (
            ReceiveSessionView::Finished { outcome: TransferOutcome::NoDestinationConfigured },
            ReceiveActionView::Reply {
                message: no_destination_reply(),
                outcome: TransferOutcome::NoDestinationConfigured,
            },
        ),
    }
}

/// The session after `event`, and what it asks for next.
///
/// A read that delivers anything but the bytes asked for ends the transfer
/// inside that field. A name that is not UTF-8 ends it before the payload is
/// read. A session that is over stays over.
pub open spec fn receive_next(session: ReceiveSessionView, event: ReceiveEventView) -> (
    ReceiveSessionView,
    ReceiveActionView,
) {
    match session {
        ReceiveSessionView::AwaitNameLength { directory } => {
            if delivers(event, 4) {
                (
                    ReceiveSessionView::AwaitPayloadLength {
                        directory,
                        name_length: be32_value(event->Bytes_0),
                    },
                    ReceiveActionView::Read(4),
                )
            } else {
                cut_short(FrameField::NameLength)
            }
        },
        ReceiveSessionView::AwaitPayloadLength { directory, name_length } => {
            if delivers(event, 4) {
                (
                    ReceiveSessionView::AwaitName {
                        directory,
                        name_length,
                        payload_length: be32_value(event->Bytes_0),
                    },
                    ReceiveActionView::Read(name_length as nat),
                )
            } else {
                cut_short(FrameField::PayloadLength)
            }
        },
        ReceiveSessionView::AwaitName { directory, name_length, payload_length } => {
            if !delivers(event, name_length as int) {
                cut_short(FrameField::Name)
            } else if !valid_utf8(event->Bytes_0) {
                closed(TransferOutcome::ProtocolError(DecodeError::InvalidName))
            } else {
                (
                    ReceiveSessionView::AwaitPayload {
                        directory,
                        name: decode_utf8(event->Bytes_0),
                        payload_length,
                    },
                    ReceiveActionView::Read(payload_length as nat),
                )
            }
        },
        ReceiveSessionView::AwaitPayload { directory, name, payload_length } => {
            if delivers(event, payload_length as int) {
                (
                    ReceiveSessionView::AwaitStore,
                    ReceiveActionView::Store { directory, name, payload: event->Bytes_0 },
                )
            } else {
                cut_short(FrameField::Payload)
            }
        },
        ReceiveSessionView::AwaitStore => {
            if event is Stored {
                (
                    ReceiveSessionView::Finished { outcome: TransferOutcome::Success },
                    ReceiveActionView::Reply {
                        message: stored_reply(),
                        outcome: TransferOutcome::Success,
                    },
                )
            } else {
                closed(TransferOutcome::IoError(IoStage::WriteFile))
            }
        },
        ReceiveSessionView::Finished { outcome } => closed(outcome),
    }
}

/// What a read of `count` bytes reports on a connection that has `stream`
/// to deliver, `offset` bytes of it already taken, and then closes.
pub open spec fn read_from(stream: Seq<u8>, offset: int, count: int) -> ReceiveEventView {
    if offset + count <= stream.len() {
        ReceiveEventView::Bytes(stream.subrange(offset, offset + count))
    } else {
        ReceiveEventView::ReadFailed
    }
}

/// One read on such a connection, if a read is what the session asks for.
/// The third component counts the bytes taken so far.
pub open spec fn read_once(
    at: (ReceiveSessionView, ReceiveActionView, int),
    stream: Seq<u8>,
) -> (ReceiveSessionView, ReceiveActionView, int) {
    match at.1 {
        ReceiveActionView::Read(count) => {
            let next = receive_next(at.0, read_from(stream, at.2, count as int));
            (next.0, next.1, at.2 + count)
        },
        _ => at,
    }
}

/// Where a session with a destination stands once it has read all it asks
/// for from a connection that delivers `stream`: a frame has four fields, so
/// four reads at most.
pub open spec fn received(directory: PathBuf, stream: Seq<u8>) -> (
    ReceiveSessionView,
    ReceiveActionView,
) {
    let start = receive_start(Some(directory));
    let end = read_once(
        read_once(read_once(read_once((start.0, start.1, 0), stream), stream), stream),
        stream,
    );
    (end.0, end.1)
}

/// Read by read, a session comes to what the decoder makes of the whole
/// stream: the file to store if the stream starts with a frame, else the
/// decoder's error. It never reads past the frame, and it asks for no fifth
/// read.
pub proof fn lemma_session_agrees_with_decoder(directory: PathBuf, stream: Seq<u8>)
    ensures
        received(directory, stream) == match decoded(stream) {
            Ok((name, payload)) => (
                ReceiveSessionView::AwaitStore,
                ReceiveActionView::Store { directory, name, payload },
            ),
            Err(error) => closed(TransferOutcome::ProtocolError(error)),
        },
{
}

/// Without a destination nothing is read from the connection: the session
/// opens with its answer, and is over.
pub proof fn lemma_no_destination_reads_nothing(event: ReceiveEventView)
    ensures
        receive_start(None) == (
            ReceiveSessionView::Finished { outcome: TransferOutcome::NoDestinationConfigured },
            ReceiveActionView::Reply {
                message: no_destination_reply(),
                outcome: TransferOutcome::NoDestinationConfigured,
            },
        ),
        receive_next(receive_start(None).0, event) == closed(
            TransferOutcome::NoDestinationConfigured,
        ),
{
}

/// With a destination, a frame on the connection ends up as the file
/// `name` in that destination, holding exactly `payload`; once it is
/// written the sender is told so and the transfer has succeeded.
pub proof fn lemma_frame_is_stored(
    directory: PathBuf,
    name: Seq<char>,
    payload: Seq<u8>,
    rest: Seq<u8>,
)
    requires
        fits_length_field(encode_utf8(name).len()),
        fits_length_field(payload.len()),
    ensures
        received(directory, frame_bytes(name, payload) + rest) == (
            ReceiveSessionView::AwaitStore,
            ReceiveActionView::Store { directory, name, payload },
        ),
        receive_next(ReceiveSessionView::AwaitStore, ReceiveEventView::Stored) == (
            ReceiveSessionView::Finished { outcome: TransferOutcome::Success },
            ReceiveActionView::Reply { message: stored_reply(), outcome: TransferOutcome::Success },
        ),
{
    lemma_decode_of_encode(name, payload, rest);
    lemma_session_agrees_with_decoder(directory, frame_bytes(name, payload) + rest);
}

/// A session that is over asks for nothing more, whatever it is told.
pub proof fn lemma_finished_stays_finished(outcome: TransferOutcome, event: ReceiveEventView)
    ensures
        receive_next(ReceiveSessionView::Finished { outcome }, event) == closed(outcome),
{
}

/// A session that ends without an answer.
fn close(outcome: TransferOutcome) -> (next: (ReceiveSession, ReceiveAction))
    ensures
        (next.0@, next.1@) == closed(outcome),
{
    (ReceiveSession::Finished { outcome }, ReceiveAction::Close { outcome })
}

/// The bytes of `text`, copied.
fn reply_bytes(text: &str) -> (bytes: Vec<u8>)
    ensures
        bytes@ == encode_utf8(text@),
{
    text.as_bytes_vec()
}

impl ReceiveSession {
    /// Opens the session for a connection that was just taken from the
    /// queue, with the destination as it stands at that moment.
    pub fn begin(destination: Option<PathBuf>) -> (next: (ReceiveSession, ReceiveAction))
        ensures
            (next.0@, next.1@) == receive_start(destination),
    {
        match destination {
            Some(directory) => (
                ReceiveSession::AwaitNameLength { directory },
                ReceiveAction::Read(4),
            ),
            None => (
                ReceiveSession::Finished { outcome: TransferOutcome::NoDestinationConfigured },
                ReceiveAction::Reply {
                    message: reply_bytes("ERROR: No save directory selected"),
                    outcome: TransferOutcome::NoDestinationConfigured,
                },
            ),
        }
    }

    /// Takes the session one step further.
    pub fn step(self, event: ReceiveEvent) -> (next: (ReceiveSession, ReceiveAction))
        ensures
            (next.0@, next.1@) == receive_next(self@, event@),
    {
        match self {
            ReceiveSession::AwaitNameLength { directory } => match event {
                ReceiveEvent::Bytes(bytes) if bytes.len() == 4 => {
                    let name_length: u32 = get_be32(bytes.as_slice(), 0);
                    assert(bytes@.subrange(0, 4) =~= bytes@);
                    (
                        ReceiveSession::AwaitPayloadLength { directory, name_length },
                        ReceiveAction::Read(4),
                    )
                },
                _ => close(
                    TransferOutcome::ProtocolError(DecodeError::Truncated(FrameField::NameLength)),
                ),
            },
            ReceiveSession::AwaitPayloadLength { directory, name_length } => match event {
                ReceiveEvent::Bytes(bytes) if bytes.len() == 4 => {
                    let payload_length: u32 = get_be32(bytes.as_slice(), 0);
                    assert(bytes@.subrange(0, 4) =~= bytes@);
                    (
                        ReceiveSession::AwaitName { directory, name_length, payload_length },
                        ReceiveAction::Read(name_length as usize),
                    )
                },
                _ => close(
                    TransferOutcome::ProtocolError(
                        DecodeError::Truncated(FrameField::PayloadLength),
                    ),
                ),
            },
            ReceiveSession::AwaitName { directory, name_length, payload_length } => match event {
                ReceiveEvent::Bytes(bytes) if bytes.len() == name_length as usize => {
                    match string_from_utf8(bytes) {
                        Some(name) => (
                            ReceiveSession::AwaitPayload { directory, name, payload_length },
                            ReceiveAction::Read(payload_length as usize),
                        ),
                        None => close(TransferOutcome::ProtocolError(DecodeError::InvalidName)),
                    }
                },
                _ => close(
                    TransferOutcome::ProtocolError(DecodeError::Truncated(FrameField::Name)),
                ),
            },
            ReceiveSession::AwaitPayload { directory, name, payload_length } => match event {
                ReceiveEvent::Bytes(payload) if payload.len() == payload_length as usize => (
                    ReceiveSession::AwaitStore,
                    ReceiveAction::Store { directory, name, payload },
                ),
                _ => close(
                    TransferOutcome::ProtocolError(DecodeError::Truncated(FrameField::Payload)),
                ),
            },
            ReceiveSession::AwaitStore => match event {
                ReceiveEvent::Stored => (
                    ReceiveSession::Finished { outcome: TransferOutcome::Success },
                    ReceiveAction::Reply {
                        message: reply_bytes("OK"),
                        outcome: TransferOutcome::Success,
                    },
                ),
                _ => close(TransferOutcome::IoError(IoStage::WriteFile)),
            },
            ReceiveSession::Finished { outcome } => close(outcome),
        }
    }
}

} // verus!
