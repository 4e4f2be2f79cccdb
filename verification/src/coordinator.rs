//! The two coordinators: what a peer does, tick after tick.
//!
//! A coordinator polls; it never waits. On every tick it looks for a
//! trigger and, on the receiving side, for a connection, acts on what it
//! finds and sleeps for a moment. It does none of this itself: it answers
//! each thing that happened with the next thing to do.

use crate::hotkey::HotkeyBinding;
use crate::outcome::TransferOutcome;
use crate::path::clone_path;
use crate::setup::ServerAddress;
use std::path::PathBuf;
use vstd::prelude::*;

verus! {

/// The pause at the end of every tick, in milliseconds.
pub const TICK_MILLIS: u64 = 100;

/// What happened on the receiving side.
#[derive(Debug, PartialEq, Eq)]
pub enum ReceiverEvent {
    /// The hotkey source was polled: the identifier of the pending event, if any.
    Trigger(Option<u32>),
    /// The folder picker returned: the folder, unless the user cancelled.
    Folder(Option<PathBuf>),
    /// The queue was polled: true if a connection was taken from it.
    Connection(bool),
    /// The transfer on that connection is over.
    TransferOver(TransferOutcome),
    /// The pause has passed.
    Awake,
}

/// What the receiving side is to do next.
#[derive(Debug, PartialEq, Eq)]
pub enum ReceiverAction {
    /// Poll the hotkey source, without waiting.
    PollTrigger,
    /// Let the user pick the destination folder.
    PickFolder,
    /// Poll the connection queue, without waiting.
    PollQueue,
    /// Receive one file on the connection that was taken, with the
    /// destination as it stands now.
    Receive { destination: Option<PathBuf> },
    /// Pause.
    Sleep { millis: u64 },
}

/// The destination after `event`, and the next thing to do.
///
/// Only a folder that the user picked changes the destination; a picker
/// that was cancelled leaves it as it was, chosen or not. The picker opens
/// on this binding's trigger and on nothing else.
pub open spec fn receiver_reaction(
    binding: HotkeyBinding,
    destination: Option<PathBuf>,
    event: ReceiverEvent,
) -> (Option<PathBuf>, ReceiverAction) {
    match event {
        ReceiverEvent::Trigger(pending) => if pending == Some(binding.id) {
            (destination, ReceiverAction::PickFolder)
        } else {
            (destination, ReceiverAction::PollQueue)
        },
        ReceiverEvent::Folder(Some(folder)) => (Some(folder), ReceiverAction::PollQueue),
        ReceiverEvent::Folder(None) => (destination, ReceiverAction::PollQueue),
        ReceiverEvent::Connection(taken) => if taken {
            (destination, ReceiverAction::Receive { destination })
        } else {
            (destination, ReceiverAction::Sleep { millis: TICK_MILLIS })
        },
        ReceiverEvent::TransferOver(_) => (destination, ReceiverAction::Sleep { millis: TICK_MILLIS }),
        ReceiverEvent::Awake => (destination, ReceiverAction::PollTrigger),
    }
}

/// An event of another binding opens no picker and changes nothing.
pub proof fn lemma_receiver_ignores_foreign_trigger(
    binding: HotkeyBinding,
    destination: Option<PathBuf>,
    event_id: u32,
)
    requires
        event_id != binding.id,
    ensures
        receiver_reaction(binding, destination, ReceiverEvent::Trigger(Some(event_id))) == (
            destination,
            ReceiverAction::PollQueue,
        ),
{
}

/// A destination, once chosen, is never lost, and nothing but a picked
/// folder replaces it.
pub proof fn lemma_destination_persists(
    binding: HotkeyBinding,
    destination: Option<PathBuf>,
    event: ReceiverEvent,
)
    ensures
        destination is Some ==> receiver_reaction(binding, destination, event).0 is Some,
        receiver_reaction(binding, destination, event).0 != destination ==> event
            matches ReceiverEvent::Folder(Some(_)),
{
}

/// A connection is received with the destination of that moment, so
/// without one when none was chosen yet.
pub proof fn lemma_connection_sees_destination(
    binding: HotkeyBinding,
    destination: Option<PathBuf>,
)
    ensures
        receiver_reaction(binding, destination, ReceiverEvent::Connection(true)).1
            == (ReceiverAction::Receive { destination }),
{
}

/// A `Receiver` as contracts speak of it.
pub struct ReceiverView {
    pub binding: HotkeyBinding,
    pub destination: Option<PathBuf>,
}

/// The state of the receiving side: its binding, and the destination once
/// one is chosen.
pub struct Receiver {
    binding: HotkeyBinding,
    destination: Option<PathBuf>,
}

impl View for Receiver {
    type V = ReceiverView;

    closed spec fn view(&self) -> ReceiverView {
        ReceiverView { binding: self.binding, destination: self.destination }
    }
}

impl Receiver {
    /// A receiver without a destination.
    pub fn new(binding: HotkeyBinding) -> (receiver: Receiver)
        ensures
            receiver@.binding == binding,
            receiver@.destination is None,
    {
        Receiver { binding, destination: None }
    }

    /// The binding whose trigger opens the picker.
    pub fn binding(&self) -> (binding: HotkeyBinding)
        ensures
            binding == self@.binding,
    {
        self.binding
    }

    /// The destination, if one is chosen.
    pub fn destination(&self) -> (destination: Option<PathBuf>)
        ensures
            destination == self@.destination,
    {
        match &self.destination {
            Some(folder) => Some(clone_path(folder)),
            None => None,
        }
    }

    /// The first thing to do.
    pub fn start(&self) -> (action: ReceiverAction)
        ensures
            action == ReceiverAction::PollTrigger,
    {
        ReceiverAction::PollTrigger
    }

    /// Answers `event` with the next thing to do.
    pub fn step(&mut self, event: ReceiverEvent) -> (action: ReceiverAction)
        ensures
            final(self)@.binding == old(self)@.binding,
            (final(self)@.destination, action) == receiver_reaction(
                old(self)@.binding,
                old(self)@.destination,
                event,
            ),
    {
        match event {
            ReceiverEvent::Trigger(pending) => match pending {
                Some(event_id) if self.binding.is_trigger(event_id) => ReceiverAction::PickFolder,
                _ => ReceiverAction::PollQueue,
            },
            ReceiverEvent::Folder(Some(folder)) => {
                self.destination = Some(folder);
                ReceiverAction::PollQueue
            },
            ReceiverEvent::Folder(None) => ReceiverAction::PollQueue,
            ReceiverEvent::Connection(taken) => if taken {
                ReceiverAction::Receive { destination: self.destination() }
            } else {
                ReceiverAction::Sleep { millis: TICK_MILLIS }
            },
            ReceiverEvent::TransferOver(_) => ReceiverAction::Sleep { millis: TICK_MILLIS },
            ReceiverEvent::Awake => ReceiverAction::PollTrigger,
        }
    }
}

/// What happened on the sending side.
#[derive(Debug, PartialEq, Eq)]
pub enum SenderEvent {
    /// The hotkey source was polled: the identifier of the pending event, if any.
    Trigger(Option<u32>),
    /// The file picker returned: the file, unless the user cancelled.
    File(Option<PathBuf>),
    /// The transfer of that file is over.
    TransferOver(TransferOutcome),
    /// The pause has passed.
    Awake,
}

/// What the sending side is to do next.
#[derive(Debug, PartialEq, Eq)]
pub enum SenderAction {
    /// Poll the hotkey source, without waiting.
    PollTrigger,
    /// Let the user pick the file to send.
    PickFile,
    /// Send this file to the receiver, and wait until that is done.
    Send { file: PathBuf },
    /// Pause.
    Sleep { millis: u64 },
}

/// The next thing to do after `event`.
///
/// The picker opens on this binding's trigger and on nothing else, and a
/// file is sent only if the user picked one.
pub open spec fn sender_reaction(binding: HotkeyBinding, event: SenderEvent) -> SenderAction {
    match event {
        SenderEvent::Trigger(pending) => if pending == Some(binding.id) {
            SenderAction::PickFile
        } else {
            SenderAction::Sleep { millis: TICK_MILLIS }
        },
        SenderEvent::File(Some(file)) => SenderAction::Send { file },
        SenderEvent::File(None) => SenderAction::Sleep { millis: TICK_MILLIS },
        SenderEvent::TransferOver(_) => SenderAction::Sleep { millis: TICK_MILLIS },
        SenderEvent::Awake => SenderAction::PollTrigger,
    }
}

/// An event of another binding opens no picker and sends nothing.
pub proof fn lemma_sender_ignores_foreign_trigger(binding: HotkeyBinding, event_id: u32)
    requires
        event_id != binding.id,
    ensures
        sender_reaction(binding, SenderEvent::Trigger(Some(event_id))) == (SenderAction::Sleep {
            millis: TICK_MILLIS,
        }),
{
}

/// The sending side: its binding and the receiver's address. Nothing of it
/// changes while it runs.
pub struct Sender {
    pub binding: HotkeyBinding,
    pub server: ServerAddress,
}

impl Sender {
    /// A sender that sends to `server`.
    pub fn new(binding: HotkeyBinding, server: ServerAddress) -> (sender: Sender)
        ensures
            sender.binding == binding,
            sender.server == server,
    {
        Sender { binding, server }
    }

    /// The first thing to do.
    pub fn start(&self) -> (action: SenderAction)
        ensures
            action == SenderAction::PollTrigger,
    {
        SenderAction::PollTrigger
    }

    /// Answers `event` with the next thing to do.
    pub fn step(&self, event: SenderEvent) -> (action: SenderAction)
        ensures
            action == sender_reaction(self.binding, event),
    {
        match event {
            SenderEvent::Trigger(pending) => match pending {
                Some(event_id) if self.binding.is_trigger(event_id) => SenderAction::PickFile,
                _ => SenderAction::Sleep { millis: TICK_MILLIS },
            },
            SenderEvent::File(Some(file)) => SenderAction::Send { file },
            SenderEvent::File(None) => SenderAction::Sleep { millis: TICK_MILLIS },
            SenderEvent::TransferOver(_) => SenderAction::Sleep { millis: TICK_MILLIS },
            SenderEvent::Awake => SenderAction::PollTrigger,
        }
    }
}

} // verus!
