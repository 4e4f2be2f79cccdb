//! How one transfer ended.

use crate::frame::DecodeError;
use vstd::prelude::*;

verus! {

/// The step of a transfer at which the machine or the network failed.
#[derive(Clone, Copy, Debug, PartialEq, Eq, Structural)]
pub enum IoStage {
    /// Opening the connection to the receiver.
    Connect,
    /// Reading the file that was to be sent.
    ReadFile,
    /// Writing the frame to the connection.
    WriteFrame,
    /// Waiting for the receiver's answer.
    ReadResponse,
    /// Writing the received file into the destination.
    WriteFile,
}

/// The result of one transfer, on either side.
#[derive(Clone, Copy, Debug, PartialEq, Eq, Structural)]
pub enum TransferOutcome {
    Success,
    /// A connection arrived before a destination was chosen.
    NoDestinationConfigured,
    IoError(IoStage),
    ProtocolError(DecodeError),
}

} // verus!
