//! What is settled before a peer starts: its role, its key combination and,
//! for a sender, the receiver's address.

use crate::text::{same_text, trim, trimmed};
use vstd::prelude::*;
use vstd::string::*;

verus! {

/// The port that every receiver listens on.
pub const FILE_TRANSFER_PORT: u16 = 8080;

/// The two roles. A process has one, for as long as it runs.
#[derive(Clone, Copy, Debug, PartialEq, Eq, Structural)]
pub enum Role {
    /// Listens, and stores what arrives.
    Receiver,
    /// Sends the file that was picked.
    Sender,
}

/// The key combination of a role for which none was given.
pub open spec fn default_combination(role: Role) -> Seq<char> {
    match role {
        Role::Receiver => "ctrl+shift+r"@,
        Role::Sender => "ctrl+shift+s"@,
    }
}

/// The key combination of a role for which none was given.
pub fn default_hotkey(role: Role) -> (text: &'static str)
    ensures
        text@ == default_combination(role),
{
    match role {
        Role::Receiver => "ctrl+shift+r",
        Role::Sender => "ctrl+shift+s",
    }
}

/// Where a sender connects to.
#[derive(Clone, Debug, PartialEq, Eq)]
pub struct ServerAddress {
    pub host: String,
    pub port: u16,
}

/// The host that a sender connects to when `server` is what it was given.
pub open spec fn resolved_host(server: Option<Seq<char>>) -> Seq<char> {
    match server {
        Some(host) => host,
        None => "localhost"@,
    }
}

impl ServerAddress {
    /// The address of the receiver on `server`, or on this machine if no
    /// host was given. The port is always `FILE_TRANSFER_PORT`.
    pub fn resolve(server: Option<String>) -> (address: ServerAddress)
        ensures
            address.port == FILE_TRANSFER_PORT,
            address.host@ == resolved_host(
                match server {
                    Some(host) => Some(host@),
                    None => None,
                },
            ),
    {
        let host = match server {
            Some(host) => host,
            None => String::from_str("localhost"),
        };
        ServerAddress { host, port: FILE_TRANSFER_PORT }
    }
}

/// The role that a choice names: `1` the receiver, `2` the sender.
pub open spec fn role_named(choice: Seq<char>) -> Option<Role> {
    if choice == "1"@ {
        Some(Role::Receiver)
    } else if choice == "2"@ {
        Some(Role::Sender)
    } else {
        None
    }
}

/// The role that `choice` names, if it names one.
pub fn role_from_choice(choice: &str) -> (role: Option<Role>)
    ensures
        role == role_named(choice@),
{
    if same_text(choice, "1") {
        Some(Role::Receiver)
    } else if same_text(choice, "2") {
        Some(Role::Sender)
    } else {
        None
    }
}

/// Reads the answer to the opening question: the choice is the answer
/// without the white space around it.
pub fn role_from_answer(answer: &str) -> (role: Option<Role>)
    ensures
        role == role_named(trimmed(answer@)),
{
    role_from_choice(trim(answer))
}

/// The host that was entered, or `None` if nothing was.
pub fn server_from_entry(entry: &str) -> (server: Option<String>)
    ensures
        match server {
            Some(host) => host@ == entry@ && entry@.len() > 0,
            None => entry@.len() == 0,
        },
{
    if entry.is_empty() {
        None
    } else {
        Some(String::from_str(entry))
    }
}

/// Reads the answer to the question for the receiver's host: the entry is
/// the answer without the white space around it.
pub fn server_from_answer(answer: &str) -> (server: Option<String>)
    ensures
        match server {
            Some(host) => host@ == trimmed(answer@) && host@.len() > 0,
            None => trimmed(answer@).len() == 0,
        },
{
    server_from_entry(trim(answer))
}

} // verus!
