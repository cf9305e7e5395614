//! What the command line asks for: wait for a peer, or dial one.
//!
//! Reading the arguments is not done here. This module holds the parsed
//! request and says which address it means and how the start is announced.

use crate::text::{decimal, decimal_text};
use vstd::prelude::*;
use vstd::string::*;

verus! {

/// The port that is used where the command line names none.
pub const DEFAULT_PORT: u16 = 9000;

/// The parsed command line.
#[derive(Debug, Clone, PartialEq, Eq)]
pub struct Cli {
    pub command: Command,
}

/// The two ways to start a session.
#[derive(Debug, Clone, PartialEq, Eq)]
pub enum Command {
    /// Listen on `port` for a single incoming connection.
    Server { port: u16, username: String },
    /// Connect to `host` on `port`.
    Client { host: String, port: u16, username: String },
}

/// The mathematical value of a [`Command`].
pub enum CommandView {
    Server { port: u16, username: Seq<char> },
    Client { host: Seq<char>, port: u16, username: Seq<char> },
}

impl View for Command {
    type V = CommandView;

    open spec fn view(&self) -> CommandView {
        match *self {
            Command::Server { port, username } => CommandView::Server { port, username: username@ },
            Command::Client { host, port, username } => CommandView::Client {
                host: host@,
                port,
                username: username@,
            },
        }
    }
}

impl CommandView {
    /// The display name that the session sends with every envelope.
    pub open spec fn username(self) -> Seq<char> {
        match self {
            CommandView::Server { username, .. } => username,
            CommandView::Client { username, .. } => username,
        }
    }

    /// The socket address: every interface and the port for a server, host and
    /// port for a client.
    pub open spec fn address(self) -> Seq<char> {
        match self {
            CommandView::Server { port, .. } => "0.0.0.0:"@ + decimal(port as nat),
            CommandView::Client { host, port, .. } => host + ":"@ + decimal(port as nat),
        }
    }

    /// The line that announces the start.
    pub open spec fn banner(self) -> Seq<char> {
        match self {
            CommandView::Server { port, username } => "Starting server on port: "@ + decimal(
                port as nat,
            ) + " as '"@ + username + "'"@,
            CommandView::Client { host, port, username } => "Connecting to host: "@ + host
                + " on port: "@ + decimal(port as nat) + " as '"@ + username + "'"@,
        }
    }

    /// The words that go with a failure to claim or to reach the address.
    pub open spec fn failure(self) -> Seq<char> {
        match self {
            CommandView::Server { .. } => "Failed to bind TCP Listener to address: "@
                + self.address(),
            CommandView::Client { .. } => "Failed to connect to: "@ + self.address(),
        }
    }
}

impl Command {
    /// The display name that the session sends with every envelope.
    pub fn username(&self) -> (name: &str)
        ensures
            name@ == self@.username(),
    {
        match self {
            Command::Server { username, .. } => username.as_str(),
            Command::Client { username, .. } => username.as_str(),
        }
    }

    /// The socket address to listen on or to connect to.
    pub fn address(&self) -> (addr: String)
        ensures
            addr@ == self@.address(),
    {
        match self {
            Command::Server { port, .. } => {
                let mut addr = "0.0.0.0:".to_owned();
                addr.append(decimal_text(*port as u64).as_str());
                addr
            },
            Command::Client { host, port, .. } => {
                let mut addr = host.clone();
                addr.append(":");
                addr.append(decimal_text(*port as u64).as_str());
                addr
            },
        }
    }

    /// The line that announces the start.
    pub fn banner(&self) -> (line: String)
        ensures
            line@ == self@.banner(),
    {
        match self {
            Command::Server { port, username } => {
                let mut line = "Starting server on port: ".to_owned();
                line.append(decimal_text(*port as u64).as_str());
                line.append(" as '");
                line.append(username.as_str());
                line.append("'");
                line
            },
            Command::Client { host, port, username } => {
                let mut line = "Connecting to host: ".to_owned();
                line.append(host.as_str());
                line.append(" on port: ");
                line.append(decimal_text(*port as u64).as_str());
                line.append(" as '");
                line.append(username.as_str());
                line.append("'");
                line
            },
        }
    }

    /// The words that go with a failure to claim or to reach the address.
    pub fn failure(&self) -> (words: String)
        ensures
            words@ == self@.failure(),
    {
        let mut words = match self {
            Command::Server { .. } => "Failed to bind TCP Listener to address: ".to_owned(),
            Command::Client { .. } => "Failed to connect to: ".to_owned(),
        };
        words.append(self.address().as_str());
        words
    }
}

} // verus!
