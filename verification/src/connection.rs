//! Connection-level state: the protocol phase a connection is in, a buffer
//! for a partially received frame, and the last issued command. The state is
//! driven by the surrounding I/O and handshake layers; the decoders only read
//! it for context.

use vstd::prelude::*;

verus! {

/// Lifecycle state of one connection. A connection starts `Initiated`; the
/// handshake layer marks it `AuthDone` once authentication succeeds; the
/// command-dispatch layer moves it between `AuthDone` and `PendingResponse`
/// as commands are sent and their terminal replies arrive. No transition
/// returns to `Initiated`.
#[derive(Clone, Copy, PartialEq, Eq, Structural, Debug)]
pub enum State {
    Initiated,
    AuthDone,
    PendingResponse,
}

/// Protocol phase handed to the framer: the MySQL connection phase
/// (handshake and authentication) or the command phase (a command has been
/// sent and its reply is being read). Packet classification only treats a
/// body as a command reply in the command phase.
#[derive(Clone, Copy, PartialEq, Eq, Structural, Debug)]
pub enum Phase {
    Connection,
    Command,
}

/// Direction of a packet on the wire: client to server or server to client.
#[derive(Clone, Copy, PartialEq, Eq, Structural, Debug)]
pub enum Direction {
    C2S,
    S2C,
}

/// State of one connection. `partial_data` holds the bytes of an incomplete
/// frame until more arrive; `last_command` holds the body of the last command
/// sent, for interpreting its reply.
pub struct Connection {
    pub state: State,
    pub partial_data: Option<Vec<u8>>,
    pub last_command: Option<Vec<u8>>,
}

impl Connection {
    /// A fresh connection: `Initiated`, with no buffered bytes and no
    /// command outstanding.
    pub fn new() -> (r: Connection)
        ensures
            r.state == State::Initiated,
            r.partial_data is None,
            r.last_command is None,
    {
        Connection { state: State::Initiated, partial_data: None, last_command: None }
    }

    pub fn get_state(&self) -> (r: &State)
        ensures
            *r == self.state,
    {
        &self.state
    }

    /// Authentication succeeded: the connection leaves `Initiated` for good.
    pub fn mark_auth_done(&mut self)
        ensures
            final(self).state == State::AuthDone,
            final(self).partial_data == old(self).partial_data,
            final(self).last_command == old(self).last_command,
    {
        self.state = State::AuthDone;
    }

    /// A complete frame was reassembled and handed to the framer: drop the
    /// buffered bytes.
    pub fn unset_partial_data(&mut self)
        ensures
            final(self).partial_data is None,
            final(self).state == old(self).state,
            final(self).last_command == old(self).last_command,
    {
        self.partial_data = None;
    }

    /// A read yielded fewer bytes than a complete frame: keep them until
    /// more arrive.
    pub fn set_partial_data(&mut self, bytes: &[u8])
        ensures
            final(self).partial_data matches Some(d) && d@ == bytes@,
            final(self).state == old(self).state,
            final(self).last_command == old(self).last_command,
    {
        let mut temp: Vec<u8> = Vec::new();
        temp.extend_from_slice(bytes);
        self.partial_data = Some(temp);
    }
}

} // verus!
