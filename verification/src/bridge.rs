//! The command channel to one running simulator.
//!
//! Commands are lines of text. A session hands them to the simulator one at
//! a time, in the order in which they were sent, and never sends one twice:
//! whether to try again is for the caller to decide.

use vstd::prelude::*;
use vstd::string::{StrSliceExecFns, StringSliceAdditionalSpecFns};

verus! {

/// Why a command did not go through.
#[derive(Debug, Clone, Copy, PartialEq, Eq, Structural, Hash)]
pub enum BridgeError {
    /// The simulator is gone, or the session was closed.
    SessionUnreachable,
    /// The simulator refused the command with this number.
    CommandRejected { sequence: u64 },
    /// The line holds a zero byte, which cannot be sent.
    InvalidCommand,
    /// The answer to the previous command is still to come.
    CommandPending,
    /// An answer was reported, but no command is in flight.
    NoCommandPending,
}

/// What came back from the simulator for the command in flight.
#[derive(Debug, Clone, Copy, PartialEq, Eq, Structural, Hash)]
pub enum Reply {
    /// The simulator ran the command and returned a value.
    Value,
    /// The simulator reported an error for the command.
    Rejected,
    /// The simulator could not be reached.
    Unreachable,
}

/// The bytes that go to the simulator for a command line: the line as UTF-8
/// and a closing zero byte. A line that holds a zero byte has none.
pub open spec fn framed(line: Seq<u8>) -> Option<Seq<u8>> {
    if line.contains(0u8) {
        None
    } else {
        Some(line.push(0u8))
    }
}

/// Frames one command line for the simulator.
///
/// The simulator takes a command as a string that ends at its first zero
/// byte, so a line that holds one is refused rather than cut short.
pub fn run_command(line: &str) -> (r: Result<Vec<u8>, BridgeError>)
    ensures
        match r {
            Ok(bytes) => framed(line.spec_bytes()) == Some(bytes@),
            Err(e) => framed(line.spec_bytes()) is None && e == BridgeError::InvalidCommand,
        },
{
    let mut bytes = line.as_bytes_vec();
    let mut i: usize = 0;
    while i < bytes.len()
        invariant
            i <= bytes.len(),
            bytes@ == line.spec_bytes(),
            forall|j: int| 0 <= j < i ==> bytes@[j] != 0u8,
        decreases bytes.len() - i,
    {
        if bytes[i] == 0 {
            assert(line.spec_bytes().contains(0u8));
            return Err(BridgeError::InvalidCommand);
        }
        i += 1;
    }
    bytes.push(0);
    Ok(bytes)
}

/// A command on its way to the simulator.
#[derive(Debug)]
pub struct Command {
    /// The place of the command in the order of sending, counted from zero.
    pub sequence: u64,
    /// The framed line.
    pub bytes: Vec<u8>,
}

/// One live connection to a simulator.
#[derive(Debug, Clone, Copy, PartialEq, Eq, Structural, Hash)]
pub struct Session {
    /// Whether the simulator can still be reached.
    pub open: bool,
    /// The number of commands sent so far.
    pub sent: u64,
    /// The number of the command whose answer is still to come, if any.
    pub in_flight: Option<u64>,
}

impl Session {
    /// The session after a line was sent, and what the sender gets: the
    /// number of the command, or the reason why nothing was sent.
    pub open spec fn after_send(self, line: Seq<u8>) -> (Session, Result<u64, BridgeError>) {
        if !self.open {
            (self, Err(BridgeError::SessionUnreachable))
        } else if self.in_flight is Some {
            (self, Err(BridgeError::CommandPending))
        } else if framed(line) is None {
            (self, Err(BridgeError::InvalidCommand))
        } else if self.sent == u64::MAX {
            (Session { open: false, ..self }, Err(BridgeError::SessionUnreachable))
        } else {
            (
                Session { sent: (self.sent + 1) as u64, in_flight: Some(self.sent), ..self },
                Ok(self.sent),
            )
        }
    }

    /// The session after the answer to the command in flight, and what the
    /// sender gets.
    pub open spec fn after_reply(self, reply: Reply) -> (Session, Result<(), BridgeError>) {
        match self.in_flight {
            None => (self, Err(BridgeError::NoCommandPending)),
            Some(sequence) => match reply {
                Reply::Value => (Session { in_flight: None, ..self }, Ok(())),
                Reply::Rejected => (
                    Session { in_flight: None, ..self },
                    Err(BridgeError::CommandRejected { sequence }),
                ),
                Reply::Unreachable => (
                    Session { open: false, in_flight: None, ..self },
                    Err(BridgeError::SessionUnreachable),
                ),
            },
        }
    }

    /// A session with a simulator that has just been started.
    pub fn new() -> (session: Session)
        ensures
            session == (Session { open: true, sent: 0, in_flight: None }),
    {
        Session { open: true, sent: 0, in_flight: None }
    }

    /// Sends one command line. The command that comes back is to be handed
    /// to the simulator, and its answer reported with [`Session::complete`]
    /// before the next line is sent.
    pub fn send_command(&mut self, line: &str) -> (r: Result<Command, BridgeError>)
        ensures
            *final(self) == old(self).after_send(line.spec_bytes()).0,
            match r {
                Ok(command) => old(self).after_send(line.spec_bytes()).1 == Ok::<u64, BridgeError>(
                    command.sequence,
                ) && Some(command.bytes@) == framed(line.spec_bytes()),
                Err(e) => old(self).after_send(line.spec_bytes()).1 == Err::<u64, BridgeError>(e),
            },
    {
        if !self.open {
            return Err(BridgeError::SessionUnreachable);
        }
        if self.in_flight.is_some() {
            return Err(BridgeError::CommandPending);
        }
        let bytes = match run_command(line) {
            Ok(bytes) => bytes,
            Err(e) => {
                return Err(e);
            },
        };
        if self.sent == u64::MAX {
            self.open = false;
            return Err(BridgeError::SessionUnreachable);
        }
        let sequence = self.sent;
        self.sent = self.sent + 1;
        self.in_flight = Some(sequence);
        Ok(Command { sequence, bytes })
    }

    /// Reports the answer to the command in flight.
    pub fn complete(&mut self, reply: Reply) -> (r: Result<(), BridgeError>)
        ensures
            (*final(self), r) == old(self).after_reply(reply),
    {
        let sequence = match self.in_flight {
            Some(sequence) => sequence,
            None => {
                return Err(BridgeError::NoCommandPending);
            },
        };
        self.in_flight = None;
        match reply {
            Reply::Value => Ok(()),
            Reply::Rejected => Err(BridgeError::CommandRejected { sequence }),
            Reply::Unreachable => {
                self.open = false;
                Err(BridgeError::SessionUnreachable)
            },
        }
    }

    /// Tears the session down. A command in flight is abandoned.
    pub fn close(&mut self)
        ensures
            *final(self) == (Session { open: false, in_flight: None, ..*old(self) }),
    {
        self.open = false;
        self.in_flight = None;
    }
}

/// Commands go out in the order in which they are sent, one at a time: each
/// command that is sent gets the number after that of the one before it, and
/// while its answer is still to come no other is sent.
pub proof fn lemma_commands_keep_their_order(session: Session, first: Seq<u8>, second: Seq<u8>)
    ensures
        session.after_send(first).1 matches Ok(sequence) ==> {
            let next = session.after_send(first).0;
            &&& sequence == session.sent
            &&& next.sent == sequence + 1
            &&& next.in_flight == Some(sequence)
            &&& next.after_send(second) == (
                next,
                Err::<u64, BridgeError>(BridgeError::CommandPending),
            )
            &&& forall|reply: Reply|
                (#[trigger] next.after_reply(reply)).0.after_send(second).1 matches Ok(after)
                    ==> after == sequence + 1
        },
{
}

/// A command that did not go through is not sent again on its own: the count
/// of commands sent stays, and so does the command in flight. An answer
/// never counts as a command, and a closed session sends nothing.
pub proof fn lemma_failure_sends_nothing(session: Session, line: Seq<u8>, reply: Reply)
    ensures
        session.after_send(line).1 is Err ==> session.after_send(line).0.sent == session.sent
            && session.after_send(line).0.in_flight == session.in_flight,
        session.after_reply(reply).0.sent == session.sent,
        !session.open ==> session.after_send(line) == (
            session,
            Err::<u64, BridgeError>(BridgeError::SessionUnreachable),
        ),
{
}

} // verus!
