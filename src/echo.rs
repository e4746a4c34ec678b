use vstd::prelude::*;

verus! {

/// TCP port the echo service listens on.
pub const ECHO_PORT: u16 = 1234;

/// Seconds of silence after which the stack aborts an echo connection.
pub const ECHO_IDLE_TIMEOUT_SECS: u64 = 10;

/// Size of the buffer a single read fills at most.
pub const ECHO_BUFFER_SIZE: usize = 4096;

/// States of the echo service.
#[derive(Clone, Copy, Debug, PartialEq, Eq, Structural)]
pub enum EchoState {
    /// Waiting for a client on `ECHO_PORT`.
    Listening,
    /// A connection is open; the next step is a read.
    Echoing,
    /// Bytes were read and are being written back, all of them, before the next read.
    Writing,
}

/// What the socket reported after the last action.
#[derive(Debug)]
pub enum EchoEvent {
    Accepted,
    AcceptFailed,
    /// A read completed with these bytes; none at all means the peer closed.
    Read(Vec<u8>),
    ReadFailed,
    Written,
    WriteFailed,
}

/// What the service asks of the socket next.
#[derive(Debug)]
pub enum EchoAction {
    /// Open a fresh socket with the idle timeout and accept on the port.
    Accept(u16),
    /// Read up to `ECHO_BUFFER_SIZE` bytes.
    Read,
    /// Write every one of these bytes.
    WriteAll(Vec<u8>),
}

/// Whether `e` is a report on the operation that state `s` waits on.
pub open spec fn answers(s: EchoState, e: EchoEvent) -> bool {
    match s {
        EchoState::Listening => e is Accepted || e is AcceptFailed,
        EchoState::Echoing => e is Read || e is ReadFailed,
        EchoState::Writing => e is Written || e is WriteFailed,
    }
}

/// The state after `e` arrives in state `s`.
pub open spec fn next_state(s: EchoState, e: EchoEvent) -> EchoState {
    match e {
        EchoEvent::Accepted => EchoState::Echoing,
        EchoEvent::Read(b) => if b@.len() == 0 {
            EchoState::Listening
        } else {
            EchoState::Writing
        },
        EchoEvent::Written => EchoState::Echoing,
        _ => EchoState::Listening,
    }
}

/// The echo service: every byte read on a connection is written back unchanged before
/// the next read; end of stream or any error returns it to listening.
pub struct EchoServer {
    pub state: EchoState,
}

impl EchoServer {
    pub fn new() -> (s: Self)
        ensures
            s.state == EchoState::Listening,
    {
        EchoServer { state: EchoState::Listening }
    }

    /// The first operation: accept on the echo port.
    pub fn start(&self) -> (a: EchoAction)
        ensures
            a == EchoAction::Accept(ECHO_PORT),
    {
        EchoAction::Accept(ECHO_PORT)
    }

    /// Takes in what the socket reported on the pending operation and returns the next
    /// one. Read bytes are handed back, untouched, to be written.
    pub fn step(&mut self, e: EchoEvent) -> (a: EchoAction)
        requires
            answers(old(self).state, e),
        ensures
            final(self).state == next_state(old(self).state, e),
            final(self).state == EchoState::Listening ==> a == EchoAction::Accept(ECHO_PORT),
            final(self).state == EchoState::Echoing ==> a == EchoAction::Read,
            final(self).state == EchoState::Writing ==> (e matches EchoEvent::Read(b)
                && a == EchoAction::WriteAll(b)),
    {
        match e {
            EchoEvent::Accepted => {
                self.state = EchoState::Echoing;
                EchoAction::Read
            },
            EchoEvent::Read(b) => {
                if b.len() == 0 {
                    self.state = EchoState::Listening;
                    EchoAction::Accept(ECHO_PORT)
                } else {
                    self.state = EchoState::Writing;
                    EchoAction::WriteAll(b)
                }
            },
            EchoEvent::Written => {
                self.state = EchoState::Echoing;
                EchoAction::Read
            },
            _ => {
                self.state = EchoState::Listening;
                EchoAction::Accept(ECHO_PORT)
            },
        }
    }

    pub fn is_listening(&self) -> (r: bool)
        ensures
            r == (self.state == EchoState::Listening),
    {
        self.state == EchoState::Listening
    }
}

} // verus!
