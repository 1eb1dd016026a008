//! The exchange with the driver as a machine: it says which device-control
//! call to make next, takes what the call returned, and ends with the result
//! of the whole operation. It makes no call itself.

use crate::flags::UpdateAction;
use crate::serial::SerialStruct;
use nix::errno::Errno;
use vstd::prelude::*;

verus! {

/// Where one toggle operation stands.
#[derive(Clone, Copy, Debug, PartialEq, Eq)]
pub enum State {
    /// Nothing has been read yet.
    Unread,
    /// The structure was read and its flags word rewritten; it waits to be
    /// written back. Reading and rewriting are one transition: a structure
    /// that was read and not yet rewritten is never held.
    Modified(SerialStruct),
    /// The rewritten structure was written back. Final.
    Written,
    /// Reading failed with this error. Final.
    ReadFailed(Errno),
    /// Writing failed with this error. Final.
    WriteFailed(Errno),
}

/// What the machine asks of whoever drives it.
#[derive(Clone, Copy, Debug, PartialEq, Eq)]
pub enum Request {
    /// Read the serial structure from the device.
    GetSerial,
    /// Write this serial structure to the device.
    SetSerial(SerialStruct),
    /// Make no further call: the operation ended with this result.
    Finish(Result<(), Errno>),
}

/// What a device-control call returned.
#[derive(Clone, Copy, Debug, PartialEq, Eq)]
pub enum Event {
    /// The read returned: the structure, or the error.
    GetReturned(Result<SerialStruct, Errno>),
    /// The write returned: success, or the error.
    SetReturned(Result<(), Errno>),
}

impl State {
    /// The request that stands in this state.
    pub open spec fn request(self) -> Request {
        match self {
            State::Unread => Request::GetSerial,
            State::Modified(config) => Request::SetSerial(config),
            State::Written => Request::Finish(Ok(())),
            State::ReadFailed(error) => Request::Finish(Err(error)),
            State::WriteFailed(error) => Request::Finish(Err(error)),
        }
    }

    /// Whether the operation has ended.
    pub open spec fn is_final(self) -> bool {
        self is Written || self is ReadFailed || self is WriteFailed
    }

    /// The number of device-control calls still to come, at most.
    pub open spec fn calls_left(self) -> nat {
        match self {
            State::Unread => 2,
            State::Modified(_) => 1,
            _ => 0,
        }
    }

    /// Whether `event` answers the request that stands in this state.
    pub open spec fn expects(self, event: Event) -> bool {
        ||| self is Unread && event is GetReturned
        ||| self is Modified && event is SetReturned
    }

    /// The state after `event`. An event that answers the standing request
    /// moves the machine on; any other event leaves it where it is.
    pub open spec fn next(self, action: UpdateAction, event: Event) -> State {
        match (self, event) {
            (State::Unread, Event::GetReturned(Ok(config))) => State::Modified(
                config.updated(action),
            ),
            (State::Unread, Event::GetReturned(Err(error))) => State::ReadFailed(error),
            (State::Modified(_), Event::SetReturned(Ok(()))) => State::Written,
            (State::Modified(_), Event::SetReturned(Err(error))) => State::WriteFailed(error),
            _ => self,
        }
    }

    /// The state after each of `events` in turn.
    pub open spec fn run(self, action: UpdateAction, events: Seq<Event>) -> State
        decreases events.len(),
    {
        if events.len() == 0 {
            self
        } else {
            self.next(action, events[0]).run(action, events.skip(1))
        }
    }
}

/// One toggle operation: what it is to do with the bit, and where it stands.
#[derive(Clone, Copy, Debug, PartialEq, Eq)]
pub struct Toggle {
    pub action: UpdateAction,
    pub state: State,
}

impl Toggle {
    /// A toggle that has read nothing yet.
    pub fn new(action: UpdateAction) -> (toggle: Toggle)
        ensures
            toggle == (Toggle { action, state: State::Unread }),
    {
        Toggle { action, state: State::Unread }
    }

    /// The call to make now, or the result if the operation has ended.
    pub fn request(&self) -> (request: Request)
        ensures
            request == self.state.request(),
    {
        match self.state {
            State::Unread => Request::GetSerial,
            State::Modified(config) => Request::SetSerial(config),
            State::Written => Request::Finish(Ok(())),
            State::ReadFailed(error) => Request::Finish(Err(error)),
            State::WriteFailed(error) => Request::Finish(Err(error)),
        }
    }

    /// Takes what a device-control call returned. A structure that was read
    /// has its low-latency bit set or cleared and waits to be written; a
    /// failed call ends the operation with its error; a successful write ends
    /// it with success. An event that answers no standing request changes
    /// nothing.
    pub fn handle(self, event: Event) -> (toggle: Toggle)
        ensures
            toggle.action == self.action,
            toggle.state == self.state.next(self.action, event),
            self.state.expects(event) ==> toggle.state.calls_left() < self.state.calls_left(),
    {
        let state = match (self.state, event) {
            (State::Unread, Event::GetReturned(Ok(config))) => State::Modified(
                config.update(self.action),
            ),
            (State::Unread, Event::GetReturned(Err(error))) => State::ReadFailed(error),
            (State::Modified(_), Event::SetReturned(Ok(()))) => State::Written,
            (State::Modified(_), Event::SetReturned(Err(error))) => State::WriteFailed(error),
            (state, _) => state,
        };
        Toggle { action: self.action, state }
    }
}

/// A state in which the operation has ended is never left: whatever events
/// follow, the machine stays there and asks for no further call.
pub proof fn lemma_final_state_stays(state: State, action: UpdateAction, events: Seq<Event>)
    requires
        state.is_final(),
    ensures
        state.run(action, events) == state,
        state.run(action, events).request() is Finish,
    decreases events.len(),
{
    if events.len() > 0 {
        lemma_final_state_stays(state, action, events.skip(1));
    }
}

/// A failed read ends the operation with the read's own error: the machine
/// then reports that error, and whatever events follow it never asks for a
/// write.
pub proof fn lemma_read_failure_ends(action: UpdateAction, error: Errno, events: Seq<Event>)
    ensures
        State::Unread.next(action, Event::GetReturned(Err(error))) == State::ReadFailed(error),
        State::Unread.next(action, Event::GetReturned(Err(error))).run(action, events).request()
            == Request::Finish(Err(error)),
{
    lemma_final_state_stays(State::ReadFailed(error), action, events);
}

/// A failed write ends the operation with the write's own error, and no
/// second write is asked for.
pub proof fn lemma_write_failure_ends(
    config: SerialStruct,
    action: UpdateAction,
    error: Errno,
    events: Seq<Event>,
)
    ensures
        State::Modified(config).next(action, Event::SetReturned(Err(error))) == State::WriteFailed(
            error,
        ),
        State::Modified(config).next(action, Event::SetReturned(Err(error))).run(
            action,
            events,
        ).request() == Request::Finish(Err(error)),
{
    lemma_final_state_stays(State::WriteFailed(error), action, events);
}

/// The machine comes to ask for a write in one way only: from `Unread`, by a
/// read that succeeded; and the structure it then asks to write is the one
/// that was read, with the low-latency bit as `action` wants it and every
/// other field as read.
pub proof fn lemma_write_follows_read(state: State, action: UpdateAction, event: Event)
    requires
        !(state is Modified),
        state.next(action, event) is Modified,
    ensures
        state is Unread,
        event matches Event::GetReturned(Ok(config)) && state.next(action, event).request()
            == Request::SetSerial(config.updated(action)),
{
}

/// Each event that answers the standing request brings the end nearer, so
/// an operation makes at most two device-control calls: one read, and one
/// write.
pub proof fn lemma_two_calls_at_most(state: State, action: UpdateAction, event: Event)
    ensures
        state.calls_left() <= 2,
        state.calls_left() == 0 <==> state.is_final(),
        state.expects(event) ==> state.next(action, event).calls_left() < state.calls_left(),
        !state.expects(event) ==> state.next(action, event) == state,
{
}

} // verus!
