//! Switching low-latency mode on a line: one read of the serial structure,
//! one bit changed, one write.

use crate::flags::{
    flag_bit, lemma_bit_isolation, lemma_last_update_wins, lemma_update_idempotent, UpdateAction,
    ASYNCB_LOW_LATENCY,
};
use crate::port::{Call, PortView, SimulatedPort, LOW_LATENCY_TIMER};
use crate::serial::SerialStruct;
use crate::toggle::{Event, Request, State, Toggle};
use nix::errno::Errno;
use vstd::prelude::*;

verus! {

impl PortView {
    /// What switching low-latency mode returns on this line: the error of
    /// the read if the read fails, else the error of the write if the write
    /// fails, else success.
    pub open spec fn update_result(self) -> Result<(), Errno> {
        match self.get_error {
            Some(error) => Err(error),
            None => self.set_result(),
        }
    }

    /// The line after `action`: it was read once; and, if the read succeeded,
    /// written once, with the structure it held and the low-latency bit as
    /// `action` wants it.
    pub open spec fn updated(self, action: UpdateAction) -> PortView {
        match self.get_error {
            Some(_) => self.after_get(),
            None => self.after_get().after_set(self.config.updated(action)),
        }
    }
}

/// How far `toggle` has come on a line that was `start` when the operation
/// began and is `now`.
spec fn in_step(start: PortView, action: UpdateAction, toggle: Toggle, now: PortView) -> bool {
    &&& toggle.action == action
    &&& match toggle.state {
        State::Unread => now == start,
        State::Modified(config) => {
            &&& start.get_error is None
            &&& config == start.config.updated(action)
            &&& now == start.after_get()
        },
        State::Written => {
            &&& start.update_result() == Ok::<(), Errno>(())
            &&& now == start.updated(action)
        },
        State::ReadFailed(error) => {
            &&& start.get_error == Some(error)
            &&& now == start.updated(action)
        },
        State::WriteFailed(error) => {
            &&& start.get_error is None
            &&& start.set_error == Some(error)
            &&& now == start.updated(action)
        },
    }
}

/// Reads the serial structure of `port`, sets or clears its low-latency bit
/// as `action` says, and writes it back. A failed read ends the operation
/// with the read's error and nothing is written; a failed write ends it with
/// the write's error.
pub fn update_low_latency(port: &mut SimulatedPort, action: UpdateAction) -> (result: Result<
    (),
    Errno,
>)
    ensures
        result == old(port)@.update_result(),
        final(port)@ == old(port)@.updated(action),
{
    let ghost start = port@;
    let mut toggle = Toggle::new(action);
    loop
        invariant
            start == old(port)@,
            in_step(start, action, toggle, port@),
        decreases toggle.state.calls_left(),
    {
        let event = match toggle.request() {
            Request::GetSerial => Event::GetReturned(port.get_serial()),
            Request::SetSerial(config) => Event::SetReturned(port.set_serial(config)),
            Request::Finish(result) => {
                return result;
            },
        };
        toggle = toggle.handle(event);
    }
}

/// Switches low-latency mode on.
pub fn enable_low_latency(port: &mut SimulatedPort) -> (result: Result<(), Errno>)
    ensures
        result == old(port)@.update_result(),
        final(port)@ == old(port)@.updated(UpdateAction::Enable),
{
    update_low_latency(port, UpdateAction::Enable)
}

/// Switches low-latency mode off.
pub fn disable_low_latency(port: &mut SimulatedPort) -> (result: Result<(), Errno>)
    ensures
        result == old(port)@.update_result(),
        final(port)@ == old(port)@.updated(UpdateAction::Disable),
{
    update_low_latency(port, UpdateAction::Disable)
}

/// A successful update changes one thing on the line: the low-latency bit of
/// the flags word. Every other bit of the word and every other field of the
/// structure stay as they were, and the latency timer shows the mode.
pub proof fn lemma_update_changes_one_bit(port: PortView, action: UpdateAction)
    requires
        port.update_result() is Ok,
    ensures
        port.updated(action).config == (SerialStruct {
            flags: port.updated(action).config.flags,
            ..port.config
        }),
        port.updated(action).config.low_latency() == (action is Enable),
        forall|index: u32|
            index < 32 && index != ASYNCB_LOW_LATENCY ==> #[trigger] flag_bit(
                port.updated(action).config.flags,
                index,
            ) == flag_bit(port.config.flags, index),
        port.updated(action).latency_timer() == if action is Enable {
            LOW_LATENCY_TIMER
        } else {
            port.timer
        },
{
    lemma_bit_isolation(port.config.flags, action);
}

/// Updating a line twice in the same way leaves it holding what one update
/// leaves it holding, and the second update returns what the first returned.
pub proof fn lemma_update_twice(port: PortView, action: UpdateAction)
    ensures
        port.updated(action).updated(action).config == port.updated(action).config,
        port.updated(action).updated(action).latency_timer() == port.updated(
            action,
        ).latency_timer(),
        port.updated(action).update_result() == port.update_result(),
{
    lemma_update_idempotent(port.config.flags, action);
}

/// Disabling after enabling leaves the line holding the structure it held at
/// first with the low-latency bit cleared; where either call failed, the
/// structure itself. So a line that was not in low-latency mode holds again
/// exactly what it held.
pub proof fn lemma_disable_after_enable(port: PortView)
    ensures
        port.updated(UpdateAction::Enable).updated(UpdateAction::Disable).config == if port
            .update_result() is Ok {
            port.config.updated(UpdateAction::Disable)
        } else {
            port.config
        },
        !port.config.low_latency() ==> port.updated(UpdateAction::Enable).updated(
            UpdateAction::Disable,
        ).config == port.config,
{
    lemma_last_update_wins(port.config.flags, UpdateAction::Enable, UpdateAction::Disable);
}

/// Where the read fails, the update returns the read's error, and the read
/// is the only call that reaches the line: nothing is written.
pub proof fn lemma_failed_read_writes_nothing(port: PortView, action: UpdateAction, error: Errno)
    requires
        port.get_error == Some(error),
    ensures
        port.update_result() == Err::<(), Errno>(error),
        port.updated(action).calls == port.calls.push(Call::GetSerial),
        port.updated(action) == port.after_get(),
{
}

/// Where the update fails, at the read or at the write, the line holds what
/// it held before, and a read made afterwards returns what a read made
/// before would have returned.
pub proof fn lemma_failure_changes_nothing(port: PortView, action: UpdateAction)
    requires
        port.update_result() is Err,
    ensures
        port.updated(action).config == port.config,
        port.updated(action).get_result() == port.get_result(),
        port.updated(action).latency_timer() == port.latency_timer(),
{
}

/// An update makes one read; and one write, of the structure that was read
/// with the low-latency bit as `action` wants it, if and only if the read
/// succeeded.
pub proof fn lemma_calls_of_update(port: PortView, action: UpdateAction)
    ensures
        port.updated(action).calls == if port.get_error is Some {
            port.calls.push(Call::GetSerial)
        } else {
            port.calls.push(Call::GetSerial).push(
                Call::SetSerial(port.config.updated(action)),
            )
        },
{
}

} // verus!
