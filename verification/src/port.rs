//! A serial line held in memory: the structure that a driver would hold, the
//! two device-control calls answered from it, and a record of the calls made.

use crate::flags::ASYNC_LOW_LATENCY;
use crate::serial::SerialStruct;
use nix::errno::Errno;
use vstd::prelude::*;

verus! {

/// The latency timer, in milliseconds, that a line in low-latency mode shows.
pub const LOW_LATENCY_TIMER: u8 = 1;

/// The latency timer, in milliseconds, that a line shows by default.
pub const DEFAULT_LATENCY_TIMER: u8 = 16;

/// A device-control call that reached the line.
#[derive(Clone, Copy, Debug, PartialEq, Eq)]
pub enum Call {
    /// The structure was asked for.
    GetSerial,
    /// This structure was handed in.
    SetSerial(SerialStruct),
}

/// A serial line held in memory.
#[derive(Clone, Debug, PartialEq, Eq)]
pub struct SimulatedPort {
    /// The structure that the line holds.
    pub config: SerialStruct,
    /// The error with which a read of the structure fails, if it fails.
    pub get_error: Option<Errno>,
    /// The error with which a write of the structure fails, if it fails.
    pub set_error: Option<Errno>,
    /// The latency timer that the line shows outside low-latency mode.
    pub timer: u8,
    /// Every call that reached the line, oldest first.
    pub calls: Vec<Call>,
}

/// What a `SimulatedPort` is, with its record of calls as a sequence.
pub ghost struct PortView {
    pub config: SerialStruct,
    pub get_error: Option<Errno>,
    pub set_error: Option<Errno>,
    pub timer: u8,
    pub calls: Seq<Call>,
}

impl View for SimulatedPort {
    type V = PortView;

    open spec fn view(&self) -> PortView {
        PortView {
            config: self.config,
            get_error: self.get_error,
            set_error: self.set_error,
            timer: self.timer,
            calls: self.calls@,
        }
    }
}

impl PortView {
    /// What a read of the structure returns.
    pub open spec fn get_result(self) -> Result<SerialStruct, Errno> {
        match self.get_error {
            Some(error) => Err(error),
            None => Ok(self.config),
        }
    }

    /// The line after a read of the structure: the read is on record, and
    /// nothing else has changed.
    pub open spec fn after_get(self) -> PortView {
        PortView { calls: self.calls.push(Call::GetSerial), ..self }
    }

    /// What a write of the structure returns.
    pub open spec fn set_result(self) -> Result<(), Errno> {
        match self.set_error {
            Some(error) => Err(error),
            None => Ok(()),
        }
    }

    /// The line after a write of `config`: the write is on record, and the
    /// line holds `config` if the write succeeded and what it held before if
    /// not.
    pub open spec fn after_set(self, config: SerialStruct) -> PortView {
        PortView {
            config: if self.set_error is None {
                config
            } else {
                self.config
            },
            calls: self.calls.push(Call::SetSerial(config)),
            ..self
        }
    }

    /// The latency timer that the line shows.
    pub open spec fn latency_timer(self) -> u8 {
        if self.config.low_latency() {
            LOW_LATENCY_TIMER
        } else {
            self.timer
        }
    }
}

impl SimulatedPort {
    /// A line that holds `config`, fails no call, shows the default latency
    /// timer and has seen no call yet.
    pub fn new(config: SerialStruct) -> (port: SimulatedPort)
        ensures
            port@ == (PortView {
                config,
                get_error: None,
                set_error: None,
                timer: DEFAULT_LATENCY_TIMER,
                calls: Seq::empty(),
            }),
    {
        SimulatedPort {
            config,
            get_error: None,
            set_error: None,
            timer: DEFAULT_LATENCY_TIMER,
            calls: Vec::new(),
        }
    }

    /// Answers a read of the structure and puts it on record.
    pub fn get_serial(&mut self) -> (result: Result<SerialStruct, Errno>)
        ensures
            result == old(self)@.get_result(),
            final(self)@ == old(self)@.after_get(),
    {
        self.calls.push(Call::GetSerial);
        match self.get_error {
            Some(error) => Err(error),
            None => Ok(self.config),
        }
    }

    /// Answers a write of the structure and puts it on record. The line takes
    /// `config` over only if the write succeeds.
    pub fn set_serial(&mut self, config: SerialStruct) -> (result: Result<(), Errno>)
        ensures
            result == old(self)@.set_result(),
            final(self)@ == old(self)@.after_set(config),
    {
        self.calls.push(Call::SetSerial(config));
        match self.set_error {
            Some(error) => Err(error),
            None => {
                self.config = config;
                Ok(())
            },
        }
    }

    /// The latency timer that the line shows: `LOW_LATENCY_TIMER` while the
    /// structure asks for low latency, the line's own timer otherwise.
    pub fn latency_timer(&self) -> (timer: u8)
        ensures
            timer == self@.latency_timer(),
    {
        if self.config.flags & ASYNC_LOW_LATENCY != 0 {
            LOW_LATENCY_TIMER
        } else {
            self.timer
        }
    }
}

} // verus!
