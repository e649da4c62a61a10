//! Lighting commands and the failures that sending one can end in.

use vstd::prelude::*;
use vstd::string::*;
use crate::color::{RgbColor, Speed};
use crate::textfmt::{decimal, decimal_text};

verus! {

/// A lighting command. It is built by the caller and consumed by one send.
#[derive(Clone, Copy, Debug, PartialEq, Eq)]
pub enum Command {
    /// Show a fixed colour in one sector, or in all of them where no sector
    /// is given.
    SetSectorColor(RgbColor, Option<u8>),
    /// Fade the whole keyboard in and out of a colour.
    Breathe(RgbColor, Speed),
    /// Run the whole keyboard through the colour wheel.
    Cycle(Speed),
}

/// The argument of a command that a rejection is about.
#[derive(Clone, Copy, Debug, PartialEq, Eq, Structural)]
pub enum Argument {
    Sector,
    Speed,
}

/// The part of the work with a device in which the transport failed.
#[derive(Clone, Copy, Debug, PartialEq, Eq, Structural)]
pub enum Phase {
    /// Opening a device that discovery has matched.
    OpenDevice,
    /// Taking the interface from the kernel driver and claiming it.
    AcquireLease,
    /// The control transfer that carries the frame.
    WriteControl,
    /// The interrupt transfer that reads the acknowledgment.
    ReadInterrupt,
}

/// What the USB transport reports when an operation fails.
#[derive(Clone, Copy, Debug, PartialEq, Eq, Structural)]
pub enum TransportError {
    Io,
    InvalidParam,
    Access,
    NoDevice,
    NotFound,
    Busy,
    Timeout,
    Overflow,
    Pipe,
    Interrupted,
    NoMem,
    NotSupported,
    BadDescriptor,
    Other,
}

/// Why a command was not delivered.
#[derive(Clone, Copy, Debug, PartialEq, Eq)]
pub enum CommandError {
    /// An argument of the command is out of range: which one, and its value.
    InvalidArgument(Argument, u16),
    /// The transport failed, in the given phase.
    Usb(Phase, TransportError),
}

pub type CommandResult<T> = Result<T, CommandError>;

/// The highest sector index of the keyboard.
pub const MAX_SECTOR: u8 = 4;

/// The lowest speed that the firmware handles.
pub const MIN_SPEED: u16 = 32;

impl Argument {
    /// The argument's name.
    pub fn name(&self) -> (name: &'static str)
        ensures
            name@ == (match *self {
                Argument::Sector => "sector"@,
                Argument::Speed => "speed"@,
            }),
    {
        match self {
            Argument::Sector => "sector",
            Argument::Speed => "speed",
        }
    }
}

impl Phase {
    /// A few words that say what was being done.
    pub fn context(&self) -> (context: &'static str)
        ensures
            context@ == (match *self {
                Phase::OpenDevice => "opening G213 USB device"@,
                Phase::AcquireLease => "detaching USB device from kernel"@,
                Phase::WriteControl => "write_control"@,
                Phase::ReadInterrupt => "read_interrupt"@,
            }),
    {
        match self {
            Phase::OpenDevice => "opening G213 USB device",
            Phase::AcquireLease => "detaching USB device from kernel",
            Phase::WriteControl => "write_control",
            Phase::ReadInterrupt => "read_interrupt",
        }
    }
}

impl CommandError {
    /// The text of [`CommandError::detail`].
    pub open spec fn detail_text(self) -> Seq<char> {
        match self {
            CommandError::InvalidArgument(Argument::Sector, value) => decimal_text(value as nat)
                + " > 4"@,
            CommandError::InvalidArgument(Argument::Speed, value) => decimal_text(value as nat)
                + " < 32"@,
            CommandError::Usb(Phase::OpenDevice, _) => "opening G213 USB device"@,
            CommandError::Usb(Phase::AcquireLease, _) => "detaching USB device from kernel"@,
            CommandError::Usb(Phase::WriteControl, _) => "write_control"@,
            CommandError::Usb(Phase::ReadInterrupt, _) => "read_interrupt"@,
        }
    }

    /// The failure in words: for an argument, its value and the bound that it
    /// breaks; for the transport, what was being done.
    pub fn detail(&self) -> (text: String)
        ensures
            text@ == self.detail_text(),
    {
        match self {
            CommandError::InvalidArgument(Argument::Sector, value) => {
                let mut text: String = decimal(*value);
                text.append(" > 4");
                text
            },
            CommandError::InvalidArgument(Argument::Speed, value) => {
                let mut text: String = decimal(*value);
                text.append(" < 32");
                text
            },
            CommandError::Usb(phase, _) => String::from_str(phase.context()),
        }
    }
}

} // verus!
