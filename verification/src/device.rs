//! One opened keyboard and the send that is in flight on it.
//!
//! A send is a fixed course of USB operations: ask whether a kernel driver
//! holds the interface, detach it if so, claim the interface, write the frame
//! with a control transfer, read the acknowledgment with an interrupt
//! transfer, release the interface, and give it back to the kernel driver.
//! The device decides each next operation from the outcome of the last one;
//! the caller carries the operations out.

use vstd::prelude::*;
use crate::command::{Command, CommandError, CommandResult, Phase, TransportError};
use crate::hexfmt::{bytes_of_hex, from_hex, is_hex_text, lemma_hex_round_trip};
use crate::payload::encode_command;

verus! {

/// The interface that carries the lighting commands.
pub const INTERFACE: u8 = 0x01;

/// The request type of the control transfer.
pub const REQUEST_TYPE: u8 = 0x21;

/// The request code of the control transfer.
pub const REQUEST: u8 = 0x09;

/// The value field of the control transfer.
pub const VALUE: u16 = 0x0211;

/// The interrupt endpoint that the acknowledgment is read from.
pub const ENDPOINT_ADDRESS: u8 = 0x82;

/// The length of the acknowledgment, in bytes.
pub const ACK_LEN: usize = 20;

/// How long the acknowledgment is waited for, in seconds.
pub const ACK_TIMEOUT_SECS: u64 = 60;

/// The outcome of the operation that the device asked for last.
#[derive(Clone, Copy, Debug, PartialEq, Eq)]
pub enum Event {
    /// The answer to `QueryKernelDriver`: whether a kernel driver holds the
    /// interface.
    DriverActive(bool),
    /// The operation succeeded.
    Completed,
    /// The operation failed.
    Failed(TransportError),
}

impl Event {
    /// The event that reports how the query went.
    pub fn of_query(outcome: Result<bool, TransportError>) -> (event: Event)
        ensures
            event == (match outcome {
                Ok(active) => Event::DriverActive(active),
                Err(e) => Event::Failed(e),
            }),
    {
        match outcome {
            Ok(active) => Event::DriverActive(active),
            Err(e) => Event::Failed(e),
        }
    }

    /// The event that reports how any operation but the query went.
    pub fn of_operation(outcome: Result<(), TransportError>) -> (event: Event)
        ensures
            event == (match outcome {
                Ok(_) => Event::Completed,
                Err(e) => Event::Failed(e),
            }),
    {
        match outcome {
            Ok(_) => Event::Completed,
            Err(e) => Event::Failed(e),
        }
    }
}

/// What the caller is to do next.
#[derive(Debug, PartialEq, Eq)]
pub enum Action {
    /// Nothing: no send is in flight.
    Idle,
    /// Ask whether a kernel driver holds the interface.
    QueryKernelDriver { interface: u8 },
    /// Detach the kernel driver from the interface.
    DetachKernelDriver { interface: u8 },
    /// Claim the interface.
    ClaimInterface { interface: u8 },
    /// Write `data` with a control transfer. Without a timeout the transfer
    /// blocks until the device has taken the data or the transport fails.
    WriteControl {
        request_type: u8,
        request: u8,
        value: u16,
        index: u16,
        data: Vec<u8>,
        timeout_secs: Option<u64>,
    },
    /// Read `length` bytes from an interrupt endpoint.
    ReadInterrupt { endpoint: u8, length: usize, timeout_secs: Option<u64> },
    /// Release the interface. A failure is reported like any other outcome and
    /// changes nothing.
    ReleaseInterface { interface: u8 },
    /// Give the interface back to the kernel driver. A failure is reported
    /// like any other outcome and changes nothing.
    AttachKernelDriver { interface: u8 },
    /// The send is over, with this result.
    Finish(CommandResult<()>),
}

/// An [`Action`] as a mathematical value.
pub enum ActionView {
    Idle,
    QueryKernelDriver { interface: u8 },
    DetachKernelDriver { interface: u8 },
    ClaimInterface { interface: u8 },
    WriteControl {
        request_type: u8,
        request: u8,
        value: u16,
        index: u16,
        data: Seq<u8>,
        timeout_secs: Option<u64>,
    },
    ReadInterrupt { endpoint: u8, length: usize, timeout_secs: Option<u64> },
    ReleaseInterface { interface: u8 },
    AttachKernelDriver { interface: u8 },
    Finish(CommandResult<()>),
}

impl View for Action {
    type V = ActionView;

    open spec fn view(&self) -> ActionView {
        match *self {
            Action::Idle => ActionView::Idle,
            Action::QueryKernelDriver { interface } => ActionView::QueryKernelDriver { interface },
            Action::DetachKernelDriver { interface } => ActionView::DetachKernelDriver {
                interface,
            },
            Action::ClaimInterface { interface } => ActionView::ClaimInterface { interface },
            Action::WriteControl { request_type, request, value, index, data, timeout_secs } => {
                ActionView::WriteControl {
                    request_type,
                    request,
                    value,
                    index,
                    data: data@,
                    timeout_secs,
                }
            },
            Action::ReadInterrupt { endpoint, length, timeout_secs } => ActionView::ReadInterrupt {
                endpoint,
                length,
                timeout_secs,
            },
            Action::ReleaseInterface { interface } => ActionView::ReleaseInterface { interface },
            Action::AttachKernelDriver { interface } => ActionView::AttachKernelDriver {
                interface,
            },
            Action::Finish(result) => ActionView::Finish(result),
        }
    }
}

/// How far the send in flight has come. Each state but `Idle` waits for the
/// outcome of one operation.
#[derive(Clone, Copy, Debug, PartialEq, Eq)]
pub enum SendState {
    /// No send is in flight.
    Idle,
    /// Waiting to learn whether a kernel driver holds the interface.
    ProbingDriver { cmd: Command },
    /// Waiting for the kernel driver to be detached.
    DetachingDriver { cmd: Command },
    /// Waiting for the interface to be claimed. `detached` says whether this
    /// send has detached the kernel driver.
    ClaimingInterface { cmd: Command, detached: bool },
    /// The lease is held and the frame is being written.
    Writing { detached: bool },
    /// The frame is written and the acknowledgment is being read.
    Reading { detached: bool },
    /// The result is known and the interface is being released.
    Releasing { detached: bool, result: CommandResult<()> },
    /// The interface is released and is being given back to the kernel
    /// driver.
    Reattaching { result: CommandResult<()> },
}

/// The control transfer that carries `data`.
pub open spec fn write_control(data: Seq<u8>) -> ActionView {
    ActionView::WriteControl {
        request_type: REQUEST_TYPE,
        request: REQUEST,
        value: VALUE,
        index: INTERFACE as u16,
        data,
        timeout_secs: None,
    }
}

/// The interrupt transfer that reads the acknowledgment.
pub open spec fn read_acknowledgment() -> ActionView {
    ActionView::ReadInterrupt {
        endpoint: ENDPOINT_ADDRESS,
        length: ACK_LEN,
        timeout_secs: Some(ACK_TIMEOUT_SECS),
    }
}

/// The end of a send whose lease could not be acquired.
pub open spec fn lease_failure(e: TransportError) -> ActionView {
    ActionView::Finish(Err(CommandError::Usb(Phase::AcquireLease, e)))
}

/// What the lease holder does first: it frames the command and starts the
/// transfer, or, for a command that is refused, lets go of the lease.
pub open spec fn lease_acquired(cmd: Command, detached: bool) -> (SendState, ActionView) {
    match cmd.rejection() {
        None => (SendState::Writing { detached }, write_control(cmd.frame())),
        Some(e) => (
            SendState::Releasing { detached, result: Err(e) },
            ActionView::ReleaseInterface { interface: INTERFACE },
        ),
    }
}

/// How the lease is given up once the interface is released: the kernel
/// driver gets the interface back if this send took it away.
pub open spec fn interface_released(detached: bool, result: CommandResult<()>) -> (
    SendState,
    ActionView,
) {
    if detached {
        (SendState::Reattaching { result }, ActionView::AttachKernelDriver { interface: INTERFACE })
    } else {
        (SendState::Idle, ActionView::Finish(result))
    }
}

/// The transfer has ended with `result`: the interface is released next.
pub open spec fn transfer_ended(detached: bool, result: CommandResult<()>) -> (
    SendState,
    ActionView,
) {
    (
        SendState::Releasing { detached, result },
        ActionView::ReleaseInterface { interface: INTERFACE },
    )
}

/// The start of a send: the state after `send_command` and the first
/// operation. A device with a send in flight refuses a second one as busy and
/// stays as it is.
pub open spec fn start(state: SendState, cmd: Command) -> (SendState, ActionView) {
    if state is Idle {
        (SendState::ProbingDriver { cmd }, ActionView::QueryKernelDriver { interface: INTERFACE })
    } else {
        (state, lease_failure(TransportError::Busy))
    }
}

/// The transition of a send: the state after `event` and the next operation.
///
/// An event that cannot be the outcome of the operation waited for,
/// `Completed` in answer to the query or `DriverActive` in answer to anything
/// else, counts as the failure `Other` of that operation.
pub open spec fn next(state: SendState, event: Event) -> (SendState, ActionView) {
    match state {
        SendState::Idle => (SendState::Idle, ActionView::Idle),
        SendState::ProbingDriver { cmd } => match event {
            Event::DriverActive(true) => (
                SendState::DetachingDriver { cmd },
                ActionView::DetachKernelDriver { interface: INTERFACE },
            ),
            Event::DriverActive(false) => (
                SendState::ClaimingInterface { cmd, detached: false },
                ActionView::ClaimInterface { interface: INTERFACE },
            ),
            Event::Completed => (SendState::Idle, lease_failure(TransportError::Other)),
            Event::Failed(e) => (SendState::Idle, lease_failure(e)),
        },
        SendState::DetachingDriver { cmd } => match event {
            Event::Completed => (
                SendState::ClaimingInterface { cmd, detached: true },
                ActionView::ClaimInterface { interface: INTERFACE },
            ),
            Event::DriverActive(_) => (SendState::Idle, lease_failure(TransportError::Other)),
            Event::Failed(e) => (SendState::Idle, lease_failure(e)),
        },
        SendState::ClaimingInterface { cmd, detached } => match event {
            Event::Completed => lease_acquired(cmd, detached),
            Event::DriverActive(_) => interface_released(
                detached,
                Err(CommandError::Usb(Phase::AcquireLease, TransportError::Other)),
            ),
            Event::Failed(e) => interface_released(
                detached,
                Err(CommandError::Usb(Phase::AcquireLease, e)),
            ),
        },
        SendState::Writing { detached } => match event {
            Event::Completed => (SendState::Reading { detached }, read_acknowledgment()),
            Event::DriverActive(_) => transfer_ended(
                detached,
                Err(CommandError::Usb(Phase::WriteControl, TransportError::Other)),
            ),
            Event::Failed(e) => transfer_ended(
                detached,
                Err(CommandError::Usb(Phase::WriteControl, e)),
            ),
        },
        SendState::Reading { detached } => match event {
            Event::Completed => transfer_ended(detached, Ok(())),
            Event::DriverActive(_) => transfer_ended(
                detached,
                Err(CommandError::Usb(Phase::ReadInterrupt, TransportError::Other)),
            ),
            Event::Failed(e) => transfer_ended(
                detached,
                Err(CommandError::Usb(Phase::ReadInterrupt, e)),
            ),
        },
        SendState::Releasing { detached, result } => interface_released(detached, result),
        SendState::Reattaching { result } => (SendState::Idle, ActionView::Finish(result)),
    }
}

/// An opened G213 keyboard. It owns the handle that the caller's transport
/// works on, and keeps the state of the send in flight.
#[derive(Debug)]
pub struct G213Device<H> {
    handle: H,
    state: SendState,
}

impl<H> G213Device<H> {
    /// The handle that the device owns.
    pub closed spec fn handle(&self) -> H {
        self.handle
    }

    /// The state of the send in flight.
    pub closed spec fn state(&self) -> SendState {
        self.state
    }

    /// The device that owns `handle` and has no send in flight.
    pub closed spec fn idle(handle: H) -> Self {
        G213Device { handle, state: SendState::Idle }
    }

    /// A device with no send in flight.
    pub fn new(handle: H) -> (device: Self)
        ensures
            device == Self::idle(handle),
            device.handle() == handle,
            device.state() is Idle,
    {
        G213Device { handle, state: SendState::Idle }
    }

    /// The handle, for the caller's transport to work on.
    pub fn get_handle(&self) -> (handle: &H)
        ensures
            *handle == self.handle(),
    {
        &self.handle
    }

    /// Gives up the device and hands the handle back.
    pub fn into_handle(self) -> (handle: H)
        ensures
            handle == self.handle(),
    {
        self.handle
    }

    /// The state of the send in flight.
    pub fn get_state(&self) -> (state: SendState)
        ensures
            state == self.state(),
    {
        self.state
    }

    /// The control transfer that carries the bytes of a hex payload.
    pub fn send_data(data: &str) -> (action: Action)
        requires
            is_hex_text(data@),
        ensures
            action@ == write_control(bytes_of_hex(data@)),
    {
        let bytes: Vec<u8> = from_hex(data).unwrap();
        Action::WriteControl {
            request_type: REQUEST_TYPE,
            request: REQUEST,
            value: VALUE,
            index: INTERFACE as u16,
            data: bytes,
            timeout_secs: None,
        }
    }

    /// Starts sending `cmd` and returns the first operation. While a send is
    /// in flight the device refuses another one as busy and stays as it is.
    pub fn send_command(&mut self, cmd: Command) -> (action: Action)
        ensures
            (final(self).state(), action@) == start(old(self).state(), cmd),
            final(self).handle() == old(self).handle(),
    {
        match self.state {
            SendState::Idle => {
                self.state = SendState::ProbingDriver { cmd };
                Action::QueryKernelDriver { interface: INTERFACE }
            },
            _ => Action::Finish(
                Err(CommandError::Usb(Phase::AcquireLease, TransportError::Busy)),
            ),
        }
    }

    /// Takes the outcome of the operation asked for last and returns the next
    /// one. After `Finish` the device is idle again.
    pub fn step(&mut self, event: Event) -> (action: Action)
        ensures
            (final(self).state(), action@) == next(old(self).state(), event),
            final(self).handle() == old(self).handle(),
    {
        match self.state {
            SendState::Idle => Action::Idle,
            SendState::ProbingDriver { cmd } => match event {
                Event::DriverActive(true) => {
                    self.state = SendState::DetachingDriver { cmd };
                    Action::DetachKernelDriver { interface: INTERFACE }
                },
                Event::DriverActive(false) => {
                    self.state = SendState::ClaimingInterface { cmd, detached: false };
                    Action::ClaimInterface { interface: INTERFACE }
                },
                Event::Completed => self.lease_failed(false, TransportError::Other),
                Event::Failed(e) => self.lease_failed(false, e),
            },
            SendState::DetachingDriver { cmd } => match event {
                Event::Completed => {
                    self.state = SendState::ClaimingInterface { cmd, detached: true };
                    Action::ClaimInterface { interface: INTERFACE }
                },
                Event::DriverActive(_) => self.lease_failed(false, TransportError::Other),
                Event::Failed(e) => self.lease_failed(false, e),
            },
            SendState::ClaimingInterface { cmd, detached } => match event {
                Event::Completed => self.begin_transfer(cmd, detached),
                Event::DriverActive(_) => self.lease_failed(detached, TransportError::Other),
                Event::Failed(e) => self.lease_failed(detached, e),
            },
            SendState::Writing { detached } => match event {
                Event::Completed => {
                    self.state = SendState::Reading { detached };
                    Action::ReadInterrupt {
                        endpoint: ENDPOINT_ADDRESS,
                        length: ACK_LEN,
                        timeout_secs: Some(ACK_TIMEOUT_SECS),
                    }
                },
                Event::DriverActive(_) => self.end_transfer(
                    detached,
                    Err(CommandError::Usb(Phase::WriteControl, TransportError::Other)),
                ),
                Event::Failed(e) => self.end_transfer(
                    detached,
                    Err(CommandError::Usb(Phase::WriteControl, e)),
                ),
            },
            SendState::Reading { detached } => match event {
                Event::Completed => self.end_transfer(detached, Ok(())),
                Event::DriverActive(_) => self.end_transfer(
                    detached,
                    Err(CommandError::Usb(Phase::ReadInterrupt, TransportError::Other)),
                ),
                Event::Failed(e) => self.end_transfer(
                    detached,
                    Err(CommandError::Usb(Phase::ReadInterrupt, e)),
                ),
            },
            SendState::Releasing { detached, result } => self.give_back(detached, result),
            SendState::Reattaching { result } => {
                self.state = SendState::Idle;
                Action::Finish(result)
            },
        }
    }

    /// The lease is held: frames `cmd` and starts the transfer, or lets go of
    /// the lease where `cmd` is refused.
    fn begin_transfer(&mut self, cmd: Command, detached: bool) -> (action: Action)
        ensures
            (final(self).state(), action@) == lease_acquired(cmd, detached),
            final(self).handle() == old(self).handle(),
    {
        match encode_command(&cmd) {
            Ok(payload) => {
                proof {
                    lemma_hex_round_trip(cmd.frame());
                }
                self.state = SendState::Writing { detached };
                Self::send_data(payload.as_str())
            },
            Err(e) => self.end_transfer(detached, Err(e)),
        }
    }

    /// The transfer is over: releases the interface and keeps `result` for
    /// the end of the send.
    fn end_transfer(&mut self, detached: bool, result: CommandResult<()>) -> (action: Action)
        ensures
            (final(self).state(), action@) == transfer_ended(detached, result),
            final(self).handle() == old(self).handle(),
    {
        self.state = SendState::Releasing { detached, result };
        Action::ReleaseInterface { interface: INTERFACE }
    }

    /// The interface is not held any more: gives it back to the kernel driver
    /// if this send took it away, and ends the send otherwise.
    fn give_back(&mut self, detached: bool, result: CommandResult<()>) -> (action: Action)
        ensures
            (final(self).state(), action@) == interface_released(detached, result),
            final(self).handle() == old(self).handle(),
    {
        if detached {
            self.state = SendState::Reattaching { result };
            Action::AttachKernelDriver { interface: INTERFACE }
        } else {
            self.state = SendState::Idle;
            Action::Finish(result)
        }
    }

    /// The lease could not be acquired: ends the send with that failure, after
    /// giving the interface back where the kernel driver was detached.
    fn lease_failed(&mut self, detached: bool, e: TransportError) -> (action: Action)
        ensures
            (final(self).state(), action@) == interface_released(
                detached,
                Err(CommandError::Usb(Phase::AcquireLease, e)),
            ),
            final(self).handle() == old(self).handle(),
    {
        self.give_back(detached, Err(CommandError::Usb(Phase::AcquireLease, e)))
    }
}

} // verus!
