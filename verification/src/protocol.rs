//! The vocabulary of the driver: its protocol states, the errors of a
//! request, and the reactions it hands to the host.

use crate::decode::Sample;
use crate::registers::BUF_LEN;
use vstd::prelude::*;

verus! {

/// Where an acquisition stands. It alone decides what the next bus
/// completion means.
#[derive(Clone, Copy, Debug, PartialEq, Eq)]
pub enum ProtocolState {
    /// No acquisition in progress; the sensor is in standby.
    Idle,
    /// The write that turns on data-ready signalling is with the bus.
    AccelArm,
    /// The write that puts the accelerometer in active mode is with the bus,
    /// or it has completed and the level of the interrupt line is being read.
    AccelAwaitReady,
    /// The bus is released; the driver waits for the data-ready edge.
    AccelPendingInterrupt,
    /// The read of the six acceleration bytes is with the bus.
    AccelReading,
    /// The write that returns the sensor to standby is with the bus. The
    /// decoded acceleration travels in the state.
    AccelDeactivating(i16, i16, i16),
    /// The write that triggers a one-shot magnetometer measurement is with
    /// the bus.
    MagArm,
    /// The read of the six magnetometer bytes is with the bus.
    MagReading,
}

/// Why a request did not start an acquisition.
#[derive(Clone, Copy, Debug, PartialEq, Eq)]
pub enum RequestError {
    /// An acquisition is already in progress.
    Busy,
    /// The driver does not hold the transfer buffer.
    OutOfResources,
    /// The bus refused the first transfer of the acquisition.
    TransportFailure,
}

/// How a bus transfer ended, as far as the driver tells failures apart.
#[derive(Clone, Copy, Debug, PartialEq, Eq)]
pub struct TransportError;

/// Electrical level of the interrupt line. The sensor pulls the line low
/// while a sample is ready.
#[derive(Clone, Copy, Debug, PartialEq, Eq)]
pub enum Level {
    Low,
    High,
}

impl Level {
    /// Whether the line signals a ready sample.
    pub open spec fn asserted(self) -> bool {
        self is Low
    }
}

/// What the host does to the interrupt pin.
#[derive(Clone, Copy, Debug, PartialEq, Eq)]
pub enum PinOp {
    /// Leave the pin alone.
    Keep,
    /// Configure the pin as an input.
    MakeInput,
    /// Arm the interrupt for the falling edge.
    EnableFallingEdge,
    /// Disarm the interrupt.
    DisableInterrupts,
    /// Read the level of the line and report it with
    /// [`pin_level`](crate::driver::Fxos8700cq::pin_level).
    ReadLevel,
}

/// What the host does to the power of the bus channel.
#[derive(Clone, Copy, Debug, PartialEq, Eq)]
pub enum BusOp {
    /// Leave the channel as it is.
    Keep,
    /// Power the channel up.
    Enable,
    /// Release the channel.
    Disable,
}

/// A bus transfer. It carries the transfer buffer: while the transfer is with
/// the bus, the driver holds no buffer.
#[derive(Debug, PartialEq, Eq)]
pub enum Transfer {
    /// Write the first `len` bytes of `buffer`.
    Write { buffer: Vec<u8>, len: usize },
    /// Write the first `write_len` bytes of `buffer`, then read `read_len`
    /// bytes into its front.
    WriteRead { buffer: Vec<u8>, write_len: usize, read_len: usize },
}

/// The mathematical content of a [`Transfer`].
pub enum TransferView {
    Write { buffer: Seq<u8>, len: usize },
    WriteRead { buffer: Seq<u8>, write_len: usize, read_len: usize },
}

impl View for Transfer {
    type V = TransferView;

    open spec fn view(&self) -> TransferView {
        match *self {
            Transfer::Write { buffer, len } => TransferView::Write { buffer: buffer@, len },
            Transfer::WriteRead { buffer, write_len, read_len } => TransferView::WriteRead {
                buffer: buffer@,
                write_len,
                read_len,
            },
        }
    }
}

impl TransferView {
    /// The bytes that travel with the transfer.
    pub open spec fn buffer(self) -> Seq<u8> {
        match self {
            TransferView::Write { buffer, .. } => buffer,
            TransferView::WriteRead { buffer, .. } => buffer,
        }
    }
}

/// One invocation of the client's callback.
#[derive(Debug, PartialEq, Eq)]
pub struct Callback<C> {
    /// The client that is registered at this moment.
    pub client: C,
    /// The reading, or all zeros after a transport failure.
    pub sample: Sample,
}

/// What the host does in answer to one event. The parts are carried out in
/// the order of the fields, and a part that is `Keep` or `None` is skipped.
#[derive(Debug, PartialEq, Eq)]
pub struct Reaction<C> {
    pub pin: PinOp,
    pub bus: BusOp,
    /// Hand this transfer to the bus. If the bus refuses it, report that with
    /// [`command_rejected`](crate::driver::Fxos8700cq::command_rejected); its
    /// completion is reported with
    /// [`command_complete`](crate::driver::Fxos8700cq::command_complete).
    pub transfer: Option<Transfer>,
    /// Invoke the client's callback with this sample.
    pub callback: Option<Callback<C>>,
    /// Return this error to the caller whose request was being started.
    pub request_error: Option<RequestError>,
}

/// The mathematical content of a [`Reaction`].
pub struct ReactionView<C> {
    pub pin: PinOp,
    pub bus: BusOp,
    pub transfer: Option<TransferView>,
    pub callback: Option<Callback<C>>,
    pub request_error: Option<RequestError>,
}

impl<C> View for Reaction<C> {
    type V = ReactionView<C>;

    open spec fn view(&self) -> ReactionView<C> {
        ReactionView {
            pin: self.pin,
            bus: self.bus,
            transfer: match self.transfer {
                Some(t) => Some(t@),
                None => None,
            },
            callback: self.callback,
            request_error: self.request_error,
        }
    }
}

impl<C> ReactionView<C> {
    /// A buffer that travels with the reaction has room for a sample.
    pub open spec fn fits(self) -> bool {
        self.transfer matches Some(t) ==> t.buffer().len() >= BUF_LEN
    }

    /// The reaction that asks nothing of the host.
    pub open spec fn quiet() -> ReactionView<C> {
        ReactionView {
            pin: PinOp::Keep,
            bus: BusOp::Keep,
            transfer: None,
            callback: None,
            request_error: None,
        }
    }
}

impl<C> Reaction<C> {
    /// The reaction that asks nothing of the host.
    pub fn quiet() -> (reaction: Reaction<C>)
        ensures
            reaction@ == ReactionView::<C>::quiet(),
    {
        Reaction {
            pin: PinOp::Keep,
            bus: BusOp::Keep,
            transfer: None,
            callback: None,
            request_error: None,
        }
    }
}

} // verus!
