//! The driver as a transition system.
//!
//! A [`Model`] is what the driver remembers between events. For each kind of
//! event one function gives the [`Step`] that the driver takes: the model
//! after the event and the reaction handed to the host. The executable
//! driver is proved to take exactly these steps.

use crate::decode::{accel_sample, mag_sample, Sample};
use crate::protocol::{
    BusOp, Callback, Level, PinOp, ProtocolState, ReactionView, RequestError, TransferView,
};
use crate::registers::{
    BUF_LEN, CTRL_REG1, CTRL_REG1_ACTIVE, CTRL_REG1_STANDBY, CTRL_REG4, CTRL_REG4_DRDY,
    CTRL_REG5_DRDY_PIN1, M_CTRL_REG1, M_CTRL_REG1_ONE_SHOT_HYBRID, M_OUT_X_MSB, OUT_X_MSB,
    SAMPLE_READ_LEN, SAMPLE_WRITE_LEN,
};
use vstd::prelude::*;

verus! {

/// What the driver remembers between events.
pub struct Model<C> {
    /// Where the acquisition stands.
    pub state: ProtocolState,
    /// The transfer buffer while the driver holds it; `None` while it is with
    /// the bus.
    pub buffer: Option<Seq<u8>>,
    /// The client whose callback receives the readings, once one is
    /// registered.
    pub client: Option<C>,
}

/// One step of the driver: the model after an event, and what the host is
/// asked to do.
pub struct Step<C> {
    pub model: Model<C>,
    pub reaction: ReactionView<C>,
}

/// The all-zero sample that reports a transport failure.
pub open spec fn zero_sample() -> Sample {
    Sample { x: 0, y: 0, z: 0 }
}

/// The callback that delivers `sample`, if there is a client to deliver to.
pub open spec fn notify<C>(client: Option<C>, sample: Sample) -> Option<Callback<C>> {
    match client {
        Some(c) => Some(Callback { client: c, sample }),
        None => None,
    }
}

/// The write that turns on data-ready signalling and routes it to pin 1.
pub open spec fn arm_accel_transfer(buffer: Seq<u8>) -> TransferView {
    TransferView::Write {
        buffer: buffer.update(0, CTRL_REG4).update(1, CTRL_REG4_DRDY).update(
            2,
            CTRL_REG5_DRDY_PIN1,
        ),
        len: 3,
    }
}

/// The write that puts the accelerometer in active mode.
pub open spec fn activate_transfer(buffer: Seq<u8>) -> TransferView {
    TransferView::Write { buffer: buffer.update(0, CTRL_REG1).update(1, CTRL_REG1_ACTIVE), len: 2 }
}

/// The write that returns the accelerometer to standby.
pub open spec fn standby_transfer(buffer: Seq<u8>) -> TransferView {
    TransferView::Write {
        buffer: buffer.update(0, CTRL_REG1).update(1, CTRL_REG1_STANDBY),
        len: 2,
    }
}

/// The read of the six acceleration bytes.
pub open spec fn read_accel_transfer(buffer: Seq<u8>) -> TransferView {
    TransferView::WriteRead {
        buffer: buffer.update(0, OUT_X_MSB),
        write_len: SAMPLE_WRITE_LEN,
        read_len: SAMPLE_READ_LEN,
    }
}

/// The write that turns both sensors on and triggers one magnetometer
/// measurement.
pub open spec fn arm_mag_transfer(buffer: Seq<u8>) -> TransferView {
    TransferView::Write {
        buffer: buffer.update(0, M_CTRL_REG1).update(1, M_CTRL_REG1_ONE_SHOT_HYBRID),
        len: 2,
    }
}

/// The read of the six magnetometer bytes.
pub open spec fn read_mag_transfer(buffer: Seq<u8>) -> TransferView {
    TransferView::WriteRead {
        buffer: buffer.update(0, M_OUT_X_MSB),
        write_len: SAMPLE_WRITE_LEN,
        read_len: SAMPLE_READ_LEN,
    }
}

impl<C> Model<C> {
    /// The model of a new driver that was given `buffer`.
    pub open spec fn initial(buffer: Seq<u8>) -> Model<C> {
        Model { state: ProtocolState::Idle, buffer: Some(buffer), client: None }
    }

    /// A buffer that the driver holds has room for a sample.
    pub open spec fn fits(self) -> bool {
        self.buffer matches Some(b) ==> b.len() >= BUF_LEN
    }

    /// The buffer is where the state says it is: with the driver while it is
    /// `Idle` or waits for the interrupt, with the bus while a transfer is
    /// under way. In `AccelAwaitReady` the buffer is with the bus until the
    /// write completes, and with the driver while the line is being read.
    pub open spec fn consistent(self) -> bool {
        match self.state {
            ProtocolState::Idle | ProtocolState::AccelPendingInterrupt => self.buffer is Some,
            ProtocolState::AccelAwaitReady => true,
            _ => self.buffer is None,
        }
    }

    /// Why a request made now does not start an acquisition, if it does not.
    pub open spec fn request_error(self) -> Option<RequestError> {
        if !(self.state is Idle) {
            Some(RequestError::Busy)
        } else if self.buffer is None {
            Some(RequestError::OutOfResources)
        } else {
            None
        }
    }

    /// The step that ignores an event.
    pub open spec fn ignore(self) -> Step<C> {
        Step { model: self, reaction: ReactionView::quiet() }
    }

    /// The step that hands `transfer` to the bus and moves to `state`.
    pub open spec fn issue(self, state: ProtocolState, pin: PinOp, bus: BusOp, transfer: TransferView)
        -> Step<C> {
        Step {
            model: Model { state, buffer: None, client: self.client },
            reaction: ReactionView {
                pin,
                bus,
                transfer: Some(transfer),
                callback: None,
                request_error: None,
            },
        }
    }

    /// The step that ends an acquisition: the driver takes `buffer` back,
    /// releases the bus, returns to `Idle` and delivers `sample`.
    pub open spec fn finish(self, buffer: Seq<u8>, sample: Sample) -> Step<C> {
        Step {
            model: Model { state: ProtocolState::Idle, buffer: Some(buffer), client: self.client },
            reaction: ReactionView {
                pin: PinOp::Keep,
                bus: BusOp::Disable,
                transfer: None,
                callback: notify(self.client, sample),
                request_error: None,
            },
        }
    }

    /// The step that ends an acquisition after a transport failure: as
    /// [`finish`](Self::finish), with the all-zero sample.
    pub open spec fn fail(self, buffer: Seq<u8>) -> Step<C> {
        self.finish(buffer, zero_sample())
    }

    /// The step that gives up a request whose first transfer the bus
    /// refused: the driver takes `buffer` back, releases the bus, returns to
    /// `Idle`, and the caller of the request gets the error. No callback.
    pub open spec fn refuse(self, buffer: Seq<u8>) -> Step<C> {
        Step {
            model: Model { state: ProtocolState::Idle, buffer: Some(buffer), client: self.client },
            reaction: ReactionView {
                pin: PinOp::Keep,
                bus: BusOp::Disable,
                transfer: None,
                callback: None,
                request_error: Some(RequestError::TransportFailure),
            },
        }
    }

    /// The step on a request for an acceleration. A request that
    /// [`request_error`](Self::request_error) turns down changes nothing.
    pub open spec fn read_accelerometer(self) -> Step<C> {
        match self.buffer {
            Some(buffer) if self.state is Idle => self.issue(
                ProtocolState::AccelArm,
                PinOp::MakeInput,
                BusOp::Enable,
                arm_accel_transfer(buffer),
            ),
            _ => self.ignore(),
        }
    }

    /// The step on a request for a magnetic field. A request that
    /// [`request_error`](Self::request_error) turns down changes nothing.
    pub open spec fn read_magnetometer(self) -> Step<C> {
        match self.buffer {
            Some(buffer) if self.state is Idle => self.issue(
                ProtocolState::MagArm,
                PinOp::Keep,
                BusOp::Enable,
                arm_mag_transfer(buffer),
            ),
            _ => self.ignore(),
        }
    }

    /// The step when the bus reports that a transfer has completed and hands
    /// `buffer` back. With `ok` false the transfer failed.
    pub open spec fn command_complete(self, buffer: Seq<u8>, ok: bool) -> Step<C> {
        match self.state {
            ProtocolState::Idle => self.ignore(),
            _ if !ok => self.fail(buffer),
            ProtocolState::AccelArm => self.issue(
                ProtocolState::AccelAwaitReady,
                PinOp::EnableFallingEdge,
                BusOp::Keep,
                activate_transfer(buffer),
            ),
            ProtocolState::AccelAwaitReady => Step {
                model: Model { buffer: Some(buffer), ..self },
                reaction: ReactionView { pin: PinOp::ReadLevel, ..ReactionView::quiet() },
            },
            ProtocolState::AccelPendingInterrupt => self.ignore(),
            ProtocolState::AccelReading => {
                let sample = accel_sample(buffer);
                self.issue(
                    ProtocolState::AccelDeactivating(sample.x, sample.y, sample.z),
                    PinOp::Keep,
                    BusOp::Keep,
                    standby_transfer(buffer),
                )
            },
            ProtocolState::AccelDeactivating(x, y, z) => self.finish(buffer, Sample { x, y, z }),
            ProtocolState::MagArm => self.issue(
                ProtocolState::MagReading,
                PinOp::Keep,
                BusOp::Keep,
                read_mag_transfer(buffer),
            ),
            ProtocolState::MagReading => self.finish(buffer, mag_sample(buffer)),
        }
    }

    /// The step when the bus refuses the transfer it was just handed and
    /// gives `buffer` back at once.
    pub open spec fn command_rejected(self, buffer: Seq<u8>) -> Step<C> {
        match self.state {
            ProtocolState::Idle => self.ignore(),
            ProtocolState::AccelArm | ProtocolState::MagArm => self.refuse(buffer),
            _ => self.fail(buffer),
        }
    }

    /// The step when the host reports the level it read on the interrupt
    /// line. The report counts only while the driver waits for it: in
    /// `AccelAwaitReady`, holding the buffer.
    pub open spec fn pin_level(self, level: Level) -> Step<C> {
        match self.buffer {
            Some(buffer) if self.state is AccelAwaitReady => {
                if level.asserted() {
                    self.issue(
                        ProtocolState::AccelReading,
                        PinOp::DisableInterrupts,
                        BusOp::Keep,
                        read_accel_transfer(buffer),
                    )
                } else {
                    Step {
                        model: Model { state: ProtocolState::AccelPendingInterrupt, ..self },
                        reaction: ReactionView { bus: BusOp::Disable, ..ReactionView::quiet() },
                    }
                }
            },
            _ => self.ignore(),
        }
    }

    /// The step when the interrupt fires. The edge counts only while the
    /// driver waits for it: in `AccelPendingInterrupt`, holding the buffer.
    pub open spec fn fired(self) -> Step<C> {
        match self.buffer {
            Some(buffer) if self.state is AccelPendingInterrupt => self.issue(
                ProtocolState::AccelReading,
                PinOp::DisableInterrupts,
                BusOp::Enable,
                read_accel_transfer(buffer),
            ),
            _ => self.ignore(),
        }
    }

    /// The model after `client` is registered: it replaces any earlier one.
    pub open spec fn set_client(self, client: C) -> Model<C> {
        Model { client: Some(client), ..self }
    }
}

} // verus!
