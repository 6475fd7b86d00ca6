//! The executable driver.
//!
//! [`Fxos8700cq`] owns the protocol state, the transfer buffer while no
//! transfer is with the bus, and the registered client. The host reports
//! each event through one method and carries out the [`Reaction`] it gets
//! back. Every method is proved to take the step that
//! [`Model`](crate::model::Model) gives for its event.

use crate::decode::{decode_acceleration, decode_magnetic_field, Sample};
use crate::model::{arm_accel_transfer, arm_mag_transfer, notify, zero_sample, Model};
use crate::protocol::{
    BusOp, Callback, Level, PinOp, ProtocolState, Reaction, ReactionView, RequestError,
    Transfer, TransferView, TransportError,
};
use crate::registers::{
    BUF_LEN, CTRL_REG1, CTRL_REG1_ACTIVE, CTRL_REG1_STANDBY, CTRL_REG4, CTRL_REG4_DRDY,
    CTRL_REG5_DRDY_PIN1, M_CTRL_REG1, M_CTRL_REG1_ONE_SHOT_HYBRID, M_OUT_X_MSB, OUT_X_MSB,
    SAMPLE_READ_LEN, SAMPLE_WRITE_LEN,
};
use vstd::prelude::*;

verus! {

/// Driver core for one sensor. `C` names the client that receives the
/// readings; the driver stores it and hands it back with every callback.
pub struct Fxos8700cq<C> {
    state: ProtocolState,
    buffer: Option<Vec<u8>>,
    client: Option<C>,
}

impl<C> View for Fxos8700cq<C> {
    type V = Model<C>;

    closed spec fn view(&self) -> Model<C> {
        Model {
            state: self.state,
            buffer: match self.buffer {
                Some(b) => Some(b@),
                None => None,
            },
            client: self.client,
        }
    }
}

/// Fills in the write that turns on data-ready signalling.
fn arm_accel(buffer: Vec<u8>) -> (transfer: Transfer)
    requires
        buffer@.len() >= BUF_LEN,
    ensures
        transfer@ == arm_accel_transfer(buffer@),
{
    let mut buffer = buffer;
    buffer[0] = CTRL_REG4;
    buffer[1] = CTRL_REG4_DRDY;
    buffer[2] = CTRL_REG5_DRDY_PIN1;
    Transfer::Write { buffer, len: 3 }
}

/// Fills in the write of `value` to control register 1.
fn write_ctrl_reg1(buffer: Vec<u8>, value: u8) -> (transfer: Transfer)
    requires
        buffer@.len() >= BUF_LEN,
    ensures
        transfer@ == (TransferView::Write {
            buffer: buffer@.update(0, CTRL_REG1).update(1, value),
            len: 2,
        }),
{
    let mut buffer = buffer;
    buffer[0] = CTRL_REG1;
    buffer[1] = value;
    Transfer::Write { buffer, len: 2 }
}

/// Fills in the write that triggers a one-shot magnetometer measurement.
fn arm_mag(buffer: Vec<u8>) -> (transfer: Transfer)
    requires
        buffer@.len() >= BUF_LEN,
    ensures
        transfer@ == arm_mag_transfer(buffer@),
{
    let mut buffer = buffer;
    buffer[0] = M_CTRL_REG1;
    buffer[1] = M_CTRL_REG1_ONE_SHOT_HYBRID;
    Transfer::Write { buffer, len: 2 }
}

/// Fills in the read of six sample bytes that start at `register`.
fn read_sample(buffer: Vec<u8>, register: u8) -> (transfer: Transfer)
    requires
        buffer@.len() >= BUF_LEN,
    ensures
        transfer@ == (TransferView::WriteRead {
            buffer: buffer@.update(0, register),
            write_len: SAMPLE_WRITE_LEN,
            read_len: SAMPLE_READ_LEN,
        }),
{
    let mut buffer = buffer;
    buffer[0] = register;
    Transfer::WriteRead { buffer, write_len: SAMPLE_WRITE_LEN, read_len: SAMPLE_READ_LEN }
}

impl<C> Fxos8700cq<C> {
    /// A buffer that the driver holds has room for a sample.
    #[verifier::type_invariant]
    spec fn buffer_fits(self) -> bool {
        self.buffer matches Some(b) ==> b@.len() >= BUF_LEN
    }
}

impl<C: Copy> Fxos8700cq<C> {
    /// A driver at rest that holds `buffer` and has no client yet.
    pub fn new(buffer: Vec<u8>) -> (driver: Self)
        requires
            buffer@.len() >= BUF_LEN,
        ensures
            driver@ == Model::<C>::initial(buffer@),
    {
        Fxos8700cq { state: ProtocolState::Idle, buffer: Some(buffer), client: None }
    }

    /// Where the acquisition stands.
    pub fn state(&self) -> (state: ProtocolState)
        ensures
            state == self@.state,
    {
        self.state
    }

    /// Whether the driver holds the transfer buffer.
    pub fn holds_buffer(&self) -> (held: bool)
        ensures
            held == self@.buffer is Some,
    {
        self.buffer.is_some()
    }

    /// Takes the buffer out of the driver, if it is there.
    fn take_buffer(&mut self) -> (held: Option<Vec<u8>>)
        ensures
            final(self)@ == (Model { buffer: None, ..old(self)@ }),
            match held {
                Some(b) => old(self)@.buffer == Some(b@) && b@.len() >= BUF_LEN,
                None => old(self)@.buffer is None,
            },
    {
        proof {
            use_type_invariant(&*self);
        }
        let mut held: Option<Vec<u8>> = None;
        core::mem::swap(&mut self.buffer, &mut held);
        held
    }

    /// Hands `transfer` to the bus and moves to `state`.
    fn issue(&mut self, state: ProtocolState, pin: PinOp, bus: BusOp, transfer: Transfer) -> (reaction:
        Reaction<C>)
        requires
            transfer@.buffer().len() >= BUF_LEN,
        ensures
            final(self)@ == old(self)@.issue(state, pin, bus, transfer@).model,
            reaction@ == old(self)@.issue(state, pin, bus, transfer@).reaction,
            final(self)@.fits(),
            reaction@.fits(),
    {
        proof {
            use_type_invariant(&*self);
        }
        self.state = state;
        self.buffer = None;
        Reaction { pin, bus, transfer: Some(transfer), callback: None, request_error: None }
    }

    /// Ends the acquisition: takes `buffer` back, returns to `Idle`, releases
    /// the bus and delivers `sample` to the client, if there is one.
    fn finish(&mut self, buffer: Vec<u8>, sample: Sample) -> (reaction: Reaction<C>)
        requires
            buffer@.len() >= BUF_LEN,
        ensures
            final(self)@ == old(self)@.finish(buffer@, sample).model,
            reaction@ == old(self)@.finish(buffer@, sample).reaction,
            final(self)@.fits(),
            reaction@.fits(),
    {
        proof {
            use_type_invariant(&*self);
        }
        self.state = ProtocolState::Idle;
        self.buffer = Some(buffer);
        let callback = match self.client {
            Some(client) => Some(Callback { client, sample }),
            None => None,
        };
        Reaction {
            pin: PinOp::Keep,
            bus: BusOp::Disable,
            transfer: None,
            callback,
            request_error: None,
        }
    }

    /// Ends the acquisition after a transport failure: the client gets the
    /// all-zero sample.
    fn fail(&mut self, buffer: Vec<u8>) -> (reaction: Reaction<C>)
        requires
            buffer@.len() >= BUF_LEN,
        ensures
            final(self)@ == old(self)@.fail(buffer@).model,
            reaction@ == old(self)@.fail(buffer@).reaction,
            final(self)@.fits(),
            reaction@.fits(),
    {
        self.finish(buffer, Sample { x: 0, y: 0, z: 0 })
    }

    /// Gives up a request whose first transfer the bus refused.
    fn refuse(&mut self, buffer: Vec<u8>) -> (reaction: Reaction<C>)
        requires
            buffer@.len() >= BUF_LEN,
        ensures
            final(self)@ == old(self)@.refuse(buffer@).model,
            reaction@ == old(self)@.refuse(buffer@).reaction,
            final(self)@.fits(),
            reaction@.fits(),
    {
        proof {
            use_type_invariant(&*self);
        }
        self.state = ProtocolState::Idle;
        self.buffer = Some(buffer);
        Reaction {
            pin: PinOp::Keep,
            bus: BusOp::Disable,
            transfer: None,
            callback: None,
            request_error: Some(RequestError::TransportFailure),
        }
    }

    /// The bus reports that the transfer it was given has completed, and
    /// hands the buffer back.
    ///
    /// While `Idle` the report is ignored. A failed transfer ends the
    /// acquisition, whatever its state: the driver keeps `buffer`, returns to
    /// `Idle`, releases the bus and delivers the all-zero sample. A
    /// successful one moves the acquisition on by one step: the next transfer
    /// goes out with `buffer`, or the level of the interrupt line is asked
    /// for, or the reading is delivered.
    pub fn command_complete(&mut self, buffer: Vec<u8>, status: Result<(), TransportError>) -> (reaction:
        Reaction<C>)
        requires
            buffer@.len() >= BUF_LEN,
        ensures
            final(self)@ == old(self)@.command_complete(buffer@, status is Ok).model,
            reaction@ == old(self)@.command_complete(buffer@, status is Ok).reaction,
            final(self)@.fits(),
            reaction@.fits(),
            old(self)@.state is Idle ==> final(self)@ == old(self)@ && reaction@
                == ReactionView::<C>::quiet(),
            !(old(self)@.state is Idle) && status is Err ==> {
                &&& final(self)@.state is Idle
                &&& final(self)@.buffer == Some(buffer@)
                &&& final(self)@.client == old(self)@.client
                &&& reaction@.callback == notify(old(self)@.client, zero_sample())
                &&& reaction@.bus == BusOp::Disable
                &&& reaction@.transfer is None
                &&& reaction@.request_error is None
            },
    {
        proof {
            use_type_invariant(&*self);
        }
        if let ProtocolState::Idle = self.state {
            return Reaction::quiet();
        }
        if let Err(_) = status {
            return self.fail(buffer);
        }
        match self.state {
            ProtocolState::Idle => Reaction::quiet(),
            ProtocolState::AccelArm => {
                let transfer = write_ctrl_reg1(buffer, CTRL_REG1_ACTIVE);
                self.issue(
                    ProtocolState::AccelAwaitReady,
                    PinOp::EnableFallingEdge,
                    BusOp::Keep,
                    transfer,
                )
            },
            ProtocolState::AccelAwaitReady => {
                self.buffer = Some(buffer);
                Reaction {
                    pin: PinOp::ReadLevel,
                    bus: BusOp::Keep,
                    transfer: None,
                    callback: None,
                    request_error: None,
                }
            },
            ProtocolState::AccelPendingInterrupt => Reaction::quiet(),
            ProtocolState::AccelReading => {
                let sample = decode_acceleration(&buffer);
                let transfer = write_ctrl_reg1(buffer, CTRL_REG1_STANDBY);
                self.issue(
                    ProtocolState::AccelDeactivating(sample.x, sample.y, sample.z),
                    PinOp::Keep,
                    BusOp::Keep,
                    transfer,
                )
            },
            ProtocolState::AccelDeactivating(x, y, z) => self.finish(buffer, Sample { x, y, z }),
            ProtocolState::MagArm => {
                let transfer = read_sample(buffer, M_OUT_X_MSB);
                self.issue(ProtocolState::MagReading, PinOp::Keep, BusOp::Keep, transfer)
            },
            ProtocolState::MagReading => {
                let sample = decode_magnetic_field(&buffer);
                self.finish(buffer, sample)
            },
        }
    }

    /// Starts an acceleration acquisition: the interrupt pin becomes an
    /// input, the bus is powered up, and the write that turns on data-ready
    /// signalling goes out with the buffer.
    fn start_read_accel(&mut self) -> (result: Result<Reaction<C>, RequestError>)
        ensures
            final(self)@ == old(self)@.read_accelerometer().model,
            final(self)@.fits(),
            result matches Ok(reaction) ==> reaction@.fits(),
            (result matches Err(RequestError::Busy)) <==> !(old(self)@.state is Idle),
            (result matches Err(RequestError::OutOfResources)) <==> old(self)@.state is Idle && old(
                self,
            )@.buffer is None,
            result is Ok <==> old(self)@.state is Idle && old(self)@.buffer is Some,
            match result {
                Ok(reaction) => old(self)@.request_error() is None && reaction@ == old(
                    self,
                )@.read_accelerometer().reaction,
                Err(e) => old(self)@.request_error() == Some(e) && final(self)@ == old(self)@,
            },
    {
        proof {
            use_type_invariant(&*self);
        }
        if let ProtocolState::Idle = self.state {
            match self.take_buffer() {
                None => Err(RequestError::OutOfResources),
                Some(buffer) => {
                    let transfer = arm_accel(buffer);
                    Ok(
                        self.issue(
                            ProtocolState::AccelArm,
                            PinOp::MakeInput,
                            BusOp::Enable,
                            transfer,
                        ),
                    )
                },
            }
        } else {
            Err(RequestError::Busy)
        }
    }

    /// Starts a magnetic-field acquisition: the bus is powered up, and the
    /// write that triggers a one-shot measurement goes out with the buffer.
    fn start_read_magnetometer(&mut self) -> (result: Result<Reaction<C>, RequestError>)
        ensures
            final(self)@ == old(self)@.read_magnetometer().model,
            final(self)@.fits(),
            result matches Ok(reaction) ==> reaction@.fits(),
            (result matches Err(RequestError::Busy)) <==> !(old(self)@.state is Idle),
            (result matches Err(RequestError::OutOfResources)) <==> old(self)@.state is Idle && old(
                self,
            )@.buffer is None,
            result is Ok <==> old(self)@.state is Idle && old(self)@.buffer is Some,
            match result {
                Ok(reaction) => old(self)@.request_error() is None && reaction@ == old(
                    self,
                )@.read_magnetometer().reaction,
                Err(e) => old(self)@.request_error() == Some(e) && final(self)@ == old(self)@,
            },
    {
        proof {
            use_type_invariant(&*self);
        }
        if let ProtocolState::Idle = self.state {
            match self.take_buffer() {
                None => Err(RequestError::OutOfResources),
                Some(buffer) => {
                    let transfer = arm_mag(buffer);
                    Ok(self.issue(ProtocolState::MagArm, PinOp::Keep, BusOp::Enable, transfer))
                },
            }
        } else {
            Err(RequestError::Busy)
        }
    }

    /// The interrupt line has seen its falling edge: a sample is ready.
    ///
    /// The edge counts only in `AccelPendingInterrupt`, while the driver
    /// holds the buffer: the interrupt is disarmed, the bus is powered up
    /// again, and the read of the six sample bytes goes out. In every other
    /// situation the edge is ignored.
    pub fn fired(&mut self) -> (reaction: Reaction<C>)
        ensures
            final(self)@ == old(self)@.fired().model,
            reaction@ == old(self)@.fired().reaction,
            final(self)@.fits(),
            reaction@.fits(),
    {
        proof {
            use_type_invariant(&*self);
        }
        if let ProtocolState::AccelPendingInterrupt = self.state {
            match self.take_buffer() {
                None => Reaction::quiet(),
                Some(buffer) => {
                    let transfer = read_sample(buffer, OUT_X_MSB);
                    self.issue(
                        ProtocolState::AccelReading,
                        PinOp::DisableInterrupts,
                        BusOp::Enable,
                        transfer,
                    )
                },
            }
        } else {
            Reaction::quiet()
        }
    }

    /// The host has read the interrupt line, as a `ReadLevel` reaction asked.
    ///
    /// The report counts only in `AccelAwaitReady`, while the driver holds
    /// the buffer. If the line is already asserted, the sample became ready
    /// before the interrupt could fire: the interrupt is disarmed and the
    /// read of the six sample bytes goes out at once. If not, the bus is
    /// released and the driver waits for the edge. In every other situation
    /// the report is ignored.
    pub fn pin_level(&mut self, level: Level) -> (reaction: Reaction<C>)
        ensures
            final(self)@ == old(self)@.pin_level(level).model,
            reaction@ == old(self)@.pin_level(level).reaction,
            final(self)@.fits(),
            reaction@.fits(),
    {
        proof {
            use_type_invariant(&*self);
        }
        if let ProtocolState::AccelAwaitReady = self.state {
            match level {
                Level::Low => match self.take_buffer() {
                    None => Reaction::quiet(),
                    Some(buffer) => {
                        let transfer = read_sample(buffer, OUT_X_MSB);
                        self.issue(
                            ProtocolState::AccelReading,
                            PinOp::DisableInterrupts,
                            BusOp::Keep,
                            transfer,
                        )
                    },
                },
                Level::High => {
                    if self.buffer.is_some() {
                        self.state = ProtocolState::AccelPendingInterrupt;
                        Reaction {
                            pin: PinOp::Keep,
                            bus: BusOp::Disable,
                            transfer: None,
                            callback: None,
                            request_error: None,
                        }
                    } else {
                        Reaction::quiet()
                    }
                },
            }
        } else {
            Reaction::quiet()
        }
    }

    /// The bus refused the transfer it was just handed and gave the buffer
    /// back at once.
    ///
    /// While `Idle` the report is ignored. Otherwise the acquisition ends:
    /// the driver keeps `buffer`, returns to `Idle` and releases the bus. If
    /// the refused transfer was the first of its acquisition, the request
    /// itself fails with `TransportFailure` and no callback is made; later in
    /// the acquisition the client gets the all-zero sample.
    pub fn command_rejected(&mut self, buffer: Vec<u8>) -> (reaction: Reaction<C>)
        requires
            buffer@.len() >= BUF_LEN,
        ensures
            final(self)@ == old(self)@.command_rejected(buffer@).model,
            reaction@ == old(self)@.command_rejected(buffer@).reaction,
            final(self)@.fits(),
            reaction@.fits(),
    {
        proof {
            use_type_invariant(&*self);
        }
        match self.state {
            ProtocolState::Idle => Reaction::quiet(),
            ProtocolState::AccelArm | ProtocolState::MagArm => self.refuse(buffer),
            _ => self.fail(buffer),
        }
    }

    /// Requests one acceleration reading. The reading arrives later, through
    /// the callback.
    ///
    /// Fails with `Busy`, and changes nothing, while an acquisition is in
    /// progress. Fails with `OutOfResources`, and changes nothing, if the
    /// driver is `Idle` without its buffer. Otherwise the acquisition starts:
    /// the state is `AccelArm` and the first transfer goes out with the
    /// buffer.
    pub fn read_accelerometer(&mut self) -> (result: Result<Reaction<C>, RequestError>)
        ensures
            final(self)@ == old(self)@.read_accelerometer().model,
            final(self)@.fits(),
            result matches Ok(reaction) ==> reaction@.fits(),
            (result matches Err(RequestError::Busy)) <==> !(old(self)@.state is Idle),
            (result matches Err(RequestError::OutOfResources)) <==> old(self)@.state is Idle && old(
                self,
            )@.buffer is None,
            result is Ok <==> old(self)@.state is Idle && old(self)@.buffer is Some,
            match result {
                Ok(reaction) => old(self)@.request_error() is None && reaction@ == old(
                    self,
                )@.read_accelerometer().reaction,
                Err(e) => old(self)@.request_error() == Some(e) && final(self)@ == old(self)@,
            },
    {
        self.start_read_accel()
    }

    /// Requests one magnetic-field reading. The reading arrives later,
    /// through the callback.
    ///
    /// Fails with `Busy`, and changes nothing, while an acquisition is in
    /// progress. Fails with `OutOfResources`, and changes nothing, if the
    /// driver is `Idle` without its buffer. Otherwise the acquisition starts:
    /// the state is `MagArm` and the first transfer goes out with the buffer.
    pub fn read_magnetometer(&mut self) -> (result: Result<Reaction<C>, RequestError>)
        ensures
            final(self)@ == old(self)@.read_magnetometer().model,
            final(self)@.fits(),
            result matches Ok(reaction) ==> reaction@.fits(),
            (result matches Err(RequestError::Busy)) <==> !(old(self)@.state is Idle),
            (result matches Err(RequestError::OutOfResources)) <==> old(self)@.state is Idle && old(
                self,
            )@.buffer is None,
            result is Ok <==> old(self)@.state is Idle && old(self)@.buffer is Some,
            match result {
                Ok(reaction) => old(self)@.request_error() is None && reaction@ == old(
                    self,
                )@.read_magnetometer().reaction,
                Err(e) => old(self)@.request_error() == Some(e) && final(self)@ == old(self)@,
            },
    {
        self.start_read_magnetometer()
    }

    /// Registers `client` as the receiver of readings. It replaces a client
    /// registered earlier; nothing else changes.
    pub fn set_client(&mut self, client: C)
        ensures
            final(self)@ == old(self)@.set_client(client),
            final(self)@.fits(),
    {
        proof {
            use_type_invariant(&*self);
        }
        self.client = Some(client);
    }
}

} // verus!
