//! What holds of the driver, whatever the host and the hardware do.
//!
//! The laws speak of the transition functions of [`Model`]; the executable
//! driver takes exactly those steps. A run of the driver is a sequence of
//! [`Event`]s applied one after the other.

use crate::decode::{accel_sample, mag_sample};
use crate::model::{
    activate_transfer, arm_accel_transfer, arm_mag_transfer, notify, read_accel_transfer,
    read_mag_transfer, standby_transfer, zero_sample, Model, Step,
};
use crate::protocol::{BusOp, Level, PinOp, ProtocolState, RequestError, TransferView};
use crate::registers::BUF_LEN;
use vstd::prelude::*;

verus! {

/// Anything that can happen to the driver.
pub enum Event<C> {
    /// A caller asks for an acceleration.
    ReadAccelerometer,
    /// A caller asks for a magnetic field.
    ReadMagnetometer,
    /// The bus reports a completed transfer and hands the buffer back.
    CommandComplete { buffer: Seq<u8>, ok: bool },
    /// The bus refuses a transfer and hands the buffer back.
    CommandRejected { buffer: Seq<u8> },
    /// The interrupt fires.
    Fired,
    /// The host reports the level of the interrupt line.
    PinLevel { level: Level },
    /// A client is registered.
    SetClient { client: C },
}

/// The step that the driver takes on `event`.
pub open spec fn apply<C>(m: Model<C>, event: Event<C>) -> Step<C> {
    match event {
        Event::ReadAccelerometer => m.read_accelerometer(),
        Event::ReadMagnetometer => m.read_magnetometer(),
        Event::CommandComplete { buffer, ok } => m.command_complete(buffer, ok),
        Event::CommandRejected { buffer } => m.command_rejected(buffer),
        Event::Fired => m.fired(),
        Event::PinLevel { level } => m.pin_level(level),
        Event::SetClient { client } => m.set_client(client).ignore(),
    }
}

/// Whether `event` is a request that starts an acquisition.
pub open spec fn accepted<C>(m: Model<C>, event: Event<C>) -> bool {
    (event is ReadAccelerometer || event is ReadMagnetometer) && m.request_error() is None
}

/// Whether every buffer that `event` hands to the driver has room for a
/// sample.
pub open spec fn event_fits<C>(event: Event<C>) -> bool {
    match event {
        Event::CommandComplete { buffer, .. } => buffer.len() >= BUF_LEN,
        Event::CommandRejected { buffer } => buffer.len() >= BUF_LEN,
        _ => true,
    }
}

/// The model after all of `events`, applied in order.
pub open spec fn run<C>(m: Model<C>, events: Seq<Event<C>>) -> Model<C>
    decreases events.len(),
{
    if events.len() == 0 {
        m
    } else {
        run(apply(m, events[0]).model, events.drop_first())
    }
}

/// How many callbacks the driver asks for in the course of `events`.
pub open spec fn callbacks<C>(m: Model<C>, events: Seq<Event<C>>) -> nat
    decreases events.len(),
{
    if events.len() == 0 {
        0
    } else {
        let step = apply(m, events[0]);
        let here: nat = if step.reaction.callback is Some {
            1
        } else {
            0
        };
        here + callbacks(step.model, events.drop_first())
    }
}

/// How many requests start an acquisition in the course of `events`.
pub open spec fn acquisitions<C>(m: Model<C>, events: Seq<Event<C>>) -> nat
    decreases events.len(),
{
    if events.len() == 0 {
        0
    } else {
        let here: nat = if accepted(m, events[0]) {
            1
        } else {
            0
        };
        here + acquisitions(apply(m, events[0]).model, events.drop_first())
    }
}

/// The number of acquisitions in progress: one, unless the driver is `Idle`.
pub open spec fn in_progress<C>(m: Model<C>) -> nat {
    if m.state is Idle {
        0
    } else {
        1
    }
}

/// While an acquisition is in progress, a request of either kind fails with
/// `Busy` and leaves the driver, and so the acquisition, as it was.
pub proof fn law_request_while_busy<C>(m: Model<C>)
    requires
        !(m.state is Idle),
    ensures
        m.request_error() == Some(RequestError::Busy),
        m.read_accelerometer() == m.ignore(),
        m.read_magnetometer() == m.ignore(),
        m.read_accelerometer().model == m,
        m.read_magnetometer().model == m,
{
}

/// A new driver is `Idle`, holds its buffer, and is consistent.
pub proof fn law_new_driver_is_consistent<C>(buffer: Seq<u8>)
    requires
        buffer.len() >= BUF_LEN,
    ensures
        Model::<C>::initial(buffer).state is Idle,
        Model::<C>::initial(buffer).buffer == Some(buffer),
        Model::<C>::initial(buffer).consistent(),
        Model::<C>::initial(buffer).fits(),
{
}

/// No event makes a consistent driver inconsistent or leaves it with a
/// buffer that is too short.
pub proof fn law_consistency_is_invariant<C>(m: Model<C>, event: Event<C>)
    requires
        m.consistent(),
        m.fits(),
        event_fits(event),
    ensures
        apply(m, event).model.consistent(),
        apply(m, event).model.fits(),
{
}

/// Consistency holds all along a run that starts from a consistent driver.
pub proof fn law_runs_stay_consistent<C>(m: Model<C>, events: Seq<Event<C>>)
    requires
        m.consistent(),
        m.fits(),
        forall|i: int| 0 <= i < events.len() ==> event_fits(#[trigger] events[i]),
    ensures
        run(m, events).consistent(),
        run(m, events).fits(),
        run(m, events).state is Idle ==> run(m, events).request_error() is None,
    decreases events.len(),
{
    if events.len() > 0 {
        law_consistency_is_invariant(m, events[0]);
        law_runs_stay_consistent(apply(m, events[0]).model, events.drop_first());
    }
}

/// The buffer has one holder. A step that hands a transfer to the bus leaves
/// the driver without the buffer, and the transfer carries the buffer that
/// the driver held or was just handed, changed only where the step wrote
/// the register address and its values.
pub proof fn law_buffer_has_one_holder<C>(m: Model<C>, event: Event<C>)
    requires
        m.fits(),
        event_fits(event),
    ensures
        apply(m, event).reaction.transfer is Some ==> apply(m, event).model.buffer is None,
        apply(m, event).reaction.transfer matches Some(t) ==> {
            let source = match event {
                Event::CommandComplete { buffer, .. } => buffer,
                _ => m.buffer->0,
            };
            &&& t.buffer().len() == source.len()
            &&& forall|i: int| 3 <= i < source.len() ==> t.buffer()[i] == source[i]
        },
{
}

/// An acquisition ends in exactly one of two ways: with a callback, or,
/// where the bus refused its first transfer, with the failure of the
/// request. Whenever a step reports either, and whenever a step leaves an
/// active state for `Idle`, the driver holds the buffer again, has released
/// the bus, hands out no transfer, and accepts the next request of either
/// kind. With a client registered, no acquisition ends in silence.
pub proof fn law_end_of_acquisition<C>(m: Model<C>, event: Event<C>)
    ensures
        ({
            let step = apply(m, event);
            let reported = step.reaction.callback is Some || step.reaction.request_error is Some;
            let ended = !(m.state is Idle) && step.model.state is Idle;
            &&& !(step.reaction.callback is Some && step.reaction.request_error is Some)
            &&& reported ==> ended
            &&& ended ==> {
                &&& step.model.buffer is Some
                &&& step.model.client == m.client
                &&& step.reaction.bus == BusOp::Disable
                &&& step.reaction.transfer is None
                &&& step.model.request_error() is None
                &&& step.model.read_accelerometer().reaction.transfer is Some
                &&& step.model.read_magnetometer().reaction.transfer is Some
            }
            &&& ended && m.client is Some ==> reported
        }),
{
}

/// A transfer fits the buffer it travels in: the host is never asked to
/// write or read more bytes than the buffer has.
pub proof fn law_transfer_fits_buffer<C>(m: Model<C>, event: Event<C>)
    requires
        m.fits(),
        event_fits(event),
    ensures
        match apply(m, event).reaction.transfer {
            Some(TransferView::Write { buffer, len }) => 0 < len <= buffer.len(),
            Some(TransferView::WriteRead { buffer, write_len, read_len }) => {
                &&& 0 < write_len <= buffer.len()
                &&& 0 < read_len <= buffer.len()
            },
            None => true,
        },
{
}

/// A consistent driver that is `Idle` accepts a request: `OutOfResources`
/// cannot come.
pub proof fn law_idle_accepts_request<C>(m: Model<C>)
    requires
        m.consistent(),
        m.state is Idle,
    ensures
        m.request_error() is None,
        m.read_accelerometer().model.state is AccelArm,
        m.read_magnetometer().model.state is MagArm,
{
}

/// A transfer that completes with an error ends the acquisition in whatever
/// state it stands: the driver is `Idle` with the buffer that came back,
/// the bus is released, and the client, if one is registered, gets exactly
/// one callback, with all axes zero.
pub proof fn law_failed_transfer_collapses<C>(m: Model<C>, buffer: Seq<u8>)
    requires
        !(m.state is Idle),
    ensures
        m.command_complete(buffer, false) == m.fail(buffer),
        m.command_complete(buffer, false).model == (Model {
            state: ProtocolState::Idle,
            buffer: Some(buffer),
            client: m.client,
        }),
        m.command_complete(buffer, false).reaction.callback == notify(m.client, zero_sample()),
        m.command_complete(buffer, false).reaction.transfer is None,
        m.command_complete(buffer, false).reaction.request_error is None,
        m.command_complete(buffer, false).reaction.bus == BusOp::Disable,
        m.client matches Some(c) ==> m.command_complete(buffer, false).reaction.callback
            matches Some(cb) && cb.client == c && cb.sample.x == 0 && cb.sample.y == 0
            && cb.sample.z == 0,
{
}

/// A transfer that the bus refuses ends the acquisition too. Past the
/// first transfer the outcome is that of a failed completion; at the first
/// transfer the request fails with `TransportFailure` and no callback is
/// made.
pub proof fn law_refused_transfer_collapses<C>(m: Model<C>, buffer: Seq<u8>)
    requires
        !(m.state is Idle),
    ensures
        m.command_rejected(buffer).model == (Model {
            state: ProtocolState::Idle,
            buffer: Some(buffer),
            client: m.client,
        }),
        m.command_rejected(buffer).reaction.bus == BusOp::Disable,
        m.command_rejected(buffer).reaction.transfer is None,
        (m.state is AccelArm || m.state is MagArm) ==> m.command_rejected(buffer) == m.refuse(
            buffer,
        ) && m.command_rejected(buffer).reaction.callback is None && m.command_rejected(
            buffer,
        ).reaction.request_error == Some(RequestError::TransportFailure),
        !(m.state is AccelArm || m.state is MagArm) ==> m.command_rejected(buffer)
            == m.command_complete(buffer, false),
{
}

/// While `Idle`, no event but a request moves the driver or asks anything
/// of the host: stray completions, refusals, edges and level reports are
/// ignored.
pub proof fn law_idle_ignores_strays<C>(m: Model<C>, event: Event<C>)
    requires
        m.state is Idle,
        !(event is ReadAccelerometer),
        !(event is ReadMagnetometer),
        !(event is SetClient),
    ensures
        apply(m, event) == m.ignore(),
{
}

/// The race check. When the write that activates the sensor has completed
/// and the line is read, both answers lead to the same place.
///
/// If the line is already asserted, the interrupt is disarmed and the read
/// of the sample goes out at once. If it is not, the bus is released and
/// the driver waits; the edge then disarms the interrupt, powers the bus up
/// and sends the same read. After either path the driver is in the same
/// `AccelReading` model, so the completion of the read, with whatever
/// `bytes` and status, is answered alike and the same bytes decode to the
/// same reading.
pub proof fn law_race_check_converges<C>(m: Model<C>, buffer: Seq<u8>, bytes: Seq<u8>, ok: bool)
    requires
        m.state is AccelAwaitReady,
        m.buffer == Some(buffer),
    ensures
        ({
            let direct = m.pin_level(Level::Low);
            let parked = m.pin_level(Level::High);
            let woken = parked.model.fired();
            &&& direct.reaction.pin == PinOp::DisableInterrupts
            &&& direct.reaction.bus == BusOp::Keep
            &&& direct.reaction.transfer == Some(read_accel_transfer(buffer))
            &&& direct.model.state is AccelReading
            &&& parked.model.state is AccelPendingInterrupt
            &&& parked.model.buffer == Some(buffer)
            &&& parked.reaction.pin == PinOp::Keep
            &&& parked.reaction.bus == BusOp::Disable
            &&& parked.reaction.transfer is None
            &&& parked.reaction.callback is None
            &&& woken.reaction.pin == PinOp::DisableInterrupts
            &&& woken.reaction.bus == BusOp::Enable
            &&& woken.reaction.transfer == direct.reaction.transfer
            &&& woken.model == direct.model
            &&& woken.model.command_complete(bytes, ok) == direct.model.command_complete(
                bytes,
                ok,
            )
            &&& direct.model.command_complete(bytes, true).model.state == (
            ProtocolState::AccelDeactivating(
                accel_sample(bytes).x,
                accel_sample(bytes).y,
                accel_sample(bytes).z,
            ))
        }),
{
}

/// A step asks for at most one callback, and it moves the balance of
/// callbacks and acquisitions in one direction only: a callback is paid for
/// by the acquisition that it ends.
pub proof fn law_step_callback_balance<C>(m: Model<C>, event: Event<C>)
    ensures
        callbacks(m, seq![event]) <= 1,
        callbacks(m, seq![event]) + in_progress(apply(m, event).model) <= acquisitions(
            m,
            seq![event],
        ) + in_progress(m),
{
    let rest = seq![event].drop_first();
    assert(rest.len() == 0);
    assert(callbacks(apply(m, event).model, rest) == 0);
    assert(acquisitions(apply(m, event).model, rest) == 0);
}

/// No acquisition invokes the callback more than once. In every run, the
/// callbacks asked for, plus the acquisition still in progress at the end,
/// never exceed the acquisitions started, plus the one that was in progress
/// at the beginning.
pub proof fn law_one_callback_per_request<C>(m: Model<C>, events: Seq<Event<C>>)
    ensures
        callbacks(m, events) + in_progress(run(m, events)) <= acquisitions(m, events)
            + in_progress(m),
    decreases events.len(),
{
    if events.len() > 0 {
        law_one_callback_per_request(apply(m, events[0]).model, events.drop_first());
    }
}

/// An acceleration acquisition on which nothing fails. From `Idle`, the
/// request and the completions of its four transfers, with the line found
/// asserted in between, end in `Idle` with one callback: the decoding of
/// the bytes that the read brought.
pub proof fn law_acceleration_delivered<C>(
    m: Model<C>,
    b0: Seq<u8>,
    b1: Seq<u8>,
    b2: Seq<u8>,
    bytes: Seq<u8>,
    b4: Seq<u8>,
)
    requires
        m.state is Idle,
        m.buffer == Some(b0),
    ensures
        ({
            let armed = m.read_accelerometer();
            let activated = armed.model.command_complete(b1, true);
            let polled = activated.model.command_complete(b2, true);
            let reading = polled.model.pin_level(Level::Low);
            let decoded = reading.model.command_complete(bytes, true);
            let done = decoded.model.command_complete(b4, true);
            &&& armed.reaction.pin == PinOp::MakeInput
            &&& armed.reaction.bus == BusOp::Enable
            &&& armed.reaction.transfer == Some(arm_accel_transfer(b0))
            &&& armed.model.state is AccelArm
            &&& activated.reaction.pin == PinOp::EnableFallingEdge
            &&& activated.reaction.transfer == Some(activate_transfer(b1))
            &&& activated.model.state is AccelAwaitReady
            &&& polled.reaction.pin == PinOp::ReadLevel
            &&& polled.reaction.transfer is None
            &&& polled.model.state is AccelAwaitReady
            &&& reading.reaction.transfer == Some(read_accel_transfer(b2))
            &&& reading.model.state is AccelReading
            &&& decoded.reaction.transfer == Some(standby_transfer(bytes))
            &&& decoded.reaction.callback is None
            &&& done.reaction.callback == notify(m.client, accel_sample(bytes))
            &&& done.reaction.bus == BusOp::Disable
            &&& done.model == (Model {
                state: ProtocolState::Idle,
                buffer: Some(b4),
                client: m.client,
            })
        }),
{
}

/// A magnetic-field acquisition on which nothing fails. From `Idle`, the
/// request and the completions of its two transfers end in `Idle` with one
/// callback: the decoding of the bytes that the read brought. No write
/// returns the sensor to standby.
pub proof fn law_magnetic_field_delivered<C>(m: Model<C>, b0: Seq<u8>, b1: Seq<u8>, bytes: Seq<u8>)
    requires
        m.state is Idle,
        m.buffer == Some(b0),
    ensures
        ({
            let armed = m.read_magnetometer();
            let reading = armed.model.command_complete(b1, true);
            let done = reading.model.command_complete(bytes, true);
            &&& armed.reaction.pin == PinOp::Keep
            &&& armed.reaction.bus == BusOp::Enable
            &&& armed.reaction.transfer == Some(arm_mag_transfer(b0))
            &&& armed.model.state is MagArm
            &&& reading.reaction.transfer == Some(read_mag_transfer(b1))
            &&& reading.reaction.callback is None
            &&& reading.model.state is MagReading
            &&& done.reaction.transfer is None
            &&& done.reaction.callback == notify(m.client, mag_sample(bytes))
            &&& done.reaction.bus == BusOp::Disable
            &&& done.model == (Model {
                state: ProtocolState::Idle,
                buffer: Some(bytes),
                client: m.client,
            })
        }),
{
}

} // verus!
