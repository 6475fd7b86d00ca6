use fxos8700cq::registers::BUF_LEN;
use fxos8700cq::{
    BusOp, Callback, Fxos8700cq, Level, PinOp, ProtocolState, Reaction, RequestError, Sample,
    Transfer,
};

fn quiet() -> Reaction<u32> {
    Reaction { pin: PinOp::Keep, bus: BusOp::Keep, transfer: None, callback: None, request_error: None }
}

fn sends(pin: PinOp, bus: BusOp, transfer: Transfer) -> Reaction<u32> {
    Reaction { pin, bus, transfer: Some(transfer), callback: None, request_error: None }
}

fn delivers(client: u32, x: i16, y: i16, z: i16) -> Reaction<u32> {
    Reaction {
        pin: PinOp::Keep,
        bus: BusOp::Disable,
        transfer: None,
        callback: Some(Callback { client, sample: Sample { x, y, z } }),
        request_error: None,
    }
}

fn driver_with_client(client: u32) -> Fxos8700cq<u32> {
    let mut driver = Fxos8700cq::new(vec![0; BUF_LEN]);
    driver.set_client(client);
    driver
}

/// Takes the buffer out of the transfer that a reaction carries, as the bus
/// does.
fn buffer_of(reaction: Reaction<u32>) -> Vec<u8> {
    match reaction.transfer {
        Some(Transfer::Write { buffer, .. }) => buffer,
        Some(Transfer::WriteRead { buffer, .. }) => buffer,
        None => panic!("the reaction carries no transfer"),
    }
}

/// Drives an acceleration acquisition up to the point where the read of the
/// sample is with the bus, along the path on which the line is found
/// asserted.
fn accel_reading_direct(driver: &mut Fxos8700cq<u32>) {
    let armed = driver.read_accelerometer().unwrap();
    let activated = driver.command_complete(buffer_of(armed), Ok(()));
    driver.command_complete(buffer_of(activated), Ok(()));
    driver.pin_level(Level::Low);
}

#[test]
fn new_driver_is_idle_and_holds_the_buffer() {
    let driver: Fxos8700cq<u32> = Fxos8700cq::new(vec![0; BUF_LEN]);
    assert_eq!(driver.state(), ProtocolState::Idle);
    assert!(driver.holds_buffer());
}

#[test]
fn buffer_length_is_six() {
    assert_eq!(BUF_LEN, 6);
}

#[test]
fn acceleration_with_the_line_already_asserted() {
    let mut driver = Fxos8700cq::new(vec![9, 9, 9, 9, 9, 9]);
    driver.set_client(7u32);

    let armed = driver.read_accelerometer().unwrap();
    assert_eq!(
        armed,
        sends(
            PinOp::MakeInput,
            BusOp::Enable,
            Transfer::Write { buffer: vec![0x2d, 1, 1, 9, 9, 9], len: 3 },
        )
    );
    assert_eq!(driver.state(), ProtocolState::AccelArm);
    assert!(!driver.holds_buffer());

    let activated = driver.command_complete(vec![0x2d, 1, 1, 9, 9, 9], Ok(()));
    assert_eq!(
        activated,
        sends(
            PinOp::EnableFallingEdge,
            BusOp::Keep,
            Transfer::Write { buffer: vec![0x2a, 1, 1, 9, 9, 9], len: 2 },
        )
    );
    assert_eq!(driver.state(), ProtocolState::AccelAwaitReady);
    assert!(!driver.holds_buffer());

    let polled = driver.command_complete(vec![0x2a, 1, 1, 9, 9, 9], Ok(()));
    assert_eq!(polled, Reaction { pin: PinOp::ReadLevel, ..quiet() });
    assert_eq!(driver.state(), ProtocolState::AccelAwaitReady);
    assert!(driver.holds_buffer());

    let reading = driver.pin_level(Level::Low);
    assert_eq!(
        reading,
        sends(
            PinOp::DisableInterrupts,
            BusOp::Keep,
            Transfer::WriteRead { buffer: vec![0x01, 1, 1, 9, 9, 9], write_len: 1, read_len: 6 },
        )
    );
    assert_eq!(driver.state(), ProtocolState::AccelReading);
    assert!(!driver.holds_buffer());

    let standby = driver.command_complete(vec![0x10, 0x00, 0x20, 0x00, 0x30, 0x00], Ok(()));
    assert_eq!(
        standby,
        sends(
            PinOp::Keep,
            BusOp::Keep,
            Transfer::Write { buffer: vec![0x2a, 0, 0x20, 0x00, 0x30, 0x00], len: 2 },
        )
    );
    assert_eq!(driver.state(), ProtocolState::AccelDeactivating(249, 499, 749));
    assert!(!driver.holds_buffer());

    let done = driver.command_complete(vec![0x2a, 0, 0x20, 0x00, 0x30, 0x00], Ok(()));
    assert_eq!(done, delivers(7, 249, 499, 749));
    assert_eq!(driver.state(), ProtocolState::Idle);
    assert!(driver.holds_buffer());
}

#[test]
fn acceleration_that_waits_for_the_interrupt() {
    let mut driver = driver_with_client(7);
    let armed = driver.read_accelerometer().unwrap();
    let activated = driver.command_complete(buffer_of(armed), Ok(()));
    let polled = driver.command_complete(buffer_of(activated), Ok(()));
    assert_eq!(polled.pin, PinOp::ReadLevel);

    let parked = driver.pin_level(Level::High);
    assert_eq!(parked, Reaction { bus: BusOp::Disable, ..quiet() });
    assert_eq!(driver.state(), ProtocolState::AccelPendingInterrupt);
    assert!(driver.holds_buffer());

    let reading = driver.fired();
    assert_eq!(
        reading,
        sends(
            PinOp::DisableInterrupts,
            BusOp::Enable,
            Transfer::WriteRead { buffer: vec![0x01, 1, 1, 0, 0, 0], write_len: 1, read_len: 6 },
        )
    );
    assert_eq!(driver.state(), ProtocolState::AccelReading);
    assert!(!driver.holds_buffer());

    let standby = driver.command_complete(vec![0xf0, 0x00, 0x00, 0x14, 0x7f, 0xfc], Ok(()));
    assert_eq!(driver.state(), ProtocolState::AccelDeactivating(-249, 1, 1998));
    let done = driver.command_complete(buffer_of(standby), Ok(()));
    assert_eq!(done, delivers(7, -249, 1, 1998));
    assert_eq!(driver.state(), ProtocolState::Idle);
    assert!(driver.holds_buffer());
}

#[test]
fn both_answers_of_the_race_check_lead_to_the_same_reading() {
    let bytes = vec![0x12, 0x34, 0xab, 0xcd, 0x00, 0x40];

    let mut direct = driver_with_client(1);
    accel_reading_direct(&mut direct);

    let mut waited = driver_with_client(1);
    let armed = waited.read_accelerometer().unwrap();
    let activated = waited.command_complete(buffer_of(armed), Ok(()));
    waited.command_complete(buffer_of(activated), Ok(()));
    let parked = waited.pin_level(Level::High);
    assert!(parked.transfer.is_none());
    assert_eq!(parked.pin, PinOp::Keep);
    let woken = waited.fired();
    assert!(woken.transfer.is_some());

    assert_eq!(direct.state(), ProtocolState::AccelReading);
    assert_eq!(waited.state(), ProtocolState::AccelReading);
    assert_eq!(direct.holds_buffer(), waited.holds_buffer());

    let standby_direct = direct.command_complete(bytes.clone(), Ok(()));
    let standby_waited = waited.command_complete(bytes.clone(), Ok(()));
    assert_eq!(standby_direct, standby_waited);
    assert_eq!(direct.state(), waited.state());

    let done_direct = direct.command_complete(buffer_of(standby_direct), Ok(()));
    let done_waited = waited.command_complete(buffer_of(standby_waited), Ok(()));
    assert_eq!(done_direct, done_waited);
    // 0x1234 >> 2 = 1165 -> 284; 0xabcd is -21555, >> 2 = -5389 -> -1314;
    // 0x0040 >> 2 = 16 -> 3.
    assert_eq!(done_direct, delivers(1, 284, -1314, 3));
}

#[test]
fn the_direct_read_and_the_read_after_the_edge_are_the_same_transfer() {
    let mut direct = driver_with_client(1);
    let armed = direct.read_accelerometer().unwrap();
    let activated = direct.command_complete(buffer_of(armed), Ok(()));
    direct.command_complete(buffer_of(activated), Ok(()));
    let read_direct = direct.pin_level(Level::Low);

    let mut waited = driver_with_client(1);
    let armed = waited.read_accelerometer().unwrap();
    let activated = waited.command_complete(buffer_of(armed), Ok(()));
    waited.command_complete(buffer_of(activated), Ok(()));
    waited.pin_level(Level::High);
    let read_waited = waited.fired();

    assert_eq!(read_direct.transfer, read_waited.transfer);
    assert_eq!(read_direct.pin, PinOp::DisableInterrupts);
    assert_eq!(read_waited.pin, PinOp::DisableInterrupts);
    assert_eq!(read_direct.bus, BusOp::Keep);
    assert_eq!(read_waited.bus, BusOp::Enable);
}

#[test]
fn magnetic_field_acquisition() {
    let mut driver = Fxos8700cq::new(vec![9, 9, 9, 9, 9, 9]);
    driver.set_client(3u32);

    let armed = driver.read_magnetometer().unwrap();
    assert_eq!(
        armed,
        sends(
            PinOp::Keep,
            BusOp::Enable,
            Transfer::Write { buffer: vec![0x5b, 0b0010_0011, 9, 9, 9, 9], len: 2 },
        )
    );
    assert_eq!(driver.state(), ProtocolState::MagArm);
    assert!(!driver.holds_buffer());

    let reading = driver.command_complete(vec![0x5b, 0x23, 9, 9, 9, 9], Ok(()));
    assert_eq!(
        reading,
        sends(
            PinOp::Keep,
            BusOp::Keep,
            Transfer::WriteRead { buffer: vec![0x33, 0x23, 9, 9, 9, 9], write_len: 1, read_len: 6 },
        )
    );
    assert_eq!(driver.state(), ProtocolState::MagReading);
    assert!(!driver.holds_buffer());

    let done = driver.command_complete(vec![0xFF, 0xFF, 0x00, 0x01, 0x80, 0x00], Ok(()));
    assert_eq!(done, delivers(3, -1, 1, -32768));
    assert_eq!(driver.state(), ProtocolState::Idle);
    assert!(driver.holds_buffer());
}

#[test]
fn callback_delivers_the_decoded_acceleration() {
    let mut driver = driver_with_client(5);
    accel_reading_direct(&mut driver);
    let standby = driver.command_complete(vec![0x10, 0x00, 0x20, 0x00, 0x30, 0x00], Ok(()));
    let done = driver.command_complete(buffer_of(standby), Ok(()));
    let callback = done.callback.unwrap();
    assert_eq!(callback.client, 5);
    assert_eq!(callback.sample.x, 249);
    assert_eq!(callback.sample.y, 499);
    assert_eq!(callback.sample.z, 749);
}

#[test]
fn acceleration_is_decoded_before_the_standby_write_reuses_the_buffer() {
    let mut driver = driver_with_client(5);
    accel_reading_direct(&mut driver);
    let standby = driver.command_complete(vec![0x10, 0x00, 0x20, 0x00, 0x30, 0x00], Ok(()));
    // The buffer that comes back from the standby write no longer holds the
    // X axis; the reading travels in the state.
    let returned = buffer_of(standby);
    assert_eq!(returned[0], 0x2a);
    assert_eq!(returned[1], 0);
    let done = driver.command_complete(vec![0; 6], Ok(()));
    assert_eq!(done.callback.unwrap().sample, Sample { x: 249, y: 499, z: 749 });
}

#[test]
fn request_while_busy_fails_and_changes_nothing() {
    let mut driver = driver_with_client(2);
    let armed = driver.read_accelerometer().unwrap();

    assert_eq!(driver.read_accelerometer(), Err(RequestError::Busy));
    assert_eq!(driver.read_magnetometer(), Err(RequestError::Busy));
    assert_eq!(driver.state(), ProtocolState::AccelArm);
    assert!(!driver.holds_buffer());

    let activated = driver.command_complete(buffer_of(armed), Ok(()));
    assert_eq!(driver.read_accelerometer(), Err(RequestError::Busy));
    assert_eq!(driver.read_magnetometer(), Err(RequestError::Busy));
    assert_eq!(driver.state(), ProtocolState::AccelAwaitReady);

    driver.command_complete(buffer_of(activated), Ok(()));
    assert_eq!(driver.read_accelerometer(), Err(RequestError::Busy));
    assert_eq!(driver.read_magnetometer(), Err(RequestError::Busy));
    assert_eq!(driver.state(), ProtocolState::AccelAwaitReady);
    assert!(driver.holds_buffer());

    driver.pin_level(Level::High);
    assert_eq!(driver.read_accelerometer(), Err(RequestError::Busy));
    assert_eq!(driver.read_magnetometer(), Err(RequestError::Busy));
    assert_eq!(driver.state(), ProtocolState::AccelPendingInterrupt);
    assert!(driver.holds_buffer());

    driver.fired();
    assert_eq!(driver.read_accelerometer(), Err(RequestError::Busy));
    assert_eq!(driver.read_magnetometer(), Err(RequestError::Busy));
    assert_eq!(driver.state(), ProtocolState::AccelReading);

    let standby = driver.command_complete(vec![0x10, 0x00, 0x20, 0x00, 0x30, 0x00], Ok(()));
    assert_eq!(driver.read_accelerometer(), Err(RequestError::Busy));
    assert_eq!(driver.read_magnetometer(), Err(RequestError::Busy));
    assert_eq!(driver.state(), ProtocolState::AccelDeactivating(249, 499, 749));

    // The acquisition that was in progress all along ends as if nobody had
    // asked in between.
    let done = driver.command_complete(buffer_of(standby), Ok(()));
    assert_eq!(done, delivers(2, 249, 499, 749));
}

#[test]
fn request_while_a_magnetic_acquisition_runs_fails() {
    let mut driver = driver_with_client(2);
    let armed = driver.read_magnetometer().unwrap();
    assert_eq!(driver.read_accelerometer(), Err(RequestError::Busy));
    assert_eq!(driver.read_magnetometer(), Err(RequestError::Busy));
    assert_eq!(driver.state(), ProtocolState::MagArm);

    driver.command_complete(buffer_of(armed), Ok(()));
    assert_eq!(driver.read_accelerometer(), Err(RequestError::Busy));
    assert_eq!(driver.read_magnetometer(), Err(RequestError::Busy));
    assert_eq!(driver.state(), ProtocolState::MagReading);

    let done = driver.command_complete(vec![0, 1, 0, 2, 0, 3], Ok(()));
    assert_eq!(done, delivers(2, 1, 2, 3));
}

#[test]
fn next_request_is_accepted_after_a_reading() {
    let mut driver = driver_with_client(2);
    let armed = driver.read_magnetometer().unwrap();
    let reading = driver.command_complete(buffer_of(armed), Ok(()));
    driver.command_complete(buffer_of(reading), Ok(()));
    assert_eq!(driver.state(), ProtocolState::Idle);
    assert!(driver.holds_buffer());

    assert!(driver.read_accelerometer().is_ok());
    assert_eq!(driver.state(), ProtocolState::AccelArm);
}

#[test]
fn acquisitions_follow_one_another() {
    let mut driver = driver_with_client(2);
    for round in 0..4u8 {
        let armed = driver.read_magnetometer().unwrap();
        let reading = driver.command_complete(buffer_of(armed), Ok(()));
        let mut bytes = buffer_of(reading);
        bytes[1] = round;
        let done = driver.command_complete(bytes, Ok(()));
        assert_eq!(done.callback.unwrap().sample.x, 0x3300 + round as i16);

        accel_reading_direct(&mut driver);
        let standby = driver.command_complete(vec![0x10, 0, 0, 0, 0, 0], Ok(()));
        let done = driver.command_complete(buffer_of(standby), Ok(()));
        assert_eq!(done, delivers(2, 249, 0, 0));
    }
}

#[test]
fn the_last_client_registered_gets_the_reading() {
    let mut driver = driver_with_client(1);
    driver.set_client(2);
    let armed = driver.read_magnetometer().unwrap();
    let reading = driver.command_complete(buffer_of(armed), Ok(()));
    driver.set_client(3);
    let done = driver.command_complete(buffer_of(reading), Ok(()));
    assert_eq!(done.callback.unwrap().client, 3);
}

#[test]
fn registering_a_client_leaves_the_acquisition_alone() {
    let mut driver = driver_with_client(1);
    driver.read_accelerometer().unwrap();
    driver.set_client(2);
    assert_eq!(driver.state(), ProtocolState::AccelArm);
    assert!(!driver.holds_buffer());
}

#[test]
fn without_a_client_no_callback_is_made() {
    let mut driver: Fxos8700cq<u32> = Fxos8700cq::new(vec![0; BUF_LEN]);
    let armed = driver.read_magnetometer().unwrap();
    let reading = driver.command_complete(buffer_of(armed), Ok(()));
    let done = driver.command_complete(buffer_of(reading), Ok(()));
    assert_eq!(done, Reaction { bus: BusOp::Disable, ..quiet() });
    assert_eq!(driver.state(), ProtocolState::Idle);
    assert!(driver.holds_buffer());
}

#[test]
fn transfers_use_the_buffer_that_came_back() {
    let mut driver = driver_with_client(1);
    driver.read_accelerometer().unwrap();
    let activated = driver.command_complete(vec![1, 2, 3, 4, 5, 6, 7, 8], Ok(()));
    assert_eq!(
        activated.transfer,
        Some(Transfer::Write { buffer: vec![0x2a, 1, 3, 4, 5, 6, 7, 8], len: 2 })
    );
}

#[test]
fn a_longer_buffer_is_carried_whole() {
    let mut driver = Fxos8700cq::new(vec![0xee; 10]);
    driver.set_client(1u32);
    let armed = driver.read_accelerometer().unwrap();
    let buffer = buffer_of(armed);
    assert_eq!(buffer, vec![0x2d, 1, 1, 0xee, 0xee, 0xee, 0xee, 0xee, 0xee, 0xee]);
}
