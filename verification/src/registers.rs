//! The part of the sensor's register map that the driver touches, and the
//! values it writes there.

use vstd::prelude::*;

verus! {

/// Recommended length of the transfer buffer: the six bytes of one
/// three-axis sample. A buffer handed to the driver is at least this long.
pub const BUF_LEN: usize = 6;

/// First of the six accelerometer output registers (X high byte).
pub const OUT_X_MSB: u8 = 0x01;

/// System control register 1; bit 0 switches between standby and active.
pub const CTRL_REG1: u8 = 0x2a;

/// Interrupt enable register. `CTRL_REG5`, the interrupt routing register,
/// follows it, so one three-byte write programs both.
pub const CTRL_REG4: u8 = 0x2d;

/// First of the six magnetometer output registers (X high byte).
pub const M_OUT_X_MSB: u8 = 0x33;

/// Magnetometer control register 1.
pub const M_CTRL_REG1: u8 = 0x5b;

/// `CTRL_REG1` value: active mode.
pub const CTRL_REG1_ACTIVE: u8 = 1;

/// `CTRL_REG1` value: standby mode.
pub const CTRL_REG1_STANDBY: u8 = 0;

/// `CTRL_REG4` value: raise an interrupt when a sample is ready.
pub const CTRL_REG4_DRDY: u8 = 1;

/// `CTRL_REG5` value: route the data-ready interrupt to pin 1.
pub const CTRL_REG5_DRDY_PIN1: u8 = 1;

/// `M_CTRL_REG1` value: accelerometer and magnetometer both on (hybrid mode)
/// with the one-shot measurement trigger set.
pub const M_CTRL_REG1_ONE_SHOT_HYBRID: u8 = 0b0010_0011;

/// Bytes written before the read in a sample transfer: the register address.
pub const SAMPLE_WRITE_LEN: usize = 1;

/// Bytes read in a sample transfer: two per axis.
pub const SAMPLE_READ_LEN: usize = 6;

} // verus!
