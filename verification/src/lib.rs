//! Core of a sensor-to-light installation: 34 analog sensors, spread over
//! 5 shared ADC devices of 8 channels each, drive one addressable LED ring
//! apiece. The library holds the verified logic: the sensor-id to
//! (device, channel) mapping, the threshold-to-color mapper, the in-memory
//! LED frame buffer, and the per-tick poll and render pipeline. Hardware
//! access (SPI reads, strip transmission, console output) lives outside.

pub mod colors;
pub mod errors;
pub mod leds;
pub mod mapper;
pub mod registry;
pub mod sensors;
pub mod tick;

use vstd::prelude::*;

verus! {

/// Number of active sensors, one LED ring each.
pub const NUM_SENSORS: u8 = 34;

/// Number of physical ADC devices.
pub const NUM_DEVICES: usize = 5;

/// Analog channels per ADC device.
pub const CHANNELS_PER_DEVICE: u8 = 8;

} // verus!
