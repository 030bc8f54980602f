//! The error taxonomy. All three kinds are fatal under the current design:
//! a device that cannot be opened stops startup before any sensor is active,
//! and a failed channel read or strip transmission aborts the tick.

use vstd::prelude::*;

verus! {

/// A configured device path could not be opened at startup.
#[derive(Clone, Copy, PartialEq, Eq, Structural, Debug)]
pub struct DeviceOpenError {
    /// Index of the first device whose path failed to open.
    pub device: usize,
}

/// A single-channel read transaction failed.
#[derive(Clone, Copy, PartialEq, Eq, Structural, Debug)]
pub struct ReadError {
    /// Sensor whose read failed.
    pub id: u8,
}

/// The full-buffer LED transmission failed.
#[derive(Clone, Copy, PartialEq, Eq, Structural, Debug)]
pub struct RenderError;

} // verus!
