//! Device-emulation configuration for a browser-automation session.
//!
//! Callers describe the emulation properties they want applied — user agent,
//! hardware concurrency, timezone, geolocation, viewport — as an
//! [`EmulationOverrides`] value in which every field is optional. An
//! [`EmulationManager`] turns such a snapshot into an ordered sequence of
//! remote-debugging-protocol commands, and tracks whether applying the
//! overrides changed the emulated mobile/touch characteristics in a way that
//! requires a page reload.
//!
//! This crate only decides *what* commands to emit and *whether* a reload is
//! owed; sending the commands to the remote session is the transport's job.

use vstd::prelude::*;

pub mod cmd;
pub mod manager;
pub mod viewport;

pub use cmd::{CommandChain, CommandSpec, EmulationCommand, Orientation, OrientationKind};
pub use manager::{EmulationError, EmulationManager, EmulationOverrides, OverridesSpec};
pub use viewport::{GeolocationOverride, Viewport};

verus! {

/// Bit pattern of the IEEE-754 double `1.0`, the device scale factor used
/// when a viewport does not supply one.
pub const DEFAULT_DEVICE_SCALE_FACTOR_BITS: u64 = 0x3FF0000000000000;

} // verus!
