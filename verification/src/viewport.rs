//! Plain-value descriptions of the viewport and geolocation overrides.
//!
//! The remote protocol carries the device scale factor and the geolocation
//! coordinates as IEEE-754 doubles. This crate stores each such number as its
//! 64-bit IEEE-754 bit pattern, which represents every double exactly; the
//! adapter that talks to the protocol layer converts bit patterns back into
//! doubles.

use vstd::prelude::*;

verus! {

/// The viewport characteristics a caller wants emulated.
///
/// `width` and `height` are in device pixels. The remote protocol encodes
/// them as signed 64-bit integers, so values above `i64::MAX` cannot be
/// encoded and make command construction fail.
#[derive(Debug, Clone, Copy, PartialEq, Eq, Structural)]
pub struct Viewport {
    /// Viewport width in device pixels.
    pub width: u64,
    /// Viewport height in device pixels.
    pub height: u64,
    /// Device scale factor as an IEEE-754 double bit pattern; absent means
    /// "use the default of 1.0".
    pub device_scale_factor_bits: Option<u64>,
    /// Whether the screen orientation is landscape (else portrait).
    pub is_landscape: bool,
    /// Whether to emulate a mobile device.
    pub emulating_mobile: bool,
    /// Whether the emulated device reports touch support.
    pub has_touch: bool,
    /// Maximum number of touch points to report, if overridden.
    pub max_touch_points: Option<i64>,
}

/// A geolocation override: latitude, longitude and accuracy, each optional,
/// each an IEEE-754 double bit pattern.
#[derive(Debug, Clone, Copy, PartialEq, Eq, Structural)]
pub struct GeolocationOverride {
    /// Latitude in degrees, as an IEEE-754 double bit pattern.
    pub latitude_bits: Option<u64>,
    /// Longitude in degrees, as an IEEE-754 double bit pattern.
    pub longitude_bits: Option<u64>,
    /// Accuracy in meters, as an IEEE-754 double bit pattern.
    pub accuracy_bits: Option<u64>,
}

impl Viewport {
    /// Whether this viewport's dimensions fit the remote protocol's signed
    /// 64-bit integer encoding.
    pub open spec fn spec_encodable(self) -> bool {
        self.width <= i64::MAX && self.height <= i64::MAX
    }

    /// Whether this viewport's dimensions fit the remote protocol's signed
    /// 64-bit integer encoding.
    pub fn encodable(&self) -> (r: bool)
        ensures
            r == self.spec_encodable(),
    {
        self.width <= (i64::MAX as u64) && self.height <= (i64::MAX as u64)
    }
}

} // verus!
