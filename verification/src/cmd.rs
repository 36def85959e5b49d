//! The commands this crate emits, and the chain that packages them.
//!
//! Each command is a closed variant of [`EmulationCommand`], carrying exactly
//! the data the corresponding protocol command needs, as plain values. The
//! adapter that talks to the protocol layer turns each variant into the
//! protocol's typed command and serialized payload.

use vstd::prelude::*;
use std::time::Duration;

verus! {

/// Screen orientation kind, as the remote protocol names it.
#[derive(Debug, Clone, Copy, PartialEq, Eq, Structural)]
pub enum OrientationKind {
    LandscapePrimary,
    PortraitPrimary,
}

/// A screen-orientation descriptor: a kind and an angle in degrees.
#[derive(Debug, Clone, Copy, PartialEq, Eq, Structural)]
pub struct Orientation {
    pub kind: OrientationKind,
    pub angle: u16,
}

impl Orientation {
    /// The orientation descriptor for a viewport: landscape-primary at 90°
    /// when `is_landscape` holds, portrait-primary at 0° otherwise.
    pub open spec fn spec_for_landscape(is_landscape: bool) -> Orientation {
        if is_landscape {
            Orientation { kind: OrientationKind::LandscapePrimary, angle: 90 }
        } else {
            Orientation { kind: OrientationKind::PortraitPrimary, angle: 0 }
        }
    }

    /// The orientation descriptor for a viewport: landscape-primary at 90°
    /// when `is_landscape` holds, portrait-primary at 0° otherwise.
    pub fn for_landscape(is_landscape: bool) -> (r: Orientation)
        ensures
            r == Orientation::spec_for_landscape(is_landscape),
    {
        if is_landscape {
            Orientation { kind: OrientationKind::LandscapePrimary, angle: 90 }
        } else {
            Orientation { kind: OrientationKind::PortraitPrimary, angle: 0 }
        }
    }
}

/// One emulation command, as the mathematical value an [`EmulationCommand`]
/// stands for: strings are sequences of characters, everything else is plain.
pub enum CommandSpec {
    UserAgent { user_agent: Seq<char> },
    HardwareConcurrency { hardware_concurrency: i64 },
    Timezone { timezone_id: Seq<char> },
    Geolocation {
        latitude_bits: Option<u64>,
        longitude_bits: Option<u64>,
        accuracy_bits: Option<u64>,
    },
    DeviceMetrics {
        width: i64,
        height: i64,
        mobile: bool,
        device_scale_factor_bits: u64,
        orientation: Orientation,
    },
    TouchEmulation { enabled: bool, max_touch_points: Option<i64> },
}

impl CommandSpec {
    /// The remote protocol's method identifier for this command.
    pub open spec fn method_id(self) -> Seq<char> {
        match self {
            CommandSpec::UserAgent { .. } => "Emulation.setUserAgentOverride"@,
            CommandSpec::HardwareConcurrency { .. } => "Emulation.setHardwareConcurrencyOverride"@,
            CommandSpec::Timezone { .. } => "Emulation.setTimezoneOverride"@,
            CommandSpec::Geolocation { .. } => "Emulation.setGeolocationOverride"@,
            CommandSpec::DeviceMetrics { .. } => "Emulation.setDeviceMetricsOverride"@,
            CommandSpec::TouchEmulation { .. } => "Emulation.setTouchEmulationEnabled"@,
        }
    }

    /// The position of this command's field in the fixed emission order:
    /// user agent, hardware concurrency, timezone, geolocation, device
    /// metrics, touch emulation.
    pub open spec fn rank(self) -> int {
        match self {
            CommandSpec::UserAgent { .. } => 0,
            CommandSpec::HardwareConcurrency { .. } => 1,
            CommandSpec::Timezone { .. } => 2,
            CommandSpec::Geolocation { .. } => 3,
            CommandSpec::DeviceMetrics { .. } => 4,
            CommandSpec::TouchEmulation { .. } => 5,
        }
    }
}

/// One emulation command, carrying the data its protocol command needs.
#[derive(Debug, Clone, PartialEq, Eq)]
pub enum EmulationCommand {
    SetUserAgent { user_agent: String },
    SetHardwareConcurrency { hardware_concurrency: i64 },
    SetTimezone { timezone_id: String },
    SetGeolocation {
        latitude_bits: Option<u64>,
        longitude_bits: Option<u64>,
        accuracy_bits: Option<u64>,
    },
    SetDeviceMetrics {
        width: i64,
        height: i64,
        mobile: bool,
        device_scale_factor_bits: u64,
        orientation: Orientation,
    },
    SetTouchEmulation { enabled: bool, max_touch_points: Option<i64> },
}

impl View for EmulationCommand {
    type V = CommandSpec;

    open spec fn view(&self) -> CommandSpec {
        match self {
            EmulationCommand::SetUserAgent { user_agent } => CommandSpec::UserAgent {
                user_agent: user_agent@,
            },
            EmulationCommand::SetHardwareConcurrency { hardware_concurrency } => {
                CommandSpec::HardwareConcurrency { hardware_concurrency: *hardware_concurrency }
            },
            EmulationCommand::SetTimezone { timezone_id } => CommandSpec::Timezone {
                timezone_id: timezone_id@,
            },
            EmulationCommand::SetGeolocation { latitude_bits, longitude_bits, accuracy_bits } => {
                CommandSpec::Geolocation {
                    latitude_bits: *latitude_bits,
                    longitude_bits: *longitude_bits,
                    accuracy_bits: *accuracy_bits,
                }
            },
            EmulationCommand::SetDeviceMetrics {
                width,
                height,
                mobile,
                device_scale_factor_bits,
                orientation,
            } => CommandSpec::DeviceMetrics {
                width: *width,
                height: *height,
                mobile: *mobile,
                device_scale_factor_bits: *device_scale_factor_bits,
                orientation: *orientation,
            },
            EmulationCommand::SetTouchEmulation { enabled, max_touch_points } => {
                CommandSpec::TouchEmulation {
                    enabled: *enabled,
                    max_touch_points: *max_touch_points,
                }
            },
        }
    }
}

impl DeepView for EmulationCommand {
    type V = CommandSpec;

    open spec fn deep_view(&self) -> CommandSpec {
        self.view()
    }
}

impl EmulationCommand {
    /// The remote protocol's method identifier for this command.
    pub fn method_id(&self) -> (r: &'static str)
        ensures
            r@ == self@.method_id(),
    {
        match self {
            EmulationCommand::SetUserAgent { .. } => "Emulation.setUserAgentOverride",
            EmulationCommand::SetHardwareConcurrency { .. } => {
                "Emulation.setHardwareConcurrencyOverride"
            },
            EmulationCommand::SetTimezone { .. } => "Emulation.setTimezoneOverride",
            EmulationCommand::SetGeolocation { .. } => "Emulation.setGeolocationOverride",
            EmulationCommand::SetDeviceMetrics { .. } => "Emulation.setDeviceMetricsOverride",
            EmulationCommand::SetTouchEmulation { .. } => "Emulation.setTouchEmulationEnabled",
        }
    }
}

/// An ordered sequence of emulation commands, bound to the timeout the
/// transport should use when executing the whole sequence.
#[derive(Debug)]
pub struct CommandChain {
    /// The commands, in the order the transport must execute them.
    pub commands: Vec<EmulationCommand>,
    /// The timeout for executing the sequence as a whole.
    pub timeout: Duration,
}

impl CommandChain {
    /// Packages `commands` with the transport `timeout`.
    pub fn new(commands: Vec<EmulationCommand>, timeout: Duration) -> (r: CommandChain)
        ensures
            r.commands == commands,
            r.timeout == timeout,
    {
        CommandChain { commands, timeout }
    }
}

} // verus!
