//! The emulation state tracker: turns an override snapshot into an ordered
//! command sequence and tracks whether a page reload is owed.

use vstd::prelude::*;
use std::time::Duration;

use crate::cmd::{CommandChain, CommandSpec, EmulationCommand, Orientation};
use crate::viewport::{GeolocationOverride, Viewport};
use crate::DEFAULT_DEVICE_SCALE_FACTOR_BITS;

verus! {

/// The mathematical value an [`EmulationOverrides`] stands for: strings are
/// sequences of characters, everything else is plain.
pub struct OverridesSpec {
    pub user_agent: Option<Seq<char>>,
    pub hardware_concurrency: Option<i64>,
    pub timezone: Option<Seq<char>>,
    pub geolocation: Option<GeolocationOverride>,
    pub viewport: Option<Viewport>,
}

/// The emulation properties a caller wants applied. Every field is optional;
/// an absent field leaves the corresponding property at its current value.
#[derive(Debug, Clone, Default)]
pub struct EmulationOverrides {
    /// Override of the browser's reported user agent.
    pub user_agent: Option<String>,
    /// Override of the reported logical CPU count.
    pub hardware_concurrency: Option<i64>,
    /// Override of the reported timezone identifier.
    pub timezone: Option<String>,
    /// Override of the reported geolocation.
    pub geolocation: Option<GeolocationOverride>,
    /// Override of the viewport and touch characteristics.
    pub viewport: Option<Viewport>,
}

impl View for EmulationOverrides {
    type V = OverridesSpec;

    open spec fn view(&self) -> OverridesSpec {
        OverridesSpec {
            user_agent: match self.user_agent {
                Option::Some(ua) => Option::Some(ua@),
                Option::None => Option::None,
            },
            hardware_concurrency: self.hardware_concurrency,
            timezone: match self.timezone {
                Option::Some(tz) => Option::Some(tz@),
                Option::None => Option::None,
            },
            geolocation: self.geolocation,
            viewport: self.viewport,
        }
    }
}

/// The device-metrics command a viewport gives rise to. Only meaningful when
/// the viewport is encodable, i.e. its dimensions fit the protocol's signed
/// 64-bit integers.
pub open spec fn device_metrics_command(v: Viewport) -> CommandSpec {
    CommandSpec::DeviceMetrics {
        width: v.width as i64,
        height: v.height as i64,
        mobile: v.emulating_mobile,
        device_scale_factor_bits: match v.device_scale_factor_bits {
            Option::Some(bits) => bits,
            Option::None => DEFAULT_DEVICE_SCALE_FACTOR_BITS,
        },
        orientation: Orientation::spec_for_landscape(v.is_landscape),
    }
}

/// The touch-emulation command a viewport gives rise to.
pub open spec fn touch_command(v: Viewport) -> CommandSpec {
    CommandSpec::TouchEmulation { enabled: v.has_touch, max_touch_points: v.max_touch_points }
}

impl OverridesSpec {
    /// Whether every field is absent, so that applying the overrides is a
    /// no-op.
    pub open spec fn all_absent(self) -> bool {
        &&& self.user_agent is None
        &&& self.hardware_concurrency is None
        &&& self.timezone is None
        &&& self.geolocation is None
        &&& self.viewport is None
    }

    /// Whether the viewport, if present, fits the protocol's numeric range.
    pub open spec fn encodable(self) -> bool {
        match self.viewport {
            Option::Some(v) => v.spec_encodable(),
            Option::None => true,
        }
    }

    /// The commands these overrides give rise to, in the fixed field order:
    /// user agent, hardware concurrency, timezone, geolocation, then — for a
    /// viewport — device metrics followed by touch emulation.
    pub open spec fn commands(self) -> Seq<CommandSpec> {
        (match self.user_agent {
            Option::Some(ua) => seq![CommandSpec::UserAgent { user_agent: ua }],
            Option::None => seq![],
        }) + (match self.hardware_concurrency {
            Option::Some(hc) => seq![CommandSpec::HardwareConcurrency { hardware_concurrency: hc }],
            Option::None => seq![],
        }) + (match self.timezone {
            Option::Some(tz) => seq![CommandSpec::Timezone { timezone_id: tz }],
            Option::None => seq![],
        }) + (match self.geolocation {
            Option::Some(g) => seq![
                CommandSpec::Geolocation {
                    latitude_bits: g.latitude_bits,
                    longitude_bits: g.longitude_bits,
                    accuracy_bits: g.accuracy_bits,
                },
            ],
            Option::None => seq![],
        }) + (match self.viewport {
            Option::Some(v) => seq![device_metrics_command(v), touch_command(v)],
            Option::None => seq![],
        })
    }
}

/// An override set whose only present field is `user_agent` gives rise to
/// exactly one command: the user-agent command, whatever the user agent is.
pub proof fn lemma_only_user_agent_commands(o: OverridesSpec)
    requires
        o.user_agent is Some,
        o.hardware_concurrency is None,
        o.timezone is None,
        o.geolocation is None,
        o.viewport is None,
    ensures
        o.commands() == seq![CommandSpec::UserAgent { user_agent: o.user_agent->0 }],
{
    assert(o.commands() =~= seq![CommandSpec::UserAgent { user_agent: o.user_agent->0 }]);
}

/// The emission order is fixed by field, not by which fields happen to be
/// present: along any command sequence an override set gives rise to, the
/// rank — user agent, hardware concurrency, timezone, geolocation, device
/// metrics, touch emulation — strictly increases. In particular, two present
/// fields always yield their commands in the same relative order, and device
/// metrics always precedes touch emulation.
pub proof fn lemma_command_order_fixed(o: OverridesSpec, i: int, j: int)
    requires
        0 <= i < j < o.commands().len(),
    ensures
        o.commands()[i].rank() < o.commands()[j].rank(),
{
}

/// An override set gives rise to no commands exactly when every field is
/// absent.
pub proof fn lemma_commands_empty_iff_all_absent(o: OverridesSpec)
    ensures
        o.commands().len() == 0 <==> o.all_absent(),
{
}

/// Why an apply call failed without emitting commands.
#[derive(Debug, Clone, Copy, PartialEq, Eq, Structural)]
pub enum EmulationError {
    /// The viewport's width or height does not fit the protocol's signed
    /// 64-bit integer encoding.
    DeviceMetricsOutOfRange,
}

/// Session-scoped tracker of the currently-applied emulation state.
///
/// `needs_reload` is sticky: it is recomputed only when a viewport override
/// is applied, and clearing it after a reload is the caller's job.
#[derive(Debug)]
pub struct EmulationManager {
    /// Last-known-applied mobile-emulation flag.
    pub emulating_mobile: bool,
    /// Last-known-applied touch flag.
    pub has_touch: bool,
    /// Whether the most recent viewport application changed the mobile or
    /// touch characteristics, so that a page reload is owed.
    pub needs_reload: bool,
    /// Timeout handed to the transport with each command sequence.
    pub request_timeout: Duration,
}

impl EmulationManager {
    /// A fresh tracker: nothing applied yet, no reload owed.
    pub fn new(request_timeout: Duration) -> (r: EmulationManager)
        ensures
            r.emulating_mobile == false,
            r.has_touch == false,
            r.needs_reload == false,
            r.request_timeout == request_timeout,
    {
        EmulationManager {
            emulating_mobile: false,
            has_touch: false,
            needs_reload: false,
            request_timeout,
        }
    }

    /// Turns an override snapshot into the ordered command sequence that
    /// applies it, updating the tracker's mobile/touch state and reload flag.
    ///
    /// Returns `Ok(None)` when every field is absent, `Ok(Some(chain))` with
    /// the commands in the fixed field order otherwise, and
    /// `Err(DeviceMetricsOutOfRange)` — mutating nothing — when a supplied
    /// viewport cannot be encoded.
    pub fn init_commands(&mut self, overrides: &EmulationOverrides) -> (r: Result<
        Option<CommandChain>,
        EmulationError,
    >)
        ensures
            final(self).request_timeout == old(self).request_timeout,
            overrides@.all_absent() ==> r == Result::<Option<CommandChain>, EmulationError>::Ok(
                Option::<CommandChain>::None,
            ) && *final(self) == *old(self),
            match r {
                Result::Ok(chain_opt) => {
                    &&& overrides@.encodable()
                    &&& match chain_opt {
                        Option::None => overrides@.all_absent() && *final(self) == *old(self),
                        Option::Some(chain) => {
                            &&& !overrides@.all_absent()
                            &&& chain.commands.deep_view() == overrides@.commands()
                            &&& chain.timeout == old(self).request_timeout
                        },
                    }
                    &&& match overrides.viewport {
                        Option::Some(v) => {
                            &&& final(self).emulating_mobile == v.emulating_mobile
                            &&& final(self).has_touch == v.has_touch
                            &&& final(self).needs_reload == (old(self).emulating_mobile
                                != v.emulating_mobile || old(self).has_touch != v.has_touch)
                        },
                        Option::None => {
                            &&& final(self).emulating_mobile == old(self).emulating_mobile
                            &&& final(self).has_touch == old(self).has_touch
                            &&& final(self).needs_reload == old(self).needs_reload
                        },
                    }
                },
                Result::Err(e) => {
                    &&& !overrides@.encodable()
                    &&& e == EmulationError::DeviceMetricsOutOfRange
                    &&& *final(self) == *old(self)
                },
            },
    {
        if let Option::Some(v) = &overrides.viewport {
            if !v.encodable() {
                return Result::Err(EmulationError::DeviceMetricsOutOfRange);
            }
        }
        let mut cmds: Vec<EmulationCommand> = Vec::new();
        if let Option::Some(user_agent) = &overrides.user_agent {
            cmds.push(EmulationCommand::SetUserAgent { user_agent: user_agent.clone() });
        }
        if let Option::Some(hardware_concurrency) = &overrides.hardware_concurrency {
            cmds.push(
                EmulationCommand::SetHardwareConcurrency {
                    hardware_concurrency: *hardware_concurrency,
                },
            );
        }
        if let Option::Some(timezone) = &overrides.timezone {
            cmds.push(EmulationCommand::SetTimezone { timezone_id: timezone.clone() });
        }
        if let Option::Some(geolocation) = &overrides.geolocation {
            cmds.push(
                EmulationCommand::SetGeolocation {
                    latitude_bits: geolocation.latitude_bits,
                    longitude_bits: geolocation.longitude_bits,
                    accuracy_bits: geolocation.accuracy_bits,
                },
            );
        }
        if let Option::Some(v) = &overrides.viewport {
            let orientation = Orientation::for_landscape(v.is_landscape);
            let scale_bits: u64 = match v.device_scale_factor_bits {
                Option::Some(bits) => bits,
                Option::None => DEFAULT_DEVICE_SCALE_FACTOR_BITS,
            };
            cmds.push(
                EmulationCommand::SetDeviceMetrics {
                    width: v.width as i64,
                    height: v.height as i64,
                    mobile: v.emulating_mobile,
                    device_scale_factor_bits: scale_bits,
                    orientation,
                },
            );
            cmds.push(
                EmulationCommand::SetTouchEmulation {
                    enabled: v.has_touch,
                    max_touch_points: v.max_touch_points,
                },
            );
            self.needs_reload = self.emulating_mobile != v.emulating_mobile || self.has_touch
                != v.has_touch;
            self.emulating_mobile = v.emulating_mobile;
            self.has_touch = v.has_touch;
        }
        proof {
            assert(cmds.deep_view() =~= overrides@.commands());
        }
        if cmds.len() == 0 {
            Result::Ok(Option::None)
        } else {
            Result::Ok(Option::Some(CommandChain::new(cmds, self.request_timeout)))
        }
    }
}

} // verus!
