//! The sync loop's decisions: when to run, which outputs to open and close, and
//! what each timer, command and reply changes.
//!
//! Times are nanoseconds on a clock that never goes back.
use crate::config::Config;
use crate::config::EntertainmentArea;
use crate::config::LightZone;
use crate::config::Scalar;
use crate::config::copy_zones;
use crate::runtime::PendingCommands;
use crate::runtime::PipelineState;
use crate::sampler::SamplerSetup;
use crate::sampler::WledPerimeterSampler;
use crate::sampler::perimeter_led_count;
use crate::settings::Gain;
use crate::settings::LiveSettings;
use crate::settings::SyncSwitches;
use crate::settings::start_wled;
use crate::text::decimal_text;
use crate::web::SharedState;
use vstd::prelude::*;

verus! {

/// A second, in nanoseconds.
pub const SECOND: u64 = 1_000_000_000;

/// How often systemd is told that the loop is alive.
pub const WATCHDOG_INTERVAL: u64 = 2_000_000_000;

/// How often the TV is asked whether it is on.
pub const POWER_INTERVAL: u64 = 2_000_000_000;

/// How often it is said that the TV does not answer.
pub const WARNING_INTERVAL: u64 = 30_000_000_000;

/// How often the bridge is asked whether it is still streaming.
pub const STATUS_INTERVAL: u64 = 5_000_000_000;

/// How often the capture hardware is tried while it is missing.
pub const PROBE_INTERVAL: u64 = 500_000_000;

/// The time from `since` to `now`, and zero if that is still to come.
pub open spec fn elapsed(now: u64, since: u64) -> int {
    if now >= since {
        now - since
    } else {
        0
    }
}

/// The time from `since` to `now`, and zero if that is still to come.
pub fn elapsed_since(now: u64, since: u64) -> (time: u64)
    ensures
        time == elapsed(now, since),
{
    if now >= since {
        now - since
    } else {
        0
    }
}

/// What is left of `interval` at `now`, if it began at `since`.
pub fn remaining(now: u64, since: u64, interval: u64) -> (time: u64)
    ensures
        time == (if elapsed(now, since) < interval {
            interval - elapsed(now, since)
        } else {
            0
        }),
{
    let time: u64 = elapsed_since(now, since);
    if time < interval {
        interval - time
    } else {
        0
    }
}

/// The TV's answer to whether it is on.
#[derive(Debug, Clone, Copy, PartialEq, Eq, Structural)]
pub enum PowerReading {
    /// It is on, or in standby.
    State(bool),
    /// It answered, but neither.
    Unknown,
    /// It did not answer.
    Failed,
}

/// The outputs that the configuration allows.
#[derive(Debug, Clone, Copy, PartialEq, Eq, Structural)]
pub struct Outputs {
    pub hue: bool,
    pub nanoleaf: bool,
    pub wled: bool,
}

/// The outputs with an open streaming session.
#[derive(Debug, Clone, Copy, PartialEq, Eq, Structural)]
pub struct Links {
    pub hue: bool,
    pub nanoleaf: bool,
    pub wled: bool,
}

/// The state of the sync loop.
#[derive(Debug, Clone, Copy)]
pub struct Daemon {
    pub outputs: Outputs,
    pub switches: SyncSwitches,
    pub links: Links,
    pub pipeline_state: PipelineState,
    pub auto_tv_power: bool,
    /// What the TV last said, as far as it is followed.
    pub observed_tv_power: Option<bool>,
    /// The brightness that Hue colours are scaled with.
    pub hue_gain: Gain,
    pub use_xy: bool,
    pub last_watchdog: u64,
    pub last_tv_power_poll: u64,
    pub last_tv_power_warning: u64,
    pub last_status_check: u64,
    pub last_hw_probe: u64,
}

/// The outputs that `config` allows.
pub open spec fn outputs_of(config: Config) -> Outputs {
    Outputs {
        hue: crate::config::uses_hue(config),
        nanoleaf: crate::config::uses_nanoleaf(config),
        wled: crate::config::uses_wled(config),
    }
}

/// The outputs that `config` wants on.
pub open spec fn switches_of(config: Config) -> SyncSwitches {
    SyncSwitches {
        hue: config.hue_sync_enabled,
        nanoleaf: config.nanoleaf_sync_enabled,
        wled: config.wled_sync_enabled,
    }
}

/// What is known of the TV at the start. It is not asked unless it is followed.
pub open spec fn power_at_start(auto_tv_power: bool, reading: PowerReading) -> Option<bool> {
    match reading {
        PowerReading::State(active) => if auto_tv_power {
            Some(active)
        } else {
            None
        },
        _ => None,
    }
}

/// What the bridge says of the selected area.
#[derive(Debug, Clone, Copy, PartialEq, Eq, Structural)]
pub struct StreamState {
    pub active: bool,
    pub smoothing_factor: Scalar,
}

/// What pausing calls for.
#[derive(Debug, Clone, Copy, PartialEq, Eq, Structural)]
pub struct PauseWork {
    /// Release the Hue area on the bridge.
    pub release_hue: bool,
    /// Send a black frame to the Nanoleaf strip.
    pub black_nanoleaf: bool,
    /// Send a black frame to the WLED strip.
    pub black_wled: bool,
}

/// What resuming calls for.
#[derive(Debug, Clone, Copy, PartialEq, Eq, Structural)]
pub struct ResumeWork {
    /// The loop runs again.
    pub resumed: bool,
    pub open_nanoleaf: bool,
    pub open_wled: bool,
}

/// How far opening a Nanoleaf session came.
#[derive(Debug, Clone, Copy, PartialEq, Eq, Structural)]
pub enum NanoleafOpening {
    Opened,
    /// The controller did not hand over its lights.
    ControlRefused,
    /// It did, but no session came of it.
    StreamFailed,
}

/// What a changed switch calls for.
#[derive(Debug, Clone, Copy, PartialEq, Eq, Structural)]
pub enum Switching {
    Nothing,
    /// Open a session.
    Open,
    /// The session is to be given up.
    Close,
}

/// What is to be done before the loop begins.
#[derive(Debug, Clone, Copy, PartialEq, Eq, Structural)]
pub struct StartPlan {
    /// Release the Hue area, because the TV sleeps.
    pub release_hue: bool,
    /// Find out the V2 configuration of the Hue area first.
    pub resolve_area: bool,
    pub open: Links,
}

/// The loop as it begins, once the sessions of its plan are open.
pub open spec fn started(config: Config, reading: PowerReading, now: u64) -> Daemon {
    let observed = power_at_start(config.auto_tv_power, reading);
    let run = observed != Some(false);
    Daemon {
        outputs: outputs_of(config),
        switches: switches_of(config),
        links: Links {
            hue: run && crate::config::uses_hue(config) && config.hue_sync_enabled,
            nanoleaf: run && crate::config::uses_nanoleaf(config) && config.nanoleaf_sync_enabled,
            wled: run && crate::config::uses_wled(config) && config.wled_sync_enabled,
        },
        pipeline_state: if run {
            PipelineState::Running
        } else {
            PipelineState::Paused
        },
        auto_tv_power: config.auto_tv_power,
        observed_tv_power: observed,
        hue_gain: Gain {
            multiplier: config.brightness_multiplier,
            trim: config.hue_output_brightness,
        },
        use_xy: config.use_xy_gamut,
        last_watchdog: now,
        last_tv_power_poll: (now - POWER_INTERVAL) as u64,
        last_tv_power_warning: (now - WARNING_INTERVAL) as u64,
        last_status_check: now,
        last_hw_probe: now,
    }
}

/// What the dashboard is to see of the TV's answer.
pub open spec fn power_step(reading: PowerReading) -> crate::status::StatusStep {
    crate::status::StatusStep::TvPower(
        match reading {
            PowerReading::State(active) => Some(active),
            _ => None,
        },
    )
}

/// What the dashboard is to see of a Nanoleaf session that was tried on resuming.
pub open spec fn nanoleaf_step(opening: NanoleafOpening) -> crate::status::StatusStep {
    match opening {
        NanoleafOpening::Opened => crate::status::StatusStep::NanoleafLink(true),
        NanoleafOpening::StreamFailed => crate::status::StatusStep::NanoleafLink(false),
        NanoleafOpening::ControlRefused => crate::status::StatusStep::Nothing,
    }
}

impl Daemon {
    /// No session is open for an output that is switched off, nor one for a
    /// perimeter strip that the configuration does not have.
    pub open spec fn wf(self) -> bool {
        &&& self.links.hue ==> self.switches.hue
        &&& self.links.nanoleaf ==> self.streams_nanoleaf()
        &&& self.links.wled ==> self.streams_wled()
    }

    /// Begins. The commands that wait at first come with the plan.
    pub fn start(config: &Config, reading: PowerReading, now: u64) -> (begun: (
        Self,
        StartPlan,
        PendingCommands,
    ))
        requires
            now >= WARNING_INTERVAL,
        ensures
            begun.0 == started(*config, reading, now),
            begun.0.wf(),
            begun.1.open == begun.0.links,
            begun.1.release_hue == (begun.0.pipeline_state == PipelineState::Paused
                && crate::config::uses_hue(*config)),
            begun.1.resolve_area == (crate::config::uses_hue(*config)
                && crate::config::v2_configuration(*config) is None),
            begun.2 == (PendingCommands {
                desired_running: if begun.0.pipeline_state == PipelineState::Running {
                    None
                } else {
                    Some(false)
                },
                ..crate::runtime::nothing_pending()
            }),
    {
        let outputs = Outputs {
            hue: config.hue_active(),
            nanoleaf: config.nanoleaf_active(),
            wled: config.wled_active(),
        };
        let observed_tv_power = if config.auto_tv_power {
            match reading {
                PowerReading::State(active) => Some(active),
                _ => None,
            }
        } else {
            None
        };
        let should_run = match observed_tv_power {
            Some(active) => active,
            None => true,
        };
        let links = Links {
            hue: outputs.hue && config.hue_sync_enabled && should_run,
            nanoleaf: outputs.nanoleaf && config.nanoleaf_sync_enabled && should_run,
            wled: outputs.wled && config.wled_sync_enabled && should_run,
        };
        let unresolved = config.hue_configuration_id().is_none();
        let plan = StartPlan {
            release_hue: !should_run && outputs.hue,
            resolve_area: outputs.hue && unresolved,
            open: links,
        };
        let daemon = Daemon {
            outputs,
            switches: SyncSwitches {
                hue: config.hue_sync_enabled,
                nanoleaf: config.nanoleaf_sync_enabled,
                wled: config.wled_sync_enabled,
            },
            links,
            pipeline_state: if should_run {
                PipelineState::Running
            } else {
                PipelineState::Paused
            },
            auto_tv_power: config.auto_tv_power,
            observed_tv_power,
            hue_gain: Gain {
                multiplier: config.brightness_multiplier,
                trim: config.hue_output_brightness,
            },
            use_xy: config.use_xy_gamut,
            last_watchdog: now,
            last_tv_power_poll: now - POWER_INTERVAL,
            last_tv_power_warning: now - WARNING_INTERVAL,
            last_status_check: now,
            last_hw_probe: now,
        };
        (daemon, plan, PendingCommands::at_start(should_run))
    }

    /// Whether to tell systemd that the loop is alive.
    pub fn watchdog_due(&mut self, now: u64) -> (due: bool)
        ensures
            due == (elapsed(now, old(self).last_watchdog) >= WATCHDOG_INTERVAL),
            *final(self) == (Daemon {
                last_watchdog: if due {
                    now
                } else {
                    old(self).last_watchdog
                },
                ..*old(self)
            }),
    {
        if elapsed_since(now, self.last_watchdog) >= WATCHDOG_INTERVAL {
            self.last_watchdog = now;
            true
        } else {
            false
        }
    }

    /// Whether the TV is to be asked now.
    pub open spec fn asks_tv(self, now: u64) -> bool {
        self.auto_tv_power && elapsed(now, self.last_tv_power_poll) >= POWER_INTERVAL
    }

    /// Whether to ask the TV now if it is on.
    pub fn power_poll_due(&mut self, now: u64) -> (due: bool)
        ensures
            due == old(self).asks_tv(now),
            *final(self) == (Daemon {
                last_tv_power_poll: if due {
                    now
                } else {
                    old(self).last_tv_power_poll
                },
                ..*old(self)
            }),
    {
        if self.auto_tv_power && elapsed_since(now, self.last_tv_power_poll) >= POWER_INTERVAL {
            self.last_tv_power_poll = now;
            true
        } else {
            false
        }
    }

    /// A loop that runs starts or stops when the TV's state changes. Before the
    /// first answer, only standby is a change.
    pub open spec fn tv_changes_run(self, active: bool) -> bool {
        match self.observed_tv_power {
            Some(previous) => previous != active,
            None => !active && self.pipeline_state == PipelineState::Running,
        }
    }

    /// The commands that wait after the TV's answer: a change asks to run or to
    /// stop.
    pub open spec fn requests_after(
        self,
        pending: PendingCommands,
        reading: PowerReading,
    ) -> PendingCommands {
        match reading {
            PowerReading::State(active) => if self.tv_changes_run(active) {
                PendingCommands { desired_running: Some(active), ..pending }
            } else {
                pending
            },
            _ => pending,
        }
    }

    /// The state after the TV's answer, and whether to warn that there was none.
    pub open spec fn after_reading(self, reading: PowerReading, now: u64) -> (Daemon, bool) {
        match reading {
            PowerReading::State(active) => (
                Daemon { observed_tv_power: Some(active), ..self },
                false,
            ),
            PowerReading::Unknown => (self, false),
            PowerReading::Failed => if elapsed(now, self.last_tv_power_warning)
                >= WARNING_INTERVAL {
                (Daemon { last_tv_power_warning: now, ..self }, true)
            } else {
                (self, false)
            },
        }
    }

    /// Takes in the TV's answer.
    fn take_reading(&mut self, shared: &mut SharedState, reading: PowerReading, now: u64) -> (warn:
        bool)
        ensures
            final(shared)@ == old(shared)@.after(power_step(reading)),
            (*final(self), warn) == old(self).after_reading(reading, now),
            *final(shared) == (SharedState {
                tv_power_state: crate::web::power_code(
                    match reading {
                        PowerReading::State(active) => Some(active),
                        _ => None,
                    },
                ),
                ..*old(shared)
            }),
    {
        match reading {
            PowerReading::State(active) => {
                shared.set_tv_power_state(Some(active));
                self.observed_tv_power = Some(active);
                false
            },
            PowerReading::Unknown => {
                shared.set_tv_power_state(None);
                false
            },
            PowerReading::Failed => {
                shared.set_tv_power_state(None);
                if elapsed_since(now, self.last_tv_power_warning) >= WARNING_INTERVAL {
                    self.last_tv_power_warning = now;
                    true
                } else {
                    false
                }
            },
        }
    }

    /// Takes in the TV's answer while the loop runs. The result says whether to
    /// warn that the TV does not answer.
    pub fn power_read(
        &mut self,
        shared: &mut SharedState,
        pending: &mut PendingCommands,
        reading: PowerReading,
        now: u64,
    ) -> (warn: bool)
        ensures
            final(shared)@ == old(shared)@.after(power_step(reading)),
            (*final(self), warn) == old(self).after_reading(reading, now),
            *final(shared) == (SharedState {
                tv_power_state: crate::web::power_code(
                    match reading {
                        PowerReading::State(active) => Some(active),
                        _ => None,
                    },
                ),
                ..*old(shared)
            }),
            *final(pending) == old(self).requests_after(*old(pending), reading),
    {
        if let PowerReading::State(active) = reading {
            let changed = match self.observed_tv_power {
                Some(previous) => previous != active,
                None => !active && self.pipeline_state == PipelineState::Running,
            };
            if changed {
                pending.desired_running = Some(active);
            }
        }
        self.take_reading(shared, reading, now)
    }

    /// Whether the TV's answer resumes a paused loop: it was asleep, and is not
    /// any more.
    pub open spec fn wakes(self, reading: PowerReading) -> bool {
        self.observed_tv_power == Some(false) && reading == PowerReading::State(true)
    }

    /// Whether the TV keeps the loop paused.
    pub open spec fn sleeps(self) -> bool {
        self.auto_tv_power && self.observed_tv_power == Some(false)
    }

    /// Takes in the TV's answer while the loop is paused. The result says
    /// whether the TV woke up, which resumes the loop, and whether to warn that
    /// it does not answer.
    pub fn power_read_paused(
        &mut self,
        shared: &mut SharedState,
        reading: PowerReading,
        now: u64,
    ) -> (outcome: (bool, bool))
        ensures
            final(shared)@ == old(shared)@.after(power_step(reading)),
            outcome.0 == old(self).wakes(reading),
            (*final(self), outcome.1) == old(self).after_reading(reading, now),
            *final(shared) == (SharedState {
                tv_power_state: crate::web::power_code(
                    match reading {
                        PowerReading::State(active) => Some(active),
                        _ => None,
                    },
                ),
                ..*old(shared)
            }),
    {
        let asleep = match self.observed_tv_power {
            Some(active) => !active,
            None => false,
        };
        let awake = match reading {
            PowerReading::State(active) => active,
            _ => false,
        };
        let warn = self.take_reading(shared, reading, now);
        (asleep && awake, warn)
    }

    /// The loop once it is known whether the TV is to be followed. A change
    /// makes it forget what the TV said, and ask at once.
    pub open spec fn following(self, wanted: bool, now: u64) -> Daemon {
        if self.auto_tv_power == wanted {
            self
        } else {
            Daemon {
                auto_tv_power: wanted,
                observed_tv_power: None,
                last_tv_power_poll: (now - POWER_INTERVAL) as u64,
                ..self
            }
        }
    }

    /// What the dashboard is to see once it is known whether the TV is to be
    /// followed.
    pub open spec fn follow_step(self, shared: SharedState) -> crate::status::StatusStep {
        if self.auto_tv_power == shared.current_settings.auto_tv_power {
            crate::status::StatusStep::Nothing
        } else {
            crate::status::StatusStep::TvPower(None)
        }
    }

    /// Takes over, while the loop is paused, whether the TV is to be followed.
    pub fn follow_setting(&mut self, shared: &mut SharedState, now: u64)
        requires
            now >= POWER_INTERVAL,
        ensures
            final(shared)@ == old(shared)@.after(old(self).follow_step(*old(shared))),
            *final(self) == old(self).following(old(shared).current_settings.auto_tv_power, now),
            *final(shared) == (if old(self).auto_tv_power
                == old(shared).current_settings.auto_tv_power {
                *old(shared)
            } else {
                SharedState { tv_power_state: crate::web::power_code(None), ..*old(shared) }
            }),
    {
        let wanted = shared.current_settings.auto_tv_power;
        if self.auto_tv_power != wanted {
            self.auto_tv_power = wanted;
            self.observed_tv_power = None;
            shared.set_tv_power_state(None);
            self.last_tv_power_poll = now - POWER_INTERVAL;
        }
    }

    /// The entertainment configuration to ask the bridge about: every few
    /// seconds, while Hue is being streamed to.
    pub fn status_check(&mut self, config: &Config, now: u64) -> (configuration: Option<String>)
        ensures
            ({
                let due = elapsed(now, old(self).last_status_check) >= STATUS_INTERVAL;
                &&& configuration == (if due && old(self).outputs.hue && old(self).switches.hue
                    && old(self).links.hue {
                    crate::config::v2_configuration(*config)
                } else {
                    None
                })
                &&& *final(self) == (Daemon {
                    last_status_check: if due {
                        now
                    } else {
                        old(self).last_status_check
                    },
                    ..*old(self)
                })
            }),
    {
        if elapsed_since(now, self.last_status_check) >= STATUS_INTERVAL {
            self.last_status_check = now;
            if self.outputs.hue && self.switches.hue && self.links.hue {
                return config.hue_configuration_id();
            }
        }
        None
    }

    /// Pauses the loop if the dashboard or the TV asked for it, or if somebody
    /// stopped the area with another app.
    pub fn pause(&mut self, shared: &mut SharedState, asked: bool, external_stop: bool) -> (work:
        Option<PauseWork>)
        ensures
            final(shared)@ == old(shared)@.after(if asked || external_stop {
                crate::status::StatusStep::Paused
            } else {
                crate::status::StatusStep::Nothing
            }),
            if asked || external_stop {
                &&& work == Some(old(self).pause_work(asked))
                &&& *final(self) == old(self).paused()
                &&& *final(shared) == (SharedState { is_syncing: false, ..*old(shared) })
            } else {
                &&& work is None
                &&& *final(self) == *old(self)
                &&& *final(shared) == *old(shared)
            },
    {
        if !asked && !external_stop {
            return None;
        }
        let asleep = match self.observed_tv_power {
            Some(active) => !active,
            None => false,
        };
        shared.is_syncing = false;
        self.pipeline_state = PipelineState::Paused;
        self.links.hue = false;
        Some(
            PauseWork {
                release_hue: (asked || (self.auto_tv_power && asleep)) && self.outputs.hue,
                black_nanoleaf: self.links.nanoleaf,
                black_wled: self.links.wled,
            },
        )
    }

    /// What pausing calls for. The area on the bridge is released if pausing was
    /// asked for or the TV sleeps; an area that somebody else stopped is theirs.
    pub open spec fn pause_work(self, asked: bool) -> PauseWork {
        PauseWork {
            release_hue: self.outputs.hue && (asked || self.sleeps()),
            black_nanoleaf: self.links.nanoleaf,
            black_wled: self.links.wled,
        }
    }

    /// The loop, paused: its Hue session is closed, the others wait.
    pub open spec fn paused(self) -> Daemon {
        Daemon {
            pipeline_state: PipelineState::Paused,
            links: Links { hue: false, ..self.links },
            ..self
        }
    }

    /// The entertainment configuration to ask the bridge about while paused, to
    /// notice that another app has started it. There is no need if the loop
    /// resumes anyway, and no use while the TV sleeps.
    pub fn reactivation_check(&self, config: &Config, start_requested: bool) -> (configuration:
        Option<String>)
        ensures
            configuration == (if !start_requested && self.outputs.hue && !self.sleeps() {
                crate::config::v2_configuration(*config)
            } else {
                None
            }),
    {
        let asleep = match self.observed_tv_power {
            Some(active) => !active,
            None => false,
        };
        if !start_requested && self.outputs.hue && !(self.auto_tv_power && asleep) {
            config.hue_configuration_id()
        } else {
            None
        }
    }

    /// What the dashboard is to see of a loop that was to resume.
    pub open spec fn resume_step(self, hue_opened: bool) -> crate::status::StatusStep {
        crate::status::StatusStep::Resumed {
            running: hue_opened || !self.streams_hue(),
            hue: if self.streams_hue() {
                Some(hue_opened)
            } else {
                None
            },
        }
    }

    /// Resumes the loop. Where Hue is configured and switched on, its session
    /// has been tried first, and the loop stays paused unless that opened.
    /// Nothing is opened for an output that is switched off.
    pub fn resume(&mut self, shared: &mut SharedState, hue_opened: bool) -> (work: ResumeWork)
        ensures
            final(shared)@ == old(shared)@.after(old(self).resume_step(hue_opened)),
            ({
                let resumed = hue_opened || !old(self).streams_hue();
                &&& work == (ResumeWork {
                    resumed,
                    open_nanoleaf: resumed && old(self).streams_nanoleaf(),
                    open_wled: resumed && old(self).streams_wled(),
                })
                &&& *final(self) == (if resumed {
                    Daemon {
                        pipeline_state: PipelineState::Running,
                        links: Links {
                            hue: old(self).links.hue || old(self).streams_hue(),
                            ..old(self).links
                        },
                        ..*old(self)
                    }
                } else {
                    *old(self)
                })
                &&& *final(shared) == (SharedState {
                    is_syncing: resumed,
                    hue_connected: if old(self).streams_hue() {
                        hue_opened
                    } else {
                        old(shared).hue_connected
                    },
                    ..*old(shared)
                })
            }),
            old(self).wf() ==> final(self).wf(),
    {
        if self.outputs.hue && self.switches.hue {
            shared.hue_connected = hue_opened;
            if !hue_opened {
                shared.is_syncing = false;
                return ResumeWork { resumed: false, open_nanoleaf: false, open_wled: false };
            }
            self.links.hue = true;
        }
        shared.is_syncing = true;
        self.pipeline_state = PipelineState::Running;
        ResumeWork {
            resumed: true,
            open_nanoleaf: self.outputs.nanoleaf && self.switches.nanoleaf,
            open_wled: self.outputs.wled && self.switches.wled,
        }
    }

    /// Takes in whether a Nanoleaf session opened on resuming. One that was
    /// open before is kept if not.
    pub fn nanoleaf_resumed(&mut self, shared: &mut SharedState, opening: NanoleafOpening)
        requires
            old(self).streams_nanoleaf(),
        ensures
            final(shared)@ == old(shared)@.after(nanoleaf_step(opening)),
            *final(self) == (Daemon {
                links: Links {
                    nanoleaf: old(self).links.nanoleaf || opening == NanoleafOpening::Opened,
                    ..old(self).links
                },
                ..*old(self)
            }),
            old(self).wf() ==> final(self).wf(),
            *final(shared) == (SharedState {
                nanoleaf_connected: match opening {
                    NanoleafOpening::Opened => true,
                    NanoleafOpening::StreamFailed => false,
                    NanoleafOpening::ControlRefused => old(shared).nanoleaf_connected,
                },
                ..*old(shared)
            }),
    {
        match opening {
            NanoleafOpening::Opened => {
                self.links.nanoleaf = true;
                shared.nanoleaf_connected = true;
            },
            NanoleafOpening::StreamFailed => {
                shared.nanoleaf_connected = false;
            },
            NanoleafOpening::ControlRefused => {},
        }
    }

    /// Takes in whether a WLED session opened on resuming. One that was open
    /// before is kept if not.
    pub fn wled_resumed(&mut self, shared: &mut SharedState, opened: bool)
        requires
            old(self).streams_wled(),
        ensures
            final(shared)@ == old(shared)@.after(crate::status::StatusStep::WledLink(opened)),
            *final(self) == (Daemon {
                links: Links { wled: old(self).links.wled || opened, ..old(self).links },
                ..*old(self)
            }),
            old(self).wf() ==> final(self).wf(),
            *final(shared) == (SharedState { wled_connected: opened, ..*old(shared) }),
    {
        if opened {
            self.links.wled = true;
        }
        shared.wled_connected = opened;
    }

    /// What a change of the Hue switch calls for. A switch that is turned on
    /// opens a session only while the loop runs.
    pub open spec fn hue_switching(self, on: bool) -> Switching {
        if self.switches.hue == on {
            Switching::Nothing
        } else if on && self.pipeline_state == PipelineState::Running {
            Switching::Open
        } else {
            Switching::Close
        }
    }

    /// What a change of the Nanoleaf switch calls for. Without a strip there is
    /// nothing to open.
    pub open spec fn nanoleaf_switching(self, on: bool) -> Switching {
        if self.switches.nanoleaf == on {
            Switching::Nothing
        } else if on && self.pipeline_state == PipelineState::Running {
            if self.outputs.nanoleaf {
                Switching::Open
            } else {
                Switching::Nothing
            }
        } else {
            Switching::Close
        }
    }

    /// What a change of the WLED switch calls for.
    pub open spec fn wled_switching(self, on: bool) -> Switching {
        if self.switches.wled == on {
            Switching::Nothing
        } else if on && self.outputs.wled && self.pipeline_state == PipelineState::Running {
            Switching::Open
        } else {
            Switching::Close
        }
    }

    /// The loop with its Hue switch set. If the session is to be closed, it counts
    /// as closed from here on.
    pub open spec fn hue_turned(self, on: bool) -> Daemon {
        Daemon {
            switches: SyncSwitches { hue: on, ..self.switches },
            links: Links {
                hue: self.links.hue && self.hue_switching(on) != Switching::Close,
                ..self.links
            },
            ..self
        }
    }

    /// The loop with its Nanoleaf switch set. If the session is to be closed, it
    /// counts as closed from here on.
    pub open spec fn nanoleaf_turned(self, on: bool) -> Daemon {
        Daemon {
            switches: SyncSwitches { nanoleaf: on, ..self.switches },
            links: Links {
                nanoleaf: self.links.nanoleaf && self.nanoleaf_switching(on) != Switching::Close,
                ..self.links
            },
            ..self
        }
    }

    /// The loop with its WLED switch set. If the session is to be closed, it
    /// counts as closed from here on.
    pub open spec fn wled_turned(self, on: bool) -> Daemon {
        Daemon {
            switches: SyncSwitches { wled: on, ..self.switches },
            links: Links {
                wled: self.links.wled && self.wled_switching(on) != Switching::Close,
                ..self.links
            },
            ..self
        }
    }

    /// Sets the Hue switch, and says what that calls for.
    pub fn turn_hue(&mut self, on: bool) -> (switching: Switching)
        ensures
            switching == old(self).hue_switching(on),
            *final(self) == old(self).hue_turned(on),
            old(self).wf() ==> final(self).wf(),
    {
        let switching = if self.switches.hue == on {
            Switching::Nothing
        } else if on && self.pipeline_state == PipelineState::Running {
            Switching::Open
        } else {
            Switching::Close
        };
        self.switches.hue = on;
        if switching == Switching::Close {
            self.links.hue = false;
        }
        switching
    }

    /// Sets the Nanoleaf switch, and says what that calls for.
    pub fn turn_nanoleaf(&mut self, on: bool) -> (switching: Switching)
        ensures
            switching == old(self).nanoleaf_switching(on),
            *final(self) == old(self).nanoleaf_turned(on),
            old(self).wf() ==> final(self).wf(),
    {
        let switching = if self.switches.nanoleaf == on {
            Switching::Nothing
        } else if on && self.pipeline_state == PipelineState::Running {
            if self.outputs.nanoleaf {
                Switching::Open
            } else {
                Switching::Nothing
            }
        } else {
            Switching::Close
        };
        self.switches.nanoleaf = on;
        if switching == Switching::Close {
            self.links.nanoleaf = false;
        }
        switching
    }

    /// Sets the WLED switch, and says what that calls for.
    pub fn turn_wled(&mut self, on: bool) -> (switching: Switching)
        ensures
            switching == old(self).wled_switching(on),
            *final(self) == old(self).wled_turned(on),
            old(self).wf() ==> final(self).wf(),
    {
        let switching = if self.switches.wled == on {
            Switching::Nothing
        } else if on && self.outputs.wled && self.pipeline_state == PipelineState::Running {
            Switching::Open
        } else {
            Switching::Close
        };
        self.switches.wled = on;
        if switching == Switching::Close {
            self.links.wled = false;
        }
        switching
    }

    /// The loop with new settings, before its switches are set.
    pub open spec fn with_settings(self, live: LiveSettings, now: u64) -> Daemon {
        Daemon {
            hue_gain: Gain {
                multiplier: live.brightness_multiplier,
                trim: live.hue_output_brightness,
            },
            use_xy: live.use_xy_gamut,
            ..self.following(live.auto_tv_power, now)
        }
    }

    /// Takes over new settings. The switches are set after that, one by one.
    pub fn apply_settings(
        &mut self,
        shared: &mut SharedState,
        config: &Config,
        live: &LiveSettings,
        now: u64,
    )
        requires
            now >= POWER_INTERVAL,
        ensures
            final(shared)@ == old(shared)@.after(
                crate::status::StatusEvent::ApplySettings.step(*config),
            ),
            *final(self) == old(self).with_settings(*live, now),
            old(self).wf() ==> final(self).wf(),
            final(shared).hue_zones@ == config.zones@,
            *final(shared) == (SharedState { hue_zones: final(shared).hue_zones, ..*old(shared) }),
    {
        if self.auto_tv_power != live.auto_tv_power {
            self.auto_tv_power = live.auto_tv_power;
            self.observed_tv_power = None;
            self.last_tv_power_poll = now - POWER_INTERVAL;
        }
        self.hue_gain = live.hue_gain();
        self.use_xy = live.use_xy_gamut;
        shared.hue_zones = copy_zones(&config.zones);
    }

    /// Takes in whether the Hue session opened that a switch called for. The
    /// switch goes back off if not.
    pub fn hue_switched(&mut self, shared: &mut SharedState, opened: bool)
        requires
            old(self).switches.hue,
        ensures
            final(shared)@ == old(shared)@.after(crate::status::StatusStep::HueLink(opened)),
            *final(self) == (Daemon {
                switches: SyncSwitches { hue: opened, ..old(self).switches },
                links: Links { hue: opened, ..old(self).links },
                ..*old(self)
            }),
            old(self).wf() ==> final(self).wf(),
            *final(shared) == (SharedState { hue_connected: opened, ..*old(shared) }),
    {
        self.links.hue = opened;
        self.switches.hue = opened;
        shared.hue_connected = opened;
    }

    /// Takes in whether the Nanoleaf session opened that a switch called for.
    /// The switch goes back off if not.
    pub fn nanoleaf_switched(&mut self, shared: &mut SharedState, opened: bool)
        requires
            old(self).streams_nanoleaf(),
        ensures
            final(shared)@ == old(shared)@.after(crate::status::StatusStep::NanoleafLink(opened)),
            *final(self) == (Daemon {
                switches: SyncSwitches { nanoleaf: opened, ..old(self).switches },
                links: Links { nanoleaf: opened, ..old(self).links },
                ..*old(self)
            }),
            old(self).wf() ==> final(self).wf(),
            *final(shared) == (SharedState { nanoleaf_connected: opened, ..*old(shared) }),
    {
        self.links.nanoleaf = opened;
        self.switches.nanoleaf = opened;
        shared.nanoleaf_connected = opened;
    }

    /// Takes in whether the WLED session opened that a switch called for. The
    /// switch goes back off if not.
    pub fn wled_switched(&mut self, shared: &mut SharedState, opened: bool)
        requires
            old(self).streams_wled(),
        ensures
            final(shared)@ == old(shared)@.after(crate::status::StatusStep::WledLink(opened)),
            *final(self) == (Daemon {
                switches: SyncSwitches { wled: opened, ..old(self).switches },
                links: Links { wled: opened, ..old(self).links },
                ..*old(self)
            }),
            old(self).wf() ==> final(self).wf(),
            *final(shared) == (SharedState { wled_connected: opened, ..*old(shared) }),
    {
        self.links.wled = opened;
        self.switches.wled = opened;
        shared.wled_connected = opened;
    }

    /// Takes in whether a Hue session opened for the area that was changed.
    pub fn hue_rebound(&mut self, shared: &mut SharedState, opened: bool)
        requires
            old(self).switches.hue,
        ensures
            final(shared)@ == old(shared)@.after(crate::status::StatusStep::HueLink(opened)),
            *final(self) == (Daemon {
                links: Links { hue: opened, ..old(self).links },
                ..*old(self)
            }),
            old(self).wf() ==> final(self).wf(),
            *final(shared) == (SharedState { hue_connected: opened, ..*old(shared) }),
    {
        self.links.hue = opened;
        shared.hue_connected = opened;
    }

    /// Whether to try the capture hardware, while the picture is a stand-in.
    pub fn probe_due(&mut self, real_hardware: bool, now: u64) -> (due: bool)
        ensures
            due == (!real_hardware && elapsed(now, old(self).last_hw_probe) >= PROBE_INTERVAL),
            *final(self) == (Daemon {
                last_hw_probe: if due {
                    now
                } else {
                    old(self).last_hw_probe
                },
                ..*old(self)
            }),
    {
        if !real_hardware && elapsed_since(now, self.last_hw_probe) >= PROBE_INTERVAL {
            self.last_hw_probe = now;
            true
        } else {
            false
        }
    }

    /// Takes in that the capture was made anew after it had failed.
    pub fn capture_recovered(&mut self, shared: &mut SharedState, real_hardware: bool, now: u64)
        ensures
            final(shared)@ == old(shared)@.after(crate::status::StatusStep::Capture(real_hardware)),
            *final(self) == (Daemon { last_hw_probe: now, ..*old(self) }),
            *final(shared) == (SharedState { capture_hardware: real_hardware, ..*old(shared) }),
    {
        shared.capture_hardware = real_hardware;
        self.last_hw_probe = now;
    }

    /// Whether colours go to Hue.
    pub open spec fn streams_hue(self) -> bool {
        self.outputs.hue && self.switches.hue
    }

    /// Whether colours go to the Nanoleaf strip.
    pub open spec fn streams_nanoleaf(self) -> bool {
        self.outputs.nanoleaf && self.switches.nanoleaf
    }

    /// Whether colours go to the WLED strip.
    pub open spec fn streams_wled(self) -> bool {
        self.outputs.wled && self.switches.wled
    }

    /// Whether a frame's colours are to be sampled for Hue and sent to it.
    pub fn sends_hue(&self) -> (yes: bool)
        ensures
            yes == (self.streams_hue() && self.links.hue),
    {
        self.outputs.hue && self.switches.hue && self.links.hue
    }

    /// Whether a frame's colours are to be sampled for the Nanoleaf strip and
    /// sent to it.
    pub fn sends_nanoleaf(&self) -> (yes: bool)
        ensures
            yes == (self.streams_nanoleaf() && self.links.nanoleaf),
    {
        self.outputs.nanoleaf && self.switches.nanoleaf && self.links.nanoleaf
    }

    /// Whether a frame's colours are to be sampled for the WLED strip and sent
    /// to it.
    pub fn sends_wled(&self) -> (yes: bool)
        ensures
            yes == (self.streams_wled() && self.links.wled),
    {
        self.outputs.wled && self.switches.wled && self.links.wled
    }

    /// Whether the perimeter strips have to look for scene cuts and letterbox
    /// bars themselves, because Hue does not.
    pub fn perimeter_only(&self) -> (yes: bool)
        ensures
            yes == (!self.streams_hue() && (self.streams_nanoleaf() || self.streams_wled())),
    {
        !(self.outputs.hue && self.switches.hue) && ((self.outputs.nanoleaf
            && self.switches.nanoleaf) || (self.outputs.wled && self.switches.wled))
    }
}

/// `shared` is what the dashboard is to see of a loop that has just begun.
pub open spec fn introduces(
    shared: SharedState,
    config: Config,
    daemon: Daemon,
    capture_hardware: bool,
    fps_x100: u32,
) -> bool {
    &&& shared.is_syncing == (daemon.pipeline_state == PipelineState::Running)
    &&& shared.fps_x100 == fps_x100
    &&& shared.light_updates_x100 == 0
    &&& shared.hue_bridge_ip == config.bridge_ip
    &&& shared.nanoleaf_ip@ == (match config.nanoleaf {
        Some(nanoleaf) => nanoleaf.ip@,
        None => Seq::<char>::empty(),
    })
    &&& shared.wled_ip@ == (match config.wled {
        Some(wled) => wled.ip@,
        None => Seq::<char>::empty(),
    })
    &&& shared.hue_connected == daemon.links.hue
    &&& shared.nanoleaf_connected == daemon.links.nanoleaf
    &&& shared.wled_connected == daemon.links.wled
    &&& shared.wled_led_count == (match config.wled {
        Some(wled) => crate::sampler::perimeter_leds(wled.led_count),
        None => 0,
    })
    &&& shared.capture_hardware == capture_hardware
    &&& shared.tv_power_state == crate::web::power_code(daemon.observed_tv_power)
    &&& shared.capture_resolution@ == crate::text::decimal(config.capture_width as nat) + "x"@
        + crate::text::decimal(config.capture_height as nat)
    &&& shared.current_settings == crate::settings::initial_settings(config, daemon.switches)
    &&& shared.live_hue_colors@.len() == 0
    &&& shared.live_nanoleaf_colors@.len() == 0
    &&& shared.live_wled_colors@.len() == 0
    &&& shared.hue_zones@ == config.zones@
    &&& shared.calibration_pattern is None
}

/// What the dashboard sees of a loop that has just begun.
pub fn introduce(config: &Config, daemon: &Daemon, capture_hardware: bool, fps_x100: u32) -> (shared:
    SharedState)
    ensures
        introduces(shared, *config, *daemon, capture_hardware, fps_x100),
{
    let nanoleaf_ip = match &config.nanoleaf {
        Some(nanoleaf) => nanoleaf.ip.clone(),
        None => String::new(),
    };
    let wled_ip = match &config.wled {
        Some(wled) => wled.ip.clone(),
        None => String::new(),
    };
    let wled_led_count: u16 = match &config.wled {
        Some(wled) => perimeter_led_count(wled.led_count),
        None => 0,
    };
    let mut resolution = decimal_text(config.capture_width);
    resolution.append("x");
    let height = decimal_text(config.capture_height);
    resolution.append(height.as_str());
    let mut shared = SharedState::new(
        LiveSettings::from_config(config, daemon.switches),
        config.bridge_ip.clone(),
        nanoleaf_ip,
        wled_ip,
        wled_led_count,
        resolution,
        copy_zones(&config.zones),
    );
    shared.is_syncing = daemon.pipeline_state == PipelineState::Running;
    shared.set_tv_power_state(daemon.observed_tv_power);
    shared.set_fps(fps_x100);
    shared.hue_connected = daemon.links.hue;
    shared.nanoleaf_connected = daemon.links.nanoleaf;
    shared.wled_connected = daemon.links.wled;
    shared.capture_hardware = capture_hardware;
    shared
}

/// What the Hue zone sampler is made with.
#[derive(Debug)]
pub struct ZoneSetup {
    pub zones: Vec<LightZone>,
    pub smoothing_factor: Scalar,
    pub hdr_tone_mapping: bool,
    pub letterbox_detection: bool,
    pub saturation_boost: Scalar,
    pub noise_gate_threshold: Scalar,
}

/// What to make the Hue zone sampler with at the start. Its smoothing factor is
/// 0.35 then, whatever is configured.
pub fn first_zone_setup(config: &Config) -> (setup: ZoneSetup)
    ensures
        setup.zones@ == config.zones@,
        setup.smoothing_factor.bits == 0x3eb3_3333,
        setup.hdr_tone_mapping == config.hdr_tone_mapping,
        setup.letterbox_detection == config.letterbox_detection,
        setup.saturation_boost == config.saturation_boost,
        setup.noise_gate_threshold == config.noise_gate_threshold,
{
    ZoneSetup {
        zones: copy_zones(&config.zones),
        smoothing_factor: Scalar { bits: 0x3eb3_3333 },
        hdr_tone_mapping: config.hdr_tone_mapping,
        letterbox_detection: config.letterbox_detection,
        saturation_boost: config.saturation_boost,
        noise_gate_threshold: config.noise_gate_threshold,
    }
}

/// What to make the Hue zone sampler with after the area was refreshed.
pub fn zone_setup(config: &Config, live: &LiveSettings) -> (setup: ZoneSetup)
    ensures
        setup.zones@ == config.zones@,
        setup.smoothing_factor == live.smoothing_factor,
        setup.hdr_tone_mapping == live.hdr_tone_mapping,
        setup.letterbox_detection == live.letterbox_detection,
        setup.saturation_boost == live.saturation_boost,
        setup.noise_gate_threshold == live.noise_gate_threshold,
{
    ZoneSetup {
        zones: copy_zones(&config.zones),
        smoothing_factor: live.smoothing_factor,
        hdr_tone_mapping: live.hdr_tone_mapping,
        letterbox_detection: live.letterbox_detection,
        saturation_boost: live.saturation_boost,
        noise_gate_threshold: live.noise_gate_threshold,
    }
}

fn copy_ids(ids: &[u16]) -> (copy: Vec<u16>)
    ensures
        copy@ == ids@,
{
    let mut copy: Vec<u16> = Vec::new();
    for i in 0..ids.len()
        invariant
            copy@ == ids@.take(i as int),
    {
        copy.push(ids[i]);
    }
    copy
}

/// What to make the Nanoleaf sampler with, where a strip is to be driven.
/// `brightness` is the strip's gain, multiplied out.
pub fn nanoleaf_setup(config: &Config, brightness: Scalar) -> (setup: Option<SamplerSetup>)
    ensures
        setup is Some <==> crate::config::uses_nanoleaf(*config),
        setup matches Some(made) ==> config.nanoleaf matches Some(strip) && {
            &&& made.segments == strip.segments
            &&& made.output_ids@ == strip.panel_ids@
            &&& made.hdr_tone_mapping == config.hdr_tone_mapping
            &&& made.saturation_boost == config.saturation_boost
            &&& made.noise_gate_threshold == config.noise_gate_threshold
            &&& made.brightness_multiplier == brightness
            &&& made.alignment == strip.alignment
        },
{
    if !config.nanoleaf_active() {
        return None;
    }
    match &config.nanoleaf {
        Some(strip) => Some(
            SamplerSetup {
                segments: strip.segments,
                output_ids: copy_ids(&strip.panel_ids),
                hdr_tone_mapping: config.hdr_tone_mapping,
                saturation_boost: config.saturation_boost,
                noise_gate_threshold: config.noise_gate_threshold,
                brightness_multiplier: brightness,
                alignment: strip.alignment,
            },
        ),
        None => None,
    }
}

/// The WLED strip and what to make its edge sampler with, where a strip is to
/// be driven. The sampler's first settings wait in the strip.
pub fn wled_setup(config: &Config, brightness: Scalar) -> (setup: Option<
    (WledPerimeterSampler, SamplerSetup),
>)
    ensures
        setup is Some <==> crate::config::uses_wled(*config),
        setup matches Some(made) ==> config.wled matches Some(strip) && {
            &&& made.0.wf()
            &&& made.0.leds() == crate::sampler::perimeter_leds(strip.led_count)
            &&& made.0.waiting() == crate::settings::start_settings(
                crate::settings::initial_settings(*config, switches_of(*config)),
            )
            &&& made.1.segments == made.0.leds()
            &&& made.1.output_ids@ == Seq::new(made.0.leds(), |i: int| i as u16)
            &&& made.1.hdr_tone_mapping == config.hdr_tone_mapping
            &&& made.1.saturation_boost == config.saturation_boost
            &&& made.1.noise_gate_threshold == config.noise_gate_threshold
            &&& made.1.brightness_multiplier == brightness
            &&& made.1.alignment == strip.alignment
        },
{
    if !config.wled_active() {
        return None;
    }
    match &config.wled {
        Some(strip) => {
            let (mut sampler, setup) = WledPerimeterSampler::new(
                strip.led_count,
                config.hdr_tone_mapping,
                config.saturation_boost,
                config.noise_gate_threshold,
                brightness,
                strip.alignment,
            );
            let switches = SyncSwitches {
                hue: config.hue_sync_enabled,
                nanoleaf: config.nanoleaf_sync_enabled,
                wled: config.wled_sync_enabled,
            };
            let settings = LiveSettings::from_config(config, switches);
            start_wled(&mut sampler, &settings);
            Some((sampler, setup))
        },
        None => None,
    }
}

/// What refreshing the selected area calls for.
#[derive(Debug, Clone, Copy, PartialEq, Eq, Structural)]
pub enum AreaRefresh {
    /// The area has no positions: everything stays as it is.
    Ignored,
    /// The zones may have moved; the session goes on.
    SameArea,
    /// The old area is to be released before, and a session to be opened for
    /// the new one after.
    OtherArea,
}

/// What adopting `area` calls for.
pub fn refresh_plan(config: &Config, area: &EntertainmentArea) -> (plan: AreaRefresh)
    ensures
        plan == (if area.zones@.len() == 0 {
            AreaRefresh::Ignored
        } else if config.entertainment_configuration_id matches Some(id) && id@
            == area.configuration_id@ {
            AreaRefresh::SameArea
        } else {
            AreaRefresh::OtherArea
        }),
{
    if area.zones.len() == 0 {
        return AreaRefresh::Ignored;
    }
    match &config.entertainment_configuration_id {
        Some(id) => if crate::text::same_text(id.as_str(), area.configuration_id.as_str()) {
            AreaRefresh::SameArea
        } else {
            AreaRefresh::OtherArea
        },
        None => AreaRefresh::OtherArea,
    }
}

/// Adopts the refreshed area, and shows its zones.
pub fn adopt_area(config: &mut Config, shared: &mut SharedState, area: EntertainmentArea)
    ensures
        final(shared)@ == old(shared)@.after(crate::status::StatusStep::Zones(area.zones@)),
        *final(config) == (Config {
            zones: area.zones,
            ..crate::config::with_area(*old(config), area)
        }),
        final(shared).hue_zones@ == area.zones@,
        *final(shared) == (SharedState { hue_zones: final(shared).hue_zones, ..*old(shared) }),
{
    config.select_area(area);
    shared.hue_zones = copy_zones(&config.zones);
}

/// Where the TV is not followed, it is never asked, and what it said before does
/// not keep the loop paused.
pub proof fn manual_mode_ignores_the_tv(daemon: Daemon, now: u64)
    requires
        !daemon.auto_tv_power,
    ensures
        !daemon.asks_tv(now),
        !daemon.sleeps(),
{
}

/// Where the TV is followed, a running loop stops when the TV goes to standby,
/// and the paused loop resumes when the TV wakes up again. A TV that stays as
/// it is changes nothing, and neither does one that does not answer.
pub proof fn loop_follows_the_tv(daemon: Daemon, now: u64, later: u64)
    requires
        daemon.pipeline_state == PipelineState::Running,
        daemon.observed_tv_power != Some(false),
    ensures
        daemon.tv_changes_run(false),
        daemon.observed_tv_power == Some(true) ==> !daemon.tv_changes_run(true),
        ({
            let asleep = daemon.after_reading(PowerReading::State(false), now).0.paused();
            &&& asleep.wakes(PowerReading::State(true))
            &&& !asleep.wakes(PowerReading::State(false))
            &&& !asleep.wakes(PowerReading::Unknown)
            &&& !asleep.wakes(PowerReading::Failed)
            &&& asleep.after_reading(PowerReading::Unknown, later).0.sleeps() == asleep.sleeps()
            &&& asleep.after_reading(PowerReading::Failed, later).0.sleeps() == asleep.sleeps()
            &&& !asleep.after_reading(PowerReading::State(true), later).0.tv_changes_run(true)
        }),
{
}

/// The outputs are switched independently: setting one switch leaves the switches
/// and the sessions of the others alone, and a switch that stays as it is changes
/// nothing.
pub proof fn outputs_are_switched_independently(daemon: Daemon, on: bool)
    ensures
        daemon.hue_turned(on) == (Daemon {
            switches: SyncSwitches { hue: on, ..daemon.switches },
            links: Links { hue: daemon.hue_turned(on).links.hue, ..daemon.links },
            ..daemon
        }),
        daemon.nanoleaf_turned(on) == (Daemon {
            switches: SyncSwitches { nanoleaf: on, ..daemon.switches },
            links: Links { nanoleaf: daemon.nanoleaf_turned(on).links.nanoleaf, ..daemon.links },
            ..daemon
        }),
        daemon.wled_turned(on) == (Daemon {
            switches: SyncSwitches { wled: on, ..daemon.switches },
            links: Links { wled: daemon.wled_turned(on).links.wled, ..daemon.links },
            ..daemon
        }),
        on == daemon.switches.hue ==> daemon.hue_switching(on) == Switching::Nothing
            && daemon.hue_turned(on) == daemon,
        on == daemon.switches.nanoleaf ==> daemon.nanoleaf_switching(on) == Switching::Nothing
            && daemon.nanoleaf_turned(on) == daemon,
        on == daemon.switches.wled ==> daemon.wled_switching(on) == Switching::Nothing
            && daemon.wled_turned(on) == daemon,
{
}

/// An output that is turned off has no session afterwards, and none is opened
/// for it.
pub proof fn an_output_turned_off_is_closed(daemon: Daemon)
    ensures
        daemon.switches.hue ==> daemon.hue_switching(false) == Switching::Close
            && !daemon.hue_turned(false).links.hue,
        daemon.switches.nanoleaf ==> daemon.nanoleaf_switching(false) == Switching::Close
            && !daemon.nanoleaf_turned(false).links.nanoleaf,
        daemon.switches.wled ==> daemon.wled_switching(false) == Switching::Close
            && !daemon.wled_turned(false).links.wled,
{
}

/// Pausing leaves no light on: whatever the other outputs are, a strip with an open
/// session is sent a black frame, and Hue's session is closed. The area is released
/// if somebody asked to stop or the TV that is followed sleeps; one that another app
/// stopped is left to that app. Nothing happens without a reason to stop, and a
/// pause changes nothing else.
pub proof fn pausing_leaves_no_light_on(
    daemon: &mut Daemon,
    shared: &mut SharedState,
    asked: bool,
    external_stop: bool,
    work: Option<PauseWork>,
)
    requires
        call_ensures(Daemon::pause, (daemon, shared, asked, external_stop), work),
    ensures
        work is Some <==> asked || external_stop,
        work matches Some(todo) ==> {
            let asleep = old(daemon).auto_tv_power && old(daemon).observed_tv_power == Some(false);
            &&& old(daemon).links.wled ==> todo.black_wled
            &&& old(daemon).links.nanoleaf ==> todo.black_nanoleaf
            &&& !old(daemon).links.wled ==> !todo.black_wled
            &&& !old(daemon).links.nanoleaf ==> !todo.black_nanoleaf
            &&& !old(daemon).outputs.hue ==> !todo.release_hue
            &&& old(daemon).outputs.hue && asked ==> todo.release_hue
            &&& old(daemon).outputs.hue && asleep ==> todo.release_hue
            &&& !asked && !asleep ==> !todo.release_hue
            &&& final(daemon).pipeline_state == PipelineState::Paused
            &&& !final(daemon).links.hue
            &&& final(daemon).links.nanoleaf == old(daemon).links.nanoleaf
            &&& final(daemon).links.wled == old(daemon).links.wled
            &&& !final(shared).is_syncing
        },
        work is None ==> *final(daemon) == *old(daemon) && *final(shared) == *old(shared),
        *final(daemon) == (Daemon {
            pipeline_state: final(daemon).pipeline_state,
            links: final(daemon).links,
            ..*old(daemon)
        }),
        *final(shared) == (SharedState { is_syncing: final(shared).is_syncing, ..*old(shared) }),
{
}

/// The loop begins paused, with nothing open, exactly if it follows a TV that
/// sleeps. Otherwise it runs, and opens a session for every output that is
/// configured and switched on, and for no other. The Hue area is released only
/// where the TV keeps the loop from running, and looked up where no whole
/// identifier is stored.
pub proof fn the_loop_begins_with_the_tv(
    config: &Config,
    reading: PowerReading,
    now: u64,
    begun: (Daemon, StartPlan, PendingCommands),
    hue: bool,
    nanoleaf: bool,
    wled: bool,
    id: Option<String>,
)
    requires
        call_ensures(Daemon::start, (config, reading, now), begun),
        now >= 30_000_000_000,
        call_ensures(Config::hue_active, (config,), hue),
        call_ensures(Config::nanoleaf_active, (config,), nanoleaf),
        call_ensures(Config::wled_active, (config,), wled),
        call_ensures(Config::hue_configuration_id, (config,), id),
    ensures
        ({
            let (daemon, plan, pending) = begun;
            let asleep = config.auto_tv_power && reading == PowerReading::State(false);
            &&& daemon.pipeline_state == PipelineState::Paused <==> asleep
            &&& daemon.pipeline_state == PipelineState::Running <==> !asleep
            &&& plan.open == daemon.links
            &&& daemon.links.hue <==> !asleep && hue && config.hue_sync_enabled
            &&& daemon.links.nanoleaf <==> !asleep && nanoleaf && config.nanoleaf_sync_enabled
            &&& daemon.links.wled <==> !asleep && wled && config.wled_sync_enabled
            &&& daemon.outputs.hue == hue
            &&& daemon.outputs.nanoleaf == nanoleaf
            &&& daemon.outputs.wled == wled
            &&& daemon.switches.hue == config.hue_sync_enabled
            &&& daemon.switches.nanoleaf == config.nanoleaf_sync_enabled
            &&& daemon.switches.wled == config.wled_sync_enabled
            &&& plan.release_hue <==> asleep && hue
            &&& plan.resolve_area <==> hue && id is None
            &&& daemon.auto_tv_power == config.auto_tv_power
            &&& !config.auto_tv_power ==> daemon.observed_tv_power is None
            &&& config.auto_tv_power ==> (reading matches PowerReading::State(active)
                ==> daemon.observed_tv_power == Some(active))
            &&& !(reading is State) ==> daemon.observed_tv_power is None
            &&& daemon.hue_gain.multiplier == config.brightness_multiplier
            &&& daemon.hue_gain.trim == config.hue_output_brightness
            &&& daemon.use_xy == config.use_xy_gamut
            &&& pending.desired_running == (if asleep {
                Some(false)
            } else {
                None
            })
            &&& pending.apply_settings is None
            &&& !pending.save_config && !pending.sync_bridge && !pending.reconfigure
            &&& !pending.restart
            &&& now - daemon.last_tv_power_poll == 2_000_000_000
            &&& now - daemon.last_tv_power_warning == 30_000_000_000
            &&& daemon.last_watchdog == now && daemon.last_status_check == now
            &&& daemon.last_hw_probe == now
        }),
{
}

/// Time does not run backwards, and an interval that began at some time is over
/// once as much time has passed.
pub proof fn intervals_run_out(now: u64, since: u64, interval: u64, time: u64, left: u64)
    requires
        call_ensures(elapsed_since, (now, since), time),
        call_ensures(remaining, (now, since, interval), left),
    ensures
        since <= now ==> since + time == now,
        now < since ==> time == 0,
        time < interval ==> time + left == interval,
        interval <= time ==> left == 0,
{
}

/// Each timer fires once its own interval has passed since it last did, and then
/// begins anew: two seconds for systemd and for a TV that is followed, half a
/// second for missing hardware. One that does not fire is left as it is, and so
/// are the others.
pub proof fn timers_fire_after_their_interval(
    watchdog: &mut Daemon,
    power: &mut Daemon,
    probe: &mut Daemon,
    hardware: bool,
    now: u64,
    alive: bool,
    ask: bool,
    attempt: bool,
)
    requires
        call_ensures(Daemon::watchdog_due, (watchdog, now), alive),
        call_ensures(Daemon::power_poll_due, (power, now), ask),
        call_ensures(Daemon::probe_due, (probe, hardware, now), attempt),
    ensures
        alive <==> now - old(watchdog).last_watchdog >= 2_000_000_000,
        ask <==> old(power).auto_tv_power && now - old(power).last_tv_power_poll >= 2_000_000_000,
        attempt <==> !hardware && now - old(probe).last_hw_probe >= 500_000_000,
        final(watchdog).last_watchdog == (if alive {
            now
        } else {
            old(watchdog).last_watchdog
        }),
        final(power).last_tv_power_poll == (if ask {
            now
        } else {
            old(power).last_tv_power_poll
        }),
        final(probe).last_hw_probe == (if attempt {
            now
        } else {
            old(probe).last_hw_probe
        }),
        *final(watchdog) == (Daemon {
            last_watchdog: final(watchdog).last_watchdog,
            ..*old(watchdog)
        }),
        *final(power) == (Daemon {
            last_tv_power_poll: final(power).last_tv_power_poll,
            ..*old(power)
        }),
        *final(probe) == (Daemon { last_hw_probe: final(probe).last_hw_probe, ..*old(probe) }),
{
}

/// The bridge is asked about the selected area every five seconds, while colours
/// go to Hue. A paused loop asks as well, but neither if it resumes anyway nor while
/// the TV that it follows sleeps.
pub proof fn the_bridge_is_asked_about_the_selected_area(
    daemon: &mut Daemon,
    config: &Config,
    now: u64,
    start_requested: bool,
    id: Option<String>,
    asked: Option<String>,
    asked_paused: Option<String>,
)
    requires
        call_ensures(Config::hue_configuration_id, (config,), id),
        call_ensures(Daemon::status_check, (daemon, config, now), asked),
        call_ensures(
            Daemon::reactivation_check,
            (old(daemon), config, start_requested),
            asked_paused,
        ),
    ensures
        asked is Some ==> asked == id,
        asked_paused is Some ==> asked_paused == id,
        asked is Some <==> id is Some && old(daemon).outputs.hue && old(daemon).switches.hue && old(
            daemon,
        ).links.hue && now - old(daemon).last_status_check >= 5_000_000_000,
        asked_paused is Some <==> id is Some && old(daemon).outputs.hue && !start_requested && !(
        old(daemon).auto_tv_power && old(daemon).observed_tv_power == Some(false)),
        *final(daemon) == (Daemon {
            last_status_check: if now - old(daemon).last_status_check >= 5_000_000_000 {
                now
            } else {
                old(daemon).last_status_check
            },
            ..*old(daemon)
        }),
{
}

/// A TV that falls asleep or wakes up asks the running loop to stop or to run; one
/// that stays as it was, or does not answer, asks for nothing. The dashboard sees
/// what the TV said, and a warning comes at most every thirty seconds.
pub proof fn a_running_loop_hears_the_tv(
    daemon: &mut Daemon,
    shared: &mut SharedState,
    pending: &mut PendingCommands,
    reading: PowerReading,
    now: u64,
    warn: bool,
)
    requires
        call_ensures(Daemon::power_read, (daemon, shared, pending, reading, now), warn),
    ensures
        reading matches PowerReading::State(active) ==> {
            let before = old(daemon).observed_tv_power;
            let running = old(daemon).pipeline_state == PipelineState::Running;
            let changed = before == Some(!active) || (before is None && !active && running);
            &&& final(daemon).observed_tv_power == Some(active)
            &&& changed ==> final(pending).desired_running == Some(active)
            &&& !changed ==> final(pending).desired_running == old(pending).desired_running
            &&& final(shared).tv_power_state == (if active {
                1u32
            } else {
                2u32
            })
            &&& !warn
        },
        !(reading is State) ==> {
            &&& final(daemon).observed_tv_power == old(daemon).observed_tv_power
            &&& final(pending).desired_running == old(pending).desired_running
            &&& final(shared).tv_power_state == 0
        },
        warn <==> reading is Failed && now - old(daemon).last_tv_power_warning >= 30_000_000_000,
        *final(daemon) == (Daemon {
            observed_tv_power: final(daemon).observed_tv_power,
            last_tv_power_warning: if warn {
                now
            } else {
                old(daemon).last_tv_power_warning
            },
            ..*old(daemon)
        }),
        *final(pending) == (PendingCommands {
            desired_running: final(pending).desired_running,
            ..*old(pending)
        }),
        *final(shared) == (SharedState {
            tv_power_state: final(shared).tv_power_state,
            ..*old(shared)
        }),
{
}

/// A paused loop resumes with the TV only when that was asleep and is not any more.
/// What the TV says is seen and remembered as by a running loop.
pub proof fn a_paused_loop_hears_the_tv(
    daemon: &mut Daemon,
    shared: &mut SharedState,
    reading: PowerReading,
    now: u64,
    outcome: (bool, bool),
    running: &mut Daemon,
    running_shared: &mut SharedState,
    pending: &mut PendingCommands,
    warn: bool,
)
    requires
        call_ensures(Daemon::power_read_paused, (daemon, shared, reading, now), outcome),
        call_ensures(
            Daemon::power_read,
            (running, running_shared, pending, reading, now),
            warn,
        ),
        *old(running) == *old(daemon),
        *old(running_shared) == *old(shared),
    ensures
        outcome.0 <==> old(daemon).observed_tv_power == Some(false) && reading
            == PowerReading::State(true),
        outcome.1 == warn,
        *final(daemon) == *final(running),
        *final(shared) == *final(running_shared),
{
}

/// A paused loop that is told to follow the TV, or not to any more, forgets what the
/// TV said and asks it at once; otherwise nothing changes.
pub proof fn following_the_tv_starts_afresh(
    daemon: &mut Daemon,
    shared: &mut SharedState,
    now: u64,
)
    requires
        call_ensures(Daemon::follow_setting, (daemon, shared, now), ()),
        now >= 2_000_000_000,
    ensures
        final(daemon).auto_tv_power == old(shared).current_settings.auto_tv_power,
        old(daemon).auto_tv_power == old(shared).current_settings.auto_tv_power ==> *final(daemon)
            == *old(daemon) && *final(shared) == *old(shared),
        old(daemon).auto_tv_power != old(shared).current_settings.auto_tv_power ==> {
            &&& final(daemon).observed_tv_power is None
            &&& now - final(daemon).last_tv_power_poll == 2_000_000_000
            &&& final(shared).tv_power_state == 0
        },
        *final(daemon) == (Daemon {
            auto_tv_power: final(daemon).auto_tv_power,
            observed_tv_power: final(daemon).observed_tv_power,
            last_tv_power_poll: final(daemon).last_tv_power_poll,
            ..*old(daemon)
        }),
        *final(shared) == (SharedState {
            tv_power_state: final(shared).tv_power_state,
            ..*old(shared)
        }),
{
}

/// A loop resumes unless Hue is configured and switched on and its session did not
/// open. It opens the strips that are configured and switched on, and no other, and
/// nothing at all if it stays paused.
pub proof fn resuming_waits_for_hue_only(
    daemon: &mut Daemon,
    shared: &mut SharedState,
    hue_opened: bool,
    work: ResumeWork,
)
    requires
        call_ensures(Daemon::resume, (daemon, shared, hue_opened), work),
    ensures
        ({
            let wanted = old(daemon).outputs.hue && old(daemon).switches.hue;
            &&& !work.resumed <==> wanted && !hue_opened
            &&& work.open_nanoleaf <==> work.resumed && old(daemon).outputs.nanoleaf && old(
                daemon,
            ).switches.nanoleaf
            &&& work.open_wled <==> work.resumed && old(daemon).outputs.wled && old(
                daemon,
            ).switches.wled
            &&& work.resumed ==> final(daemon).pipeline_state == PipelineState::Running
            &&& work.resumed && wanted ==> final(daemon).links.hue
            &&& !wanted ==> final(daemon).links.hue == old(daemon).links.hue
            &&& !work.resumed ==> *final(daemon) == *old(daemon)
            &&& final(daemon).links.nanoleaf == old(daemon).links.nanoleaf
            &&& final(daemon).links.wled == old(daemon).links.wled
            &&& final(shared).is_syncing == work.resumed
            &&& wanted ==> final(shared).hue_connected == hue_opened
            &&& !wanted ==> final(shared).hue_connected == old(shared).hue_connected
            &&& *final(daemon) == (Daemon {
                pipeline_state: final(daemon).pipeline_state,
                links: final(daemon).links,
                ..*old(daemon)
            })
            &&& *final(shared) == (SharedState {
                is_syncing: final(shared).is_syncing,
                hue_connected: final(shared).hue_connected,
                ..*old(shared)
            })
        }),
{
}

/// A strip whose session opened on resuming has one; where it did not, one that was
/// open before goes on. The dashboard sees how it went, except that a controller
/// that does not hand over its lights is shown as before.
pub proof fn resumed_strips_are_connected(
    nanoleaf: &mut Daemon,
    nanoleaf_shared: &mut SharedState,
    opening: NanoleafOpening,
    wled: &mut Daemon,
    wled_shared: &mut SharedState,
    opened: bool,
)
    requires
        call_ensures(Daemon::nanoleaf_resumed, (nanoleaf, nanoleaf_shared, opening), ()),
        call_ensures(Daemon::wled_resumed, (wled, wled_shared, opened), ()),
    ensures
        opening is Opened ==> final(nanoleaf).links.nanoleaf && final(nanoleaf_shared).nanoleaf_connected,
        opening is StreamFailed ==> !final(nanoleaf_shared).nanoleaf_connected,
        opening is ControlRefused ==> final(nanoleaf_shared).nanoleaf_connected == old(
            nanoleaf_shared,
        ).nanoleaf_connected,
        !(opening is Opened) ==> *final(nanoleaf) == *old(nanoleaf),
        opened ==> final(wled).links.wled,
        !opened ==> *final(wled) == *old(wled),
        final(wled_shared).wled_connected == opened,
        *final(nanoleaf) == (Daemon {
            links: Links { nanoleaf: final(nanoleaf).links.nanoleaf, ..old(nanoleaf).links },
            ..*old(nanoleaf)
        }),
        *final(wled) == (Daemon {
            links: Links { wled: final(wled).links.wled, ..old(wled).links },
            ..*old(wled)
        }),
        *final(nanoleaf_shared) == (SharedState {
            nanoleaf_connected: final(nanoleaf_shared).nanoleaf_connected,
            ..*old(nanoleaf_shared)
        }),
        *final(wled_shared) == (SharedState {
            wled_connected: final(wled_shared).wled_connected,
            ..*old(wled_shared)
        }),
{
}

/// A switch that is turned on opens a session exactly while the loop runs and the
/// strip is there; one that is turned off always closes it; one that stays as it is
/// does nothing. The switch is set in any case, and nothing else changes.
pub proof fn a_turned_switch_opens_or_closes(
    hue: &mut Daemon,
    nanoleaf: &mut Daemon,
    wled: &mut Daemon,
    on: bool,
    hue_work: Switching,
    nanoleaf_work: Switching,
    wled_work: Switching,
)
    requires
        call_ensures(Daemon::turn_hue, (hue, on), hue_work),
        call_ensures(Daemon::turn_nanoleaf, (nanoleaf, on), nanoleaf_work),
        call_ensures(Daemon::turn_wled, (wled, on), wled_work),
    ensures
        ({
            let running = old(hue).pipeline_state == PipelineState::Running;
            &&& hue_work is Open <==> on && !old(hue).switches.hue && running
            &&& old(hue).switches.hue == on ==> hue_work is Nothing
            &&& old(hue).switches.hue && !on ==> hue_work is Close
            &&& on && !old(hue).switches.hue && !running ==> hue_work is Close
            &&& hue_work is Close ==> !final(hue).links.hue
            &&& !(hue_work is Close) ==> final(hue).links.hue == old(hue).links.hue
        }),
        ({
            let running = old(nanoleaf).pipeline_state == PipelineState::Running;
            let there = old(nanoleaf).outputs.nanoleaf;
            &&& nanoleaf_work is Open <==> on && !old(nanoleaf).switches.nanoleaf && running
                && there
            &&& old(nanoleaf).switches.nanoleaf == on ==> nanoleaf_work is Nothing
            &&& old(nanoleaf).switches.nanoleaf && !on ==> nanoleaf_work is Close
            &&& on && !old(nanoleaf).switches.nanoleaf && !running ==> nanoleaf_work is Close
            &&& on && running && !there ==> nanoleaf_work is Nothing
            &&& nanoleaf_work is Close ==> !final(nanoleaf).links.nanoleaf
            &&& !(nanoleaf_work is Close) ==> final(nanoleaf).links.nanoleaf == old(
                nanoleaf,
            ).links.nanoleaf
        }),
        ({
            let running = old(wled).pipeline_state == PipelineState::Running;
            let there = old(wled).outputs.wled;
            &&& wled_work is Open <==> on && !old(wled).switches.wled && running && there
            &&& old(wled).switches.wled == on ==> wled_work is Nothing
            &&& old(wled).switches.wled && !on ==> wled_work is Close
            &&& on && !old(wled).switches.wled && !(running && there) ==> wled_work is Close
            &&& wled_work is Close ==> !final(wled).links.wled
            &&& !(wled_work is Close) ==> final(wled).links.wled == old(wled).links.wled
        }),
        *final(hue) == (Daemon {
            switches: SyncSwitches { hue: on, ..old(hue).switches },
            links: Links { hue: final(hue).links.hue, ..old(hue).links },
            ..*old(hue)
        }),
        *final(nanoleaf) == (Daemon {
            switches: SyncSwitches { nanoleaf: on, ..old(nanoleaf).switches },
            links: Links { nanoleaf: final(nanoleaf).links.nanoleaf, ..old(nanoleaf).links },
            ..*old(nanoleaf)
        }),
        *final(wled) == (Daemon {
            switches: SyncSwitches { wled: on, ..old(wled).switches },
            links: Links { wled: final(wled).links.wled, ..old(wled).links },
            ..*old(wled)
        }),
{
}

/// A session that a switch or a new area called for is there if it opened. A switch
/// whose session did not open goes back off; a rebound area leaves the switch on.
pub proof fn a_switch_without_a_session_goes_off(
    hue: &mut Daemon,
    nanoleaf: &mut Daemon,
    wled: &mut Daemon,
    rebound: &mut Daemon,
    hue_shared: &mut SharedState,
    nanoleaf_shared: &mut SharedState,
    wled_shared: &mut SharedState,
    rebound_shared: &mut SharedState,
    opened: bool,
)
    requires
        call_ensures(Daemon::hue_switched, (hue, hue_shared, opened), ()),
        call_ensures(Daemon::nanoleaf_switched, (nanoleaf, nanoleaf_shared, opened), ()),
        call_ensures(Daemon::wled_switched, (wled, wled_shared, opened), ()),
        call_ensures(Daemon::hue_rebound, (rebound, rebound_shared, opened), ()),
    ensures
        *final(hue) == (Daemon {
            switches: SyncSwitches { hue: opened, ..old(hue).switches },
            links: Links { hue: opened, ..old(hue).links },
            ..*old(hue)
        }),
        *final(nanoleaf) == (Daemon {
            switches: SyncSwitches { nanoleaf: opened, ..old(nanoleaf).switches },
            links: Links { nanoleaf: opened, ..old(nanoleaf).links },
            ..*old(nanoleaf)
        }),
        *final(wled) == (Daemon {
            switches: SyncSwitches { wled: opened, ..old(wled).switches },
            links: Links { wled: opened, ..old(wled).links },
            ..*old(wled)
        }),
        *final(rebound) == (Daemon {
            links: Links { hue: opened, ..old(rebound).links },
            ..*old(rebound)
        }),
        *final(hue_shared) == (SharedState { hue_connected: opened, ..*old(hue_shared) }),
        *final(nanoleaf_shared) == (SharedState {
            nanoleaf_connected: opened,
            ..*old(nanoleaf_shared)
        }),
        *final(wled_shared) == (SharedState { wled_connected: opened, ..*old(wled_shared) }),
        *final(rebound_shared) == (SharedState { hue_connected: opened, ..*old(rebound_shared) }),
{
}

/// New settings change how bright Hue is, how its colours are written, and whether
/// the TV is followed, which then starts afresh; no switch and no session changes
/// with them, and the dashboard shows the configured zones.
pub proof fn settings_change_no_session(
    daemon: &mut Daemon,
    shared: &mut SharedState,
    config: &Config,
    live: &LiveSettings,
    now: u64,
)
    requires
        call_ensures(Daemon::apply_settings, (daemon, shared, config, live, now), ()),
        now >= 2_000_000_000,
    ensures
        final(daemon).hue_gain.multiplier == live.brightness_multiplier,
        final(daemon).hue_gain.trim == live.hue_output_brightness,
        final(daemon).use_xy == live.use_xy_gamut,
        final(daemon).auto_tv_power == live.auto_tv_power,
        old(daemon).auto_tv_power == live.auto_tv_power ==> final(daemon).observed_tv_power == old(
            daemon,
        ).observed_tv_power && final(daemon).last_tv_power_poll == old(daemon).last_tv_power_poll,
        old(daemon).auto_tv_power != live.auto_tv_power ==> final(daemon).observed_tv_power is None
            && now - final(daemon).last_tv_power_poll == 2_000_000_000,
        *final(daemon) == (Daemon {
            hue_gain: final(daemon).hue_gain,
            use_xy: final(daemon).use_xy,
            auto_tv_power: final(daemon).auto_tv_power,
            observed_tv_power: final(daemon).observed_tv_power,
            last_tv_power_poll: final(daemon).last_tv_power_poll,
            ..*old(daemon)
        }),
        final(shared).hue_zones@ == config.zones@,
        *final(shared) == (SharedState { hue_zones: final(shared).hue_zones, ..*old(shared) }),
{
}

/// A frame goes to every output that is configured, switched on and has a session,
/// whatever the others are. The strips look for scene cuts themselves exactly where
/// one of them is driven and Hue is not.
pub proof fn frames_go_to_every_driven_output(
    daemon: &Daemon,
    hue: bool,
    nanoleaf: bool,
    wled: bool,
    alone: bool,
)
    requires
        call_ensures(Daemon::sends_hue, (daemon,), hue),
        call_ensures(Daemon::sends_nanoleaf, (daemon,), nanoleaf),
        call_ensures(Daemon::sends_wled, (daemon,), wled),
        call_ensures(Daemon::perimeter_only, (daemon,), alone),
    ensures
        hue <==> daemon.outputs.hue && daemon.switches.hue && daemon.links.hue,
        nanoleaf <==> daemon.outputs.nanoleaf && daemon.switches.nanoleaf && daemon.links.nanoleaf,
        wled <==> daemon.outputs.wled && daemon.switches.wled && daemon.links.wled,
        hue ==> !alone,
        nanoleaf && !(daemon.outputs.hue && daemon.switches.hue) ==> alone,
        wled && !(daemon.outputs.hue && daemon.switches.hue) ==> alone,
        alone ==> (daemon.outputs.nanoleaf && daemon.switches.nanoleaf) || (daemon.outputs.wled
            && daemon.switches.wled),
        alone ==> !(daemon.outputs.hue && daemon.switches.hue),
{
}

/// A capture that was made anew is shown as it is, and missing hardware is not
/// tried again at once.
pub proof fn a_recovered_capture_is_shown(
    daemon: &mut Daemon,
    shared: &mut SharedState,
    hardware: bool,
    now: u64,
)
    requires
        call_ensures(Daemon::capture_recovered, (daemon, shared, hardware, now), ()),
    ensures
        *final(daemon) == (Daemon { last_hw_probe: now, ..*old(daemon) }),
        *final(shared) == (SharedState { capture_hardware: hardware, ..*old(shared) }),
{
}

/// The dashboard begins with what runs: each output as it is connected, the TV as
/// it is known, the devices' addresses, the zones and the settings of the
/// configuration, and no colour and no pattern yet.
pub proof fn the_dashboard_begins_with_what_runs(
    config: &Config,
    daemon: &Daemon,
    capture_hardware: bool,
    fps_x100: u32,
    shared: SharedState,
    settings: LiveSettings,
    width: String,
    height: String,
)
    requires
        call_ensures(introduce, (config, daemon, capture_hardware, fps_x100), shared),
        call_ensures(decimal_text, (config.capture_width,), width),
        call_ensures(decimal_text, (config.capture_height,), height),
        call_ensures(LiveSettings::from_config, (config, daemon.switches), settings),
    ensures
        shared.is_syncing <==> daemon.pipeline_state == PipelineState::Running,
        shared.hue_connected == daemon.links.hue,
        shared.nanoleaf_connected == daemon.links.nanoleaf,
        shared.wled_connected == daemon.links.wled,
        shared.hue_bridge_ip@ == config.bridge_ip@,
        config.nanoleaf matches Some(strip) ==> shared.nanoleaf_ip@ == strip.ip@,
        config.nanoleaf is None ==> shared.nanoleaf_ip@.len() == 0,
        config.wled matches Some(strip) ==> shared.wled_ip@ == strip.ip@,
        config.wled is None ==> shared.wled_ip@.len() == 0,
        config.wled matches Some(strip) ==> (strip.led_count >= 4 ==> shared.wled_led_count
            == strip.led_count) && (strip.led_count < 4 ==> shared.wled_led_count == 4),
        config.wled is None ==> shared.wled_led_count == 0,
        daemon.observed_tv_power == Some(true) ==> shared.tv_power_state == 1,
        daemon.observed_tv_power == Some(false) ==> shared.tv_power_state == 2,
        daemon.observed_tv_power is None ==> shared.tv_power_state == 0,
        shared.capture_hardware == capture_hardware,
        shared.capture_resolution@ == width@ + seq!['x'] + height@,
        shared.fps_x100 == fps_x100,
        shared.light_updates_x100 == 0,
        shared.current_settings == settings,
        shared.hue_zones@ == config.zones@,
        shared.live_hue_colors@.len() == 0,
        shared.live_nanoleaf_colors@.len() == 0,
        shared.live_wled_colors@.len() == 0,
        shared.calibration_pattern is None,
{
    reveal_strlit("x");
    assert("x"@ =~= seq!['x']);
}

/// A zone sampler is made with the configured zones: at the start with the
/// configured tuning, later with the tuning that runs, each setting as itself.
pub proof fn zone_samplers_are_made_with_the_tuning(
    config: &Config,
    live: &LiveSettings,
    first: ZoneSetup,
    later: ZoneSetup,
)
    requires
        call_ensures(first_zone_setup, (config,), first),
        call_ensures(zone_setup, (config, live), later),
    ensures
        first.zones@ == config.zones@,
        later.zones@ == config.zones@,
        first.smoothing_factor.bits == 0x3eb3_3333,
        later.smoothing_factor == live.smoothing_factor,
        first.hdr_tone_mapping == config.hdr_tone_mapping,
        later.hdr_tone_mapping == live.hdr_tone_mapping,
        first.letterbox_detection == config.letterbox_detection,
        later.letterbox_detection == live.letterbox_detection,
        first.saturation_boost == config.saturation_boost,
        later.saturation_boost == live.saturation_boost,
        first.noise_gate_threshold == config.noise_gate_threshold,
        later.noise_gate_threshold == live.noise_gate_threshold,
{
}

/// A strip's sampler is made exactly where the strip is active: with its own LEDs
/// or panels, its own alignment and the common tuning. A WLED strip has four LEDs
/// at least, numbered from zero.
pub proof fn strip_samplers_are_made_for_active_strips(
    config: &Config,
    brightness: Scalar,
    nanoleaf: Option<SamplerSetup>,
    wled: Option<(WledPerimeterSampler, SamplerSetup)>,
    nanoleaf_active: bool,
    wled_active: bool,
)
    requires
        call_ensures(nanoleaf_setup, (config, brightness), nanoleaf),
        call_ensures(wled_setup, (config, brightness), wled),
        call_ensures(Config::nanoleaf_active, (config,), nanoleaf_active),
        call_ensures(Config::wled_active, (config,), wled_active),
    ensures
        nanoleaf is Some <==> nanoleaf_active,
        wled is Some <==> wled_active,
        nanoleaf matches Some(made) ==> config.nanoleaf matches Some(strip) && {
            &&& made.segments == strip.segments
            &&& made.output_ids@ == strip.panel_ids@
            &&& made.alignment == strip.alignment
            &&& made.brightness_multiplier == brightness
            &&& made.hdr_tone_mapping == config.hdr_tone_mapping
            &&& made.saturation_boost == config.saturation_boost
            &&& made.noise_gate_threshold == config.noise_gate_threshold
        },
        wled matches Some(made) ==> config.wled matches Some(strip) && {
            &&& made.1.segments >= 4
            &&& strip.led_count >= 4 ==> made.1.segments == strip.led_count
            &&& made.0.leds() == made.1.segments
            &&& made.1.output_ids@.len() == made.1.segments
            &&& forall|i: int| 0 <= i < made.1.segments ==> #[trigger] made.1.output_ids@[i] == i
            &&& made.1.alignment == strip.alignment
            &&& made.1.brightness_multiplier == brightness
            &&& made.1.hdr_tone_mapping == config.hdr_tone_mapping
            &&& made.1.saturation_boost == config.saturation_boost
            &&& made.1.noise_gate_threshold == config.noise_gate_threshold
        },
{
}

/// An area without zones is ignored. One with zones is adopted, and counts as
/// another area exactly if its identifier is not the stored one: once it is adopted,
/// it counts as the same.
pub proof fn an_adopted_area_is_the_same_area(
    config: &mut Config,
    shared: &mut SharedState,
    area: EntertainmentArea,
    before: AreaRefresh,
    after: AreaRefresh,
)
    requires
        call_ensures(refresh_plan, (old(config), &area), before),
        call_ensures(adopt_area, (config, shared, area), ()),
        call_ensures(refresh_plan, (final(config), &area), after),
    ensures
        before is Ignored <==> area.zones@.len() == 0,
        before is SameArea ==> (old(config).entertainment_configuration_id matches Some(id) && id@
            == area.configuration_id@),
        before is OtherArea ==> (old(config).entertainment_configuration_id matches Some(id) ==> id@
            != area.configuration_id@),
        area.zones@.len() > 0 ==> after is SameArea,
        final(config).zones@ == area.zones@,
        final(shared).hue_zones@ == area.zones@,
        *final(shared) == (SharedState { hue_zones: final(shared).hue_zones, ..*old(shared) }),
        final(config).hue_bridge_certificate_sha256 == Some(area.certificate_sha256),
        final(config).entertainment_area_id@ == area.configuration_id@,
        final(config).bridge_ip == old(config).bridge_ip,
        final(config).username == old(config).username,
        final(config).clientkey == old(config).clientkey,
        final(config).hue_enabled == old(config).hue_enabled,
        final(config).hue_sync_enabled == old(config).hue_sync_enabled,
        crate::config::same_beside_hue(*old(config), *final(config)),
{
}

/// A WLED strip is made with the settings of the configuration waiting for its sampler,
/// as they are told to a strip that has none waiting; a strip of fewer than four LEDs
/// has four.
pub proof fn a_wled_strip_begins_with_its_settings(
    config: &Config,
    brightness: Scalar,
    setup: Option<(WledPerimeterSampler, SamplerSetup)>,
    sampler: &mut WledPerimeterSampler,
    settings: LiveSettings,
    switches: SyncSwitches,
)
    requires
        call_ensures(wled_setup, (config, brightness), setup),
        switches.hue == config.hue_sync_enabled,
        switches.nanoleaf == config.nanoleaf_sync_enabled,
        switches.wled == config.wled_sync_enabled,
        call_ensures(LiveSettings::from_config, (config, switches), settings),
        old(sampler).waiting().len() == 0,
        call_ensures(start_wled, (sampler, &settings), ()),
    ensures
        setup matches Some(made) ==> made.0.waiting() == final(sampler).waiting(),
        setup matches Some(made) ==> (config.wled matches Some(strip) && (strip.led_count < 4
            ==> made.1.segments == 4)),
{
    assert(old(sampler).waiting() =~= Seq::<crate::sampler::SamplerSetting>::empty());
    if let Some(made) = setup {
        assert(made.0.waiting() =~= final(sampler).waiting());
    }
}

} // verus!
