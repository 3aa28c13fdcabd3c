//! The order in which the sync loop does its work.
//!
//! The loop is always at one task. Whoever drives it carries the task out and
//! says how it ended, which brings up the next one. A turn of the loop takes the
//! waiting commands first, then looks after the TV, the bridge and the settings,
//! and ends with one captured frame; a loop that is paused goes round among its
//! idle tasks instead.
use crate::color::RgbColor;
use crate::config::Config;
use crate::config::Scalar;
use crate::daemon::AreaRefresh;
use crate::daemon::Daemon;
use crate::daemon::NanoleafOpening;
use crate::daemon::PauseWork;
use crate::daemon::PowerReading;
use crate::daemon::ResumeWork;
use crate::daemon::StreamState;
use crate::daemon::Switching;
use crate::output::scene_cut;
use crate::output::send_outcome;
use crate::output::settle;
use crate::output::LightMeter;
use crate::output::PerimeterWatch;
use crate::output::SendOutcome;
use crate::output::Sending;
use crate::runtime::PendingCommands;
use crate::settings::LiveSettings;
use crate::settings::SyncSwitches;
use crate::web::ControlCommand;
use crate::web::SharedState;
use vstd::prelude::*;

verus! {

/// What the loop is at.
#[derive(Debug, Clone, Copy)]
pub enum Task {
    /// Collect the commands that have come in. Ended by `commands`, or by
    /// `shut_down`.
    Commands,
    /// Tell systemd that the loop is alive. Ended by `done`.
    Watchdog,
    /// Ask the TV whether it is on. Ended by `power`.
    Power,
    /// Ask the bridge about the area. Ended by `stream`.
    Stream { stop: bool },
    /// The loop is about to pause. Ended by `stop`.
    Stop { asked: bool, external: bool },
    /// Release the Hue area if that is called for, and close its session. Ended
    /// by `released`.
    Release(PauseWork),
    /// Send a black frame to each strip that has a session. Ended by `done`.
    Darken(PauseWork),
    /// Wait for a quarter of a second, tell systemd that the loop is alive and
    /// collect the commands that have come in. Ended by `commands`, or by
    /// `shut_down`.
    Idle,
    /// Ask the TV whether it is on. Ended by `idle_power`.
    IdlePower { start: bool },
    /// Ask the bridge about the area. Ended by `idle_stream`.
    IdleStream,
    /// The loop is about to run again, without Hue. Ended by `resume`.
    Resume,
    /// Open a Hue session. Ended by `resume_hue`.
    ResumeHue,
    /// Open a Nanoleaf session. Ended by `resume_nanoleaf`.
    ResumeNanoleaf { wled: bool },
    /// Open a WLED session. Ended by `resume_wled`.
    ResumeWled,
    /// New settings are about to be applied. Ended by `settings`.
    Settings(LiveSettings),
    /// Release the Hue area and close its session. Ended by `close_hue`.
    CloseHue(LiveSettings),
    /// Open a Hue session. Ended by `switch_hue`.
    SwitchHue(LiveSettings),
    /// Close the Nanoleaf session. Ended by `close_nanoleaf`.
    CloseNanoleaf(LiveSettings),
    /// Open a Nanoleaf session. Ended by `switch_nanoleaf`.
    SwitchNanoleaf(LiveSettings),
    /// Close the WLED session, after a black frame if there is one. Ended by
    /// `close_wled`.
    CloseWled { live: LiveSettings, black: bool },
    /// Open a WLED session. Ended by `switch_wled`.
    SwitchWled(LiveSettings),
    /// Tell the samplers about the settings. Ended by `done`.
    UpdateSamplers(LiveSettings),
    /// Save the settings. Ended by `done`.
    Save,
    /// Ask the bridge for the layout of the area. Ended by `area`.
    Area,
    /// Release the old area on the bridge. Ended by `done`.
    ReleaseArea,
    /// Adopt the area and sample its zones; `rebind` says that it is another one
    /// than before. Ended by `done`.
    AdoptArea { rebind: bool },
    /// Open a Hue session for the new area. Ended by `rebind_hue`.
    RebindHue,
    /// Save the area. Ended by `done`.
    StoreArea,
    /// Make the capture anew. Ended by `restarted`.
    Restart,
    /// See whether the source changed its frame rate. Ended by `done`.
    Rate,
    /// Try the capture hardware. Ended by `probed`.
    Probe,
    /// Capture a frame. Ended by `frame`.
    Capture,
    /// Average the frame, for the perimeter strips alone. Ended by `watched`.
    Watch,
    /// Sample the frame's zones and send their colours to Hue, if they are worth
    /// sending. Ended by `show_hue`.
    ShowHue { cut: bool },
    /// Open a new Hue session. Ended by `reopen_hue`.
    ReopenHue { cut: bool },
    /// Sample the frame's edges and send their colours to the Nanoleaf strip, if
    /// they are worth sending. Ended by `show_nanoleaf`.
    ShowNanoleaf { cut: bool, emitted: bool },
    /// Open a new Nanoleaf session. Ended by `reopen_nanoleaf`.
    ReopenNanoleaf { cut: bool, emitted: bool },
    /// Sample the frame's edges and send their colours to the WLED strip, if
    /// they are worth sending. Ended by `show_wled`.
    ShowWled { cut: bool, emitted: bool },
    /// Open a new WLED session. Ended by `reopen_wled`.
    ReopenWled { emitted: bool },
    /// Make the capture anew after it failed, with the strips dark meanwhile.
    /// Ended by `recovered`.
    Recover { black_nanoleaf: bool, black_wled: bool },
    /// Publish the rate of light updates, if it has been measured, and sleep
    /// until the next frame is due. Ended by `done`.
    Rest { measured: Option<(u32, u64)> },
    /// Leave the loop, and release the Hue area if there is one.
    End { release_hue: bool },
}

/// The sync loop.
#[derive(Debug, Clone, Copy)]
pub struct SyncLoop {
    pub daemon: Daemon,
    pub pending: PendingCommands,
    pub task: Task,
    pub loop_start: u64,
    pub watch: PerimeterWatch,
    pub meter: LightMeter,
}

impl SyncLoop {
    /// The loop at another task.
    pub open spec fn at(self, task: Task) -> SyncLoop {
        SyncLoop { task, ..self }
    }

    /// The loop with other commands waiting.
    pub open spec fn waiting(self, pending: PendingCommands) -> SyncLoop {
        SyncLoop { pending, ..self }
    }

    /// The loop with its daemon changed.
    pub open spec fn with_daemon(self, daemon: Daemon) -> SyncLoop {
        SyncLoop { daemon, ..self }
    }

    /// The loop is paused, and goes round among its idle tasks.
    pub open spec fn idling(self) -> bool {
        match self.task {
            Task::Release(_)
            | Task::Darken(_)
            | Task::Idle
            | Task::IdlePower { .. }
            | Task::IdleStream
            | Task::Resume
            | Task::ResumeHue => true,
            _ => false,
        }
    }

    /// How many tasks a turn still has before it, at most.
    pub open spec fn tasks_left(self) -> nat {
        match self.task {
            Task::Commands => 32,
            Task::Watchdog => 31,
            Task::Power => 30,
            Task::Stream { .. } => 29,
            Task::Stop { .. } => 28,
            Task::ResumeNanoleaf { .. } => 27,
            Task::ResumeWled => 26,
            Task::Settings(_) => 25,
            Task::CloseHue(_) | Task::SwitchHue(_) => 24,
            Task::CloseNanoleaf(_) | Task::SwitchNanoleaf(_) => 23,
            Task::CloseWled { .. } | Task::SwitchWled(_) => 22,
            Task::UpdateSamplers(_) => 21,
            Task::Save => 20,
            Task::Area => 19,
            Task::ReleaseArea => 18,
            Task::AdoptArea { .. } => 17,
            Task::RebindHue => 16,
            Task::StoreArea => 15,
            Task::Restart => 14,
            Task::Rate => 13,
            Task::Probe => 12,
            Task::Capture => 11,
            Task::Watch => 10,
            Task::ShowHue { .. } => 9,
            Task::ReopenHue { .. } => 8,
            Task::ShowNanoleaf { .. } => 7,
            Task::ReopenNanoleaf { .. } => 6,
            Task::ShowWled { .. } => 5,
            Task::ReopenWled { .. } => 4,
            Task::Recover { .. } => 3,
            Task::Rest { .. } => 2,
            _ => 1,
        }
    }

    /// What has been dealt with in this turn does not wait any more: first a
    /// request to run or to stop, then new settings, saving, refreshing the
    /// area, and the restarts.
    pub open spec fn dealt_with(self) -> bool {
        let left = self.tasks_left();
        &&& left <= 29 && !(self.task is End) ==> self.pending.desired_running is None
        &&& !self.idling() && !(self.task is End) ==> {
            &&& left <= 25 ==> self.pending.apply_settings is None
            &&& left <= 20 ==> !self.pending.save_config
            &&& left <= 19 ==> !self.pending.sync_bridge
            &&& left <= 14 ==> !self.pending.reconfigure && !self.pending.restart
        }
    }

    /// A session is opened only for an output that is switched on, and frames
    /// are sent only over sessions that are open. The loop idles only while it
    /// is paused and holds no Hue session, and what has been dealt with does not
    /// wait any more.
    pub open spec fn wf(self) -> bool {
        &&& self.daemon.wf()
        &&& self.dealt_with()
        &&& match self.task {
            Task::Release(_) | Task::Darken(_) | Task::Idle | Task::IdlePower { .. }
            | Task::IdleStream | Task::Resume | Task::ResumeHue => {
                &&& self.daemon.pipeline_state == crate::runtime::PipelineState::Paused
                &&& !self.daemon.links.hue
                &&& self.task is Resume ==> !self.daemon.streams_hue()
                &&& self.task is ResumeHue ==> self.daemon.streams_hue()
            },
            Task::ResumeNanoleaf { wled } => self.daemon.pipeline_state
                == crate::runtime::PipelineState::Running && self.daemon.streams_nanoleaf() && (wled
                ==> self.daemon.streams_wled()),
            Task::ResumeWled => self.daemon.pipeline_state
                == crate::runtime::PipelineState::Running && self.daemon.streams_wled(),
            Task::Stop { asked, external } => asked || external,
            Task::SwitchHue(_) => self.daemon.switches.hue,
            Task::SwitchNanoleaf(_) => self.daemon.streams_nanoleaf(),
            Task::SwitchWled(_) => self.daemon.streams_wled(),
            Task::RebindHue => self.daemon.switches.hue,
            Task::ShowHue { .. } | Task::ReopenHue { .. } => self.daemon.streams_hue()
                && self.daemon.links.hue,
            Task::ShowNanoleaf { .. } | Task::ReopenNanoleaf { .. } => self.daemon.links.nanoleaf,
            Task::ShowWled { .. } | Task::ReopenWled { .. } => self.daemon.links.wled,
            _ => true,
        }
    }

    /// On to the rest, once the turn's frame has been counted.
    pub open spec fn to_rest(self, emitted: bool, now: u64) -> SyncLoop {
        let time = crate::daemon::elapsed(now, self.meter.window);
        let count = self.meter.counted(emitted);
        if time >= crate::daemon::SECOND {
            SyncLoop {
                task: Task::Rest { measured: Some((count, time as u64)) },
                meter: LightMeter { updates: 0, window: now },
                ..self
            }
        } else {
            SyncLoop {
                task: Task::Rest { measured: None },
                meter: LightMeter { updates: count, ..self.meter },
                ..self
            }
        }
    }

    /// On with the frame for the WLED strip.
    pub open spec fn to_wled(self, cut: bool, emitted: bool, now: u64) -> SyncLoop {
        if self.daemon.streams_wled() && self.daemon.links.wled {
            self.at(Task::ShowWled { cut, emitted })
        } else {
            self.to_rest(emitted, now)
        }
    }

    /// On with the frame for the strips, Nanoleaf's first.
    pub open spec fn to_nanoleaf(self, cut: bool, emitted: bool, now: u64) -> SyncLoop {
        if self.daemon.streams_nanoleaf() && self.daemon.links.nanoleaf {
            self.at(Task::ShowNanoleaf { cut, emitted })
        } else {
            self.to_wled(cut, emitted, now)
        }
    }

    /// On with the frame for the lights, Hue's first.
    pub open spec fn to_hue(self, cut: bool, now: u64) -> SyncLoop {
        if self.daemon.streams_hue() && self.daemon.links.hue {
            self.at(Task::ShowHue { cut })
        } else {
            self.to_nanoleaf(cut, false, now)
        }
    }

    /// On to the capture; the hardware is tried first if it is missing.
    pub open spec fn to_capture(self, hardware: bool, now: u64) -> SyncLoop {
        if !hardware && crate::daemon::elapsed(now, self.daemon.last_hw_probe)
            >= crate::daemon::PROBE_INTERVAL {
            self.with_daemon(Daemon { last_hw_probe: now, ..self.daemon }).at(Task::Probe)
        } else {
            self.at(Task::Capture)
        }
    }

    /// On past a restart of the capture. The frame rate is looked at where it
    /// follows the source.
    pub open spec fn to_rate(self, fps: u32, hardware: bool, now: u64) -> SyncLoop {
        if fps == 0 {
            self.at(Task::Rate)
        } else {
            self.to_capture(hardware, now)
        }
    }

    /// On past the refreshed area: a reconfigured loop ends, and the capture is
    /// restarted if somebody asked for it.
    pub open spec fn to_restart(self, fps: u32, hardware: bool, now: u64) -> SyncLoop {
        if self.pending.reconfigure {
            self.waiting(PendingCommands { reconfigure: false, ..self.pending }).at(
                Task::End { release_hue: self.daemon.outputs.hue },
            )
        } else if self.pending.restart {
            self.waiting(PendingCommands { restart: false, ..self.pending }).at(Task::Restart)
        } else {
            self.to_rate(fps, hardware, now)
        }
    }

    /// On past the saved settings: the area is refreshed if somebody asked for
    /// it and there is one.
    pub open spec fn to_area(self, fps: u32, hardware: bool, now: u64) -> SyncLoop {
        let next = self.waiting(PendingCommands { sync_bridge: false, ..self.pending });
        if self.pending.sync_bridge && self.daemon.outputs.hue {
            next.at(Task::Area)
        } else {
            next.to_restart(fps, hardware, now)
        }
    }

    /// On past the applied settings: they are saved if somebody asked for it.
    pub open spec fn to_save(self, fps: u32, hardware: bool, now: u64) -> SyncLoop {
        let next = self.waiting(PendingCommands { save_config: false, ..self.pending });
        if self.pending.save_config {
            next.at(Task::Save)
        } else {
            next.to_area(fps, hardware, now)
        }
    }

    /// On past pausing: settings that wait are applied.
    pub open spec fn to_settings(self, fps: u32, hardware: bool, now: u64) -> SyncLoop {
        match self.pending.apply_settings {
            Some(live) => self.waiting(
                PendingCommands { apply_settings: None, ..self.pending },
            ).at(Task::Settings(live)),
            None => self.to_save(fps, hardware, now),
        }
    }

    /// On past the bridge's answer: the loop pauses if it is to stop.
    pub open spec fn to_stop(
        self,
        asked: bool,
        external: bool,
        fps: u32,
        hardware: bool,
        now: u64,
    ) -> SyncLoop {
        if asked || external {
            self.at(Task::Stop { asked, external })
        } else {
            self.to_settings(fps, hardware, now)
        }
    }

    /// On past the TV's answer: every few seconds the bridge is asked. A request
    /// to run or stop is dealt with here.
    pub open spec fn to_stream(self, config: Config, hardware: bool, now: u64) -> SyncLoop {
        let stop = self.pending.desired_running == Some(false);
        let due = crate::daemon::elapsed(now, self.daemon.last_status_check)
            >= crate::daemon::STATUS_INTERVAL;
        let next = self.waiting(
            PendingCommands { desired_running: None, ..self.pending },
        ).with_daemon(
            Daemon {
                last_status_check: if due {
                    now
                } else {
                    self.daemon.last_status_check
                },
                ..self.daemon
            },
        );
        if due && self.daemon.streams_hue() && self.daemon.links.hue
            && crate::config::v2_configuration(config) is Some {
            next.at(Task::Stream { stop })
        } else {
            next.to_stop(stop, false, config.fps, hardware, now)
        }
    }

    /// On past the watchdog: every few seconds the TV is asked.
    pub open spec fn to_power(self, config: Config, hardware: bool, now: u64) -> SyncLoop {
        if self.daemon.asks_tv(now) {
            self.with_daemon(Daemon { last_tv_power_poll: now, ..self.daemon }).at(Task::Power)
        } else {
            self.to_stream(config, hardware, now)
        }
    }

    /// On with a new turn: every few seconds systemd is told.
    pub open spec fn to_watchdog(self, config: Config, hardware: bool, now: u64) -> SyncLoop {
        let next = SyncLoop { loop_start: now, ..self };
        if crate::daemon::elapsed(now, self.daemon.last_watchdog)
            >= crate::daemon::WATCHDOG_INTERVAL {
            next.with_daemon(Daemon { last_watchdog: now, ..self.daemon }).at(Task::Watchdog)
        } else {
            next.to_power(config, hardware, now)
        }
    }

    /// On with resuming, where there is a reason to. Hue is waited for only if it
    /// is switched on.
    pub open spec fn to_resume(self, start: bool) -> SyncLoop {
        if !start {
            self.at(Task::Idle)
        } else if self.daemon.streams_hue() {
            self.at(Task::ResumeHue)
        } else {
            self.at(Task::Resume)
        }
    }

    /// On once nothing keeps the loop from running any more: sessions are opened
    /// for the strips that are switched on.
    pub open spec fn resumed(self, fps: u32, hardware: bool, now: u64) -> SyncLoop {
        let next = self.with_daemon(
            Daemon {
                pipeline_state: crate::runtime::PipelineState::Running,
                links: crate::daemon::Links {
                    hue: self.daemon.links.hue || self.daemon.streams_hue(),
                    ..self.daemon.links
                },
                ..self.daemon
            },
        );
        if self.daemon.streams_nanoleaf() {
            next.at(Task::ResumeNanoleaf { wled: self.daemon.streams_wled() })
        } else if self.daemon.streams_wled() {
            next.at(Task::ResumeWled)
        } else {
            next.to_settings(fps, hardware, now)
        }
    }

    /// On past the TV's answer while idle: the bridge is asked, unless the loop
    /// resumes anyway or the TV sleeps.
    pub open spec fn to_idle_stream(self, start: bool, config: Config) -> SyncLoop {
        if !start && self.daemon.outputs.hue && !self.daemon.sleeps()
            && crate::config::v2_configuration(config) is Some {
            self.at(Task::IdleStream)
        } else {
            self.to_resume(start)
        }
    }

    /// On with the switches of new settings, Hue's first.
    pub open spec fn to_switch_hue(self, live: LiveSettings) -> SyncLoop {
        let next = self.with_daemon(self.daemon.hue_turned(live.hue_sync_enabled));
        match self.daemon.hue_switching(live.hue_sync_enabled) {
            Switching::Open => next.at(Task::SwitchHue(live)),
            Switching::Close => next.at(Task::CloseHue(live)),
            Switching::Nothing => next.to_switch_nanoleaf(live),
        }
    }

    /// On with the switches of new settings, past Hue's.
    pub open spec fn to_switch_nanoleaf(self, live: LiveSettings) -> SyncLoop {
        let next = self.with_daemon(self.daemon.nanoleaf_turned(live.nanoleaf_sync_enabled));
        match self.daemon.nanoleaf_switching(live.nanoleaf_sync_enabled) {
            Switching::Open => next.at(Task::SwitchNanoleaf(live)),
            Switching::Close => next.at(Task::CloseNanoleaf(live)),
            Switching::Nothing => next.to_switch_wled(live),
        }
    }

    /// On with the switches of new settings, past Nanoleaf's.
    pub open spec fn to_switch_wled(self, live: LiveSettings) -> SyncLoop {
        let next = self.with_daemon(self.daemon.wled_turned(live.wled_sync_enabled));
        match self.daemon.wled_switching(live.wled_sync_enabled) {
            Switching::Open => next.at(Task::SwitchWled(live)),
            Switching::Close => next.at(Task::CloseWled { live, black: self.daemon.links.wled }),
            Switching::Nothing => next.at(Task::UpdateSamplers(live)),
        }
    }

    fn go_rest(&mut self, emitted: bool, now: u64)
        requires
            old(self).daemon.wf(),
            old(self).pending == crate::runtime::nothing_pending(),
        ensures
            *final(self) == old(self).to_rest(emitted, now),
            final(self).wf(),
            !final(self).idling(),
            final(self).tasks_left() <= 2,
    {
        let measured = self.meter.note(emitted, now);
        self.task = Task::Rest { measured };
    }

    fn go_wled(&mut self, cut: bool, emitted: bool, now: u64)
        requires
            old(self).daemon.wf(),
            old(self).pending == crate::runtime::nothing_pending(),
        ensures
            *final(self) == old(self).to_wled(cut, emitted, now),
            final(self).wf(),
            !final(self).idling(),
            final(self).tasks_left() <= 5,
    {
        if self.daemon.sends_wled() {
            self.task = Task::ShowWled { cut, emitted };
        } else {
            self.go_rest(emitted, now);
        }
    }

    fn go_nanoleaf(&mut self, cut: bool, emitted: bool, now: u64)
        requires
            old(self).daemon.wf(),
            old(self).pending == crate::runtime::nothing_pending(),
        ensures
            *final(self) == old(self).to_nanoleaf(cut, emitted, now),
            final(self).wf(),
            !final(self).idling(),
            final(self).tasks_left() <= 7,
    {
        if self.daemon.sends_nanoleaf() {
            self.task = Task::ShowNanoleaf { cut, emitted };
        } else {
            self.go_wled(cut, emitted, now);
        }
    }

    fn go_hue(&mut self, cut: bool, now: u64)
        requires
            old(self).daemon.wf(),
            old(self).pending == crate::runtime::nothing_pending(),
        ensures
            *final(self) == old(self).to_hue(cut, now),
            final(self).wf(),
            !final(self).idling(),
            final(self).tasks_left() <= 9,
    {
        if self.daemon.sends_hue() {
            self.task = Task::ShowHue { cut };
        } else {
            self.go_nanoleaf(cut, false, now);
        }
    }

    fn go_capture(&mut self, hardware: bool, now: u64)
        requires
            old(self).daemon.wf(),
            old(self).pending == crate::runtime::nothing_pending(),
        ensures
            *final(self) == old(self).to_capture(hardware, now),
            final(self).wf(),
            !final(self).idling(),
            final(self).tasks_left() <= 12,
    {
        self.task = if self.daemon.probe_due(hardware, now) {
            Task::Probe
        } else {
            Task::Capture
        };
    }

    fn go_rate(&mut self, fps: u32, hardware: bool, now: u64)
        requires
            old(self).daemon.wf(),
            old(self).pending == crate::runtime::nothing_pending(),
        ensures
            *final(self) == old(self).to_rate(fps, hardware, now),
            final(self).wf(),
            !final(self).idling(),
            final(self).tasks_left() <= 13,
    {
        if fps == 0 {
            self.task = Task::Rate;
        } else {
            self.go_capture(hardware, now);
        }
    }

    fn go_restart(&mut self, fps: u32, hardware: bool, now: u64)
        requires
            old(self).daemon.wf(),
            old(self).pending.desired_running is None,
            old(self).pending.apply_settings is None,
            !old(self).pending.save_config,
            !old(self).pending.sync_bridge,
        ensures
            *final(self) == old(self).to_restart(fps, hardware, now),
            final(self).wf(),
            !final(self).idling(),
            final(self).tasks_left() <= 14,
    {
        if self.pending.take_reconfigure() {
            self.task = Task::End { release_hue: self.daemon.outputs.hue };
        } else if self.pending.take_restart() {
            self.task = Task::Restart;
        } else {
            self.go_rate(fps, hardware, now);
        }
    }

    fn go_area(&mut self, fps: u32, hardware: bool, now: u64)
        requires
            old(self).daemon.wf(),
            old(self).pending.desired_running is None,
            old(self).pending.apply_settings is None,
            !old(self).pending.save_config,
        ensures
            *final(self) == old(self).to_area(fps, hardware, now),
            final(self).wf(),
            !final(self).idling(),
            final(self).tasks_left() <= 19,
    {
        if self.pending.take_sync_bridge() && self.daemon.outputs.hue {
            self.task = Task::Area;
        } else {
            self.go_restart(fps, hardware, now);
        }
    }

    fn go_save(&mut self, fps: u32, hardware: bool, now: u64)
        requires
            old(self).daemon.wf(),
            old(self).pending.desired_running is None,
            old(self).pending.apply_settings is None,
        ensures
            *final(self) == old(self).to_save(fps, hardware, now),
            final(self).wf(),
            !final(self).idling(),
            final(self).tasks_left() <= 20,
    {
        if self.pending.take_save_config() {
            self.task = Task::Save;
        } else {
            self.go_area(fps, hardware, now);
        }
    }

    fn go_settings(&mut self, fps: u32, hardware: bool, now: u64)
        requires
            old(self).daemon.wf(),
            old(self).pending.desired_running is None,
        ensures
            *final(self) == old(self).to_settings(fps, hardware, now),
            final(self).wf(),
            !final(self).idling(),
            final(self).tasks_left() <= 25,
    {
        match self.pending.take_settings() {
            Some(live) => {
                self.task = Task::Settings(live);
            },
            None => {
                self.go_save(fps, hardware, now);
            },
        }
    }

    fn go_stop(&mut self, asked: bool, external: bool, fps: u32, hardware: bool, now: u64)
        requires
            old(self).daemon.wf(),
            old(self).pending.desired_running is None,
        ensures
            *final(self) == old(self).to_stop(asked, external, fps, hardware, now),
            final(self).wf(),
            !final(self).idling(),
            final(self).tasks_left() <= 28,
    {
        if asked || external {
            self.task = Task::Stop { asked, external };
        } else {
            self.go_settings(fps, hardware, now);
        }
    }

    fn go_stream(&mut self, config: &Config, hardware: bool, now: u64)
        requires
            old(self).daemon.wf(),
        ensures
            *final(self) == old(self).to_stream(*config, hardware, now),
            final(self).wf(),
            !final(self).idling(),
            final(self).tasks_left() <= 29,
    {
        let stop = self.pending.take_request(false);
        let configuration = self.daemon.status_check(config, now);
        if configuration.is_some() {
            self.task = Task::Stream { stop };
        } else {
            self.go_stop(stop, false, config.fps, hardware, now);
        }
    }

    fn go_power(&mut self, config: &Config, hardware: bool, now: u64)
        requires
            old(self).daemon.wf(),
        ensures
            *final(self) == old(self).to_power(*config, hardware, now),
            final(self).wf(),
            !final(self).idling(),
            final(self).tasks_left() <= 30,
    {
        if self.daemon.power_poll_due(now) {
            self.task = Task::Power;
        } else {
            self.go_stream(config, hardware, now);
        }
    }

    fn go_watchdog(&mut self, config: &Config, hardware: bool, now: u64)
        requires
            old(self).daemon.wf(),
        ensures
            *final(self) == old(self).to_watchdog(*config, hardware, now),
            final(self).wf(),
            !final(self).idling(),
            final(self).tasks_left() <= 31,
    {
        self.loop_start = now;
        if self.daemon.watchdog_due(now) {
            self.task = Task::Watchdog;
        } else {
            self.go_power(config, hardware, now);
        }
    }

    fn go_resume(&mut self, start: bool)
        ensures
            *final(self) == old(self).to_resume(start),
    {
        self.task = if !start {
            Task::Idle
        } else if self.daemon.outputs.hue && self.daemon.switches.hue {
            Task::ResumeHue
        } else {
            Task::Resume
        };
    }

    fn go_idle_stream(&mut self, start: bool, config: &Config)
        ensures
            *final(self) == old(self).to_idle_stream(start, *config),
    {
        if self.daemon.reactivation_check(config, start).is_some() {
            self.task = Task::IdleStream;
        } else {
            self.go_resume(start);
        }
    }

    fn go_strips(&mut self, work: ResumeWork, fps: u32, hardware: bool, now: u64)
        requires
            old(self).daemon.wf(),
            old(self).daemon.pipeline_state == crate::runtime::PipelineState::Running,
            old(self).pending.desired_running is None,
            work.open_nanoleaf ==> old(self).daemon.streams_nanoleaf(),
            work.open_wled ==> old(self).daemon.streams_wled(),
        ensures
            *final(self) == (if work.open_nanoleaf {
                old(self).at(Task::ResumeNanoleaf { wled: work.open_wled })
            } else if work.open_wled {
                old(self).at(Task::ResumeWled)
            } else {
                old(self).to_settings(fps, hardware, now)
            }),
            final(self).wf(),
            !final(self).idling(),
            final(self).tasks_left() <= 27,
    {
        if work.open_nanoleaf {
            self.task = Task::ResumeNanoleaf { wled: work.open_wled };
        } else if work.open_wled {
            self.task = Task::ResumeWled;
        } else {
            self.go_settings(fps, hardware, now);
        }
    }

    fn go_switch_hue(&mut self, live: LiveSettings)
        requires
            old(self).daemon.wf(),
            old(self).pending.desired_running is None,
            old(self).pending.apply_settings is None,
        ensures
            *final(self) == old(self).to_switch_hue(live),
            final(self).wf(),
            !final(self).idling(),
            final(self).tasks_left() <= 24,
    {
        match self.daemon.turn_hue(live.hue_sync_enabled) {
            Switching::Open => {
                self.task = Task::SwitchHue(live);
            },
            Switching::Close => {
                self.task = Task::CloseHue(live);
            },
            Switching::Nothing => {
                self.go_switch_nanoleaf(live);
            },
        }
    }

    fn go_switch_nanoleaf(&mut self, live: LiveSettings)
        requires
            old(self).daemon.wf(),
            old(self).pending.desired_running is None,
            old(self).pending.apply_settings is None,
        ensures
            *final(self) == old(self).to_switch_nanoleaf(live),
            final(self).wf(),
            !final(self).idling(),
            final(self).tasks_left() <= 23,
    {
        match self.daemon.turn_nanoleaf(live.nanoleaf_sync_enabled) {
            Switching::Open => {
                self.task = Task::SwitchNanoleaf(live);
            },
            Switching::Close => {
                self.task = Task::CloseNanoleaf(live);
            },
            Switching::Nothing => {
                self.go_switch_wled(live);
            },
        }
    }

    fn go_switch_wled(&mut self, live: LiveSettings)
        requires
            old(self).daemon.wf(),
            old(self).pending.desired_running is None,
            old(self).pending.apply_settings is None,
        ensures
            *final(self) == old(self).to_switch_wled(live),
            final(self).wf(),
            !final(self).idling(),
            final(self).tasks_left() <= 22,
    {
        let black = self.daemon.links.wled;
        match self.daemon.turn_wled(live.wled_sync_enabled) {
            Switching::Open => {
                self.task = Task::SwitchWled(live);
            },
            Switching::Close => {
                self.task = Task::CloseWled { live, black };
            },
            Switching::Nothing => {
                self.task = Task::UpdateSamplers(live);
            },
        }
    }

    /// The loop before its first turn.
    pub fn new(daemon: Daemon, pending: PendingCommands, now: u64) -> (made: Self)
        requires
            daemon.wf(),
        ensures
            made.wf(),
            made.daemon == daemon,
            made.pending == pending,
            made.task == Task::Commands,
            made.loop_start == now,
            made.watch == (PerimeterWatch { frame_count: 0, global: crate::color::black() }),
            made.meter == (LightMeter { updates: 0, window: now }),
    {
        SyncLoop {
            daemon,
            pending,
            task: Task::Commands,
            loop_start: now,
            watch: PerimeterWatch::new(),
            meter: LightMeter::new(now),
        }
    }

    /// The loop after the commands of `Commands` or `Idle` were collected.
    pub open spec fn after_commands(
        self,
        config: Config,
        shared: SharedState,
        commands: Seq<ControlCommand>,
        now: u64,
    ) -> SyncLoop {
        let next = self.waiting(crate::runtime::received(self.pending, commands));
        if self.task is Idle {
            let followed = next.with_daemon(
                self.daemon.following(shared.current_settings.auto_tv_power, now),
            );
            let start = next.pending.desired_running == Some(true);
            let ready = followed.waiting(
                PendingCommands { desired_running: None, ..next.pending },
            );
            if ready.daemon.asks_tv(now) {
                ready.with_daemon(
                    Daemon { last_tv_power_poll: now, ..ready.daemon },
                ).at(Task::IdlePower { start })
            } else {
                ready.to_idle_stream(start, config)
            }
        } else {
            next.to_watchdog(config, shared.capture_hardware, now)
        }
    }

    /// Takes in the commands of `Commands` or `Idle`, oldest first.
    pub fn commands(
        &mut self,
        config: &Config,
        shared: &mut SharedState,
        commands: &[ControlCommand],
        now: u64,
    )
        requires
            old(self).wf(),
            old(self).task is Commands || old(self).task is Idle,
            now >= crate::daemon::POWER_INTERVAL,
        ensures
            final(shared)@ == old(shared)@.after(if old(self).task is Idle {
                old(self).daemon.follow_step(*old(shared))
            } else {
                crate::status::StatusStep::Nothing
            }),
            final(self).wf(),
            final(self).idling() == old(self).task is Idle,
            old(self).task is Commands ==> final(self).tasks_left() < old(self).tasks_left(),
            *final(self) == old(self).after_commands(*config, *old(shared), commands@, now),
            *final(shared) == (if old(self).task is Idle && old(self).daemon.auto_tv_power != old(
                shared,
            ).current_settings.auto_tv_power {
                SharedState { tv_power_state: crate::web::power_code(None), ..*old(shared) }
            } else {
                *old(shared)
            }),
    {
        self.pending.receive(commands);
        let idle = match self.task {
            Task::Idle => true,
            _ => false,
        };
        if idle {
            self.daemon.follow_setting(shared, now);
            let start = self.pending.take_request(true);
            if self.daemon.power_poll_due(now) {
                self.task = Task::IdlePower { start };
            } else {
                self.go_idle_stream(start, config);
            }
        } else {
            self.go_watchdog(config, shared.capture_hardware, now);
        }
    }

    /// The loop after it was told to shut down at `Commands` or `Idle`. An idle
    /// loop finishes its turn first.
    pub open spec fn after_shut_down(self, config: Config, shared: SharedState, now: u64) -> SyncLoop {
        if self.task is Idle {
            self.to_settings(config.fps, shared.capture_hardware, now)
        } else {
            self.at(Task::End { release_hue: self.daemon.outputs.hue })
        }
    }

    /// Takes in that the program is to end.
    pub fn shut_down(&mut self, config: &Config, shared: &SharedState, now: u64)
        requires
            old(self).wf(),
            old(self).task is Commands || old(self).task is Idle,
        ensures
            final(self).wf(),
            !final(self).idling(),
            *final(self) == old(self).after_shut_down(*config, *shared, now),
    {
        let idle = match self.task {
            Task::Idle => true,
            _ => false,
        };
        if idle {
            self.go_settings(config.fps, shared.capture_hardware, now);
        } else {
            self.task = Task::End { release_hue: self.daemon.outputs.hue };
        }
    }

    /// The loop after the TV's answer at `Power`.
    pub open spec fn after_power(
        self,
        config: Config,
        hardware: bool,
        reading: PowerReading,
        now: u64,
    ) -> SyncLoop {
        self.with_daemon(self.daemon.after_reading(reading, now).0).waiting(
            self.daemon.requests_after(self.pending, reading),
        ).to_stream(config, hardware, now)
    }

    /// Takes in the TV's answer at `Power`. The result says whether to warn that
    /// there was none.
    pub fn power(
        &mut self,
        config: &Config,
        shared: &mut SharedState,
        reading: PowerReading,
        now: u64,
    ) -> (warn: bool)
        requires
            old(self).wf(),
            old(self).task is Power,
        ensures
            final(shared)@ == old(shared)@.after(crate::daemon::power_step(reading)),
            final(self).wf(),
            final(self).tasks_left() < old(self).tasks_left(),
            !final(self).idling(),
            *final(self) == old(self).after_power(
                *config,
                old(shared).capture_hardware,
                reading,
                now,
            ),
            warn == old(self).daemon.after_reading(reading, now).1,
            *final(shared) == (SharedState {
                tv_power_state: crate::web::power_code(
                    match reading {
                        PowerReading::State(active) => Some(active),
                        _ => None,
                    },
                ),
                ..*old(shared)
            }),
    {
        let warn = self.daemon.power_read(shared, &mut self.pending, reading, now);
        self.go_stream(config, shared.capture_hardware, now);
        warn
    }

    /// The loop after the TV's answer at `IdlePower`.
    pub open spec fn after_idle_power(self, config: Config, reading: PowerReading, now: u64) -> SyncLoop {
        let start = self.task->IdlePower_start || self.daemon.wakes(reading);
        self.with_daemon(self.daemon.after_reading(reading, now).0).to_idle_stream(start, config)
    }

    /// Takes in the TV's answer at `IdlePower`. The result says whether to warn
    /// that there was none.
    pub fn idle_power(
        &mut self,
        config: &Config,
        shared: &mut SharedState,
        reading: PowerReading,
        now: u64,
    ) -> (warn: bool)
        requires
            old(self).wf(),
            old(self).task is IdlePower,
        ensures
            final(shared)@ == old(shared)@.after(crate::daemon::power_step(reading)),
            final(self).wf(),
            final(self).idling(),
            *final(self) == old(self).after_idle_power(*config, reading, now),
            warn == old(self).daemon.after_reading(reading, now).1,
            *final(shared) == (SharedState {
                tv_power_state: crate::web::power_code(
                    match reading {
                        PowerReading::State(active) => Some(active),
                        _ => None,
                    },
                ),
                ..*old(shared)
            }),
    {
        let asked = match self.task {
            Task::IdlePower { start } => start,
            _ => false,
        };
        let (woke, warn) = self.daemon.power_read_paused(shared, reading, now);
        self.go_idle_stream(asked || woke, config);
        warn
    }

    /// Takes in the bridge's answer at `Stream`, none if it did not answer. An
    /// area that somebody stopped pauses the loop. The result is the smoothing
    /// that the samplers take over from the bridge.
    pub fn stream(
        &mut self,
        config: &Config,
        shared: &SharedState,
        reply: Option<StreamState>,
        now: u64,
    ) -> (smoothing: Option<Scalar>)
        requires
            old(self).wf(),
            old(self).task is Stream,
        ensures
            final(self).wf(),
            final(self).tasks_left() < old(self).tasks_left(),
            !final(self).idling(),
            *final(self) == old(self).to_stop(
                old(self).task->Stream_stop,
                reply matches Some(state) && !state.active,
                config.fps,
                shared.capture_hardware,
                now,
            ),
            smoothing == (match reply {
                Some(state) => Some(state.smoothing_factor),
                None => None,
            }),
    {
        let asked = match self.task {
            Task::Stream { stop } => stop,
            _ => false,
        };
        let external = match reply {
            Some(state) => !state.active,
            None => false,
        };
        self.go_stop(asked, external, config.fps, shared.capture_hardware, now);
        match reply {
            Some(state) => Some(state.smoothing_factor),
            None => None,
        }
    }

    /// Takes in the bridge's answer at `IdleStream`, none if it did not answer.
    /// An area that somebody started resumes the loop.
    pub fn idle_stream(&mut self, reply: Option<StreamState>)
        requires
            old(self).wf(),
            old(self).task is IdleStream,
        ensures
            final(self).wf(),
            final(self).idling(),
            *final(self) == old(self).to_resume(reply matches Some(state) && state.active),
    {
        let active = match reply {
            Some(state) => state.active,
            None => false,
        };
        self.go_resume(active);
    }

    /// Pauses the loop at `Stop`.
    pub fn stop(&mut self, shared: &mut SharedState)
        requires
            old(self).wf(),
            old(self).task is Stop,
        ensures
            final(shared)@ == old(shared)@.after(crate::status::StatusStep::Paused),
            final(self).wf(),
            final(self).idling(),
            *final(self) == old(self).with_daemon(old(self).daemon.paused()).at(
                Task::Release(old(self).daemon.pause_work(old(self).task->Stop_asked)),
            ),
            *final(shared) == (SharedState { is_syncing: false, ..*old(shared) }),
    {
        if let Task::Stop { asked, external } = self.task {
            if let Some(work) = self.daemon.pause(shared, asked, external) {
                self.task = Task::Release(work);
            }
        }
    }

    /// Takes in that the Hue session is closed at `Release`.
    pub fn released(&mut self, shared: &mut SharedState)
        requires
            old(self).wf(),
            old(self).task is Release,
        ensures
            final(shared)@ == old(shared)@.after(crate::status::StatusStep::HueLink(false)),
            final(self).wf(),
            final(self).idling(),
            *final(self) == old(self).at(Task::Darken(old(self).task->Release_0)),
            *final(shared) == (SharedState { hue_connected: false, ..*old(shared) }),
    {
        shared.hue_connected = false;
        if let Task::Release(work) = self.task {
            self.task = Task::Darken(work);
        }
    }

    /// Lets the loop run again at `Resume`.
    pub fn resume(&mut self, config: &Config, shared: &mut SharedState, now: u64)
        requires
            old(self).wf(),
            old(self).task is Resume,
        ensures
            final(shared)@ == old(shared)@.after(old(self).daemon.resume_step(false)),
            final(self).wf(),
            !final(self).idling(),
            final(self).daemon.pipeline_state == crate::runtime::PipelineState::Running,
            *final(self) == old(self).resumed(config.fps, old(shared).capture_hardware, now),
            *final(shared) == (SharedState { is_syncing: true, ..*old(shared) }),
    {
        let work = self.daemon.resume(shared, false);
        self.go_strips(work, config.fps, shared.capture_hardware, now);
    }

    /// Takes in whether a Hue session opened at `ResumeHue`. The loop stays
    /// paused if not.
    pub fn resume_hue(&mut self, config: &Config, shared: &mut SharedState, opened: bool, now: u64)
        requires
            old(self).wf(),
            old(self).task is ResumeHue,
        ensures
            final(shared)@ == old(shared)@.after(old(self).daemon.resume_step(opened)),
            final(self).wf(),
            final(self).idling() == !opened,
            opened ==> final(self).daemon.pipeline_state == crate::runtime::PipelineState::Running
                && final(self).daemon.links.hue,
            *final(self) == (if opened {
                old(self).resumed(config.fps, old(shared).capture_hardware, now)
            } else {
                old(self).at(Task::Idle)
            }),
            *final(shared) == (SharedState {
                is_syncing: opened,
                hue_connected: opened,
                ..*old(shared)
            }),
    {
        let work = self.daemon.resume(shared, opened);
        if work.resumed {
            self.go_strips(work, config.fps, shared.capture_hardware, now);
        } else {
            self.task = Task::Idle;
        }
    }

    /// The loop after a Nanoleaf session was tried at `ResumeNanoleaf`.
    pub open spec fn after_nanoleaf(
        self,
        fps: u32,
        hardware: bool,
        opening: NanoleafOpening,
        now: u64,
    ) -> SyncLoop {
        let next = self.with_daemon(
            Daemon {
                links: crate::daemon::Links {
                    nanoleaf: self.daemon.links.nanoleaf || opening == NanoleafOpening::Opened,
                    ..self.daemon.links
                },
                ..self.daemon
            },
        );
        if self.task->ResumeNanoleaf_wled {
            next.at(Task::ResumeWled)
        } else {
            next.to_settings(fps, hardware, now)
        }
    }

    /// Takes in how opening a Nanoleaf session at `ResumeNanoleaf` went.
    pub fn resume_nanoleaf(
        &mut self,
        config: &Config,
        shared: &mut SharedState,
        opening: NanoleafOpening,
        now: u64,
    )
        requires
            old(self).wf(),
            old(self).task is ResumeNanoleaf,
        ensures
            final(shared)@ == old(shared)@.after(crate::daemon::nanoleaf_step(opening)),
            final(self).wf(),
            final(self).tasks_left() < old(self).tasks_left(),
            !final(self).idling(),
            *final(self) == old(self).after_nanoleaf(
                config.fps,
                old(shared).capture_hardware,
                opening,
                now,
            ),
            *final(shared) == (SharedState {
                nanoleaf_connected: match opening {
                    NanoleafOpening::Opened => true,
                    NanoleafOpening::StreamFailed => false,
                    NanoleafOpening::ControlRefused => old(shared).nanoleaf_connected,
                },
                ..*old(shared)
            }),
    {
        self.daemon.nanoleaf_resumed(shared, opening);
        let wled = match self.task {
            Task::ResumeNanoleaf { wled } => wled,
            _ => false,
        };
        if wled {
            self.task = Task::ResumeWled;
        } else {
            self.go_settings(config.fps, shared.capture_hardware, now);
        }
    }

    /// Takes in whether a WLED session opened at `ResumeWled`.
    pub fn resume_wled(&mut self, config: &Config, shared: &mut SharedState, opened: bool, now: u64)
        requires
            old(self).wf(),
            old(self).task is ResumeWled,
        ensures
            final(shared)@ == old(shared)@.after(crate::status::StatusStep::WledLink(opened)),
            final(self).wf(),
            final(self).tasks_left() < old(self).tasks_left(),
            !final(self).idling(),
            *final(self) == old(self).with_daemon(
                Daemon {
                    links: crate::daemon::Links {
                        wled: old(self).daemon.links.wled || opened,
                        ..old(self).daemon.links
                    },
                    ..old(self).daemon
                },
            ).to_settings(config.fps, old(shared).capture_hardware, now),
            *final(shared) == (SharedState { wled_connected: opened, ..*old(shared) }),
    {
        self.daemon.wled_resumed(shared, opened);
        self.go_settings(config.fps, shared.capture_hardware, now);
    }

    /// Applies the settings at `Settings`.
    pub fn settings(&mut self, config: &Config, shared: &mut SharedState, now: u64)
        requires
            old(self).wf(),
            old(self).task is Settings,
            now >= crate::daemon::POWER_INTERVAL,
        ensures
            final(shared)@ == old(shared)@.after(
                crate::status::StatusEvent::ApplySettings.step(*config),
            ),
            final(self).wf(),
            final(self).tasks_left() < old(self).tasks_left(),
            !final(self).idling(),
            *final(self) == old(self).with_daemon(
                old(self).daemon.with_settings(old(self).task->Settings_0, now),
            ).to_switch_hue(old(self).task->Settings_0),
            final(shared).hue_zones@ == config.zones@,
            *final(shared) == (SharedState { hue_zones: final(shared).hue_zones, ..*old(shared) }),
    {
        if let Task::Settings(live) = self.task {
            self.daemon.apply_settings(shared, config, &live, now);
            self.go_switch_hue(live);
        }
    }

    /// Takes in that the Hue session is closed at `CloseHue`.
    pub fn close_hue(&mut self, shared: &mut SharedState)
        requires
            old(self).wf(),
            old(self).task is CloseHue,
        ensures
            final(shared)@ == old(shared)@.after(crate::status::StatusStep::HueLink(false)),
            final(self).wf(),
            final(self).tasks_left() < old(self).tasks_left(),
            !final(self).idling(),
            *final(self) == old(self).to_switch_nanoleaf(old(self).task->CloseHue_0),
            *final(shared) == (SharedState { hue_connected: false, ..*old(shared) }),
    {
        shared.hue_connected = false;
        if let Task::CloseHue(live) = self.task {
            self.go_switch_nanoleaf(live);
        }
    }

    /// Takes in whether a Hue session opened at `SwitchHue`. The switch
    /// goes back off if not.
    pub fn switch_hue(&mut self, shared: &mut SharedState, opened: bool)
        requires
            old(self).wf(),
            old(self).task is SwitchHue,
        ensures
            final(shared)@ == old(shared)@.after(crate::status::StatusStep::HueLink(opened)),
            final(self).wf(),
            final(self).tasks_left() < old(self).tasks_left(),
            !final(self).idling(),
            *final(self) == old(self).with_daemon(
                Daemon {
                    switches: SyncSwitches { hue: opened, ..old(self).daemon.switches },
                    links: crate::daemon::Links { hue: opened, ..old(self).daemon.links },
                    ..old(self).daemon
                },
            ).to_switch_nanoleaf(old(self).task->SwitchHue_0),
            *final(shared) == (SharedState { hue_connected: opened, ..*old(shared) }),
    {
        if let Task::SwitchHue(live) = self.task {
            self.daemon.hue_switched(shared, opened);
            self.go_switch_nanoleaf(live);
        }
    }

    /// Takes in that the Nanoleaf session is closed at `CloseNanoleaf`.
    pub fn close_nanoleaf(&mut self, shared: &mut SharedState)
        requires
            old(self).wf(),
            old(self).task is CloseNanoleaf,
        ensures
            final(shared)@ == old(shared)@.after(crate::status::StatusStep::NanoleafLink(false)),
            final(self).wf(),
            final(self).tasks_left() < old(self).tasks_left(),
            !final(self).idling(),
            *final(self) == old(self).to_switch_wled(old(self).task->CloseNanoleaf_0),
            *final(shared) == (SharedState { nanoleaf_connected: false, ..*old(shared) }),
    {
        shared.nanoleaf_connected = false;
        if let Task::CloseNanoleaf(live) = self.task {
            self.go_switch_wled(live);
        }
    }

    /// Takes in whether a Nanoleaf session opened at `SwitchNanoleaf`. The switch
    /// goes back off if not.
    pub fn switch_nanoleaf(&mut self, shared: &mut SharedState, opened: bool)
        requires
            old(self).wf(),
            old(self).task is SwitchNanoleaf,
        ensures
            final(shared)@ == old(shared)@.after(crate::status::StatusStep::NanoleafLink(opened)),
            final(self).wf(),
            final(self).tasks_left() < old(self).tasks_left(),
            !final(self).idling(),
            *final(self) == old(self).with_daemon(
                Daemon {
                    switches: SyncSwitches { nanoleaf: opened, ..old(self).daemon.switches },
                    links: crate::daemon::Links { nanoleaf: opened, ..old(self).daemon.links },
                    ..old(self).daemon
                },
            ).to_switch_wled(old(self).task->SwitchNanoleaf_0),
            *final(shared) == (SharedState { nanoleaf_connected: opened, ..*old(shared) }),
    {
        if let Task::SwitchNanoleaf(live) = self.task {
            self.daemon.nanoleaf_switched(shared, opened);
            self.go_switch_wled(live);
        }
    }

    /// Takes in that the WLED session is closed at `CloseWled`.
    pub fn close_wled(&mut self, shared: &mut SharedState)
        requires
            old(self).wf(),
            old(self).task is CloseWled,
        ensures
            final(shared)@ == old(shared)@.after(crate::status::StatusStep::WledLink(false)),
            final(self).wf(),
            final(self).tasks_left() < old(self).tasks_left(),
            !final(self).idling(),
            *final(self) == old(self).at(Task::UpdateSamplers(old(self).task->CloseWled_live)),
            *final(shared) == (SharedState { wled_connected: false, ..*old(shared) }),
    {
        shared.wled_connected = false;
        if let Task::CloseWled { live, black } = self.task {
            self.task = Task::UpdateSamplers(live);
        }
    }

    /// Takes in whether a WLED session opened at `SwitchWled`. The switch
    /// goes back off if not.
    pub fn switch_wled(&mut self, shared: &mut SharedState, opened: bool)
        requires
            old(self).wf(),
            old(self).task is SwitchWled,
        ensures
            final(shared)@ == old(shared)@.after(crate::status::StatusStep::WledLink(opened)),
            final(self).wf(),
            final(self).tasks_left() < old(self).tasks_left(),
            !final(self).idling(),
            *final(self) == old(self).with_daemon(
                Daemon {
                    switches: SyncSwitches { wled: opened, ..old(self).daemon.switches },
                    links: crate::daemon::Links { wled: opened, ..old(self).daemon.links },
                    ..old(self).daemon
                },
            ).at(Task::UpdateSamplers(old(self).task->SwitchWled_0)),
            *final(shared) == (SharedState { wled_connected: opened, ..*old(shared) }),
    {
        if let Task::SwitchWled(live) = self.task {
            self.daemon.wled_switched(shared, opened);
            self.task = Task::UpdateSamplers(live);
        }
    }

    /// Takes in whether a Hue session opened for the new area at `RebindHue`.
    pub fn rebind_hue(&mut self, shared: &mut SharedState, opened: bool)
        requires
            old(self).wf(),
            old(self).task is RebindHue,
        ensures
            final(shared)@ == old(shared)@.after(crate::status::StatusStep::HueLink(opened)),
            final(self).wf(),
            final(self).tasks_left() < old(self).tasks_left(),
            !final(self).idling(),
            *final(self) == old(self).with_daemon(
                Daemon {
                    links: crate::daemon::Links { hue: opened, ..old(self).daemon.links },
                    ..old(self).daemon
                },
            ).at(Task::StoreArea),
            *final(shared) == (SharedState { hue_connected: opened, ..*old(shared) }),
    {
        self.daemon.hue_rebound(shared, opened);
        self.task = Task::StoreArea;
    }

    /// Takes in whether the capture that was made anew at `Restart` has
    /// hardware.
    pub fn restarted(&mut self, config: &Config, shared: &mut SharedState, hardware: bool, now: u64)
        requires
            old(self).wf(),
            old(self).task is Restart,
        ensures
            final(shared)@ == old(shared)@.after(crate::status::StatusStep::Capture(hardware)),
            final(self).wf(),
            final(self).tasks_left() < old(self).tasks_left(),
            !final(self).idling(),
            *final(self) == old(self).to_rate(config.fps, hardware, now),
            *final(shared) == (SharedState { capture_hardware: hardware, ..*old(shared) }),
    {
        shared.capture_hardware = hardware;
        self.go_rate(config.fps, hardware, now);
    }

    /// Takes in whether the hardware was there at `Probe`.
    pub fn probed(&mut self, shared: &mut SharedState, found: bool)
        requires
            old(self).wf(),
            old(self).task is Probe,
        ensures
            final(shared)@ == old(shared)@.after(crate::status::StatusStep::Probed { found }),
            final(self).wf(),
            final(self).tasks_left() < old(self).tasks_left(),
            !final(self).idling(),
            *final(self) == old(self).at(Task::Capture),
            *final(shared) == (SharedState {
                capture_hardware: old(shared).capture_hardware || found,
                ..*old(shared)
            }),
    {
        if found {
            shared.capture_hardware = true;
        }
        self.task = Task::Capture;
    }

    /// Takes in whether the capture that was made anew at `Recover` has
    /// hardware.
    pub fn recovered(&mut self, shared: &mut SharedState, hardware: bool, now: u64)
        requires
            old(self).wf(),
            old(self).task is Recover,
        ensures
            final(shared)@ == old(shared)@.after(crate::status::StatusStep::Capture(hardware)),
            final(self).wf(),
            final(self).tasks_left() < old(self).tasks_left(),
            !final(self).idling(),
            *final(self) == old(self).with_daemon(
                Daemon { last_hw_probe: now, ..old(self).daemon },
            ).to_rest(false, now),
            *final(shared) == (SharedState { capture_hardware: hardware, ..*old(shared) }),
    {
        self.daemon.capture_recovered(shared, hardware, now);
        self.go_rest(false, now);
    }

    /// Whether the present task is ended by `done`.
    pub open spec fn finishing(self) -> bool {
        match self.task {
            Task::Watchdog
            | Task::Darken(_)
            | Task::UpdateSamplers(_)
            | Task::Save
            | Task::ReleaseArea
            | Task::AdoptArea { .. }
            | Task::StoreArea
            | Task::Rate
            | Task::Rest { .. } => true,
            _ => false,
        }
    }

    /// The loop after the present task is done.
    pub open spec fn after_done(self, config: Config, hardware: bool, now: u64) -> SyncLoop {
        match self.task {
            Task::Watchdog => self.to_power(config, hardware, now),
            Task::Darken(_) => self.at(Task::Idle),
            Task::UpdateSamplers(_) => self.to_save(config.fps, hardware, now),
            Task::Save => self.to_area(config.fps, hardware, now),
            Task::ReleaseArea => self.at(Task::AdoptArea { rebind: true }),
            Task::AdoptArea { rebind } => self.at(
                if rebind && self.daemon.switches.hue {
                    Task::RebindHue
                } else {
                    Task::StoreArea
                },
            ),
            Task::StoreArea => self.to_restart(config.fps, hardware, now),
            Task::Rate => self.to_capture(hardware, now),
            _ => self.at(Task::Commands),
        }
    }

    /// Takes in that the present task is done.
    #[verifier::rlimit(40)]
    pub fn done(&mut self, config: &Config, shared: &SharedState, now: u64)
        requires
            old(self).wf(),
            old(self).finishing(),
        ensures
            final(self).wf(),
            final(self).idling() == old(self).idling(),
            !old(self).idling() && !(old(self).task is Rest) ==> final(self).tasks_left()
                < old(self).tasks_left(),
            *final(self) == old(self).after_done(*config, shared.capture_hardware, now),
    {
        match self.task {
            Task::Watchdog => {
                self.go_power(config, shared.capture_hardware, now);
            },
            Task::Darken(_) => {
                self.task = Task::Idle;
            },
            Task::UpdateSamplers(_) => {
                self.go_save(config.fps, shared.capture_hardware, now);
            },
            Task::Save => {
                self.go_area(config.fps, shared.capture_hardware, now);
            },
            Task::ReleaseArea => {
                self.task = Task::AdoptArea { rebind: true };
            },
            Task::AdoptArea { rebind } => {
                self.task = if rebind && self.daemon.switches.hue {
                    Task::RebindHue
                } else {
                    Task::StoreArea
                };
            },
            Task::StoreArea => {
                self.go_restart(config.fps, shared.capture_hardware, now);
            },
            Task::Rate => {
                self.go_capture(shared.capture_hardware, now);
            },
            _ => {
                self.task = Task::Commands;
            },
        }
    }

    /// The loop after the bridge gave the layout of the area at `Area`, and it
    /// is known what that calls for; none if it did not answer.
    pub open spec fn after_area(
        self,
        fps: u32,
        hardware: bool,
        plan: Option<AreaRefresh>,
        now: u64,
    ) -> SyncLoop {
        match plan {
            Some(AreaRefresh::SameArea) => self.at(Task::AdoptArea { rebind: false }),
            Some(AreaRefresh::OtherArea) => self.at(Task::ReleaseArea),
            _ => self.to_restart(fps, hardware, now),
        }
    }

    /// Takes in what the layout of the area at `Area` calls for.
    pub fn area(
        &mut self,
        config: &Config,
        shared: &SharedState,
        plan: Option<AreaRefresh>,
        now: u64,
    )
        requires
            old(self).wf(),
            old(self).task is Area,
        ensures
            final(self).wf(),
            final(self).tasks_left() < old(self).tasks_left(),
            !final(self).idling(),
            *final(self) == old(self).after_area(config.fps, shared.capture_hardware, plan, now),
    {
        match plan {
            Some(AreaRefresh::SameArea) => {
                self.task = Task::AdoptArea { rebind: false };
            },
            Some(AreaRefresh::OtherArea) => {
                self.task = Task::ReleaseArea;
            },
            _ => {
                self.go_restart(config.fps, shared.capture_hardware, now);
            },
        }
    }

    /// The loop after a frame was to be captured. Where Hue does not look at the
    /// frame, the perimeter strips have to.
    pub open spec fn after_frame(self, captured: bool, now: u64) -> SyncLoop {
        if !captured {
            self.at(
                Task::Recover {
                    black_nanoleaf: self.daemon.links.nanoleaf,
                    black_wled: self.daemon.links.wled,
                },
            )
        } else if !self.daemon.streams_hue() && (self.daemon.streams_nanoleaf()
            || self.daemon.streams_wled()) {
            self.at(Task::Watch)
        } else {
            self.to_hue(false, now)
        }
    }

    /// Takes in whether a frame was captured at `Capture`.
    pub fn frame(&mut self, captured: bool, now: u64)
        requires
            old(self).wf(),
            old(self).task is Capture,
        ensures
            final(self).wf(),
            final(self).tasks_left() < old(self).tasks_left(),
            !final(self).idling(),
            *final(self) == old(self).after_frame(captured, now),
    {
        if !captured {
            self.task = Task::Recover {
                black_nanoleaf: self.daemon.links.nanoleaf,
                black_wled: self.daemon.links.wled,
            };
        } else if self.daemon.perimeter_only() {
            self.task = Task::Watch;
        } else {
            self.go_hue(false, now);
        }
    }

    /// Takes in the average colour of the frame at `Watch`, and whether that is
    /// far from the one before it. The result says whether to look for letterbox
    /// bars.
    pub fn watched(
        &mut self,
        average: RgbColor,
        far: bool,
        letterbox_detection: bool,
        now: u64,
    ) -> (detect: bool)
        requires
            old(self).wf(),
            old(self).task is Watch,
            old(self).watch.frame_count < u64::MAX,
        ensures
            final(self).wf(),
            final(self).tasks_left() < old(self).tasks_left(),
            !final(self).idling(),
            *final(self) == (SyncLoop {
                watch: PerimeterWatch {
                    frame_count: (old(self).watch.frame_count + 1) as u64,
                    global: average,
                },
                ..*old(self)
            }).to_hue(far && old(self).watch.frame_count > 0, now),
            detect == (letterbox_detection && (old(self).watch.frame_count == 0 || (
            old(self).watch.frame_count + 1) % 15 == 0)),
    {
        let (cut, detect) = self.watch.note_frame(average, far, letterbox_detection);
        self.go_hue(cut, now);
        detect
    }

    /// The loop after Hue's share of the frame at `ShowHue`.
    pub open spec fn after_hue(self, sampled: Option<bool>, sending: Sending, now: u64) -> SyncLoop {
        let cut = crate::output::is_cut(sampled, self.task->ShowHue_cut);
        if sending == (Sending::Failed { ready: true }) {
            self.at(Task::ReopenHue { cut })
        } else {
            self.to_nanoleaf(cut, sending == Sending::Sent, now)
        }
    }

    /// Takes in what came of the frame at `ShowHue`. `sampled` says whether the
    /// zone sampler took it for a scene cut, and is none if it did not see it.
    /// A frame that failed shows that the session is gone. The result is the
    /// outcome, once there is one.
    pub fn show_hue(
        &mut self,
        shared: &mut SharedState,
        sampled: Option<bool>,
        sending: Sending,
        now: u64,
    ) -> (outcome: Option<SendOutcome>)
        requires
            old(self).wf(),
            old(self).task is ShowHue,
        ensures
            final(shared)@ == old(shared)@.after(if sending is Failed {
                crate::status::StatusStep::HueLink(false)
            } else {
                crate::status::StatusStep::Nothing
            }),
            final(self).wf(),
            final(self).tasks_left() < old(self).tasks_left(),
            !final(self).idling(),
            *final(self) == old(self).after_hue(sampled, sending, now),
            *final(shared) == (SharedState {
                hue_connected: old(shared).hue_connected && !(sending is Failed),
                ..*old(shared)
            }),
            outcome == crate::output::settled(sending),
    {
        if let Sending::Failed { ready } = sending {
            shared.hue_connected = false;
        }
        let watched = match self.task {
            Task::ShowHue { cut } => cut,
            _ => false,
        };
        let cut = scene_cut(sampled, watched);
        if sending == (Sending::Failed { ready: true }) {
            self.task = Task::ReopenHue { cut };
        } else {
            self.go_nanoleaf(cut, sending == Sending::Sent, now);
        }
        settle(sending)
    }

    /// Takes in whether a new Hue session opened at `ReopenHue`. The frame is
    /// lost either way.
    pub fn reopen_hue(&mut self, opened: bool, now: u64) -> (outcome: SendOutcome)
        requires
            old(self).wf(),
            old(self).task is ReopenHue,
        ensures
            final(self).wf(),
            final(self).tasks_left() < old(self).tasks_left(),
            !final(self).idling(),
            *final(self) == old(self).to_nanoleaf(old(self).task->ReopenHue_cut, false, now),
            outcome == crate::output::outcome_of(false, true, opened),
    {
        let cut = match self.task {
            Task::ReopenHue { cut } => cut,
            _ => false,
        };
        self.go_nanoleaf(cut, false, now);
        send_outcome(false, true, opened)
    }

    /// The loop after the Nanoleaf strip's share of the frame at `ShowNanoleaf`.
    pub open spec fn after_show_nanoleaf(self, sending: Sending, now: u64) -> SyncLoop {
        let cut = self.task->ShowNanoleaf_cut;
        let emitted = self.task->ShowNanoleaf_emitted;
        if sending == (Sending::Failed { ready: true }) {
            self.at(Task::ReopenNanoleaf { cut, emitted })
        } else {
            self.to_wled(cut, emitted || sending == Sending::Sent, now)
        }
    }

    /// Takes in what came of the frame at `ShowNanoleaf`. A frame that failed
    /// shows that the session is gone. The result is the outcome, once there is
    /// one.
    pub fn show_nanoleaf(&mut self, shared: &mut SharedState, sending: Sending, now: u64) -> (outcome:
        Option<SendOutcome>)
        requires
            old(self).wf(),
            old(self).task is ShowNanoleaf,
        ensures
            final(shared)@ == old(shared)@.after(if sending is Failed {
                crate::status::StatusStep::NanoleafLink(false)
            } else {
                crate::status::StatusStep::Nothing
            }),
            final(self).wf(),
            final(self).tasks_left() < old(self).tasks_left(),
            !final(self).idling(),
            *final(self) == old(self).after_show_nanoleaf(sending, now),
            *final(shared) == (SharedState {
                nanoleaf_connected: old(shared).nanoleaf_connected && !(sending is Failed),
                ..*old(shared)
            }),
            outcome == crate::output::settled(sending),
    {
        if let Sending::Failed { ready } = sending {
            shared.nanoleaf_connected = false;
        }
        if let Task::ShowNanoleaf { cut, emitted } = self.task {
            if sending == (Sending::Failed { ready: true }) {
                self.task = Task::ReopenNanoleaf { cut, emitted };
            } else {
                self.go_wled(cut, emitted || sending == Sending::Sent, now);
            }
        }
        settle(sending)
    }

    /// Takes in whether a new Nanoleaf session opened at `ReopenNanoleaf`. The
    /// frame is lost for the strip either way.
    pub fn reopen_nanoleaf(&mut self, opened: bool, now: u64) -> (outcome: SendOutcome)
        requires
            old(self).wf(),
            old(self).task is ReopenNanoleaf,
        ensures
            final(self).wf(),
            final(self).tasks_left() < old(self).tasks_left(),
            !final(self).idling(),
            *final(self) == old(self).to_wled(
                old(self).task->ReopenNanoleaf_cut,
                old(self).task->ReopenNanoleaf_emitted,
                now,
            ),
            outcome == crate::output::outcome_of(false, true, opened),
    {
        if let Task::ReopenNanoleaf { cut, emitted } = self.task {
            self.go_wled(cut, emitted, now);
        }
        send_outcome(false, true, opened)
    }

    /// The loop after the WLED strip's share of the frame at `ShowWled`.
    pub open spec fn after_show_wled(self, sending: Sending, now: u64) -> SyncLoop {
        let emitted = self.task->ShowWled_emitted;
        if sending == (Sending::Failed { ready: true }) {
            self.at(Task::ReopenWled { emitted })
        } else {
            self.to_rest(emitted || sending == Sending::Sent, now)
        }
    }

    /// Takes in what came of the frame at `ShowWled`. A frame that failed shows
    /// that the session is gone. The result is the outcome, once there is one.
    pub fn show_wled(&mut self, shared: &mut SharedState, sending: Sending, now: u64) -> (outcome:
        Option<SendOutcome>)
        requires
            old(self).wf(),
            old(self).task is ShowWled,
        ensures
            final(shared)@ == old(shared)@.after(if sending is Failed {
                crate::status::StatusStep::WledLink(false)
            } else {
                crate::status::StatusStep::Nothing
            }),
            final(self).wf(),
            final(self).tasks_left() < old(self).tasks_left(),
            !final(self).idling(),
            *final(self) == old(self).after_show_wled(sending, now),
            *final(shared) == (SharedState {
                wled_connected: old(shared).wled_connected && !(sending is Failed),
                ..*old(shared)
            }),
            outcome == crate::output::settled(sending),
    {
        if let Sending::Failed { ready } = sending {
            shared.wled_connected = false;
        }
        if let Task::ShowWled { cut, emitted } = self.task {
            if sending == (Sending::Failed { ready: true }) {
                self.task = Task::ReopenWled { emitted };
            } else {
                self.go_rest(emitted || sending == Sending::Sent, now);
            }
        }
        settle(sending)
    }

    /// Takes in whether a new WLED session opened at `ReopenWled`. The frame is
    /// lost for the strip either way.
    pub fn reopen_wled(&mut self, opened: bool, now: u64) -> (outcome: SendOutcome)
        requires
            old(self).wf(),
            old(self).task is ReopenWled,
        ensures
            final(self).wf(),
            final(self).tasks_left() < old(self).tasks_left(),
            !final(self).idling(),
            *final(self) == old(self).to_rest(old(self).task->ReopenWled_emitted, now),
            outcome == crate::output::outcome_of(false, true, opened),
    {
        if let Task::ReopenWled { emitted } = self.task {
            self.go_rest(emitted, now);
        }
        send_outcome(false, true, opened)
    }
}

/// An output that is switched off has no session, none is opened for it, and no
/// frame is sent to it, whatever the loop is at.
pub proof fn a_switched_off_output_is_left_alone(l: SyncLoop)
    requires
        l.wf(),
    ensures
        !l.daemon.switches.hue ==> !l.daemon.links.hue && !(l.task is ResumeHue
            || l.task is SwitchHue || l.task is RebindHue || l.task is ShowHue
            || l.task is ReopenHue),
        !l.daemon.switches.nanoleaf ==> !l.daemon.links.nanoleaf && !(l.task is ResumeNanoleaf
            || l.task is SwitchNanoleaf || l.task is ShowNanoleaf || l.task is ReopenNanoleaf),
        !l.daemon.switches.wled ==> !l.daemon.links.wled && !(l.task is ResumeWled
            || l.task is SwitchWled || l.task is ShowWled || l.task is ReopenWled),
{
}

/// A loop that is to resume waits for Hue if Hue is configured and switched on,
/// and runs again at once if not. Then sessions are opened for the strips that
/// are configured and switched on, and for no other.
pub proof fn resuming_follows_the_switches(l: SyncLoop, fps: u32, hardware: bool, now: u64)
    ensures
        l.daemon.streams_hue() ==> l.to_resume(true).task is ResumeHue,
        !l.daemon.streams_hue() ==> l.to_resume(true).task is Resume,
        l.resumed(fps, hardware, now).task is ResumeNanoleaf <==> l.daemon.streams_nanoleaf(),
        l.daemon.streams_nanoleaf() ==> l.resumed(fps, hardware, now).task->ResumeNanoleaf_wled
            == l.daemon.streams_wled(),
        l.resumed(fps, hardware, now).task is ResumeWled <==> !l.daemon.streams_nanoleaf()
            && l.daemon.streams_wled(),
{
}

/// By the time that a frame is captured, every command that came in before has
/// been dealt with.
pub proof fn no_command_waits_for_the_capture(l: SyncLoop)
    requires
        l.wf(),
        l.task is Capture,
    ensures
        l.pending == crate::runtime::nothing_pending(),
{
}

/// Nothing but the task differs.
pub open spec fn same_but_task(before: SyncLoop, after: SyncLoop) -> bool {
    before == (SyncLoop { task: before.task, ..after })
}

/// The loop goes on to capture a frame. Missing hardware is tried first, twice a
/// second.
#[verifier::opaque]
pub open spec fn goes_to_frame(before: SyncLoop, after: SyncLoop, hardware: bool, now: u64) -> bool {
    let due = !hardware && now - before.daemon.last_hw_probe >= 500_000_000;
    &&& due ==> after.task is Probe && after.daemon.last_hw_probe == now
    &&& !due ==> after.task is Capture && after.daemon == before.daemon
    &&& after.pending == before.pending
    &&& before == (SyncLoop {
        task: before.task,
        daemon: Daemon { last_hw_probe: before.daemon.last_hw_probe, ..after.daemon },
        ..after
    })
}

/// The loop goes on past the area: it ends to be set up anew, or makes its capture
/// anew, where that waits, and else looks at the source's rate if it follows that.
#[verifier::opaque]
pub open spec fn goes_past_area(
    before: SyncLoop,
    after: SyncLoop,
    fps: u32,
    hardware: bool,
    now: u64,
) -> bool {
    let asked = before.pending;
    &&& asked.reconfigure ==> (after.task matches Task::End { release_hue } && release_hue
        == before.daemon.outputs.hue) && !after.pending.reconfigure && after.pending.restart
        == asked.restart
    &&& !asked.reconfigure && asked.restart ==> after.task is Restart && !after.pending.restart
    &&& asked.reconfigure || asked.restart ==> after.daemon == before.daemon
    &&& !asked.reconfigure && !asked.restart && fps == 0 ==> after.task is Rate && same_but_task(
        before,
        after,
    )
    &&& !asked.reconfigure && !asked.restart && fps != 0 ==> goes_to_frame(
        before,
        after,
        hardware,
        now,
    )
    &&& after.pending.desired_running == asked.desired_running
    &&& after.pending.apply_settings == asked.apply_settings
    &&& after.pending.save_config == asked.save_config
    &&& after.pending.sync_bridge == asked.sync_bridge
}

/// The loop goes on past the settings: they are saved if that waits, the area is
/// looked up if that waits and there is one.
#[verifier::opaque]
pub open spec fn goes_past_settings(
    before: SyncLoop,
    after: SyncLoop,
    fps: u32,
    hardware: bool,
    now: u64,
) -> bool {
    let asked = before.pending;
    let area = asked.sync_bridge && before.daemon.outputs.hue;
    &&& asked.save_config ==> after.task is Save && !after.pending.save_config && before == (
    SyncLoop {
        task: before.task,
        pending: PendingCommands { save_config: true, ..after.pending },
        ..after
    })
    &&& !asked.save_config && area ==> after.task is Area && !after.pending.sync_bridge && before
        == (SyncLoop {
        task: before.task,
        pending: PendingCommands { sync_bridge: true, ..after.pending },
        ..after
    })
    &&& !asked.save_config && !area ==> goes_past_area(
        SyncLoop { pending: PendingCommands { sync_bridge: false, ..asked }, ..before },
        after,
        fps,
        hardware,
        now,
    )
}

/// The loop goes on with what waits: new settings come before all else.
#[verifier::opaque]
pub open spec fn goes_on(
    before: SyncLoop,
    after: SyncLoop,
    fps: u32,
    hardware: bool,
    now: u64,
) -> bool {
    &&& before.pending.apply_settings matches Some(live) ==> after.task == Task::Settings(live)
        && after.pending.apply_settings is None && before == (SyncLoop {
        task: before.task,
        pending: PendingCommands { apply_settings: Some(live), ..after.pending },
        ..after
    })
    &&& before.pending.apply_settings is None ==> goes_past_settings(
        before,
        after,
        fps,
        hardware,
        now,
    )
}

proof fn lemma_goes_to_frame(l: SyncLoop, hardware: bool, now: u64)
    ensures
        goes_to_frame(l, l.to_capture(hardware, now), hardware, now),
{
    reveal(goes_to_frame);
}

proof fn lemma_goes_past_area(l: SyncLoop, fps: u32, hardware: bool, now: u64)
    ensures
        goes_past_area(l, l.to_restart(fps, hardware, now), fps, hardware, now),
{
    reveal(goes_past_area);
    lemma_goes_to_frame(l, hardware, now);
}

proof fn lemma_goes_past_settings(l: SyncLoop, fps: u32, hardware: bool, now: u64)
    ensures
        goes_past_settings(l, l.to_save(fps, hardware, now), fps, hardware, now),
{
    reveal(goes_past_settings);
    let rest = SyncLoop {
        pending: PendingCommands { sync_bridge: false, ..l.pending },
        ..l
    };
    lemma_goes_past_area(rest, fps, hardware, now);
    if !l.pending.save_config {
        let unsaved = l.waiting(PendingCommands { save_config: false, ..l.pending });
        assert(unsaved == l);
    }
}

proof fn lemma_goes_on(l: SyncLoop, fps: u32, hardware: bool, now: u64)
    ensures
        goes_on(l, l.to_settings(fps, hardware, now), fps, hardware, now),
{
    reveal(goes_on);
    lemma_goes_past_settings(l, fps, hardware, now);
}

/// A new loop holds what it was given, collects commands first and has measured
/// nothing.
pub proof fn a_loop_begins_with_its_commands(
    daemon: Daemon,
    pending: PendingCommands,
    now: u64,
    made: SyncLoop,
)
    requires
        daemon.wf(),
        call_ensures(SyncLoop::new, (daemon, pending, now), made),
    ensures
        made.daemon == daemon,
        made.pending == pending,
        made.task is Commands,
        made.loop_start == now,
        made.meter.updates == 0 && made.meter.window == now,
        made.watch.frame_count == 0,
        (made.watch.global.r, made.watch.global.g, made.watch.global.b) == (0u8, 0u8, 0u8),
{
}

/// A running loop's turn begins with what is due: the watchdog, the TV, the bridge; a
/// request to stop comes after them. What came in waits as it was received.
pub proof fn a_turn_begins_with_what_is_due(
    l: &mut SyncLoop,
    config: &Config,
    shared: &mut SharedState,
    commands: &[ControlCommand],
    now: u64,
    received: &mut PendingCommands,
    configuration: Option<String>,
)
    requires
        old(l).wf(),
        old(l).task is Commands,
        now >= 2_000_000_000,
        call_ensures(SyncLoop::commands, (l, config, shared, commands, now), ()),
        *old(received) == old(l).pending,
        call_ensures(PendingCommands::receive, (received, commands), ()),
        call_ensures(Config::hue_configuration_id, (config,), configuration),
    ensures
        ({
            let d = old(l).daemon;
            let watchdog = now - d.last_watchdog >= 2_000_000_000;
            let power = d.auto_tv_power && now - d.last_tv_power_poll >= 2_000_000_000;
            let bridge = now - d.last_status_check >= 5_000_000_000 && d.outputs.hue
                && d.switches.hue && d.links.hue && configuration is Some;
            let stop = final(received).desired_running == Some(false);
            &&& final(l).loop_start == now
            &&& watchdog ==> final(l).task is Watchdog && final(l).daemon.last_watchdog == now
                && final(l).pending == *final(received)
            &&& !watchdog && power ==> final(l).task is Power && final(l).daemon.last_tv_power_poll
                == now && final(l).pending == *final(received)
            &&& !watchdog && !power ==> final(l).pending.desired_running is None
            &&& !watchdog && !power && bridge ==> (final(l).task matches Task::Stream { stop: s }
                && s == stop) && final(l).daemon.last_status_check == now
            &&& !watchdog && !power && !bridge && stop ==> (final(l).task matches Task::Stop {
                asked,
                external,
            } && asked && !external)
            &&& !watchdog && !power && !bridge && !stop ==> !(final(l).task is Stop) && !(
            final(l).task is Stream)
        }),
        *final(shared) == *old(shared),
        final(l).daemon.links == old(l).daemon.links,
        final(l).daemon.switches == old(l).daemon.switches,
        final(l).daemon.outputs == old(l).daemon.outputs,
        final(l).daemon.pipeline_state == old(l).daemon.pipeline_state,
        final(l).meter == old(l).meter,
        final(l).watch == old(l).watch,
{
}

/// A paused loop asks the TV when that is due, and the bridge unless it is to start or
/// the TV sleeps; a request to start resumes it, with Hue where Hue is driven. A
/// request to stop changes nothing.
pub proof fn a_paused_loop_waits_for_a_reason(
    l: &mut SyncLoop,
    config: &Config,
    shared: &mut SharedState,
    commands: &[ControlCommand],
    now: u64,
    received: &mut PendingCommands,
    configuration: Option<String>,
)
    requires
        old(l).wf(),
        old(l).task is Idle,
        now >= 2_000_000_000,
        call_ensures(SyncLoop::commands, (l, config, shared, commands, now), ()),
        *old(received) == old(l).pending,
        call_ensures(PendingCommands::receive, (received, commands), ()),
        call_ensures(Config::hue_configuration_id, (config,), configuration),
        old(l).daemon.auto_tv_power == old(shared).current_settings.auto_tv_power,
    ensures
        ({
            let d = old(l).daemon;
            let power = d.auto_tv_power && now - d.last_tv_power_poll >= 2_000_000_000;
            let asleep = d.auto_tv_power && d.observed_tv_power == Some(false);
            let start = final(received).desired_running == Some(true);
            let bridge = !start && d.outputs.hue && !asleep && configuration is Some;
            &&& final(l).pending == (PendingCommands {
                desired_running: None,
                ..*final(received)
            })
            &&& power ==> (final(l).task matches Task::IdlePower { start: s } && s == start)
            &&& !power && bridge ==> final(l).task is IdleStream
            &&& !power && !bridge && !start ==> final(l).task is Idle
            &&& !power && start && d.outputs.hue && d.switches.hue ==> final(l).task is ResumeHue
            &&& !power && start && !(d.outputs.hue && d.switches.hue) ==> final(l).task is Resume
            &&& final(l).daemon == (Daemon {
                last_tv_power_poll: if power {
                    now
                } else {
                    d.last_tv_power_poll
                },
                ..d
            })
        }),
        *final(shared) == *old(shared),
{
}

/// Told to shut down, a loop ends and releases the Hue area if there is one; a paused
/// one takes the rest of its turn first.
pub proof fn a_shut_down_ends_the_loop(
    l: &mut SyncLoop,
    config: &Config,
    shared: &SharedState,
    now: u64,
)
    requires
        old(l).wf(),
        old(l).task is Commands || old(l).task is Idle,
        call_ensures(SyncLoop::shut_down, (l, config, shared, now), ()),
    ensures
        old(l).task is Commands ==> (final(l).task matches Task::End { release_hue } && release_hue
            == old(l).daemon.outputs.hue) && same_but_task(*old(l), *final(l)),
        old(l).task is Idle ==> goes_on(
            *old(l),
            *final(l),
            config.fps,
            shared.capture_hardware,
            now,
        ),
{
    lemma_goes_on(*old(l), config.fps, shared.capture_hardware, now);
}

/// The bridge's answer stops the loop if somebody else stopped the area, and so does a
/// request; no answer stops nothing. Else the turn goes on. The bridge's smoothing is
/// handed on.
pub proof fn a_stopped_area_stops_the_loop(
    l: &mut SyncLoop,
    config: &Config,
    shared: &SharedState,
    stop: bool,
    reply: Option<StreamState>,
    now: u64,
    smoothing: Option<Scalar>,
)
    requires
        old(l).wf(),
        old(l).task == (Task::Stream { stop }),
        call_ensures(SyncLoop::stream, (l, config, shared, reply, now), smoothing),
    ensures
        reply is None ==> smoothing is None,
        reply matches Some(state) ==> smoothing == Some(state.smoothing_factor),
        reply matches Some(state) ==> (!state.active ==> (final(l).task matches Task::Stop {
            asked,
            external,
        } && asked == stop && external)),
        (reply is None || reply->Some_0.active) && stop ==> (final(l).task matches Task::Stop {
            asked,
            external,
        } && asked && !external),
        final(l).task is Stop ==> same_but_task(*old(l), *final(l)),
        (reply is None || reply->Some_0.active) && !stop ==> goes_on(
            *old(l),
            *final(l),
            config.fps,
            shared.capture_hardware,
            now,
        ),
{
    lemma_goes_on(*old(l), config.fps, shared.capture_hardware, now);
}

/// While the loop is paused, an area that somebody started resumes it, with Hue where
/// Hue is driven; any other answer, and none, leaves it paused.
pub proof fn a_started_area_resumes_the_loop(l: &mut SyncLoop, reply: Option<StreamState>)
    requires
        old(l).wf(),
        old(l).task is IdleStream,
        call_ensures(SyncLoop::idle_stream, (l, reply), ()),
    ensures
        ({
            let started = reply is Some && reply->Some_0.active;
            let hue = old(l).daemon.outputs.hue && old(l).daemon.switches.hue;
            &&& !started ==> final(l).task is Idle
            &&& started && hue ==> final(l).task is ResumeHue
            &&& started && !hue ==> final(l).task is Resume
        }),
        same_but_task(*old(l), *final(l)),
{
}

/// A loop that stops holds no Hue session, is shown as stopped, releases the Hue area
/// if somebody asked or the TV sleeps, darkens every strip that has a session, and is
/// idle then.
pub proof fn a_stopped_loop_goes_dark(
    stopping: &mut SyncLoop,
    releasing: &mut SyncLoop,
    darkening: &mut SyncLoop,
    shared: &mut SharedState,
    after_release: &mut SharedState,
    asked: bool,
    external: bool,
    work: PauseWork,
    config: &Config,
    now: u64,
    shown: &SharedState,
)
    requires
        old(stopping).wf() && old(releasing).wf() && old(darkening).wf(),
        old(stopping).task == (Task::Stop { asked, external }),
        old(releasing).task == Task::Release(work),
        old(darkening).task == Task::Darken(work),
        call_ensures(SyncLoop::stop, (stopping, shared), ()),
        call_ensures(SyncLoop::released, (releasing, after_release), ()),
        call_ensures(SyncLoop::done, (darkening, config, shown, now), ()),
    ensures
        ({
            let d = old(stopping).daemon;
            let asleep = d.auto_tv_power && d.observed_tv_power == Some(false);
            &&& final(stopping).task matches Task::Release(todo) && todo.black_nanoleaf
                == d.links.nanoleaf && todo.black_wled == d.links.wled && todo.release_hue == (
            d.outputs.hue && (asked || asleep))
            &&& final(stopping).daemon.pipeline_state == crate::runtime::PipelineState::Paused
            &&& !final(stopping).daemon.links.hue
            &&& final(stopping).daemon.links.nanoleaf == d.links.nanoleaf
            &&& final(stopping).daemon.links.wled == d.links.wled
            &&& final(stopping).daemon.switches == d.switches
            &&& final(stopping).pending == old(stopping).pending
        }),
        *final(shared) == (SharedState { is_syncing: false, ..*old(shared) }),
        final(releasing).task == Task::Darken(work),
        same_but_task(*old(releasing), *final(releasing)),
        *final(after_release) == (SharedState { hue_connected: false, ..*old(after_release) }),
        final(darkening).task is Idle,
        same_but_task(*old(darkening), *final(darkening)),
{
}

/// A resumed loop runs, is shown as running, and opens sessions for the strips that are
/// driven, Nanoleaf's first; without any it goes on with its turn. Hue is connected if
/// its session opened, and keeps the loop paused if not.
pub proof fn a_resumed_loop_opens_its_strips(
    l: &mut SyncLoop,
    hue: &mut SyncLoop,
    config: &Config,
    shared: &mut SharedState,
    hue_shared: &mut SharedState,
    opened: bool,
    now: u64,
)
    requires
        old(l).wf() && old(hue).wf(),
        old(l).task is Resume,
        old(hue).task is ResumeHue,
        call_ensures(SyncLoop::resume, (l, config, shared, now), ()),
        call_ensures(SyncLoop::resume_hue, (hue, config, hue_shared, opened, now), ()),
    ensures
        ({
            let d = old(l).daemon;
            let nanoleaf = d.outputs.nanoleaf && d.switches.nanoleaf;
            let wled = d.outputs.wled && d.switches.wled;
            &&& final(l).daemon.pipeline_state == crate::runtime::PipelineState::Running
            &&& final(l).daemon.links == d.links
            &&& nanoleaf ==> (final(l).task matches Task::ResumeNanoleaf { wled: w } && w == wled)
            &&& !nanoleaf && wled ==> final(l).task is ResumeWled
            &&& !nanoleaf && !wled ==> goes_on(
                SyncLoop {
                    daemon: Daemon {
                        pipeline_state: crate::runtime::PipelineState::Running,
                        ..d
                    },
                    ..*old(l)
                },
                *final(l),
                config.fps,
                old(shared).capture_hardware,
                now,
            )
        }),
        *final(shared) == (SharedState { is_syncing: true, ..*old(shared) }),
        ({
            let d = old(hue).daemon;
            let nanoleaf = d.outputs.nanoleaf && d.switches.nanoleaf;
            let wled = d.outputs.wled && d.switches.wled;
            &&& !opened ==> final(hue).task is Idle && same_but_task(*old(hue), *final(hue))
            &&& opened ==> final(hue).daemon.pipeline_state
                == crate::runtime::PipelineState::Running
            &&& opened ==> final(hue).daemon.links.hue && final(hue).daemon.links.nanoleaf
                == d.links.nanoleaf && final(hue).daemon.links.wled == d.links.wled
            &&& opened && nanoleaf ==> (final(hue).task matches Task::ResumeNanoleaf { wled: w }
                && w == wled)
            &&& opened && !nanoleaf && wled ==> final(hue).task is ResumeWled
            &&& opened && !nanoleaf && !wled ==> !final(hue).idling()
        }),
        *final(hue_shared) == (SharedState {
            is_syncing: opened,
            hue_connected: opened,
            ..*old(hue_shared)
        }),
{
    let running = SyncLoop {
        daemon: Daemon {
            pipeline_state: crate::runtime::PipelineState::Running,
            ..old(l).daemon
        },
        ..*old(l)
    };
    lemma_goes_on(running, config.fps, old(shared).capture_hardware, now);
}

/// The Nanoleaf strip is connected if its session opened, shown as such, and touches
/// no other output; then the WLED strip's turn comes if it is driven.
pub proof fn the_nanoleaf_strip_resumes_by_itself(
    l: &mut SyncLoop,
    config: &Config,
    shared: &mut SharedState,
    wled: bool,
    opening: NanoleafOpening,
    now: u64,
)
    requires
        old(l).wf(),
        old(l).task == (Task::ResumeNanoleaf { wled }),
        call_ensures(SyncLoop::resume_nanoleaf, (l, config, shared, opening, now), ()),
    ensures
        opening is Opened ==> final(l).daemon.links.nanoleaf && final(shared).nanoleaf_connected,
        !(opening is Opened) ==> final(l).daemon.links.nanoleaf == old(l).daemon.links.nanoleaf,
        opening is StreamFailed ==> !final(shared).nanoleaf_connected,
        opening is ControlRefused ==> *final(shared) == *old(shared),
        final(l).daemon.links.wled == old(l).daemon.links.wled,
        final(l).daemon.links.hue == old(l).daemon.links.hue,
        final(l).daemon.switches == old(l).daemon.switches,
        (SharedState { nanoleaf_connected: old(shared).nanoleaf_connected, ..*final(shared) })
            == *old(shared),
        wled ==> final(l).task is ResumeWled,
        !wled ==> goes_on(
            SyncLoop {
                daemon: Daemon {
                    links: crate::daemon::Links {
                        nanoleaf: old(l).daemon.links.nanoleaf || opening is Opened,
                        ..old(l).daemon.links
                    },
                    ..old(l).daemon
                },
                ..*old(l)
            },
            *final(l),
            config.fps,
            old(shared).capture_hardware,
            now,
        ),
{
    let linked = SyncLoop {
        daemon: Daemon {
            links: crate::daemon::Links {
                nanoleaf: old(l).daemon.links.nanoleaf || opening is Opened,
                ..old(l).daemon.links
            },
            ..old(l).daemon
        },
        ..*old(l)
    };
    lemma_goes_on(linked, config.fps, old(shared).capture_hardware, now);
}

/// The WLED strip is connected if its session opened, shown as such, and touches no
/// other output; then the rest of the loop's turn comes.
pub proof fn the_wled_strip_resumes_by_itself(
    l: &mut SyncLoop,
    config: &Config,
    shared: &mut SharedState,
    opened: bool,
    now: u64,
)
    requires
        old(l).wf(),
        old(l).task is ResumeWled,
        call_ensures(SyncLoop::resume_wled, (l, config, shared, opened, now), ()),
    ensures
        opened ==> final(l).daemon.links.wled,
        !opened ==> final(l).daemon.links.wled == old(l).daemon.links.wled,
        final(l).daemon.links.nanoleaf == old(l).daemon.links.nanoleaf,
        final(l).daemon.links.hue == old(l).daemon.links.hue,
        final(l).daemon.switches == old(l).daemon.switches,
        *final(shared) == (SharedState { wled_connected: opened, ..*old(shared) }),
        goes_on(
            SyncLoop {
                daemon: Daemon {
                    links: crate::daemon::Links {
                        wled: old(l).daemon.links.wled || opened,
                        ..old(l).daemon.links
                    },
                    ..old(l).daemon
                },
                ..*old(l)
            },
            *final(l),
            config.fps,
            old(shared).capture_hardware,
            now,
        ),
{
    let linked = SyncLoop {
        daemon: Daemon {
            links: crate::daemon::Links {
                wled: old(l).daemon.links.wled || opened,
                ..old(l).daemon.links
            },
            ..old(l).daemon
        },
        ..*old(l)
    };
    lemma_goes_on(linked, config.fps, old(shared).capture_hardware, now);
}

/// A switch that opened its session stays on, with the session; one that did not goes
/// off. Either is shown, and no other output is touched.
pub proof fn a_switch_shows_what_came_of_it(
    hue: &mut SyncLoop,
    nanoleaf: &mut SyncLoop,
    wled: &mut SyncLoop,
    hue_shared: &mut SharedState,
    nanoleaf_shared: &mut SharedState,
    wled_shared: &mut SharedState,
    live: LiveSettings,
    opened: bool,
)
    requires
        old(hue).wf() && old(nanoleaf).wf() && old(wled).wf(),
        old(hue).task == Task::SwitchHue(live),
        old(nanoleaf).task == Task::SwitchNanoleaf(live),
        old(wled).task == Task::SwitchWled(live),
        call_ensures(SyncLoop::switch_hue, (hue, hue_shared, opened), ()),
        call_ensures(SyncLoop::switch_nanoleaf, (nanoleaf, nanoleaf_shared, opened), ()),
        call_ensures(SyncLoop::switch_wled, (wled, wled_shared, opened), ()),
    ensures
        final(hue).daemon.switches.hue == opened && final(hue).daemon.links.hue == opened,
        *final(hue_shared) == (SharedState { hue_connected: opened, ..*old(hue_shared) }),
        final(nanoleaf).daemon.switches.nanoleaf == opened && final(nanoleaf).daemon.links.nanoleaf
            == opened,
        final(nanoleaf).daemon.links.hue == old(nanoleaf).daemon.links.hue,
        final(nanoleaf).daemon.switches.hue == old(nanoleaf).daemon.switches.hue,
        *final(nanoleaf_shared) == (SharedState {
            nanoleaf_connected: opened,
            ..*old(nanoleaf_shared)
        }),
        final(wled).daemon.switches.wled == opened && final(wled).daemon.links.wled == opened,
        final(wled).daemon.links.hue == old(wled).daemon.links.hue,
        final(wled).daemon.links.nanoleaf == old(wled).daemon.links.nanoleaf,
        final(wled).daemon.switches.hue == old(wled).daemon.switches.hue,
        final(wled).daemon.switches.nanoleaf == old(wled).daemon.switches.nanoleaf,
        final(wled).task == Task::UpdateSamplers(live),
        *final(wled_shared) == (SharedState { wled_connected: opened, ..*old(wled_shared) }),
        final(hue).pending == old(hue).pending,
        final(nanoleaf).pending == old(nanoleaf).pending,
        final(wled).pending == old(wled).pending,
{
}

/// A closed session is shown as such, for its own output alone; then the next output's
/// switch is looked at, in the order Hue, Nanoleaf, WLED, and then the samplers are
/// told. A switch that stays as it is calls for nothing.
pub proof fn a_closed_output_is_shown_as_closed(
    hue: &mut SyncLoop,
    nanoleaf: &mut SyncLoop,
    wled: &mut SyncLoop,
    hue_shared: &mut SharedState,
    nanoleaf_shared: &mut SharedState,
    wled_shared: &mut SharedState,
    live: LiveSettings,
    black: bool,
)
    requires
        old(hue).wf() && old(nanoleaf).wf() && old(wled).wf(),
        old(hue).task == Task::CloseHue(live),
        old(nanoleaf).task == Task::CloseNanoleaf(live),
        old(wled).task == (Task::CloseWled { live, black }),
        call_ensures(SyncLoop::close_hue, (hue, hue_shared), ()),
        call_ensures(SyncLoop::close_nanoleaf, (nanoleaf, nanoleaf_shared), ()),
        call_ensures(SyncLoop::close_wled, (wled, wled_shared), ()),
    ensures
        *final(hue_shared) == (SharedState { hue_connected: false, ..*old(hue_shared) }),
        final(hue).daemon.links.hue == old(hue).daemon.links.hue,
        final(hue).daemon.switches.hue == old(hue).daemon.switches.hue,
        ({
            let d = old(hue).daemon;
            let running = d.pipeline_state == crate::runtime::PipelineState::Running;
            let on = live.nanoleaf_sync_enabled;
            &&& d.switches.nanoleaf != on && on && running && d.outputs.nanoleaf
                ==> final(hue).task == Task::SwitchNanoleaf(live)
            &&& d.switches.nanoleaf != on && !(on && running) ==> final(hue).task
                == Task::CloseNanoleaf(live) && !final(hue).daemon.links.nanoleaf
            &&& d.switches.nanoleaf == on && d.switches.wled == live.wled_sync_enabled
                ==> final(hue).task == Task::UpdateSamplers(live) && final(hue).daemon == d
        }),
        *final(nanoleaf_shared) == (SharedState {
            nanoleaf_connected: false,
            ..*old(nanoleaf_shared)
        }),
        final(nanoleaf).daemon.links.hue == old(nanoleaf).daemon.links.hue,
        final(nanoleaf).daemon.links.nanoleaf == old(nanoleaf).daemon.links.nanoleaf,
        ({
            let d = old(nanoleaf).daemon;
            let running = d.pipeline_state == crate::runtime::PipelineState::Running;
            let on = live.wled_sync_enabled;
            &&& d.switches.wled != on && on && running && d.outputs.wled ==> final(nanoleaf).task
                == Task::SwitchWled(live)
            &&& d.switches.wled != on && !(on && running) ==> (final(nanoleaf).task matches
                Task::CloseWled { live: l, black: b } && l == live && b == d.links.wled)
                && !final(nanoleaf).daemon.links.wled
            &&& d.switches.wled == on ==> final(nanoleaf).task == Task::UpdateSamplers(live)
                && final(nanoleaf).daemon == d
        }),
        *final(wled_shared) == (SharedState { wled_connected: false, ..*old(wled_shared) }),
        final(wled).task == Task::UpdateSamplers(live),
        same_but_task(*old(wled), *final(wled)),
{
}

/// New settings turn Hue's switch first: it opens a session only in a running loop,
/// and closes it otherwise. The zones shown are the configured ones, and nothing else
/// that is shown changes.
pub proof fn new_settings_begin_with_hue(
    l: &mut SyncLoop,
    config: &Config,
    shared: &mut SharedState,
    live: LiveSettings,
    now: u64,
)
    requires
        old(l).wf(),
        old(l).task == Task::Settings(live),
        now >= 2_000_000_000,
        call_ensures(SyncLoop::settings, (l, config, shared, now), ()),
    ensures
        ({
            let d = old(l).daemon;
            let running = d.pipeline_state == crate::runtime::PipelineState::Running;
            let on = live.hue_sync_enabled;
            &&& d.switches.hue != on && on && running ==> final(l).task == Task::SwitchHue(live)
                && final(l).daemon.switches.hue
            &&& d.switches.hue != on && !(on && running) ==> final(l).task == Task::CloseHue(live)
                && !final(l).daemon.links.hue && final(l).daemon.switches.hue == on
            &&& d.switches.hue == on && d.switches.nanoleaf == live.nanoleaf_sync_enabled
                && d.switches.wled == live.wled_sync_enabled ==> final(l).task
                == Task::UpdateSamplers(live) && final(l).daemon.links == d.links
                && final(l).daemon.switches == d.switches
            &&& final(l).daemon.pipeline_state == d.pipeline_state
            &&& final(l).daemon.outputs == d.outputs
        }),
        final(l).pending == old(l).pending,
        final(shared).hue_zones@ == config.zones@,
        (SharedState { hue_zones: old(shared).hue_zones, ..*final(shared) }) == *old(shared),
{
}

/// A capture that was made anew is shown as what it is; after a failed frame, the turn
/// rests. A probe can only find hardware, never lose it. A new area's session is shown
/// as what it is.
pub proof fn a_new_capture_is_shown_as_it_is(
    restarted: &mut SyncLoop,
    probed: &mut SyncLoop,
    recovered: &mut SyncLoop,
    rebound: &mut SyncLoop,
    config: &Config,
    restarted_shared: &mut SharedState,
    probed_shared: &mut SharedState,
    recovered_shared: &mut SharedState,
    rebound_shared: &mut SharedState,
    yes: bool,
    now: u64,
)
    requires
        old(restarted).wf() && old(probed).wf() && old(recovered).wf() && old(rebound).wf(),
        old(restarted).task is Restart,
        old(probed).task is Probe,
        old(recovered).task is Recover,
        old(rebound).task is RebindHue,
        call_ensures(SyncLoop::restarted, (restarted, config, restarted_shared, yes, now), ()),
        call_ensures(SyncLoop::probed, (probed, probed_shared, yes), ()),
        call_ensures(SyncLoop::recovered, (recovered, recovered_shared, yes, now), ()),
        call_ensures(SyncLoop::rebind_hue, (rebound, rebound_shared, yes), ()),
    ensures
        *final(restarted_shared) == (SharedState { capture_hardware: yes, ..*old(
            restarted_shared,
        ) }),
        config.fps == 0 ==> final(restarted).task is Rate && same_but_task(
            *old(restarted),
            *final(restarted),
        ),
        config.fps != 0 ==> goes_to_frame(*old(restarted), *final(restarted), yes, now),
        final(probed).task is Capture && same_but_task(*old(probed), *final(probed)),
        yes ==> final(probed_shared).capture_hardware,
        !yes ==> *final(probed_shared) == *old(probed_shared),
        (SharedState {
            capture_hardware: old(probed_shared).capture_hardware,
            ..*final(probed_shared)
        }) == *old(probed_shared),
        *final(recovered_shared) == (SharedState { capture_hardware: yes, ..*old(
            recovered_shared,
        ) }),
        final(recovered).task is Rest,
        final(recovered).daemon == (Daemon { last_hw_probe: now, ..old(recovered).daemon }),
        final(rebound).task is StoreArea,
        final(rebound).daemon.links.hue == yes,
        final(rebound).daemon.links.nanoleaf == old(rebound).daemon.links.nanoleaf,
        final(rebound).daemon.links.wled == old(rebound).daemon.links.wled,
        final(rebound).daemon.switches == old(rebound).daemon.switches,
        final(rebound).pending == old(rebound).pending,
        *final(rebound_shared) == (SharedState { hue_connected: yes, ..*old(rebound_shared) }),
{
    lemma_goes_to_frame(*old(restarted), yes, now);
}

/// Each piece of work is followed by the next: the samplers by saving, saving by the
/// area, another area's release by its adoption, that by a new session where Hue is
/// on, and by storing the area; the rate by the frame, the rest by a new turn.
pub proof fn work_that_is_done_is_followed_by_the_next(
    l: &mut SyncLoop,
    config: &Config,
    shared: &SharedState,
    now: u64,
)
    requires
        old(l).wf(),
        old(l).task is UpdateSamplers || old(l).task is Save || old(l).task is ReleaseArea || old(
            l,
        ).task is AdoptArea || old(l).task is StoreArea || old(l).task is Rate || old(
            l,
        ).task is Rest,
        call_ensures(SyncLoop::done, (l, config, shared, now), ()),
    ensures
        old(l).task is UpdateSamplers ==> goes_past_settings(
            *old(l),
            *final(l),
            config.fps,
            shared.capture_hardware,
            now,
        ),
        old(l).task is Save && old(l).pending.sync_bridge && old(l).daemon.outputs.hue ==> final(l).task is Area,
        old(l).task is Save && !(old(l).pending.sync_bridge && old(l).daemon.outputs.hue)
            ==> goes_past_area(
            SyncLoop { pending: PendingCommands { sync_bridge: false, ..old(l).pending }, ..*old(
                l,
            ) },
            *final(l),
            config.fps,
            shared.capture_hardware,
            now,
        ),
        old(l).task is Save ==> !final(l).pending.sync_bridge,
        old(l).task is ReleaseArea ==> (final(l).task matches Task::AdoptArea { rebind }
            && rebind) && same_but_task(*old(l), *final(l)),
        old(l).task matches Task::AdoptArea { rebind } ==> same_but_task(*old(l), *final(l)) && (
        rebind && old(l).daemon.switches.hue ==> final(l).task is RebindHue) && (!(rebind && old(
            l,
        ).daemon.switches.hue) ==> final(l).task is StoreArea),
        old(l).task is StoreArea ==> goes_past_area(
            *old(l),
            *final(l),
            config.fps,
            shared.capture_hardware,
            now,
        ),
        old(l).task is Rate ==> goes_to_frame(*old(l), *final(l), shared.capture_hardware, now),
        old(l).task is Rest ==> final(l).task is Commands && same_but_task(*old(l), *final(l)),
{
    let hardware = shared.capture_hardware;
    lemma_goes_past_settings(*old(l), config.fps, hardware, now);
    let rest = SyncLoop {
        pending: PendingCommands { sync_bridge: false, ..old(l).pending },
        ..*old(l)
    };
    lemma_goes_past_area(rest, config.fps, hardware, now);
    lemma_goes_past_area(*old(l), config.fps, hardware, now);
    lemma_goes_to_frame(*old(l), hardware, now);
}

/// Told about the watchdog, the turn goes on with the TV, the bridge and a request to
/// stop, each where it is due.
pub proof fn the_watchdog_is_followed_by_the_tv(
    l: &mut SyncLoop,
    config: &Config,
    shared: &SharedState,
    now: u64,
    configuration: Option<String>,
)
    requires
        old(l).wf(),
        old(l).task is Watchdog,
        call_ensures(SyncLoop::done, (l, config, shared, now), ()),
        call_ensures(Config::hue_configuration_id, (config,), configuration),
        now >= 5_000_000_000,
    ensures
        ({
            let d = old(l).daemon;
            let power = d.auto_tv_power && now - d.last_tv_power_poll >= 2_000_000_000;
            let bridge = now - d.last_status_check >= 5_000_000_000 && d.outputs.hue
                && d.switches.hue && d.links.hue && configuration is Some;
            let stop = old(l).pending.desired_running == Some(false);
            &&& power ==> final(l).task is Power && final(l).daemon.last_tv_power_poll == now
                && final(l).pending == old(l).pending
            &&& !power && bridge ==> (final(l).task matches Task::Stream { stop: s } && s == stop)
            &&& !power && !bridge && stop ==> (final(l).task matches Task::Stop { asked, external }
                && asked && !external)
            &&& !power && !bridge && !stop ==> !(final(l).task is Stop) && !(final(l).task is Stream)
            &&& !power ==> final(l).pending.desired_running is None
        }),
        final(l).daemon.links == old(l).daemon.links,
        final(l).daemon.switches == old(l).daemon.switches,
{
}

/// A TV that went off stops the loop and one that came on does not, unless a request
/// says otherwise; the bridge is asked first where that is due. What the TV said is
/// shown, and a missing answer is warned of every half minute.
pub proof fn a_tv_that_went_off_stops_the_loop(
    l: &mut SyncLoop,
    config: &Config,
    shared: &mut SharedState,
    reading: PowerReading,
    now: u64,
    warn: bool,
    configuration: Option<String>,
)
    requires
        old(l).wf(),
        old(l).task is Power,
        call_ensures(SyncLoop::power, (l, config, shared, reading, now), warn),
        call_ensures(Config::hue_configuration_id, (config,), configuration),
        now >= 30_000_000_000,
    ensures
        ({
            let d = old(l).daemon;
            let bridge = now - d.last_status_check >= 5_000_000_000 && d.outputs.hue
                && d.switches.hue && d.links.hue && configuration is Some;
            let off = reading == PowerReading::State(false) && (d.observed_tv_power == Some(true)
                || (d.observed_tv_power is None && d.pipeline_state
                == crate::runtime::PipelineState::Running));
            let on = reading == PowerReading::State(true) && d.observed_tv_power == Some(false);
            let stop = off || (!on && old(l).pending.desired_running == Some(false));
            &&& bridge ==> (final(l).task matches Task::Stream { stop: s } && s == stop)
            &&& !bridge && stop ==> (final(l).task matches Task::Stop { asked, external } && asked
                && !external)
            &&& !bridge && !stop ==> !(final(l).task is Stop) && !(final(l).task is Stream)
            &&& final(l).pending.desired_running is None
            &&& reading matches PowerReading::State(active) ==> final(l).daemon.observed_tv_power
                == Some(active) && final(shared).tv_power_state == (if active {
                1u32
            } else {
                2u32
            })
            &&& !(reading is State) ==> final(l).daemon.observed_tv_power == d.observed_tv_power
                && final(shared).tv_power_state == 0
            &&& warn <==> reading is Failed && now - d.last_tv_power_warning >= 30_000_000_000
        }),
        (SharedState { tv_power_state: old(shared).tv_power_state, ..*final(shared) }) == *old(
            shared,
        ),
{
}

/// While the loop is paused, a TV that comes on resumes it, as a request does; one that
/// is off keeps the bridge from being asked.
pub proof fn a_tv_that_came_on_resumes_the_loop(
    l: &mut SyncLoop,
    config: &Config,
    shared: &mut SharedState,
    asked: bool,
    reading: PowerReading,
    now: u64,
    warn: bool,
    configuration: Option<String>,
)
    requires
        old(l).wf(),
        old(l).task == (Task::IdlePower { start: asked }),
        call_ensures(SyncLoop::idle_power, (l, config, shared, reading, now), warn),
        call_ensures(Config::hue_configuration_id, (config,), configuration),
        now >= 30_000_000_000,
    ensures
        ({
            let d = old(l).daemon;
            let came_on = reading == PowerReading::State(true) && d.observed_tv_power == Some(
                false,
            );
            let start = asked || came_on;
            let observed = match reading {
                PowerReading::State(active) => Some(active),
                _ => d.observed_tv_power,
            };
            let asleep = d.auto_tv_power && observed == Some(false);
            let bridge = !start && d.outputs.hue && !asleep && configuration is Some;
            &&& bridge ==> final(l).task is IdleStream
            &&& !bridge && !start ==> final(l).task is Idle
            &&& start && d.outputs.hue && d.switches.hue ==> final(l).task is ResumeHue
            &&& start && !(d.outputs.hue && d.switches.hue) ==> final(l).task is Resume
            &&& final(l).daemon.observed_tv_power == observed
            &&& warn <==> reading is Failed && now - d.last_tv_power_warning >= 30_000_000_000
        }),
        final(l).pending == old(l).pending,
        final(l).daemon.links == old(l).daemon.links,
        reading matches PowerReading::State(active) ==> final(shared).tv_power_state == (if active {
            1u32
        } else {
            2u32
        }),
        !(reading is State) ==> final(shared).tv_power_state == 0,
        (SharedState { tv_power_state: old(shared).tv_power_state, ..*final(shared) }) == *old(
            shared,
        ),
{
}

/// The area is adopted if the bridge gave the same one, released first if it gave
/// another, and left alone if it gave none.
pub proof fn an_area_is_adopted_or_left_alone(
    l: &mut SyncLoop,
    config: &Config,
    shared: &SharedState,
    plan: Option<AreaRefresh>,
    now: u64,
)
    requires
        old(l).wf(),
        old(l).task is Area,
        call_ensures(SyncLoop::area, (l, config, shared, plan, now), ()),
    ensures
        plan == Some(AreaRefresh::SameArea) ==> (final(l).task matches Task::AdoptArea { rebind }
            && !rebind) && same_but_task(*old(l), *final(l)),
        plan == Some(AreaRefresh::OtherArea) ==> final(l).task is ReleaseArea && same_but_task(
            *old(l),
            *final(l),
        ),
        plan is None || plan == Some(AreaRefresh::Ignored) ==> goes_past_area(
            *old(l),
            *final(l),
            config.fps,
            shared.capture_hardware,
            now,
        ),
{
    lemma_goes_past_area(*old(l), config.fps, shared.capture_hardware, now);
}

/// A captured frame goes to Hue where Hue is driven and connected; where only strips
/// are driven, it is watched first. A frame that failed darkens every strip that has
/// a session.
pub proof fn a_captured_frame_goes_to_the_lights(l: &mut SyncLoop, captured: bool, now: u64)
    requires
        old(l).wf(),
        old(l).task is Capture,
        call_ensures(SyncLoop::frame, (l, captured, now), ()),
    ensures
        ({
            let d = old(l).daemon;
            let hue = d.outputs.hue && d.switches.hue;
            let nanoleaf = d.outputs.nanoleaf && d.switches.nanoleaf;
            let wled = d.outputs.wled && d.switches.wled;
            &&& !captured ==> (final(l).task matches Task::Recover { black_nanoleaf, black_wled }
                && black_nanoleaf == d.links.nanoleaf && black_wled == d.links.wled)
            &&& captured && !hue && (nanoleaf || wled) ==> final(l).task is Watch
            &&& captured && hue && d.links.hue ==> (final(l).task matches Task::ShowHue { cut }
                && !cut)
            &&& captured && hue && !d.links.hue && nanoleaf && d.links.nanoleaf ==> (
            final(l).task matches Task::ShowNanoleaf { cut, emitted } && !cut && !emitted)
            &&& captured && hue && !d.links.hue && !d.links.nanoleaf && wled && d.links.wled ==> (
            final(l).task matches Task::ShowWled { cut, emitted } && !cut && !emitted)
            &&& captured && !hue && !nanoleaf && !wled ==> final(l).task is Rest
        }),
        final(l).daemon == old(l).daemon,
        final(l).pending == old(l).pending,
        final(l).watch == old(l).watch,
{
}

/// A watched frame is a cut if its colour is far from that of the frame before, and
/// the first is none; bars are looked for in the first and every fifteenth frame.
pub proof fn a_watched_frame_can_be_a_cut(
    l: &mut SyncLoop,
    average: RgbColor,
    far: bool,
    letterbox_detection: bool,
    now: u64,
    detect: bool,
)
    requires
        old(l).wf(),
        old(l).task is Watch,
        old(l).watch.frame_count < u64::MAX,
        call_ensures(SyncLoop::watched, (l, average, far, letterbox_detection, now), detect),
    ensures
        final(l).watch.frame_count == old(l).watch.frame_count + 1,
        final(l).watch.global == average,
        !letterbox_detection ==> !detect,
        letterbox_detection ==> (detect <==> final(l).watch.frame_count == 1 || final(l).watch.frame_count as int % 15 == 0),
        final(l).task matches Task::ShowNanoleaf { cut, emitted } ==> cut == (far && old(
            l,
        ).watch.frame_count > 0) && !emitted,
        final(l).task matches Task::ShowWled { cut, emitted } ==> cut == (far && old(
            l,
        ).watch.frame_count > 0) && !emitted,
        final(l).task matches Task::ShowHue { cut } ==> cut == (far && old(l).watch.frame_count
            > 0),
        old(l).daemon.links.nanoleaf && !old(l).daemon.links.hue ==> final(l).task is ShowNanoleaf,
        old(l).daemon.links.wled && !old(l).daemon.links.hue && !old(l).daemon.links.nanoleaf
            ==> final(l).task is ShowWled,
        final(l).daemon == old(l).daemon,
        final(l).pending == old(l).pending,
{
}

/// A frame for Hue that failed shows Hue as gone, and opens a new session where that
/// may be tried; otherwise the strips follow, with the sampler's word on the cut where
/// it has one. A frame counts as a light update only if it was sent.
pub proof fn hue_is_followed_by_the_strips(
    l: &mut SyncLoop,
    shared: &mut SharedState,
    watched: bool,
    sampled: Option<bool>,
    sending: Sending,
    now: u64,
    outcome: Option<SendOutcome>,
)
    requires
        old(l).wf(),
        old(l).task == (Task::ShowHue { cut: watched }),
        call_ensures(SyncLoop::show_hue, (l, shared, sampled, sending, now), outcome),
    ensures
        ({
            let cut = if sampled is Some {
                sampled->Some_0
            } else {
                watched
            };
            let sent = sending == Sending::Sent;
            let reopen = sending == (Sending::Failed { ready: true });
            &&& reopen ==> (final(l).task matches Task::ReopenHue { cut: c } && c == cut)
            &&& !reopen && old(l).daemon.links.nanoleaf ==> (final(l).task matches Task::ShowNanoleaf { cut: c, emitted } && c == cut && emitted == sent)
            &&& !reopen && !old(l).daemon.links.nanoleaf && old(l).daemon.links.wled ==> (final(l).task matches Task::ShowWled { cut: c, emitted } && c == cut && emitted == sent)
            &&& !reopen && !old(l).daemon.links.nanoleaf && !old(l).daemon.links.wled ==> final(l).task is Rest
        }),
        sending is Failed ==> !final(shared).hue_connected,
        !(sending is Failed) ==> *final(shared) == *old(shared),
        (SharedState { hue_connected: old(shared).hue_connected, ..*final(shared) }) == *old(
            shared,
        ),
        outcome == Some(SendOutcome::Sent) <==> sending is Sent,
        outcome == Some(SendOutcome::Failed) <==> sending == (Sending::Failed { ready: false }),
        sending is Held || sending == (Sending::Failed { ready: true }) ==> outcome is None,
        final(l).daemon == old(l).daemon,
        final(l).pending == old(l).pending,
{
}

/// A frame for a strip that failed shows that strip as gone, and opens a new session
/// where that may be tried; otherwise the next strip follows, and then the rest. What
/// was sent before still counts.
pub proof fn a_strip_is_followed_by_the_next(
    nanoleaf: &mut SyncLoop,
    wled: &mut SyncLoop,
    nanoleaf_shared: &mut SharedState,
    wled_shared: &mut SharedState,
    cut: bool,
    emitted: bool,
    sending: Sending,
    now: u64,
    nanoleaf_outcome: Option<SendOutcome>,
    wled_outcome: Option<SendOutcome>,
)
    requires
        old(nanoleaf).wf() && old(wled).wf(),
        old(nanoleaf).task == (Task::ShowNanoleaf { cut, emitted }),
        old(wled).task == (Task::ShowWled { cut, emitted }),
        call_ensures(
            SyncLoop::show_nanoleaf,
            (nanoleaf, nanoleaf_shared, sending, now),
            nanoleaf_outcome,
        ),
        call_ensures(SyncLoop::show_wled, (wled, wled_shared, sending, now), wled_outcome),
    ensures
        ({
            let sent = sending == Sending::Sent;
            let reopen = sending == (Sending::Failed { ready: true });
            &&& reopen ==> (final(nanoleaf).task matches Task::ReopenNanoleaf { cut: c, emitted: e }
                && c == cut && e == emitted)
            &&& !reopen && old(nanoleaf).daemon.links.wled ==> (final(nanoleaf).task matches Task::ShowWled { cut: c, emitted: e } && c == cut && e == (emitted
                || sent))
            &&& !reopen && !old(nanoleaf).daemon.links.wled ==> final(nanoleaf).task is Rest
            &&& reopen ==> (final(wled).task matches Task::ReopenWled { emitted: e } && e
                == emitted)
            &&& !reopen ==> final(wled).task is Rest
        }),
        sending is Failed ==> !final(nanoleaf_shared).nanoleaf_connected && !final(wled_shared).wled_connected,
        !(sending is Failed) ==> *final(nanoleaf_shared) == *old(nanoleaf_shared) && *final(wled_shared) == *old(wled_shared),
        (SharedState {
            nanoleaf_connected: old(nanoleaf_shared).nanoleaf_connected,
            ..*final(nanoleaf_shared)
        }) == *old(nanoleaf_shared),
        (SharedState { wled_connected: old(wled_shared).wled_connected, ..*final(wled_shared) })
            == *old(wled_shared),
        nanoleaf_outcome == Some(SendOutcome::Sent) <==> sending is Sent,
        wled_outcome == nanoleaf_outcome,
        final(nanoleaf).daemon == old(nanoleaf).daemon,
        final(wled).daemon == old(wled).daemon,
{
}

/// A frame that needed a new session is lost, whether or not the session opened, and
/// is no light update; the others go on as they would have.
pub proof fn a_reopened_session_lost_its_frame(
    hue: &mut SyncLoop,
    nanoleaf: &mut SyncLoop,
    wled: &mut SyncLoop,
    cut: bool,
    emitted: bool,
    opened: bool,
    now: u64,
    hue_outcome: SendOutcome,
    nanoleaf_outcome: SendOutcome,
    wled_outcome: SendOutcome,
)
    requires
        old(hue).wf() && old(nanoleaf).wf() && old(wled).wf(),
        old(hue).task == (Task::ReopenHue { cut }),
        old(nanoleaf).task == (Task::ReopenNanoleaf { cut, emitted }),
        old(wled).task == (Task::ReopenWled { emitted }),
        call_ensures(SyncLoop::reopen_hue, (hue, opened, now), hue_outcome),
        call_ensures(SyncLoop::reopen_nanoleaf, (nanoleaf, opened, now), nanoleaf_outcome),
        call_ensures(SyncLoop::reopen_wled, (wled, opened, now), wled_outcome),
    ensures
        opened <==> hue_outcome is Reopened,
        !opened <==> hue_outcome is ReopenFailed,
        nanoleaf_outcome == hue_outcome && wled_outcome == hue_outcome,
        old(hue).daemon.links.nanoleaf ==> (final(hue).task matches Task::ShowNanoleaf {
            cut: c,
            emitted: e,
        } && c == cut && !e),
        !old(hue).daemon.links.nanoleaf && old(hue).daemon.links.wled ==> (final(hue).task matches Task::ShowWled { cut: c, emitted: e } && c == cut && !e),
        old(nanoleaf).daemon.links.wled ==> (final(nanoleaf).task matches Task::ShowWled {
            cut: c,
            emitted: e,
        } && c == cut && e == emitted),
        !old(nanoleaf).daemon.links.wled ==> final(nanoleaf).task is Rest,
        final(wled).task is Rest,
        final(hue).daemon == old(hue).daemon,
        final(nanoleaf).daemon == old(nanoleaf).daemon,
        final(wled).daemon == old(wled).daemon,
{
}

/// The last output's frame is counted with what the others sent: once a turn, and only
/// if anything was sent. After a second the count is measured and starts anew.
pub proof fn a_turn_counts_one_light_update(
    wled: &mut SyncLoop,
    shared: &mut SharedState,
    cut: bool,
    emitted: bool,
    sending: Sending,
    now: u64,
    outcome: Option<SendOutcome>,
)
    requires
        old(wled).wf(),
        old(wled).task == (Task::ShowWled { cut, emitted }),
        sending != (Sending::Failed { ready: true }),
        old(wled).meter.updates < u32::MAX,
        call_ensures(SyncLoop::show_wled, (wled, shared, sending, now), outcome),
    ensures
        ({
            let count = old(wled).meter.updates + (if emitted || sending is Sent {
                1int
            } else {
                0int
            });
            let over = now - old(wled).meter.window >= 1_000_000_000;
            &&& over ==> (final(wled).task matches Task::Rest { measured: Some(rate) } && rate.0
                == count && rate.1 == now - old(wled).meter.window) && final(wled).meter.updates
                == 0 && final(wled).meter.window == now
            &&& !over ==> final(wled).task == (Task::Rest { measured: None }) && final(wled).meter.updates == count && final(wled).meter.window == old(wled).meter.window
        }),
{
}

} // verus!
