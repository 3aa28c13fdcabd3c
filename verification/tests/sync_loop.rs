use lg_hue_sync::color::RgbColor;
use lg_hue_sync::config::Config;
use lg_hue_sync::config::Scalar;
use lg_hue_sync::daemon::introduce;
use lg_hue_sync::daemon::AreaRefresh;
use lg_hue_sync::daemon::Daemon;
use lg_hue_sync::daemon::NanoleafOpening;
use lg_hue_sync::daemon::PowerReading;
use lg_hue_sync::daemon::StreamState;
use lg_hue_sync::daemon::SECOND;
use lg_hue_sync::output::SendOutcome;
use lg_hue_sync::output::Sending;
use lg_hue_sync::runtime::PipelineState;
use lg_hue_sync::sync_loop::SyncLoop;
use lg_hue_sync::sync_loop::Task;
use lg_hue_sync::web::ControlCommand;
use lg_hue_sync::web::SharedState;

const ID: &str = "0123456789abcdef0123456789abcdef0123";
const START: u64 = 100 * SECOND;

fn config() -> Config {
    let mut config = Config::new_default("10.0.0.2", "user", "key", "");
    config.entertainment_configuration_id = Some(ID.to_string());
    config.pair_nanoleaf("10.0.0.3".to_string(), "token".to_string(), 40, vec![]);
    config.configure_wled("10.0.0.4".to_string(), 90);
    config.auto_tv_power = false;
    config
}

/// Drives a loop whose tasks all succeed, and notes them by name.
struct Driver {
    config: Config,
    shared: SharedState,
    state: SyncLoop,
    now: u64,
    opens: bool,
    streaming: bool,
    power: PowerReading,
    area: Option<AreaRefresh>,
    captures: bool,
    sending: Sending,
    outcomes: Vec<Option<SendOutcome>>,
}

fn driver(config: Config) -> Driver {
    let (daemon, _, pending) = Daemon::start(&config, PowerReading::State(true), START);
    Driver {
        shared: introduce(&config, &daemon, true, 3000),
        state: SyncLoop::new(daemon, pending, START),
        config,
        now: START,
        opens: true,
        streaming: true,
        power: PowerReading::State(true),
        area: None,
        captures: true,
        sending: Sending::Sent,
        outcomes: Vec::new(),
    }
}

impl Driver {
    /// Carries out one task.
    fn step(&mut self, commands: &[ControlCommand]) -> String {
        let name = format!("{:?}", self.state.task);
        let (config, shared, now) = (&self.config, &mut self.shared, self.now);
        let reply = StreamState { active: self.streaming, smoothing_factor: Scalar { bits: 77 } };
        match self.state.task {
            Task::Commands | Task::Idle => self.state.commands(config, shared, commands, now),
            Task::Power => {
                self.state.power(config, shared, self.power, now);
            }
            Task::IdlePower { .. } => {
                self.state.idle_power(config, shared, self.power, now);
            }
            Task::Stream { .. } => {
                let smoothing = self.state.stream(config, shared, Some(reply), now);
                assert_eq!(smoothing, Some(Scalar { bits: 77 }));
            }
            Task::IdleStream => self.state.idle_stream(Some(reply)),
            Task::Stop { .. } => self.state.stop(shared),
            Task::Resume => self.state.resume(config, shared, now),
            Task::ResumeHue => self.state.resume_hue(config, shared, self.opens, now),
            Task::ResumeNanoleaf { .. } => {
                self.state.resume_nanoleaf(config, shared, NanoleafOpening::Opened, now)
            }
            Task::ResumeWled => self.state.resume_wled(config, shared, self.opens, now),
            Task::Settings(_) => self.state.settings(config, shared, now),
            Task::Release(_) => self.state.released(shared),
            Task::CloseHue(_) => self.state.close_hue(shared),
            Task::CloseNanoleaf(_) => self.state.close_nanoleaf(shared),
            Task::CloseWled { .. } => self.state.close_wled(shared),
            Task::SwitchHue(_) => self.state.switch_hue(shared, self.opens),
            Task::SwitchNanoleaf(_) => self.state.switch_nanoleaf(shared, self.opens),
            Task::SwitchWled(_) => self.state.switch_wled(shared, self.opens),
            Task::Area => self.state.area(config, shared, self.area, now),
            Task::RebindHue => self.state.rebind_hue(shared, self.opens),
            Task::Restart => self.state.restarted(config, shared, self.opens, now),
            Task::Probe => self.state.probed(shared, self.opens),
            Task::Capture => self.state.frame(self.captures, now),
            Task::Watch => {
                let average = RgbColor::new(1, 2, 3);
                self.state.watched(average, true, config.letterbox_detection, now);
            }
            Task::ShowHue { .. } => {
                let outcome = self.state.show_hue(shared, Some(true), self.sending, now);
                self.outcomes.push(outcome);
            }
            Task::ReopenHue { .. } => {
                self.outcomes.push(Some(self.state.reopen_hue(self.opens, now)));
            }
            Task::ShowNanoleaf { .. } => {
                self.outcomes.push(self.state.show_nanoleaf(shared, self.sending, now));
            }
            Task::ReopenNanoleaf { .. } => {
                self.outcomes.push(Some(self.state.reopen_nanoleaf(self.opens, now)));
            }
            Task::ShowWled { .. } => {
                self.outcomes.push(self.state.show_wled(shared, self.sending, now));
            }
            Task::ReopenWled { .. } => {
                self.outcomes.push(Some(self.state.reopen_wled(self.opens, now)));
            }
            Task::Recover { .. } => self.state.recovered(shared, self.opens, now),
            Task::End { .. } => {}
            _ => self.state.done(config, shared, now),
        }
        name.split([' ', '(', '{']).next().unwrap().to_string()
    }

    /// Carries out the tasks of a turn, up to the next collection of commands.
    fn whole_turn(&mut self, commands: &[ControlCommand]) -> Vec<String> {
        let mut names = vec![self.step(commands)];
        while !matches!(self.state.task, Task::Commands | Task::Idle | Task::End { .. }) {
            names.push(self.step(&[]));
        }
        names
    }

    /// Carries out a turn, and leaves out the frame's way to the outputs.
    fn turn(&mut self, commands: &[ControlCommand]) -> Vec<String> {
        let shows = ["ShowHue", "ShowNanoleaf", "ShowWled", "Watch"];
        let mut names = self.whole_turn(commands);
        names.retain(|name| !shows.contains(&name.as_str()));
        names
    }
}

#[test]
fn a_quiet_turn_captures_a_frame() {
    let mut driver = driver(config());
    assert_eq!(driver.turn(&[]), ["Commands", "Capture", "Rest"]);
    driver.now += 2 * SECOND;
    assert_eq!(driver.turn(&[]), ["Commands", "Watchdog", "Capture", "Rest"]);
    driver.now += 3 * SECOND;
    assert_eq!(driver.turn(&[]), ["Commands", "Watchdog", "Stream", "Capture", "Rest"]);
    driver.config.fps = 0;
    driver.shared.capture_hardware = false;
    assert_eq!(driver.turn(&[]), ["Commands", "Rate", "Probe", "Capture", "Rest"]);
    assert!(driver.shared.capture_hardware);
}

#[test]
fn every_command_is_dealt_with_in_one_turn() {
    let mut driver = driver(config());
    let live = driver.shared.current_settings;
    driver.area = Some(AreaRefresh::SameArea);
    let names = driver.turn(&[
        ControlCommand::ApplySettings(live),
        ControlCommand::SaveConfig,
        ControlCommand::SyncBridge,
        ControlCommand::Restart,
    ]);
    assert_eq!(
        names,
        [
            "Commands", "Settings", "UpdateSamplers", "Save", "Area", "AdoptArea",
            "StoreArea", "Restart", "Capture", "Rest"
        ]
    );
    assert_eq!(driver.turn(&[]), ["Commands", "Capture", "Rest"]);
    driver.area = Some(AreaRefresh::OtherArea);
    driver.opens = false;
    assert_eq!(
        driver.turn(&[ControlCommand::SyncBridge]),
        ["Commands", "Area", "ReleaseArea", "AdoptArea", "RebindHue", "StoreArea", "Capture", "Rest"]
    );
    assert!(!driver.shared.hue_connected && !driver.state.daemon.links.hue);
    driver.area = Some(AreaRefresh::Ignored);
    assert_eq!(
        driver.turn(&[ControlCommand::SyncBridge]),
        ["Commands", "Area", "Capture", "Rest"]
    );
}

#[test]
fn a_reconfigured_loop_ends_after_saving() {
    let mut driver = driver(config());
    let names = driver.turn(&[ControlCommand::Reconfigure, ControlCommand::SaveConfig]);
    assert_eq!(names, ["Commands", "Save"]);
    assert!(matches!(driver.state.task, Task::End { release_hue: true }));
}

#[test]
fn a_stopped_loop_idles_until_it_is_started() {
    let mut driver = driver(config());
    driver.streaming = false;
    assert_eq!(driver.turn(&[ControlCommand::Stop]), ["Commands", "Stop", "Release", "Darken"]);
    assert!(!driver.shared.is_syncing && !driver.shared.hue_connected);
    assert_eq!(driver.turn(&[ControlCommand::SaveConfig]), ["Idle", "IdleStream"]);
    driver.opens = false;
    assert_eq!(driver.turn(&[ControlCommand::Start]), ["Idle", "ResumeHue"]);
    assert_eq!(driver.state.daemon.pipeline_state, PipelineState::Paused);
    driver.opens = true;
    assert_eq!(
        driver.turn(&[ControlCommand::Start]),
        ["Idle", "ResumeHue", "ResumeNanoleaf", "ResumeWled", "Save", "Capture", "Rest"]
    );
    assert_eq!(driver.state.daemon.pipeline_state, PipelineState::Running);
    assert!(driver.shared.is_syncing && driver.shared.hue_connected);
}

#[test]
fn another_app_pauses_and_resumes_the_loop() {
    let mut driver = driver(config());
    driver.now += 5 * SECOND;
    driver.streaming = false;
    assert_eq!(
        driver.turn(&[]),
        ["Commands", "Watchdog", "Stream", "Stop", "Release", "Darken"]
    );
    assert_eq!(driver.turn(&[]), ["Idle", "IdleStream"]);
    driver.streaming = true;
    assert_eq!(
        driver.turn(&[]),
        ["Idle", "IdleStream", "ResumeHue", "ResumeNanoleaf", "ResumeWled", "Capture", "Rest"]
    );
}

#[test]
fn the_tv_pauses_and_resumes_the_loop() {
    let mut config = config();
    config.auto_tv_power = true;
    config.bridge_ip = String::new();
    config.nanoleaf = None;
    let mut driver = driver(config);
    assert_eq!(driver.turn(&[]), ["Commands", "Power", "Capture", "Rest"]);
    driver.power = PowerReading::State(false);
    driver.now += 2 * SECOND;
    assert_eq!(driver.turn(&[]), ["Commands", "Watchdog", "Power", "Stop", "Release", "Darken"]);
    assert_eq!(driver.shared.status().tv_power_state, "standby");
    driver.now += SECOND;
    assert_eq!(driver.turn(&[]), ["Idle"]);
    driver.now += SECOND;
    assert_eq!(driver.turn(&[]), ["Idle", "IdlePower"]);
    driver.now += 2 * SECOND;
    driver.power = PowerReading::State(true);
    assert_eq!(
        driver.turn(&[]),
        ["Idle", "IdlePower", "Resume", "ResumeWled", "Capture", "Rest"]
    );
    assert!(driver.shared.is_syncing);
}

#[test]
fn switches_open_and_close_sessions() {
    let mut driver = driver(config());
    let mut live = driver.shared.current_settings;
    live.hue_sync_enabled = false;
    live.wled_sync_enabled = false;
    driver.turn(&[ControlCommand::ApplySettings(live)]);
    assert!(!driver.shared.hue_connected && !driver.shared.wled_connected);
    assert!(driver.shared.nanoleaf_connected);
    live.hue_sync_enabled = true;
    live.wled_sync_enabled = true;
    assert_eq!(
        driver.turn(&[ControlCommand::ApplySettings(live)]),
        [
            "Commands", "Settings", "SwitchHue", "SwitchWled", "UpdateSamplers",
            "Capture", "Rest"
        ]
    );
    assert!(driver.shared.hue_connected && driver.shared.wled_connected);
    live.nanoleaf_sync_enabled = false;
    driver.turn(&[ControlCommand::ApplySettings(live)]);
    driver.opens = false;
    live.nanoleaf_sync_enabled = true;
    driver.turn(&[ControlCommand::ApplySettings(live)]);
    assert!(!driver.state.daemon.switches.nanoleaf);
}

#[test]
fn a_failed_capture_is_made_anew() {
    let mut driver = driver(config());
    driver.captures = false;
    driver.opens = false;
    assert_eq!(driver.turn(&[]), ["Commands", "Capture", "Recover", "Rest"]);
    assert!(!driver.shared.capture_hardware);
    driver.captures = true;
    assert_eq!(driver.turn(&[]), ["Commands", "Capture", "Rest"]);
    driver.now += SECOND;
    driver.turn(&[]);
    assert_eq!(driver.state.meter.updates, 0);
    assert_eq!(driver.state.meter.window, driver.now);
}

#[test]
fn shutting_down_releases_hue() {
    let mut running = driver(config());
    running.state.shut_down(&running.config, &running.shared, START);
    assert!(matches!(running.state.task, Task::End { release_hue: true }));
    let mut idle = driver(config());
    idle.turn(&[ControlCommand::Stop]);
    idle.state.shut_down(&idle.config, &idle.shared, START);
    assert!(matches!(idle.state.task, Task::Capture));
}

#[test]
fn a_frame_goes_to_every_output_in_turn() {
    let mut driver = driver(config());
    assert_eq!(
        driver.whole_turn(&[]),
        ["Commands", "Capture", "ShowHue", "ShowNanoleaf", "ShowWled", "Rest"]
    );
    assert_eq!(driver.outcomes, [Some(SendOutcome::Sent); 3]);
    assert_eq!(driver.state.meter.updates, 1);
    driver.outcomes.clear();
    driver.sending = Sending::Held;
    driver.whole_turn(&[]);
    assert_eq!(driver.outcomes, [None; 3]);
    assert_eq!(driver.state.meter.updates, 1);
    driver.outcomes.clear();
    driver.sending = Sending::Failed { ready: false };
    driver.whole_turn(&[]);
    assert_eq!(driver.outcomes, [Some(SendOutcome::Failed); 3]);
    assert_eq!(driver.state.meter.updates, 1);
}

#[test]
fn a_failed_session_is_opened_anew_once_it_may_be() {
    let mut driver = driver(config());
    driver.sending = Sending::Failed { ready: true };
    assert_eq!(
        driver.whole_turn(&[]),
        [
            "Commands", "Capture", "ShowHue", "ReopenHue", "ShowNanoleaf", "ReopenNanoleaf",
            "ShowWled", "ReopenWled", "Rest"
        ]
    );
    let reopened = Some(SendOutcome::Reopened);
    assert_eq!(driver.outcomes, [None, reopened, None, reopened, None, reopened]);
    driver.outcomes.clear();
    driver.opens = false;
    driver.whole_turn(&[]);
    let failed = Some(SendOutcome::ReopenFailed);
    assert_eq!(driver.outcomes, [None, failed, None, failed, None, failed]);
    assert_eq!(driver.state.meter.updates, 0);
    assert!(driver.state.daemon.links.hue && driver.state.daemon.links.wled);
}

#[test]
fn strips_watch_the_frame_where_hue_does_not() {
    let mut config = config();
    config.hue_sync_enabled = false;
    config.nanoleaf_sync_enabled = false;
    let mut driver = driver(config);
    assert_eq!(
        driver.whole_turn(&[]),
        ["Commands", "Capture", "Watch", "ShowWled", "Rest"]
    );
    assert_eq!(driver.state.watch.frame_count, 1);
    assert_eq!(driver.state.watch.global, RgbColor::new(1, 2, 3));
    driver.step(&[]);
    driver.step(&[]);
    driver.step(&[]);
    assert!(matches!(driver.state.task, Task::ShowWled { cut: true, emitted: false }));
}

#[test]
fn the_zone_sampler_decides_on_scene_cuts() {
    let mut driver = driver(config());
    driver.step(&[]);
    driver.step(&[]);
    assert!(matches!(driver.state.task, Task::ShowHue { cut: false }));
    let mut unsampled = driver.state;
    unsampled.show_hue(&mut driver.shared, None, Sending::Held, START);
    assert!(matches!(unsampled.task, Task::ShowNanoleaf { cut: false, emitted: false }));
    driver.step(&[]);
    assert!(matches!(driver.state.task, Task::ShowNanoleaf { cut: true, emitted: true }));
}

#[test]
fn resuming_leaves_switched_off_outputs_alone() {
    let mut config = config();
    config.hue_sync_enabled = false;
    config.nanoleaf_sync_enabled = false;
    let mut driver = driver(config);
    driver.streaming = false;
    driver.opens = false;
    assert_eq!(driver.turn(&[ControlCommand::Stop]), ["Commands", "Stop", "Release", "Darken"]);
    assert_eq!(
        driver.whole_turn(&[ControlCommand::Start]),
        ["Idle", "Resume", "ResumeWled", "Capture", "Watch", "ShowWled", "Rest"]
    );
    assert_eq!(driver.state.daemon.pipeline_state, PipelineState::Running);
    assert!(driver.shared.is_syncing && !driver.shared.hue_connected);
    let links = driver.state.daemon.links;
    assert!(!links.hue && !links.nanoleaf && links.wled);
    driver.area = Some(AreaRefresh::OtherArea);
    assert_eq!(
        driver.turn(&[ControlCommand::SyncBridge]),
        ["Commands", "Area", "ReleaseArea", "AdoptArea", "StoreArea", "Capture", "Rest"]
    );
    assert!(!driver.state.daemon.links.hue);
}

#[test]
fn a_switch_turned_on_while_paused_opens_its_session_later() {
    let mut config = config();
    config.hue_sync_enabled = false;
    let mut driver = driver(config);
    driver.streaming = false;
    driver.turn(&[ControlCommand::Stop]);
    let mut live = driver.shared.current_settings;
    live.hue_sync_enabled = true;
    assert_eq!(
        driver.turn(&[ControlCommand::ApplySettings(live), ControlCommand::Start]),
        [
            "Idle", "Resume", "ResumeNanoleaf", "ResumeWled", "Settings", "SwitchHue",
            "UpdateSamplers", "Capture", "Rest"
        ]
    );
    assert!(driver.state.daemon.links.hue && driver.shared.hue_connected);
}

#[test]
fn switches_are_dealt_with_output_by_output() {
    let mut config = config();
    config.hue_sync_enabled = false;
    config.wled_sync_enabled = false;
    let mut driver = driver(config);
    let mut live = driver.shared.current_settings;
    live.hue_sync_enabled = true;
    live.nanoleaf_sync_enabled = false;
    live.wled_sync_enabled = true;
    driver.step(&[ControlCommand::ApplySettings(live)]);
    assert_eq!(driver.step(&[]), "Settings");
    assert!(matches!(driver.state.task, Task::SwitchHue(_)));
    assert!(driver.shared.nanoleaf_connected && driver.state.daemon.links.nanoleaf);
    assert_eq!(driver.step(&[]), "SwitchHue");
    assert!(driver.shared.hue_connected && driver.shared.nanoleaf_connected);
    assert_eq!(driver.step(&[]), "CloseNanoleaf");
    assert!(!driver.shared.nanoleaf_connected && !driver.shared.wled_connected);
    assert_eq!(driver.step(&[]), "SwitchWled");
    assert!(driver.shared.wled_connected);
    assert_eq!(driver.step(&[]), "UpdateSamplers");
    live.hue_sync_enabled = false;
    live.nanoleaf_sync_enabled = true;
    live.wled_sync_enabled = false;
    assert_eq!(driver.turn(&[]), ["Capture", "Rest"]);
    driver.step(&[ControlCommand::ApplySettings(live)]);
    driver.step(&[]);
    assert!(matches!(driver.state.task, Task::CloseHue(_)));
    assert!(driver.shared.hue_connected && !driver.state.daemon.links.hue);
    driver.step(&[]);
    assert!(!driver.shared.hue_connected);
    assert_eq!(driver.step(&[]), "SwitchNanoleaf");
    assert!(matches!(driver.state.task, Task::CloseWled { black: true, .. }));
}

#[test]
fn pausing_lets_go_of_hue_before_the_strips() {
    let mut driver = driver(config());
    driver.step(&[ControlCommand::Stop]);
    assert_eq!(driver.step(&[]), "Stop");
    assert!(!driver.shared.is_syncing && driver.shared.hue_connected);
    assert_eq!(driver.step(&[]), "Release");
    assert!(!driver.shared.hue_connected);
    assert!(matches!(driver.state.task, Task::Darken(work) if work.black_nanoleaf && work.black_wled));
}

#[test]
fn a_failed_frame_shows_at_once() {
    let mut driver = driver(config());
    driver.sending = Sending::Failed { ready: true };
    for _ in 0..3 {
        driver.step(&[]);
    }
    assert!(matches!(driver.state.task, Task::ReopenHue { .. }));
    assert!(!driver.shared.hue_connected && driver.shared.nanoleaf_connected);
    driver.step(&[]);
    driver.step(&[]);
    assert!(!driver.shared.nanoleaf_connected && driver.shared.wled_connected);
}

#[test]
fn the_status_never_shows_a_secret() {
    let mut hidden = config();
    hidden.username = "hidden".to_string();
    hidden.clientkey = "hidden".to_string();
    hidden.nanoleaf.as_mut().unwrap().auth_token = "hidden".to_string();
    let mut left = driver(config());
    let mut right = driver(hidden);
    let mut live = left.shared.current_settings;
    live.hue_sync_enabled = false;
    let turns: [&[ControlCommand]; 6] = [
        &[],
        &[ControlCommand::ApplySettings(live), ControlCommand::SaveConfig],
        &[ControlCommand::SyncBridge, ControlCommand::Restart],
        &[ControlCommand::Stop],
        &[ControlCommand::Start],
        &[],
    ];
    for commands in turns {
        assert_eq!(left.whole_turn(commands), right.whole_turn(commands));
        let (shown, other) = (left.shared.status(), right.shared.status());
        let text = format!("{:?}", shown);
        assert_eq!(text, format!("{:?}", other));
        assert!(!text.contains("hidden") && !text.contains("token"));
    }
}
