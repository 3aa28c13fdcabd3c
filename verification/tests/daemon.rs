use lg_hue_sync::calibration::CalibrationPattern;
use lg_hue_sync::calibration::ScreenRegion;
use lg_hue_sync::color::RgbColor;
use lg_hue_sync::config::Config;
use lg_hue_sync::config::EntertainmentArea;
use lg_hue_sync::config::Scalar;
use lg_hue_sync::daemon::adopt_area;
use lg_hue_sync::daemon::elapsed_since;
use lg_hue_sync::daemon::first_zone_setup;
use lg_hue_sync::daemon::introduce;
use lg_hue_sync::daemon::nanoleaf_setup;
use lg_hue_sync::daemon::refresh_plan;
use lg_hue_sync::daemon::remaining;
use lg_hue_sync::daemon::wled_setup;
use lg_hue_sync::daemon::zone_setup;
use lg_hue_sync::daemon::AreaRefresh;
use lg_hue_sync::daemon::Daemon;
use lg_hue_sync::daemon::Links;
use lg_hue_sync::daemon::NanoleafOpening;
use lg_hue_sync::daemon::PauseWork;
use lg_hue_sync::daemon::PowerReading;
use lg_hue_sync::daemon::ResumeWork;
use lg_hue_sync::daemon::Switching;
use lg_hue_sync::daemon::SECOND;
use lg_hue_sync::output::hue_encoding;
use lg_hue_sync::output::hue_frame;
use lg_hue_sync::output::hue_sent;
use lg_hue_sync::output::is_virtually_identical;
use lg_hue_sync::output::nanoleaf_frame;
use lg_hue_sync::output::nanoleaf_sent;
use lg_hue_sync::output::scene_cut;
use lg_hue_sync::output::send_outcome;
use lg_hue_sync::output::settle;
use lg_hue_sync::output::wled_frame;
use lg_hue_sync::output::wled_sent;
use lg_hue_sync::output::HueEncoding;
use lg_hue_sync::output::HueThrottle;
use lg_hue_sync::output::LightMeter;
use lg_hue_sync::output::PerimeterThrottle;
use lg_hue_sync::output::PerimeterWatch;
use lg_hue_sync::output::RetryNote;
use lg_hue_sync::output::Sending;
use lg_hue_sync::output::SendOutcome;
use lg_hue_sync::runtime::PendingCommands;
use lg_hue_sync::runtime::PipelineState;
use lg_hue_sync::sampler::SamplerSetting;
use lg_hue_sync::settings::hue_update;
use lg_hue_sync::settings::nanoleaf_update;
use lg_hue_sync::settings::sampler_start;
use lg_hue_sync::settings::update_wled;
use lg_hue_sync::web::ControlCommand;
use lg_hue_sync::web::SharedState;

const ID: &str = "0123456789abcdef0123456789abcdef0123";
const NOW: u64 = 100 * SECOND;
const MS: u64 = 1_000_000;

fn config() -> Config {
    let mut config = Config::new_default("10.0.0.2", "user", "key", "");
    config.entertainment_configuration_id = Some(ID.to_string());
    config.pair_nanoleaf("10.0.0.3".to_string(), "token".to_string(), 40, vec![4, 5]);
    config.configure_wled("10.0.0.4".to_string(), 90);
    config
}

fn begin(config: &Config, reading: PowerReading) -> (Daemon, SharedState, PendingCommands) {
    let (daemon, _, pending) = Daemon::start(config, reading, NOW);
    let shared = introduce(config, &daemon, true, 3000);
    (daemon, shared, pending)
}

#[test]
fn a_configured_daemon_begins_with_every_output() {
    let config = config();
    let (daemon, plan, mut pending) = Daemon::start(&config, PowerReading::State(true), NOW);
    assert_eq!(plan.open, Links { hue: true, nanoleaf: true, wled: true });
    assert!(!plan.release_hue && !plan.resolve_area);
    assert_eq!(daemon.pipeline_state, PipelineState::Running);
    assert_eq!(daemon.observed_tv_power, Some(true));
    assert!(!pending.take_request(false) && !pending.take_request(true));
    let shared = introduce(&config, &daemon, true, 2397);
    let status = shared.status();
    assert!(status.is_syncing && status.hue_connected && status.wled_connected);
    assert_eq!(status.capture_resolution, "320x180");
    assert_eq!((status.wled_ip.as_str(), status.wled_led_count), ("10.0.0.4", 90));
    assert_eq!((status.tv_power_state, status.fps_x100), ("active", 2397));
}

#[test]
fn a_sleeping_tv_keeps_the_daemon_paused() {
    let mut config = config();
    let (daemon, plan, mut pending) = Daemon::start(&config, PowerReading::State(false), NOW);
    assert_eq!(plan.open, Links { hue: false, nanoleaf: false, wled: false });
    assert!(plan.release_hue);
    assert_eq!(daemon.pipeline_state, PipelineState::Paused);
    assert!(pending.take_request(false));
    assert_eq!(introduce(&config, &daemon, false, 0).status().tv_power_state, "standby");
    config.auto_tv_power = false;
    let (daemon, plan, _) = Daemon::start(&config, PowerReading::State(false), NOW);
    assert_eq!(daemon.pipeline_state, PipelineState::Running);
    assert!(plan.open.hue && !plan.release_hue);
    let (daemon, ..) = Daemon::start(&config, PowerReading::Failed, NOW);
    assert_eq!(daemon.observed_tv_power, None);
}

#[test]
fn an_unresolved_area_is_resolved_first() {
    let mut config = config();
    config.entertainment_configuration_id = None;
    assert!(Daemon::start(&config, PowerReading::Unknown, NOW).1.resolve_area);
    config.bridge_ip = String::new();
    let (daemon, plan, _) = Daemon::start(&config, PowerReading::Unknown, NOW);
    assert!(!plan.resolve_area && !plan.open.hue && !daemon.outputs.hue);
}

#[test]
fn the_status_says_nothing_of_secrets() {
    let mut config = config();
    let (daemon, shared, _) = begin(&config, PowerReading::State(true));
    let before = format!("{:?}", shared.status());
    config.username = "hidden".to_string();
    config.clientkey = "hidden".to_string();
    config.nanoleaf.as_mut().unwrap().auth_token = "hidden".to_string();
    let after = format!("{:?}", introduce(&config, &daemon, true, 3000).status());
    assert_eq!(before, after);
}

#[test]
fn timers_fire_once_per_interval() {
    let config = config();
    let (mut daemon, ..) = begin(&config, PowerReading::State(true));
    assert!(!daemon.watchdog_due(NOW + 2 * SECOND - 1));
    assert!(daemon.watchdog_due(NOW + 2 * SECOND));
    assert!(!daemon.watchdog_due(NOW + 3 * SECOND));
    assert!(daemon.power_poll_due(NOW));
    assert!(!daemon.power_poll_due(NOW + SECOND));
    assert!(daemon.power_poll_due(NOW + 2 * SECOND));
    assert!(!daemon.probe_due(false, NOW + 499 * MS));
    assert!(daemon.probe_due(false, NOW + 500 * MS));
    assert!(!daemon.probe_due(true, NOW + 5 * SECOND));
    assert_eq!(elapsed_since(5, 7), 0);
    assert_eq!(remaining(NOW + 10, NOW, 25), 15);
    assert_eq!(remaining(NOW + 30, NOW, 25), 0);
}

#[test]
fn the_loop_follows_the_tv() {
    let config = config();
    let (mut daemon, mut shared, mut pending) = begin(&config, PowerReading::Unknown);
    assert!(!daemon.power_read(&mut shared, &mut pending, PowerReading::State(true), NOW));
    assert!(!pending.take_request(true));
    daemon.power_read(&mut shared, &mut pending, PowerReading::State(false), NOW);
    assert_eq!(shared.status().tv_power_state, "standby");
    assert!(pending.take_request(false));
    let work = daemon.pause(&mut shared, true, false).unwrap();
    assert_eq!(work, PauseWork { release_hue: true, black_nanoleaf: true, black_wled: true });
    assert!(!shared.is_syncing && !daemon.links.hue);
    assert!(daemon.reactivation_check(&config, false).is_none());
    let (woke, warn) = daemon.power_read_paused(&mut shared, PowerReading::Failed, NOW);
    assert_eq!((woke, warn), (false, true));
    let (_, warn) = daemon.power_read_paused(&mut shared, PowerReading::Failed, NOW + SECOND);
    assert!(!warn);
    assert_eq!(shared.status().tv_power_state, "unknown");
    let (woke, _) = daemon.power_read_paused(&mut shared, PowerReading::State(true), NOW + SECOND);
    assert!(woke);
    let (woke, _) = daemon.power_read_paused(&mut shared, PowerReading::State(true), NOW + SECOND);
    assert!(!woke);
}

#[test]
fn the_first_answer_of_a_running_tv_changes_nothing() {
    let config = config();
    let (mut daemon, mut shared, mut pending) = begin(&config, PowerReading::Failed);
    daemon.power_read(&mut shared, &mut pending, PowerReading::State(true), NOW);
    assert!(!pending.take_request(true));
    let (mut daemon, mut shared, mut pending) = begin(&config, PowerReading::Failed);
    daemon.power_read(&mut shared, &mut pending, PowerReading::State(false), NOW);
    assert!(pending.take_request(false));
    let (mut daemon, mut shared, mut pending) = begin(&config, PowerReading::Failed);
    assert!(daemon.power_read(&mut shared, &mut pending, PowerReading::Failed, NOW));
    assert!(!daemon.power_read(&mut shared, &mut pending, PowerReading::Failed, NOW + SECOND));
}

#[test]
fn manual_mode_leaves_the_tv_alone() {
    let config = config();
    let (mut daemon, mut shared, _) = begin(&config, PowerReading::State(true));
    shared.current_settings.auto_tv_power = false;
    daemon.follow_setting(&mut shared, NOW);
    assert_eq!(daemon.observed_tv_power, None);
    assert_eq!(shared.status().tv_power_state, "unknown");
    assert!(!daemon.power_poll_due(NOW + 60 * SECOND));
    shared.current_settings.auto_tv_power = true;
    daemon.follow_setting(&mut shared, NOW + 60 * SECOND);
    assert!(daemon.power_poll_due(NOW + 60 * SECOND));
}

#[test]
fn another_app_can_stop_and_start_the_area() {
    let config = config();
    let (mut daemon, mut shared, _) = begin(&config, PowerReading::State(true));
    assert_eq!(daemon.status_check(&config, NOW + 4 * SECOND), None);
    assert_eq!(daemon.status_check(&config, NOW + 5 * SECOND).as_deref(), Some(ID));
    assert_eq!(daemon.status_check(&config, NOW + 6 * SECOND), None);
    assert_eq!(daemon.pause(&mut shared, false, false), None);
    let work = daemon.pause(&mut shared, false, true).unwrap();
    assert!(!work.release_hue);
    assert_eq!(daemon.reactivation_check(&config, false).as_deref(), Some(ID));
    assert_eq!(daemon.reactivation_check(&config, true), None);
}

#[test]
fn resuming_needs_hue_where_hue_is_configured() {
    let config = config();
    let (mut daemon, mut shared, _) = begin(&config, PowerReading::State(true));
    daemon.pause(&mut shared, true, false);
    let work = daemon.resume(&mut shared, false);
    assert_eq!(work, ResumeWork { resumed: false, open_nanoleaf: false, open_wled: false });
    assert_eq!(daemon.pipeline_state, PipelineState::Paused);
    assert!(!shared.is_syncing);
    let work = daemon.resume(&mut shared, true);
    assert_eq!(work, ResumeWork { resumed: true, open_nanoleaf: true, open_wled: true });
    assert!(shared.is_syncing && shared.hue_connected && daemon.links.hue);
    daemon.nanoleaf_resumed(&mut shared, NanoleafOpening::StreamFailed);
    assert!(!shared.nanoleaf_connected && daemon.links.nanoleaf);
    daemon.nanoleaf_resumed(&mut shared, NanoleafOpening::ControlRefused);
    assert!(!shared.nanoleaf_connected);
    daemon.nanoleaf_resumed(&mut shared, NanoleafOpening::Opened);
    assert!(shared.nanoleaf_connected);
    daemon.wled_resumed(&mut shared, false);
    assert!(!shared.wled_connected && daemon.links.wled);
    daemon.wled_resumed(&mut shared, true);
    assert!(shared.wled_connected);
    daemon.pause(&mut shared, true, false);
    daemon.outputs.hue = false;
    assert!(daemon.resume(&mut shared, false).resumed);
    assert!(!daemon.links.hue);
}

#[test]
fn resuming_opens_nothing_for_switched_off_outputs() {
    let mut config = config();
    config.hue_sync_enabled = false;
    config.nanoleaf_sync_enabled = false;
    config.wled_sync_enabled = false;
    let (mut daemon, mut shared, _) = begin(&config, PowerReading::State(true));
    assert_eq!(daemon.links, Links { hue: false, nanoleaf: false, wled: false });
    daemon.pause(&mut shared, true, false);
    let work = daemon.resume(&mut shared, false);
    assert_eq!(work, ResumeWork { resumed: true, open_nanoleaf: false, open_wled: false });
    assert_eq!(daemon.links, Links { hue: false, nanoleaf: false, wled: false });
    assert!(shared.is_syncing && !shared.hue_connected);
}

#[test]
fn outputs_are_switched_one_by_one() {
    let config = config();
    let (mut daemon, mut shared, _) = begin(&config, PowerReading::State(true));
    assert_eq!(daemon.turn_hue(true), Switching::Nothing);
    assert_eq!(daemon.turn_wled(false), Switching::Close);
    assert_eq!(daemon.links, Links { hue: true, nanoleaf: true, wled: false });
    assert_eq!(daemon.turn_hue(false), Switching::Close);
    assert_eq!(daemon.links, Links { hue: false, nanoleaf: true, wled: false });
    assert_eq!(daemon.turn_wled(true), Switching::Open);
    daemon.wled_switched(&mut shared, false);
    assert!(!daemon.switches.wled && !shared.wled_connected);
    assert_eq!(daemon.turn_wled(false), Switching::Nothing);
    assert_eq!(daemon.turn_hue(true), Switching::Open);
    daemon.hue_switched(&mut shared, true);
    assert!(daemon.sends_hue() && daemon.sends_nanoleaf() && !daemon.sends_wled());
    assert_eq!(daemon.turn_nanoleaf(false), Switching::Close);
    daemon.outputs.nanoleaf = false;
    assert_eq!(daemon.turn_nanoleaf(true), Switching::Nothing);
    assert!(daemon.switches.nanoleaf && !daemon.links.nanoleaf);
}

#[test]
fn nothing_is_opened_while_paused() {
    let config = config();
    let (mut daemon, mut shared, _) = begin(&config, PowerReading::State(true));
    daemon.pause(&mut shared, true, false);
    assert_eq!(daemon.turn_hue(false), Switching::Close);
    assert_eq!(daemon.turn_hue(true), Switching::Close);
    assert!(daemon.switches.hue && !daemon.links.hue);
}

#[test]
fn settings_are_taken_over_before_the_switches() {
    let config = config();
    let (mut daemon, mut shared, _) = begin(&config, PowerReading::State(true));
    let mut live = shared.current_settings;
    live.hue_sync_enabled = false;
    live.use_xy_gamut = true;
    live.hue_output_brightness = Scalar { bits: 7 };
    shared.hue_zones.clear();
    daemon.apply_settings(&mut shared, &config, &live, NOW);
    assert!(daemon.use_xy && daemon.hue_gain.trim.bits == 7);
    assert!(daemon.switches.hue && daemon.links.hue && shared.hue_connected);
    assert_eq!(shared.hue_zones.len(), config.zones.len());
    assert_eq!(daemon.observed_tv_power, Some(true));
    live.auto_tv_power = false;
    daemon.apply_settings(&mut shared, &config, &live, NOW);
    assert_eq!((daemon.auto_tv_power, daemon.observed_tv_power), (false, None));
}

fn area(config: &Config, id: &str) -> EntertainmentArea {
    EntertainmentArea {
        name: "TV".to_string(),
        configuration_id: id.to_string(),
        certificate_sha256: "pin".to_string(),
        zones: config.zones.iter().take(2).cloned().collect(),
    }
}

#[test]
fn a_refreshed_area_is_rebound_only_if_it_changed() {
    let mut config = config();
    let (mut daemon, mut shared, _) = begin(&config, PowerReading::State(true));
    assert_eq!(refresh_plan(&config, &area(&config, ID)), AreaRefresh::SameArea);
    let other = area(&config, "other");
    assert_eq!(refresh_plan(&config, &other), AreaRefresh::OtherArea);
    let empty = EntertainmentArea { zones: vec![], ..area(&config, "other") };
    assert_eq!(refresh_plan(&config, &empty), AreaRefresh::Ignored);
    adopt_area(&mut config, &mut shared, other);
    assert_eq!((config.zones.len(), shared.hue_zones.len()), (2, 2));
    assert_eq!(config.entertainment_configuration_id.as_deref(), Some("other"));
    daemon.hue_rebound(&mut shared, false);
    assert!(!daemon.links.hue && !shared.hue_connected);
    let setup = zone_setup(&config, &shared.current_settings);
    assert_eq!(setup.zones.len(), 2);
    config.smoothing_factor = Scalar { bits: 1 };
    assert_eq!(first_zone_setup(&config).smoothing_factor.bits, 0.35f32.to_bits());
}

#[test]
fn samplers_are_told_their_settings_in_order() {
    let mut config = config();
    let gain = Scalar { bits: 5 };
    let setup = nanoleaf_setup(&config, gain).unwrap();
    assert_eq!((setup.segments, setup.output_ids), (40, vec![4, 5]));
    let (mut sampler, setup) = wled_setup(&config, gain).unwrap();
    assert_eq!((setup.segments, setup.brightness_multiplier), (90, gain));
    let (_, shared, _) = begin(&config, PowerReading::State(true));
    let live = shared.current_settings;
    assert_eq!(sampler.take_settings(), sampler_start(&live));
    assert_eq!(sampler_start(&live)[4], SamplerSetting::MaxColorStep(12));
    update_wled(&mut sampler, &live, gain);
    let told = sampler.take_settings();
    assert_eq!(told, nanoleaf_update(&live, gain));
    assert_eq!(told.len(), 10);
    assert_eq!(told[4], SamplerSetting::BrightnessMultiplier(gain));
    assert_eq!(hue_update(&live)[3], SamplerSetting::LetterboxDetection(true));
    config.wled.as_mut().unwrap().enabled = false;
    config.nanoleaf = None;
    assert!(wled_setup(&config, gain).is_none() && nanoleaf_setup(&config, gain).is_none());
}

#[test]
fn perimeters_watch_the_picture_only_without_hue() {
    let config = config();
    let (mut daemon, ..) = begin(&config, PowerReading::State(true));
    assert!(!daemon.perimeter_only());
    daemon.switches.hue = false;
    assert!(daemon.perimeter_only());
    daemon.switches.nanoleaf = false;
    assert!(daemon.perimeter_only());
    daemon.switches.wled = false;
    assert!(!daemon.perimeter_only());
    let mut watch = PerimeterWatch::new();
    let color = RgbColor::new(9, 9, 9);
    assert_eq!(watch.note_frame(color, true, true), (false, true));
    assert_eq!(watch.global, color);
    assert_eq!(watch.note_frame(color, true, true), (true, false));
    for _ in 3..15 {
        assert_eq!(watch.note_frame(color, false, true), (false, false));
    }
    assert_eq!(watch.note_frame(color, false, true), (false, true));
    assert_eq!(PerimeterWatch::new().note_frame(color, true, false), (false, false));
}

#[test]
fn a_failed_capture_is_probed_later() {
    let config = config();
    let (mut daemon, mut shared, _) = begin(&config, PowerReading::State(true));
    daemon.capture_recovered(&mut shared, false, NOW + SECOND);
    assert!(!shared.capture_hardware);
    assert!(!daemon.probe_due(false, NOW + SECOND + 100 * MS));
    assert!(daemon.probe_due(false, NOW + SECOND + 500 * MS));
}

#[test]
fn commands_wait_until_they_are_taken() {
    let config = config();
    let (_, shared, _) = begin(&config, PowerReading::State(true));
    let live = shared.current_settings;
    let mut later = live;
    later.max_color_step = 1;
    let mut pending = PendingCommands::default();
    pending.receive(&[
        ControlCommand::Start,
        ControlCommand::ApplySettings(live),
        ControlCommand::SaveConfig,
        ControlCommand::Stop,
        ControlCommand::ApplySettings(later),
        ControlCommand::Restart,
    ]);
    pending.receive(&[ControlCommand::Reconfigure, ControlCommand::SyncBridge]);
    assert!(pending.take_request(false));
    assert!(!pending.take_request(false));
    assert_eq!(pending.take_settings(), Some(later));
    assert_eq!(pending.take_settings(), None);
    assert!(pending.take_save_config() && !pending.take_save_config());
    assert!(pending.take_sync_bridge() && !pending.take_sync_bridge());
    assert!(pending.take_reconfigure() && !pending.take_reconfigure());
    assert!(pending.take_restart() && !pending.take_restart());
    pending.receive(&[ControlCommand::Stop, ControlCommand::Start]);
    assert!(pending.take_request(true));
    pending.receive(&[ControlCommand::Start]);
    assert!(!pending.take_request(false));
    assert!(!pending.take_request(true));
    assert!(PendingCommands::at_start(false).take_request(false));
}

type Channel = (u8, (u16, u16, u16));

#[test]
fn hue_frames_within_the_deadband_are_held_back() {
    let base: [Channel; 2] = [(0, (1000, 2000, 3000)), (1, (0, 0, 65535))];
    assert!(is_virtually_identical(&base, &base));
    assert!(is_virtually_identical(&base, &[(0, (1349, 1651, 3000)), (1, (0, 349, 65535))]));
    assert!(!is_virtually_identical(&base, &[(0, (1350, 2000, 3000)), (1, (0, 0, 65535))]));
    assert!(!is_virtually_identical(&base, &[(0, (1000, 2000, 3000)), (1, (0, 0, 65185))]));
    assert!(!is_virtually_identical(&base, &base[..1]));
    assert!(!is_virtually_identical(&[], &[]));

    let config = config();
    let (_, mut shared, _) = begin(&config, PowerReading::State(true));
    let mut throttle = HueThrottle::new(NOW);
    assert!(throttle.should_send(true, &base, NOW));
    let sent = hue_sent(&mut throttle, &mut shared, base.to_vec(), SendOutcome::Failed);
    assert_eq!((sent.retry, sent.emitted), (RetryNote::Nothing, false));
    assert!(!shared.hue_connected);
    assert!(!throttle.should_send(true, &base, NOW + 499 * MS));
    assert_eq!(throttle.static_frame_count, 1);
    assert!(throttle.should_send(true, &base, NOW + 500 * MS));
    assert!(!throttle.should_send(true, &base, NOW + 999 * MS));
    assert!(throttle.should_send(false, &base, NOW + 999 * MS));
    let sent = hue_sent(&mut throttle, &mut shared, base.to_vec(), SendOutcome::Reopened);
    assert_eq!((sent.retry, sent.emitted), (RetryNote::Success, false));
    assert!(shared.hue_connected);
    let moved = [(0, (5000, 2000, 3000)), (1, (0, 0, 65535))];
    assert!(throttle.should_send(true, &moved, NOW + 999 * MS));
    assert_eq!(throttle.static_frame_count, 0);
}

#[test]
fn perimeter_frames_are_repeated_twice_a_second() {
    let config = config();
    let (_, mut shared, _) = begin(&config, PowerReading::State(true));
    let colors = vec![RgbColor::new(1, 2, 3)];
    let mut throttle = PerimeterThrottle::new(NOW);
    assert!(throttle.should_send(true, true, NOW + MS));
    let sent = wled_sent(&mut throttle, &mut shared, colors.clone(), SendOutcome::ReopenFailed);
    assert_eq!((sent.retry, sent.emitted), (RetryNote::Failure, false));
    assert!(throttle.last_colors.is_empty() && !shared.wled_connected);
    assert!(!throttle.should_send(true, false, NOW + 500 * MS));
    assert!(throttle.should_send(true, false, NOW + 501 * MS));
    assert!(throttle.should_send(false, false, NOW + 502 * MS));
    let sent = wled_sent(&mut throttle, &mut shared, colors.clone(), SendOutcome::Sent);
    assert_eq!((sent.retry, sent.emitted), (RetryNote::Success, true));
    assert_eq!(throttle.last_colors, colors);
    assert!(shared.wled_connected);
    wled_sent(&mut throttle, &mut shared, vec![], SendOutcome::Reopened);
    assert!(shared.wled_connected);
    nanoleaf_sent(&mut throttle, &mut shared, vec![], SendOutcome::Reopened);
    assert!(!shared.nanoleaf_connected);
    assert_eq!(nanoleaf_frame(&mut shared, colors.clone(), 0), colors);
    assert!(shared.nanoleaf_connected);
    assert!(nanoleaf_sent(&mut throttle, &mut shared, vec![], SendOutcome::Sent).emitted);
    assert!(shared.nanoleaf_connected && throttle.last_colors.is_empty());
}

#[test]
fn calibration_replaces_what_was_sampled() {
    let config = config();
    let (_, mut shared, _) = begin(&config, PowerReading::State(true));
    let sampled = vec![(7, RgbColor::new(1, 2, 3))];
    let center = ScreenRegion { top: false, right: false, bottom: false };
    let centers = vec![center; config.zones.len()];
    assert_eq!(hue_frame(&mut shared, sampled.clone(), &config.zones, &centers), sampled);
    assert_eq!(shared.live_hue_colors, sampled);
    assert_eq!(hue_encoding(None, true), HueEncoding { scaled: true, xy: true });
    shared.calibration_pattern = Some(CalibrationPattern::Red);
    let red = RgbColor::new(255, 0, 0);
    let shown = hue_frame(&mut shared, sampled, &config.zones, &centers);
    assert!(shown.iter().all(|(_, color)| *color == red));
    assert_eq!(shown.len(), config.zones.len());
    assert_eq!(wled_frame(&mut shared, vec![RgbColor::new(0, 0, 0); 3], 0), vec![red; 3]);
    assert_eq!(shared.live_wled_colors, vec![red; 3]);
    assert_eq!(
        hue_encoding(Some(CalibrationPattern::Red), true),
        HueEncoding { scaled: false, xy: false }
    );
}

#[test]
fn light_updates_are_counted_by_the_second() {
    let mut meter = LightMeter::new(NOW);
    assert_eq!(meter.note(true, NOW + 400 * MS), None);
    assert_eq!(meter.note(false, NOW + 800 * MS), None);
    assert_eq!(meter.note(true, NOW + 1200 * MS), Some((2, 1200 * MS)));
    assert_eq!(meter.note(true, NOW + 1300 * MS), None);
    assert_eq!(meter.updates, 1);
}

#[test]
fn outcomes_follow_from_sending_and_reopening() {
    assert_eq!(send_outcome(true, true, true), SendOutcome::Sent);
    assert_eq!(send_outcome(true, false, false), SendOutcome::Sent);
    assert_eq!(send_outcome(false, false, true), SendOutcome::Failed);
    assert_eq!(send_outcome(false, true, true), SendOutcome::Reopened);
    assert_eq!(send_outcome(false, true, false), SendOutcome::ReopenFailed);
    assert_eq!(settle(Sending::Held), None);
    assert_eq!(settle(Sending::Sent), Some(SendOutcome::Sent));
    assert_eq!(settle(Sending::Failed { ready: false }), Some(SendOutcome::Failed));
    assert_eq!(settle(Sending::Failed { ready: true }), None);
}

#[test]
fn the_zone_sampler_overrules_the_perimeter_watch() {
    assert!(scene_cut(Some(true), false));
    assert!(!scene_cut(Some(false), true));
    assert!(scene_cut(None, true));
    assert!(!scene_cut(None, false));
}
