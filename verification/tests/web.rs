use lg_hue_sync::calibration::active_segment;
use lg_hue_sync::calibration::calibration_color;
use lg_hue_sync::calibration::calibration_perimeter_colors;
use lg_hue_sync::calibration::calibration_zone_colors;
use lg_hue_sync::calibration::CalibrationPattern;
use lg_hue_sync::calibration::ScreenRegion;
use lg_hue_sync::color::RgbColor;
use lg_hue_sync::config::Config;
use lg_hue_sync::config::NanoleafAlignment;
use lg_hue_sync::settings::LiveSettings;
use lg_hue_sync::settings::SyncSwitches;
use lg_hue_sync::web::area_selected;
use lg_hue_sync::web::check_nanoleaf_alignment;
use lg_hue_sync::web::check_wled_led_count;
use lg_hue_sync::web::device_paired;
use lg_hue_sync::web::pairing_address;
use lg_hue_sync::web::requested_area;
use lg_hue_sync::web::requested_bridge;
use lg_hue_sync::web::requested_nanoleaf;
use lg_hue_sync::web::requested_wled;
use lg_hue_sync::web::restart;
use lg_hue_sync::web::save_config;
use lg_hue_sync::web::settings_sent;
use lg_hue_sync::web::sync_bridge;
use lg_hue_sync::web::validate_device_ip;
use lg_hue_sync::web::ApiError;
use lg_hue_sync::web::ControlCommand;
use lg_hue_sync::web::DeviceAddress;
use lg_hue_sync::web::SharedState;

fn settings() -> LiveSettings {
    LiveSettings::from_config(
        &Config::new_default("", "", "", ""),
        SyncSwitches { hue: true, nanoleaf: true, wled: true },
    )
}

fn state() -> SharedState {
    SharedState::new(
        settings(),
        "10.0.0.2".to_string(),
        "10.0.0.3".to_string(),
        String::new(),
        60,
        "320x180".to_string(),
        Config::new_default("", "", "", "").zones,
    )
}

fn refusal<T>(result: Result<T, ApiError>) -> (u16, String) {
    let error = result.err().unwrap();
    (error.status_code(), error.message().to_string())
}

#[test]
fn a_new_state_is_syncing_but_not_connected() {
    let status = state().status();
    assert!(status.is_syncing);
    assert_eq!(status.tv_power_state, "unknown");
    assert_eq!((status.fps_x100, status.light_updates_x100), (6000, 0));
    assert!(!status.hue_connected && !status.nanoleaf_connected && !status.wled_connected);
    assert_eq!((status.hue_bridge_ip.as_str(), status.nanoleaf_ip.as_str()), ("10.0.0.2", "10.0.0.3"));
    assert_eq!((status.wled_ip.as_str(), status.wled_led_count), ("", 60));
    assert_eq!(status.capture_resolution, "320x180");
    assert_eq!(status.settings, settings());
    assert!(status.hue_colors.is_empty() && status.calibration_pattern.is_none());
    assert!(!status.hue_zones.is_empty());
}

#[test]
fn rates_are_kept_in_hundredths() {
    let mut state = state();
    state.set_fps((23.976f32 * 100.0) as u32);
    state.set_light_update_fps(1250);
    assert_eq!((state.get_fps(), state.light_update_fps()), (2397, 1250));
}

#[test]
fn the_tv_power_state_has_three_names() {
    let mut state = state();
    for (active, code, name) in
        [(Some(true), 1, "active"), (Some(false), 2, "standby"), (None, 0, "unknown")]
    {
        state.set_tv_power_state(active);
        assert_eq!(state.tv_power_state, code);
        assert_eq!(state.status().tv_power_state, name);
    }
}

#[test]
fn starting_and_stopping_follow_the_command() {
    let mut state = state();
    assert_eq!(state.toggle(), ControlCommand::Stop);
    let lost = state.stop(false);
    assert!(state.is_syncing);
    assert_eq!(refusal(lost), (502, "sync controller is unavailable".to_string()));
    assert_eq!(state.stop(true).unwrap(), "stopping");
    assert!(!state.is_syncing);
    assert_eq!(state.toggle(), ControlCommand::Start);
    assert!(state.start(false).is_err());
    assert!(!state.is_syncing);
    assert_eq!(state.start(true).unwrap(), "starting");
    assert!(state.is_syncing);
}

#[test]
fn commands_are_answered_in_their_own_words() {
    assert_eq!(settings_sent(true).unwrap(), "ok");
    assert_eq!(save_config(true).unwrap(), "saved");
    assert_eq!(restart(true).unwrap(), "restarting");
    assert_eq!(sync_bridge(true).unwrap(), (202, "queued"));
    assert_eq!(area_selected(true).unwrap(), "selected");
    assert_eq!(device_paired(true).unwrap(), "paired");
    assert_eq!(refusal(restart(false)).0, 502);
    assert_eq!(refusal(sync_bridge(false)).0, 502);
}

#[test]
fn settings_are_stored_and_applied() {
    let mut state = state();
    let mut wanted = settings();
    wanted.max_color_step = 3;
    assert_eq!(state.settings(wanted), ControlCommand::ApplySettings(wanted));
    assert_eq!(state.current_settings, wanted);
    let alignment = NanoleafAlignment { perimeter_offset: 9, ..NanoleafAlignment::default() };
    state.align_nanoleaf(alignment);
    let ControlCommand::ApplySettings(applied) = state.align_wled(alignment) else {
        panic!("no settings");
    };
    assert_eq!(applied.nanoleaf_alignment, alignment);
    assert_eq!(applied.wled_alignment, alignment);
    assert_eq!(applied.max_color_step, 3);
    assert_eq!(state.current_settings, applied);
}

#[test]
fn new_devices_reconfigure_the_daemon() {
    let mut state = state();
    assert_eq!(state.wled_configured("10.0.0.9".to_string(), 300), ControlCommand::Reconfigure);
    assert_eq!((state.wled_ip.as_str(), state.wled_led_count), ("10.0.0.9", 300));
    assert_eq!(state.nanoleaf_paired("10.0.0.8".to_string()), ControlCommand::Reconfigure);
    assert_eq!(state.nanoleaf_ip, "10.0.0.8");
}

#[test]
fn alignments_have_to_start_on_the_strip() {
    let at = |offset| NanoleafAlignment { perimeter_offset: offset, ..NanoleafAlignment::default() };
    assert!(check_nanoleaf_alignment(at(39)).is_ok());
    assert_eq!(
        refusal(check_nanoleaf_alignment(at(40))),
        (400, "Nanoleaf perimeter offset must be between 0 and 39".to_string())
    );
    let mut config = Config::new_default("", "", "", "");
    assert_eq!(
        config.align_nanoleaf(at(1)).unwrap_err(),
        "Pair a Nanoleaf 4D before applying its alignment"
    );
    assert_eq!(
        config.align_wled(at(1)).unwrap_err(),
        "Configure WLED before applying its alignment"
    );
    config.pair_nanoleaf("ip".to_string(), "token".to_string(), 40, vec![]);
    config.configure_wled("ip".to_string(), 120);
    assert!(config.align_nanoleaf(at(39)).is_ok());
    assert_eq!(config.nanoleaf.as_ref().unwrap().alignment, at(39));
    assert!(config.align_wled(at(119)).is_ok());
    assert_eq!(config.wled.as_ref().unwrap().alignment, at(119));
    let switches = SyncSwitches { hue: true, nanoleaf: true, wled: true };
    let next_start = LiveSettings::from_config(&config, switches);
    assert_eq!((next_start.nanoleaf_alignment, next_start.wled_alignment), (at(39), at(119)));
    assert_eq!(
        config.align_wled(at(120)).unwrap_err(),
        "WLED perimeter offset must be between 0 and 119"
    );
    assert_eq!(config.wled.as_ref().unwrap().alignment, at(119));
    config.wled.as_mut().unwrap().led_count = 1;
    assert_eq!(
        config.align_wled(at(4)).unwrap_err(),
        "WLED perimeter offset must be between 0 and 3"
    );
}

#[test]
fn wled_strips_have_4_to_2048_leds() {
    for count in [4, 2048] {
        assert!(check_wled_led_count(count).is_ok());
    }
    for count in [0, 3, 2049, u16::MAX] {
        assert_eq!(
            refusal(check_wled_led_count(count)),
            (400, "WLED LED count must be between 4 and 2048".to_string())
        );
    }
}

#[test]
fn requests_have_to_name_what_they_want() {
    assert_eq!(requested_area("  abc ").unwrap(), "abc");
    assert_eq!(refusal(requested_area(" \t")), (400, "Select a Hue Entertainment Area".to_string()));
    assert_eq!(requested_bridge(Some(" 10.0.0.2".to_string())).as_deref(), Some(" 10.0.0.2"));
    assert_eq!(requested_bridge(Some("  ".to_string())), None);
    assert_eq!(requested_bridge(None), None);
    assert_eq!(requested_nanoleaf(Some("x".to_string())).unwrap(), "x");
    assert_eq!(
        refusal(requested_nanoleaf(None)),
        (400, "Nanoleaf controller IP is required".to_string())
    );
    let mut config = Config::new_default("10.0.0.2", "", "", "");
    assert_eq!(
        config.check_hue_paired().unwrap_err(),
        "Pair a Hue Bridge before selecting an Entertainment Area"
    );
    config.username = "user".to_string();
    assert!(config.check_hue_paired().is_ok());
}

fn accepts(address: DeviceAddress) -> bool {
    match validate_device_ip(Some(address)) {
        Ok(_) => true,
        Err(text) => {
            assert_eq!(text, "Device IP must be a reachable local-network address");
            false
        }
    }
}

#[test]
fn device_addresses_are_on_the_local_network() {
    assert_eq!(validate_device_ip(None).unwrap_err(), "Enter a valid device IP address");
    for octets in [
        [192, 168, 1, 20],
        [10, 0, 0, 1],
        [223, 255, 255, 255],
        [240, 0, 0, 1],
        [0, 0, 0, 1],
        [1, 0, 0, 0],
        [255, 255, 255, 255],
    ] {
        assert!(accepts(DeviceAddress::V4(octets)), "{:?}", octets);
    }
    for octets in
        [[127, 0, 0, 1], [127, 9, 9, 9], [224, 0, 0, 1], [239, 255, 2, 3], [0, 0, 0, 0]]
    {
        assert!(!accepts(DeviceAddress::V4(octets)), "{:?}", octets);
    }
    for segments in [
        [0xfe80, 0, 0, 0, 0, 0, 0, 1],
        [0, 0, 0, 0, 0, 0, 0, 2],
        [1, 0, 0, 0, 0, 0, 0, 0],
        [0, 0, 0, 0, 0, 0, 1, 1],
        [0xfeff, 0, 0, 0, 0, 0, 0, 1],
        [0, 0, 0, 0, 0, 0xffff, 0x7f00, 1],
    ] {
        assert!(accepts(DeviceAddress::V6(segments)), "{:?}", segments);
    }
    for segments in [
        [0, 0, 0, 0, 0, 0, 0, 0],
        [0, 0, 0, 0, 0, 0, 0, 1],
        [0xff02, 0, 0, 0, 0, 0, 0, 1],
        [0xff00, 0, 0, 0, 0, 0, 0, 0],
        [0xffff, 1, 2, 3, 4, 5, 6, 7],
    ] {
        assert!(!accepts(DeviceAddress::V6(segments)), "{:?}", segments);
    }
}

#[test]
fn patterns_are_chosen_by_name() {
    let mut state = state();
    for name in [
        "red", "green", "blue", "white", "warm-white", "daylight-white", "quadrants", "perimeter",
    ] {
        assert_eq!(state.test_pattern(name).unwrap(), "ok");
        assert_eq!(state.status().calibration_pattern, Some(name));
    }
    assert_eq!(refusal(state.test_pattern("Red")), (400, "unknown test pattern".to_string()));
    assert_eq!(state.calibration_pattern, Some(CalibrationPattern::Perimeter));
    assert_eq!(state.test_pattern("off").unwrap(), "ok");
    assert_eq!(state.calibration_pattern, None);
    assert_eq!(CalibrationPattern::parse(""), None);
}

fn region(x: f32, y: f32) -> ScreenRegion {
    ScreenRegion { top: y < 0.33, right: x > 0.66, bottom: y > 0.66 }
}

#[test]
fn patterns_have_their_colors() {
    let center = region(0.5, 0.5);
    for (pattern, color) in [
        (CalibrationPattern::Red, (255, 0, 0)),
        (CalibrationPattern::Green, (0, 255, 0)),
        (CalibrationPattern::Blue, (0, 0, 255)),
        (CalibrationPattern::White, (255, 255, 255)),
        (CalibrationPattern::WarmWhite, (255, 180, 107)),
        (CalibrationPattern::DaylightWhite, (255, 255, 255)),
        (CalibrationPattern::Perimeter, (255, 255, 255)),
        (CalibrationPattern::Quadrants, (255, 255, 0)),
    ] {
        assert_eq!(calibration_color(pattern, center), RgbColor::new(color.0, color.1, color.2));
    }
    let quadrant = |x, y| calibration_color(CalibrationPattern::Quadrants, region(x, y));
    assert_eq!(quadrant(0.9, 0.1), RgbColor::new(255, 0, 0));
    assert_eq!(quadrant(0.9, 0.9), RgbColor::new(0, 255, 0));
    assert_eq!(quadrant(0.1, 0.9), RgbColor::new(0, 0, 255));
    let zones = Config::new_default("", "", "", "").zones;
    let centers = vec![region(0.9, 0.9); zones.len()];
    let colors = calibration_zone_colors(CalibrationPattern::Quadrants, &zones, &centers);
    assert_eq!(colors.len(), zones.len());
    assert_eq!(colors[0], (zones[0].channel_id, RgbColor::new(0, 255, 0)));
}

#[test]
fn a_strip_of_forty_follows_the_screen_edges() {
    let colors = calibration_perimeter_colors(CalibrationPattern::Quadrants, 40, 0);
    for (index, color) in colors.iter().enumerate() {
        let position = if (16..=28).contains(&index) {
            (0.5, 0.0)
        } else if (29..=35).contains(&index) {
            (1.0, 0.5)
        } else if index <= 7 || index >= 36 {
            (0.5, 1.0)
        } else {
            (0.0, 0.5)
        };
        let expected =
            calibration_color(CalibrationPattern::Quadrants, region(position.0, position.1));
        assert_eq!(*color, expected, "{}", index);
    }
}

#[test]
fn other_strips_are_divided_as_single_precision_divides_them() {
    for count in (0..=2048usize).chain([20_000, 65_535]) {
        if count == 40 {
            continue;
        }
        let colors = calibration_perimeter_colors(CalibrationPattern::Quadrants, count, 0);
        assert_eq!(colors.len(), count);
        for (index, color) in colors.iter().enumerate() {
            let x = index as f32 / count.max(1) as f32;
            let expected = calibration_color(CalibrationPattern::Quadrants, region(x, 0.5));
            assert_eq!(*color, expected, "{} of {}", index, count);
        }
    }
}

#[test]
fn the_tracer_moves_every_150_milliseconds() {
    assert_eq!(active_segment(Some(149), 40), 0);
    assert_eq!(active_segment(Some(150), 40), 1);
    assert_eq!(active_segment(Some(150 * 41), 40), 1);
    assert_eq!(active_segment(Some(150 * 41), 0), 0);
    assert_eq!(active_segment(None, 40), 0);
    let colors = calibration_perimeter_colors(CalibrationPattern::Perimeter, 5, 3);
    let lit: Vec<usize> = (0..5).filter(|i| colors[*i] != RgbColor::new(0, 0, 0)).collect();
    assert_eq!(lit, vec![3]);
    assert_eq!(colors[3], RgbColor::new(255, 255, 255));
}

#[test]
fn a_wled_request_is_refused_for_its_count_first() {
    let good = DeviceAddress::V4([192, 168, 1, 20]);
    let bad = DeviceAddress::V4([127, 0, 0, 1]);
    for count in [4, 60, 2048] {
        assert!(matches!(
            requested_wled(count, Some(good)),
            Ok(DeviceAddress::V4([192, 168, 1, 20]))
        ));
    }
    let count = (400, "WLED LED count must be between 4 and 2048".to_string());
    assert_eq!(refusal(requested_wled(3, Some(good))), count);
    assert_eq!(refusal(requested_wled(2049, Some(bad))), count);
    assert_eq!(refusal(requested_wled(0, None)), count);
    assert_eq!(
        refusal(requested_wled(60, Some(bad))),
        (400, "Device IP must be a reachable local-network address".to_string())
    );
    assert_eq!(
        refusal(requested_wled(60, None)),
        (400, "Enter a valid device IP address".to_string())
    );
}

#[test]
fn pairing_with_a_bad_address_fails() {
    let good = DeviceAddress::V4([192, 168, 1, 20]);
    assert!(matches!(pairing_address(Some(good)), Ok(DeviceAddress::V4([192, 168, 1, 20]))));
    let unreachable = pairing_address(Some(DeviceAddress::V4([0, 0, 0, 0])));
    assert!(matches!(&unreachable, Err(ApiError::SetupFailed(_))));
    assert_eq!(refusal(unreachable).1, "Device IP must be a reachable local-network address");
    let unread = pairing_address(None);
    assert!(matches!(&unread, Err(ApiError::SetupFailed(_))));
    assert_eq!(refusal(unread).1, "Enter a valid device IP address");
}
