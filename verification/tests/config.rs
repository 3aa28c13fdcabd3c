use lg_hue_sync::cli::hue_test;
use lg_hue_sync::cli::nanoleaf_test;
use lg_hue_sync::cli::pairing_base;
use lg_hue_sync::cli::wled_test;
use lg_hue_sync::cli::zone_name;
use lg_hue_sync::cli::WledTestRefusal;
use lg_hue_sync::config::default_fps;
use lg_hue_sync::config::default_nanoleaf_port;
use lg_hue_sync::config::default_nanoleaf_segments;
use lg_hue_sync::config::load_setup_config;
use lg_hue_sync::config::Config;
use lg_hue_sync::config::EntertainmentArea;
use lg_hue_sync::config::LightZone;
use lg_hue_sync::config::LoadFailure;
use lg_hue_sync::config::NanoleafAlignment;
use lg_hue_sync::config::NanoleafStartCorner;
use lg_hue_sync::config::Scalar;
use lg_hue_sync::config::StoredConfig;
use lg_hue_sync::config::StoredNanoleaf;
use lg_hue_sync::config::StoredWled;
use lg_hue_sync::config::WledConfig;
use lg_hue_sync::settings::LiveSettings;
use lg_hue_sync::settings::SyncSwitches;

fn value(scalar: Scalar) -> f32 {
    f32::from_bits(scalar.bits)
}

fn area(id: &str, zones: Vec<LightZone>) -> EntertainmentArea {
    EntertainmentArea {
        name: "TV".to_string(),
        configuration_id: id.to_string(),
        certificate_sha256: "pin".to_string(),
        zones,
    }
}

fn zone(channel_id: u8, name: &str) -> LightZone {
    let mut zone = Config::new_default("", "", "", "").zones[0].clone();
    zone.channel_id = channel_id;
    zone.name = name.to_string();
    zone
}

const ID: &str = "0123456789abcdef0123456789abcdef0123";

#[test]
fn a_fresh_configuration_has_the_documented_defaults() {
    let config = Config::new_default("10.0.0.2", "user", "key", "7");
    assert_eq!(config.bridge_ip, "10.0.0.2");
    assert_eq!(config.username, "user");
    assert_eq!(config.clientkey, "key");
    assert_eq!(config.entertainment_area_id, "7");
    assert!(config.entertainment_configuration_id.is_none());
    assert_eq!((config.fps, config.capture_width, config.capture_height), (30, 320, 180));
    assert_eq!(config.fps, default_fps());
    assert_eq!(value(config.brightness_multiplier), 1.0);
    assert_eq!(value(config.wled_output_brightness), 1.0);
    assert_eq!(value(config.saturation_boost), 1.5);
    assert_eq!(value(config.peak_weight), 0.35);
    assert_eq!(value(config.gamma), 1.0);
    assert_eq!(value(config.noise_gate_threshold), 0.02);
    assert_eq!(value(config.smoothing_factor), 0.35);
    assert_eq!(value(config.fall_smoothing_factor), 0.35);
    assert_eq!(config.max_color_step, 12);
    assert!(config.auto_tv_power && config.adaptive_throttling && config.letterbox_detection);
    assert!(!config.use_xy_gamut && !config.strict_blackout);
    assert!(config.nanoleaf.is_none() && config.wled.is_none());
    assert_eq!((default_nanoleaf_port(), default_nanoleaf_segments()), (60222, 30));
    for zone in &config.zones {
        for side in [zone.x_min, zone.x_max, zone.y_min, zone.y_max] {
            assert!((0.0..=1.0).contains(&value(side)));
        }
        assert!(value(zone.x_min) < value(zone.x_max));
        assert!(value(zone.y_min) < value(zone.y_max));
    }
    assert_eq!(NanoleafAlignment::default().start_corner, NanoleafStartCorner::BottomCenter);
}

#[test]
fn a_missing_file_is_a_fresh_setup() {
    let config = load_setup_config(Err(LoadFailure::NotFound)).unwrap();
    assert_eq!(config.bridge_ip, "");
    assert!(config.hue_enabled);
    let failure = load_setup_config(Err(LoadFailure::Other("broken".to_string())));
    assert_eq!(failure.err().unwrap(), "broken");
    let loaded = load_setup_config(Ok(Config::new_default("a", "b", "c", "d"))).unwrap();
    assert_eq!(loaded.bridge_ip, "a");
}

#[test]
fn outputs_are_active_only_when_fully_configured() {
    let mut config = Config::new_default("", "", "", "");
    assert!(!config.hue_active() && !config.nanoleaf_active() && !config.wled_active());
    config.bridge_ip = "10.0.0.2".to_string();
    assert!(!config.hue_active());
    config.username = "user".to_string();
    assert!(config.hue_active());
    config.hue_enabled = false;
    assert!(!config.hue_active());
    config.pair_nanoleaf("10.0.0.3".to_string(), String::new(), 12, vec![]);
    assert!(!config.nanoleaf_active());
    config.pair_nanoleaf("10.0.0.3".to_string(), "token".to_string(), 12, vec![5, 6]);
    assert!(config.nanoleaf_active());
    let strip = config.nanoleaf.as_ref().unwrap();
    assert_eq!((strip.segments, strip.udp_port, strip.panel_ids.clone()), (30, 60222, vec![5, 6]));
    config.configure_wled("10.0.0.4".to_string(), 120);
    assert!(config.wled_active());
    config.wled.as_mut().unwrap().led_count = 0;
    assert!(!config.wled_active());
}

#[test]
fn only_a_uuid_names_a_v2_configuration() {
    let mut config = Config::new_default("", "", "", "5");
    assert!(config.hue_configuration_id().is_none());
    assert_eq!(config.selected_area_id(), "5");
    config.entertainment_configuration_id = Some("12".to_string());
    assert!(config.hue_configuration_id().is_none());
    assert_eq!(
        config.stream_configuration().err().unwrap(),
        "Hue V2 Entertainment configuration has not been selected"
    );
    config.entertainment_configuration_id = Some(ID.to_string());
    assert_eq!(config.hue_configuration_id().as_deref(), Some(ID));
    assert_eq!(config.stream_configuration().unwrap(), ID);
    assert_eq!(config.selected_area_id(), ID);
    config.entertainment_configuration_id = Some("é".repeat(18));
    assert!(config.hue_configuration_id().is_some());
}

#[test]
fn refreshing_keeps_the_zones_of_an_area_without_positions() {
    let mut config = Config::new_default("", "", "", "");
    let standard = config.zones.len();
    config.refresh_area(area(ID, vec![]));
    assert_eq!(config.zones.len(), standard);
    assert_eq!(config.entertainment_area_id, ID);
    assert_eq!(config.hue_bridge_certificate_sha256.as_deref(), Some("pin"));
    config.refresh_area(area("x", vec![zone(9, "Desk")]));
    assert_eq!(config.zones.len(), 1);
    config.select_area(area("y", vec![]));
    assert!(config.zones.is_empty());
}

#[test]
fn pairing_from_the_dashboard_turns_hue_on() {
    let mut config = Config::new_default("", "", "", "");
    config.hue_enabled = false;
    config.hue_sync_enabled = false;
    config.store_hue_pairing("a".into(), "b".into(), "c".into(), area(ID, vec![]));
    assert!(!config.hue_enabled && !config.hue_sync_enabled);
    assert_eq!(config.clientkey, "c");
    assert!(!config.zones.is_empty());
    config.pair_hue("d".into(), "e".into(), "f".into(), area(ID, vec![zone(1, "x")]));
    assert!(config.hue_enabled && config.hue_sync_enabled);
    assert_eq!((config.bridge_ip.as_str(), config.username.as_str()), ("d", "e"));
    assert_eq!(config.zones.len(), 1);
}

#[test]
fn a_wled_controller_keeps_its_port_when_it_moves() {
    let mut config = Config::new_default("", "", "", "");
    config.wled_sync_enabled = false;
    config.configure_wled("10.0.0.4".to_string(), 90);
    let strip = config.wled.as_mut().unwrap();
    assert_eq!((strip.ddp_port, strip.destination_id, strip.led_count), (4048, 1, 90));
    strip.ddp_port = 4049;
    strip.enabled = false;
    config.configure_wled("10.0.0.5".to_string(), 60);
    let strip = config.wled.as_ref().unwrap();
    assert_eq!((strip.ip.as_str(), strip.ddp_port, strip.enabled), ("10.0.0.5", 4049, true));
    assert!(config.wled_sync_enabled);
    assert_eq!(WledConfig::default().led_count, 60);
}

#[test]
fn saved_settings_are_those_of_the_next_start() {
    let switches = SyncSwitches { hue: true, nanoleaf: true, wled: true };
    let mut config = Config::new_default("ip", "user", "key", "");
    config.configure_wled("10.0.0.4".to_string(), 60);
    config.pair_nanoleaf("10.0.0.3".to_string(), "token".to_string(), 40, vec![]);
    let mut live = LiveSettings::from_config(&config, switches);
    live.gamma = Scalar { bits: 2.2f32.to_bits() };
    live.auto_tv_power = false;
    live.max_color_step = 99;
    live.wled_alignment.perimeter_offset = 7;
    live.nanoleaf_alignment.reverse_direction = true;
    let off = SyncSwitches { hue: false, ..switches };
    let saved = live.save_into(config, off);
    assert_eq!(value(saved.gamma), 2.2);
    assert!(!saved.hue_sync_enabled && saved.wled_sync_enabled);
    assert_eq!((saved.username.as_str(), saved.clientkey.as_str()), ("user", "key"));
    assert_eq!(saved.nanoleaf.as_ref().unwrap().auth_token, "token");
    let again = LiveSettings::from_config(&saved, off);
    assert_eq!(again, LiveSettings { hue_sync_enabled: false, ..live });
}

#[test]
fn trims_are_independent() {
    let mut config = Config::new_default("", "", "", "");
    config.hue_output_brightness = Scalar { bits: 1 };
    config.nanoleaf_output_brightness = Scalar { bits: 2 };
    config.wled_output_brightness = Scalar { bits: 3 };
    let switches = SyncSwitches { hue: true, nanoleaf: true, wled: true };
    let live = LiveSettings::from_config(&config, switches);
    assert_eq!(live.hue_gain().trim.bits, 1);
    assert_eq!(live.nanoleaf_gain().trim.bits, 2);
    assert_eq!(live.wled_gain().trim.bits, 3);
    assert_eq!(value(live.wled_gain().multiplier), 1.0);
}

#[test]
fn test_patterns_know_their_panels() {
    let mut config = Config::new_default("", "", "", "");
    assert_eq!(wled_test(&config), Err(WledTestRefusal::NotConfigured));
    config.configure_wled("10.0.0.4".to_string(), 2);
    assert_eq!(wled_test(&config), Ok(4));
    config.wled.as_mut().unwrap().enabled = false;
    assert_eq!(wled_test(&config), Err(WledTestRefusal::Disabled));
    config.pair_nanoleaf("ip".to_string(), "token".to_string(), 31, vec![]);
    let (segments, panels) = nanoleaf_test(config.nanoleaf.as_ref().unwrap());
    assert_eq!(segments, 31);
    assert_eq!(panels, (1..=31).collect::<Vec<u16>>());
    config.nanoleaf.as_mut().unwrap().panel_ids = vec![8];
    config.nanoleaf.as_mut().unwrap().segments = 3;
    assert_eq!(nanoleaf_test(config.nanoleaf.as_ref().unwrap()), (30, vec![8]));
}

#[test]
fn zones_are_named_by_their_channel() {
    let zones = [zone(3, "Left"), zone(4, "Right"), zone(4, "Other")];
    assert_eq!(zone_name(&zones, 4), "Right");
    assert_eq!(zone_name(&zones, 5), "Unknown");
}

#[test]
fn a_pairing_is_stored_in_the_present_configuration() {
    let present = Config::new_default("old", "", "", "");
    assert_eq!(pairing_base(Some(present), "new", "u", "k", "a").bridge_ip, "old");
    assert_eq!(pairing_base(None, "new", "u", "k", "a").bridge_ip, "new");
}

#[test]
fn a_hue_test_pattern_has_the_configured_channels() {
    let mut config = Config::new_default("10.0.0.2", "user", "key", "area");
    assert_eq!(hue_test(&config), [0, 1, 2, 3]);
    config.zones.remove(1);
    config.zones[0].channel_id = 9;
    assert_eq!(hue_test(&config), [9, 2, 3]);
    config.zones.clear();
    assert_eq!(hue_test(&config), [0u8; 0]);
}

fn nothing_stored() -> StoredConfig {
    StoredConfig {
        auto_tv_power: None,
        hue_enabled: None,
        hue_sync_enabled: None,
        bridge_ip: None,
        username: None,
        clientkey: None,
        hue_bridge_certificate_sha256: None,
        entertainment_area_id: None,
        entertainment_configuration_id: None,
        nanoleaf: None,
        wled: None,
        nanoleaf_sync_enabled: None,
        wled_sync_enabled: None,
        fps: None,
        brightness_multiplier: None,
        hue_output_brightness: None,
        nanoleaf_output_brightness: None,
        wled_output_brightness: None,
        use_xy_gamut: None,
        hdr_tone_mapping: None,
        letterbox_detection: None,
        saturation_boost: None,
        peak_weight: None,
        gamma: None,
        noise_gate_threshold: None,
        smoothing_factor: None,
        rise_smoothing_factor: None,
        fall_smoothing_factor: None,
        strict_blackout: None,
        max_color_step: None,
        adaptive_throttling: None,
        zones: None,
        capture_width: None,
        capture_height: None,
    }
}

#[test]
fn an_empty_file_is_a_fresh_configuration() {
    let loaded = Config::from_stored(nothing_stored());
    let fresh = Config::new_default("", "", "", "");
    assert_eq!(format!("{:?}", loaded), format!("{:?}", fresh));
    assert_eq!((loaded.fps, loaded.max_color_step, loaded.zones.len()), (30, 12, 4));
    assert_eq!(f32::from_bits(loaded.noise_gate_threshold.bits), 0.02);
    assert!(loaded.adaptive_throttling && !loaded.strict_blackout && !loaded.use_xy_gamut);
}

#[test]
fn stored_settings_take_the_place_of_defaults() {
    let mut stored = nothing_stored();
    stored.hue_sync_enabled = Some(false);
    stored.bridge_ip = Some("10.0.0.2".to_string());
    stored.fps = Some(0);
    stored.gamma = Some(Scalar { bits: 7 });
    stored.strict_blackout = Some(true);
    stored.zones = Some(vec![]);
    stored.nanoleaf = Some(StoredNanoleaf {
        enabled: None,
        ip: "10.0.0.3".to_string(),
        auth_token: "token".to_string(),
        udp_port: None,
        segments: None,
        panel_ids: None,
        alignment: None,
    });
    let config = Config::from_stored(stored);
    assert!(!config.hue_sync_enabled && config.nanoleaf_sync_enabled && config.strict_blackout);
    assert_eq!((config.bridge_ip.as_str(), config.username.as_str()), ("10.0.0.2", ""));
    assert_eq!((config.fps, config.gamma.bits, config.zones.len()), (0, 7, 0));
    let strip = config.nanoleaf.unwrap();
    assert_eq!((strip.udp_port, strip.segments, strip.enabled), (60222, 30, true));
    assert!(strip.panel_ids.is_empty());
}

#[test]
fn wled_only_config_can_omit_hue_credentials() {
    let file: serde_json::Value = serde_json::from_str(
        r#"{
                "hue_enabled": false,
                "wled": {
                    "ip": "192.0.2.10",
                    "led_count": 120
                }
            }"#,
    )
    .unwrap();
    let mut stored = nothing_stored();
    stored.hue_enabled = file["hue_enabled"].as_bool();
    stored.wled = Some(StoredWled {
        enabled: file["wled"]["enabled"].as_bool(),
        ip: file["wled"]["ip"].as_str().unwrap().to_string(),
        ddp_port: file["wled"]["ddp_port"].as_u64().map(|port| port as u16),
        led_count: file["wled"]["led_count"].as_u64().map(|count| count as u16),
        destination_id: file["wled"]["destination_id"].as_u64().map(|id| id as u8),
        alignment: None,
    });
    let config = Config::from_stored(stored);
    assert!(!config.hue_enabled && !config.hue_active() && config.wled_active());

    let wled = config.wled.expect("WLED config should load");
    assert_eq!(wled.ddp_port, 4048);
    assert_eq!(wled.destination_id, 1);
    assert_eq!(wled.led_count, 120);
    assert_eq!(wled.alignment, NanoleafAlignment::default());
}
