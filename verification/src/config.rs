//! The persistent configuration: which outputs exist, how they are reached and
//! how colours are shaped on the way to them.
use vstd::prelude::*;

verus! {

/// A single-precision setting, held as its IEEE 754 bit pattern. Settings of
/// this kind are stored, compared and handed on here; the arithmetic with them
/// happens where they are applied.
#[derive(Debug, Clone, Copy, PartialEq, Eq, Structural)]
pub struct Scalar {
    pub bits: u32,
}

/// A light channel and the part of the screen that it follows.
#[derive(Debug)]
pub struct LightZone {
    pub channel_id: u8,
    pub name: String,
    /// Hue V2 owner device for this channel. Empty on pre-V2 configurations.
    pub hue_device_id: Option<String>,
    /// Zero-based gradient segment index, when the light exposes segments.
    pub hue_segment_index: Option<u8>,
    pub hue_segment_count: Option<u8>,
    /// Normalized coordinates: 0.0 to 1.0
    pub x_min: Scalar,
    pub x_max: Scalar,
    pub y_min: Scalar,
    pub y_max: Scalar,
}

impl Clone for LightZone {
    fn clone(&self) -> (copy: Self)
        ensures
            copy == *self,
    {
        let hue_device_id: Option<String> = match &self.hue_device_id {
            Some(id) => Some(id.clone()),
            None => None,
        };
        LightZone {
            channel_id: self.channel_id,
            name: self.name.clone(),
            hue_device_id,
            hue_segment_index: self.hue_segment_index,
            hue_segment_count: self.hue_segment_count,
            x_min: self.x_min,
            x_max: self.x_max,
            y_min: self.y_min,
            y_max: self.y_max,
        }
    }
}

/// A copy of `zones`.
pub fn copy_zones(zones: &[LightZone]) -> (copy: Vec<LightZone>)
    ensures
        copy@ == zones@,
{
    let mut copy: Vec<LightZone> = Vec::new();
    for i in 0..zones.len()
        invariant
            copy@ == zones@.take(i as int),
    {
        copy.push(zones[i].clone());
    }
    copy
}

/// The corner of the screen at which a perimeter strip begins.
#[derive(Debug, Clone, Copy, PartialEq, Eq, Structural)]
pub enum NanoleafStartCorner {
    BottomCenter,
    BottomLeft,
    TopLeft,
    TopRight,
    BottomRight,
}

impl Default for NanoleafStartCorner {
    fn default() -> (corner: Self)
        ensures
            corner == NanoleafStartCorner::BottomCenter,
    {
        NanoleafStartCorner::BottomCenter
    }
}

/// How a perimeter strip lies around the screen.
#[derive(Debug, Clone, Copy, PartialEq, Eq, Structural)]
pub struct NanoleafAlignment {
    pub start_corner: NanoleafStartCorner,
    pub reverse_direction: bool,
    pub perimeter_offset: u8,
}

/// The alignment of a strip that nobody has aligned.
pub open spec fn unaligned() -> NanoleafAlignment {
    NanoleafAlignment {
        start_corner: NanoleafStartCorner::BottomCenter,
        reverse_direction: false,
        perimeter_offset: 0,
    }
}

impl Default for NanoleafAlignment {
    fn default() -> (alignment: Self)
        ensures
            alignment == unaligned(),
    {
        NanoleafAlignment {
            start_corner: NanoleafStartCorner::BottomCenter,
            reverse_direction: false,
            perimeter_offset: 0,
        }
    }
}

/// A WLED controller that receives realtime RGB pixels over DDP.
#[derive(Debug)]
pub struct WledConfig {
    pub enabled: bool,
    pub ip: String,
    pub ddp_port: u16,
    pub led_count: u16,
    pub destination_id: u8,
    pub alignment: NanoleafAlignment,
}

impl Default for WledConfig {
    fn default() -> (config: Self)
        ensures
            config.enabled,
            config.ip@ == Seq::<char>::empty(),
            config.ddp_port == 4048,
            config.led_count == 60,
            config.destination_id == 1,
            config.alignment == unaligned(),
    {
        WledConfig {
            enabled: true,
            ip: String::new(),
            ddp_port: default_wled_port(),
            led_count: default_wled_led_count(),
            destination_id: default_wled_destination_id(),
            alignment: NanoleafAlignment::default(),
        }
    }
}

/// A paired Nanoleaf controller.
#[derive(Debug)]
pub struct NanoleafConfig {
    pub enabled: bool,
    pub ip: String,
    pub auth_token: String,
    pub udp_port: u16,
    /// Number of addressable LED segments along the lightstrip (30 for a 4D strip)
    pub segments: u16,
    /// Specific panel IDs retrieved from Nanoleaf layout
    pub panel_ids: Vec<u16>,
    pub alignment: NanoleafAlignment,
}

/// Everything that survives a restart.
#[derive(Debug)]
pub struct Config {
    /// Automatically pause/resume outputs with the TV's active/standby state.
    pub auto_tv_power: bool,
    pub hue_enabled: bool,
    /// Runtime preference: keep Hue configured but release its entertainment area when off.
    pub hue_sync_enabled: bool,
    pub bridge_ip: String,
    pub username: String,
    pub clientkey: String,
    /// SHA-256 fingerprint of the bridge's local V2 HTTPS certificate.
    pub hue_bridge_certificate_sha256: Option<String>,
    /// Deprecated V1 selector retained only to load existing configurations.
    /// New configurations store the V2 UUID here as well as in `entertainment_configuration_id`.
    pub entertainment_area_id: String,
    /// V2 entertainment configuration UUID embedded in HueStream packets.
    pub entertainment_configuration_id: Option<String>,
    pub nanoleaf: Option<NanoleafConfig>,
    /// Optional WLED controller receiving realtime RGB pixels over DDP/UDP.
    pub wled: Option<WledConfig>,
    /// Runtime preference: stop sending Nanoleaf UDP frames when off.
    pub nanoleaf_sync_enabled: bool,
    /// Runtime preference: stop sending WLED frames when off.
    pub wled_sync_enabled: bool,
    pub fps: u32,
    pub brightness_multiplier: Scalar,
    /// Independent final output trim for Hue Entertainment lights.
    pub hue_output_brightness: Scalar,
    /// Independent final output trim for the Nanoleaf 4D perimeter.
    pub nanoleaf_output_brightness: Scalar,
    /// Independent final output trim for the WLED perimeter.
    pub wled_output_brightness: Scalar,
    pub use_xy_gamut: bool,
    pub hdr_tone_mapping: bool,
    pub letterbox_detection: bool,
    pub saturation_boost: Scalar,
    pub peak_weight: Scalar,
    pub gamma: Scalar,
    pub noise_gate_threshold: Scalar,
    pub smoothing_factor: Scalar,
    pub rise_smoothing_factor: Scalar,
    pub fall_smoothing_factor: Scalar,
    /// When a sampled region passes the black gate, turn that output fully off without afterglow.
    pub strict_blackout: bool,
    /// Maximum per-component RGB change in one sampled video frame.
    pub max_color_step: u8,
    pub adaptive_throttling: bool,
    pub zones: Vec<LightZone>,
    pub capture_width: u32,
    pub capture_height: u32,
}

pub fn default_wled_port() -> (port: u16)
    ensures
        port == 4048,
{
    4048
}

pub fn default_wled_led_count() -> (count: u16)
    ensures
        count == 60,
{
    60
}

pub fn default_wled_destination_id() -> (id: u8)
    ensures
        id == 1,
{
    1
}

pub fn default_nanoleaf_port() -> (port: u16)
    ensures
        port == 60222,
{
    60222
}

pub fn default_nanoleaf_segments() -> (segments: u16)
    ensures
        segments == 30,
{
    30
}

pub fn default_capture_width() -> (width: u32)
    ensures
        width == 320,
{
    320
}

pub fn default_capture_height() -> (height: u32)
    ensures
        height == 180,
{
    180
}

pub fn default_fps() -> (fps: u32)
    ensures
        fps == 30,
{
    30
}

/// 1.0
pub fn default_brightness() -> (brightness: Scalar)
    ensures
        brightness.bits == 0x3f80_0000,
{
    Scalar { bits: 0x3f80_0000 }
}

/// 1.0
pub fn default_output_trim() -> (trim: Scalar)
    ensures
        trim.bits == 0x3f80_0000,
{
    Scalar { bits: 0x3f80_0000 }
}

pub fn default_true() -> (value: bool)
    ensures
        value,
{
    true
}

pub fn default_false() -> (value: bool)
    ensures
        !value,
{
    false
}

/// 1.5
pub fn default_saturation_boost() -> (boost: Scalar)
    ensures
        boost.bits == 0x3fc0_0000,
{
    Scalar { bits: 0x3fc0_0000 }
}

/// 0.35
pub fn default_peak_weight() -> (weight: Scalar)
    ensures
        weight.bits == 0x3eb3_3333,
{
    Scalar { bits: 0x3eb3_3333 }
}

/// 1.0
pub fn default_gamma() -> (gamma: Scalar)
    ensures
        gamma.bits == 0x3f80_0000,
{
    Scalar { bits: 0x3f80_0000 }
}

/// 0.02
pub fn default_noise_gate() -> (gate: Scalar)
    ensures
        gate.bits == 0x3ca3_d70a,
{
    Scalar { bits: 0x3ca3_d70a }
}

/// 0.35
pub fn default_smoothing_factor() -> (factor: Scalar)
    ensures
        factor.bits == 0x3eb3_3333,
{
    Scalar { bits: 0x3eb3_3333 }
}

pub fn default_max_color_step() -> (step: u8)
    ensures
        step == 12,
{
    12
}

/// What a zone says, with its name as text and its box as bit patterns in the
/// order left, right, top, bottom.
pub open spec fn plain_zone(zone: LightZone, channel_id: u8, name: Seq<char>, sides: Seq<u32>) -> bool {
    &&& zone.channel_id == channel_id
    &&& zone.name@ == name
    &&& zone.hue_device_id is None
    &&& zone.hue_segment_index is None
    &&& zone.hue_segment_count is None
    &&& sides == seq![zone.x_min.bits, zone.x_max.bits, zone.y_min.bits, zone.y_max.bits]
}

/// The four zones of a configuration without a synced entertainment area: the
/// left and right quarters between 0.1 and 0.9 of the height, and bands over
/// the middle from 0.2 to 0.8 of the width, the top one 0.3 high and the bottom
/// one from 0.7 down.
pub open spec fn standard_zones(zones: Seq<LightZone>) -> bool {
    &&& zones.len() == 4
    &&& plain_zone(zones[0], 0, "Left"@, seq![0, 0x3e80_0000, 0x3dcc_cccd, 0x3f66_6666])
    &&& plain_zone(zones[1], 1, "Top"@, seq![0x3e4c_cccd, 0x3f4c_cccd, 0, 0x3e99_999a])
    &&& plain_zone(
        zones[2],
        2,
        "Right"@,
        seq![0x3f40_0000, 0x3f80_0000, 0x3dcc_cccd, 0x3f66_6666],
    )
    &&& plain_zone(
        zones[3],
        3,
        "Bottom"@,
        seq![0x3e4c_cccd, 0x3f4c_cccd, 0x3f33_3333, 0x3f80_0000],
    )
}

fn zone(channel_id: u8, name: &str, x_min: u32, x_max: u32, y_min: u32, y_max: u32) -> (zone:
    LightZone)
    ensures
        plain_zone(zone, channel_id, name@, seq![x_min, x_max, y_min, y_max]),
{
    LightZone {
        channel_id,
        name: name.to_owned(),
        hue_device_id: None,
        hue_segment_index: None,
        hue_segment_count: None,
        x_min: Scalar { bits: x_min },
        x_max: Scalar { bits: x_max },
        y_min: Scalar { bits: y_min },
        y_max: Scalar { bits: y_max },
    }
}

pub fn default_zones() -> (zones: Vec<LightZone>)
    ensures
        standard_zones(zones@),
{
    let mut zones: Vec<LightZone> = Vec::new();
    zones.push(zone(0, "Left", 0, 0x3e80_0000, 0x3dcc_cccd, 0x3f66_6666));
    zones.push(zone(1, "Top", 0x3e4c_cccd, 0x3f4c_cccd, 0, 0x3e99_999a));
    zones.push(zone(2, "Right", 0x3f40_0000, 0x3f80_0000, 0x3dcc_cccd, 0x3f66_6666));
    zones.push(zone(3, "Bottom", 0x3e4c_cccd, 0x3f4c_cccd, 0x3f33_3333, 0x3f80_0000));
    zones
}

/// An entertainment area as the Hue bridge describes it.
#[derive(Debug)]
pub struct EntertainmentArea {
    pub name: String,
    pub configuration_id: String,
    pub certificate_sha256: String,
    pub zones: Vec<LightZone>,
}

/// Why the configuration file could not be loaded.
#[derive(Debug)]
pub enum LoadFailure {
    /// There is no such file.
    NotFound,
    /// Anything else, with the message to show.
    Other(String),
}

/// The configuration to set devices up in: the stored one, or a fresh one where
/// nothing has been stored yet.
pub fn load_setup_config(loaded: Result<Config, LoadFailure>) -> (config: Result<Config, String>)
    ensures
        match loaded {
            Ok(stored) => config == Ok::<Config, String>(stored),
            Err(LoadFailure::NotFound) => config matches Ok(fresh) && fresh_config(
                fresh,
                Seq::empty(),
                Seq::empty(),
                Seq::empty(),
                Seq::empty(),
            ),
            Err(LoadFailure::Other(message)) => config == Err::<Config, String>(message),
        },
{
    match loaded {
        Ok(stored) => Ok(stored),
        Err(LoadFailure::NotFound) => {
            proof {
                reveal_strlit("");
                assert(""@ == Seq::<char>::empty());
            }
            Ok(Config::new_default("", "", "", ""))
        },
        Err(LoadFailure::Other(message)) => Err(message),
    }
}

/// The configuration of an installation with the given Hue credentials and no
/// other device.
pub open spec fn fresh_config(
    config: Config,
    bridge_ip: Seq<char>,
    username: Seq<char>,
    clientkey: Seq<char>,
    area_id: Seq<char>,
) -> bool {
    &&& config.auto_tv_power
    &&& config.hue_enabled
    &&& config.hue_sync_enabled
    &&& config.bridge_ip@ == bridge_ip
    &&& config.username@ == username
    &&& config.clientkey@ == clientkey
    &&& config.hue_bridge_certificate_sha256 is None
    &&& config.entertainment_area_id@ == area_id
    &&& config.entertainment_configuration_id is None
    &&& config.nanoleaf is None
    &&& config.wled is None
    &&& config.nanoleaf_sync_enabled
    &&& config.wled_sync_enabled
    &&& config.fps == 30
    &&& config.brightness_multiplier.bits == 0x3f80_0000
    &&& config.hue_output_brightness.bits == 0x3f80_0000
    &&& config.nanoleaf_output_brightness.bits == 0x3f80_0000
    &&& config.wled_output_brightness.bits == 0x3f80_0000
    &&& !config.use_xy_gamut
    &&& config.hdr_tone_mapping
    &&& config.letterbox_detection
    &&& config.saturation_boost.bits == 0x3fc0_0000
    &&& config.peak_weight.bits == 0x3eb3_3333
    &&& config.gamma.bits == 0x3f80_0000
    &&& config.noise_gate_threshold.bits == 0x3ca3_d70a
    &&& config.smoothing_factor.bits == 0x3eb3_3333
    &&& config.rise_smoothing_factor.bits == 0x3eb3_3333
    &&& config.fall_smoothing_factor.bits == 0x3eb3_3333
    &&& !config.strict_blackout
    &&& config.max_color_step == 12
    &&& config.adaptive_throttling
    &&& standard_zones(config.zones@)
    &&& config.capture_width == 320
    &&& config.capture_height == 180
}

/// A WLED controller as a configuration file gives it. A setting that is left out
/// is none.
#[derive(Debug)]
pub struct StoredWled {
    pub enabled: Option<bool>,
    pub ip: String,
    pub ddp_port: Option<u16>,
    pub led_count: Option<u16>,
    pub destination_id: Option<u8>,
    pub alignment: Option<NanoleafAlignment>,
}

/// A Nanoleaf controller as a configuration file gives it. A setting that is left
/// out is none.
#[derive(Debug)]
pub struct StoredNanoleaf {
    pub enabled: Option<bool>,
    pub ip: String,
    pub auth_token: String,
    pub udp_port: Option<u16>,
    pub segments: Option<u16>,
    pub panel_ids: Option<Vec<u16>>,
    pub alignment: Option<NanoleafAlignment>,
}

/// What a configuration file gives. A setting that is left out is none.
#[derive(Debug)]
pub struct StoredConfig {
    pub auto_tv_power: Option<bool>,
    pub hue_enabled: Option<bool>,
    pub hue_sync_enabled: Option<bool>,
    pub bridge_ip: Option<String>,
    pub username: Option<String>,
    pub clientkey: Option<String>,
    pub hue_bridge_certificate_sha256: Option<String>,
    pub entertainment_area_id: Option<String>,
    pub entertainment_configuration_id: Option<String>,
    pub nanoleaf: Option<StoredNanoleaf>,
    pub wled: Option<StoredWled>,
    pub nanoleaf_sync_enabled: Option<bool>,
    pub wled_sync_enabled: Option<bool>,
    pub fps: Option<u32>,
    pub brightness_multiplier: Option<Scalar>,
    pub hue_output_brightness: Option<Scalar>,
    pub nanoleaf_output_brightness: Option<Scalar>,
    pub wled_output_brightness: Option<Scalar>,
    pub use_xy_gamut: Option<bool>,
    pub hdr_tone_mapping: Option<bool>,
    pub letterbox_detection: Option<bool>,
    pub saturation_boost: Option<Scalar>,
    pub peak_weight: Option<Scalar>,
    pub gamma: Option<Scalar>,
    pub noise_gate_threshold: Option<Scalar>,
    pub smoothing_factor: Option<Scalar>,
    pub rise_smoothing_factor: Option<Scalar>,
    pub fall_smoothing_factor: Option<Scalar>,
    pub strict_blackout: Option<bool>,
    pub max_color_step: Option<u8>,
    pub adaptive_throttling: Option<bool>,
    pub zones: Option<Vec<LightZone>>,
    pub capture_width: Option<u32>,
    pub capture_height: Option<u32>,
}

/// What a file gives that leaves everything out.
pub open spec fn nothing_stored() -> StoredConfig {
    StoredConfig {
        auto_tv_power: None,
        hue_enabled: None,
        hue_sync_enabled: None,
        bridge_ip: None,
        username: None,
        clientkey: None,
        hue_bridge_certificate_sha256: None,
        entertainment_area_id: None,
        entertainment_configuration_id: None,
        nanoleaf: None,
        wled: None,
        nanoleaf_sync_enabled: None,
        wled_sync_enabled: None,
        fps: None,
        brightness_multiplier: None,
        hue_output_brightness: None,
        nanoleaf_output_brightness: None,
        wled_output_brightness: None,
        use_xy_gamut: None,
        hdr_tone_mapping: None,
        letterbox_detection: None,
        saturation_boost: None,
        peak_weight: None,
        gamma: None,
        noise_gate_threshold: None,
        smoothing_factor: None,
        rise_smoothing_factor: None,
        fall_smoothing_factor: None,
        strict_blackout: None,
        max_color_step: None,
        adaptive_throttling: None,
        zones: None,
        capture_width: None,
        capture_height: None,
    }
}

/// A stored value, or else the default.
pub open spec fn or_default<T>(stored: Option<T>, default: T) -> T {
    match stored {
        Some(value) => value,
        None => default,
    }
}

fn value_or<T>(stored: Option<T>, default: T) -> (value: T)
    ensures
        value == or_default(stored, default),
{
    match stored {
        Some(value) => value,
        None => default,
    }
}

/// A stored text, or else none.
pub open spec fn or_no_text(stored: Option<String>) -> Seq<char> {
    match stored {
        Some(text) => text@,
        None => Seq::empty(),
    }
}

fn text_or_none(stored: Option<String>) -> (text: String)
    ensures
        text@ == or_no_text(stored),
{
    match stored {
        Some(text) => text,
        None => String::new(),
    }
}

/// `wled` is the controller that a file gives as `stored`.
pub open spec fn fills_wled(wled: WledConfig, stored: StoredWled) -> bool {
    &&& wled.enabled == or_default(stored.enabled, true)
    &&& wled.ip == stored.ip
    &&& wled.ddp_port == or_default(stored.ddp_port, 4048)
    &&& wled.led_count == or_default(stored.led_count, 60)
    &&& wled.destination_id == or_default(stored.destination_id, 1)
    &&& wled.alignment == or_default(stored.alignment, unaligned())
}

impl WledConfig {
    /// The controller that a file gives. What it leaves out takes its default.
    pub fn from_stored(stored: StoredWled) -> (wled: Self)
        ensures
            fills_wled(wled, stored),
    {
        WledConfig {
            enabled: value_or(stored.enabled, default_true()),
            ip: stored.ip,
            ddp_port: value_or(stored.ddp_port, default_wled_port()),
            led_count: value_or(stored.led_count, default_wled_led_count()),
            destination_id: value_or(stored.destination_id, default_wled_destination_id()),
            alignment: value_or(stored.alignment, NanoleafAlignment::default()),
        }
    }
}

/// `nanoleaf` is the controller that a file gives as `stored`.
pub open spec fn fills_nanoleaf(nanoleaf: NanoleafConfig, stored: StoredNanoleaf) -> bool {
    &&& nanoleaf.enabled == or_default(stored.enabled, true)
    &&& nanoleaf.ip == stored.ip
    &&& nanoleaf.auth_token == stored.auth_token
    &&& nanoleaf.udp_port == or_default(stored.udp_port, 60222)
    &&& nanoleaf.segments == or_default(stored.segments, 30)
    &&& nanoleaf.panel_ids@ == (match stored.panel_ids {
        Some(panel_ids) => panel_ids@,
        None => Seq::empty(),
    })
    &&& nanoleaf.alignment == or_default(stored.alignment, unaligned())
}

impl NanoleafConfig {
    /// The controller that a file gives. What it leaves out takes its default.
    pub fn from_stored(stored: StoredNanoleaf) -> (nanoleaf: Self)
        ensures
            fills_nanoleaf(nanoleaf, stored),
    {
        NanoleafConfig {
            enabled: value_or(stored.enabled, default_true()),
            ip: stored.ip,
            auth_token: stored.auth_token,
            udp_port: value_or(stored.udp_port, default_nanoleaf_port()),
            segments: value_or(stored.segments, default_nanoleaf_segments()),
            panel_ids: value_or(stored.panel_ids, Vec::new()),
            alignment: value_or(stored.alignment, NanoleafAlignment::default()),
        }
    }
}

/// `config` is the configuration that a file gives as `stored`.
pub open spec fn fills(config: Config, stored: StoredConfig) -> bool {
    &&& config.auto_tv_power == or_default(stored.auto_tv_power, true)
    &&& config.hue_enabled == or_default(stored.hue_enabled, true)
    &&& config.hue_sync_enabled == or_default(stored.hue_sync_enabled, true)
    &&& config.bridge_ip@ == or_no_text(stored.bridge_ip)
    &&& config.username@ == or_no_text(stored.username)
    &&& config.clientkey@ == or_no_text(stored.clientkey)
    &&& config.hue_bridge_certificate_sha256 == stored.hue_bridge_certificate_sha256
    &&& config.entertainment_area_id@ == or_no_text(stored.entertainment_area_id)
    &&& config.entertainment_configuration_id == stored.entertainment_configuration_id
    &&& match stored.nanoleaf {
        Some(strip) => config.nanoleaf matches Some(filled) && fills_nanoleaf(filled, strip),
        None => config.nanoleaf is None,
    }
    &&& match stored.wled {
        Some(strip) => config.wled matches Some(filled) && fills_wled(filled, strip),
        None => config.wled is None,
    }
    &&& config.nanoleaf_sync_enabled == or_default(stored.nanoleaf_sync_enabled, true)
    &&& config.wled_sync_enabled == or_default(stored.wled_sync_enabled, true)
    &&& config.fps == or_default(stored.fps, 30)
    &&& config.brightness_multiplier == or_default(stored.brightness_multiplier, Scalar { bits: 0x3f80_0000 })
    &&& config.hue_output_brightness == or_default(stored.hue_output_brightness, Scalar { bits: 0x3f80_0000 })
    &&& config.nanoleaf_output_brightness == or_default(stored.nanoleaf_output_brightness, Scalar { bits: 0x3f80_0000 })
    &&& config.wled_output_brightness == or_default(stored.wled_output_brightness, Scalar { bits: 0x3f80_0000 })
    &&& config.use_xy_gamut == or_default(stored.use_xy_gamut, false)
    &&& config.hdr_tone_mapping == or_default(stored.hdr_tone_mapping, true)
    &&& config.letterbox_detection == or_default(stored.letterbox_detection, true)
    &&& config.saturation_boost == or_default(stored.saturation_boost, Scalar { bits: 0x3fc0_0000 })
    &&& config.peak_weight == or_default(stored.peak_weight, Scalar { bits: 0x3eb3_3333 })
    &&& config.gamma == or_default(stored.gamma, Scalar { bits: 0x3f80_0000 })
    &&& config.noise_gate_threshold == or_default(stored.noise_gate_threshold, Scalar { bits: 0x3ca3_d70a })
    &&& config.smoothing_factor == or_default(stored.smoothing_factor, Scalar { bits: 0x3eb3_3333 })
    &&& config.rise_smoothing_factor == or_default(stored.rise_smoothing_factor, Scalar { bits: 0x3eb3_3333 })
    &&& config.fall_smoothing_factor == or_default(stored.fall_smoothing_factor, Scalar { bits: 0x3eb3_3333 })
    &&& config.strict_blackout == or_default(stored.strict_blackout, false)
    &&& config.max_color_step == or_default(stored.max_color_step, 12)
    &&& config.adaptive_throttling == or_default(stored.adaptive_throttling, true)
    &&& match stored.zones {
        Some(zones) => config.zones@ == zones@,
        None => standard_zones(config.zones@),
    }
    &&& config.capture_width == or_default(stored.capture_width, 320)
    &&& config.capture_height == or_default(stored.capture_height, 180)
}

/// A Hue bridge is configured and its output wanted.
pub open spec fn uses_hue(config: Config) -> bool {
    config.hue_enabled && config.bridge_ip@.len() > 0 && config.username@.len() > 0
}

/// A Nanoleaf controller is paired and its output wanted.
pub open spec fn uses_nanoleaf(config: Config) -> bool {
    config.nanoleaf matches Some(n) && n.enabled && n.ip@.len() > 0 && n.auth_token@.len() > 0
}

/// A WLED controller is configured and its output wanted.
pub open spec fn uses_wled(config: Config) -> bool {
    config.wled matches Some(w) && w.enabled && w.ip@.len() > 0 && w.led_count > 0
}

/// The selected V2 entertainment configuration: what is stored, if it has the
/// 36 bytes of a UUID.
pub open spec fn v2_configuration(config: Config) -> Option<String> {
    match config.entertainment_configuration_id {
        Some(stored) => if vstd::utf8::encode_utf8(stored@).len() == 36 {
            Some(stored)
        } else {
            None
        },
        None => None,
    }
}

/// The configuration with an entertainment area's identity in it, the zones
/// apart.
pub open spec fn with_area(config: Config, area: EntertainmentArea) -> Config {
    Config {
        entertainment_area_id: area.configuration_id,
        entertainment_configuration_id: Some(area.configuration_id),
        hue_bridge_certificate_sha256: Some(area.certificate_sha256),
        ..config
    }
}

/// The zones to keep after a sync: those of the area, unless it has none.
pub open spec fn refreshed_zones(config: Config, area: EntertainmentArea) -> Vec<LightZone> {
    if area.zones@.len() > 0 {
        area.zones
    } else {
        config.zones
    }
}

impl Config {
    pub fn new_default(bridge_ip: &str, username: &str, clientkey: &str, area_id: &str) -> (config:
        Self)
        ensures
            fresh_config(config, bridge_ip@, username@, clientkey@, area_id@),
    {
        Config {
            auto_tv_power: true,
            hue_enabled: true,
            hue_sync_enabled: true,
            bridge_ip: bridge_ip.to_owned(),
            username: username.to_owned(),
            clientkey: clientkey.to_owned(),
            hue_bridge_certificate_sha256: None,
            entertainment_area_id: area_id.to_owned(),
            entertainment_configuration_id: None,
            nanoleaf: None,
            wled: None,
            nanoleaf_sync_enabled: true,
            wled_sync_enabled: true,
            fps: default_fps(),
            brightness_multiplier: default_brightness(),
            hue_output_brightness: default_output_trim(),
            nanoleaf_output_brightness: default_output_trim(),
            wled_output_brightness: default_output_trim(),
            use_xy_gamut: default_false(),
            hdr_tone_mapping: default_true(),
            letterbox_detection: default_true(),
            saturation_boost: default_saturation_boost(),
            peak_weight: default_peak_weight(),
            gamma: default_gamma(),
            noise_gate_threshold: default_noise_gate(),
            smoothing_factor: default_smoothing_factor(),
            rise_smoothing_factor: default_smoothing_factor(),
            fall_smoothing_factor: default_smoothing_factor(),
            strict_blackout: false,
            max_color_step: default_max_color_step(),
            adaptive_throttling: true,
            zones: default_zones(),
            capture_width: default_capture_width(),
            capture_height: default_capture_height(),
        }
    }

    /// The configuration that a file gives. What it leaves out takes its default.
    pub fn from_stored(stored: StoredConfig) -> (config: Self)
        ensures
            fills(config, stored),
    {
        let nanoleaf = match stored.nanoleaf {
            Some(strip) => Some(NanoleafConfig::from_stored(strip)),
            None => None,
        };
        let wled = match stored.wled {
            Some(strip) => Some(WledConfig::from_stored(strip)),
            None => None,
        };
        let zones = match stored.zones {
            Some(zones) => zones,
            None => default_zones(),
        };
        Config {
            auto_tv_power: value_or(stored.auto_tv_power, default_true()),
            hue_enabled: value_or(stored.hue_enabled, default_true()),
            hue_sync_enabled: value_or(stored.hue_sync_enabled, default_true()),
            bridge_ip: text_or_none(stored.bridge_ip),
            username: text_or_none(stored.username),
            clientkey: text_or_none(stored.clientkey),
            hue_bridge_certificate_sha256: stored.hue_bridge_certificate_sha256,
            entertainment_area_id: text_or_none(stored.entertainment_area_id),
            entertainment_configuration_id: stored.entertainment_configuration_id,
            nanoleaf,
            wled,
            nanoleaf_sync_enabled: value_or(stored.nanoleaf_sync_enabled, default_true()),
            wled_sync_enabled: value_or(stored.wled_sync_enabled, default_true()),
            fps: value_or(stored.fps, default_fps()),
            brightness_multiplier: value_or(stored.brightness_multiplier, default_brightness()),
            hue_output_brightness: value_or(stored.hue_output_brightness, default_output_trim()),
            nanoleaf_output_brightness: value_or(stored.nanoleaf_output_brightness, default_output_trim()),
            wled_output_brightness: value_or(stored.wled_output_brightness, default_output_trim()),
            use_xy_gamut: value_or(stored.use_xy_gamut, default_false()),
            hdr_tone_mapping: value_or(stored.hdr_tone_mapping, default_true()),
            letterbox_detection: value_or(stored.letterbox_detection, default_true()),
            saturation_boost: value_or(stored.saturation_boost, default_saturation_boost()),
            peak_weight: value_or(stored.peak_weight, default_peak_weight()),
            gamma: value_or(stored.gamma, default_gamma()),
            noise_gate_threshold: value_or(stored.noise_gate_threshold, default_noise_gate()),
            smoothing_factor: value_or(stored.smoothing_factor, default_smoothing_factor()),
            rise_smoothing_factor: value_or(stored.rise_smoothing_factor, default_smoothing_factor()),
            fall_smoothing_factor: value_or(stored.fall_smoothing_factor, default_smoothing_factor()),
            strict_blackout: value_or(stored.strict_blackout, default_false()),
            max_color_step: value_or(stored.max_color_step, default_max_color_step()),
            adaptive_throttling: value_or(stored.adaptive_throttling, default_true()),
            zones,
            capture_width: value_or(stored.capture_width, default_capture_width()),
            capture_height: value_or(stored.capture_height, default_capture_height()),
        }
    }

    pub fn hue_active(&self) -> (active: bool)
        ensures
            active == uses_hue(*self),
    {
        self.hue_enabled && !self.bridge_ip.as_str().is_empty() && !self.username.as_str().is_empty()
    }

    pub fn nanoleaf_active(&self) -> (active: bool)
        ensures
            active == uses_nanoleaf(*self),
    {
        match &self.nanoleaf {
            Some(n) => n.enabled && !n.ip.as_str().is_empty() && !n.auth_token.as_str().is_empty(),
            None => false,
        }
    }

    pub fn wled_active(&self) -> (active: bool)
        ensures
            active == uses_wled(*self),
    {
        match &self.wled {
            Some(w) => w.enabled && !w.ip.as_str().is_empty() && w.led_count > 0,
            None => false,
        }
    }

    /// The selected V2 entertainment configuration, if there is one.
    pub fn hue_configuration_id(&self) -> (id: Option<String>)
        ensures
            id == v2_configuration(*self),
    {
        match &self.entertainment_configuration_id {
            Some(stored) => if stored.as_str().as_bytes().len() == 36 {
                Some(stored.clone())
            } else {
                None
            },
            None => None,
        }
    }

    /// The configuration to switch streaming on or off for, which has to be
    /// selected first.
    pub fn stream_configuration(&self) -> (id: Result<String, String>)
        ensures
            match v2_configuration(*self) {
                Some(stored) => id == Ok::<String, String>(stored),
                None => id matches Err(text) && text@
                    == "Hue V2 Entertainment configuration has not been selected"@,
            },
    {
        match self.hue_configuration_id() {
            Some(stored) => Ok(stored),
            None => Err("Hue V2 Entertainment configuration has not been selected".to_owned()),
        }
    }

    /// The area shown as selected: the V2 configuration, or else the deprecated
    /// V1 selector.
    pub fn selected_area_id(&self) -> (id: String)
        ensures
            id == (match self.entertainment_configuration_id {
                Some(stored) => stored,
                None => self.entertainment_area_id,
            }),
    {
        match &self.entertainment_configuration_id {
            Some(stored) => stored.clone(),
            None => self.entertainment_area_id.clone(),
        }
    }

    /// Adopts an entertainment area together with its zones, even if there are
    /// none.
    pub fn select_area(&mut self, area: EntertainmentArea)
        ensures
            *final(self) == (Config { zones: area.zones, ..with_area(*old(self), area) }),
    {
        self.entertainment_area_id = area.configuration_id.clone();
        self.entertainment_configuration_id = Some(area.configuration_id);
        self.hue_bridge_certificate_sha256 = Some(area.certificate_sha256);
        self.zones = area.zones;
    }

    /// Adopts an entertainment area, but keeps the present zones where the area
    /// has none.
    pub fn refresh_area(&mut self, area: EntertainmentArea)
        ensures
            *final(self) == (Config {
                zones: refreshed_zones(*old(self), area),
                ..with_area(*old(self), area)
            }),
    {
        self.entertainment_area_id = area.configuration_id.clone();
        self.entertainment_configuration_id = Some(area.configuration_id);
        self.hue_bridge_certificate_sha256 = Some(area.certificate_sha256);
        if area.zones.len() > 0 {
            self.zones = area.zones;
        }
    }

    /// Stores what pairing from the dashboard yielded, and turns Hue on.
    pub fn pair_hue(
        &mut self,
        bridge_ip: String,
        username: String,
        clientkey: String,
        area: EntertainmentArea,
    )
        ensures
            *final(self) == (Config {
                bridge_ip,
                username,
                clientkey,
                hue_enabled: true,
                hue_sync_enabled: true,
                zones: area.zones,
                ..with_area(*old(self), area)
            }),
    {
        self.bridge_ip = bridge_ip;
        self.username = username;
        self.clientkey = clientkey;
        self.hue_enabled = true;
        self.hue_sync_enabled = true;
        self.select_area(area);
    }

    /// Stores what pairing from the command line yielded. Whether Hue is on
    /// stays as it is.
    pub fn store_hue_pairing(
        &mut self,
        bridge_ip: String,
        username: String,
        clientkey: String,
        area: EntertainmentArea,
    )
        ensures
            *final(self) == (Config {
                bridge_ip,
                username,
                clientkey,
                zones: refreshed_zones(*old(self), area),
                ..with_area(*old(self), area)
            }),
    {
        self.bridge_ip = bridge_ip;
        self.username = username;
        self.clientkey = clientkey;
        self.refresh_area(area);
    }

    /// Stores a paired Nanoleaf controller.
    pub fn store_nanoleaf_pairing(
        &mut self,
        ip: String,
        auth_token: String,
        segments: u16,
        panel_ids: Vec<u16>,
    )
        ensures
            *final(self) == (Config {
                nanoleaf: Some(paired_nanoleaf(ip, auth_token, segments, panel_ids)),
                ..*old(self)
            }),
    {
        self.nanoleaf = Some(
            NanoleafConfig {
                enabled: true,
                ip,
                auth_token,
                udp_port: 60222,
                segments: if segments < 30 {
                    30
                } else {
                    segments
                },
                panel_ids,
                alignment: NanoleafAlignment::default(),
            },
        );
    }

    /// Stores a Nanoleaf controller that the dashboard paired, and turns its
    /// output on.
    pub fn pair_nanoleaf(
        &mut self,
        ip: String,
        auth_token: String,
        segments: u16,
        panel_ids: Vec<u16>,
    )
        ensures
            *final(self) == (Config {
                nanoleaf: Some(paired_nanoleaf(ip, auth_token, segments, panel_ids)),
                nanoleaf_sync_enabled: true,
                ..*old(self)
            }),
    {
        self.store_nanoleaf_pairing(ip, auth_token, segments, panel_ids);
        self.nanoleaf_sync_enabled = true;
    }

    /// Stores a WLED controller and turns its output on. A controller that was
    /// configured before keeps its port, destination and alignment.
    pub fn configure_wled(&mut self, ip: String, led_count: u16)
        ensures
            *final(self) == (Config {
                wled: final(self).wled,
                wled_sync_enabled: true,
                ..*old(self)
            }),
            final(self).wled matches Some(w) && match old(self).wled {
                Some(before) => w == (WledConfig { enabled: true, ip, led_count, ..before }),
                None => w == (WledConfig {
                    enabled: true,
                    ip,
                    ddp_port: 4048,
                    led_count,
                    destination_id: 1,
                    alignment: unaligned(),
                }),
            },
    {
        let mut wled = match self.wled.take() {
            Some(before) => before,
            None => WledConfig::default(),
        };
        wled.enabled = true;
        wled.ip = ip;
        wled.led_count = led_count;
        self.wled = Some(wled);
        self.wled_sync_enabled = true;
    }
}

/// A freshly paired Nanoleaf controller: at least 30 segments, not aligned yet.
pub open spec fn paired_nanoleaf(
    ip: String,
    auth_token: String,
    segments: u16,
    panel_ids: Vec<u16>,
) -> NanoleafConfig {
    NanoleafConfig {
        enabled: true,
        ip,
        auth_token,
        udp_port: 60222,
        segments: if segments < 30 {
            30
        } else {
            segments
        },
        panel_ids,
        alignment: unaligned(),
    }
}

/// Two zones that say the same.
pub open spec fn same_zone(left: LightZone, right: LightZone) -> bool {
    &&& left.channel_id == right.channel_id
    &&& left.name@ == right.name@
    &&& match left.hue_device_id {
        Some(id) => right.hue_device_id matches Some(other) && other@ == id@,
        None => right.hue_device_id is None,
    }
    &&& left.hue_segment_index == right.hue_segment_index
    &&& left.hue_segment_count == right.hue_segment_count
    &&& left.x_min == right.x_min
    &&& left.x_max == right.x_max
    &&& left.y_min == right.y_min
    &&& left.y_max == right.y_max
}

/// A configuration file that leaves everything out gives what a fresh
/// configuration is, but for the bridge's address, the login and the area that
/// the fresh one was made with: those are empty.
pub proof fn an_empty_file_gives_the_defaults(
    loaded: Config,
    fresh: Config,
    bridge_ip: Seq<char>,
    username: Seq<char>,
    clientkey: Seq<char>,
    area_id: Seq<char>,
)
    requires
        fills(loaded, nothing_stored()),
        fresh_config(fresh, bridge_ip, username, clientkey, area_id),
    ensures
        loaded == (Config {
            bridge_ip: loaded.bridge_ip,
            username: loaded.username,
            clientkey: loaded.clientkey,
            entertainment_area_id: loaded.entertainment_area_id,
            zones: loaded.zones,
            ..fresh
        }),
        loaded.bridge_ip@.len() == 0,
        loaded.username@.len() == 0,
        loaded.clientkey@.len() == 0,
        loaded.entertainment_area_id@.len() == 0,
        loaded.zones@.len() == fresh.zones@.len(),
        forall|i: int|
            0 <= i < fresh.zones@.len() ==> same_zone(#[trigger] loaded.zones@[i], fresh.zones@[i]),
{
    lemma_same_sides(loaded.zones@[0], fresh.zones@[0]);
    lemma_same_sides(loaded.zones@[1], fresh.zones@[1]);
    lemma_same_sides(loaded.zones@[2], fresh.zones@[2]);
    lemma_same_sides(loaded.zones@[3], fresh.zones@[3]);
}

proof fn lemma_same_sides(left: LightZone, right: LightZone)
    requires
        left.channel_id == right.channel_id,
        left.name@ == right.name@,
        left.hue_device_id is None,
        right.hue_device_id is None,
        left.hue_segment_index is None,
        right.hue_segment_index is None,
        left.hue_segment_count is None,
        right.hue_segment_count is None,
        seq![left.x_min.bits, left.x_max.bits, left.y_min.bits, left.y_max.bits]
            == seq![right.x_min.bits, right.x_max.bits, right.y_min.bits, right.y_max.bits],
    ensures
        same_zone(left, right),
{
    let sides = seq![left.x_min.bits, left.x_max.bits, left.y_min.bits, left.y_max.bits];
    assert(sides[0] == right.x_min.bits);
    assert(sides[1] == right.x_max.bits);
    assert(sides[2] == right.y_min.bits);
    assert(sides[3] == right.y_max.bits);
}

/// What a configuration is written as: each setting under its own name.
pub open spec fn written(config: Config) -> StoredConfig {
    StoredConfig {
        auto_tv_power: Some(config.auto_tv_power),
        hue_enabled: Some(config.hue_enabled),
        hue_sync_enabled: Some(config.hue_sync_enabled),
        bridge_ip: Some(config.bridge_ip),
        username: Some(config.username),
        clientkey: Some(config.clientkey),
        hue_bridge_certificate_sha256: config.hue_bridge_certificate_sha256,
        entertainment_area_id: Some(config.entertainment_area_id),
        entertainment_configuration_id: config.entertainment_configuration_id,
        nanoleaf: match config.nanoleaf {
            Some(strip) => Some(written_nanoleaf(strip)),
            None => None,
        },
        wled: match config.wled {
            Some(strip) => Some(written_wled(strip)),
            None => None,
        },
        nanoleaf_sync_enabled: Some(config.nanoleaf_sync_enabled),
        wled_sync_enabled: Some(config.wled_sync_enabled),
        fps: Some(config.fps),
        brightness_multiplier: Some(config.brightness_multiplier),
        hue_output_brightness: Some(config.hue_output_brightness),
        nanoleaf_output_brightness: Some(config.nanoleaf_output_brightness),
        wled_output_brightness: Some(config.wled_output_brightness),
        use_xy_gamut: Some(config.use_xy_gamut),
        hdr_tone_mapping: Some(config.hdr_tone_mapping),
        letterbox_detection: Some(config.letterbox_detection),
        saturation_boost: Some(config.saturation_boost),
        peak_weight: Some(config.peak_weight),
        gamma: Some(config.gamma),
        noise_gate_threshold: Some(config.noise_gate_threshold),
        smoothing_factor: Some(config.smoothing_factor),
        rise_smoothing_factor: Some(config.rise_smoothing_factor),
        fall_smoothing_factor: Some(config.fall_smoothing_factor),
        strict_blackout: Some(config.strict_blackout),
        max_color_step: Some(config.max_color_step),
        adaptive_throttling: Some(config.adaptive_throttling),
        zones: Some(config.zones),
        capture_width: Some(config.capture_width),
        capture_height: Some(config.capture_height),
    }
}

/// What a Nanoleaf controller is written as.
pub open spec fn written_nanoleaf(strip: NanoleafConfig) -> StoredNanoleaf {
    StoredNanoleaf {
        enabled: Some(strip.enabled),
        ip: strip.ip,
        auth_token: strip.auth_token,
        udp_port: Some(strip.udp_port),
        segments: Some(strip.segments),
        panel_ids: Some(strip.panel_ids),
        alignment: Some(strip.alignment),
    }
}

/// What a WLED controller is written as.
pub open spec fn written_wled(strip: WledConfig) -> StoredWled {
    StoredWled {
        enabled: Some(strip.enabled),
        ip: strip.ip,
        ddp_port: Some(strip.ddp_port),
        led_count: Some(strip.led_count),
        destination_id: Some(strip.destination_id),
        alignment: Some(strip.alignment),
    }
}

/// Loading gives back what was saved, setting by setting, the credentials and the
/// controllers included.
pub proof fn loading_gives_back_what_was_saved(config: Config, loaded: Config)
    requires
        call_ensures(Config::from_stored, (written(config),), loaded),
    ensures
        loaded.auto_tv_power == config.auto_tv_power,
        loaded.hue_enabled == config.hue_enabled,
        loaded.hue_sync_enabled == config.hue_sync_enabled,
        loaded.bridge_ip@ == config.bridge_ip@,
        loaded.username@ == config.username@,
        loaded.clientkey@ == config.clientkey@,
        loaded.hue_bridge_certificate_sha256 == config.hue_bridge_certificate_sha256,
        loaded.entertainment_area_id@ == config.entertainment_area_id@,
        loaded.entertainment_configuration_id == config.entertainment_configuration_id,
        loaded.nanoleaf is Some <==> config.nanoleaf is Some,
        config.nanoleaf matches Some(before) ==> loaded.nanoleaf matches Some(after) && {
            &&& after.enabled == before.enabled
            &&& after.ip@ == before.ip@
            &&& after.auth_token@ == before.auth_token@
            &&& after.udp_port == before.udp_port
            &&& after.segments == before.segments
            &&& after.panel_ids@ == before.panel_ids@
            &&& after.alignment == before.alignment
        },
        loaded.wled is Some <==> config.wled is Some,
        config.wled matches Some(before) ==> loaded.wled matches Some(after) && {
            &&& after.enabled == before.enabled
            &&& after.ip@ == before.ip@
            &&& after.ddp_port == before.ddp_port
            &&& after.led_count == before.led_count
            &&& after.destination_id == before.destination_id
            &&& after.alignment == before.alignment
        },
        loaded.nanoleaf_sync_enabled == config.nanoleaf_sync_enabled,
        loaded.wled_sync_enabled == config.wled_sync_enabled,
        loaded.fps == config.fps,
        loaded.brightness_multiplier == config.brightness_multiplier,
        loaded.hue_output_brightness == config.hue_output_brightness,
        loaded.nanoleaf_output_brightness == config.nanoleaf_output_brightness,
        loaded.wled_output_brightness == config.wled_output_brightness,
        loaded.use_xy_gamut == config.use_xy_gamut,
        loaded.hdr_tone_mapping == config.hdr_tone_mapping,
        loaded.letterbox_detection == config.letterbox_detection,
        loaded.saturation_boost == config.saturation_boost,
        loaded.peak_weight == config.peak_weight,
        loaded.gamma == config.gamma,
        loaded.noise_gate_threshold == config.noise_gate_threshold,
        loaded.smoothing_factor == config.smoothing_factor,
        loaded.rise_smoothing_factor == config.rise_smoothing_factor,
        loaded.fall_smoothing_factor == config.fall_smoothing_factor,
        loaded.strict_blackout == config.strict_blackout,
        loaded.max_color_step == config.max_color_step,
        loaded.adaptive_throttling == config.adaptive_throttling,
        loaded.zones@ == config.zones@,
        loaded.capture_width == config.capture_width,
        loaded.capture_height == config.capture_height,
{
}

/// Each setting of a file is taken under its own name, whatever the file holds
/// beside it.
pub proof fn each_stored_setting_is_taken_as_itself(stored: StoredConfig, loaded: Config)
    requires
        call_ensures(Config::from_stored, (stored,), loaded),
    ensures
        stored.auto_tv_power matches Some(value) ==> loaded.auto_tv_power == value,
        stored.hue_enabled matches Some(value) ==> loaded.hue_enabled == value,
        stored.hue_sync_enabled matches Some(value) ==> loaded.hue_sync_enabled == value,
        stored.bridge_ip matches Some(text) ==> loaded.bridge_ip@ == text@,
        stored.bridge_ip is None ==> loaded.bridge_ip@.len() == 0,
        stored.username matches Some(text) ==> loaded.username@ == text@,
        stored.username is None ==> loaded.username@.len() == 0,
        stored.clientkey matches Some(text) ==> loaded.clientkey@ == text@,
        stored.clientkey is None ==> loaded.clientkey@.len() == 0,
        loaded.hue_bridge_certificate_sha256 == stored.hue_bridge_certificate_sha256,
        stored.entertainment_area_id matches Some(text) ==> loaded.entertainment_area_id@ == text@,
        stored.entertainment_area_id is None ==> loaded.entertainment_area_id@.len() == 0,
        loaded.entertainment_configuration_id == stored.entertainment_configuration_id,
        loaded.nanoleaf is Some <==> stored.nanoleaf is Some,
        loaded.wled is Some <==> stored.wled is Some,
        stored.nanoleaf_sync_enabled matches Some(value) ==> loaded.nanoleaf_sync_enabled == value,
        stored.wled_sync_enabled matches Some(value) ==> loaded.wled_sync_enabled == value,
        stored.fps matches Some(value) ==> loaded.fps == value,
        stored.brightness_multiplier matches Some(value) ==> loaded.brightness_multiplier == value,
        stored.hue_output_brightness matches Some(value) ==> loaded.hue_output_brightness == value,
        stored.nanoleaf_output_brightness matches Some(value) ==> loaded.nanoleaf_output_brightness == value,
        stored.wled_output_brightness matches Some(value) ==> loaded.wled_output_brightness == value,
        stored.use_xy_gamut matches Some(value) ==> loaded.use_xy_gamut == value,
        stored.hdr_tone_mapping matches Some(value) ==> loaded.hdr_tone_mapping == value,
        stored.letterbox_detection matches Some(value) ==> loaded.letterbox_detection == value,
        stored.saturation_boost matches Some(value) ==> loaded.saturation_boost == value,
        stored.peak_weight matches Some(value) ==> loaded.peak_weight == value,
        stored.gamma matches Some(value) ==> loaded.gamma == value,
        stored.noise_gate_threshold matches Some(value) ==> loaded.noise_gate_threshold == value,
        stored.smoothing_factor matches Some(value) ==> loaded.smoothing_factor == value,
        stored.rise_smoothing_factor matches Some(value) ==> loaded.rise_smoothing_factor == value,
        stored.fall_smoothing_factor matches Some(value) ==> loaded.fall_smoothing_factor == value,
        stored.strict_blackout matches Some(value) ==> loaded.strict_blackout == value,
        stored.max_color_step matches Some(value) ==> loaded.max_color_step == value,
        stored.adaptive_throttling matches Some(value) ==> loaded.adaptive_throttling == value,
        stored.zones matches Some(zones) ==> loaded.zones@ == zones@,
        stored.capture_width matches Some(value) ==> loaded.capture_width == value,
        stored.capture_height matches Some(value) ==> loaded.capture_height == value,
{
}

/// What a file leaves out is what a fresh configuration has, whatever the file
/// holds beside it.
pub proof fn what_is_left_out_is_fresh(
    stored: StoredConfig,
    loaded: Config,
    bridge_ip: &str,
    username: &str,
    clientkey: &str,
    area_id: &str,
    fresh: Config,
)
    requires
        call_ensures(Config::from_stored, (stored,), loaded),
        call_ensures(Config::new_default, (bridge_ip, username, clientkey, area_id), fresh),
    ensures
        stored.auto_tv_power is None ==> loaded.auto_tv_power == fresh.auto_tv_power,
        stored.hue_enabled is None ==> loaded.hue_enabled == fresh.hue_enabled,
        stored.hue_sync_enabled is None ==> loaded.hue_sync_enabled == fresh.hue_sync_enabled,
        fresh.hue_bridge_certificate_sha256 is None,
        fresh.entertainment_configuration_id is None,
        fresh.nanoleaf is None,
        fresh.wled is None,
        stored.nanoleaf_sync_enabled is None ==> loaded.nanoleaf_sync_enabled == fresh.nanoleaf_sync_enabled,
        stored.wled_sync_enabled is None ==> loaded.wled_sync_enabled == fresh.wled_sync_enabled,
        stored.fps is None ==> loaded.fps == fresh.fps,
        stored.brightness_multiplier is None ==> loaded.brightness_multiplier == fresh.brightness_multiplier,
        stored.hue_output_brightness is None ==> loaded.hue_output_brightness == fresh.hue_output_brightness,
        stored.nanoleaf_output_brightness is None ==> loaded.nanoleaf_output_brightness == fresh.nanoleaf_output_brightness,
        stored.wled_output_brightness is None ==> loaded.wled_output_brightness == fresh.wled_output_brightness,
        stored.use_xy_gamut is None ==> loaded.use_xy_gamut == fresh.use_xy_gamut,
        stored.hdr_tone_mapping is None ==> loaded.hdr_tone_mapping == fresh.hdr_tone_mapping,
        stored.letterbox_detection is None ==> loaded.letterbox_detection == fresh.letterbox_detection,
        stored.saturation_boost is None ==> loaded.saturation_boost == fresh.saturation_boost,
        stored.peak_weight is None ==> loaded.peak_weight == fresh.peak_weight,
        stored.gamma is None ==> loaded.gamma == fresh.gamma,
        stored.noise_gate_threshold is None ==> loaded.noise_gate_threshold == fresh.noise_gate_threshold,
        stored.smoothing_factor is None ==> loaded.smoothing_factor == fresh.smoothing_factor,
        stored.rise_smoothing_factor is None ==> loaded.rise_smoothing_factor == fresh.rise_smoothing_factor,
        stored.fall_smoothing_factor is None ==> loaded.fall_smoothing_factor == fresh.fall_smoothing_factor,
        stored.strict_blackout is None ==> loaded.strict_blackout == fresh.strict_blackout,
        stored.max_color_step is None ==> loaded.max_color_step == fresh.max_color_step,
        stored.adaptive_throttling is None ==> loaded.adaptive_throttling == fresh.adaptive_throttling,
        stored.zones is None ==> loaded.zones@.len() == fresh.zones@.len() && forall|i: int|
            0 <= i < fresh.zones@.len() ==> same_zone(#[trigger] loaded.zones@[i], fresh.zones@[i]),
        stored.capture_width is None ==> loaded.capture_width == fresh.capture_width,
        stored.capture_height is None ==> loaded.capture_height == fresh.capture_height,
{
    if stored.zones is None {
        lemma_same_sides(loaded.zones@[0], fresh.zones@[0]);
        lemma_same_sides(loaded.zones@[1], fresh.zones@[1]);
        lemma_same_sides(loaded.zones@[2], fresh.zones@[2]);
        lemma_same_sides(loaded.zones@[3], fresh.zones@[3]);
    }
}

/// A fresh configuration holds what it was given under its own name, has every
/// output on, no strip, and the tuning that suits most rooms.
pub proof fn a_fresh_configuration_is_ready_to_run(
    bridge_ip: &str,
    username: &str,
    clientkey: &str,
    area_id: &str,
    fresh: Config,
)
    requires
        call_ensures(Config::new_default, (bridge_ip, username, clientkey, area_id), fresh),
    ensures
        fresh.bridge_ip@ == bridge_ip@,
        fresh.username@ == username@,
        fresh.clientkey@ == clientkey@,
        fresh.entertainment_area_id@ == area_id@,
        fresh.auto_tv_power,
        fresh.hue_enabled,
        fresh.hue_sync_enabled,
        fresh.nanoleaf_sync_enabled,
        fresh.wled_sync_enabled,
        fresh.fps == 30,
        fresh.brightness_multiplier.bits == 0x3f80_0000,
        fresh.hue_output_brightness.bits == 0x3f80_0000,
        fresh.nanoleaf_output_brightness.bits == 0x3f80_0000,
        fresh.wled_output_brightness.bits == 0x3f80_0000,
        !fresh.use_xy_gamut,
        fresh.hdr_tone_mapping,
        fresh.letterbox_detection,
        fresh.saturation_boost.bits == 0x3fc0_0000,
        fresh.peak_weight.bits == 0x3eb3_3333,
        fresh.gamma.bits == 0x3f80_0000,
        fresh.noise_gate_threshold.bits == 0x3ca3_d70a,
        fresh.smoothing_factor.bits == 0x3eb3_3333,
        fresh.rise_smoothing_factor.bits == 0x3eb3_3333,
        fresh.fall_smoothing_factor.bits == 0x3eb3_3333,
        !fresh.strict_blackout,
        fresh.max_color_step == 12,
        fresh.adaptive_throttling,
        fresh.capture_width == 320,
        fresh.capture_height == 180,
        fresh.zones@.len() == 4,
        forall|i: int| 0 <= i < 4 ==> (#[trigger] fresh.zones@[i]).channel_id == i,
        fresh.nanoleaf is None && fresh.wled is None,
        fresh.hue_bridge_certificate_sha256 is None,
        fresh.entertainment_configuration_id is None,
{
}

/// A controller's settings are taken from a file under their own names, and those
/// left out are those of a controller that nobody has set up.
pub proof fn each_stored_strip_setting_is_taken_as_itself(
    stored: StoredNanoleaf,
    nanoleaf: NanoleafConfig,
    stored_wled: StoredWled,
    wled: WledConfig,
    untouched: WledConfig,
)
    requires
        call_ensures(NanoleafConfig::from_stored, (stored,), nanoleaf),
        call_ensures(WledConfig::from_stored, (stored_wled,), wled),
        call_ensures(<WledConfig as Default>::default, (), untouched),
    ensures
        nanoleaf.ip@ == stored.ip@,
        nanoleaf.auth_token@ == stored.auth_token@,
        stored.enabled matches Some(value) ==> nanoleaf.enabled == value,
        stored.udp_port matches Some(value) ==> nanoleaf.udp_port == value,
        stored.segments matches Some(value) ==> nanoleaf.segments == value,
        stored.panel_ids matches Some(value) ==> nanoleaf.panel_ids@ == value@,
        stored.alignment matches Some(value) ==> nanoleaf.alignment == value,
        stored.enabled is None ==> nanoleaf.enabled,
        stored.udp_port is None ==> nanoleaf.udp_port == 60222,
        stored.segments is None ==> nanoleaf.segments == 30,
        stored.panel_ids is None ==> nanoleaf.panel_ids@.len() == 0,
        stored.alignment is None ==> nanoleaf.alignment == untouched.alignment,
        wled.ip@ == stored_wled.ip@,
        stored_wled.enabled matches Some(value) ==> wled.enabled == value,
        stored_wled.ddp_port matches Some(value) ==> wled.ddp_port == value,
        stored_wled.led_count matches Some(value) ==> wled.led_count == value,
        stored_wled.destination_id matches Some(value) ==> wled.destination_id == value,
        stored_wled.alignment matches Some(value) ==> wled.alignment == value,
        stored_wled.enabled is None ==> wled.enabled == untouched.enabled,
        stored_wled.ddp_port is None ==> wled.ddp_port == untouched.ddp_port,
        stored_wled.led_count is None ==> wled.led_count == untouched.led_count,
        stored_wled.destination_id is None ==> wled.destination_id == untouched.destination_id,
        stored_wled.alignment is None ==> wled.alignment == untouched.alignment,
        untouched.enabled && untouched.ip@.len() == 0,
        untouched.ddp_port == 4048 && untouched.led_count == 60 && untouched.destination_id == 1,
{
}

/// An output is active only if it is wanted and everything is there that it is
/// reached by: an address and a login for Hue and Nanoleaf, an address and LEDs for
/// WLED.
pub proof fn an_active_output_can_be_reached(
    config: &Config,
    hue: bool,
    nanoleaf: bool,
    wled: bool,
)
    requires
        call_ensures(Config::hue_active, (config,), hue),
        call_ensures(Config::nanoleaf_active, (config,), nanoleaf),
        call_ensures(Config::wled_active, (config,), wled),
    ensures
        !config.hue_enabled ==> !hue,
        config.bridge_ip@.len() == 0 ==> !hue,
        config.username@.len() == 0 ==> !hue,
        config.hue_enabled && config.bridge_ip@.len() > 0 && config.username@.len() > 0 ==> hue,
        config.nanoleaf is None ==> !nanoleaf,
        config.nanoleaf matches Some(strip) ==> (nanoleaf <==> strip.enabled && strip.ip@.len() > 0
            && strip.auth_token@.len() > 0),
        config.wled is None ==> !wled,
        config.wled matches Some(strip) ==> (wled <==> strip.enabled && strip.ip@.len() > 0
            && strip.led_count > 0),
{
}

/// Streaming is switched for the stored configuration exactly where that is a
/// whole identifier of 36 bytes, and what is shown as selected is the stored
/// configuration wherever there is one.
pub proof fn streaming_needs_a_whole_identifier(
    config: &Config,
    id: Option<String>,
    stream: Result<String, String>,
    selected: String,
)
    requires
        call_ensures(Config::hue_configuration_id, (config,), id),
        call_ensures(Config::stream_configuration, (config,), stream),
        call_ensures(Config::selected_area_id, (config,), selected),
    ensures
        id is Some ==> id == config.entertainment_configuration_id,
        id is Some ==> vstd::utf8::encode_utf8(id->0@).len() == 36,
        id is None ==> (config.entertainment_configuration_id matches Some(stored)
            ==> vstd::utf8::encode_utf8(stored@).len() != 36),
        stream is Ok <==> id is Some,
        stream matches Ok(text) ==> Some(text) == id,
        config.entertainment_configuration_id matches Some(stored) ==> selected == stored,
        config.entertainment_configuration_id is None ==> selected == config.entertainment_area_id,
{
}

/// Everything of a configuration but what pairing or selecting an area writes.
pub open spec fn same_beside_hue(before: Config, after: Config) -> bool {
    &&& after.auto_tv_power == before.auto_tv_power
    &&& after.nanoleaf == before.nanoleaf
    &&& after.wled == before.wled
    &&& after.nanoleaf_sync_enabled == before.nanoleaf_sync_enabled
    &&& after.wled_sync_enabled == before.wled_sync_enabled
    &&& after.fps == before.fps
    &&& after.brightness_multiplier == before.brightness_multiplier
    &&& after.hue_output_brightness == before.hue_output_brightness
    &&& after.nanoleaf_output_brightness == before.nanoleaf_output_brightness
    &&& after.wled_output_brightness == before.wled_output_brightness
    &&& after.use_xy_gamut == before.use_xy_gamut
    &&& after.hdr_tone_mapping == before.hdr_tone_mapping
    &&& after.letterbox_detection == before.letterbox_detection
    &&& after.saturation_boost == before.saturation_boost
    &&& after.peak_weight == before.peak_weight
    &&& after.gamma == before.gamma
    &&& after.noise_gate_threshold == before.noise_gate_threshold
    &&& after.smoothing_factor == before.smoothing_factor
    &&& after.rise_smoothing_factor == before.rise_smoothing_factor
    &&& after.fall_smoothing_factor == before.fall_smoothing_factor
    &&& after.strict_blackout == before.strict_blackout
    &&& after.max_color_step == before.max_color_step
    &&& after.adaptive_throttling == before.adaptive_throttling
    &&& after.capture_width == before.capture_width
    &&& after.capture_height == before.capture_height
}

/// An area is stored under its own identifier with its own certificate, and is the
/// selected one from then on. Selecting it takes over its zones; refreshing it
/// keeps the zones where it has none. Nothing else changes.
pub proof fn a_stored_area_is_the_selected_one(
    selecting: &mut Config,
    refreshing: &mut Config,
    area: EntertainmentArea,
    selected: String,
    refreshed: String,
)
    requires
        call_ensures(Config::select_area, (selecting, area), ()),
        call_ensures(Config::refresh_area, (refreshing, area), ()),
        call_ensures(Config::selected_area_id, (final(selecting),), selected),
        call_ensures(Config::selected_area_id, (final(refreshing),), refreshed),
    ensures
        selected@ == area.configuration_id@,
        refreshed@ == area.configuration_id@,
        final(selecting).entertainment_area_id@ == area.configuration_id@,
        final(refreshing).entertainment_area_id@ == area.configuration_id@,
        final(selecting).hue_bridge_certificate_sha256 == Some(area.certificate_sha256),
        final(refreshing).hue_bridge_certificate_sha256 == Some(area.certificate_sha256),
        final(selecting).zones@ == area.zones@,
        area.zones@.len() > 0 ==> final(refreshing).zones@ == area.zones@,
        area.zones@.len() == 0 ==> final(refreshing).zones@ == old(refreshing).zones@,
        same_beside_hue(*old(selecting), *final(selecting)),
        same_beside_hue(*old(refreshing), *final(refreshing)),
        final(selecting).bridge_ip == old(selecting).bridge_ip,
        final(selecting).username == old(selecting).username,
        final(selecting).clientkey == old(selecting).clientkey,
        final(selecting).hue_enabled == old(selecting).hue_enabled,
        final(selecting).hue_sync_enabled == old(selecting).hue_sync_enabled,
        final(refreshing).bridge_ip == old(refreshing).bridge_ip,
        final(refreshing).username == old(refreshing).username,
        final(refreshing).clientkey == old(refreshing).clientkey,
        final(refreshing).hue_enabled == old(refreshing).hue_enabled,
        final(refreshing).hue_sync_enabled == old(refreshing).hue_sync_enabled,
{
}

/// Pairing a bridge stores its address, both credentials and its area, each as
/// itself. From the dashboard it turns Hue on, so that a bridge with an address and
/// a login is active from then on; from the command line that stays as it was.
/// Nothing else changes.
pub proof fn a_paired_bridge_is_stored_as_itself(
    dashboard: &mut Config,
    console: &mut Config,
    bridge_ip: String,
    username: String,
    clientkey: String,
    area: EntertainmentArea,
    active: bool,
)
    requires
        call_ensures(Config::pair_hue, (dashboard, bridge_ip, username, clientkey, area), ()),
        call_ensures(
            Config::store_hue_pairing,
            (console, bridge_ip, username, clientkey, area),
            (),
        ),
        call_ensures(Config::hue_active, (final(dashboard),), active),
    ensures
        final(dashboard).bridge_ip@ == bridge_ip@,
        final(dashboard).username@ == username@,
        final(dashboard).clientkey@ == clientkey@,
        final(console).bridge_ip@ == bridge_ip@,
        final(console).username@ == username@,
        final(console).clientkey@ == clientkey@,
        final(dashboard).entertainment_configuration_id == Some(area.configuration_id),
        final(console).entertainment_configuration_id == Some(area.configuration_id),
        final(dashboard).entertainment_area_id@ == area.configuration_id@,
        final(console).entertainment_area_id@ == area.configuration_id@,
        final(dashboard).hue_bridge_certificate_sha256 == Some(area.certificate_sha256),
        final(console).hue_bridge_certificate_sha256 == Some(area.certificate_sha256),
        final(dashboard).zones@ == area.zones@,
        area.zones@.len() > 0 ==> final(console).zones@ == area.zones@,
        area.zones@.len() == 0 ==> final(console).zones@ == old(console).zones@,
        final(dashboard).hue_enabled && final(dashboard).hue_sync_enabled,
        final(console).hue_enabled == old(console).hue_enabled,
        final(console).hue_sync_enabled == old(console).hue_sync_enabled,
        bridge_ip@.len() > 0 && username@.len() > 0 ==> active,
        same_beside_hue(*old(dashboard), *final(dashboard)),
        same_beside_hue(*old(console), *final(console)),
{
}

/// Pairing a Nanoleaf controller stores its address, token and panels, each as
/// itself, so that it is active from then on; it has 30 segments at least, and is
/// not aligned yet. The dashboard turns its output on. Nothing else changes.
pub proof fn a_paired_nanoleaf_is_stored_as_itself(
    dashboard: &mut Config,
    console: &mut Config,
    ip: String,
    auth_token: String,
    segments: u16,
    panel_ids: Vec<u16>,
    active: bool,
)
    requires
        call_ensures(Config::pair_nanoleaf, (dashboard, ip, auth_token, segments, panel_ids), ()),
        call_ensures(
            Config::store_nanoleaf_pairing,
            (console, ip, auth_token, segments, panel_ids),
            (),
        ),
        call_ensures(Config::nanoleaf_active, (final(dashboard),), active),
    ensures
        final(dashboard).nanoleaf == final(console).nanoleaf,
        final(dashboard).nanoleaf matches Some(strip) && {
            &&& strip.enabled
            &&& strip.ip@ == ip@
            &&& strip.auth_token@ == auth_token@
            &&& strip.udp_port == 60222
            &&& strip.segments >= 30
            &&& segments >= 30 ==> strip.segments == segments
            &&& segments < 30 ==> strip.segments == 30
            &&& strip.panel_ids@ == panel_ids@
            &&& strip.alignment == (NanoleafAlignment {
                start_corner: NanoleafStartCorner::BottomCenter,
                reverse_direction: false,
                perimeter_offset: 0,
            })
        },
        ip@.len() > 0 && auth_token@.len() > 0 ==> active,
        *final(dashboard) == (Config {
            nanoleaf: final(dashboard).nanoleaf,
            nanoleaf_sync_enabled: true,
            ..*old(dashboard)
        }),
        *final(console) == (Config { nanoleaf: final(console).nanoleaf, ..*old(console) }),
{
}

/// Setting up a WLED controller stores its address and LEDs and turns it on, so
/// that it is active from then on. A controller that was there keeps its port,
/// destination and alignment; a new one has those of a controller that nobody has
/// set up. Nothing else changes.
pub proof fn a_configured_wled_is_stored_as_itself(
    config: &mut Config,
    ip: String,
    led_count: u16,
    untouched: WledConfig,
    active: bool,
)
    requires
        call_ensures(Config::configure_wled, (config, ip, led_count), ()),
        call_ensures(<WledConfig as Default>::default, (), untouched),
        call_ensures(Config::wled_active, (final(config),), active),
    ensures
        final(config).wled matches Some(strip) && {
            let before = match old(config).wled {
                Some(before) => before,
                None => untouched,
            };
            &&& strip.enabled
            &&& strip.ip@ == ip@
            &&& strip.led_count == led_count
            &&& strip.ddp_port == before.ddp_port
            &&& strip.destination_id == before.destination_id
            &&& strip.alignment == before.alignment
        },
        ip@.len() > 0 && led_count > 0 ==> active,
        *final(config) == (Config {
            wled: final(config).wled,
            wled_sync_enabled: true,
            ..*old(config)
        }),
{
}

/// Devices are set up in the stored configuration, in a fresh one only where none
/// has been stored, and not at all where one could not be read.
pub proof fn setup_starts_from_what_is_stored(
    stored: Config,
    message: String,
    from_stored: Result<Config, String>,
    from_nothing: Result<Config, String>,
    from_failure: Result<Config, String>,
    fresh: Config,
)
    requires
        call_ensures(load_setup_config, (Ok::<Config, LoadFailure>(stored),), from_stored),
        call_ensures(
            load_setup_config,
            (Err::<Config, LoadFailure>(LoadFailure::NotFound),),
            from_nothing,
        ),
        call_ensures(
            load_setup_config,
            (Err::<Config, LoadFailure>(LoadFailure::Other(message)),),
            from_failure,
        ),
        call_ensures(Config::from_stored, (nothing_stored(),), fresh),
    ensures
        from_stored == Ok::<Config, String>(stored),
        from_failure == Err::<Config, String>(message),
        from_nothing matches Ok(config) && {
            &&& config.bridge_ip@.len() == 0
            &&& config.username@.len() == 0
            &&& config.clientkey@.len() == 0
            &&& config.entertainment_area_id@.len() == 0
            &&& config == (Config {
                bridge_ip: config.bridge_ip,
                username: config.username,
                clientkey: config.clientkey,
                entertainment_area_id: config.entertainment_area_id,
                zones: config.zones,
                ..fresh
            })
        },
{
}

/// The zones of a configuration without an area lie around the screen: two quarters at
/// the sides, as high as each other, and two bands above each other, as wide as each
/// other, all of them whole and on the screen.
pub proof fn the_standard_zones_lie_around_the_screen(zones: Vec<LightZone>)
    requires
        call_ensures(default_zones, (), zones),
    ensures
        zones@.len() == 4,
        zones@[0].name@ == "Left"@ && zones@[1].name@ == "Top"@,
        zones@[2].name@ == "Right"@ && zones@[3].name@ == "Bottom"@,
        forall|i: int| 0 <= i < 4 ==> (#[trigger] zones@[i]).channel_id == i,
        forall|i: int|
            0 <= i < 4 ==> (#[trigger] zones@[i]).x_min.bits < zones@[i].x_max.bits
                && zones@[i].y_min.bits < zones@[i].y_max.bits && zones@[i].x_max.bits
                <= 0x3f80_0000 && zones@[i].y_max.bits <= 0x3f80_0000,
        forall|i: int|
            0 <= i < 4 ==> (#[trigger] zones@[i]).hue_device_id is None
                && zones@[i].hue_segment_index is None && zones@[i].hue_segment_count is None,
        zones@[0].x_min.bits == 0 && zones@[0].x_max.bits == 0x3e80_0000,
        zones@[2].x_min.bits == 0x3f40_0000 && zones@[2].x_max.bits == 0x3f80_0000,
        zones@[0].y_min == zones@[2].y_min && zones@[0].y_max == zones@[2].y_max,
        zones@[0].y_min.bits == 0x3dcc_cccd && zones@[0].y_max.bits == 0x3f66_6666,
        zones@[1].x_min == zones@[3].x_min && zones@[1].x_max == zones@[3].x_max,
        zones@[1].x_min.bits == 0x3e4c_cccd && zones@[1].x_max.bits == 0x3f4c_cccd,
        zones@[1].y_min.bits == 0 && zones@[1].y_max.bits == 0x3e99_999a,
        zones@[3].y_min.bits == 0x3f33_3333 && zones@[3].y_max.bits == 0x3f80_0000,
{
    assert(zones@[0].channel_id == 0 && zones@[1].channel_id == 1);
    assert(zones@[2].channel_id == 2 && zones@[3].channel_id == 3);
    lemma_sides(zones@[0], seq![0, 0x3e80_0000, 0x3dcc_cccd, 0x3f66_6666]);
    lemma_sides(zones@[1], seq![0x3e4c_cccd, 0x3f4c_cccd, 0, 0x3e99_999a]);
    lemma_sides(zones@[2], seq![0x3f40_0000, 0x3f80_0000, 0x3dcc_cccd, 0x3f66_6666]);
    lemma_sides(zones@[3], seq![0x3e4c_cccd, 0x3f4c_cccd, 0x3f33_3333, 0x3f80_0000]);
}

proof fn lemma_sides(zone: LightZone, sides: Seq<u32>)
    requires
        plain_zone(zone, zone.channel_id, zone.name@, sides),
    ensures
        zone.x_min.bits == sides[0],
        zone.x_max.bits == sides[1],
        zone.y_min.bits == sides[2],
        zone.y_max.bits == sides[3],
{
}

/// What is left out of a file is what a fresh configuration has: the defaults agree
/// with it.
pub proof fn defaults_agree_with_a_fresh_configuration(
    fresh: Config,
    fps: u32,
    width: u32,
    height: u32,
    brightness: Scalar,
    trim: Scalar,
    boost: Scalar,
    weight: Scalar,
    gamma: Scalar,
    gate: Scalar,
    factor: Scalar,
    step: u8,
    yes: bool,
    no: bool,
)
    requires
        call_ensures(Config::new_default, ("", "", "", ""), fresh),
        call_ensures(default_fps, (), fps),
        call_ensures(default_capture_width, (), width),
        call_ensures(default_capture_height, (), height),
        call_ensures(default_brightness, (), brightness),
        call_ensures(default_output_trim, (), trim),
        call_ensures(default_saturation_boost, (), boost),
        call_ensures(default_peak_weight, (), weight),
        call_ensures(default_gamma, (), gamma),
        call_ensures(default_noise_gate, (), gate),
        call_ensures(default_smoothing_factor, (), factor),
        call_ensures(default_max_color_step, (), step),
        call_ensures(default_true, (), yes),
        call_ensures(default_false, (), no),
    ensures
        fps == fresh.fps,
        width == fresh.capture_width,
        height == fresh.capture_height,
        width * 9 == height * 16,
        brightness == fresh.brightness_multiplier,
        trim == fresh.hue_output_brightness,
        trim == fresh.nanoleaf_output_brightness,
        trim == fresh.wled_output_brightness,
        boost == fresh.saturation_boost,
        weight == fresh.peak_weight,
        gamma == fresh.gamma,
        gate == fresh.noise_gate_threshold,
        factor == fresh.smoothing_factor,
        factor == fresh.rise_smoothing_factor,
        factor == fresh.fall_smoothing_factor,
        step == fresh.max_color_step,
        yes == fresh.auto_tv_power && yes == fresh.adaptive_throttling,
        no == fresh.use_xy_gamut && no == fresh.strict_blackout,
        yes && !no,
{
}

/// A controller that nobody has set up listens on its usual port, and begins in the
/// middle of the bottom edge.
pub proof fn an_untouched_controller_has_the_usual_settings(
    wled: WledConfig,
    wled_port: u16,
    wled_leds: u16,
    destination: u8,
    nanoleaf_port: u16,
    segments: u16,
    alignment: NanoleafAlignment,
    corner: NanoleafStartCorner,
)
    requires
        call_ensures(<WledConfig as Default>::default, (), wled),
        call_ensures(default_wled_port, (), wled_port),
        call_ensures(default_wled_led_count, (), wled_leds),
        call_ensures(default_wled_destination_id, (), destination),
        call_ensures(default_nanoleaf_port, (), nanoleaf_port),
        call_ensures(default_nanoleaf_segments, (), segments),
        call_ensures(<NanoleafAlignment as Default>::default, (), alignment),
        call_ensures(<NanoleafStartCorner as Default>::default, (), corner),
    ensures
        wled.ddp_port == wled_port && wled_port == 4048,
        wled.led_count == wled_leds && wled_leds == 60,
        wled.destination_id == destination && destination == 1,
        nanoleaf_port == 60222,
        segments == 30,
        wled.alignment == alignment,
        alignment.start_corner == corner,
        corner is BottomCenter,
        !alignment.reverse_direction && alignment.perimeter_offset == 0,
        wled.enabled && wled.ip@.len() == 0,
{
}

/// A copied zone is the same zone, and copied zones are the same in the same order.
pub proof fn copied_zones_are_the_same(
    zone: LightZone,
    copy: LightZone,
    zones: &[LightZone],
    copies: Vec<LightZone>,
)
    requires
        call_ensures(<LightZone as Clone>::clone, (&zone,), copy),
        call_ensures(copy_zones, (zones,), copies),
    ensures
        copy == zone,
        copies@.len() == zones@.len(),
        forall|i: int| 0 <= i < zones@.len() ==> #[trigger] copies@[i] == zones@[i],
{
}

} // verus!
