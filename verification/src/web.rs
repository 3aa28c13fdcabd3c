//! The decisions behind the dashboard's HTTP interface: what a request asks of
//! the sync loop, what it stores, and how it is answered.
use crate::calibration::CalibrationPattern;
use crate::color::RgbColor;
use crate::color::copy_channels;
use crate::color::copy_colors;
use crate::config::Config;
use crate::config::LightZone;
use crate::config::NanoleafAlignment;
use crate::config::NanoleafConfig;
use crate::config::WledConfig;
use crate::config::copy_zones;
use crate::sampler::perimeter_led_count;
use crate::settings::LiveSettings;
use crate::text::decimal_text;
use crate::text::trim;
use vstd::prelude::*;

verus! {

/// What the dashboard asks the sync loop to do.
#[derive(Debug, Clone, Copy, PartialEq, Eq, Structural)]
pub enum ControlCommand {
    Start,
    Stop,
    Restart,
    Reconfigure,
    SyncBridge,
    SaveConfig,
    ApplySettings(LiveSettings),
}

/// Why a request was refused.
#[derive(Debug)]
pub enum ApiError {
    /// The request itself is wrong.
    BadRequest(String),
    /// The request was fine, but carrying it out failed.
    SetupFailed(String),
}

/// `error` says that the request is wrong, in these words.
pub open spec fn bad_request(error: ApiError, text: Seq<char>) -> bool {
    error matches ApiError::BadRequest(message) && message@ == text
}

/// `error` says that the setup failed, in these words.
pub open spec fn setup_failed(error: ApiError, text: Seq<char>) -> bool {
    error matches ApiError::SetupFailed(message) && message@ == text
}

impl ApiError {
    /// The HTTP status that the error is answered with.
    pub fn status_code(&self) -> (code: u16)
        ensures
            code == (match *self {
                ApiError::BadRequest(_) => 400u16,
                ApiError::SetupFailed(_) => 502u16,
            }),
    {
        match self {
            ApiError::BadRequest(_) => 400,
            ApiError::SetupFailed(_) => 502,
        }
    }

    /// The words that the error is answered with.
    pub fn message(&self) -> (message: &str)
        ensures
            message@ == (match *self {
                ApiError::BadRequest(message) => message@,
                ApiError::SetupFailed(message) => message@,
            }),
    {
        match self {
            ApiError::BadRequest(message) => message.as_str(),
            ApiError::SetupFailed(message) => message.as_str(),
        }
    }
}

/// The answer to a request that had a command for the sync loop.
pub open spec fn answered(
    reply: Result<&'static str, ApiError>,
    delivered: bool,
    status: Seq<char>,
) -> bool {
    match reply {
        Ok(text) => delivered && text@ == status,
        Err(error) => !delivered && setup_failed(error, "sync controller is unavailable"@),
    }
}

/// Answers `status` if the sync loop took the command, and that it is gone if
/// not.
pub fn send_command(delivered: bool, status: &'static str) -> (reply: Result<
    &'static str,
    ApiError,
>)
    ensures
        answered(reply, delivered, status@),
{
    if delivered {
        Ok(status)
    } else {
        Err(ApiError::SetupFailed("sync controller is unavailable".to_owned()))
    }
}

/// What the sync loop and the dashboard both see.
pub struct SharedState {
    pub is_syncing: bool,
    /// Capture polling ceiling in hundredths, not the media frame rate.
    pub fps_x100: u32,
    /// Successful light-output updates measured over the preceding second, in
    /// hundredths.
    pub light_updates_x100: u32,
    pub hue_bridge_ip: String,
    pub nanoleaf_ip: String,
    pub wled_ip: String,
    pub hue_connected: bool,
    pub nanoleaf_connected: bool,
    pub wled_connected: bool,
    pub wled_led_count: u32,
    pub capture_hardware: bool,
    /// 0 = unknown, 1 = active, 2 = standby/off.
    pub tv_power_state: u32,
    pub capture_resolution: String,
    pub current_settings: LiveSettings,
    pub live_hue_colors: Vec<(u8, RgbColor)>,
    pub live_nanoleaf_colors: Vec<RgbColor>,
    pub live_wled_colors: Vec<RgbColor>,
    pub hue_zones: Vec<LightZone>,
    pub calibration_pattern: Option<CalibrationPattern>,
}

/// How the TV's power state is held.
pub open spec fn power_code(active: Option<bool>) -> u32 {
    match active {
        Some(true) => 1,
        Some(false) => 2,
        None => 0,
    }
}

/// How the TV's power state is shown.
pub open spec fn power_name(code: u32) -> Seq<char> {
    if code == 1 {
        "active"@
    } else if code == 2 {
        "standby"@
    } else {
        "unknown"@
    }
}

/// The dashboard's view of the daemon.
#[derive(Debug)]
pub struct StatusResponse {
    pub is_syncing: bool,
    pub tv_power_state: &'static str,
    pub fps_x100: u32,
    pub light_updates_x100: u32,
    pub hue_connected: bool,
    pub hue_bridge_ip: String,
    pub nanoleaf_connected: bool,
    pub nanoleaf_ip: String,
    pub wled_connected: bool,
    pub wled_ip: String,
    pub wled_led_count: u32,
    pub capture_hardware: bool,
    pub capture_resolution: String,
    pub settings: LiveSettings,
    pub nanoleaf_colors: Vec<RgbColor>,
    pub wled_colors: Vec<RgbColor>,
    pub hue_colors: Vec<(u8, RgbColor)>,
    pub hue_zones: Vec<LightZone>,
    pub calibration_pattern: Option<&'static str>,
}

/// `response` is what `shared` looks like.
pub open spec fn reports(response: StatusResponse, shared: SharedState) -> bool {
    &&& response.is_syncing == shared.is_syncing
    &&& response.tv_power_state@ == power_name(shared.tv_power_state)
    &&& response.fps_x100 == shared.fps_x100
    &&& response.light_updates_x100 == shared.light_updates_x100
    &&& response.hue_connected == shared.hue_connected
    &&& response.hue_bridge_ip == shared.hue_bridge_ip
    &&& response.nanoleaf_connected == shared.nanoleaf_connected
    &&& response.nanoleaf_ip == shared.nanoleaf_ip
    &&& response.wled_connected == shared.wled_connected
    &&& response.wled_ip == shared.wled_ip
    &&& response.wled_led_count == shared.wled_led_count
    &&& response.capture_hardware == shared.capture_hardware
    &&& response.capture_resolution == shared.capture_resolution
    &&& response.settings == shared.current_settings
    &&& response.nanoleaf_colors@ == shared.live_nanoleaf_colors@
    &&& response.wled_colors@ == shared.live_wled_colors@
    &&& response.hue_colors@ == shared.live_hue_colors@
    &&& response.hue_zones@ == shared.hue_zones@
    &&& match shared.calibration_pattern {
        Some(pattern) => response.calibration_pattern matches Some(name) && name@
            == crate::calibration::pattern_name(pattern),
        None => response.calibration_pattern is None,
    }
}

/// Two responses that say the same, field by field.
pub open spec fn same_status(left: StatusResponse, right: StatusResponse) -> bool {
    &&& left.is_syncing == right.is_syncing
    &&& left.tv_power_state@ == right.tv_power_state@
    &&& left.fps_x100 == right.fps_x100
    &&& left.light_updates_x100 == right.light_updates_x100
    &&& left.hue_connected == right.hue_connected
    &&& left.hue_bridge_ip@ == right.hue_bridge_ip@
    &&& left.nanoleaf_connected == right.nanoleaf_connected
    &&& left.nanoleaf_ip@ == right.nanoleaf_ip@
    &&& left.wled_connected == right.wled_connected
    &&& left.wled_ip@ == right.wled_ip@
    &&& left.wled_led_count == right.wled_led_count
    &&& left.capture_hardware == right.capture_hardware
    &&& left.capture_resolution@ == right.capture_resolution@
    &&& left.settings == right.settings
    &&& left.nanoleaf_colors@ == right.nanoleaf_colors@
    &&& left.wled_colors@ == right.wled_colors@
    &&& left.hue_colors@ == right.hue_colors@
    &&& left.hue_zones@ == right.hue_zones@
    &&& match left.calibration_pattern {
        Some(name) => right.calibration_pattern matches Some(other) && other@ == name@,
        None => right.calibration_pattern is None,
    }
}

impl SharedState {
    /// The state before anything was connected or measured.
    pub fn new(
        initial_settings: LiveSettings,
        hue_bridge_ip: String,
        nanoleaf_ip: String,
        wled_ip: String,
        wled_led_count: u16,
        capture_res: String,
        hue_zones: Vec<LightZone>,
    ) -> (state: Self)
        ensures
            state.is_syncing,
            state.fps_x100 == 6000,
            state.light_updates_x100 == 0,
            state.hue_bridge_ip == hue_bridge_ip,
            state.nanoleaf_ip == nanoleaf_ip,
            state.wled_ip == wled_ip,
            !state.hue_connected,
            !state.nanoleaf_connected,
            !state.wled_connected,
            state.wled_led_count == wled_led_count,
            !state.capture_hardware,
            state.tv_power_state == power_code(None),
            state.capture_resolution == capture_res,
            state.current_settings == initial_settings,
            state.live_hue_colors@.len() == 0,
            state.live_nanoleaf_colors@.len() == 0,
            state.live_wled_colors@.len() == 0,
            state.hue_zones == hue_zones,
            state.calibration_pattern is None,
    {
        SharedState {
            is_syncing: true,
            fps_x100: 6000,
            light_updates_x100: 0,
            hue_bridge_ip,
            nanoleaf_ip,
            wled_ip,
            hue_connected: false,
            nanoleaf_connected: false,
            wled_connected: false,
            wled_led_count: wled_led_count as u32,
            capture_hardware: false,
            tv_power_state: 0,
            capture_resolution: capture_res,
            current_settings: initial_settings,
            live_hue_colors: Vec::new(),
            live_nanoleaf_colors: Vec::new(),
            live_wled_colors: Vec::new(),
            hue_zones,
            calibration_pattern: None,
        }
    }

    /// Stores the capture rate, in hundredths of a frame per second.
    pub fn set_fps(&mut self, hundredths: u32)
        ensures
            final(self)@ == old(self)@.after(crate::status::StatusStep::CaptureRate(hundredths)),
            *final(self) == (SharedState { fps_x100: hundredths, ..*old(self) }),
    {
        self.fps_x100 = hundredths;
    }

    /// The capture rate, in hundredths of a frame per second.
    pub fn get_fps(&self) -> (hundredths: u32)
        ensures
            hundredths == self.fps_x100,
    {
        self.fps_x100
    }

    /// Stores the rate of light updates, in hundredths of an update per second.
    pub fn set_light_update_fps(&mut self, hundredths: u32)
        ensures
            final(self)@ == old(self)@.after(crate::status::StatusStep::UpdateRate(hundredths)),
            *final(self) == (SharedState { light_updates_x100: hundredths, ..*old(self) }),
    {
        self.light_updates_x100 = hundredths;
    }

    /// The rate of light updates, in hundredths of an update per second.
    pub fn light_update_fps(&self) -> (hundredths: u32)
        ensures
            hundredths == self.light_updates_x100,
    {
        self.light_updates_x100
    }

    /// Stores whether the TV is on, if that is known.
    pub fn set_tv_power_state(&mut self, active: Option<bool>)
        ensures
            final(self)@ == old(self)@.after(crate::status::StatusStep::TvPower(active)),
            *final(self) == (SharedState { tv_power_state: power_code(active), ..*old(self) }),
    {
        self.tv_power_state = match active {
            Some(true) => 1,
            Some(false) => 2,
            None => 0,
        };
    }

    /// Answers a request for the daemon's status.
    pub fn status(&self) -> (response: StatusResponse)
        ensures
            reports(response, *self),
    {
        StatusResponse {
            is_syncing: self.is_syncing,
            tv_power_state: if self.tv_power_state == 1 {
                "active"
            } else if self.tv_power_state == 2 {
                "standby"
            } else {
                "unknown"
            },
            fps_x100: self.get_fps(),
            light_updates_x100: self.light_update_fps(),
            hue_connected: self.hue_connected,
            hue_bridge_ip: self.hue_bridge_ip.clone(),
            nanoleaf_connected: self.nanoleaf_connected,
            nanoleaf_ip: self.nanoleaf_ip.clone(),
            wled_connected: self.wled_connected,
            wled_ip: self.wled_ip.clone(),
            wled_led_count: self.wled_led_count,
            capture_hardware: self.capture_hardware,
            capture_resolution: self.capture_resolution.clone(),
            settings: self.current_settings,
            nanoleaf_colors: copy_colors(&self.live_nanoleaf_colors),
            wled_colors: copy_colors(&self.live_wled_colors),
            hue_colors: copy_channels(&self.live_hue_colors),
            hue_zones: copy_zones(&self.hue_zones),
            calibration_pattern: match self.calibration_pattern {
                Some(pattern) => Some(pattern.name()),
                None => None,
            },
        }
    }

    /// Answers a request to start, after `Start` was sent.
    pub fn start(&mut self, delivered: bool) -> (reply: Result<&'static str, ApiError>)
        ensures
            final(self)@ == old(self)@.after(crate::status::StatusStep::Start { delivered }),
            answered(reply, delivered, "starting"@),
            *final(self) == (SharedState {
                is_syncing: old(self).is_syncing || delivered,
                ..*old(self)
            }),
    {
        if delivered {
            self.is_syncing = true;
        }
        send_command(delivered, "starting")
    }

    /// Answers a request to stop, after `Stop` was sent.
    pub fn stop(&mut self, delivered: bool) -> (reply: Result<&'static str, ApiError>)
        ensures
            final(self)@ == old(self)@.after(crate::status::StatusStep::Stop { delivered }),
            answered(reply, delivered, "stopping"@),
            *final(self) == (SharedState {
                is_syncing: old(self).is_syncing && !delivered,
                ..*old(self)
            }),
    {
        if delivered {
            self.is_syncing = false;
        }
        send_command(delivered, "stopping")
    }

    /// The command that a request to toggle stands for.
    pub fn toggle(&self) -> (command: ControlCommand)
        ensures
            command == (if self.is_syncing {
                ControlCommand::Stop
            } else {
                ControlCommand::Start
            }),
    {
        if self.is_syncing {
            ControlCommand::Stop
        } else {
            ControlCommand::Start
        }
    }

    /// Stores new settings; the command that comes back applies them. A request
    /// with settings is answered `ok`.
    pub fn settings(&mut self, settings: LiveSettings) -> (command: ControlCommand)
        ensures
            final(self)@ == old(self)@.after(crate::status::StatusStep::Settings(settings)),
            *final(self) == (SharedState { current_settings: settings, ..*old(self) }),
            command == ControlCommand::ApplySettings(settings),
    {
        self.current_settings = settings;
        ControlCommand::ApplySettings(settings)
    }

    /// Takes over an alignment of the Nanoleaf strip that has been saved; the
    /// command that comes back applies it.
    pub fn align_nanoleaf(&mut self, alignment: NanoleafAlignment) -> (command: ControlCommand)
        ensures
            final(self)@ == old(self)@.after(crate::status::StatusStep::AlignNanoleaf(alignment)),
            *final(self) == (SharedState {
                current_settings: LiveSettings {
                    nanoleaf_alignment: alignment,
                    ..old(self).current_settings
                },
                ..*old(self)
            }),
            command == ControlCommand::ApplySettings(final(self).current_settings),
    {
        self.current_settings.nanoleaf_alignment = alignment;
        ControlCommand::ApplySettings(self.current_settings)
    }

    /// Takes over an alignment of the WLED strip that has been saved; the
    /// command that comes back applies it.
    pub fn align_wled(&mut self, alignment: NanoleafAlignment) -> (command: ControlCommand)
        ensures
            final(self)@ == old(self)@.after(crate::status::StatusStep::AlignWled(alignment)),
            *final(self) == (SharedState {
                current_settings: LiveSettings {
                    wled_alignment: alignment,
                    ..old(self).current_settings
                },
                ..*old(self)
            }),
            command == ControlCommand::ApplySettings(final(self).current_settings),
    {
        self.current_settings.wled_alignment = alignment;
        ControlCommand::ApplySettings(self.current_settings)
    }

    /// Takes over a WLED controller that has been saved.
    pub fn wled_configured(&mut self, ip: String, led_count: u16) -> (command: ControlCommand)
        ensures
            final(self)@ == old(self)@.after(
                crate::status::StatusStep::WledConfigured { ip: ip@, led_count },
            ),
            *final(self) == (SharedState {
                wled_ip: ip,
                wled_led_count: led_count as u32,
                ..*old(self)
            }),
            command == ControlCommand::Reconfigure,
    {
        self.wled_ip = ip;
        self.wled_led_count = led_count as u32;
        ControlCommand::Reconfigure
    }

    /// Takes over a Nanoleaf controller that has been paired.
    pub fn nanoleaf_paired(&mut self, ip: String) -> (command: ControlCommand)
        ensures
            final(self)@ == old(self)@.after(crate::status::StatusStep::NanoleafPaired { ip: ip@ }),
            *final(self) == (SharedState { nanoleaf_ip: ip, ..*old(self) }),
            command == ControlCommand::Reconfigure,
    {
        self.nanoleaf_ip = ip;
        ControlCommand::Reconfigure
    }

    /// Shows a calibration pattern, or none for `off`.
    pub fn test_pattern(&mut self, pattern: &str) -> (reply: Result<&'static str, ApiError>)
        ensures
            final(self)@ == old(self)@.after(crate::status::StatusStep::Pattern(pattern@)),
            match crate::calibration::requested(pattern@) {
                Some(wanted) => {
                    &&& reply matches Ok(text) && text@ == "ok"@
                    &&& *final(self) == (SharedState { calibration_pattern: wanted, ..*old(self) })
                },
                None => {
                    &&& reply matches Err(error) && bad_request(error, "unknown test pattern"@)
                    &&& *final(self) == *old(self)
                },
            },
    {
        match CalibrationPattern::parse(pattern) {
            Some(wanted) => {
                self.calibration_pattern = wanted;
                Ok("ok")
            },
            None => Err(ApiError::BadRequest("unknown test pattern".to_owned())),
        }
    }
}

/// Answers a request with settings, after they were sent to be applied.
pub fn settings_sent(delivered: bool) -> (reply: Result<&'static str, ApiError>)
    ensures
        answered(reply, delivered, "ok"@),
{
    send_command(delivered, "ok")
}

/// Answers a request to choose a Hue area, after `Reconfigure` was sent.
pub fn area_selected(delivered: bool) -> (reply: Result<&'static str, ApiError>)
    ensures
        answered(reply, delivered, "selected"@),
{
    send_command(delivered, "selected")
}

/// Answers a request to pair a device, after `Reconfigure` was sent.
pub fn device_paired(delivered: bool) -> (reply: Result<&'static str, ApiError>)
    ensures
        answered(reply, delivered, "paired"@),
{
    send_command(delivered, "paired")
}

/// Answers a request to save the settings, an alignment or a WLED controller,
/// after the command for it was sent.
pub fn save_config(delivered: bool) -> (reply: Result<&'static str, ApiError>)
    ensures
        answered(reply, delivered, "saved"@),
{
    send_command(delivered, "saved")
}

/// Answers a request to restart the capture, after `Restart` was sent.
pub fn restart(delivered: bool) -> (reply: Result<&'static str, ApiError>)
    ensures
        answered(reply, delivered, "restarting"@),
{
    send_command(delivered, "restarting")
}

/// Answers a request to refresh the Hue area, after `SyncBridge` was sent: with
/// an HTTP status and the words.
pub fn sync_bridge(delivered: bool) -> (reply: Result<(u16, &'static str), ApiError>)
    ensures
        match reply {
            Ok(accepted) => delivered && accepted.0 == 202 && accepted.1@ == "queued"@,
            Err(error) => !delivered && setup_failed(error, "sync controller is unavailable"@),
        },
{
    match send_command(delivered, "queued") {
        Ok(status) => Ok((202, status)),
        Err(error) => Err(error),
    }
}

/// Refuses a Nanoleaf alignment that starts beyond the strip's 40 panels.
pub fn check_nanoleaf_alignment(alignment: NanoleafAlignment) -> (checked: Result<(), ApiError>)
    ensures
        checked is Ok <==> alignment.perimeter_offset < 40,
        checked matches Err(error) ==> bad_request(
            error,
            "Nanoleaf perimeter offset must be between 0 and 39"@,
        ),
{
    if alignment.perimeter_offset >= 40 {
        return Err(
            ApiError::BadRequest("Nanoleaf perimeter offset must be between 0 and 39".to_owned()),
        );
    }
    Ok(())
}

/// Refuses a WLED strip that is too short to surround a screen or longer than
/// 2048 LEDs.
pub fn check_wled_led_count(led_count: u16) -> (checked: Result<(), ApiError>)
    ensures
        checked is Ok <==> 4 <= led_count <= 2048,
        checked matches Err(error) ==> bad_request(
            error,
            "WLED LED count must be between 4 and 2048"@,
        ),
{
    if led_count < 4 || led_count > 2048 {
        return Err(ApiError::BadRequest("WLED LED count must be between 4 and 2048".to_owned()));
    }
    Ok(())
}

/// The entertainment area that a request names, without the space around it.
pub fn requested_area(area_id: &str) -> (area: Result<String, ApiError>)
    ensures
        match area {
            Ok(id) => id@ == crate::text::trimmed(area_id@) && id@.len() > 0,
            Err(error) => crate::text::trimmed(area_id@).len() == 0 && bad_request(
                error,
                "Select a Hue Entertainment Area"@,
            ),
        },
{
    let area_id = trim(area_id);
    if area_id.is_empty() {
        return Err(ApiError::BadRequest("Select a Hue Entertainment Area".to_owned()));
    }
    Ok(area_id.to_owned())
}

/// The bridge address that a pairing request names; a blank one names none, and
/// the bridge is searched for.
pub fn requested_bridge(ip: Option<String>) -> (bridge: Option<String>)
    ensures
        bridge == (match ip {
            Some(text) => if crate::text::trimmed(text@).len() > 0 {
                Some(text)
            } else {
                None
            },
            None => None,
        }),
{
    match ip {
        Some(text) => {
            let blank = trim(text.as_str()).is_empty();
            if blank {
                None
            } else {
                Some(text)
            }
        },
        None => None,
    }
}

/// The controller address that a Nanoleaf pairing request has to name.
pub fn requested_nanoleaf(ip: Option<String>) -> (address: Result<String, ApiError>)
    ensures
        match ip {
            Some(text) => address == Ok::<String, ApiError>(text),
            None => address matches Err(error) && bad_request(
                error,
                "Nanoleaf controller IP is required"@,
            ),
        },
{
    match ip {
        Some(text) => Ok(text),
        None => Err(ApiError::BadRequest("Nanoleaf controller IP is required".to_owned())),
    }
}

/// The address of a device, as its numbers.
#[derive(Debug, Clone, Copy)]
pub enum DeviceAddress {
    V4([u8; 4]),
    V6([u16; 8]),
}

/// An address that a device on the local network can have: not this machine,
/// not a group of machines, not none.
pub open spec fn reachable(address: DeviceAddress) -> bool {
    match address {
        DeviceAddress::V4(octets) => {
            &&& octets@[0] != 127
            &&& !(224 <= octets@[0] <= 239)
            &&& exists|i: int| 0 <= i < 4 && #[trigger] octets@[i] != 0
        },
        DeviceAddress::V6(segments) => {
            &&& segments@[0] < 0xff00
            &&& exists|i: int|
                0 <= i < 8 && #[trigger] segments@[i] != (if i == 7 {
                    1u16
                } else {
                    0u16
                })
            &&& exists|i: int| 0 <= i < 8 && #[trigger] segments@[i] != 0
        },
    }
}

/// The address of a device, from what the text of a request was read as.
pub fn validate_device_ip(address: Option<DeviceAddress>) -> (valid: Result<DeviceAddress, String>)
    ensures
        match address {
            Some(given) => if reachable(given) {
                valid == Ok::<DeviceAddress, String>(given)
            } else {
                valid matches Err(text) && text@
                    == "Device IP must be a reachable local-network address"@
            },
            None => valid matches Err(text) && text@ == "Enter a valid device IP address"@,
        },
{
    let given = match address {
        Some(given) => given,
        None => {
            return Err("Enter a valid device IP address".to_owned());
        },
    };
    let refused = match given {
        DeviceAddress::V4(o) => {
            let loopback = o[0] == 127;
            let multicast = o[0] >= 224 && o[0] <= 239;
            let unspecified = o[0] == 0 && o[1] == 0 && o[2] == 0 && o[3] == 0;
            loopback || multicast || unspecified
        },
        DeviceAddress::V6(s) => {
            let prefix = s[0] == 0 && s[1] == 0 && s[2] == 0 && s[3] == 0 && s[4] == 0 && s[5] == 0
                && s[6] == 0;
            let loopback = prefix && s[7] == 1;
            let multicast = s[0] >= 0xff00;
            let unspecified = prefix && s[7] == 0;
            loopback || multicast || unspecified
        },
    };
    if refused {
        return Err("Device IP must be a reachable local-network address".to_owned());
    }
    Ok(given)
}

/// What is wrong with a request for a WLED controller, if anything: its number of
/// LEDs is looked at first, then its address.
pub open spec fn wled_refusal(led_count: u16, address: Option<DeviceAddress>) -> Option<Seq<char>> {
    if !(4 <= led_count <= 2048) {
        Some("WLED LED count must be between 4 and 2048"@)
    } else {
        match address {
            Some(given) => if reachable(given) {
                None
            } else {
                Some("Device IP must be a reachable local-network address"@)
            },
            None => Some("Enter a valid device IP address"@),
        }
    }
}

/// The address of the WLED controller that a request names, from its number of
/// LEDs and what the text of its address was read as.
pub fn requested_wled(led_count: u16, address: Option<DeviceAddress>) -> (request: Result<
    DeviceAddress,
    ApiError,
>)
    ensures
        request is Ok <==> 4 <= led_count <= 2048 && (address matches Some(given) && reachable(
            given,
        )),
        request matches Ok(given) ==> address == Some(given),
        match wled_refusal(led_count, address) {
            Some(text) => request matches Err(error) && bad_request(error, text),
            None => request is Ok,
        },
{
    match check_wled_led_count(led_count) {
        Ok(()) => {},
        Err(error) => {
            return Err(error);
        },
    }
    match validate_device_ip(address) {
        Ok(given) => Ok(given),
        Err(text) => Err(ApiError::BadRequest(text)),
    }
}

/// The address of the device that a pairing request names, from what its text was
/// read as. Pairing with any other fails.
pub fn pairing_address(address: Option<DeviceAddress>) -> (request: Result<DeviceAddress, ApiError>)
    ensures
        match address {
            Some(given) => if reachable(given) {
                request == Ok::<DeviceAddress, ApiError>(given)
            } else {
                request matches Err(error) && setup_failed(
                    error,
                    "Device IP must be a reachable local-network address"@,
                )
            },
            None => request matches Err(error) && setup_failed(
                error,
                "Enter a valid device IP address"@,
            ),
        },
{
    match validate_device_ip(address) {
        Ok(given) => Ok(given),
        Err(text) => Err(ApiError::SetupFailed(text)),
    }
}

impl Config {
    /// Refuses to talk about areas before a bridge is paired.
    pub fn check_hue_paired(&self) -> (checked: Result<(), String>)
        ensures
            checked is Ok <==> self.bridge_ip@.len() > 0 && self.username@.len() > 0,
            checked matches Err(text) ==> text@
                == "Pair a Hue Bridge before selecting an Entertainment Area"@,
    {
        if self.bridge_ip.as_str().is_empty() || self.username.as_str().is_empty() {
            return Err("Pair a Hue Bridge before selecting an Entertainment Area".to_owned());
        }
        Ok(())
    }

    /// Stores the alignment of a paired Nanoleaf strip.
    pub fn align_nanoleaf(&mut self, alignment: NanoleafAlignment) -> (stored: Result<(), String>)
        ensures
            match old(self).nanoleaf {
                Some(strip) => {
                    &&& stored is Ok
                    &&& *final(self) == (Config {
                        nanoleaf: Some(NanoleafConfig { alignment, ..strip }),
                        ..*old(self)
                    })
                },
                None => {
                    &&& stored matches Err(text) && text@
                        == "Pair a Nanoleaf 4D before applying its alignment"@
                    &&& *final(self) == *old(self)
                },
            },
    {
        match self.nanoleaf.take() {
            Some(strip) => {
                self.nanoleaf = Some(NanoleafConfig { alignment, ..strip });
                Ok(())
            },
            None => Err("Pair a Nanoleaf 4D before applying its alignment".to_owned()),
        }
    }

    /// Stores the alignment of a configured WLED strip, if it starts on the
    /// strip.
    pub fn align_wled(&mut self, alignment: NanoleafAlignment) -> (stored: Result<(), String>)
        ensures
            match old(self).wled {
                Some(strip) => {
                    let leds = crate::sampler::perimeter_leds(strip.led_count);
                    if alignment.perimeter_offset < leds {
                        &&& stored is Ok
                        &&& *final(self) == (Config {
                            wled: Some(WledConfig { alignment, ..strip }),
                            ..*old(self)
                        })
                    } else {
                        &&& stored matches Err(text) && text@
                            == "WLED perimeter offset must be between 0 and "@
                            + crate::text::decimal((leds - 1) as nat)
                        &&& *final(self) == *old(self)
                    }
                },
                None => {
                    &&& stored matches Err(text) && text@
                        == "Configure WLED before applying its alignment"@
                    &&& *final(self) == *old(self)
                },
            },
    {
        match self.wled.take() {
            Some(strip) => {
                let leds: u16 = perimeter_led_count(strip.led_count);
                if alignment.perimeter_offset as u16 >= leds {
                    self.wled = Some(strip);
                    let mut text = "WLED perimeter offset must be between 0 and ".to_owned();
                    let bound = decimal_text((leds - 1) as u32);
                    text.append(bound.as_str());
                    return Err(text);
                }
                self.wled = Some(WledConfig { alignment, ..strip });
                Ok(())
            },
            None => Err("Configure WLED before applying its alignment".to_owned()),
        }
    }
}

/// An alignment that was stored is the one that the next start begins with.
pub proof fn stored_alignments_come_back(
    config: Config,
    nanoleaf: NanoleafConfig,
    wled: WledConfig,
    alignment: NanoleafAlignment,
    switches: crate::settings::SyncSwitches,
)
    ensures
        crate::settings::initial_settings(
            Config { nanoleaf: Some(NanoleafConfig { alignment, ..nanoleaf }), ..config },
            switches,
        ).nanoleaf_alignment == alignment,
        crate::settings::initial_settings(
            Config { wled: Some(WledConfig { alignment, ..wled }), ..config },
            switches,
        ).wled_alignment == alignment,
{
}

/// A machine on the home network can be named, whatever its numbers are otherwise;
/// this machine, a group of machines and no machine cannot.
pub proof fn only_a_device_can_be_named(
    a: u8,
    b: u8,
    c: u8,
    d: u8,
    octets: [u8; 4],
    valid: Result<DeviceAddress, String>,
)
    requires
        octets@ == seq![a, b, c, d],
        call_ensures(validate_device_ip, (Some(DeviceAddress::V4(octets)),), valid),
    ensures
        valid matches Ok(address) ==> address == DeviceAddress::V4(octets),
        a == 127 ==> valid is Err,
        a == 0 && b == 0 && c == 0 && d == 0 ==> valid is Err,
        224 <= a <= 239 ==> valid is Err,
        1 <= a <= 126 ==> valid is Ok,
        128 <= a <= 223 ==> valid is Ok,
        240 <= a ==> valid is Ok,
        a == 0 && b != 0 ==> valid is Ok,
        a == 0 && c != 0 ==> valid is Ok,
        a == 0 && d != 0 ==> valid is Ok,
        valid matches Err(text) ==> text@ == "Device IP must be a reachable local-network address"@,
{
    assert(octets@[0] == a && octets@[1] == b && octets@[2] == c && octets@[3] == d);
}

/// The same for the longer addresses: refused are one, zero and those that begin
/// with a byte of ones.
pub proof fn only_a_device_can_be_named_at_length(
    segments: [u16; 8],
    valid: Result<DeviceAddress, String>,
)
    requires
        call_ensures(validate_device_ip, (Some(DeviceAddress::V6(segments)),), valid),
    ensures
        valid matches Ok(address) ==> address == DeviceAddress::V6(segments),
        segments@[0] / 256 == 255 ==> valid is Err,
        segments@[7] <= 1 && (forall|i: int| 0 <= i < 7 ==> #[trigger] segments@[i] == 0)
            ==> valid is Err,
        segments@[0] / 256 != 255 && segments@[7] > 1 ==> valid is Ok,
        forall|i: int|
            0 <= i < 7 && #[trigger] segments@[i] != 0 && segments@[0] / 256 != 255 ==> valid is Ok,
        valid matches Err(text) ==> text@ == "Device IP must be a reachable local-network address"@,
{
    assert(segments@.len() == 8);
    let last = segments@[7];
    assert(last != 0 && last != 1 ==> reachable(DeviceAddress::V6(segments)) || segments@[0]
        >= 0xff00) by {
        assert(segments@[7] == last);
    }
    assert forall|i: int|
        0 <= i < 7 && #[trigger] segments@[i] != 0 && segments@[0] / 256
            != 255 implies valid is Ok by {
        let other = if i == 7 {
            1u16
        } else {
            0u16
        };
        assert(segments@[i] != other);
        assert(segments@[0] < 0xff00);
    }
}

/// A text that is no address is refused as such, and a request gets the address
/// that it named or the refusal that the address alone gets: wrong words from a
/// request for a WLED strip, a failure from a request to pair.
pub proof fn an_address_is_taken_as_it_is(
    address: Option<DeviceAddress>,
    led_count: u16,
    valid: Result<DeviceAddress, String>,
    paired: Result<DeviceAddress, ApiError>,
    wled: Result<DeviceAddress, ApiError>,
)
    requires
        call_ensures(validate_device_ip, (address,), valid),
        call_ensures(pairing_address, (address,), paired),
        call_ensures(requested_wled, (led_count, address), wled),
    ensures
        address is None ==> (valid matches Err(text) && text@
            == "Enter a valid device IP address"@),
        valid matches Ok(given) ==> address == Some(given) && paired == Ok::<
            DeviceAddress,
            ApiError,
        >(given),
        valid matches Err(text) ==> (paired matches Err(ApiError::SetupFailed(other)) && other@
            == text@),
        4 <= led_count <= 2048 && valid is Ok ==> (wled matches Ok(given) && Some(given)
            == address),
        4 <= led_count <= 2048 ==> (valid matches Err(text) ==> (wled matches Err(
            ApiError::BadRequest(other),
        ) && other@ == text@)),
        led_count < 4 || led_count > 2048 ==> (wled matches Err(ApiError::BadRequest(other))
            && other@ == "WLED LED count must be between 4 and 2048"@),
{
}

/// A wrong request is answered as the client's fault, a failure as another
/// machine's, both in the words of the error.
pub proof fn errors_are_answered_in_their_words(
    error: ApiError,
    code: u16,
    words: &str,
    text: String,
)
    requires
        call_ensures(ApiError::status_code, (&error,), code),
        call_ensures(ApiError::message, (&error,), words),
    ensures
        error is BadRequest <==> code == 400,
        error is SetupFailed <==> code == 502,
        error == ApiError::BadRequest(text) ==> words@ == text@,
        error == ApiError::SetupFailed(text) ==> words@ == text@,
{
}

/// Every command is answered with its own words if and only if the loop took it, and
/// otherwise with the failure that the loop is gone.
pub proof fn a_command_is_answered_only_when_taken(
    delivered: bool,
    applied: Result<&'static str, ApiError>,
    selected: Result<&'static str, ApiError>,
    paired: Result<&'static str, ApiError>,
    saved: Result<&'static str, ApiError>,
    restarting: Result<&'static str, ApiError>,
    queued: Result<(u16, &'static str), ApiError>,
)
    requires
        call_ensures(settings_sent, (delivered,), applied),
        call_ensures(area_selected, (delivered,), selected),
        call_ensures(device_paired, (delivered,), paired),
        call_ensures(save_config, (delivered,), saved),
        call_ensures(restart, (delivered,), restarting),
        call_ensures(sync_bridge, (delivered,), queued),
    ensures
        delivered ==> {
            &&& applied matches Ok(text) && text@ == "ok"@
            &&& selected matches Ok(text) && text@ == "selected"@
            &&& paired matches Ok(text) && text@ == "paired"@
            &&& saved matches Ok(text) && text@ == "saved"@
            &&& restarting matches Ok(text) && text@ == "restarting"@
            &&& queued matches Ok(reply) && reply.0 == 202 && reply.1@ == "queued"@
        },
        !delivered ==> {
            &&& applied matches Err(ApiError::SetupFailed(text)) && text@
                == "sync controller is unavailable"@
            &&& selected matches Err(ApiError::SetupFailed(text)) && text@
                == "sync controller is unavailable"@
            &&& paired matches Err(ApiError::SetupFailed(text)) && text@
                == "sync controller is unavailable"@
            &&& saved matches Err(ApiError::SetupFailed(text)) && text@
                == "sync controller is unavailable"@
            &&& restarting matches Err(ApiError::SetupFailed(text)) && text@
                == "sync controller is unavailable"@
            &&& queued matches Err(ApiError::SetupFailed(text)) && text@
                == "sync controller is unavailable"@
        },
{
}

/// Starting and stopping show at once what they ask for, if the loop took it, and
/// change nothing else; a toggle asks for the other of the two.
pub proof fn a_toggle_turns_what_is_shown(
    starting: &mut SharedState,
    stopping: &mut SharedState,
    delivered: bool,
    started: Result<&'static str, ApiError>,
    stopped: Result<&'static str, ApiError>,
    before: ControlCommand,
    after: ControlCommand,
)
    requires
        call_ensures(SharedState::start, (starting, delivered), started),
        call_ensures(SharedState::stop, (stopping, delivered), stopped),
        call_ensures(SharedState::toggle, (old(starting),), before),
        call_ensures(SharedState::toggle, (final(starting),), after),
    ensures
        delivered ==> final(starting).is_syncing && !final(stopping).is_syncing,
        !delivered ==> *final(starting) == *old(starting) && *final(stopping) == *old(stopping),
        (SharedState { is_syncing: old(starting).is_syncing, ..*final(starting) }) == *old(
            starting,
        ),
        (SharedState { is_syncing: old(stopping).is_syncing, ..*final(stopping) }) == *old(
            stopping,
        ),
        delivered ==> after is Stop,
        before is Stop || before is Start,
        before is Stop <==> old(starting).is_syncing,
        delivered ==> (started matches Ok(text) && text@ == "starting"@),
        delivered ==> (stopped matches Ok(text) && text@ == "stopping"@),
        !delivered ==> started is Err && stopped is Err,
{
}

/// What the dashboard reads is what was last written, each number and switch in its
/// own place.
pub proof fn the_dashboard_shows_what_was_written(
    capturing: &mut SharedState,
    updating: &mut SharedState,
    powered: &mut SharedState,
    capture_rate: u32,
    update_rate: u32,
    active: Option<bool>,
    shown_rate: StatusResponse,
    shown_updates: StatusResponse,
    shown_power: StatusResponse,
)
    requires
        call_ensures(SharedState::set_fps, (capturing, capture_rate), ()),
        call_ensures(SharedState::set_light_update_fps, (updating, update_rate), ()),
        call_ensures(SharedState::set_tv_power_state, (powered, active), ()),
        call_ensures(SharedState::status, (final(capturing),), shown_rate),
        call_ensures(SharedState::status, (final(updating),), shown_updates),
        call_ensures(SharedState::status, (final(powered),), shown_power),
    ensures
        shown_rate.fps_x100 == capture_rate,
        shown_rate.light_updates_x100 == old(capturing).light_updates_x100,
        shown_updates.light_updates_x100 == update_rate,
        shown_updates.fps_x100 == old(updating).fps_x100,
        active == Some(true) ==> shown_power.tv_power_state@ == "active"@,
        active == Some(false) ==> shown_power.tv_power_state@ == "standby"@,
        active is None ==> shown_power.tv_power_state@ == "unknown"@,
        (SharedState { fps_x100: old(capturing).fps_x100, ..*final(capturing) }) == *old(
            capturing,
        ),
        (SharedState {
            light_updates_x100: old(updating).light_updates_x100,
            ..*final(updating)
        }) == *old(updating),
        (SharedState { tv_power_state: old(powered).tv_power_state, ..*final(powered) }) == *old(
            powered,
        ),
{
}

/// A report says of each device its own address and link, and shows each output's
/// own colours.
pub proof fn each_device_is_reported_as_itself(shared: &SharedState, response: StatusResponse)
    requires
        call_ensures(SharedState::status, (shared,), response),
    ensures
        response.is_syncing == shared.is_syncing,
        response.fps_x100 == shared.fps_x100,
        response.light_updates_x100 == shared.light_updates_x100,
        response.hue_connected == shared.hue_connected,
        response.nanoleaf_connected == shared.nanoleaf_connected,
        response.wled_connected == shared.wled_connected,
        response.hue_bridge_ip@ == shared.hue_bridge_ip@,
        response.nanoleaf_ip@ == shared.nanoleaf_ip@,
        response.wled_ip@ == shared.wled_ip@,
        response.wled_led_count == shared.wled_led_count,
        response.capture_hardware == shared.capture_hardware,
        response.capture_resolution@ == shared.capture_resolution@,
        response.settings == shared.current_settings,
        response.hue_colors@ == shared.live_hue_colors@,
        response.nanoleaf_colors@ == shared.live_nanoleaf_colors@,
        response.wled_colors@ == shared.live_wled_colors@,
        response.hue_zones@ == shared.hue_zones@,
        response.calibration_pattern is Some <==> shared.calibration_pattern is Some,
{
}

/// A pattern that was asked for by its name is reported by that name; a word that
/// names none is refused and changes nothing.
pub proof fn an_asked_pattern_is_reported(
    shared: &mut SharedState,
    word: &str,
    reply: Result<&'static str, ApiError>,
    parsed: Option<Option<CalibrationPattern>>,
    response: StatusResponse,
)
    requires
        call_ensures(SharedState::test_pattern, (shared, word), reply),
        call_ensures(CalibrationPattern::parse, (word,), parsed),
        call_ensures(SharedState::status, (final(shared),), response),
    ensures
        reply is Ok <==> parsed is Some,
        reply matches Ok(text) ==> text@ == "ok"@,
        reply matches Err(error) ==> error matches ApiError::BadRequest(text) && text@
            == "unknown test pattern"@,
        reply is Err ==> *final(shared) == *old(shared),
        parsed matches Some(Some(pattern)) ==> (response.calibration_pattern matches Some(name)
            && crate::calibration::requested(name@) == Some(Some(pattern))),
        parsed == Some(None::<CalibrationPattern>) ==> response.calibration_pattern is None,
        (SharedState {
            calibration_pattern: old(shared).calibration_pattern,
            ..*final(shared)
        }) == *old(shared),
{
    if let Some(Some(pattern)) = parsed {
        let name = crate::calibration::pattern_name(pattern);
        crate::calibration::names_select_their_patterns(pattern, name);
    }
}

/// New settings are shown and go to the loop as they are; a new alignment goes with
/// the settings of its own strip and leaves every other setting alone.
pub proof fn an_alignment_is_for_its_own_strip(
    setting: &mut SharedState,
    nanoleaf: &mut SharedState,
    wled: &mut SharedState,
    settings: LiveSettings,
    alignment: NanoleafAlignment,
    applied: ControlCommand,
    nanoleaf_applied: ControlCommand,
    wled_applied: ControlCommand,
)
    requires
        call_ensures(SharedState::settings, (setting, settings), applied),
        call_ensures(SharedState::align_nanoleaf, (nanoleaf, alignment), nanoleaf_applied),
        call_ensures(SharedState::align_wled, (wled, alignment), wled_applied),
    ensures
        final(setting).current_settings == settings,
        applied == ControlCommand::ApplySettings(settings),
        (SharedState { current_settings: old(setting).current_settings, ..*final(setting) })
            == *old(setting),
        final(nanoleaf).current_settings.nanoleaf_alignment == alignment,
        final(nanoleaf).current_settings.wled_alignment == old(
            nanoleaf,
        ).current_settings.wled_alignment,
        (LiveSettings {
            nanoleaf_alignment: old(nanoleaf).current_settings.nanoleaf_alignment,
            ..final(nanoleaf).current_settings
        }) == old(nanoleaf).current_settings,
        nanoleaf_applied == ControlCommand::ApplySettings(final(nanoleaf).current_settings),
        (SharedState { current_settings: old(nanoleaf).current_settings, ..*final(nanoleaf) })
            == *old(nanoleaf),
        final(wled).current_settings.wled_alignment == alignment,
        final(wled).current_settings.nanoleaf_alignment == old(
            wled,
        ).current_settings.nanoleaf_alignment,
        (LiveSettings {
            wled_alignment: old(wled).current_settings.wled_alignment,
            ..final(wled).current_settings
        }) == old(wled).current_settings,
        wled_applied == ControlCommand::ApplySettings(final(wled).current_settings),
        (SharedState { current_settings: old(wled).current_settings, ..*final(wled) }) == *old(
            wled,
        ),
{
}

/// A new device is shown at its own address and makes the loop read its
/// configuration again.
pub proof fn a_new_device_is_shown_as_itself(
    wled: &mut SharedState,
    nanoleaf: &mut SharedState,
    ip: String,
    led_count: u16,
    wled_command: ControlCommand,
    nanoleaf_command: ControlCommand,
)
    requires
        call_ensures(SharedState::wled_configured, (wled, ip, led_count), wled_command),
        call_ensures(SharedState::nanoleaf_paired, (nanoleaf, ip), nanoleaf_command),
    ensures
        wled_command is Reconfigure,
        nanoleaf_command is Reconfigure,
        final(wled).wled_ip@ == ip@,
        final(wled).wled_led_count == led_count,
        final(wled).nanoleaf_ip@ == old(wled).nanoleaf_ip@,
        final(wled).hue_bridge_ip@ == old(wled).hue_bridge_ip@,
        final(nanoleaf).nanoleaf_ip@ == ip@,
        final(nanoleaf).wled_ip@ == old(nanoleaf).wled_ip@,
        final(nanoleaf).wled_led_count == old(nanoleaf).wled_led_count,
        final(nanoleaf).hue_bridge_ip@ == old(nanoleaf).hue_bridge_ip@,
        (SharedState {
            wled_ip: old(wled).wled_ip,
            wled_led_count: old(wled).wled_led_count,
            ..*final(wled)
        }) == *old(wled),
        (SharedState { nanoleaf_ip: old(nanoleaf).nanoleaf_ip, ..*final(nanoleaf) }) == *old(
            nanoleaf,
        ),
{
}

/// A fresh dashboard shows each address in its own place, nothing connected, nothing
/// measured, and the full rate of sixty pictures a second.
pub proof fn a_fresh_dashboard_shows_nothing_connected(
    initial_settings: LiveSettings,
    hue_bridge_ip: String,
    nanoleaf_ip: String,
    wled_ip: String,
    wled_led_count: u16,
    capture_res: String,
    hue_zones: Vec<LightZone>,
    state: SharedState,
)
    requires
        call_ensures(
            SharedState::new,
            (
                initial_settings,
                hue_bridge_ip,
                nanoleaf_ip,
                wled_ip,
                wled_led_count,
                capture_res,
                hue_zones,
            ),
            state,
        ),
    ensures
        state.is_syncing,
        state.fps_x100 == 60 * 100,
        state.light_updates_x100 == 0,
        state.hue_bridge_ip@ == hue_bridge_ip@,
        state.nanoleaf_ip@ == nanoleaf_ip@,
        state.wled_ip@ == wled_ip@,
        !state.hue_connected && !state.nanoleaf_connected && !state.wled_connected,
        state.wled_led_count == wled_led_count,
        !state.capture_hardware,
        state.tv_power_state == 0,
        state.capture_resolution@ == capture_res@,
        state.current_settings == initial_settings,
        state.live_hue_colors@.len() == 0 && state.live_nanoleaf_colors@.len() == 0
            && state.live_wled_colors@.len() == 0,
        state.hue_zones@ == hue_zones@,
        state.calibration_pattern is None,
{
}

/// A request for an area names it without the blanks around it, and has to name one;
/// a blank bridge address is none, any other is taken as it was written; a Nanoleaf
/// strip has to be named, and is taken as it was written.
pub proof fn a_request_names_what_it_names(
    area_id: &str,
    inner: &str,
    ip: String,
    blank: &str,
    inner_ip: &str,
    area: Result<String, ApiError>,
    bridge: Option<String>,
    no_bridge: Option<String>,
    strip: Result<String, ApiError>,
    no_strip: Result<String, ApiError>,
)
    requires
        call_ensures(trim, (area_id,), inner),
        blank@ == ip@,
        call_ensures(trim, (blank,), inner_ip),
        call_ensures(requested_area, (area_id,), area),
        call_ensures(requested_bridge, (Some(ip),), bridge),
        call_ensures(requested_bridge, (None::<String>,), no_bridge),
        call_ensures(requested_nanoleaf, (Some(ip),), strip),
        call_ensures(requested_nanoleaf, (None::<String>,), no_strip),
    ensures
        inner@.len() > 0 ==> (area matches Ok(id) && id@ == inner@),
        inner@.len() == 0 ==> (area matches Err(ApiError::BadRequest(text)) && text@
            == "Select a Hue Entertainment Area"@),
        inner_ip@.len() > 0 ==> (bridge matches Some(text) && text@ == ip@),
        inner_ip@.len() == 0 ==> bridge is None,
        no_bridge is None,
        strip matches Ok(text) && text@ == ip@,
        no_strip matches Err(ApiError::BadRequest(text)) && text@
            == "Nanoleaf controller IP is required"@,
{
}

/// A Nanoleaf strip has forty places to begin at, a WLED strip between 4 and 2048
/// LEDs; nothing else is looked at.
pub proof fn alignments_and_lengths_have_bounds(
    alignment: NanoleafAlignment,
    led_count: u16,
    aligned: Result<(), ApiError>,
    counted: Result<(), ApiError>,
)
    requires
        call_ensures(check_nanoleaf_alignment, (alignment,), aligned),
        call_ensures(check_wled_led_count, (led_count,), counted),
    ensures
        alignment.perimeter_offset <= 39 ==> aligned is Ok,
        alignment.perimeter_offset >= 40 ==> (aligned matches Err(ApiError::BadRequest(text))
            && text@ == "Nanoleaf perimeter offset must be between 0 and 39"@),
        4 <= led_count && led_count <= 2048 ==> counted is Ok,
        led_count < 4 || 2048 < led_count ==> (counted matches Err(ApiError::BadRequest(text))
            && text@ == "WLED LED count must be between 4 and 2048"@),
{
}

/// A Nanoleaf alignment is stored with the Nanoleaf strip and changes nothing else;
/// without that strip it is refused and changes nothing at all.
pub proof fn a_nanoleaf_alignment_is_stored_with_its_strip(
    config: &mut Config,
    strip: NanoleafConfig,
    alignment: NanoleafAlignment,
    stored: Result<(), String>,
)
    requires
        call_ensures(Config::align_nanoleaf, (config, alignment), stored),
    ensures
        old(config).nanoleaf == Some(strip) ==> stored is Ok && final(config).nanoleaf == Some(
            NanoleafConfig { alignment, ..strip },
        ),
        old(config).nanoleaf is None ==> final(config).nanoleaf is None && (stored matches Err(
            text,
        ) && text@ == "Pair a Nanoleaf 4D before applying its alignment"@),
        (Config { nanoleaf: old(config).nanoleaf, ..*final(config) }) == *old(config),
{
    if let Some(present) = old(config).nanoleaf {
        let after = Config {
            nanoleaf: Some(NanoleafConfig { alignment, ..present }),
            ..*old(config)
        };
        assert(*final(config) == after);
    }
}

/// A WLED alignment is stored with the WLED strip, if it begins on the strip, and
/// changes nothing else; otherwise it is refused and changes nothing at all.
pub proof fn a_wled_alignment_is_stored_with_its_strip(
    config: &mut Config,
    strip: WledConfig,
    alignment: NanoleafAlignment,
    stored: Result<(), String>,
    last_place: u32,
    last_place_text: String,
)
    requires
        call_ensures(Config::align_wled, (config, alignment), stored),
        call_ensures(decimal_text, (last_place,), last_place_text),
        last_place == (if strip.led_count > 4 {
            strip.led_count - 1
        } else {
            3
        }),
    ensures
        old(config).wled == Some(strip) && (alignment.perimeter_offset < strip.led_count
            || alignment.perimeter_offset < 4) ==> stored is Ok && final(config).wled == Some(
            WledConfig { alignment, ..strip },
        ),
        old(config).wled == Some(strip) && alignment.perimeter_offset >= strip.led_count
            && alignment.perimeter_offset >= 4 ==> (stored matches Err(text) && text@
            == "WLED perimeter offset must be between 0 and "@ + last_place_text@) && final(config).wled == Some(strip),
        old(config).wled is None ==> final(config).wled is None && (stored matches Err(text)
            && text@ == "Configure WLED before applying its alignment"@),
        (Config { wled: old(config).wled, ..*final(config) }) == *old(config),
{
    if let Some(present) = old(config).wled {
        let after = Config { wled: Some(WledConfig { alignment, ..present }), ..*old(config) };
        if stored is Ok {
            assert(*final(config) == after);
        }
    }
}

/// Areas can be talked about once a bridge has both an address and a user.
pub proof fn areas_need_a_paired_bridge(config: &Config, checked: Result<(), String>)
    requires
        call_ensures(Config::check_hue_paired, (config,), checked),
    ensures
        config.bridge_ip@.len() == 0 ==> checked is Err,
        config.username@.len() == 0 ==> checked is Err,
        config.bridge_ip@.len() > 0 && config.username@.len() > 0 ==> checked is Ok,
        checked matches Err(text) ==> text@
            == "Pair a Hue Bridge before selecting an Entertainment Area"@,
{
}

/// Any words are the answer exactly if the loop took the command, and a rate that was
/// stored is the rate that is read.
pub proof fn stored_rates_are_read_again(
    capturing: &mut SharedState,
    updating: &mut SharedState,
    capture_rate: u32,
    update_rate: u32,
    capture_read: u32,
    update_read: u32,
    words: &'static str,
    taken: Result<&'static str, ApiError>,
    lost: Result<&'static str, ApiError>,
)
    requires
        call_ensures(SharedState::set_fps, (capturing, capture_rate), ()),
        call_ensures(SharedState::get_fps, (final(capturing),), capture_read),
        call_ensures(SharedState::set_light_update_fps, (updating, update_rate), ()),
        call_ensures(SharedState::light_update_fps, (final(updating),), update_read),
        call_ensures(send_command, (true, words), taken),
        call_ensures(send_command, (false, words), lost),
    ensures
        capture_read == capture_rate,
        update_read == update_rate,
        taken matches Ok(text) && text@ == words@,
        lost matches Err(ApiError::SetupFailed(text)) && text@ == "sync controller is unavailable"@,
{
}

} // verus!
