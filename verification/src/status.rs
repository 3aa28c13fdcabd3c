//! What the dashboard's status is made of, and every way in which it changes.
//!
//! The state that the loop and the dashboard share is taken by its contents here.
//! Each function that writes it says which step it is, and a step says what the
//! contents become. All that a step takes from the configuration are its zones.
use crate::calibration::CalibrationPattern;
use crate::calibration::ScreenRegion;
use crate::color::RgbColor;
use crate::config::Config;
use crate::config::LightZone;
use crate::config::NanoleafAlignment;
use crate::daemon::Daemon;
use crate::output::SendOutcome;
use crate::settings::LiveSettings;
use crate::web::SharedState;
use crate::web::StatusResponse;
use vstd::prelude::*;

verus! {

/// The contents of the shared state.
pub struct StatusView {
    pub is_syncing: bool,
    pub fps_x100: u32,
    pub light_updates_x100: u32,
    pub hue_bridge_ip: Seq<char>,
    pub nanoleaf_ip: Seq<char>,
    pub wled_ip: Seq<char>,
    pub hue_connected: bool,
    pub nanoleaf_connected: bool,
    pub wled_connected: bool,
    pub wled_led_count: u32,
    pub capture_hardware: bool,
    pub tv_power_state: u32,
    pub capture_resolution: Seq<char>,
    pub settings: LiveSettings,
    pub hue_colors: Seq<(u8, RgbColor)>,
    pub nanoleaf_colors: Seq<RgbColor>,
    pub wled_colors: Seq<RgbColor>,
    pub hue_zones: Seq<LightZone>,
    pub calibration_pattern: Option<CalibrationPattern>,
}

impl View for SharedState {
    type V = StatusView;

    open spec fn view(&self) -> StatusView {
        StatusView {
            is_syncing: self.is_syncing,
            fps_x100: self.fps_x100,
            light_updates_x100: self.light_updates_x100,
            hue_bridge_ip: self.hue_bridge_ip@,
            nanoleaf_ip: self.nanoleaf_ip@,
            wled_ip: self.wled_ip@,
            hue_connected: self.hue_connected,
            nanoleaf_connected: self.nanoleaf_connected,
            wled_connected: self.wled_connected,
            wled_led_count: self.wled_led_count,
            capture_hardware: self.capture_hardware,
            tv_power_state: self.tv_power_state,
            capture_resolution: self.capture_resolution@,
            settings: self.current_settings,
            hue_colors: self.live_hue_colors@,
            nanoleaf_colors: self.live_nanoleaf_colors@,
            wled_colors: self.live_wled_colors@,
            hue_zones: self.hue_zones@,
            calibration_pattern: self.calibration_pattern,
        }
    }
}

/// One change of the shared state.
pub enum StatusStep {
    Nothing,
    /// A capture rate was chosen.
    CaptureRate(u32),
    /// The rate of light updates was measured.
    UpdateRate(u32),
    /// The TV said whether it is on, or did not.
    TvPower(Option<bool>),
    /// The dashboard asked to start, and the loop may have been told.
    Start { delivered: bool },
    /// The dashboard asked to stop, and the loop may have been told.
    Stop { delivered: bool },
    /// The loop pauses.
    Paused,
    /// The loop runs again, or could not; a Hue session may have been tried.
    Resumed { running: bool, hue: Option<bool> },
    /// A Hue session opened or closed.
    HueLink(bool),
    /// A Nanoleaf session opened or closed.
    NanoleafLink(bool),
    /// A WLED session opened or closed.
    WledLink(bool),
    /// A frame could not be sent to Nanoleaf, or could.
    NanoleafSent(SendOutcome),
    /// The capture was made anew, with hardware or without.
    Capture(bool),
    /// The capture hardware was tried, and may have been found.
    Probed { found: bool },
    /// The zones of the Hue area.
    Zones(Seq<LightZone>),
    /// A frame was sampled for Hue.
    HueFrame {
        sampled: Seq<(u8, RgbColor)>,
        zones: Seq<LightZone>,
        centers: Seq<ScreenRegion>,
    },
    /// A frame was sampled for the Nanoleaf strip.
    NanoleafFrame { sampled: Seq<RgbColor>, active_segment: nat },
    /// A frame was sampled for the WLED strip.
    WledFrame { sampled: Seq<RgbColor>, active_segment: nat },
    /// The dashboard sent settings.
    Settings(LiveSettings),
    AlignNanoleaf(NanoleafAlignment),
    AlignWled(NanoleafAlignment),
    /// The dashboard set a WLED controller up.
    WledConfigured { ip: Seq<char>, led_count: u16 },
    /// The dashboard paired a Nanoleaf controller.
    NanoleafPaired { ip: Seq<char> },
    /// The dashboard asked for a calibration pattern, in these words.
    Pattern(Seq<char>),
}

impl StatusView {
    /// The contents after a step.
    pub open spec fn after(self, step: StatusStep) -> StatusView {
        match step {
            StatusStep::Nothing => self,
            StatusStep::CaptureRate(fps_x100) => StatusView { fps_x100, ..self },
            StatusStep::UpdateRate(light_updates_x100) => StatusView {
                light_updates_x100,
                ..self
            },
            StatusStep::TvPower(active) => StatusView {
                tv_power_state: crate::web::power_code(active),
                ..self
            },
            StatusStep::Start { delivered } => StatusView {
                is_syncing: self.is_syncing || delivered,
                ..self
            },
            StatusStep::Stop { delivered } => StatusView {
                is_syncing: self.is_syncing && !delivered,
                ..self
            },
            StatusStep::Paused => StatusView { is_syncing: false, ..self },
            StatusStep::Resumed { running, hue } => StatusView {
                is_syncing: running,
                hue_connected: match hue {
                    Some(opened) => opened,
                    None => self.hue_connected,
                },
                ..self
            },
            StatusStep::HueLink(hue_connected) => StatusView { hue_connected, ..self },
            StatusStep::NanoleafLink(nanoleaf_connected) => StatusView {
                nanoleaf_connected,
                ..self
            },
            StatusStep::WledLink(wled_connected) => StatusView { wled_connected, ..self },
            StatusStep::NanoleafSent(outcome) => StatusView {
                nanoleaf_connected: self.nanoleaf_connected && outcome == SendOutcome::Sent,
                ..self
            },
            StatusStep::Capture(capture_hardware) => StatusView { capture_hardware, ..self },
            StatusStep::Probed { found } => StatusView {
                capture_hardware: self.capture_hardware || found,
                ..self
            },
            StatusStep::Zones(hue_zones) => StatusView { hue_zones, ..self },
            StatusStep::HueFrame { sampled, zones, centers } => StatusView {
                hue_colors: crate::output::zone_frame(
                    self.calibration_pattern,
                    sampled,
                    zones,
                    centers,
                ),
                ..self
            },
            StatusStep::NanoleafFrame { sampled, active_segment } => StatusView {
                nanoleaf_colors: crate::output::perimeter_frame(
                    self.calibration_pattern,
                    sampled,
                    active_segment,
                ),
                nanoleaf_connected: true,
                ..self
            },
            StatusStep::WledFrame { sampled, active_segment } => StatusView {
                wled_colors: crate::output::perimeter_frame(
                    self.calibration_pattern,
                    sampled,
                    active_segment,
                ),
                ..self
            },
            StatusStep::Settings(settings) => StatusView { settings, ..self },
            StatusStep::AlignNanoleaf(nanoleaf_alignment) => StatusView {
                settings: LiveSettings { nanoleaf_alignment, ..self.settings },
                ..self
            },
            StatusStep::AlignWled(wled_alignment) => StatusView {
                settings: LiveSettings { wled_alignment, ..self.settings },
                ..self
            },
            StatusStep::WledConfigured { ip, led_count } => StatusView {
                wled_ip: ip,
                wled_led_count: led_count as u32,
                ..self
            },
            StatusStep::NanoleafPaired { ip } => StatusView { nanoleaf_ip: ip, ..self },
            StatusStep::Pattern(text) => match crate::calibration::requested(text) {
                Some(calibration_pattern) => StatusView { calibration_pattern, ..self },
                None => self,
            },
        }
    }
}

/// What happens to a loop, as far as the shared state changes. The zones that new
/// settings show and that a frame is sampled for are those of the configuration.
pub enum StatusEvent {
    Step(StatusStep),
    ApplySettings,
    HueFrame { sampled: Seq<(u8, RgbColor)>, centers: Seq<ScreenRegion> },
}

impl StatusEvent {
    /// The step that an event is under a configuration.
    pub open spec fn step(self, config: Config) -> StatusStep {
        match self {
            StatusEvent::Step(step) => step,
            StatusEvent::ApplySettings => StatusStep::Zones(config.zones@),
            StatusEvent::HueFrame { sampled, centers } => StatusStep::HueFrame {
                sampled,
                zones: config.zones@,
                centers,
            },
        }
    }
}

/// `states` is what the shared state was, from the beginning on, under the
/// configurations that held when each of `events` happened.
pub open spec fn history(
    states: Seq<SharedState>,
    configs: Seq<Config>,
    events: Seq<StatusEvent>,
) -> bool {
    &&& states.len() == events.len() + 1
    &&& configs.len() == events.len()
    &&& forall|i: int|
        0 <= i < events.len() ==> states[i + 1]@ == #[trigger] states[i]@.after(
            events[i].step(configs[i]),
        )
}

/// Two configurations that differ in nothing but their secrets.
pub open spec fn same_but_for_secrets(left: Config, right: Config) -> bool {
    &&& right == (Config {
        username: right.username,
        clientkey: right.clientkey,
        nanoleaf: right.nanoleaf,
        ..left
    })
    &&& match left.nanoleaf {
        Some(strip) => right.nanoleaf matches Some(other) && other
            == (crate::config::NanoleafConfig { auth_token: other.auth_token, ..strip }),
        None => right.nanoleaf is None,
    }
}

/// The status that the dashboard shows of a loop that has just begun says nothing
/// of the Hue or Nanoleaf secrets: loops whose configurations differ in nothing
/// else are reported alike, field by field.
pub proof fn status_holds_no_secrets(
    response: StatusResponse,
    other_response: StatusResponse,
    shared: SharedState,
    other_shared: SharedState,
    config: Config,
    other: Config,
    daemon: Daemon,
    capture_hardware: bool,
    fps_x100: u32,
)
    requires
        same_but_for_secrets(config, other),
        crate::daemon::introduces(shared, config, daemon, capture_hardware, fps_x100),
        crate::daemon::introduces(other_shared, other, daemon, capture_hardware, fps_x100),
        crate::web::reports(response, shared),
        crate::web::reports(other_response, other_shared),
    ensures
        shared@ == other_shared@,
        crate::web::same_status(response, other_response),
{
    assert(shared@.hue_colors == other_shared@.hue_colors);
    assert(shared@.nanoleaf_colors == other_shared@.nanoleaf_colors);
    assert(shared@.wled_colors == other_shared@.wled_colors);
    alike_states_are_reported_alike(response, other_response, shared, other_shared);
}

/// States with the same contents are reported alike, field by field.
pub proof fn alike_states_are_reported_alike(
    response: StatusResponse,
    other_response: StatusResponse,
    shared: SharedState,
    other_shared: SharedState,
)
    requires
        shared@ == other_shared@,
        crate::web::reports(response, shared),
        crate::web::reports(other_response, other_shared),
    ensures
        crate::web::same_status(response, other_response),
{
}

/// No step lets a secret in: whatever happens to two loops alike, under
/// configurations that differ in nothing but their secrets, takes states with the
/// same status to states with the same status.
pub proof fn no_step_lets_a_secret_in(
    before: SharedState,
    other_before: SharedState,
    after: SharedState,
    other_after: SharedState,
    config: Config,
    other: Config,
    event: StatusEvent,
)
    requires
        same_but_for_secrets(config, other),
        before@ == other_before@,
        after@ == before@.after(event.step(config)),
        other_after@ == other_before@.after(event.step(other)),
    ensures
        after@ == other_after@,
{
}

/// A refreshed area keeps two configurations alike but for their secrets.
pub proof fn an_area_holds_no_secrets(
    config: Config,
    other: Config,
    area: crate::config::EntertainmentArea,
)
    requires
        same_but_for_secrets(config, other),
    ensures
        same_but_for_secrets(
            Config { zones: area.zones, ..crate::config::with_area(config, area) },
            Config { zones: area.zones, ..crate::config::with_area(other, area) },
        ),
{
}

/// The status never holds a Hue or Nanoleaf secret: two loops that begin with
/// configurations alike but for their secrets, and that the same things happen
/// to, are reported alike at every moment, field by field.
pub proof fn status_never_holds_secrets(
    states: Seq<SharedState>,
    other_states: Seq<SharedState>,
    configs: Seq<Config>,
    other_configs: Seq<Config>,
    events: Seq<StatusEvent>,
    config: Config,
    other: Config,
    daemon: Daemon,
    capture_hardware: bool,
    fps_x100: u32,
    moment: nat,
    response: StatusResponse,
    other_response: StatusResponse,
)
    requires
        same_but_for_secrets(config, other),
        history(states, configs, events),
        history(other_states, other_configs, events),
        forall|i: int|
            0 <= i < events.len() ==> same_but_for_secrets(
                #[trigger] configs[i],
                other_configs[i],
            ),
        crate::daemon::introduces(states[0], config, daemon, capture_hardware, fps_x100),
        crate::daemon::introduces(other_states[0], other, daemon, capture_hardware, fps_x100),
        moment < states.len(),
        crate::web::reports(response, states[moment as int]),
        crate::web::reports(other_response, other_states[moment as int]),
    ensures
        states[moment as int]@ == other_states[moment as int]@,
        crate::web::same_status(response, other_response),
{
    assert(states[0]@.hue_colors == other_states[0]@.hue_colors);
    assert(states[0]@.nanoleaf_colors == other_states[0]@.nanoleaf_colors);
    assert(states[0]@.wled_colors == other_states[0]@.wled_colors);
    lemma_alike_throughout(states, other_states, configs, other_configs, events, moment);
    alike_states_are_reported_alike(
        response,
        other_response,
        states[moment as int],
        other_states[moment as int],
    );
}

proof fn lemma_alike_throughout(
    states: Seq<SharedState>,
    other_states: Seq<SharedState>,
    configs: Seq<Config>,
    other_configs: Seq<Config>,
    events: Seq<StatusEvent>,
    moment: nat,
)
    requires
        history(states, configs, events),
        history(other_states, other_configs, events),
        forall|i: int|
            0 <= i < events.len() ==> same_but_for_secrets(
                #[trigger] configs[i],
                other_configs[i],
            ),
        states[0]@ == other_states[0]@,
        moment < states.len(),
    ensures
        states[moment as int]@ == other_states[moment as int]@,
    decreases moment,
{
    if moment > 0 {
        let last = moment - 1;
        lemma_alike_throughout(
            states,
            other_states,
            configs,
            other_configs,
            events,
            last as nat,
        );
        assert(same_but_for_secrets(configs[last], other_configs[last]));
        assert(states[last + 1]@ == states[last]@.after(events[last].step(configs[last])));
        assert(other_states[last + 1]@ == other_states[last]@.after(
            events[last].step(other_configs[last]),
        ));
        no_step_lets_a_secret_in(
            states[last],
            other_states[last],
            states[last + 1],
            other_states[last + 1],
            configs[last],
            other_configs[last],
            events[last],
        );
    }
}

} // verus!
