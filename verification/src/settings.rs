//! The settings that the dashboard changes while the lights run.
use crate::config::Config;
use crate::config::NanoleafAlignment;
use crate::config::NanoleafConfig;
use crate::config::Scalar;
use crate::config::WledConfig;
use crate::sampler::ActiveRect;
use crate::sampler::SamplerSetting;
use crate::sampler::WledPerimeterSampler;
use vstd::prelude::*;

verus! {

/// Everything that the dashboard can change without a restart.
#[derive(Debug, Clone, Copy, PartialEq, Eq, Structural)]
pub struct LiveSettings {
    pub brightness_multiplier: Scalar,
    pub hue_output_brightness: Scalar,
    pub nanoleaf_output_brightness: Scalar,
    pub wled_output_brightness: Scalar,
    pub saturation_boost: Scalar,
    pub peak_weight: Scalar,
    pub gamma: Scalar,
    pub noise_gate_threshold: Scalar,
    pub smoothing_factor: Scalar,
    pub rise_smoothing_factor: Scalar,
    pub fall_smoothing_factor: Scalar,
    pub strict_blackout: bool,
    pub use_xy_gamut: bool,
    pub letterbox_detection: bool,
    pub hdr_tone_mapping: bool,
    pub hue_sync_enabled: bool,
    pub nanoleaf_sync_enabled: bool,
    pub wled_sync_enabled: bool,
    pub auto_tv_power: bool,
    pub nanoleaf_alignment: NanoleafAlignment,
    pub wled_alignment: NanoleafAlignment,
    pub max_color_step: u8,
}

/// Which outputs the lights are being sent to.
#[derive(Debug, Clone, Copy, PartialEq, Eq, Structural)]
pub struct SyncSwitches {
    pub hue: bool,
    pub nanoleaf: bool,
    pub wled: bool,
}

/// The brightness of one output: the product of the common multiplier and the
/// output's own trim.
#[derive(Debug, Clone, Copy, PartialEq, Eq, Structural)]
pub struct Gain {
    pub multiplier: Scalar,
    pub trim: Scalar,
}

/// The alignment in a Nanoleaf configuration, or the default without one.
pub open spec fn nanoleaf_alignment_of(config: Config) -> NanoleafAlignment {
    match config.nanoleaf {
        Some(n) => n.alignment,
        None => crate::config::unaligned(),
    }
}

/// The alignment in a WLED configuration, or the default without one.
pub open spec fn wled_alignment_of(config: Config) -> NanoleafAlignment {
    match config.wled {
        Some(w) => w.alignment,
        None => crate::config::unaligned(),
    }
}

/// The live settings that a configuration starts with.
pub open spec fn initial_settings(config: Config, switches: SyncSwitches) -> LiveSettings {
    LiveSettings {
        brightness_multiplier: config.brightness_multiplier,
        hue_output_brightness: config.hue_output_brightness,
        nanoleaf_output_brightness: config.nanoleaf_output_brightness,
        wled_output_brightness: config.wled_output_brightness,
        saturation_boost: config.saturation_boost,
        peak_weight: config.peak_weight,
        gamma: config.gamma,
        noise_gate_threshold: config.noise_gate_threshold,
        smoothing_factor: config.smoothing_factor,
        rise_smoothing_factor: config.rise_smoothing_factor,
        fall_smoothing_factor: config.fall_smoothing_factor,
        strict_blackout: config.strict_blackout,
        use_xy_gamut: config.use_xy_gamut,
        letterbox_detection: config.letterbox_detection,
        hdr_tone_mapping: config.hdr_tone_mapping,
        hue_sync_enabled: switches.hue,
        nanoleaf_sync_enabled: switches.nanoleaf,
        wled_sync_enabled: switches.wled,
        auto_tv_power: config.auto_tv_power,
        nanoleaf_alignment: nanoleaf_alignment_of(config),
        wled_alignment: wled_alignment_of(config),
        max_color_step: config.max_color_step,
    }
}

/// The configuration with the live settings in it. Whether an output is on
/// comes from what is running, not from what was asked for.
pub open spec fn saved_config(config: Config, live: LiveSettings, switches: SyncSwitches) -> Config {
    Config {
        brightness_multiplier: live.brightness_multiplier,
        hue_output_brightness: live.hue_output_brightness,
        nanoleaf_output_brightness: live.nanoleaf_output_brightness,
        wled_output_brightness: live.wled_output_brightness,
        saturation_boost: live.saturation_boost,
        peak_weight: live.peak_weight,
        gamma: live.gamma,
        noise_gate_threshold: live.noise_gate_threshold,
        smoothing_factor: live.smoothing_factor,
        rise_smoothing_factor: live.rise_smoothing_factor,
        fall_smoothing_factor: live.fall_smoothing_factor,
        strict_blackout: live.strict_blackout,
        use_xy_gamut: live.use_xy_gamut,
        letterbox_detection: live.letterbox_detection,
        hdr_tone_mapping: live.hdr_tone_mapping,
        hue_sync_enabled: switches.hue,
        nanoleaf_sync_enabled: switches.nanoleaf,
        wled_sync_enabled: switches.wled,
        auto_tv_power: live.auto_tv_power,
        nanoleaf: match config.nanoleaf {
            Some(n) => Some(NanoleafConfig { alignment: live.nanoleaf_alignment, ..n }),
            None => None,
        },
        wled: match config.wled {
            Some(w) => Some(WledConfig { alignment: live.wled_alignment, ..w }),
            None => None,
        },
        max_color_step: live.max_color_step,
        ..config
    }
}

impl LiveSettings {
    /// The settings to start with.
    pub fn from_config(config: &Config, switches: SyncSwitches) -> (settings: Self)
        ensures
            settings == initial_settings(*config, switches),
    {
        LiveSettings {
            brightness_multiplier: config.brightness_multiplier,
            hue_output_brightness: config.hue_output_brightness,
            nanoleaf_output_brightness: config.nanoleaf_output_brightness,
            wled_output_brightness: config.wled_output_brightness,
            saturation_boost: config.saturation_boost,
            peak_weight: config.peak_weight,
            gamma: config.gamma,
            noise_gate_threshold: config.noise_gate_threshold,
            smoothing_factor: config.smoothing_factor,
            rise_smoothing_factor: config.rise_smoothing_factor,
            fall_smoothing_factor: config.fall_smoothing_factor,
            strict_blackout: config.strict_blackout,
            use_xy_gamut: config.use_xy_gamut,
            letterbox_detection: config.letterbox_detection,
            hdr_tone_mapping: config.hdr_tone_mapping,
            hue_sync_enabled: switches.hue,
            nanoleaf_sync_enabled: switches.nanoleaf,
            wled_sync_enabled: switches.wled,
            auto_tv_power: config.auto_tv_power,
            nanoleaf_alignment: match &config.nanoleaf {
                Some(n) => n.alignment,
                None => NanoleafAlignment::default(),
            },
            wled_alignment: match &config.wled {
                Some(w) => w.alignment,
                None => NanoleafAlignment::default(),
            },
            max_color_step: config.max_color_step,
        }
    }

    /// The configuration with the settings in it, to be saved.
    pub fn save_into(&self, config: Config, switches: SyncSwitches) -> (saved: Config)
        ensures
            saved == saved_config(config, *self, switches),
    {
        let mut config = config;
        let nanoleaf = match config.nanoleaf.take() {
            Some(n) => Some(NanoleafConfig { alignment: self.nanoleaf_alignment, ..n }),
            None => None,
        };
        let wled = match config.wled.take() {
            Some(w) => Some(WledConfig { alignment: self.wled_alignment, ..w }),
            None => None,
        };
        Config {
            brightness_multiplier: self.brightness_multiplier,
            hue_output_brightness: self.hue_output_brightness,
            nanoleaf_output_brightness: self.nanoleaf_output_brightness,
            wled_output_brightness: self.wled_output_brightness,
            saturation_boost: self.saturation_boost,
            peak_weight: self.peak_weight,
            gamma: self.gamma,
            noise_gate_threshold: self.noise_gate_threshold,
            smoothing_factor: self.smoothing_factor,
            rise_smoothing_factor: self.rise_smoothing_factor,
            fall_smoothing_factor: self.fall_smoothing_factor,
            strict_blackout: self.strict_blackout,
            use_xy_gamut: self.use_xy_gamut,
            letterbox_detection: self.letterbox_detection,
            hdr_tone_mapping: self.hdr_tone_mapping,
            hue_sync_enabled: switches.hue,
            nanoleaf_sync_enabled: switches.nanoleaf,
            wled_sync_enabled: switches.wled,
            auto_tv_power: self.auto_tv_power,
            nanoleaf,
            wled,
            max_color_step: self.max_color_step,
            ..config
        }
    }

    pub fn hue_gain(&self) -> (gain: Gain)
        ensures
            gain == (Gain {
                multiplier: self.brightness_multiplier,
                trim: self.hue_output_brightness,
            }),
    {
        Gain { multiplier: self.brightness_multiplier, trim: self.hue_output_brightness }
    }

    pub fn nanoleaf_gain(&self) -> (gain: Gain)
        ensures
            gain == (Gain {
                multiplier: self.brightness_multiplier,
                trim: self.nanoleaf_output_brightness,
            }),
    {
        Gain { multiplier: self.brightness_multiplier, trim: self.nanoleaf_output_brightness }
    }

    pub fn wled_gain(&self) -> (gain: Gain)
        ensures
            gain == (Gain {
                multiplier: self.brightness_multiplier,
                trim: self.wled_output_brightness,
            }),
    {
        Gain { multiplier: self.brightness_multiplier, trim: self.wled_output_brightness }
    }
}

/// What a new perimeter sampler is told beyond what it is made with.
pub open spec fn start_settings(settings: LiveSettings) -> Seq<SamplerSetting> {
    seq![
        SamplerSetting::TemporalResponse {
            rise: settings.rise_smoothing_factor,
            fall: settings.fall_smoothing_factor,
        },
        SamplerSetting::StrictBlackout(settings.strict_blackout),
        SamplerSetting::PeakWeight(settings.peak_weight),
        SamplerSetting::Gamma(settings.gamma),
        SamplerSetting::MaxColorStep(settings.max_color_step),
    ]
}

/// What a running perimeter sampler is told when the settings change.
/// `brightness` is the output's gain, multiplied out.
pub open spec fn perimeter_settings(
    settings: LiveSettings,
    brightness: Scalar,
    alignment: NanoleafAlignment,
) -> Seq<SamplerSetting> {
    seq![
        SamplerSetting::TemporalResponse {
            rise: settings.rise_smoothing_factor,
            fall: settings.fall_smoothing_factor,
        },
        SamplerSetting::StrictBlackout(settings.strict_blackout),
        SamplerSetting::HdrToneMapping(settings.hdr_tone_mapping),
        SamplerSetting::SaturationBoost(settings.saturation_boost),
        SamplerSetting::BrightnessMultiplier(brightness),
        SamplerSetting::PeakWeight(settings.peak_weight),
        SamplerSetting::Gamma(settings.gamma),
        SamplerSetting::NoiseGateThreshold(settings.noise_gate_threshold),
        SamplerSetting::MaxColorStep(settings.max_color_step),
        SamplerSetting::Alignment(alignment),
    ]
}

/// What the Hue zone sampler is told when the settings change.
pub open spec fn zone_settings(settings: LiveSettings) -> Seq<SamplerSetting> {
    seq![
        SamplerSetting::TemporalResponse {
            rise: settings.rise_smoothing_factor,
            fall: settings.fall_smoothing_factor,
        },
        SamplerSetting::StrictBlackout(settings.strict_blackout),
        SamplerSetting::HdrToneMapping(settings.hdr_tone_mapping),
        SamplerSetting::LetterboxDetection(settings.letterbox_detection),
        SamplerSetting::SaturationBoost(settings.saturation_boost),
        SamplerSetting::PeakWeight(settings.peak_weight),
        SamplerSetting::Gamma(settings.gamma),
        SamplerSetting::NoiseGateThreshold(settings.noise_gate_threshold),
        SamplerSetting::MaxColorStep(settings.max_color_step),
    ]
}

/// Tells a new sampler, Hue or perimeter, its first settings.
pub fn sampler_start(settings: &LiveSettings) -> (list: Vec<SamplerSetting>)
    ensures
        list@ == start_settings(*settings),
{
    let mut list: Vec<SamplerSetting> = Vec::new();
    list.push(
        SamplerSetting::TemporalResponse {
            rise: settings.rise_smoothing_factor,
            fall: settings.fall_smoothing_factor,
        },
    );
    list.push(SamplerSetting::StrictBlackout(settings.strict_blackout));
    list.push(SamplerSetting::PeakWeight(settings.peak_weight));
    list.push(SamplerSetting::Gamma(settings.gamma));
    list.push(SamplerSetting::MaxColorStep(settings.max_color_step));
    list
}

/// The changes for the Hue zone sampler.
pub fn hue_update(settings: &LiveSettings) -> (list: Vec<SamplerSetting>)
    ensures
        list@ == zone_settings(*settings),
{
    let mut list: Vec<SamplerSetting> = Vec::new();
    list.push(
        SamplerSetting::TemporalResponse {
            rise: settings.rise_smoothing_factor,
            fall: settings.fall_smoothing_factor,
        },
    );
    list.push(SamplerSetting::StrictBlackout(settings.strict_blackout));
    list.push(SamplerSetting::HdrToneMapping(settings.hdr_tone_mapping));
    list.push(SamplerSetting::LetterboxDetection(settings.letterbox_detection));
    list.push(SamplerSetting::SaturationBoost(settings.saturation_boost));
    list.push(SamplerSetting::PeakWeight(settings.peak_weight));
    list.push(SamplerSetting::Gamma(settings.gamma));
    list.push(SamplerSetting::NoiseGateThreshold(settings.noise_gate_threshold));
    list.push(SamplerSetting::MaxColorStep(settings.max_color_step));
    list
}

/// The changes for the Nanoleaf perimeter sampler.
pub fn nanoleaf_update(settings: &LiveSettings, brightness: Scalar) -> (list: Vec<SamplerSetting>)
    ensures
        list@ == perimeter_settings(*settings, brightness, settings.nanoleaf_alignment),
{
    let mut list: Vec<SamplerSetting> = Vec::new();
    list.push(
        SamplerSetting::TemporalResponse {
            rise: settings.rise_smoothing_factor,
            fall: settings.fall_smoothing_factor,
        },
    );
    list.push(SamplerSetting::StrictBlackout(settings.strict_blackout));
    list.push(SamplerSetting::HdrToneMapping(settings.hdr_tone_mapping));
    list.push(SamplerSetting::SaturationBoost(settings.saturation_boost));
    list.push(SamplerSetting::BrightnessMultiplier(brightness));
    list.push(SamplerSetting::PeakWeight(settings.peak_weight));
    list.push(SamplerSetting::Gamma(settings.gamma));
    list.push(SamplerSetting::NoiseGateThreshold(settings.noise_gate_threshold));
    list.push(SamplerSetting::MaxColorStep(settings.max_color_step));
    list.push(SamplerSetting::Alignment(settings.nanoleaf_alignment));
    list
}

/// Tells a new WLED sampler its first settings.
pub fn start_wled(sampler: &mut WledPerimeterSampler, settings: &LiveSettings)
    ensures
        final(sampler).leds() == old(sampler).leds(),
        final(sampler).waiting() == old(sampler).waiting() + start_settings(*settings),
{
    sampler.set_temporal_response(settings.rise_smoothing_factor, settings.fall_smoothing_factor);
    sampler.set_strict_blackout(settings.strict_blackout);
    sampler.set_peak_weight(settings.peak_weight);
    sampler.set_gamma(settings.gamma);
    sampler.set_max_color_step(settings.max_color_step);
    assert(sampler.waiting() == old(sampler).waiting() + start_settings(*settings));
}

/// Tells the WLED sampler about changed settings.
pub fn update_wled(sampler: &mut WledPerimeterSampler, settings: &LiveSettings, brightness: Scalar)
    ensures
        final(sampler).leds() == old(sampler).leds(),
        final(sampler).waiting() == old(sampler).waiting() + perimeter_settings(
            *settings,
            brightness,
            settings.wled_alignment,
        ),
{
    sampler.set_temporal_response(settings.rise_smoothing_factor, settings.fall_smoothing_factor);
    sampler.set_strict_blackout(settings.strict_blackout);
    sampler.set_hdr_tone_mapping(settings.hdr_tone_mapping);
    sampler.set_saturation_boost(settings.saturation_boost);
    sampler.set_brightness_multiplier(brightness);
    sampler.set_peak_weight(settings.peak_weight);
    sampler.set_gamma(settings.gamma);
    sampler.set_noise_gate_threshold(settings.noise_gate_threshold);
    sampler.set_max_color_step(settings.max_color_step);
    sampler.set_alignment(settings.wled_alignment);
    assert(sampler.waiting() == old(sampler).waiting() + perimeter_settings(
        *settings,
        brightness,
        settings.wled_alignment,
    ));
}

/// Saving the settings that a configuration started with changes nothing, while
/// the outputs that run are those that it asked for.
pub proof fn saving_unchanged_settings_changes_nothing(config: Config, switches: SyncSwitches)
    requires
        switches.hue == config.hue_sync_enabled,
        switches.nanoleaf == config.nanoleaf_sync_enabled,
        switches.wled == config.wled_sync_enabled,
    ensures
        saved_config(config, initial_settings(config, switches), switches) == config,
{
}

/// What was saved comes back on the next start. The alignment of a strip that
/// is not configured has no place to be saved in.
pub proof fn saved_settings_come_back(config: Config, live: LiveSettings, switches: SyncSwitches)
    requires
        config.nanoleaf is None ==> live.nanoleaf_alignment == crate::config::unaligned(),
        config.wled is None ==> live.wled_alignment == crate::config::unaligned(),
    ensures
        initial_settings(saved_config(config, live, switches), switches) == (LiveSettings {
            hue_sync_enabled: switches.hue,
            nanoleaf_sync_enabled: switches.nanoleaf,
            wled_sync_enabled: switches.wled,
            ..live
        }),
{
}

/// Saving settings touches no credential, no device address and no zone.
pub proof fn saving_settings_keeps_credentials(
    config: Config,
    live: LiveSettings,
    switches: SyncSwitches,
)
    ensures
        ({
            let saved = saved_config(config, live, switches);
            &&& saved.bridge_ip == config.bridge_ip
            &&& saved.username == config.username
            &&& saved.clientkey == config.clientkey
            &&& saved.hue_bridge_certificate_sha256 == config.hue_bridge_certificate_sha256
            &&& saved.entertainment_configuration_id == config.entertainment_configuration_id
            &&& saved.zones == config.zones
            &&& config.nanoleaf matches Some(n) ==> saved.nanoleaf matches Some(m) && m.ip == n.ip
                && m.auth_token == n.auth_token && m.panel_ids == n.panel_ids
            &&& config.wled matches Some(w) ==> saved.wled matches Some(v) && v.ip == w.ip
                && v.led_count == w.led_count
        }),
{
}

/// What a sampler has been told.
#[derive(Debug, Clone, Copy, PartialEq, Eq, Structural)]
pub struct SamplerState {
    pub alignment: NanoleafAlignment,
    pub smoothing: Scalar,
    pub rise: Scalar,
    pub fall: Scalar,
    pub strict_blackout: bool,
    pub brightness: Scalar,
    pub saturation_boost: Scalar,
    pub hdr_tone_mapping: bool,
    pub letterbox_detection: bool,
    pub peak_weight: Scalar,
    pub gamma: Scalar,
    pub max_color_step: u8,
    pub noise_gate_threshold: Scalar,
    pub active_rect: ActiveRect,
}

impl SamplerState {
    /// The sampler once it has been told one thing more.
    pub open spec fn told(self, setting: SamplerSetting) -> SamplerState {
        match setting {
            SamplerSetting::Alignment(alignment) => SamplerState { alignment, ..self },
            SamplerSetting::SmoothingFactor(smoothing) => SamplerState { smoothing, ..self },
            SamplerSetting::TemporalResponse { rise, fall } => SamplerState { rise, fall, ..self },
            SamplerSetting::StrictBlackout(strict_blackout) => SamplerState {
                strict_blackout,
                ..self
            },
            SamplerSetting::BrightnessMultiplier(brightness) => SamplerState {
                brightness,
                ..self
            },
            SamplerSetting::SaturationBoost(saturation_boost) => SamplerState {
                saturation_boost,
                ..self
            },
            SamplerSetting::HdrToneMapping(hdr_tone_mapping) => SamplerState {
                hdr_tone_mapping,
                ..self
            },
            SamplerSetting::LetterboxDetection(letterbox_detection) => SamplerState {
                letterbox_detection,
                ..self
            },
            SamplerSetting::PeakWeight(peak_weight) => SamplerState { peak_weight, ..self },
            SamplerSetting::Gamma(gamma) => SamplerState { gamma, ..self },
            SamplerSetting::MaxColorStep(max_color_step) => SamplerState {
                max_color_step,
                ..self
            },
            SamplerSetting::NoiseGateThreshold(noise_gate_threshold) => SamplerState {
                noise_gate_threshold,
                ..self
            },
            SamplerSetting::ActiveRect(active_rect) => SamplerState { active_rect, ..self },
        }
    }

    /// The sampler once it has been told a list of things, in order.
    pub open spec fn told_all(self, list: Seq<SamplerSetting>) -> SamplerState
        decreases list.len(),
    {
        if list.len() == 0 {
            self
        } else {
            self.told_all(list.drop_last()).told(list.last())
        }
    }
}

proof fn lemma_told_one_more(state: SamplerState, list: Seq<SamplerSetting>, setting: SamplerSetting)
    ensures
        state.told_all(list.push(setting)) == state.told_all(list).told(setting),
{
    assert(list.push(setting).drop_last() == list);
}

proof fn lemma_told_in_turn(
    state: SamplerState,
    first: Seq<SamplerSetting>,
    second: Seq<SamplerSetting>,
)
    ensures
        state.told_all(first + second) == state.told_all(first).told_all(second),
    decreases second.len(),
{
    if second.len() == 0 {
        assert(first + second == first);
    } else {
        assert((first + second).drop_last() == first + second.drop_last());
        lemma_told_in_turn(state, first, second.drop_last());
    }
}

proof fn lemma_told_nine(state: SamplerState, list: Seq<SamplerSetting>)
    requires
        list.len() == 9,
    ensures
        state.told_all(list) == state.told(list[0]).told(list[1]).told(list[2]).told(list[3]).told(
            list[4],
        ).told(list[5]).told(list[6]).told(list[7]).told(list[8]),
{
    let l0 = Seq::<SamplerSetting>::empty();
    let l1 = l0.push(list[0]);
    lemma_told_one_more(state, l0, list[0]);
    let l2 = l1.push(list[1]);
    lemma_told_one_more(state, l1, list[1]);
    let l3 = l2.push(list[2]);
    lemma_told_one_more(state, l2, list[2]);
    let l4 = l3.push(list[3]);
    lemma_told_one_more(state, l3, list[3]);
    let l5 = l4.push(list[4]);
    lemma_told_one_more(state, l4, list[4]);
    let l6 = l5.push(list[5]);
    lemma_told_one_more(state, l5, list[5]);
    let l7 = l6.push(list[6]);
    lemma_told_one_more(state, l6, list[6]);
    let l8 = l7.push(list[7]);
    lemma_told_one_more(state, l7, list[7]);
    let l9 = l8.push(list[8]);
    lemma_told_one_more(state, l8, list[8]);
    assert(list == l9);
}

proof fn lemma_told_ten(state: SamplerState, list: Seq<SamplerSetting>)
    requires
        list.len() == 10,
    ensures
        state.told_all(list) == state.told(list[0]).told(list[1]).told(list[2]).told(list[3]).told(
            list[4],
        ).told(list[5]).told(list[6]).told(list[7]).told(list[8]).told(list[9]),
{
    lemma_told_nine(state, list.drop_last());
}

proof fn lemma_told_five(state: SamplerState, list: Seq<SamplerSetting>)
    requires
        list.len() == 5,
    ensures
        state.told_all(list) == state.told(list[0]).told(list[1]).told(list[2]).told(list[3]).told(
            list[4],
        ),
{
    let l0 = Seq::<SamplerSetting>::empty();
    let l1 = l0.push(list[0]);
    lemma_told_one_more(state, l0, list[0]);
    let l2 = l1.push(list[1]);
    lemma_told_one_more(state, l1, list[1]);
    let l3 = l2.push(list[2]);
    lemma_told_one_more(state, l2, list[2]);
    let l4 = l3.push(list[3]);
    lemma_told_one_more(state, l3, list[3]);
    let l5 = l4.push(list[4]);
    lemma_told_one_more(state, l4, list[4]);
    assert(list == l5);
}

/// Each setting reaches the Hue sampler as itself: whatever it was before, a
/// sampler that takes in the changes has exactly the settings that were chosen, and
/// keeps what is not among them.
pub proof fn settings_reach_the_zone_sampler(
    settings: &LiveSettings,
    changes: Vec<SamplerSetting>,
    state: SamplerState,
)
    requires
        call_ensures(hue_update, (settings,), changes),
    ensures
        state.told_all(changes@) == (SamplerState {
            rise: settings.rise_smoothing_factor,
            fall: settings.fall_smoothing_factor,
            strict_blackout: settings.strict_blackout,
            peak_weight: settings.peak_weight,
            gamma: settings.gamma,
            max_color_step: settings.max_color_step,
            hdr_tone_mapping: settings.hdr_tone_mapping,
            saturation_boost: settings.saturation_boost,
            noise_gate_threshold: settings.noise_gate_threshold,
            letterbox_detection: settings.letterbox_detection,
            ..state
        }),
{
    lemma_told_nine(state, changes@);
}

/// Each setting reaches the Nanoleaf sampler as itself, and so do the output's
/// brightness and the strip's alignment.
pub proof fn settings_reach_the_nanoleaf_sampler(
    settings: &LiveSettings,
    brightness: Scalar,
    changes: Vec<SamplerSetting>,
    state: SamplerState,
)
    requires
        call_ensures(nanoleaf_update, (settings, brightness), changes),
    ensures
        state.told_all(changes@) == (SamplerState {
            rise: settings.rise_smoothing_factor,
            fall: settings.fall_smoothing_factor,
            strict_blackout: settings.strict_blackout,
            peak_weight: settings.peak_weight,
            gamma: settings.gamma,
            max_color_step: settings.max_color_step,
            hdr_tone_mapping: settings.hdr_tone_mapping,
            saturation_boost: settings.saturation_boost,
            noise_gate_threshold: settings.noise_gate_threshold,
            brightness,
            alignment: settings.nanoleaf_alignment,
            ..state
        }),
{
    lemma_told_ten(state, changes@);
}

/// Each setting reaches the WLED sampler as itself, after whatever it has yet to be
/// told, and so do the output's brightness and the strip's alignment.
pub proof fn settings_reach_the_wled_sampler(
    sampler: &mut WledPerimeterSampler,
    settings: &LiveSettings,
    brightness: Scalar,
    taker: &mut WledPerimeterSampler,
    changes: Vec<SamplerSetting>,
    state: SamplerState,
)
    requires
        call_ensures(update_wled, (sampler, settings, brightness), ()),
        *old(taker) == *final(sampler),
        call_ensures(WledPerimeterSampler::take_settings, (taker,), changes),
    ensures
        state.told_all(changes@) == (SamplerState {
            rise: settings.rise_smoothing_factor,
            fall: settings.fall_smoothing_factor,
            strict_blackout: settings.strict_blackout,
            peak_weight: settings.peak_weight,
            gamma: settings.gamma,
            max_color_step: settings.max_color_step,
            hdr_tone_mapping: settings.hdr_tone_mapping,
            saturation_boost: settings.saturation_boost,
            noise_gate_threshold: settings.noise_gate_threshold,
            brightness,
            alignment: settings.wled_alignment,
            ..state.told_all(old(sampler).waiting())
        }),
        final(taker).waiting().len() == 0,
        final(taker).leds() == old(sampler).leds(),
{
    let list = perimeter_settings(*settings, brightness, settings.wled_alignment);
    lemma_told_in_turn(state, old(sampler).waiting(), list);
    lemma_told_ten(state.told_all(old(sampler).waiting()), list);
}

/// A new sampler, whichever it is for, is told the settings that it was not made
/// with, each as itself.
pub proof fn first_settings_reach_every_sampler(
    settings: &LiveSettings,
    changes: Vec<SamplerSetting>,
    sampler: &mut WledPerimeterSampler,
    state: SamplerState,
)
    requires
        call_ensures(sampler_start, (settings,), changes),
        call_ensures(start_wled, (sampler, settings), ()),
    ensures
        state.told_all(changes@) == (SamplerState {
            rise: settings.rise_smoothing_factor,
            fall: settings.fall_smoothing_factor,
            strict_blackout: settings.strict_blackout,
            peak_weight: settings.peak_weight,
            gamma: settings.gamma,
            max_color_step: settings.max_color_step,
            ..state
        }),
        state.told_all(final(sampler).waiting()) == state.told_all(
            old(sampler).waiting(),
        ).told_all(changes@),
        final(sampler).leds() == old(sampler).leds(),
{
    lemma_told_five(state, changes@);
    lemma_told_in_turn(state, old(sampler).waiting(), changes@);
}

/// Every setting begins as the configuration has it, and whether an output is on
/// comes from what runs. A strip that is not configured is not aligned.
pub proof fn each_setting_begins_as_configured(
    config: &Config,
    switches: SyncSwitches,
    settings: LiveSettings,
)
    requires
        call_ensures(LiveSettings::from_config, (config, switches), settings),
    ensures
        settings.brightness_multiplier == config.brightness_multiplier,
        settings.hue_output_brightness == config.hue_output_brightness,
        settings.nanoleaf_output_brightness == config.nanoleaf_output_brightness,
        settings.wled_output_brightness == config.wled_output_brightness,
        settings.saturation_boost == config.saturation_boost,
        settings.peak_weight == config.peak_weight,
        settings.gamma == config.gamma,
        settings.noise_gate_threshold == config.noise_gate_threshold,
        settings.smoothing_factor == config.smoothing_factor,
        settings.rise_smoothing_factor == config.rise_smoothing_factor,
        settings.fall_smoothing_factor == config.fall_smoothing_factor,
        settings.strict_blackout == config.strict_blackout,
        settings.use_xy_gamut == config.use_xy_gamut,
        settings.letterbox_detection == config.letterbox_detection,
        settings.hdr_tone_mapping == config.hdr_tone_mapping,
        settings.auto_tv_power == config.auto_tv_power,
        settings.max_color_step == config.max_color_step,
        settings.hue_sync_enabled == switches.hue,
        settings.nanoleaf_sync_enabled == switches.nanoleaf,
        settings.wled_sync_enabled == switches.wled,
        config.nanoleaf matches Some(strip) ==> settings.nanoleaf_alignment == strip.alignment,
        config.wled matches Some(strip) ==> settings.wled_alignment == strip.alignment,
        config.nanoleaf is None ==> settings.nanoleaf_alignment == (NanoleafAlignment {
            start_corner: crate::config::NanoleafStartCorner::BottomCenter,
            reverse_direction: false,
            perimeter_offset: 0,
        }),
        config.wled is None ==> settings.wled_alignment == (NanoleafAlignment {
            start_corner: crate::config::NanoleafStartCorner::BottomCenter,
            reverse_direction: false,
            perimeter_offset: 0,
        }),
{
}

/// Every setting is saved as itself, whether an output is on is saved as it runs,
/// and everything else stays as it was.
pub proof fn each_setting_is_saved_as_itself(
    settings: &LiveSettings,
    config: Config,
    switches: SyncSwitches,
    saved: Config,
)
    requires
        call_ensures(LiveSettings::save_into, (settings, config, switches), saved),
    ensures
        saved.brightness_multiplier == settings.brightness_multiplier,
        saved.hue_output_brightness == settings.hue_output_brightness,
        saved.nanoleaf_output_brightness == settings.nanoleaf_output_brightness,
        saved.wled_output_brightness == settings.wled_output_brightness,
        saved.saturation_boost == settings.saturation_boost,
        saved.peak_weight == settings.peak_weight,
        saved.gamma == settings.gamma,
        saved.noise_gate_threshold == settings.noise_gate_threshold,
        saved.smoothing_factor == settings.smoothing_factor,
        saved.rise_smoothing_factor == settings.rise_smoothing_factor,
        saved.fall_smoothing_factor == settings.fall_smoothing_factor,
        saved.strict_blackout == settings.strict_blackout,
        saved.use_xy_gamut == settings.use_xy_gamut,
        saved.letterbox_detection == settings.letterbox_detection,
        saved.hdr_tone_mapping == settings.hdr_tone_mapping,
        saved.auto_tv_power == settings.auto_tv_power,
        saved.max_color_step == settings.max_color_step,
        saved.hue_sync_enabled == switches.hue,
        saved.nanoleaf_sync_enabled == switches.nanoleaf,
        saved.wled_sync_enabled == switches.wled,
        saved.nanoleaf is Some <==> config.nanoleaf is Some,
        saved.wled is Some <==> config.wled is Some,
        config.nanoleaf matches Some(before) ==> saved.nanoleaf matches Some(after) && {
            &&& after.alignment == settings.nanoleaf_alignment
            &&& after.enabled == before.enabled
            &&& after.ip == before.ip
            &&& after.auth_token == before.auth_token
            &&& after.udp_port == before.udp_port
            &&& after.segments == before.segments
            &&& after.panel_ids == before.panel_ids
        },
        config.wled matches Some(before) ==> saved.wled matches Some(after) && {
            &&& after.alignment == settings.wled_alignment
            &&& after.enabled == before.enabled
            &&& after.ip == before.ip
            &&& after.ddp_port == before.ddp_port
            &&& after.led_count == before.led_count
            &&& after.destination_id == before.destination_id
        },
        saved.hue_enabled == config.hue_enabled,
        saved.bridge_ip == config.bridge_ip,
        saved.username == config.username,
        saved.clientkey == config.clientkey,
        saved.hue_bridge_certificate_sha256 == config.hue_bridge_certificate_sha256,
        saved.entertainment_area_id == config.entertainment_area_id,
        saved.entertainment_configuration_id == config.entertainment_configuration_id,
        saved.fps == config.fps,
        saved.adaptive_throttling == config.adaptive_throttling,
        saved.zones == config.zones,
        saved.capture_width == config.capture_width,
        saved.capture_height == config.capture_height,
{
}

/// Settings that were saved and loaded again are the settings that ran.
pub proof fn saved_settings_run_again(
    settings: &LiveSettings,
    config: Config,
    switches: SyncSwitches,
    saved: Config,
    again: LiveSettings,
)
    requires
        call_ensures(LiveSettings::save_into, (settings, config, switches), saved),
        call_ensures(LiveSettings::from_config, (&saved, switches), again),
        config.nanoleaf is Some,
        config.wled is Some,
        switches.hue == settings.hue_sync_enabled,
        switches.nanoleaf == settings.nanoleaf_sync_enabled,
        switches.wled == settings.wled_sync_enabled,
    ensures
        again == *settings,
{
}

/// Every output is dimmed by the common brightness and by its own trim, and by no
/// other output's.
pub proof fn each_output_has_its_own_trim(
    settings: &LiveSettings,
    hue: Gain,
    nanoleaf: Gain,
    wled: Gain,
)
    requires
        call_ensures(LiveSettings::hue_gain, (settings,), hue),
        call_ensures(LiveSettings::nanoleaf_gain, (settings,), nanoleaf),
        call_ensures(LiveSettings::wled_gain, (settings,), wled),
    ensures
        hue.multiplier == settings.brightness_multiplier,
        nanoleaf.multiplier == hue.multiplier,
        wled.multiplier == hue.multiplier,
        hue.trim == settings.hue_output_brightness,
        nanoleaf.trim == settings.nanoleaf_output_brightness,
        wled.trim == settings.wled_output_brightness,
{
}

/// Each setter of a strip tells its sampler one thing, what its name says, and
/// leaves the rest of what the sampler has been told alone.
pub proof fn each_setter_tells_its_own_setting(
    sampler: &mut WledPerimeterSampler,
    state: SamplerState,
    rise: Scalar,
    fall: Scalar,
    alignment: NanoleafAlignment,
    smoothing: Scalar,
    strict_blackout: bool,
    brightness: Scalar,
    saturation_boost: Scalar,
    hdr_tone_mapping: bool,
    peak_weight: Scalar,
    gamma: Scalar,
    max_color_step: u8,
    noise_gate_threshold: Scalar,
    active_rect: ActiveRect,
)
    ensures
        ({
            let before = state.told_all(old(sampler).waiting());
            let after = state.told_all(final(sampler).waiting());
            &&& call_ensures(
                WledPerimeterSampler::set_temporal_response,
                (sampler, rise, fall),
                (),
            ) ==> after == (SamplerState { rise, fall, ..before })
            &&& call_ensures(WledPerimeterSampler::set_alignment, (sampler, alignment), ()) ==> after == (
            SamplerState { alignment, ..before })
            &&& call_ensures(WledPerimeterSampler::set_smoothing_factor, (sampler, smoothing), ()) ==> after == (
            SamplerState { smoothing, ..before })
            &&& call_ensures(WledPerimeterSampler::set_strict_blackout, (sampler, strict_blackout), ()) ==> after == (
            SamplerState { strict_blackout, ..before })
            &&& call_ensures(WledPerimeterSampler::set_brightness_multiplier, (sampler, brightness), ()) ==> after == (
            SamplerState { brightness, ..before })
            &&& call_ensures(WledPerimeterSampler::set_saturation_boost, (sampler, saturation_boost), ()) ==> after == (
            SamplerState { saturation_boost, ..before })
            &&& call_ensures(WledPerimeterSampler::set_hdr_tone_mapping, (sampler, hdr_tone_mapping), ()) ==> after == (
            SamplerState { hdr_tone_mapping, ..before })
            &&& call_ensures(WledPerimeterSampler::set_peak_weight, (sampler, peak_weight), ()) ==> after == (
            SamplerState { peak_weight, ..before })
            &&& call_ensures(WledPerimeterSampler::set_gamma, (sampler, gamma), ()) ==> after == (
            SamplerState { gamma, ..before })
            &&& call_ensures(WledPerimeterSampler::set_max_color_step, (sampler, max_color_step), ()) ==> after == (
            SamplerState { max_color_step, ..before })
            &&& call_ensures(WledPerimeterSampler::set_noise_gate_threshold, (sampler, noise_gate_threshold), ()) ==> after == (
            SamplerState { noise_gate_threshold, ..before })
            &&& call_ensures(WledPerimeterSampler::set_active_rect, (sampler, active_rect), ()) ==> after == (
            SamplerState { active_rect, ..before })
        }),
{
    let waiting = old(sampler).waiting();
    lemma_told_one_more(state, waiting, SamplerSetting::TemporalResponse { rise, fall });
    lemma_told_one_more(state, waiting, SamplerSetting::Alignment(alignment));
    lemma_told_one_more(state, waiting, SamplerSetting::SmoothingFactor(smoothing));
    lemma_told_one_more(state, waiting, SamplerSetting::StrictBlackout(strict_blackout));
    lemma_told_one_more(state, waiting, SamplerSetting::BrightnessMultiplier(brightness));
    lemma_told_one_more(state, waiting, SamplerSetting::SaturationBoost(saturation_boost));
    lemma_told_one_more(state, waiting, SamplerSetting::HdrToneMapping(hdr_tone_mapping));
    lemma_told_one_more(state, waiting, SamplerSetting::PeakWeight(peak_weight));
    lemma_told_one_more(state, waiting, SamplerSetting::Gamma(gamma));
    lemma_told_one_more(state, waiting, SamplerSetting::MaxColorStep(max_color_step));
    lemma_told_one_more(state, waiting, SamplerSetting::NoiseGateThreshold(noise_gate_threshold));
    lemma_told_one_more(state, waiting, SamplerSetting::ActiveRect(active_rect));
}

} // verus!
