//! Perimeter sampling for WLED strips.
//!
//! The screen edge is sampled once, in a canonical order, by the sampler that
//! also serves Nanoleaf strips. This module gives that sampler its settings and
//! translates its colours into WLED's contiguous LED order.
use crate::color::RgbColor;
use crate::color::black_frame;
use crate::config::NanoleafAlignment;
use crate::config::Scalar;
use vstd::prelude::*;

verus! {

/// The part of the picture inside the letterbox bars, in pixels.
#[derive(Debug, Clone, Copy, PartialEq, Eq, Structural)]
pub struct ActiveRect {
    pub left: u32,
    pub top: u32,
    pub right: u32,
    pub bottom: u32,
}

/// What the edge sampler is made with.
#[derive(Debug)]
pub struct SamplerSetup {
    pub segments: u16,
    pub output_ids: Vec<u16>,
    pub hdr_tone_mapping: bool,
    pub saturation_boost: Scalar,
    pub noise_gate_threshold: Scalar,
    pub brightness_multiplier: Scalar,
    pub alignment: NanoleafAlignment,
}

/// A change for the edge sampler.
#[derive(Debug, Clone, Copy, PartialEq, Eq, Structural)]
pub enum SamplerSetting {
    Alignment(NanoleafAlignment),
    SmoothingFactor(Scalar),
    TemporalResponse { rise: Scalar, fall: Scalar },
    StrictBlackout(bool),
    BrightnessMultiplier(Scalar),
    SaturationBoost(Scalar),
    HdrToneMapping(bool),
    LetterboxDetection(bool),
    PeakWeight(Scalar),
    Gamma(Scalar),
    MaxColorStep(u8),
    NoiseGateThreshold(Scalar),
    ActiveRect(ActiveRect),
}

/// The larger of a configured LED count and four, one LED for each screen edge.
pub open spec fn perimeter_leds(led_count: u16) -> u16 {
    if led_count < 4 {
        4
    } else {
        led_count
    }
}

/// The number of LEDs that a strip is driven with.
pub fn perimeter_led_count(led_count: u16) -> (count: u16)
    ensures
        count == perimeter_leds(led_count),
{
    if led_count < 4 {
        4
    } else {
        led_count
    }
}

/// The last of the first `n` positions at which `ids` holds `id`.
pub open spec fn last_source(ids: Seq<u16>, n: int, id: int) -> Option<int>
    decreases n,
{
    if n <= 0 {
        None
    } else if ids[n - 1] == id {
        Some(n - 1)
    } else {
        last_source(ids, n - 1, id)
    }
}

/// How many colours have an output id.
pub open spec fn paired(colors: Seq<RgbColor>, ids: Seq<u16>) -> int {
    if colors.len() < ids.len() {
        colors.len() as int
    } else {
        ids.len() as int
    }
}

/// The colours in output order: output `j` shows the last colour whose id is
/// `j`, and is off where there is none.
pub open spec fn remapped(colors: Seq<RgbColor>, ids: Seq<u16>) -> Seq<RgbColor> {
    Seq::new(
        colors.len(),
        |j: int|
            match last_source(ids, paired(colors, ids), j) {
                Some(i) => colors[i],
                None => crate::color::black(),
            },
    )
}

/// Moves each colour to the output that its id names. Ids beyond the strip are
/// ignored.
pub fn remap_colors(colors: &[RgbColor], output_ids: &[u16]) -> (output: Vec<RgbColor>)
    ensures
        output@ == remapped(colors@, output_ids@),
{
    let mut output = black_frame(colors.len());
    let mut i: usize = 0;
    while i < colors.len() && i < output_ids.len()
        invariant
            i <= paired(colors@, output_ids@),
            output@.len() == colors@.len(),
            forall|j: int|
                0 <= j < output@.len() ==> #[trigger] output@[j] == (match last_source(
                    output_ids@,
                    i as int,
                    j,
                ) {
                    Some(k) => colors@[k],
                    None => crate::color::black(),
                }),
        decreases colors.len() - i,
    {
        let output_index: usize = output_ids[i] as usize;
        if output_index < output.len() {
            output.set(output_index, colors[i]);
        }
        i += 1;
    }
    output
}

/// Where the ids name each output once, no colour is lost: every output shows
/// exactly the colour that was sampled for it.
pub proof fn permutation_keeps_every_color(colors: Seq<RgbColor>, ids: Seq<u16>, i: int)
    requires
        ids.len() == colors.len(),
        forall|k: int| 0 <= k < ids.len() ==> #[trigger] ids[k] < ids.len(),
        forall|k: int, l: int| 0 <= k < l < ids.len() ==> ids[k] != ids[l],
        0 <= i < ids.len(),
    ensures
        remapped(colors, ids)[ids[i] as int] == colors[i],
{
    lemma_last_source_unique(ids, ids.len() as int, i);
}

proof fn lemma_last_source_unique(ids: Seq<u16>, n: int, i: int)
    requires
        0 <= i < n <= ids.len(),
        forall|k: int, l: int| 0 <= k < l < ids.len() ==> ids[k] != ids[l],
    ensures
        last_source(ids, n, ids[i] as int) == Some(i),
    decreases n,
{
    if i < n - 1 {
        lemma_last_source_unique(ids, n - 1, i);
    }
}

/// `last_source` finds a position that holds the id, after which none of the
/// first `n` does; and it finds none only if there is none.
pub proof fn last_source_is_the_last(ids: Seq<u16>, n: int, id: int)
    requires
        0 <= n <= ids.len(),
    ensures
        match last_source(ids, n, id) {
            Some(i) => 0 <= i < n && ids[i] == id && forall|k: int|
                i < k < n ==> #[trigger] ids[k] != id,
            None => forall|k: int| 0 <= k < n ==> #[trigger] ids[k] != id,
        },
    decreases n,
{
    if n > 0 && ids[n - 1] != id {
        last_source_is_the_last(ids, n - 1, id);
    }
}

/// Samples the screen edge for a WLED strip.
///
/// Changes wait in order until the edge sampler takes them.
pub struct WledPerimeterSampler {
    led_count: usize,
    pending: Vec<SamplerSetting>,
}

impl WledPerimeterSampler {
    /// The number of LEDs along the strip.
    pub closed spec fn leds(&self) -> nat {
        self.led_count as nat
    }

    /// The changes that the edge sampler has yet to take, oldest first.
    pub closed spec fn waiting(&self) -> Seq<SamplerSetting> {
        self.pending@
    }

    /// A strip has at least one LED for each screen edge.
    pub open spec fn wf(&self) -> bool {
        4 <= self.leds() <= 0xffff
    }

    /// The strip, and what to make its edge sampler with.
    pub fn new(
        led_count: u16,
        hdr_tone_mapping: bool,
        saturation_boost: Scalar,
        noise_gate_threshold: Scalar,
        brightness_multiplier: Scalar,
        alignment: NanoleafAlignment,
    ) -> (made: (Self, SamplerSetup))
        ensures
            made.0.wf(),
            made.0.leds() == perimeter_leds(led_count),
            made.0.waiting() == Seq::<SamplerSetting>::empty(),
            made.1.segments == perimeter_leds(led_count),
            made.1.output_ids@ == Seq::new(
                perimeter_leds(led_count) as nat,
                |i: int| i as u16,
            ),
            made.1.hdr_tone_mapping == hdr_tone_mapping,
            made.1.saturation_boost == saturation_boost,
            made.1.noise_gate_threshold == noise_gate_threshold,
            made.1.brightness_multiplier == brightness_multiplier,
            made.1.alignment == alignment,
    {
        let led_count: u16 = perimeter_led_count(led_count);
        let mut output_ids: Vec<u16> = Vec::new();
        for i in 0..led_count
            invariant
                output_ids@ == Seq::new(i as nat, |k: int| k as u16),
        {
            output_ids.push(i);
        }
        let setup = SamplerSetup {
            segments: led_count,
            output_ids,
            hdr_tone_mapping,
            saturation_boost,
            noise_gate_threshold,
            brightness_multiplier,
            alignment,
        };
        (WledPerimeterSampler { led_count: led_count as usize, pending: Vec::new() }, setup)
    }

    pub fn led_count(&self) -> (count: usize)
        ensures
            count == self.leds(),
    {
        self.led_count
    }

    fn forward(&mut self, setting: SamplerSetting)
        ensures
            final(self).leds() == old(self).leds(),
            final(self).waiting() == old(self).waiting().push(setting),
    {
        self.pending.push(setting);
    }

    /// Hands the waiting changes to the edge sampler, oldest first.
    pub fn take_settings(&mut self) -> (settings: Vec<SamplerSetting>)
        ensures
            settings@ == old(self).waiting(),
            final(self).waiting() == Seq::<SamplerSetting>::empty(),
            final(self).leds() == old(self).leds(),
    {
        let mut settings: Vec<SamplerSetting> = Vec::new();
        settings.append(&mut self.pending);
        settings
    }

    pub fn set_alignment(&mut self, alignment: NanoleafAlignment)
        ensures
            final(self).leds() == old(self).leds(),
            final(self).waiting() == old(self).waiting().push(SamplerSetting::Alignment(alignment)),
    {
        self.forward(SamplerSetting::Alignment(alignment));
    }

    pub fn set_smoothing_factor(&mut self, factor: Scalar)
        ensures
            final(self).leds() == old(self).leds(),
            final(self).waiting() == old(self).waiting().push(
                SamplerSetting::SmoothingFactor(factor),
            ),
    {
        self.forward(SamplerSetting::SmoothingFactor(factor));
    }

    pub fn set_temporal_response(&mut self, rise: Scalar, fall: Scalar)
        ensures
            final(self).leds() == old(self).leds(),
            final(self).waiting() == old(self).waiting().push(
                SamplerSetting::TemporalResponse { rise, fall },
            ),
    {
        self.forward(SamplerSetting::TemporalResponse { rise, fall });
    }

    pub fn set_strict_blackout(&mut self, enabled: bool)
        ensures
            final(self).leds() == old(self).leds(),
            final(self).waiting() == old(self).waiting().push(
                SamplerSetting::StrictBlackout(enabled),
            ),
    {
        self.forward(SamplerSetting::StrictBlackout(enabled));
    }

    pub fn set_brightness_multiplier(&mut self, multiplier: Scalar)
        ensures
            final(self).leds() == old(self).leds(),
            final(self).waiting() == old(self).waiting().push(
                SamplerSetting::BrightnessMultiplier(multiplier),
            ),
    {
        self.forward(SamplerSetting::BrightnessMultiplier(multiplier));
    }

    pub fn set_saturation_boost(&mut self, boost: Scalar)
        ensures
            final(self).leds() == old(self).leds(),
            final(self).waiting() == old(self).waiting().push(
                SamplerSetting::SaturationBoost(boost),
            ),
    {
        self.forward(SamplerSetting::SaturationBoost(boost));
    }

    pub fn set_hdr_tone_mapping(&mut self, enabled: bool)
        ensures
            final(self).leds() == old(self).leds(),
            final(self).waiting() == old(self).waiting().push(
                SamplerSetting::HdrToneMapping(enabled),
            ),
    {
        self.forward(SamplerSetting::HdrToneMapping(enabled));
    }

    pub fn set_peak_weight(&mut self, weight: Scalar)
        ensures
            final(self).leds() == old(self).leds(),
            final(self).waiting() == old(self).waiting().push(SamplerSetting::PeakWeight(weight)),
    {
        self.forward(SamplerSetting::PeakWeight(weight));
    }

    pub fn set_gamma(&mut self, gamma: Scalar)
        ensures
            final(self).leds() == old(self).leds(),
            final(self).waiting() == old(self).waiting().push(SamplerSetting::Gamma(gamma)),
    {
        self.forward(SamplerSetting::Gamma(gamma));
    }

    pub fn set_max_color_step(&mut self, step: u8)
        ensures
            final(self).leds() == old(self).leds(),
            final(self).waiting() == old(self).waiting().push(SamplerSetting::MaxColorStep(step)),
    {
        self.forward(SamplerSetting::MaxColorStep(step));
    }

    pub fn set_noise_gate_threshold(&mut self, threshold: Scalar)
        ensures
            final(self).leds() == old(self).leds(),
            final(self).waiting() == old(self).waiting().push(
                SamplerSetting::NoiseGateThreshold(threshold),
            ),
    {
        self.forward(SamplerSetting::NoiseGateThreshold(threshold));
    }

    pub fn set_active_rect(&mut self, rect: ActiveRect)
        ensures
            final(self).leds() == old(self).leds(),
            final(self).waiting() == old(self).waiting().push(SamplerSetting::ActiveRect(rect)),
    {
        self.forward(SamplerSetting::ActiveRect(rect));
    }

    /// The colours of a frame in LED order, from the edge sampler's colours in
    /// canonical order and the output id that it gives each of them.
    pub fn sample_frame(&self, canonical: &[RgbColor], output_ids: &[u16]) -> (colors: Vec<
        RgbColor,
    >)
        ensures
            colors@ == remapped(canonical@, output_ids@),
    {
        remap_colors(canonical, output_ids)
    }
}

/// Every LED shows the last colour that was sampled for it, is dark where none was,
/// and there are as many LEDs as colours.
pub proof fn every_led_shows_its_own_colour(
    sampler: &WledPerimeterSampler,
    canonical: &[RgbColor],
    output_ids: &[u16],
    colors: Vec<RgbColor>,
    output: Vec<RgbColor>,
    led: int,
    source: int,
)
    requires
        call_ensures(WledPerimeterSampler::sample_frame, (sampler, canonical, output_ids), colors),
        call_ensures(remap_colors, (canonical, output_ids), output),
        0 <= led < canonical@.len(),
    ensures
        colors@ == output@,
        colors@.len() == canonical@.len(),
        0 <= source < canonical@.len() && source < output_ids@.len() && output_ids@[source] == led
            && (forall|k: int|
            source < k < canonical@.len() && k < output_ids@.len() ==> #[trigger] output_ids@[k]
                != led) ==> colors@[led] == canonical@[source],
        (forall|k: int|
            0 <= k < canonical@.len() && k < output_ids@.len() ==> #[trigger] output_ids@[k]
                != led) ==> colors@[led].r == 0 && colors@[led].g == 0 && colors@[led].b == 0,
{
    last_source_is_the_last(output_ids@, paired(canonical@, output_ids@), led);
}

/// A strip is driven with the LEDs that it has, and with four at least; its sampler
/// is made with as many outputs, numbered from zero, and with the given tuning.
pub proof fn a_strip_has_four_leds_at_least(
    led_count: u16,
    hdr_tone_mapping: bool,
    saturation_boost: Scalar,
    noise_gate_threshold: Scalar,
    brightness_multiplier: Scalar,
    alignment: NanoleafAlignment,
    made: (WledPerimeterSampler, SamplerSetup),
    leds: usize,
    count: u16,
)
    requires
        call_ensures(
            WledPerimeterSampler::new,
            (
                led_count,
                hdr_tone_mapping,
                saturation_boost,
                noise_gate_threshold,
                brightness_multiplier,
                alignment,
            ),
            made,
        ),
        call_ensures(WledPerimeterSampler::led_count, (&made.0,), leds),
        call_ensures(perimeter_led_count, (led_count,), count),
    ensures
        led_count >= 4 ==> count == led_count,
        led_count < 4 ==> count == 4,
        leds == count,
        made.1.segments == count,
        made.1.output_ids@.len() == count,
        forall|i: int| 0 <= i < count ==> #[trigger] made.1.output_ids@[i] == i,
        made.0.waiting().len() == 0,
        made.1.hdr_tone_mapping == hdr_tone_mapping,
        made.1.saturation_boost == saturation_boost,
        made.1.noise_gate_threshold == noise_gate_threshold,
        made.1.brightness_multiplier == brightness_multiplier,
        made.1.alignment == alignment,
{
}

} // verus!
