//! What the diagnostic commands decide before they touch a device.
use crate::config::Config;
use crate::config::LightZone;
use crate::config::NanoleafConfig;
use crate::sampler::perimeter_led_count;
use vstd::prelude::*;

verus! {

/// The channels that a Hue test pattern is sent to: those of the configured
/// zones, in their order, and no other.
pub fn hue_test(config: &Config) -> (channels: Vec<u8>)
    ensures
        channels@ == Seq::new(config.zones@.len(), |i: int| config.zones@[i].channel_id),
{
    let mut channels: Vec<u8> = Vec::new();
    let zone_count: usize = config.zones.len();
    for i in 0..zone_count
        invariant
            zone_count == config.zones@.len(),
            channels@ == Seq::new(i as nat, |k: int| config.zones@[k].channel_id),
    {
        channels.push(config.zones[i].channel_id);
    }
    channels
}

/// The segments that a Nanoleaf test pattern has: 30 at least.
pub open spec fn test_segments(strip: NanoleafConfig) -> u16 {
    if strip.segments < 30 {
        30
    } else {
        strip.segments
    }
}

/// The number of segments of a Nanoleaf test pattern, and the panels that it is
/// sent to. Panels that are not known are numbered from one.
pub fn nanoleaf_test(strip: &NanoleafConfig) -> (pattern: (u16, Vec<u16>))
    ensures
        pattern.0 == test_segments(*strip),
        pattern.1@ == (if strip.panel_ids@.len() > 0 {
            strip.panel_ids@
        } else {
            Seq::new(test_segments(*strip) as nat, |i: int| (i + 1) as u16)
        }),
{
    let segments: u16 = if strip.segments < 30 {
        30
    } else {
        strip.segments
    };
    let mut panel_ids: Vec<u16> = Vec::new();
    let known: usize = strip.panel_ids.len();
    if known > 0 {
        for i in 0..known
            invariant
                known == strip.panel_ids@.len(),
                panel_ids@ == strip.panel_ids@.take(i as int),
        {
            panel_ids.push(strip.panel_ids[i]);
        }
        assert(panel_ids@ == strip.panel_ids@);
    } else {
        for i in 0..segments
            invariant
                panel_ids@ == Seq::new(i as nat, |k: int| (k + 1) as u16),
        {
            panel_ids.push(i + 1);
        }
    }
    (segments, panel_ids)
}

/// Why no WLED test pattern is sent.
#[derive(Debug, Clone, Copy, PartialEq, Eq, Structural)]
pub enum WledTestRefusal {
    NotConfigured,
    Disabled,
}

/// The number of LEDs of a WLED test pattern.
pub fn wled_test(config: &Config) -> (led_count: Result<u16, WledTestRefusal>)
    ensures
        led_count == (match config.wled {
            Some(strip) => if strip.enabled {
                Ok::<u16, WledTestRefusal>(crate::sampler::perimeter_leds(strip.led_count))
            } else {
                Err(WledTestRefusal::Disabled)
            },
            None => Err(WledTestRefusal::NotConfigured),
        }),
{
    match &config.wled {
        Some(strip) => if strip.enabled {
            Ok(perimeter_led_count(strip.led_count))
        } else {
            Err(WledTestRefusal::Disabled)
        },
        None => Err(WledTestRefusal::NotConfigured),
    }
}

/// The name of the first zone with a channel, from position `from` on.
pub open spec fn name_of_channel(zones: Seq<LightZone>, channel_id: u8, from: int) -> Seq<char>
    decreases zones.len() - from,
{
    if from >= zones.len() {
        "Unknown"@
    } else if zones[from].channel_id == channel_id {
        zones[from].name@
    } else {
        name_of_channel(zones, channel_id, from + 1)
    }
}

/// The name of the first zone with a channel.
pub fn zone_name(zones: &[LightZone], channel_id: u8) -> (name: &str)
    ensures
        name@ == name_of_channel(zones@, channel_id, 0),
{
    let mut i: usize = 0;
    while i < zones.len()
        invariant
            i <= zones@.len(),
            name_of_channel(zones@, channel_id, 0) == name_of_channel(
                zones@,
                channel_id,
                i as int,
            ),
        decreases zones.len() - i,
    {
        if zones[i].channel_id == channel_id {
            return zones[i].name.as_str();
        }
        i += 1;
    }
    "Unknown"
}

/// The configuration that a pairing from the command line is stored in: the one
/// that could be loaded, or else a fresh one.
pub fn pairing_base(
    loaded: Option<Config>,
    bridge_ip: &str,
    username: &str,
    clientkey: &str,
    area_id: &str,
) -> (config: Config)
    ensures
        match loaded {
            Some(present) => config == present,
            None => crate::config::fresh_config(
                config,
                bridge_ip@,
                username@,
                clientkey@,
                area_id@,
            ),
        },
{
    match loaded {
        Some(present) => present,
        None => Config::new_default(bridge_ip, username, clientkey, area_id),
    }
}

/// A Hue test reaches the channel of every zone, each at its zone's place, and no
/// other channel.
pub proof fn a_hue_test_reaches_every_zone(config: &Config, channels: Vec<u8>)
    requires
        call_ensures(hue_test, (config,), channels),
    ensures
        channels@.len() == config.zones@.len(),
        forall|i: int|
            0 <= i < channels@.len() ==> #[trigger] channels@[i] == config.zones@[i].channel_id,
{
}

/// A Nanoleaf test has as many segments as the strip, thirty at least, and goes to
/// the strip's own panels; without any, to as many as there are segments, numbered
/// from one without a gap.
pub proof fn a_nanoleaf_test_reaches_the_strip(
    strip: &NanoleafConfig,
    pattern: (u16, Vec<u16>),
)
    requires
        call_ensures(nanoleaf_test, (strip,), pattern),
    ensures
        pattern.0 >= 30,
        strip.segments >= 30 ==> pattern.0 == strip.segments,
        strip.segments <= 30 ==> pattern.0 == 30,
        strip.panel_ids@.len() > 0 ==> pattern.1@ == strip.panel_ids@,
        strip.panel_ids@.len() == 0 ==> pattern.1@.len() == pattern.0 && forall|i: int|
            0 <= i < pattern.1@.len() ==> #[trigger] pattern.1@[i] == i + 1,
{
}

/// A WLED test lights the strip that is configured and on, four LEDs at least, and
/// says which of the two is missing.
pub proof fn a_wled_test_needs_the_strip(
    config: &Config,
    led_count: Result<u16, WledTestRefusal>,
)
    requires
        call_ensures(wled_test, (config,), led_count),
    ensures
        config.wled is None <==> led_count == Err::<u16, WledTestRefusal>(
            WledTestRefusal::NotConfigured,
        ),
        config.wled matches Some(strip) ==> (strip.enabled <==> led_count is Ok),
        config.wled matches Some(strip) ==> (led_count matches Ok(count) ==> count >= 4 && (
        strip.led_count >= 4 ==> count == strip.led_count) && (strip.led_count < 4 ==> count
            == 4)),
        config.wled is Some && led_count is Err ==> led_count == Err::<u16, WledTestRefusal>(
            WledTestRefusal::Disabled,
        ),
{
}

/// A channel is called by the name of the first zone that has it.
pub proof fn a_channel_has_the_name_of_its_first_zone(
    zones: &[LightZone],
    channel_id: u8,
    name: &str,
    at: int,
)
    requires
        call_ensures(zone_name, (zones, channel_id), name),
    ensures
        0 <= at < zones@.len() && zones@[at].channel_id == channel_id && (forall|i: int|
            0 <= i < at ==> (#[trigger] zones@[i]).channel_id != channel_id) ==> name@
            == zones@[at].name@,
        (forall|i: int|
            0 <= i < zones@.len() ==> (#[trigger] zones@[i]).channel_id != channel_id) ==> name@
            == "Unknown"@,
{
    if 0 <= at < zones@.len() && forall|i: int|
        0 <= i < at ==> (#[trigger] zones@[i]).channel_id != channel_id {
        lemma_no_zone_before(zones@, channel_id, at, 0);
    }
    if forall|i: int|
        0 <= i < zones@.len() ==> (#[trigger] zones@[i]).channel_id != channel_id {
        lemma_no_zone_before(zones@, channel_id, zones@.len() as int, 0);
    }
}

proof fn lemma_no_zone_before(zones: Seq<LightZone>, channel_id: u8, at: int, from: int)
    requires
        0 <= from <= at <= zones.len(),
        forall|i: int| 0 <= i < at ==> (#[trigger] zones[i]).channel_id != channel_id,
    ensures
        name_of_channel(zones, channel_id, from) == name_of_channel(zones, channel_id, at),
    decreases at - from,
{
    if from < at {
        lemma_no_zone_before(zones, channel_id, at, from + 1);
        assert(zones[from].channel_id != channel_id);
    }
}

/// What could be loaded is kept as it is; a fresh configuration holds each credential
/// in its own place.
pub proof fn a_pairing_keeps_what_is_loaded(
    present: Config,
    bridge_ip: &str,
    username: &str,
    clientkey: &str,
    area_id: &str,
    kept: Config,
    fresh: Config,
)
    requires
        call_ensures(pairing_base, (Some(present), bridge_ip, username, clientkey, area_id), kept),
        call_ensures(
            pairing_base,
            (None::<Config>, bridge_ip, username, clientkey, area_id),
            fresh,
        ),
    ensures
        kept == present,
        fresh.bridge_ip@ == bridge_ip@,
        fresh.username@ == username@,
        fresh.clientkey@ == clientkey@,
        fresh.entertainment_area_id@ == area_id@,
{
}

} // verus!
