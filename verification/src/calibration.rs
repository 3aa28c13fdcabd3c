//! Test patterns for lining the lights up with the screen.
use crate::color::RgbColor;
use crate::config::LightZone;
use crate::text::same_text;
use vstd::prelude::*;

verus! {

/// A fixed picture that replaces the sampled colours while it is selected.
#[derive(Debug, Clone, Copy, PartialEq, Eq, Structural)]
pub enum CalibrationPattern {
    Red,
    Green,
    Blue,
    White,
    WarmWhite,
    DaylightWhite,
    Quadrants,
    Perimeter,
}

/// The name under which a pattern is selected.
pub open spec fn pattern_name(pattern: CalibrationPattern) -> Seq<char> {
    match pattern {
        CalibrationPattern::Red => "red"@,
        CalibrationPattern::Green => "green"@,
        CalibrationPattern::Blue => "blue"@,
        CalibrationPattern::White => "white"@,
        CalibrationPattern::WarmWhite => "warm-white"@,
        CalibrationPattern::DaylightWhite => "daylight-white"@,
        CalibrationPattern::Quadrants => "quadrants"@,
        CalibrationPattern::Perimeter => "perimeter"@,
    }
}

/// What a request for a pattern means: the pattern of that name, no pattern for
/// "off", and nothing otherwise.
pub open spec fn requested(value: Seq<char>) -> Option<Option<CalibrationPattern>> {
    if value == "red"@ {
        Some(Some(CalibrationPattern::Red))
    } else if value == "green"@ {
        Some(Some(CalibrationPattern::Green))
    } else if value == "blue"@ {
        Some(Some(CalibrationPattern::Blue))
    } else if value == "white"@ {
        Some(Some(CalibrationPattern::White))
    } else if value == "warm-white"@ {
        Some(Some(CalibrationPattern::WarmWhite))
    } else if value == "daylight-white"@ {
        Some(Some(CalibrationPattern::DaylightWhite))
    } else if value == "quadrants"@ {
        Some(Some(CalibrationPattern::Quadrants))
    } else if value == "perimeter"@ {
        Some(Some(CalibrationPattern::Perimeter))
    } else if value == "off"@ {
        Some(None)
    } else {
        None
    }
}

impl CalibrationPattern {
    pub fn parse(value: &str) -> (pattern: Option<Option<Self>>)
        ensures
            pattern == requested(value@),
    {
        if same_text(value, "red") {
            Some(Some(CalibrationPattern::Red))
        } else if same_text(value, "green") {
            Some(Some(CalibrationPattern::Green))
        } else if same_text(value, "blue") {
            Some(Some(CalibrationPattern::Blue))
        } else if same_text(value, "white") {
            Some(Some(CalibrationPattern::White))
        } else if same_text(value, "warm-white") {
            Some(Some(CalibrationPattern::WarmWhite))
        } else if same_text(value, "daylight-white") {
            Some(Some(CalibrationPattern::DaylightWhite))
        } else if same_text(value, "quadrants") {
            Some(Some(CalibrationPattern::Quadrants))
        } else if same_text(value, "perimeter") {
            Some(Some(CalibrationPattern::Perimeter))
        } else if same_text(value, "off") {
            Some(None)
        } else {
            None
        }
    }

    pub fn name(self) -> (name: &'static str)
        ensures
            name@ == pattern_name(self),
    {
        match self {
            CalibrationPattern::Red => "red",
            CalibrationPattern::Green => "green",
            CalibrationPattern::Blue => "blue",
            CalibrationPattern::White => "white",
            CalibrationPattern::WarmWhite => "warm-white",
            CalibrationPattern::DaylightWhite => "daylight-white",
            CalibrationPattern::Quadrants => "quadrants",
            CalibrationPattern::Perimeter => "perimeter",
        }
    }
}

proof fn reveal_names()
    ensures
        "red"@.len() == 3,
        "green"@.len() == 5 && "green"@[0] == 'g',
        "blue"@.len() == 4,
        "white"@.len() == 5 && "white"@[0] == 'w',
        "warm-white"@.len() == 10,
        "daylight-white"@.len() == 14,
        "quadrants"@.len() == 9 && "quadrants"@[0] == 'q',
        "perimeter"@.len() == 9 && "perimeter"@[0] == 'p',
        "off"@.len() == 3 && "off"@[0] == 'o',
        "red"@[0] == 'r',
{
    reveal_strlit("red");
    reveal_strlit("green");
    reveal_strlit("blue");
    reveal_strlit("white");
    reveal_strlit("warm-white");
    reveal_strlit("daylight-white");
    reveal_strlit("quadrants");
    reveal_strlit("perimeter");
    reveal_strlit("off");
}

/// Every pattern is selected by its own name, and by no other text.
pub proof fn names_select_their_patterns(pattern: CalibrationPattern, value: Seq<char>)
    ensures
        requested(pattern_name(pattern)) == Some(Some(pattern)),
        requested(value) == Some(Some(pattern)) ==> value == pattern_name(pattern),
        requested("off"@) == Some(None::<CalibrationPattern>),
{
    reveal_names();
}

/// Which third of the screen a point lies in: `top` above 0.33 of the height,
/// `bottom` below 0.66 of it, `right` beyond 0.66 of the width.
#[derive(Debug, Clone, Copy, PartialEq, Eq, Structural)]
pub struct ScreenRegion {
    pub top: bool,
    pub right: bool,
    pub bottom: bool,
}

/// The colour that a pattern shows in a region of the screen.
pub open spec fn shown(pattern: CalibrationPattern, region: ScreenRegion) -> RgbColor {
    match pattern {
        CalibrationPattern::Red => RgbColor { r: 255, g: 0, b: 0 },
        CalibrationPattern::Green => RgbColor { r: 0, g: 255, b: 0 },
        CalibrationPattern::Blue => RgbColor { r: 0, g: 0, b: 255 },
        CalibrationPattern::White => RgbColor { r: 255, g: 255, b: 255 },
        CalibrationPattern::WarmWhite => RgbColor { r: 255, g: 180, b: 107 },
        CalibrationPattern::DaylightWhite => RgbColor { r: 255, g: 255, b: 255 },
        CalibrationPattern::Quadrants => if region.top {
            RgbColor { r: 255, g: 0, b: 0 }
        } else if region.right {
            RgbColor { r: 0, g: 255, b: 0 }
        } else if region.bottom {
            RgbColor { r: 0, g: 0, b: 255 }
        } else {
            RgbColor { r: 255, g: 255, b: 0 }
        },
        CalibrationPattern::Perimeter => RgbColor { r: 255, g: 255, b: 255 },
    }
}

pub fn calibration_color(pattern: CalibrationPattern, region: ScreenRegion) -> (color: RgbColor)
    ensures
        color == shown(pattern, region),
{
    match pattern {
        CalibrationPattern::Red => RgbColor::new(255, 0, 0),
        CalibrationPattern::Green => RgbColor::new(0, 255, 0),
        CalibrationPattern::Blue => RgbColor::new(0, 0, 255),
        CalibrationPattern::White => RgbColor::new(255, 255, 255),
        CalibrationPattern::WarmWhite => RgbColor::new(255, 180, 107),
        CalibrationPattern::DaylightWhite => RgbColor::new(255, 255, 255),
        CalibrationPattern::Quadrants => {
            if region.top {
                RgbColor::new(255, 0, 0)
            } else if region.right {
                RgbColor::new(0, 255, 0)
            } else if region.bottom {
                RgbColor::new(0, 0, 255)
            } else {
                RgbColor::new(255, 255, 0)
            }
        },
        CalibrationPattern::Perimeter => RgbColor::new(255, 255, 255),
    }
}

/// The pattern's colour for each zone, by channel. `centers[i]` is the region
/// in which the centre of `zones[i]` lies.
pub fn calibration_zone_colors(
    pattern: CalibrationPattern,
    zones: &[LightZone],
    centers: &[ScreenRegion],
) -> (colors: Vec<(u8, RgbColor)>)
    requires
        centers@.len() == zones@.len(),
    ensures
        colors@ == Seq::new(
            zones@.len(),
            |i: int| (zones@[i].channel_id, shown(pattern, centers@[i])),
        ),
{
    let mut colors: Vec<(u8, RgbColor)> = Vec::new();
    for i in 0..zones.len()
        invariant
            centers@.len() == zones@.len(),
            colors@ == Seq::new(
                i as nat,
                |k: int| (zones@[k].channel_id, shown(pattern, centers@[k])),
            ),
    {
        colors.push((zones[i].channel_id, calibration_color(pattern, centers[i])));
    }
    colors
}

/// The spacing of single-precision numbers at `n`: the power of two that leaves
/// `n` with 24 significant bits.
pub open spec fn single_spacing(n: nat) -> nat
    decreases n,
{
    if n < 0x100_0000 {
        1
    } else {
        2 * single_spacing(n / 2)
    }
}

/// The single-precision number nearest to `n`, the even one of two.
pub open spec fn nearest_single(n: nat) -> nat {
    let spacing = single_spacing(n);
    let below = n / spacing;
    let rest = n % spacing;
    if 2 * rest < spacing || (2 * rest == spacing && below % 2 == 0) {
        below * spacing
    } else {
        (below + 1) * spacing
    }
}

/// Whether `index / count`, divided in single precision, exceeds the
/// single-precision number 0.66, which is 11072963 / 2^24. The quotient rounds
/// to a larger number from the midpoint to the next one on, 22145927 / 2^25.
pub open spec fn beyond_two_thirds(index: nat, count: nat) -> bool {
    nearest_single(index) * 0x200_0000 >= 22145927 * nearest_single(
        if count == 0 {
            1
        } else {
            count
        },
    )
}

proof fn lemma_spacing_positive(n: nat)
    ensures
        single_spacing(n) >= 1,
        n >= 1 ==> single_spacing(n) <= n,
    decreases n,
{
    if n >= 0x100_0000 {
        lemma_spacing_positive(n / 2);
    }
}

fn round_to_single(n: usize) -> (rounded: u128)
    ensures
        rounded == nearest_single(n as nat),
        rounded <= 2 * n,
{
    let mut spacing: u128 = 1;
    let mut scaled: u128 = n as u128;
    while scaled >= 0x100_0000
        invariant
            spacing >= 1,
            spacing * scaled <= n,
            spacing * single_spacing(scaled as nat) == single_spacing(n as nat),
        decreases scaled,
    {
        proof {
            let half = scaled as int / 2;
            assert(spacing * 2 * half <= spacing * scaled) by (nonlinear_arith)
                requires
                    2 * half <= scaled,
                    spacing >= 1,
            ;
            assert(spacing * 2 <= spacing * scaled) by (nonlinear_arith)
                requires
                    scaled >= 2,
                    spacing >= 1,
            ;
            let inner = single_spacing((scaled / 2) as nat);
            assert(spacing * (2 * inner) == (spacing * 2) * inner) by (nonlinear_arith);
        }
        scaled = scaled / 2;
        spacing = spacing * 2;
    }
    proof {
        lemma_spacing_positive(n as nat);
        assert(single_spacing(scaled as nat) == 1);
        assert(spacing * 1 == spacing);
    }
    let below: u128 = n as u128 / spacing;
    let rest: u128 = n as u128 % spacing;
    proof {
        let s = spacing as int;
        let b = below as int;
        assert(n as int == s * b + rest) by {
            vstd::arithmetic::div_mod::lemma_fundamental_div_mod(n as int, s);
        }
        assert(b * s == s * b) by (nonlinear_arith);
        assert((b + 1) * s == s * b + s) by (nonlinear_arith);
        assert(rest < spacing);
        assert(b * s <= n);
        if n == 0 {
            assert(b == 0) by (nonlinear_arith)
                requires
                    s >= 1,
                    s * b + rest == 0,
                    rest >= 0,
                    b >= 0,
            ;
        }
    }
    if 2 * rest < spacing || (2 * rest == spacing && below % 2 == 0) {
        below * spacing
    } else {
        (below + 1) * spacing
    }
}

/// The region of segment `index` of a perimeter with `count` segments. A 4D
/// strip has 40 segments, and its edges are known; any other strip is spread
/// over the middle of the screen from left to right.
pub open spec fn segment_region(index: nat, count: nat) -> ScreenRegion {
    if count == 40 {
        if 16 <= index <= 28 {
            ScreenRegion { top: true, right: false, bottom: false }
        } else if 29 <= index <= 35 {
            ScreenRegion { top: false, right: true, bottom: false }
        } else if index <= 7 || index >= 36 {
            ScreenRegion { top: false, right: false, bottom: true }
        } else {
            ScreenRegion { top: false, right: false, bottom: false }
        }
    } else {
        ScreenRegion { top: false, right: beyond_two_thirds(index, count), bottom: false }
    }
}

fn region_of_segment(index: usize, count: usize) -> (region: ScreenRegion)
    ensures
        region == segment_region(index as nat, count as nat),
{
    if count == 40 {
        if 16 <= index && index <= 28 {
            ScreenRegion { top: true, right: false, bottom: false }
        } else if 29 <= index && index <= 35 {
            ScreenRegion { top: false, right: true, bottom: false }
        } else if index <= 7 || index >= 36 {
            ScreenRegion { top: false, right: false, bottom: true }
        } else {
            ScreenRegion { top: false, right: false, bottom: false }
        }
    } else {
        let divisor: usize = if count == 0 {
            1
        } else {
            count
        };
        let right = round_to_single(index) * 0x200_0000 >= 22145927 * round_to_single(divisor);
        ScreenRegion { top: false, right, bottom: false }
    }
}

/// Segment `index` of a pattern on a perimeter: the tracer lights one segment
/// and leaves the others dark.
pub open spec fn segment_color(
    pattern: CalibrationPattern,
    index: nat,
    count: nat,
    active_segment: nat,
) -> RgbColor {
    if pattern == CalibrationPattern::Perimeter {
        if index == active_segment {
            RgbColor { r: 255, g: 255, b: 255 }
        } else {
            RgbColor { r: 0, g: 0, b: 0 }
        }
    } else {
        shown(pattern, segment_region(index, count))
    }
}

/// The segment that the tracer lights at a time of day, which moves on every
/// 150 milliseconds. `since_epoch` is in milliseconds, and absent where the
/// clock is set before the epoch.
pub fn active_segment(since_epoch: Option<u128>, count: usize) -> (segment: usize)
    ensures
        segment == (match since_epoch {
            Some(millis) => ((millis / 150) as usize) % if count == 0 {
                1
            } else {
                count
            },
            None => 0,
        }),
{
    match since_epoch {
        Some(millis) => {
            let step: usize = (millis / 150) as usize;
            let divisor: usize = if count == 0 {
                1
            } else {
                count
            };
            step % divisor
        },
        None => 0,
    }
}

/// The pattern's colours for a perimeter of `count` segments.
pub fn calibration_perimeter_colors(
    pattern: CalibrationPattern,
    count: usize,
    active_segment: usize,
) -> (colors: Vec<RgbColor>)
    ensures
        colors@ == Seq::new(
            count as nat,
            |i: int| segment_color(pattern, i as nat, count as nat, active_segment as nat),
        ),
{
    let mut colors: Vec<RgbColor> = Vec::new();
    for index in 0..count
        invariant
            colors@ == Seq::new(
                index as nat,
                |i: int| segment_color(pattern, i as nat, count as nat, active_segment as nat),
            ),
    {
        if pattern == CalibrationPattern::Perimeter {
            if index == active_segment {
                colors.push(RgbColor::new(255, 255, 255));
            } else {
                colors.push(RgbColor::new(0, 0, 0));
            }
        } else {
            colors.push(calibration_color(pattern, region_of_segment(index, count)));
        }
    }
    colors
}

/// The tracer lights exactly one segment, the active one.
pub proof fn tracer_lights_one_segment(count: nat, active_segment: nat, index: nat)
    requires
        active_segment < count,
        index < count,
    ensures
        segment_color(CalibrationPattern::Perimeter, index, count, active_segment)
            != crate::color::black() <==> index == active_segment,
{
}

/// Every pattern is asked for by the name that it is shown under, and by no other;
/// "off" asks for none, and any other text is no request.
pub proof fn a_pattern_answers_to_its_name(
    pattern: CalibrationPattern,
    name: &'static str,
    value: &str,
    parsed: Option<Option<CalibrationPattern>>,
)
    requires
        call_ensures(CalibrationPattern::name, (pattern,), name),
        call_ensures(CalibrationPattern::parse, (value,), parsed),
    ensures
        value@ == name@ <==> parsed == Some(Some(pattern)),
        value@ == "off"@ <==> parsed == Some(None::<CalibrationPattern>),
        value@ == "red"@ ==> parsed == Some(Some(CalibrationPattern::Red)),
        value@ == "green"@ ==> parsed == Some(Some(CalibrationPattern::Green)),
        value@ == "blue"@ ==> parsed == Some(Some(CalibrationPattern::Blue)),
        value@ == "white"@ ==> parsed == Some(Some(CalibrationPattern::White)),
        value@ == "warm-white"@ ==> parsed == Some(Some(CalibrationPattern::WarmWhite)),
        value@ == "daylight-white"@ ==> parsed == Some(Some(CalibrationPattern::DaylightWhite)),
        value@ == "quadrants"@ ==> parsed == Some(Some(CalibrationPattern::Quadrants)),
        value@ == "perimeter"@ ==> parsed == Some(Some(CalibrationPattern::Perimeter)),
{
    reveal_names();
}

/// A plain pattern shows its own colour in every part of the screen. The quadrants
/// are red above, green on the right, blue below and yellow elsewhere, in this
/// order.
pub proof fn patterns_show_their_colours(
    pattern: CalibrationPattern,
    region: ScreenRegion,
    color: RgbColor,
)
    requires
        call_ensures(calibration_color, (pattern, region), color),
    ensures
        pattern is Red ==> (color.r, color.g, color.b) == (255u8, 0u8, 0u8),
        pattern is Green ==> (color.r, color.g, color.b) == (0u8, 255u8, 0u8),
        pattern is Blue ==> (color.r, color.g, color.b) == (0u8, 0u8, 255u8),
        pattern is White || pattern is DaylightWhite || pattern is Perimeter ==> (
            color.r,
            color.g,
            color.b,
        ) == (255u8, 255u8, 255u8),
        pattern is WarmWhite ==> (color.r, color.g, color.b) == (255u8, 180u8, 107u8),
        pattern is Quadrants && region.top ==> (color.r, color.g, color.b) == (255u8, 0u8, 0u8),
        pattern is Quadrants && !region.top && region.right ==> (color.r, color.g, color.b) == (
            0u8,
            255u8,
            0u8,
        ),
        pattern is Quadrants && !region.top && !region.right && region.bottom ==> (
            color.r,
            color.g,
            color.b,
        ) == (0u8, 0u8, 255u8),
        pattern is Quadrants && !region.top && !region.right && !region.bottom ==> (
            color.r,
            color.g,
            color.b,
        ) == (255u8, 255u8, 0u8),
{
}

/// Each zone shows, under its own channel, what its own part of the screen shows.
pub proof fn zones_show_their_part_of_a_pattern(
    pattern: CalibrationPattern,
    zones: &[LightZone],
    centers: &[ScreenRegion],
    colors: Vec<(u8, RgbColor)>,
    i: int,
    color: RgbColor,
)
    requires
        call_ensures(calibration_zone_colors, (pattern, zones, centers), colors),
        0 <= i < zones@.len(),
        call_ensures(calibration_color, (pattern, centers@[i]), color),
    ensures
        colors@.len() == zones@.len(),
        colors@[i].0 == zones@[i].channel_id,
        colors@[i].1 == color,
{
}

/// Around the screen a pattern shows on each segment what it shows on that side:
/// on a 4D strip the top is segments 16 to 28, the right 29 to 35, the bottom 36
/// to 39 and 0 to 7, and the left the rest; on any other strip the segments
/// beyond 0.66 of it lie on the right, and none above or below. The tracer lights
/// the active segment alone.
pub proof fn segments_show_their_side_of_a_pattern(
    pattern: CalibrationPattern,
    count: usize,
    active_segment: usize,
    colors: Vec<RgbColor>,
    i: int,
    region: ScreenRegion,
    color: RgbColor,
)
    requires
        call_ensures(calibration_perimeter_colors, (pattern, count, active_segment), colors),
        0 <= i < count <= 65535,
        count == 40 ==> region.top == (16 <= i <= 28) && region.right == (29 <= i <= 35)
            && region.bottom == (i <= 7 || i >= 36),
        count != 40 ==> !region.top && !region.bottom && region.right == (100 * i > 66 * count),
        call_ensures(calibration_color, (pattern, region), color),
    ensures
        colors@.len() == count,
        !(pattern is Perimeter) ==> colors@[i] == color,
        pattern is Perimeter ==> (colors@[i].r, colors@[i].g, colors@[i].b) == (if i
            == active_segment {
            (255u8, 255u8, 255u8)
        } else {
            (0u8, 0u8, 0u8)
        }),
{
    assert(single_spacing(i as nat) == 1);
    assert(single_spacing(count as nat) == 1);
    assert(nearest_single(i as nat) == i);
    assert(nearest_single(count as nat) == count);
}

/// The tracer goes round: it stays on a segment for 150 milliseconds, then goes on
/// to the next, and from the last to the first.
pub proof fn the_tracer_goes_round(
    millis: u128,
    later: u128,
    count: usize,
    segment: usize,
    later_segment: usize,
    unknown: usize,
)
    requires
        call_ensures(active_segment, (Some(millis), count), segment),
        call_ensures(active_segment, (Some(later), count), later_segment),
        call_ensures(active_segment, (None::<u128>, count), unknown),
        count > 0,
        later < 150 * 0xffff_ffff,
    ensures
        unknown == 0,
        later / 150 == millis / 150 ==> later_segment == segment,
        millis / 150 == 0 ==> segment == 0,
        later / 150 == millis / 150 + 1 ==> later_segment == (if segment + 1 == count {
            0
        } else {
            segment + 1
        }),
{
    let n = count as int;
    let step = millis as int / 150;
    let next = later as int / 150;
    if next == step + 1 || next == step {
        assert(((millis / 150) as usize) as int == step);
        assert(((later / 150) as usize) as int == next);
        vstd::arithmetic::div_mod::lemma_fundamental_div_mod(step, n);
        let q = step / n;
        let r = step % n;
        assert(q * n == n * q) by (nonlinear_arith);
        if r + 1 == n {
            assert((q + 1) * n == q * n + n) by (nonlinear_arith);
            vstd::arithmetic::div_mod::lemma_fundamental_div_mod_converse(step + 1, n, q + 1, 0);
        } else {
            vstd::arithmetic::div_mod::lemma_fundamental_div_mod_converse(step + 1, n, q, r + 1);
        }
    }
    if millis / 150 == 0 {
        assert(((millis / 150) as usize) as int == 0);
        vstd::arithmetic::div_mod::lemma_small_mod(0, n as nat);
    }
}

/// On a strip other than a 4D strip, the segments that lie on the right are those whose
/// place on it, as a single-precision number, is beyond 0.66: from half a step beyond
/// the single-precision number nearest to 0.66 on.
pub proof fn the_right_begins_at_two_thirds(
    count: usize,
    active_segment: usize,
    colors: Vec<RgbColor>,
    i: int,
)
    requires
        call_ensures(
            calibration_perimeter_colors,
            (CalibrationPattern::Quadrants, count, active_segment),
            colors,
        ),
        0 <= i < count < 0x100_0000,
        count != 40,
    ensures
        i * 0x200_0000 - count * 2 * 11072963 >= count ==> (colors@[i].r, colors@[i].g, colors@[i].b)
            == (0u8, 255u8, 0u8),
        i * 0x200_0000 - count * 2 * 11072963 < count ==> (colors@[i].r, colors@[i].g, colors@[i].b)
            == (255u8, 255u8, 0u8),
        100 * i <= 66 * count ==> (colors@[i].r, colors@[i].g, colors@[i].b) == (
            255u8,
            255u8,
            0u8,
        ),
{
    assert(single_spacing(i as nat) == 1);
    assert(single_spacing(count as nat) == 1);
    assert(nearest_single(i as nat) == i);
    assert(nearest_single(count as nat) == count);
}

} // verus!
