//! Colours as they travel to the lights.
use vstd::prelude::*;

verus! {

/// An RGB colour with eight bits per component.
#[derive(Debug, Clone, Copy, PartialEq, Eq, Structural)]
pub struct RgbColor {
    pub r: u8,
    pub g: u8,
    pub b: u8,
}

impl RgbColor {
    pub fn new(r: u8, g: u8, b: u8) -> (color: Self)
        ensures
            color == (RgbColor { r, g, b }),
    {
        RgbColor { r, g, b }
    }
}

/// The colour of a light that is off.
pub open spec fn black() -> RgbColor {
    RgbColor { r: 0, g: 0, b: 0 }
}

/// A frame in which every one of `count` lights is off.
pub fn black_frame(count: usize) -> (colors: Vec<RgbColor>)
    ensures
        colors@ == Seq::new(count as nat, |i: int| black()),
{
    let mut colors: Vec<RgbColor> = Vec::new();
    for i in 0..count
        invariant
            colors@ == Seq::new(i as nat, |k: int| black()),
    {
        colors.push(RgbColor::new(0, 0, 0));
    }
    colors
}

/// A copy of `colors`.
pub fn copy_colors(colors: &[RgbColor]) -> (copy: Vec<RgbColor>)
    ensures
        copy@ == colors@,
{
    let mut copy: Vec<RgbColor> = Vec::new();
    for i in 0..colors.len()
        invariant
            copy@ == colors@.take(i as int),
    {
        copy.push(colors[i]);
    }
    copy
}

/// A copy of `channels`, each an id and its colour.
pub fn copy_channels(channels: &[(u8, RgbColor)]) -> (copy: Vec<(u8, RgbColor)>)
    ensures
        copy@ == channels@,
{
    let mut copy: Vec<(u8, RgbColor)> = Vec::new();
    for i in 0..channels.len()
        invariant
            copy@ == channels@.take(i as int),
    {
        copy.push(channels[i]);
    }
    copy
}

/// In a black frame every light is off.
pub proof fn a_black_frame_is_dark(count: usize, colors: Vec<RgbColor>, i: int)
    requires
        call_ensures(black_frame, (count,), colors),
        0 <= i < count,
    ensures
        colors@.len() == count,
        colors@[i].r == 0 && colors@[i].g == 0 && colors@[i].b == 0,
{
}

/// A colour has the components that it was made with, and a copy has the colours
/// of what it was made from.
pub proof fn colours_are_kept(
    r: u8,
    g: u8,
    b: u8,
    color: RgbColor,
    colors: &[RgbColor],
    copy: Vec<RgbColor>,
    channels: &[(u8, RgbColor)],
    channel_copy: Vec<(u8, RgbColor)>,
)
    requires
        call_ensures(RgbColor::new, (r, g, b), color),
        call_ensures(copy_colors, (colors,), copy),
        call_ensures(copy_channels, (channels,), channel_copy),
    ensures
        (color.r, color.g, color.b) == (r, g, b),
        copy@ == colors@,
        channel_copy@ == channels@,
{
}

} // verus!
