//! Values that the display takes: enumerations, colours, brushes and pictures,
//! and the list of fields that the controller can set.

use vstd::prelude::*;

verus! {

/// State of the network link as the display shows it.
#[allow(non_camel_case_types)]
#[derive(Clone, Copy, Debug, PartialEq, Eq, Structural)]
pub enum WifiState {
    STARTING,
    LINKUP,
    OK,
}

/// Coarse class of the time of day.
#[allow(non_camel_case_types)]
#[derive(Clone, Copy, Debug, PartialEq, Eq, Structural)]
pub enum TimeOfDay {
    NIGHT,
    TWILIGHT,
    DAY,
}

/// Where the monster is.
#[allow(non_camel_case_types)]
#[derive(Clone, Copy, Debug, PartialEq, Eq, Structural)]
pub enum MonsterEnv {
    OUTSIDE,
    HOUSE,
    SLEEPING,
}

/// Place of the monster on the screen, in pixels, and its surroundings.
#[derive(Clone, Copy, Debug, PartialEq, Eq, Structural)]
pub struct MonsterPosition {
    pub env: MonsterEnv,
    pub x: i32,
    pub y: i32,
}

/// An opaque colour by its red, green and blue parts.
#[derive(Clone, Copy, Debug, PartialEq, Eq, Structural)]
pub struct Rgb {
    pub red: u8,
    pub green: u8,
    pub blue: u8,
}

/// A colour between two others. The weight of `upper` is the fraction
/// `numerator / denominator`, taken as 0 below 0 and as 1 above 1; `lower` has
/// the rest. The denominator is never 0.
#[derive(Clone, Copy, Debug, PartialEq, Eq, Structural)]
pub struct ColorMix {
    pub lower: Rgb,
    pub upper: Rgb,
    pub numerator: i64,
    pub denominator: i64,
}

/// One stop of a gradient: a colour and its place along the gradient line, in
/// percent.
#[derive(Clone, Copy, Debug, PartialEq, Eq, Structural)]
pub struct GradientStop {
    pub color: ColorMix,
    pub position: u8,
}

/// A linear gradient of two stops. The angle is in millionths of a degree.
#[derive(Clone, Copy, Debug, PartialEq, Eq, Structural)]
pub struct LinearGradientBrush {
    pub angle: i64,
    pub first: GradientStop,
    pub second: GradientStop,
}

/// A circle, in millionths of a pixel.
#[derive(Clone, Copy, Debug, PartialEq, Eq, Structural)]
pub struct Circle {
    pub x: i64,
    pub y: i64,
    pub radius: i64,
}

/// The picture of the moon as shapes: a square canvas of `size` pixels, a disc
/// filled with `color` where the `shadow` circle, turned by `rotation` degrees
/// about the centre of the canvas, does not cover it.
#[derive(Clone, Copy, Debug, PartialEq, Eq, Structural)]
pub struct MoonImage {
    pub size: u32,
    pub color: Rgb,
    pub disc: Circle,
    pub shadow: Circle,
    pub rotation: i32,
}

/// One assignment to a field of the display.
#[derive(Clone, Copy, Debug, PartialEq, Eq, Structural)]
pub enum UiUpdate {
    /// The state of the network link.
    WifiState(WifiState),
    /// The current time, in seconds since the epoch.
    CurrentTime(i64),
    /// The instant at which the countdown ends, in seconds since the epoch.
    Countdown(i64),
    /// The length of the countdown in seconds.
    CountdownTotalDuration(u8),
    /// Whether the monster shows.
    MonsterVisibility(bool),
    /// The class of the time of day.
    TimeOfDay(TimeOfDay),
    /// How far into the night the sky is, in millionths.
    NightFactor(u32),
    /// The brush that paints the sky.
    SkyBrush(LinearGradientBrush),
    /// Where the monster is.
    MonsterPosition(MonsterPosition),
    /// The picture of the moon.
    Moon(MoonImage),
}

} // verus!
