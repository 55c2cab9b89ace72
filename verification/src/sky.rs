//! The colour of the sky for a position of the sun: a table of bands of solar
//! elevation that follow each other without a gap through the day, the search
//! for the band in force, and the blend between it and its neighbour. Angles
//! are in millionths of a degree.

use crate::ui::{ColorMix, GradientStop, LinearGradientBrush, Rgb, TimeOfDay};
use vstd::prelude::*;

verus! {

/// One degree, in the unit of every angle here.
pub const DEGREE: i64 = 1_000_000;

/// Number of bands in the table of the sky.
pub const SKY_LEN: usize = 22;

/// Index of the last band of the rising sun.
pub const LAST_MORNING_BAND: usize = 10;

/// Index of the first band of the sinking sun.
pub const FIRST_AFTERNOON_BAND: usize = 11;

/// Lowest elevation that the table covers.
pub const MIN_ELEVATION: i64 = -270_000_000;

/// Highest elevation that the sun can have.
pub const MAX_ELEVATION: i64 = 90_000_000;

/// Elevation from which on the night factor is 0.
pub const DAY_ELEVATION: i64 = 500_000;

/// Elevation from which down the night factor is 1000000.
pub const NIGHT_ELEVATION: i64 = -8_000_000;

/// The night factor of full night: the unit of fractions in millionths.
pub const MILLION: i64 = 1_000_000;

/// Place of the first stop of the sky's gradient, in percent.
pub const FIRST_STOP: u8 = 30;

/// Place of the second stop of the sky's gradient, in percent.
pub const SECOND_STOP: u8 = 70;

/// The colours of one band: two ends, and a middle colour with its place in
/// percent.
#[derive(Clone, Copy, Debug, PartialEq, Eq, Structural)]
pub struct Gradient {
    pub start: Rgb,
    pub step: Rgb,
    pub step_position: u8,
    pub end: Rgb,
}

/// The part of the day that a band belongs to.
#[allow(non_camel_case_types)]
#[derive(Clone, Copy, Debug, PartialEq, Eq, Structural)]
pub enum SkyMoment {
    NIGHT,
    DAWN,
    SUNRISE,
    MORNING,
    AFTERNOON,
    SUNSET,
    DUSK,
}

/// The name of a part of the day.
pub open spec fn moment_name(moment: SkyMoment) -> &'static str {
    match moment {
        SkyMoment::NIGHT => "SkyMoment::NIGHT",
        SkyMoment::DAWN => "SkyMoment::DAWN",
        SkyMoment::SUNRISE => "SkyMoment::SUNRISE",
        SkyMoment::MORNING => "SkyMoment::MORNING",
        SkyMoment::AFTERNOON => "SkyMoment::AFTERNOON",
        SkyMoment::SUNSET => "SkyMoment::SUNSET",
        SkyMoment::DUSK => "SkyMoment::DUSK",
    }
}

impl SkyMoment {
    /// The name of the part of the day, as it is written in messages.
    pub fn name(&self) -> (name: &'static str)
        ensures
            name == moment_name(*self),
    {
        match self {
            SkyMoment::NIGHT => "SkyMoment::NIGHT",
            SkyMoment::DAWN => "SkyMoment::DAWN",
            SkyMoment::SUNRISE => "SkyMoment::SUNRISE",
            SkyMoment::MORNING => "SkyMoment::MORNING",
            SkyMoment::AFTERNOON => "SkyMoment::AFTERNOON",
            SkyMoment::SUNSET => "SkyMoment::SUNSET",
            SkyMoment::DUSK => "SkyMoment::DUSK",
        }
    }

    /// The name of the part of the day as an owned text.
    pub fn to_string(&self) -> (text: String)
        ensures
            text@ == moment_name(*self)@,
    {
        self.name().to_owned()
    }
}

/// One band of the table: the elevation at which it starts and ends as the day
/// goes by, its colours and its part of the day.
#[derive(Clone, Copy, Debug, PartialEq, Eq, Structural)]
pub struct Sky {
    pub gradient: Gradient,
    pub moment: SkyMoment,
    pub start_angle: i64,
    pub end_angle: i64,
}

/// The band with the given colours, part of the day and angles.
pub open spec fn band(
    r1: u8,
    g1: u8,
    b1: u8,
    rs: u8,
    gs: u8,
    bs: u8,
    at: u8,
    r2: u8,
    g2: u8,
    b2: u8,
    moment: SkyMoment,
    start_angle: i64,
    end_angle: i64,
) -> Sky {
    Sky {
        gradient: Gradient {
            start: Rgb { red: r1, green: g1, blue: b1 },
            step: Rgb { red: rs, green: gs, blue: bs },
            step_position: at,
            end: Rgb { red: r2, green: g2, blue: b2 },
        },
        moment,
        start_angle,
        end_angle,
    }
}

/// The table of the sky, in the order of the day: bands 0 to 10 for the rising
/// sun, 11 to 21 for the sinking sun.
pub open spec fn sky_table(i: int) -> Sky {
    if i == 0 {
        band(0x0C, 0x0A, 0x18, 0x0C, 0x0A, 0x18, 1, 0x02, 0x01, 0x11, SkyMoment::NIGHT, -270_000_000i64, -10_000_000i64)
    } else if i == 1 {
        band(0x1E, 0x1E, 0x2A, 0x10, 0x10, 0x1E, 10, 0x02, 0x01, 0x11, SkyMoment::DAWN, -10_000_000i64, -8_000_000i64)
    } else if i == 2 {
        band(0x3A, 0x3A, 0x52, 0x31, 0x31, 0x47, 10, 0x02, 0x01, 0x11, SkyMoment::DAWN, -8_000_000i64, -6_000_000i64)
    } else if i == 3 {
        band(0x50, 0x50, 0x74, 0x2A, 0x2A, 0x3A, 90, 0x23, 0x23, 0x31, SkyMoment::DAWN, -6_000_000i64, -4_000_000i64)
    } else if i == 4 {
        band(0x8A, 0x76, 0xAB, 0x6C, 0x6E, 0xA6, 20, 0x44, 0x44, 0x63, SkyMoment::DAWN, -4_000_000i64, -2_000_000i64)
    } else if i == 5 {
        band(0xCD, 0x82, 0xA0, 0x70, 0x71, 0xAA, 50, 0x50, 0x4F, 0x73, SkyMoment::DAWN, -2_000_000i64, 0i64)
    } else if i == 6 {
        band(0xE5, 0xAE, 0xD0, 0x89, 0x85, 0xBF, 30, 0x77, 0x7B, 0xBF, SkyMoment::SUNRISE, 0i64, 2_000_000i64)
    } else if i == 7 {
        band(0xEB, 0xB2, 0xB1, 0xBD, 0xB0, 0xC3, 40, 0x8A, 0xAD, 0xD8, SkyMoment::SUNRISE, 2_000_000i64, 4_000_000i64)
    } else if i == 8 {
        band(0xB0, 0xB7, 0xEB, 0xA6, 0xE3, 0xFE, 30, 0x95, 0xC7, 0xF8, SkyMoment::SUNRISE, 4_000_000i64, 6_000_000i64)
    } else if i == 9 {
        band(0x94, 0xDF, 0xFF, 0xAA, 0xE6, 0xFF, 80, 0xB4, 0xE9, 0xFF, SkyMoment::MORNING, 6_000_000i64, 20_000_000i64)
    } else if i == 10 {
        band(0x67, 0xD1, 0xFB, 0x92, 0xDF, 0xFD, 90, 0x9B, 0xE2, 0xFE, SkyMoment::MORNING, 20_000_000i64, 80_000_000i64)
    } else if i == 11 {
        band(0x1E, 0x52, 0x8E, 0x2A, 0x84, 0xB8, 90, 0x2B, 0x8B, 0xBD, SkyMoment::AFTERNOON, 80_000_000i64, 1_500_000i64)
    } else if i == 12 {
        band(0x5B, 0x79, 0x83, 0x1F, 0x53, 0x8E, 30, 0x23, 0x6F, 0xA7, SkyMoment::SUNSET, 1_500_000i64, 1_000_000i64)
    } else if i == 13 {
        band(0x9D, 0xA6, 0x71, 0x2A, 0x5B, 0x88, 50, 0x1F, 0x52, 0x8E, SkyMoment::SUNSET, 1_000_000i64, 0i64)
    } else if i == 14 {
        band(0xE9, 0xCE, 0x5D, 0x79, 0x8E, 0x7A, 50, 0x2B, 0x5A, 0x8B, SkyMoment::SUNSET, 0i64, -4_000_000i64)
    } else if i == 15 {
        band(0xB2, 0x63, 0x39, 0xD5, 0xBC, 0x60, 30, 0x26, 0x4D, 0x75, SkyMoment::SUNSET, -4_000_000i64, -4_500_000i64)
    } else if i == 16 {
        band(0x49, 0x1C, 0x09, 0xBE, 0x73, 0x2E, 30, 0x25, 0x41, 0x4F, SkyMoment::DUSK, -4_500_000i64, -5_000_000i64)
    } else if i == 17 {
        band(0x34, 0x15, 0x05, 0x7F, 0x38, 0x14, 20, 0x07, 0x1B, 0x26, SkyMoment::DUSK, -5_000_000i64, -5_500_000i64)
    } else if i == 18 {
        band(0x38, 0x15, 0x08, 0x52, 0x21, 0x0B, 20, 0x01, 0x0A, 0x10, SkyMoment::DUSK, -5_500_000i64, -6_000_000i64)
    } else if i == 19 {
        band(0x4A, 0x1D, 0x06, 0x3D, 0x18, 0x05, 10, 0x09, 0x04, 0x01, SkyMoment::DUSK, -6_000_000i64, -6_500_000i64)
    } else if i == 20 {
        band(0x0C, 0x0A, 0x18, 0x0C, 0x0A, 0x18, 1, 0x02, 0x01, 0x11, SkyMoment::DUSK, -6_500_000i64, -8_000_000i64)
    } else {
        band(0x0C, 0x0A, 0x18, 0x0C, 0x0A, 0x18, 1, 0x02, 0x01, 0x11, SkyMoment::NIGHT, -8_000_000i64, -270_000_000i64)
    }
}

impl Sky {
    fn band(
        r1: u8,
        g1: u8,
        b1: u8,
        rs: u8,
        gs: u8,
        bs: u8,
        at: u8,
        r2: u8,
        g2: u8,
        b2: u8,
        moment: SkyMoment,
        start_angle: i64,
        end_angle: i64,
    ) -> (s: Sky)
        ensures
            s == band(r1, g1, b1, rs, gs, bs, at, r2, g2, b2, moment, start_angle, end_angle),
    {
        Sky {
            gradient: Gradient {
                start: Rgb { red: r1, green: g1, blue: b1 },
                step: Rgb { red: rs, green: gs, blue: bs },
            step_position: at,
                end: Rgb { red: r2, green: g2, blue: b2 },
            },
            moment,
            start_angle,
            end_angle,
        }
    }
}

/// Band `i` of the table.
pub fn sky(i: usize) -> (s: Sky)
    requires
        i < SKY_LEN,
    ensures
        s == sky_table(i as int),
{
    if i == 0 {
        Sky::band(0x0C, 0x0A, 0x18, 0x0C, 0x0A, 0x18, 1, 0x02, 0x01, 0x11, SkyMoment::NIGHT, -270_000_000i64, -10_000_000i64)
    } else if i == 1 {
        Sky::band(0x1E, 0x1E, 0x2A, 0x10, 0x10, 0x1E, 10, 0x02, 0x01, 0x11, SkyMoment::DAWN, -10_000_000i64, -8_000_000i64)
    } else if i == 2 {
        Sky::band(0x3A, 0x3A, 0x52, 0x31, 0x31, 0x47, 10, 0x02, 0x01, 0x11, SkyMoment::DAWN, -8_000_000i64, -6_000_000i64)
    } else if i == 3 {
        Sky::band(0x50, 0x50, 0x74, 0x2A, 0x2A, 0x3A, 90, 0x23, 0x23, 0x31, SkyMoment::DAWN, -6_000_000i64, -4_000_000i64)
    } else if i == 4 {
        Sky::band(0x8A, 0x76, 0xAB, 0x6C, 0x6E, 0xA6, 20, 0x44, 0x44, 0x63, SkyMoment::DAWN, -4_000_000i64, -2_000_000i64)
    } else if i == 5 {
        Sky::band(0xCD, 0x82, 0xA0, 0x70, 0x71, 0xAA, 50, 0x50, 0x4F, 0x73, SkyMoment::DAWN, -2_000_000i64, 0i64)
    } else if i == 6 {
        Sky::band(0xE5, 0xAE, 0xD0, 0x89, 0x85, 0xBF, 30, 0x77, 0x7B, 0xBF, SkyMoment::SUNRISE, 0i64, 2_000_000i64)
    } else if i == 7 {
        Sky::band(0xEB, 0xB2, 0xB1, 0xBD, 0xB0, 0xC3, 40, 0x8A, 0xAD, 0xD8, SkyMoment::SUNRISE, 2_000_000i64, 4_000_000i64)
    } else if i == 8 {
        Sky::band(0xB0, 0xB7, 0xEB, 0xA6, 0xE3, 0xFE, 30, 0x95, 0xC7, 0xF8, SkyMoment::SUNRISE, 4_000_000i64, 6_000_000i64)
    } else if i == 9 {
        Sky::band(0x94, 0xDF, 0xFF, 0xAA, 0xE6, 0xFF, 80, 0xB4, 0xE9, 0xFF, SkyMoment::MORNING, 6_000_000i64, 20_000_000i64)
    } else if i == 10 {
        Sky::band(0x67, 0xD1, 0xFB, 0x92, 0xDF, 0xFD, 90, 0x9B, 0xE2, 0xFE, SkyMoment::MORNING, 20_000_000i64, 80_000_000i64)
    } else if i == 11 {
        Sky::band(0x1E, 0x52, 0x8E, 0x2A, 0x84, 0xB8, 90, 0x2B, 0x8B, 0xBD, SkyMoment::AFTERNOON, 80_000_000i64, 1_500_000i64)
    } else if i == 12 {
        Sky::band(0x5B, 0x79, 0x83, 0x1F, 0x53, 0x8E, 30, 0x23, 0x6F, 0xA7, SkyMoment::SUNSET, 1_500_000i64, 1_000_000i64)
    } else if i == 13 {
        Sky::band(0x9D, 0xA6, 0x71, 0x2A, 0x5B, 0x88, 50, 0x1F, 0x52, 0x8E, SkyMoment::SUNSET, 1_000_000i64, 0i64)
    } else if i == 14 {
        Sky::band(0xE9, 0xCE, 0x5D, 0x79, 0x8E, 0x7A, 50, 0x2B, 0x5A, 0x8B, SkyMoment::SUNSET, 0i64, -4_000_000i64)
    } else if i == 15 {
        Sky::band(0xB2, 0x63, 0x39, 0xD5, 0xBC, 0x60, 30, 0x26, 0x4D, 0x75, SkyMoment::SUNSET, -4_000_000i64, -4_500_000i64)
    } else if i == 16 {
        Sky::band(0x49, 0x1C, 0x09, 0xBE, 0x73, 0x2E, 30, 0x25, 0x41, 0x4F, SkyMoment::DUSK, -4_500_000i64, -5_000_000i64)
    } else if i == 17 {
        Sky::band(0x34, 0x15, 0x05, 0x7F, 0x38, 0x14, 20, 0x07, 0x1B, 0x26, SkyMoment::DUSK, -5_000_000i64, -5_500_000i64)
    } else if i == 18 {
        Sky::band(0x38, 0x15, 0x08, 0x52, 0x21, 0x0B, 20, 0x01, 0x0A, 0x10, SkyMoment::DUSK, -5_500_000i64, -6_000_000i64)
    } else if i == 19 {
        Sky::band(0x4A, 0x1D, 0x06, 0x3D, 0x18, 0x05, 10, 0x09, 0x04, 0x01, SkyMoment::DUSK, -6_000_000i64, -6_500_000i64)
    } else if i == 20 {
        Sky::band(0x0C, 0x0A, 0x18, 0x0C, 0x0A, 0x18, 1, 0x02, 0x01, 0x11, SkyMoment::DUSK, -6_500_000i64, -8_000_000i64)
    } else {
        Sky::band(0x0C, 0x0A, 0x18, 0x0C, 0x0A, 0x18, 1, 0x02, 0x01, 0x11, SkyMoment::NIGHT, -8_000_000i64, -270_000_000i64)
    }
}

/// Where the sun stands: its angle from the zenith, 0 to 180 degrees, and its
/// azimuth, 0 to 360 degrees from north through east.
#[derive(Clone, Copy, Debug, PartialEq, Eq, Structural)]
pub struct SolarPosition {
    zenith_angle: i64,
    azimuth: i64,
}

/// Whether the two angles are those of a position of the sun.
pub open spec fn solar_angles_in_range(zenith_angle: int, azimuth: int) -> bool {
    0 <= zenith_angle <= 180 * DEGREE && 0 <= azimuth <= 360 * DEGREE
}

impl SolarPosition {
    /// Angle from the zenith.
    pub closed spec fn spec_zenith_angle(&self) -> i64 {
        self.zenith_angle
    }

    /// Azimuth.
    pub closed spec fn spec_azimuth(&self) -> i64 {
        self.azimuth
    }

    /// Elevation above the horizon: 90 degrees less the angle from the zenith.
    pub open spec fn spec_elevation(&self) -> i64 {
        (90 * DEGREE - self.spec_zenith_angle()) as i64
    }

    /// Whether the sun is past the meridian: azimuth above 180 degrees.
    pub open spec fn spec_is_afternoon(&self) -> bool {
        self.spec_azimuth() > 180 * DEGREE
    }

    /// Validity of a position: the range that every executable value keeps.
    #[verifier::type_invariant]
    pub open spec fn valid(self) -> bool {
        solar_angles_in_range(self.spec_zenith_angle() as int, self.spec_azimuth() as int)
    }

    /// The position with the given angles, or `None` when one of them is out of
    /// range.
    pub fn new(zenith_angle: i64, azimuth: i64) -> (r: Option<SolarPosition>)
        ensures
            r is Some <==> solar_angles_in_range(zenith_angle as int, azimuth as int),
            r matches Some(p) ==> p.spec_zenith_angle() == zenith_angle && p.spec_azimuth()
                == azimuth,
    {
        if 0 <= zenith_angle && zenith_angle <= 180 * DEGREE && 0 <= azimuth && azimuth <= 360
            * DEGREE {
            Some(SolarPosition { zenith_angle, azimuth })
        } else {
            None
        }
    }

    /// Angle from the zenith.
    #[verifier::when_used_as_spec(spec_zenith_angle)]
    pub fn zenith_angle(&self) -> (a: i64)
        ensures
            a == self.spec_zenith_angle(),
            0 <= a <= 180 * DEGREE,
    {
        proof {
            use_type_invariant(self);
        }
        self.zenith_angle
    }

    /// Azimuth.
    #[verifier::when_used_as_spec(spec_azimuth)]
    pub fn azimuth(&self) -> (a: i64)
        ensures
            a == self.spec_azimuth(),
            0 <= a <= 360 * DEGREE,
    {
        proof {
            use_type_invariant(self);
        }
        self.azimuth
    }

    /// Elevation above the horizon.
    #[verifier::when_used_as_spec(spec_elevation)]
    pub fn elevation(&self) -> (e: i64)
        ensures
            e == self.spec_elevation(),
            -90 * DEGREE <= e <= 90 * DEGREE,
    {
        90 * DEGREE - self.zenith_angle()
    }

    /// Whether the sun is past the meridian.
    #[verifier::when_used_as_spec(spec_is_afternoon)]
    pub fn is_afternoon(&self) -> (b: bool)
        ensures
            b == self.spec_is_afternoon(),
    {
        self.azimuth() > 180 * DEGREE
    }
}

/// Index of the first band from `from` on whose start angle exceeds
/// `elevation`, or the length of the table when there is none.
pub open spec fn first_start_above(elevation: int, from: int) -> int
    decreases SKY_LEN - from,
{
    if from >= SKY_LEN {
        SKY_LEN as int
    } else if sky_table(from).start_angle > elevation {
        from
    } else {
        first_start_above(elevation, from + 1)
    }
}

/// Index of the last band below `below` whose start angle exceeds `elevation`,
/// or -1 when there is none.
pub open spec fn last_start_above(elevation: int, below: int) -> int
    decreases below,
{
    if below <= 0 {
        -1
    } else if sky_table(below - 1).start_angle > elevation {
        below - 1
    } else {
        last_start_above(elevation, below - 1)
    }
}

/// The band in force at `elevation`. With the sun rising it is the band before
/// the first one, in the order of the table, that starts above the elevation;
/// with the sun sinking it is the first one, in the reverse order, that starts
/// above it. Where no band starts above the elevation, it is the highest band
/// of that side; where the first one does, it is that first band.
pub open spec fn band_of(elevation: int, afternoon: bool) -> int {
    if afternoon {
        let j = last_start_above(elevation, SKY_LEN as int);
        if j < 0 {
            FIRST_AFTERNOON_BAND as int
        } else {
            j
        }
    } else {
        let j = first_start_above(elevation, 0);
        if j >= SKY_LEN {
            LAST_MORNING_BAND as int
        } else if j == 0 {
            0
        } else {
            j - 1
        }
    }
}

/// Finds the band in force at `elevation` on the given side of the day.
pub fn find_band(elevation: i64, afternoon: bool) -> (idx: usize)
    ensures
        idx == band_of(elevation as int, afternoon),
        idx < SKY_LEN,
{
    if afternoon {
        let mut below: usize = SKY_LEN;
        while below > 0 && sky(below - 1).start_angle <= elevation
            invariant
                below <= SKY_LEN,
                last_start_above(elevation as int, SKY_LEN as int) == last_start_above(
                    elevation as int,
                    below as int,
                ),
            decreases below,
        {
            below -= 1;
        }
        if below == 0 {
            FIRST_AFTERNOON_BAND
        } else {
            below - 1
        }
    } else {
        let mut from: usize = 0;
        while from < SKY_LEN && sky(from).start_angle <= elevation
            invariant
                from <= SKY_LEN,
                first_start_above(elevation as int, 0) == first_start_above(
                    elevation as int,
                    from as int,
                ),
            decreases SKY_LEN - from,
        {
            from += 1;
        }
        if from >= SKY_LEN {
            LAST_MORNING_BAND
        } else if from == 0 {
            0
        } else {
            from - 1
        }
    }
}

/// Half of `x`, rounded toward zero.
pub open spec fn half(x: int) -> int {
    if x >= 0 {
        x / 2
    } else {
        -((-x) / 2)
    }
}

/// The angle in the middle of a band.
pub open spec fn middle_angle(s: Sky) -> int {
    s.start_angle + half(s.end_angle - s.start_angle)
}

impl Sky {
    /// The angle in the middle of the band.
    pub fn midle_angle(self) -> (m: i64)
        ensures
            m == middle_angle(self),
    {
        let d: i128 = self.end_angle as i128 - self.start_angle as i128;
        let h: i128 = if d >= 0 {
            d / 2
        } else {
            -((-d) / 2)
        };
        (self.start_angle as i128 + h) as i64
    }
}

/// Whether `elevation` lies in the first half of the band, in the direction in
/// which the band is passed through. A band without extent has no first half.
pub open spec fn before_middle(s: Sky, elevation: int) -> bool {
    if s.end_angle > s.start_angle {
        2 * (elevation - s.start_angle) < s.end_angle - s.start_angle
    } else if s.end_angle < s.start_angle {
        2 * (elevation - s.start_angle) > s.end_angle - s.start_angle
    } else {
        false
    }
}

/// The two bands between which the colour is blended, as (lower, upper): the
/// band in force and the one before it in the first half of the band, the band
/// in force and the one after it in the second half. At an end of the table,
/// where that neighbour is missing, both are the band in force.
pub open spec fn blend_bands(idx: int, elevation: int) -> (int, int) {
    if before_middle(sky_table(idx), elevation) {
        if idx <= 0 {
            (idx, idx)
        } else {
            (idx - 1, idx)
        }
    } else {
        if idx + 1 >= SKY_LEN {
            (idx, idx)
        } else {
            (idx, idx + 1)
        }
    }
}

/// Finds the two bands between which the colour is blended.
pub fn find_blend_bands(idx: usize, elevation: i64) -> (r: (usize, usize))
    requires
        idx < SKY_LEN,
    ensures
        (r.0 as int, r.1 as int) == blend_bands(idx as int, elevation as int),
        r.0 < SKY_LEN,
        r.1 < SKY_LEN,
{
    let s = sky(idx);
    let twice: i128 = 2 * (elevation as i128 - s.start_angle as i128);
    let extent: i128 = s.end_angle as i128 - s.start_angle as i128;
    let before: bool = if s.end_angle > s.start_angle {
        twice < extent
    } else if s.end_angle < s.start_angle {
        twice > extent
    } else {
        false
    };
    if before {
        if idx == 0 {
            (idx, idx)
        } else {
            (idx - 1, idx)
        }
    } else {
        if idx + 1 >= SKY_LEN {
            (idx, idx)
        } else {
            (idx, idx + 1)
        }
    }
}

/// The blend of two colours at `elevation` between the middles of two bands:
/// the weight of the upper colour is the part of the way from the middle of
/// the lower band to the middle of the upper band. Where the two middles
/// coincide the weight is 0.
pub open spec fn mix_between(
    lower: Sky,
    upper: Sky,
    lower_color: Rgb,
    upper_color: Rgb,
    elevation: int,
) -> ColorMix {
    let span = middle_angle(upper) - middle_angle(lower);
    if span == 0 {
        ColorMix { lower: lower_color, upper: upper_color, numerator: 0, denominator: 1 }
    } else {
        ColorMix {
            lower: lower_color,
            upper: upper_color,
            numerator: (elevation - middle_angle(lower)) as i64,
            denominator: span as i64,
        }
    }
}

/// Whether a band's angles lie in the range that the table covers.
pub open spec fn angles_in_range(s: Sky) -> bool {
    MIN_ELEVATION <= s.start_angle <= MAX_ELEVATION && MIN_ELEVATION <= s.end_angle
        <= MAX_ELEVATION
}

fn mix_colors(lower: Sky, upper: Sky, lower_color: Rgb, upper_color: Rgb, elevation: i64) -> (m:
    ColorMix)
    requires
        angles_in_range(lower),
        angles_in_range(upper),
        MIN_ELEVATION <= elevation <= MAX_ELEVATION,
    ensures
        m == mix_between(lower, upper, lower_color, upper_color, elevation as int),
        m.denominator != 0,
{
    let low: i64 = lower.midle_angle();
    let span: i64 = upper.midle_angle() - low;
    if span == 0 {
        ColorMix { lower: lower_color, upper: upper_color, numerator: 0, denominator: 1 }
    } else {
        ColorMix {
            lower: lower_color,
            upper: upper_color,
            numerator: elevation - low,
            denominator: span,
        }
    }
}

/// How far into the night the sky is at `elevation`, in millionths: 0 from the
/// day elevation up, 1000000 from the night elevation down, and in proportion
/// between the two.
pub open spec fn night_factor_of(elevation: int) -> int {
    if elevation >= DAY_ELEVATION {
        0
    } else if elevation <= NIGHT_ELEVATION {
        MILLION as int
    } else {
        (DAY_ELEVATION - elevation) * MILLION / (DAY_ELEVATION - NIGHT_ELEVATION)
    }
}

/// Computes the night factor at `elevation`.
pub fn night_factor(elevation: i64) -> (f: u32)
    ensures
        f == night_factor_of(elevation as int),
        f <= MILLION,
{
    if elevation >= DAY_ELEVATION {
        0
    } else if elevation <= NIGHT_ELEVATION {
        1_000_000
    } else {
        let f: i64 = (500_000 - elevation) * 1_000_000 / 8_500_000;
        f as u32
    }
}

/// The class of the time of day of a part of the day.
pub open spec fn time_of_day_of(moment: SkyMoment) -> TimeOfDay {
    match moment {
        SkyMoment::NIGHT => TimeOfDay::NIGHT,
        SkyMoment::MORNING | SkyMoment::AFTERNOON => TimeOfDay::DAY,
        _ => TimeOfDay::TWILIGHT,
    }
}

/// Collapses the part of the day into night, twilight or day.
pub fn time_of_day(moment: SkyMoment) -> (t: TimeOfDay)
    ensures
        t == time_of_day_of(moment),
{
    match moment {
        SkyMoment::NIGHT => TimeOfDay::NIGHT,
        SkyMoment::DAWN => TimeOfDay::TWILIGHT,
        SkyMoment::SUNRISE => TimeOfDay::TWILIGHT,
        SkyMoment::MORNING => TimeOfDay::DAY,
        SkyMoment::AFTERNOON => TimeOfDay::DAY,
        SkyMoment::SUNSET => TimeOfDay::TWILIGHT,
        SkyMoment::DUSK => TimeOfDay::TWILIGHT,
    }
}

/// Direction of the gradient on the screen: the elevation turned by 90 degrees
/// with the sun rising, by 270 degrees with the sun sinking.
pub open spec fn gradient_angle_of(elevation: int, afternoon: bool) -> int {
    if afternoon {
        270 * DEGREE + elevation
    } else {
        90 * DEGREE + elevation
    }
}

/// The sky for a position of the sun: the class of the time of day, the night
/// factor, and the gradient whose two stops blend the start colours and the end
/// colours of the neighbouring bands.
pub open spec fn sky_of(sun: SolarPosition) -> (TimeOfDay, u32, LinearGradientBrush) {
    let elevation = sun.spec_elevation() as int;
    let afternoon = sun.spec_is_afternoon();
    let idx = band_of(elevation, afternoon);
    let (lo, up) = blend_bands(idx, elevation);
    let lower = sky_table(lo);
    let upper = sky_table(up);
    (
        time_of_day_of(sky_table(idx).moment),
        night_factor_of(elevation) as u32,
        LinearGradientBrush {
            angle: gradient_angle_of(elevation, afternoon) as i64,
            first: GradientStop {
                color: mix_between(
                    lower,
                    upper,
                    lower.gradient.start,
                    upper.gradient.start,
                    elevation,
                ),
                position: FIRST_STOP,
            },
            second: GradientStop {
                color: mix_between(lower, upper, lower.gradient.end, upper.gradient.end, elevation),
                position: SECOND_STOP,
            },
        },
    )
}

/// Every band of the table has its angles in the range that the table covers.
pub proof fn lemma_table_in_range(i: int)
    requires
        0 <= i < SKY_LEN,
    ensures
        angles_in_range(sky_table(i)),
{
}

/// Computes the sky for a position of the sun.
pub fn get_slint_gradient(sun: SolarPosition) -> (r: (TimeOfDay, u32, LinearGradientBrush))
    ensures
        r == sky_of(sun),
        r.1 <= MILLION,
        r.2.first.color.denominator != 0,
        r.2.second.color.denominator != 0,
{
    let elevation: i64 = sun.elevation();
    let afternoon: bool = sun.is_afternoon();
    let idx: usize = find_band(elevation, afternoon);
    let current_sky = sky(idx);
    let (lo, up) = find_blend_bands(idx, elevation);
    let lower_sky = sky(lo);
    let upper_sky = sky(up);
    proof {
        lemma_table_in_range(lo as int);
        lemma_table_in_range(up as int);
    }
    let start_color = mix_colors(
        lower_sky,
        upper_sky,
        lower_sky.gradient.start,
        upper_sky.gradient.start,
        elevation,
    );
    let end_color = mix_colors(
        lower_sky,
        upper_sky,
        lower_sky.gradient.end,
        upper_sky.gradient.end,
        elevation,
    );
    let tod = time_of_day(current_sky.moment);
    let corrected_angle: i64 = if afternoon {
        270 * DEGREE + elevation
    } else {
        90 * DEGREE + elevation
    };
    (
        tod,
        night_factor(elevation),
        LinearGradientBrush {
            angle: corrected_angle,
            first: GradientStop { color: start_color, position: FIRST_STOP },
            second: GradientStop { color: end_color, position: SECOND_STOP },
        },
    )
}

/// One elevation never has the same band on both sides of the day: with the
/// sun rising the band in force is one of the bands 0 to 10, with the sun
/// sinking one of the bands 11 to 21.
pub proof fn lemma_sides_differ(elevation: int)
    ensures
        0 <= band_of(elevation, false) <= LAST_MORNING_BAND,
        FIRST_AFTERNOON_BAND <= band_of(elevation, true) < SKY_LEN,
        band_of(elevation, false) != band_of(elevation, true),
{
    reveal_with_fuel(first_start_above, 23);
    reveal_with_fuel(last_start_above, 23);
}

/// The band in force holds the elevation: with the sun rising the elevation
/// lies from the band's start up to, but without, its end; with the sun
/// sinking it lies from the band's end up to, but without, its start. The end
/// of a band is the start of the next one.
pub proof fn lemma_band_encloses(elevation: int, afternoon: bool)
    requires
        MIN_ELEVATION <= elevation < sky_table(FIRST_AFTERNOON_BAND as int).start_angle,
    ensures
        !afternoon ==> sky_table(band_of(elevation, false)).start_angle <= elevation
            < sky_table(band_of(elevation, false)).end_angle,
        afternoon ==> sky_table(band_of(elevation, true)).end_angle <= elevation < sky_table(
            band_of(elevation, true),
        ).start_angle,
{
    reveal_with_fuel(first_start_above, 23);
    reveal_with_fuel(last_start_above, 23);
}

/// An elevation that is the start angle of a band resolves to the band that
/// lies above it: with the sun rising the band that starts there, with the sun
/// sinking the band that ends there.
pub proof fn lemma_boundary_resolves_upward(i: int)
    requires
        0 <= i < SKY_LEN,
    ensures
        i <= LAST_MORNING_BAND ==> band_of(sky_table(i).start_angle as int, false) == i,
        i > FIRST_AFTERNOON_BAND ==> band_of(sky_table(i).start_angle as int, true) == i - 1,
{
    reveal_with_fuel(first_start_above, 23);
    reveal_with_fuel(last_start_above, 23);
}

/// For every position of the sun the colour is blended between two bands that
/// follow each other in the table and whose middles differ: the search runs off
/// neither end of the table, and the weight of the blend is a true fraction.
pub proof fn lemma_blend_between_neighbours(sun: SolarPosition)
    requires
        sun.valid(),
    ensures
        ({
            let e = sun.spec_elevation() as int;
            let (lo, up) = blend_bands(band_of(e, sun.spec_is_afternoon()), e);
            &&& 0 <= lo
            &&& up == lo + 1
            &&& up < SKY_LEN
            &&& middle_angle(sky_table(up)) != middle_angle(sky_table(lo))
        }),
{
    reveal_with_fuel(first_start_above, 23);
    reveal_with_fuel(last_start_above, 23);
}

/// The table runs through the day without a gap: the start angles rise from
/// band to band up to the first band of the afternoon and fall from there on,
/// and every band ends where the next one starts. The first band starts, and
/// the last one ends, at the lowest elevation.
pub proof fn lemma_table_order(i: int)
    requires
        0 <= i < SKY_LEN - 1,
    ensures
        i < FIRST_AFTERNOON_BAND ==> sky_table(i).start_angle < sky_table(i + 1).start_angle,
        i >= FIRST_AFTERNOON_BAND ==> sky_table(i).start_angle > sky_table(i + 1).start_angle,
        sky_table(i).end_angle == sky_table(i + 1).start_angle,
        sky_table(0).start_angle == MIN_ELEVATION,
        sky_table(SKY_LEN - 1).end_angle == MIN_ELEVATION,
{
}

/// The colour is continuous at the middle of a band: there the blend is
/// between the band and the one after it, and the band has all the weight.
pub proof fn lemma_blend_at_middle(idx: int)
    requires
        0 <= idx < SKY_LEN,
    ensures
        blend_bands(idx, middle_angle(sky_table(idx))).0 == idx,
        mix_between(
            sky_table(idx),
            sky_table(blend_bands(idx, middle_angle(sky_table(idx))).1),
            sky_table(idx).gradient.start,
            sky_table(blend_bands(idx, middle_angle(sky_table(idx))).1).gradient.start,
            middle_angle(sky_table(idx)),
        ).numerator == 0,
{
}

} // verus!
