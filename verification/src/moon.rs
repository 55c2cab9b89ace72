//! The moon at an instant: position in the lunation, age, lunation number, and
//! the geometry of its picture. Fractions are held in millionths, and the
//! moon's cycles are counted in nanoseconds on the time line.

use crate::time::UtcTime;
use crate::ui::{Circle, MoonImage, Rgb};
use vstd::arithmetic::div_mod::lemma_mod_multiples_vanish;
use vstd::prelude::*;

verus! {

/// The period of the lunar orbit, 29.53058770576 days, in nanoseconds.
pub const ORBIT_PERIOD: i64 = 2_551_442_777_777_664;

/// The new moon from which the lunar orbit is counted, Julian date 2451550.26,
/// in nanoseconds since the epoch.
pub const ORBIT_OFFSET: i64 = 947_182_464_000_000_000;

/// The period of the lunar distance, 27.55454988 days, in nanoseconds.
pub const DISTANCE_PERIOD: i64 = 2_380_713_109_632_000;

/// The instant from which the lunar distance is counted, Julian date
/// 2451562.2, in nanoseconds since the epoch.
pub const DISTANCE_OFFSET: i64 = 948_214_080_000_000_000;

/// The instant from which lunations are numbered, Julian date
/// 2423436.6115277777 to the nearest second, in nanoseconds since the epoch.
pub const LUNATION_BASE: i64 = -1_481_836_764_000_000_000;

/// The mean radius of the earth, 6371.0084 km, in millimetres.
pub const EARTH_RADIUS_KM: u64 = 6_371_008_400;

/// The Julian date of the epoch, 2440587.5, in millionths of a day.
pub const EPOCH_JULIAN_DATE: i64 = 2_440_587_500_000;

/// Nanoseconds in a millionth of a day.
pub const NANOS_PER_MICRODAY: i64 = 86_400_000;

/// The unit of fractions: a whole, in millionths.
pub const WHOLE: u32 = 1_000_000;

/// Side of the moon's picture in pixels.
pub const IMAGE_SIZE: u32 = 34;

/// A named stretch of the lunation, from `start` up to but without `end`, in
/// millionths.
#[derive(Clone, Copy, Debug)]
pub struct Phase {
    /// Name of the lunar phase.
    pub name: &'static str,
    /// Emoji of the lunar phase.
    pub emoji: &'static str,
    /// Start of the lunar phase.
    pub start: u32,
    /// End of the lunar phase.
    pub end: u32,
}

/// Number of named phases.
pub const PHASES_LEN: usize = 8;

/// The named phases, in the order of the lunation.
pub open spec fn phase_table(i: int) -> Phase {
    if i == 0 {
        Phase { emoji: "\u{1F311}", name: "New Moon", start: 0, end: 20_000 }
    } else if i == 1 {
        Phase { emoji: "\u{1F312}", name: "Waxing Crescent", start: 20_000, end: 220_000 }
    } else if i == 2 {
        Phase { emoji: "\u{1F313}", name: "First Quarter", start: 220_000, end: 270_000 }
    } else if i == 3 {
        Phase { emoji: "\u{1F314}", name: "Waxing Gibbous", start: 270_000, end: 470_000 }
    } else if i == 4 {
        Phase { emoji: "\u{1F315}", name: "Full Moon", start: 470_000, end: 520_000 }
    } else if i == 5 {
        Phase { emoji: "\u{1F316}", name: "Waning Gibbous", start: 520_000, end: 720_000 }
    } else if i == 6 {
        Phase { emoji: "\u{1F317}", name: "Last Quarter", start: 720_000, end: 770_000 }
    } else {
        Phase { emoji: "\u{1F318}", name: "Waning Crescent", start: 770_000, end: 1_000_000 }
    }
}

/// Named phase `i`.
pub fn phases(i: usize) -> (p: Phase)
    requires
        i < PHASES_LEN,
    ensures
        p == phase_table(i as int),
{
    if i == 0 {
        Phase { emoji: "\u{1F311}", name: "New Moon", start: 0, end: 20_000 }
    } else if i == 1 {
        Phase { emoji: "\u{1F312}", name: "Waxing Crescent", start: 20_000, end: 220_000 }
    } else if i == 2 {
        Phase { emoji: "\u{1F313}", name: "First Quarter", start: 220_000, end: 270_000 }
    } else if i == 3 {
        Phase { emoji: "\u{1F314}", name: "Waxing Gibbous", start: 270_000, end: 470_000 }
    } else if i == 4 {
        Phase { emoji: "\u{1F315}", name: "Full Moon", start: 470_000, end: 520_000 }
    } else if i == 5 {
        Phase { emoji: "\u{1F316}", name: "Waning Gibbous", start: 520_000, end: 720_000 }
    } else if i == 6 {
        Phase { emoji: "\u{1F317}", name: "Last Quarter", start: 720_000, end: 770_000 }
    } else {
        Phase { emoji: "\u{1F318}", name: "Waning Crescent", start: 770_000, end: 1_000_000 }
    }
}

/// What is known of the moon at one instant.
#[derive(Clone, Copy, Debug, PartialEq, Eq, Structural)]
pub struct Moon {
    /// Days since noon on January 1, 4713 BC, in millionths of a day.
    pub julian_date: i64,
    /// Position in the lunation in millionths: 0 is new moon, 500000 full moon.
    pub phase: u32,
    /// Time since new moon, in millionths of a day.
    pub age: u32,
    /// Lit part of the disc in millionths: 1000000 is a full moon.
    pub illumination: u32,
    /// Distance in millionths of the earth's radius.
    pub distance: u32,
    /// Number of the lunation.
    pub lunation: u16,
}

/// The Julian date, in millionths of a day rounded down, of the instant
/// `nanos` nanoseconds after the epoch.
pub open spec fn julian_date_of(nanos: int) -> int {
    nanos / (NANOS_PER_MICRODAY as int) + EPOCH_JULIAN_DATE
}

/// Time since the last new moon, in nanoseconds.
pub open spec fn lunation_position(nanos: int) -> int {
    (nanos - ORBIT_OFFSET) % (ORBIT_PERIOD as int)
}

/// Position in the lunation, in millionths rounded down.
pub open spec fn phase_of(nanos: int) -> int {
    lunation_position(nanos) * WHOLE / (ORBIT_PERIOD as int)
}

/// Time since the last new moon, in millionths of a day rounded down.
pub open spec fn age_of(nanos: int) -> int {
    lunation_position(nanos) / (NANOS_PER_MICRODAY as int)
}

/// Position in the cycle of the lunar distance, in millionths rounded down.
pub open spec fn distance_phase_of(nanos: int) -> int {
    ((nanos - DISTANCE_OFFSET) % (DISTANCE_PERIOD as int)) * WHOLE / (DISTANCE_PERIOD as int)
}

/// Number of the lunation: one more than the whole orbits since the base
/// instant, kept within 0 and 65535.
pub open spec fn lunation_of(nanos: int) -> int {
    let n = 1 + (nanos - LUNATION_BASE) / (ORBIT_PERIOD as int);
    if n < 0 {
        0
    } else if n > u16::MAX {
        u16::MAX as int
    } else {
        n
    }
}

fn total_nanos(time: UtcTime) -> (n: i128)
    ensures
        n == time.total_nanos(),
        -8_334_601_228_800_000_000_000 <= n <= 8_210_266_876_799_999_999_999,
{
    let secs: i64 = time.timestamp();
    let nanos: u32 = time.timestamp_subsec_nanos();
    (secs as i128) * 1_000_000_000 + (nanos as i128)
}

fn floor_div(x: i128, d: i64) -> (q: i128)
    requires
        d > 0,
        -10_000_000_000_000_000_000_000 <= x <= 10_000_000_000_000_000_000_000,
    ensures
        q == (x as int) / (d as int),
{
    assert(-10_000_000_000_000_000_000_000 <= (x as int) / (d as int) <= 10_000_000_000_000_000_000_000)
        by (nonlinear_arith)
        requires
            d > 0,
            -10_000_000_000_000_000_000_000 <= x <= 10_000_000_000_000_000_000_000,
    ;
    match x.checked_div_euclid(d as i128) {
        Some(q) => q,
        None => 0,
    }
}

fn floor_mod(x: i128, d: i64) -> (r: i64)
    requires
        d > 0,
    ensures
        r == (x as int) % (d as int),
        0 <= r < d,
{
    assert(0 <= (x as int) % (d as int) < d) by (nonlinear_arith)
        requires
            d > 0,
    ;
    match x.checked_rem_euclid(d as i128) {
        Some(r) => r as i64,
        None => 0,
    }
}

/// Computes the Julian date of an instant.
pub fn julian_date(time: UtcTime) -> (jd: i64)
    ensures
        jd == julian_date_of(time.total_nanos()),
{
    let n: i128 = total_nanos(time);
    let days: i128 = floor_div(n, NANOS_PER_MICRODAY);
    assert(-100_000_000_000_000_000 <= n / 86_400_000 <= 100_000_000_000_000_000);
    (days + EPOCH_JULIAN_DATE as i128) as i64
}

/// Computes the position in the lunation at an instant.
pub fn phase(time: UtcTime) -> (p: u32)
    ensures
        p == phase_of(time.total_nanos()),
        p < WHOLE,
{
    let n: i128 = total_nanos(time);
    let position: i64 = floor_mod(n - ORBIT_OFFSET as i128, ORBIT_PERIOD);
    let p: i128 = (position as i128) * 1_000_000 / (ORBIT_PERIOD as i128);
    assert(position * 1_000_000 / (ORBIT_PERIOD as int) < 1_000_000) by (nonlinear_arith)
        requires
            0 <= position < ORBIT_PERIOD,
            ORBIT_PERIOD > 0,
    ;
    p as u32
}

/// Computes the position in the cycle of the lunar distance at an instant.
pub fn distance_phase(time: UtcTime) -> (p: u32)
    ensures
        p == distance_phase_of(time.total_nanos()),
        p < WHOLE,
{
    let n: i128 = total_nanos(time);
    let position: i64 = floor_mod(n - DISTANCE_OFFSET as i128, DISTANCE_PERIOD);
    let p: i128 = (position as i128) * 1_000_000 / (DISTANCE_PERIOD as i128);
    assert(position * 1_000_000 / (DISTANCE_PERIOD as int) < 1_000_000) by (nonlinear_arith)
        requires
            0 <= position < DISTANCE_PERIOD,
            DISTANCE_PERIOD > 0,
    ;
    p as u32
}

/// Computes the time since the last new moon at an instant.
pub fn age(time: UtcTime) -> (a: u32)
    ensures
        a == age_of(time.total_nanos()),
{
    let n: i128 = total_nanos(time);
    let position: i64 = floor_mod(n - ORBIT_OFFSET as i128, ORBIT_PERIOD);
    (position / NANOS_PER_MICRODAY) as u32
}

/// Computes the number of the lunation at an instant.
pub fn lunation(time: UtcTime) -> (l: u16)
    ensures
        l == lunation_of(time.total_nanos()),
{
    let n: i128 = total_nanos(time);
    let orbits: i128 = floor_div(n - LUNATION_BASE as i128, ORBIT_PERIOD);
    if orbits < -1 {
        0
    } else if orbits >= 65_535 {
        u16::MAX
    } else {
        (orbits + 1) as u16
    }
}

/// Index of the first named phase from `from` on that holds `phase`, or the
/// number of named phases when none does.
pub open spec fn phase_index_of(phase: int, from: int) -> int
    decreases PHASES_LEN - from,
{
    if from >= PHASES_LEN {
        PHASES_LEN as int
    } else if phase_table(from).start <= phase < phase_table(from).end {
        from
    } else {
        phase_index_of(phase, from + 1)
    }
}

/// Horizontal centre of the shadow on the moon's picture, in millionths of a
/// pixel: the centre of the disc moved by the lit part of the picture's width,
/// to the right past full moon and to the left before.
pub open spec fn shadow_center_of(phase: int, illumination: int) -> int {
    if phase > WHOLE / 2 {
        IMAGE_SIZE * illumination + (IMAGE_SIZE / 2) * WHOLE
    } else {
        (IMAGE_SIZE / 2) * WHOLE - IMAGE_SIZE * illumination
    }
}

/// The moon's picture for a position in the lunation and a lit part.
pub open spec fn image_of(phase: int, illumination: int) -> MoonImage {
    MoonImage {
        size: IMAGE_SIZE,
        color: Rgb { red: 255, green: 246, blue: 153 },
        disc: Circle { x: 17_000_000, y: 17_000_000, radius: 17_000_000 },
        shadow: Circle {
            x: shadow_center_of(phase, illumination) as i64,
            y: 17_000_000,
            radius: 17_000_000,
        },
        rotation: -25i32,
    }
}

impl Moon {
    /// A moon of which only the position in the lunation is set.
    pub fn test(phase: u32) -> (m: Moon)
        ensures
            m == (Moon {
                julian_date: 0,
                age: 0,
                phase: phase,
                illumination: 0,
                distance: 0,
                lunation: 0,
            }),
    {
        Moon { julian_date: 0, age: 0, phase: phase, illumination: 0, distance: 0, lunation: 0 }
    }

    /// The moon at `time`. The lit part of the disc and the distance, which
    /// follow from the position in the lunation by a cosine, are given by the
    /// caller.
    pub fn new(time: UtcTime, illumination: u32, distance: u32) -> (m: Moon)
        ensures
            m.julian_date == julian_date_of(time.total_nanos()),
            m.phase == phase_of(time.total_nanos()),
            m.age == age_of(time.total_nanos()),
            m.lunation == lunation_of(time.total_nanos()),
            m.illumination == illumination,
            m.distance == distance,
            m.phase < WHOLE,
    {
        Moon {
            julian_date: julian_date(time),
            age: age(time),
            phase: phase(time),
            illumination,
            distance,
            lunation: lunation(time),
        }
    }

    /// Returns the distance of the moon in kilometres, rounded down.
    pub fn distance_km(&self) -> (km: u64)
        ensures
            km == self.distance * EARTH_RADIUS_KM / 1_000_000_000_000,
    {
        ((self.distance as u128) * (EARTH_RADIUS_KM as u128) / 1_000_000_000_000) as u64
    }

    /// Checks if the moon is in the waning phase.
    pub fn is_waning(&self) -> (b: bool)
        ensures
            b == (self.age < WHOLE / 2),
    {
        self.age < 500_000
    }

    /// Checks if the moon is in the waxing phase.
    pub fn is_waxing(&self) -> (b: bool)
        ensures
            b == (self.age > WHOLE / 2),
    {
        self.age > 500_000
    }

    /// Returns the name of the moon phase.
    pub fn phase_name(&self) -> (name: &'static str)
        ensures
            phase_index_of(self.phase as int, 0) < PHASES_LEN ==> name == phase_table(
                phase_index_of(self.phase as int, 0),
            ).name,
            phase_index_of(self.phase as int, 0) >= PHASES_LEN ==> name == "Unknown",
    {
        let mut i: usize = 0;
        while i < PHASES_LEN
            invariant
                i <= PHASES_LEN,
                phase_index_of(self.phase as int, 0) == phase_index_of(self.phase as int, i as int),
            decreases PHASES_LEN - i,
        {
            let p = phases(i);
            if self.phase >= p.start && self.phase < p.end {
                return p.name;
            }
            i += 1;
        }
        "Unknown"
    }

    /// Returns the emoji of the moon phase.
    pub fn phase_emoji(&self) -> (emoji: &'static str)
        ensures
            phase_index_of(self.phase as int, 0) < PHASES_LEN ==> emoji == phase_table(
                phase_index_of(self.phase as int, 0),
            ).emoji,
            phase_index_of(self.phase as int, 0) >= PHASES_LEN ==> emoji == "Unknown",
    {
        let mut i: usize = 0;
        while i < PHASES_LEN
            invariant
                i <= PHASES_LEN,
                phase_index_of(self.phase as int, 0) == phase_index_of(self.phase as int, i as int),
            decreases PHASES_LEN - i,
        {
            let p = phases(i);
            if self.phase >= p.start && self.phase < p.end {
                return p.emoji;
            }
            i += 1;
        }
        "Unknown"
    }

    /// The shapes of the moon's picture: the full disc, and the circle of the
    /// shadow that is cut out of it.
    pub fn build_image(self) -> (image: MoonImage)
        ensures
            image == image_of(self.phase as int, self.illumination as int),
    {
        let lit: i64 = 34 * (self.illumination as i64);
        let computed: i64 = if self.phase > 500_000 {
            lit + 17_000_000
        } else {
            17_000_000 - lit
        };
        MoonImage {
            size: IMAGE_SIZE,
            color: Rgb { red: 255, green: 246, blue: 153 },
            disc: Circle { x: 17_000_000, y: 17_000_000, radius: 17_000_000 },
            shadow: Circle { x: computed, y: 17_000_000, radius: 17_000_000 },
            rotation: -25,
        }
    }
}

/// The position in the lunation repeats with the period of the lunar orbit:
/// any whole number of orbits later or earlier, the phase and the age are the
/// same.
pub proof fn lemma_phase_periodic(nanos: int, orbits: int)
    ensures
        lunation_position(nanos + orbits * ORBIT_PERIOD) == lunation_position(nanos),
        phase_of(nanos + orbits * ORBIT_PERIOD) == phase_of(nanos),
        age_of(nanos + orbits * ORBIT_PERIOD) == age_of(nanos),
{
    lemma_mod_multiples_vanish(orbits, nanos - ORBIT_OFFSET, ORBIT_PERIOD as int);
    assert(nanos + orbits * ORBIT_PERIOD - ORBIT_OFFSET == (ORBIT_PERIOD as int) * orbits + (nanos
        - ORBIT_OFFSET)) by (nonlinear_arith);
}

/// One orbit later the lunation number is one higher, as long as it lies
/// within its range.
pub proof fn lemma_lunation_advances(nanos: int)
    requires
        0 < lunation_of(nanos) < u16::MAX,
    ensures
        lunation_of(nanos + ORBIT_PERIOD) == lunation_of(nanos) + 1,
{
    vstd::arithmetic::div_mod::lemma_div_plus_one(nanos - LUNATION_BASE, ORBIT_PERIOD as int);
}

/// Every position in the lunation below a whole has a named phase, and the
/// named phases follow each other without gap or overlap.
pub proof fn lemma_phases_cover(phase: int)
    requires
        0 <= phase < WHOLE,
    ensures
        0 <= phase_index_of(phase, 0) < PHASES_LEN,
        phase_table(phase_index_of(phase, 0)).start <= phase < phase_table(
            phase_index_of(phase, 0),
        ).end,
        forall|i: int| 0 <= i < PHASES_LEN - 1 ==> phase_table(i).end == phase_table(i + 1).start,
{
    reveal_with_fuel(phase_index_of, 9);
}

} // verus!
