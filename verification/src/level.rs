//! The level classifier: from one 3-axis sample to one of six signal levels.

use vstd::prelude::*;

verus! {

/// One 3-axis magnetometer reading: the raw signed axis values exactly as
/// the sensor delivers them. No invariant holds beyond the fixed width.
#[derive(Clone, Copy, PartialEq, Eq, Structural, Debug)]
pub struct Sample {
    pub x: i32,
    pub y: i32,
    pub z: i32,
}

/// The six ordinal display levels, from quietest to strongest.
#[derive(Clone, Copy, PartialEq, Eq, Structural, Debug)]
pub enum SignalLevel {
    Level0,
    Level1,
    Level2,
    Level3,
    Level4,
    Level5,
}

/// The squared Euclidean magnitude of a sample. The magnitude itself is the
/// scalar proxy for field strength; it is kept squared here so that every
/// comparison below is exact integer arithmetic: for a threshold t >= 0 the
/// magnitude reaches t exactly when `mag_sq` reaches t * t.
pub open spec fn mag_sq(s: Sample) -> int {
    s.x * s.x + s.y * s.y + s.z * s.z
}

/// The least magnitude at which a sample reaches `level`. A magnitude m is
/// rescaled by (m - 20000) / 150000, clamped to [0, 5] and rounded to the
/// nearest level, half away from zero; so `level` is reached exactly when
/// the rescaled value reaches level - 1/2, that is when
/// m >= 20000 + 150000 * level - 75000.
pub open spec fn level_floor(level: int) -> int {
    150000 * level - 55000
}

/// The ordinal level for a given squared magnitude: the highest level whose
/// floor the magnitude reaches, or 0 where none is reached.
pub open spec fn level_of_mag_sq(ss: int) -> int {
    if ss >= level_floor(5) * level_floor(5) {
        5
    } else if ss >= level_floor(4) * level_floor(4) {
        4
    } else if ss >= level_floor(3) * level_floor(3) {
        3
    } else if ss >= level_floor(2) * level_floor(2) {
        2
    } else if ss >= level_floor(1) * level_floor(1) {
        1
    } else {
        0
    }
}

/// The position of a level in the total order Level0 < ... < Level5.
pub open spec fn level_ordinal(l: SignalLevel) -> int {
    match l {
        SignalLevel::Level0 => 0,
        SignalLevel::Level1 => 1,
        SignalLevel::Level2 => 2,
        SignalLevel::Level3 => 3,
        SignalLevel::Level4 => 4,
        SignalLevel::Level5 => 5,
    }
}

/// The level variant with the given ordinal; any ordinal outside 1..=5
/// yields Level0.
pub open spec fn level_from_ordinal(n: int) -> SignalLevel {
    if n == 1 {
        SignalLevel::Level1
    } else if n == 2 {
        SignalLevel::Level2
    } else if n == 3 {
        SignalLevel::Level3
    } else if n == 4 {
        SignalLevel::Level4
    } else if n == 5 {
        SignalLevel::Level5
    } else {
        SignalLevel::Level0
    }
}

/// The signal level a sample classifies to.
pub open spec fn level_of_sample(s: Sample) -> SignalLevel {
    level_from_ordinal(level_of_mag_sq(mag_sq(s)))
}

impl SignalLevel {
    /// The position of this level in the total order, as a plain integer.
    pub fn ordinal(self) -> (n: u8)
        ensures
            n as int == level_ordinal(self),
    {
        match self {
            SignalLevel::Level0 => 0,
            SignalLevel::Level1 => 1,
            SignalLevel::Level2 => 2,
            SignalLevel::Level3 => 3,
            SignalLevel::Level4 => 4,
            SignalLevel::Level5 => 5,
        }
    }
}

impl From<Sample> for SignalLevel {
    /// Classifies one sample: squares the axes, sums them, and picks the
    /// highest level whose squared magnitude floor is reached.
    fn from(s: Sample) -> (l: SignalLevel) {
        let x = s.x as i64;
        let y = s.y as i64;
        let z = s.z as i64;
        proof {
            assert(0 <= x * x <= 0x4000_0000_0000_0000) by (nonlinear_arith)
                requires -0x8000_0000 <= x <= 0x7fff_ffff;
            assert(0 <= y * y <= 0x4000_0000_0000_0000) by (nonlinear_arith)
                requires -0x8000_0000 <= y <= 0x7fff_ffff;
            assert(0 <= z * z <= 0x4000_0000_0000_0000) by (nonlinear_arith)
                requires -0x8000_0000 <= z <= 0x7fff_ffff;
        }
        let xx = (x * x) as u64;
        let yy = (y * y) as u64;
        let zz = (z * z) as u64;
        let ss = xx + yy + zz;
        assert(ss == mag_sq(s));
        proof {
            lemma_level_floor_squares();
        }
        if ss >= 483_025_000_000 {
            SignalLevel::Level5
        } else if ss >= 297_025_000_000 {
            SignalLevel::Level4
        } else if ss >= 156_025_000_000 {
            SignalLevel::Level3
        } else if ss >= 60_025_000_000 {
            SignalLevel::Level2
        } else if ss >= 9_025_000_000 {
            SignalLevel::Level1
        } else {
            SignalLevel::Level0
        }
    }
}

impl vstd::std_specs::convert::FromSpecImpl<Sample> for SignalLevel {
    open spec fn obeys_from_spec() -> bool {
        true
    }

    open spec fn from_spec(s: Sample) -> SignalLevel {
        level_of_sample(s)
    }
}

/// The squares of the five level floors, written out as the literals the
/// classifier compares against.
pub proof fn lemma_level_floor_squares()
    ensures
        level_floor(1) * level_floor(1) == 9_025_000_000,
        level_floor(2) * level_floor(2) == 60_025_000_000,
        level_floor(3) * level_floor(3) == 156_025_000_000,
        level_floor(4) * level_floor(4) == 297_025_000_000,
        level_floor(5) * level_floor(5) == 483_025_000_000,
{
    assert(95_000 * 95_000 == 9_025_000_000int) by (nonlinear_arith);
    assert(245_000 * 245_000 == 60_025_000_000int) by (nonlinear_arith);
    assert(395_000 * 395_000 == 156_025_000_000int) by (nonlinear_arith);
    assert(545_000 * 545_000 == 297_025_000_000int) by (nonlinear_arith);
    assert(695_000 * 695_000 == 483_025_000_000int) by (nonlinear_arith);
}

/// The noise floor: every sample whose magnitude is at most 20000 — squared
/// magnitude at most 20000 * 20000 — classifies to Level0, since the first
/// level floor lies above it.
pub proof fn lemma_noise_floor_level0(s: Sample)
    requires
        mag_sq(s) <= 20_000 * 20_000,
    ensures
        level_of_sample(s) == SignalLevel::Level0,
{
    lemma_level_floor_squares();
    assert(20_000 * 20_000 == 400_000_000int) by (nonlinear_arith);
}

/// Saturation: the rescaled magnitude is clamped at 5, so every sample whose
/// squared magnitude reaches the Level5 floor classifies to Level5. The
/// classifier saturates at magnitude 695000 = 20000 + 150000 * 5 - 75000 and
/// not before: one rescale unit above the noise floor (magnitude 170000) the
/// level is still 1.
pub proof fn lemma_saturation_level5(s: Sample)
    requires
        mag_sq(s) >= level_floor(5) * level_floor(5),
    ensures
        level_of_sample(s) == SignalLevel::Level5,
{
}

/// Monotone classification: of two squared magnitudes, the smaller one never
/// reaches a higher level.
pub proof fn lemma_level_monotone(ss1: int, ss2: int)
    requires
        ss1 < ss2,
    ensures
        level_of_mag_sq(ss1) <= level_of_mag_sq(ss2),
{
}

/// Monotone classification, stated on whole samples: a strictly smaller
/// magnitude classifies to an equal or lower level. Magnitudes are compared
/// through their squares, which orders them the same way.
pub proof fn lemma_sample_level_monotone(s1: Sample, s2: Sample)
    requires
        mag_sq(s1) < mag_sq(s2),
    ensures
        level_ordinal(level_of_sample(s1)) <= level_ordinal(level_of_sample(s2)),
{
    lemma_level_monotone(mag_sq(s1), mag_sq(s2));
}

} // verus!
