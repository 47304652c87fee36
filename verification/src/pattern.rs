//! The pattern compositor: from a signal level to a 5x5 LED bitmap.

use vstd::prelude::*;
use crate::level::Sample;
use crate::level::SignalLevel;
use crate::level::level_of_sample;

verus! {

/// One display frame: a 5x5 grid of cells, 0 for off and 1 for on.
pub type Lights = [[u8; 5]; 5];

/// The blank pattern: every cell off.
pub open spec fn off_cell(row: int, col: int) -> u8 {
    0
}

/// The centre pattern: the single middle cell on.
pub open spec fn center_cell(row: int, col: int) -> u8 {
    if row == 2 && col == 2 {
        1
    } else {
        0
    }
}

/// The inner-ring pattern: the hollow 3x3 square around the middle cell.
pub open spec fn inner_ring_cell(row: int, col: int) -> u8 {
    if 1 <= row <= 3 && 1 <= col <= 3 && !(row == 2 && col == 2) {
        1
    } else {
        0
    }
}

/// The outer-ring pattern: the full border of the 5x5 grid.
pub open spec fn outer_ring_cell(row: int, col: int) -> u8 {
    if row == 0 || row == 4 || col == 0 || col == 4 {
        1
    } else {
        0
    }
}

/// The blank frame.
pub fn off() -> (r: Lights)
    ensures
        forall|i: int, j: int| 0 <= i < 5 && 0 <= j < 5 ==> r[i][j] == off_cell(i, j),
{
    [[0u8; 5]; 5]
}

/// The frame showing only the centre cell.
pub fn center() -> (r: Lights)
    ensures
        forall|i: int, j: int| 0 <= i < 5 && 0 <= j < 5 ==> r[i][j] == center_cell(i, j),
{
    let mut r: Lights = [[0u8; 5]; 5];
    let mut row: [u8; 5] = [0u8; 5];
    row[2] = 1;
    r[2] = row;
    r
}

/// The frame showing the inner ring.
pub fn inner_ring() -> (r: Lights)
    ensures
        forall|i: int, j: int| 0 <= i < 5 && 0 <= j < 5 ==> r[i][j] == inner_ring_cell(i, j),
{
    let mut r: Lights = [[0u8; 5]; 5];
    let mut i: usize = 0;
    while i < 5
        invariant
            i <= 5,
            forall|a: int, b: int| 0 <= a < i && 0 <= b < 5 ==> r[a][b] == inner_ring_cell(a, b),
        decreases 5 - i,
    {
        let mut row: [u8; 5] = [0u8; 5];
        let mut j: usize = 0;
        while j < 5
            invariant
                i < 5,
                j <= 5,
                forall|b: int| 0 <= b < j ==> row[b] == inner_ring_cell(i as int, b),
                forall|b: int| j <= b < 5 ==> row[b] == 0,
            decreases 5 - j,
        {
            if 1 <= i && i <= 3 && 1 <= j && j <= 3 && !(i == 2 && j == 2) {
                row[j] = 1;
            }
            j = j + 1;
        }
        r[i] = row;
        i = i + 1;
    }
    r
}

/// The frame showing the outer ring.
pub fn outer_ring() -> (r: Lights)
    ensures
        forall|i: int, j: int| 0 <= i < 5 && 0 <= j < 5 ==> r[i][j] == outer_ring_cell(i, j),
{
    let mut r: Lights = [[0u8; 5]; 5];
    let mut i: usize = 0;
    while i < 5
        invariant
            i <= 5,
            forall|a: int, b: int| 0 <= a < i && 0 <= b < 5 ==> r[a][b] == outer_ring_cell(a, b),
        decreases 5 - i,
    {
        let mut row: [u8; 5] = [0u8; 5];
        let mut j: usize = 0;
        while j < 5
            invariant
                i < 5,
                j <= 5,
                forall|b: int| 0 <= b < j ==> row[b] == outer_ring_cell(i as int, b),
                forall|b: int| j <= b < 5 ==> row[b] == 0,
            decreases 5 - j,
        {
            if i == 0 || i == 4 || j == 0 || j == 4 {
                row[j] = 1;
            }
            j = j + 1;
        }
        r[i] = row;
        i = i + 1;
    }
    r
}

/// Combines two frames cell by cell with bitwise OR.
pub fn combine(x: Lights, y: Lights) -> (r: Lights)
    ensures
        forall|i: int, j: int| 0 <= i < 5 && 0 <= j < 5 ==> r[i][j] == (x[i][j] | y[i][j]),
{
    let mut r: Lights = [[0u8; 5]; 5];
    let mut i: usize = 0;
    while i < 5
        invariant
            i <= 5,
            forall|a: int, b: int| 0 <= a < i && 0 <= b < 5 ==> r[a][b] == (x[a][b] | y[a][b]),
        decreases 5 - i,
    {
        let mut row: [u8; 5] = [0u8; 5];
        let mut j: usize = 0;
        while j < 5
            invariant
                i < 5,
                j <= 5,
                forall|b: int| 0 <= b < j ==> row[b] == (x[i as int][b] | y[i as int][b]),
            decreases 5 - j,
        {
            row[j] = x[i][j] | y[i][j];
            j = j + 1;
        }
        r[i] = row;
        i = i + 1;
    }
    r
}

/// The cell at (row, col) of the frame shown for a level: blank, then the
/// outer ring, the inner ring, the centre, and from there upward OR-unions
/// of the ring patterns.
pub open spec fn level_cell(level: SignalLevel, row: int, col: int) -> u8 {
    match level {
        SignalLevel::Level0 => off_cell(row, col),
        SignalLevel::Level1 => outer_ring_cell(row, col),
        SignalLevel::Level2 => inner_ring_cell(row, col),
        SignalLevel::Level3 => center_cell(row, col),
        SignalLevel::Level4 => center_cell(row, col) | inner_ring_cell(row, col),
        SignalLevel::Level5 => (center_cell(row, col) | inner_ring_cell(row, col))
            | outer_ring_cell(row, col),
    }
}

/// Composes the frame for a signal level from the fixed ring patterns.
pub fn lights_for_level(level: SignalLevel) -> (r: Lights)
    ensures
        forall|i: int, j: int|
            #![trigger r[i][j]]
            #![trigger level_cell(level, i, j)]
            0 <= i < 5 && 0 <= j < 5 ==> r[i][j] == level_cell(level, i, j),
{
    match level {
        SignalLevel::Level0 => off(),
        SignalLevel::Level1 => outer_ring(),
        SignalLevel::Level2 => inner_ring(),
        SignalLevel::Level3 => center(),
        SignalLevel::Level4 => combine(center(), inner_ring()),
        SignalLevel::Level5 => combine(combine(center(), inner_ring()), outer_ring()),
    }
}

/// How long the display sink is asked to hold each frame, in milliseconds.
pub const FRAME_HOLD_MS: u32 = 100;

/// One whole display step: classifies a sample and composes the frame for
/// its level. Each loop iteration of the surrounding program is one call of
/// this function, fed to the display sink together with `FRAME_HOLD_MS`.
pub fn frame_for_sample(s: Sample) -> (r: Lights)
    ensures
        forall|i: int, j: int|
            #![trigger r[i][j]]
            #![trigger level_cell(level_of_sample(s), i, j)]
            0 <= i < 5 && 0 <= j < 5 ==> r[i][j] == level_cell(level_of_sample(s), i, j),
{
    let level = SignalLevel::from(s);
    lights_for_level(level)
}

/// Facts about bitwise OR on single cells, proved at the bit level.
proof fn lemma_or_u8(a: u8, b: u8)
    by (bit_vector)
    ensures
        (a | b) == (b | a),
        (a | a) == a,
        a != 0 ==> (a | b) != 0,
        b != 0 ==> (a | b) != 0,
        a == 0 && b == 0 ==> (a | b) == 0,
{
}

/// From Level3 upward each next level lights a superset of cells: the centre
/// alone, then centre with inner ring, then all three rings together. (The
/// frames of Level1 and Level2 are single disjoint rings, not nested with
/// the others.)
pub proof fn lemma_upper_levels_nested(i: int, j: int)
    requires
        0 <= i < 5,
        0 <= j < 5,
    ensures
        level_cell(SignalLevel::Level3, i, j) != 0 ==> level_cell(SignalLevel::Level4, i, j) != 0,
        level_cell(SignalLevel::Level4, i, j) != 0 ==> level_cell(SignalLevel::Level5, i, j) != 0,
{
    lemma_or_u8(center_cell(i, j), inner_ring_cell(i, j));
    lemma_or_u8(center_cell(i, j) | inner_ring_cell(i, j), outer_ring_cell(i, j));
}

/// The frames of Level1, Level2 and Level3 are single rings that share no
/// cell with one another: the nesting above only begins at Level3.
pub proof fn lemma_lower_levels_disjoint(i: int, j: int)
    requires
        0 <= i < 5,
        0 <= j < 5,
    ensures
        !(level_cell(SignalLevel::Level1, i, j) != 0 && level_cell(SignalLevel::Level2, i, j)
            != 0),
        !(level_cell(SignalLevel::Level1, i, j) != 0 && level_cell(SignalLevel::Level3, i, j)
            != 0),
        !(level_cell(SignalLevel::Level2, i, j) != 0 && level_cell(SignalLevel::Level3, i, j)
            != 0),
{
}

/// Combining is commutative: fed the same two frames in either order,
/// `combine` produces the same frame.
pub proof fn lemma_combine_commutative(x: Lights, y: Lights, xy: Lights, yx: Lights)
    requires
        forall|i: int, j: int| 0 <= i < 5 && 0 <= j < 5 ==> xy[i][j] == (x[i][j] | y[i][j]),
        forall|i: int, j: int| 0 <= i < 5 && 0 <= j < 5 ==> yx[i][j] == (y[i][j] | x[i][j]),
    ensures
        xy == yx,
{
    assert forall|i: int| 0 <= i < 5 implies xy[i] == yx[i] by {
        assert forall|j: int| 0 <= j < 5 implies xy[i][j] == yx[i][j] by {
            lemma_or_u8(x[i][j], y[i][j]);
        }
        assert(xy[i] =~= yx[i]);
    }
    assert(xy =~= yx);
}

/// Combining is idempotent: combining a frame with itself gives that frame
/// back.
pub proof fn lemma_combine_idempotent(x: Lights, xx: Lights)
    requires
        forall|i: int, j: int| 0 <= i < 5 && 0 <= j < 5 ==> xx[i][j] == (x[i][j] | x[i][j]),
    ensures
        xx == x,
{
    assert forall|i: int| 0 <= i < 5 implies xx[i] == x[i] by {
        assert forall|j: int| 0 <= j < 5 implies xx[i][j] == x[i][j] by {
            lemma_or_u8(x[i][j], x[i][j]);
        }
        assert(xx[i] =~= x[i]);
    }
    assert(xx =~= x);
}

} // verus!
